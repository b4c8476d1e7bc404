//! The frame loop: its states, the input it reacts to, and the commands it
//! issues each frame.
use vstd::prelude::*;

use crate::buffer::BufferAssembler;
use crate::errors::GuiInitError;
use crate::geometry::{Color, Shape, Vertex2D};
use crate::transform::Transform;

verus! {

/// The lifecycle of a renderer.
#[derive(Debug, Clone, Copy, PartialEq, Eq, Structural)]
pub enum LoopState {
    Uninitialized,
    Ready,
    Running,
    Terminated,
}

/// A key, as far as the loop distinguishes keys.
#[derive(Debug, Clone, Copy, PartialEq, Eq, Structural)]
pub enum KeyCode {
    Escape,
    Other(u32),
}

/// An input event delivered by the window system.
#[derive(Debug, Clone, Copy, PartialEq, Eq, Structural)]
pub enum WindowEvent {
    CloseRequested,
    KeyPressed(KeyCode),
}

/// One step of a frame, for the application to perform in order.
#[derive(Debug, Clone, Copy, PartialEq, Eq, Structural)]
pub enum FrameCommand {
    /// Clear the render target to the colour.
    Clear(Color),
    /// Write the transform into the uniform buffer.
    UpdateTransform(Transform),
    /// Draw the uploaded vertex and index buffers with the bound program.
    Draw,
    /// Submit the frame's recorded commands to the driver.
    Submit,
    /// Swap buffers.
    Present,
    /// Release the driver's per-frame caches.
    Cleanup,
}

/// Whether an event ends the loop.
pub open spec fn ends_loop(e: WindowEvent) -> bool {
    e == WindowEvent::CloseRequested || e == WindowEvent::KeyPressed(KeyCode::Escape)
}

/// Whether any of the events ends the loop.
pub open spec fn exit_requested(events: Seq<WindowEvent>) -> bool {
    exists|i: int| 0 <= i < events.len() && ends_loop(#[trigger] events[i])
}

/// The background colour: opaque black.
pub open spec fn background() -> Color {
    Color::new_spec_black()
}

/// The commands of one frame, in order.
pub open spec fn frame_commands(t: Transform) -> Seq<FrameCommand> {
    seq![
        FrameCommand::Clear(background()),
        FrameCommand::UpdateTransform(t),
        FrameCommand::Draw,
        FrameCommand::Submit,
        FrameCommand::Present,
        FrameCommand::Cleanup,
    ]
}

/// The state after a frame that saw `events`.
pub open spec fn state_after_frame(events: Seq<WindowEvent>) -> LoopState {
    if exit_requested(events) {
        LoopState::Terminated
    } else {
        LoopState::Running
    }
}

/// Owns the geometry and the transform, and sequences each frame.
#[derive(Debug)]
pub struct FrameRenderer {
    state: LoopState,
    geometry: BufferAssembler,
    transform: Option<Transform>,
}

impl FrameRenderer {
    pub closed spec fn state(&self) -> LoopState {
        self.state
    }

    pub closed spec fn geometry(&self) -> BufferAssembler {
        self.geometry
    }

    pub closed spec fn spec_transform(&self) -> Option<Transform> {
        self.transform
    }

    /// The geometry is well formed, and from `Ready` on a transform exists.
    pub closed spec fn wf(&self) -> bool {
        &&& self.geometry.wf()
        &&& (self.state != LoopState::Uninitialized ==> self.transform is Some)
    }

    /// A renderer with no geometry, not yet prepared.
    pub fn new() -> (r: FrameRenderer)
        ensures
            r.wf(),
            r.state() == LoopState::Uninitialized,
            r.geometry().vertex_seq() == Seq::<Vertex2D>::empty(),
            r.geometry().index_seq() == Seq::<u16>::empty(),
    {
        FrameRenderer { state: LoopState::Uninitialized, geometry: BufferAssembler::new(), transform: None }
    }

    /// Appends a shape's geometry; see `BufferAssembler::add`.
    pub fn add_to_vertex_buffer<S: Shape>(&mut self, shape: &S) -> (added: bool)
        requires
            old(self).wf(),
        ensures
            final(self).wf(),
            final(self).state() == old(self).state(),
            final(self).spec_transform() == old(self).spec_transform(),
            added == (old(self).geometry().vertex_seq().len() + shape.shape_vertices().len()
                <= crate::geometry::MAX_INDEXED_VERTICES),
            added ==> final(self).geometry().vertex_seq() == old(self).geometry().vertex_seq()
                + shape.shape_vertices(),
            added ==> final(self).geometry().index_seq() == old(self).geometry().index_seq()
                + crate::buffer::offset_indices(
                shape.shape_indices(),
                old(self).geometry().vertex_seq().len(),
            ),
            !added ==> final(self).geometry().vertex_seq() == old(self).geometry().vertex_seq(),
            !added ==> final(self).geometry().index_seq() == old(self).geometry().index_seq(),
    {
        self.geometry.add(shape)
    }

    /// The assembled geometry, for the application to upload.
    pub fn geometry_buffers(&self) -> (r: &BufferAssembler)
        ensures
            *r == self.geometry(),
    {
        &self.geometry
    }

    /// Moves from `Uninitialized` to `Ready` once the program is linked and
    /// the buffers are uploaded, computing the screen-fit transform for a
    /// window of `width` by `height` pixels. A window with no area fails with
    /// `WindowInit`, and the renderer stays as it was.
    pub fn prepare(&mut self, width: u32, height: u32) -> (r: Result<(), GuiInitError>)
        requires
            old(self).wf(),
            old(self).state() == LoopState::Uninitialized,
        ensures
            final(self).wf(),
            final(self).geometry() == old(self).geometry(),
            r is Ok <==> (width > 0 && height > 0),
            r matches Err(e) ==> e == GuiInitError::WindowInit && final(self).state()
                == LoopState::Uninitialized,
            r is Ok ==> final(self).state() == LoopState::Ready,
            r is Ok ==> (final(self).spec_transform() matches Some(t) && t.width() == width
                && t.height() == height),
    {
        match Transform::screen_fit(width, height) {
            Some(t) => {
                self.transform = Some(t);
                self.state = LoopState::Ready;
                Ok(())
            },
            None => Err(GuiInitError::WindowInit),
        }
    }

    /// Enters the frame loop.
    pub fn start(&mut self)
        requires
            old(self).wf(),
            old(self).state() == LoopState::Ready,
        ensures
            final(self).wf(),
            final(self).state() == LoopState::Running,
            final(self).geometry() == old(self).geometry(),
            final(self).spec_transform() == old(self).spec_transform(),
    {
        self.state = LoopState::Running;
    }

    /// Whether the loop has ended.
    pub fn is_terminated(&self) -> (r: bool)
        ensures
            r == (self.state() == LoopState::Terminated),
    {
        match self.state {
            LoopState::Terminated => true,
            _ => false,
        }
    }

    /// One pass of the loop, given the events polled since the last one:
    /// clear, update the transform, draw, submit, present, clean up. A close
    /// request or an Escape press ends the loop once this frame is done.
    pub fn frame_tick(&mut self, events: &Vec<WindowEvent>) -> (r: Vec<FrameCommand>)
        requires
            old(self).wf(),
            old(self).state() == LoopState::Running,
        ensures
            final(self).wf(),
            final(self).geometry() == old(self).geometry(),
            final(self).spec_transform() == old(self).spec_transform(),
            final(self).state() == state_after_frame(events@),
            r@ == frame_commands(old(self).spec_transform()->Some_0),
    {
        let mut exit = false;
        let mut i: usize = 0;
        while i < events.len()
            invariant
                i <= events.len(),
                exit == exists|j: int| 0 <= j < i && ends_loop(#[trigger] events@[j]),
            decreases events.len() - i,
        {
            let e = events[i];
            let ends = match e {
                WindowEvent::CloseRequested => true,
                WindowEvent::KeyPressed(KeyCode::Escape) => true,
                _ => false,
            };
            if ends {
                exit = true;
            }
            i = i + 1;
        }
        let t = self.transform.unwrap();
        let black = Color::black();
        let commands = vec![
            FrameCommand::Clear(black),
            FrameCommand::UpdateTransform(t),
            FrameCommand::Draw,
            FrameCommand::Submit,
            FrameCommand::Present,
            FrameCommand::Cleanup,
        ];
        if exit {
            self.state = LoopState::Terminated;
        }
        assert(commands@ =~= frame_commands(t));
        commands
    }
}

} // verus!
