use vstd::prelude::*;

use crate::shaders::shader::{Shader, SupportedShaderType};
use crate::shaders::{
    GlCall, GlReply, ShaderError, GL_COMPILE_FAILURE, diagnostic_text, log_capacity,
    log_capacity_of, log_text,
};

verus! {

/// A linked program object, owned by whoever holds this value.
///
/// It is only produced by a `ProgramLinker`, which only starts from one
/// vertex and one fragment shader. It is not `Clone`: `release` consumes it.
#[derive(Debug)]
pub struct ShaderProgram {
    id: u32,
}

/// Where a link session stands.
#[derive(Debug, Clone, Copy, PartialEq, Eq, Structural)]
pub enum LinkPhase {
    /// `CreateProgram` was issued.
    AwaitProgram,
    /// The vertex shader is being attached.
    AwaitAttachVertex { program: u32 },
    /// The fragment shader is being attached.
    AwaitAttachFragment { program: u32 },
    /// `LinkProgram` was issued.
    AwaitLinkStatus { program: u32 },
    /// The link failed and `ProgramLogLength` was issued.
    AwaitLogLength { program: u32 },
    /// `ProgramLog` was issued.
    AwaitLog { program: u32 },
    /// The vertex shader is being detached.
    AwaitDetachVertex { program: u32 },
    /// The fragment shader is being detached.
    AwaitDetachFragment { program: u32 },
    /// The failed program is being released.
    AwaitRelease { program: u32 },
    /// The session has produced its outcome.
    Finished,
}

/// What a link session asks for next.
#[derive(Debug)]
pub enum LinkStep {
    /// Perform this driver call and hand its reply to `resume`.
    Call(GlCall),
    /// The session is over.
    Done(Result<ShaderProgram, ShaderError>),
}

/// The linking of a vertex and a fragment shader into a program: allocate a
/// program, attach both shaders, link, read the log on failure, and detach
/// both shaders whatever the outcome. A failed program is released.
///
/// The shaders stay with their owner; the session keeps only their names.
#[derive(Debug)]
pub struct ProgramLinker {
    vertex: u32,
    fragment: u32,
    phase: LinkPhase,
    failed: bool,
    diagnostic: String,
}

/// Whether `reply` is the kind of answer that `phase` waits for.
pub open spec fn link_awaits(phase: LinkPhase, reply: GlReply) -> bool {
    match phase {
        LinkPhase::AwaitProgram => reply is Name,
        LinkPhase::AwaitLinkStatus { .. } => reply is Status,
        LinkPhase::AwaitLogLength { .. } => reply is LogLength,
        LinkPhase::AwaitLog { .. } => reply is Log,
        LinkPhase::Finished => false,
        _ => reply is Done,
    }
}

/// Whether two stages can form a program: a vertex stage, then a fragment one.
pub open spec fn linkable(vertex: SupportedShaderType, fragment: SupportedShaderType) -> bool {
    vertex == SupportedShaderType::Vertex && fragment == SupportedShaderType::Fragment
}

impl ShaderProgram {
    pub closed spec fn spec_id(&self) -> u32 {
        self.id
    }

    /// Starts linking `vertex_shader` and `fragment_shader`: returns the
    /// session and its first driver call. Any pairing other than one vertex
    /// and one fragment shader is refused, and then no call is issued.
    pub fn new(vertex_shader: &Shader, fragment_shader: &Shader) -> (r: Result<
        (ProgramLinker, GlCall),
        ShaderError,
    >)
        ensures
            r is Ok <==> linkable(vertex_shader.spec_kind(), fragment_shader.spec_kind()),
            r matches Err(e) ==> e is UnsupportedPair,
            r matches Ok((l, c)) ==> {
                &&& c == GlCall::CreateProgram
                &&& l.phase() == LinkPhase::AwaitProgram
                &&& l.vertex() == vertex_shader.spec_id()
                &&& l.fragment() == fragment_shader.spec_id()
                &&& !l.failed()
            },
    {
        match (vertex_shader.kind(), fragment_shader.kind()) {
            (SupportedShaderType::Vertex, SupportedShaderType::Fragment) => {
                let linker = ProgramLinker {
                    vertex: vertex_shader.id(),
                    fragment: fragment_shader.id(),
                    phase: LinkPhase::AwaitProgram,
                    failed: false,
                    diagnostic: String::new(),
                };
                Ok((linker, GlCall::CreateProgram))
            },
            _ => Err(ShaderError::UnsupportedPair),
        }
    }

    /// The driver's name for this program object.
    pub fn id(&self) -> (r: u32)
        ensures
            r == self.spec_id(),
    {
        self.id
    }

    /// The call that makes this program the current rendering program.
    pub fn set_used(&self) -> (r: GlCall)
        ensures
            r == (GlCall::UseProgram { program: self.spec_id() }),
    {
        GlCall::UseProgram { program: self.id }
    }

    /// Gives up ownership: the returned call releases the program object.
    pub fn release(self) -> (r: GlCall)
        ensures
            r == (GlCall::DeleteProgram { program: self.spec_id() }),
    {
        GlCall::DeleteProgram { program: self.id }
    }
}

impl ProgramLinker {
    pub closed spec fn vertex(&self) -> u32 {
        self.vertex
    }

    pub closed spec fn fragment(&self) -> u32 {
        self.fragment
    }

    pub closed spec fn phase(&self) -> LinkPhase {
        self.phase
    }

    /// Whether the driver reported a link failure.
    pub closed spec fn failed(&self) -> bool {
        self.failed
    }

    /// The log text read so far (empty until the log has been read).
    pub closed spec fn diagnostic(&self) -> Seq<char> {
        self.diagnostic@
    }

    /// Whether `reply` answers the call this session issued last.
    pub fn accepts(&self, reply: &GlReply) -> (r: bool)
        ensures
            r == link_awaits(self.phase(), *reply),
    {
        match (self.phase, reply) {
            (LinkPhase::AwaitProgram, GlReply::Name(_)) => true,
            (LinkPhase::AwaitLinkStatus { .. }, GlReply::Status(_)) => true,
            (LinkPhase::AwaitLogLength { .. }, GlReply::LogLength(_)) => true,
            (LinkPhase::AwaitLog { .. }, GlReply::Log(_)) => true,
            (LinkPhase::AwaitAttachVertex { .. }, GlReply::Done) => true,
            (LinkPhase::AwaitAttachFragment { .. }, GlReply::Done) => true,
            (LinkPhase::AwaitDetachVertex { .. }, GlReply::Done) => true,
            (LinkPhase::AwaitDetachFragment { .. }, GlReply::Done) => true,
            (LinkPhase::AwaitRelease { .. }, GlReply::Done) => true,
            _ => false,
        }
    }

    /// Consumes the driver's reply to the last call and says what comes next.
    pub fn resume(&mut self, reply: GlReply) -> (r: LinkStep)
        requires
            link_awaits(old(self).phase(), reply),
        ensures
            final(self).vertex() == old(self).vertex(),
            final(self).fragment() == old(self).fragment(),
            old(self).failed() ==> final(self).failed(),
            final(self).failed() ==> !(r matches LinkStep::Done(Ok(_))),
            match (old(self).phase(), reply) {
                (LinkPhase::AwaitProgram, GlReply::Name(p)) => {
                    &&& final(self).phase() == (LinkPhase::AwaitAttachVertex { program: p })
                    &&& final(self).failed() == old(self).failed()
                    &&& r == LinkStep::Call(
                        GlCall::AttachShader { program: p, shader: old(self).vertex() },
                    )
                },
                (LinkPhase::AwaitAttachVertex { program }, GlReply::Done) => {
                    &&& final(self).phase() == (LinkPhase::AwaitAttachFragment { program })
                    &&& final(self).failed() == old(self).failed()
                    &&& r == LinkStep::Call(
                        GlCall::AttachShader { program, shader: old(self).fragment() },
                    )
                },
                (LinkPhase::AwaitAttachFragment { program }, GlReply::Done) => {
                    &&& final(self).phase() == (LinkPhase::AwaitLinkStatus { program })
                    &&& final(self).failed() == old(self).failed()
                    &&& r == LinkStep::Call(GlCall::LinkProgram { program })
                },
                (LinkPhase::AwaitLinkStatus { program }, GlReply::Status(status)) => {
                    if status != GL_COMPILE_FAILURE {
                        &&& final(self).phase() == (LinkPhase::AwaitDetachVertex { program })
                        &&& final(self).failed() == old(self).failed()
                        &&& r == LinkStep::Call(
                            GlCall::DetachShader { program, shader: old(self).vertex() },
                        )
                    } else {
                        &&& final(self).phase() == (LinkPhase::AwaitLogLength { program })
                        &&& final(self).failed()
                        &&& r == LinkStep::Call(GlCall::ProgramLogLength { program })
                    }
                },
                (LinkPhase::AwaitLogLength { program }, GlReply::LogLength(len)) => {
                    &&& final(self).phase() == (LinkPhase::AwaitLog { program })
                    &&& final(self).failed() == old(self).failed()
                    &&& r matches LinkStep::Call(GlCall::ProgramLog { program: p, capacity })
                    &&& p == program
                    &&& capacity == log_capacity_of(len)
                },
                (LinkPhase::AwaitLog { program }, GlReply::Log(buffer)) => {
                    &&& final(self).phase() == (LinkPhase::AwaitDetachVertex { program })
                    &&& final(self).failed() == old(self).failed()
                    &&& final(self).diagnostic() == log_text(buffer@)
                    &&& r == LinkStep::Call(
                        GlCall::DetachShader { program, shader: old(self).vertex() },
                    )
                },
                (LinkPhase::AwaitDetachVertex { program }, GlReply::Done) => {
                    &&& final(self).phase() == (LinkPhase::AwaitDetachFragment { program })
                    &&& final(self).failed() == old(self).failed()
                    &&& r == LinkStep::Call(
                        GlCall::DetachShader { program, shader: old(self).fragment() },
                    )
                },
                (LinkPhase::AwaitDetachFragment { program }, GlReply::Done) => {
                    if old(self).failed() {
                        &&& final(self).phase() == (LinkPhase::AwaitRelease { program })
                        &&& final(self).failed()
                        &&& final(self).diagnostic() == old(self).diagnostic()
                        &&& r == LinkStep::Call(GlCall::DeleteProgram { program })
                    } else {
                        &&& final(self).phase() == LinkPhase::Finished
                        &&& r matches LinkStep::Done(Ok(p))
                        &&& p.spec_id() == program
                    }
                },
                (LinkPhase::AwaitRelease { .. }, GlReply::Done) => {
                    &&& final(self).phase() == LinkPhase::Finished
                    &&& r matches LinkStep::Done(Err(ShaderError::LinkFailed(text)))
                    &&& text@ == old(self).diagnostic()
                },
                _ => false,
            },
    {
        match (self.phase, reply) {
            (LinkPhase::AwaitProgram, GlReply::Name(p)) => {
                self.phase = LinkPhase::AwaitAttachVertex { program: p };
                LinkStep::Call(GlCall::AttachShader { program: p, shader: self.vertex })
            },
            (LinkPhase::AwaitAttachVertex { program }, _) => {
                self.phase = LinkPhase::AwaitAttachFragment { program };
                LinkStep::Call(GlCall::AttachShader { program, shader: self.fragment })
            },
            (LinkPhase::AwaitAttachFragment { program }, _) => {
                self.phase = LinkPhase::AwaitLinkStatus { program };
                LinkStep::Call(GlCall::LinkProgram { program })
            },
            (LinkPhase::AwaitLinkStatus { program }, GlReply::Status(status)) => {
                if status != GL_COMPILE_FAILURE {
                    self.phase = LinkPhase::AwaitDetachVertex { program };
                    LinkStep::Call(GlCall::DetachShader { program, shader: self.vertex })
                } else {
                    self.failed = true;
                    self.phase = LinkPhase::AwaitLogLength { program };
                    LinkStep::Call(GlCall::ProgramLogLength { program })
                }
            },
            (LinkPhase::AwaitLogLength { program }, GlReply::LogLength(len)) => {
                self.phase = LinkPhase::AwaitLog { program };
                LinkStep::Call(GlCall::ProgramLog { program, capacity: log_capacity(len) })
            },
            (LinkPhase::AwaitLog { program }, GlReply::Log(buffer)) => {
                self.diagnostic = diagnostic_text(&buffer);
                self.phase = LinkPhase::AwaitDetachVertex { program };
                LinkStep::Call(GlCall::DetachShader { program, shader: self.vertex })
            },
            (LinkPhase::AwaitDetachVertex { program }, _) => {
                self.phase = LinkPhase::AwaitDetachFragment { program };
                LinkStep::Call(GlCall::DetachShader { program, shader: self.fragment })
            },
            (LinkPhase::AwaitDetachFragment { program }, _) => {
                if self.failed {
                    self.phase = LinkPhase::AwaitRelease { program };
                    LinkStep::Call(GlCall::DeleteProgram { program })
                } else {
                    self.phase = LinkPhase::Finished;
                    LinkStep::Done(Ok(ShaderProgram { id: program }))
                }
            },
            _ => {
                self.phase = LinkPhase::Finished;
                let text = self.diagnostic.clone();
                LinkStep::Done(Err(ShaderError::LinkFailed(text)))
            },
        }
    }
}

} // verus!
