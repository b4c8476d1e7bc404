use vstd::prelude::*;

verus! {

/// Errors that the library's components report.
pub trait GuiCoreError {
    /// A one-line description of the error.
    fn message(&self) -> &'static str;
}

/// A value could not be constructed from the given parts.
#[derive(Debug, Clone, Copy, PartialEq, Eq, Structural)]
pub enum GeneralError {
    StructInit,
}

/// Window and event-loop bootstrapping failures.
#[derive(Debug, Clone, Copy, PartialEq, Eq, Structural)]
pub enum GuiInitError {
    EventLoopInit,
    WindowInit,
}

pub open spec fn general_error_message(e: GeneralError) -> Seq<char> {
    match e {
        GeneralError::StructInit =>
            "[GeneralError]: Struct could not be initialized: description() is deprecated; use Display"@,
    }
}

pub open spec fn gui_init_error_message(e: GuiInitError) -> Seq<char> {
    match e {
        GuiInitError::EventLoopInit => "[GuiInitError]: Event loop could not be initialized"@,
        GuiInitError::WindowInit => "[GuiInitError]: Window and its handles could not be initialized"@,
    }
}

impl GeneralError {
    /// The text shown for this error.
    pub fn to_message(&self) -> (r: &'static str)
        ensures
            r@ == general_error_message(*self),
    {
        match self {
            GeneralError::StructInit =>
                "[GeneralError]: Struct could not be initialized: description() is deprecated; use Display",
        }
    }
}

impl GuiInitError {
    /// The text shown for this error.
    pub fn to_message(&self) -> (r: &'static str)
        ensures
            r@ == gui_init_error_message(*self),
    {
        match self {
            GuiInitError::EventLoopInit => "[GuiInitError]: Event loop could not be initialized",
            GuiInitError::WindowInit => "[GuiInitError]: Window and its handles could not be initialized",
        }
    }
}

impl GuiCoreError for GeneralError {
    fn message(&self) -> &'static str {
        self.to_message()
    }
}

impl GuiCoreError for GuiInitError {
    fn message(&self) -> &'static str {
        self.to_message()
    }
}

} // verus!
