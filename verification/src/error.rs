use vstd::prelude::*;

verus! {

/// Why the runtime refused a request.
#[derive(Clone, Copy, Debug, PartialEq, Eq, Structural)]
pub enum CoreError {
    /// A runtime was already created in this process.
    AlreadyInitialized,
    /// A window or a surface was asked for with a width or a height of zero.
    ZeroSize,
    /// The runtime has closed its last window and takes no more windows.
    Terminated,
    /// None of the offered framebuffer configurations can be used.
    NoSuitableConfig,
}

impl CoreError {
    /// The text of the diagnostic that goes with each failure.
    pub open spec fn text(self) -> Seq<char> {
        match self {
            CoreError::AlreadyInitialized => "The GeoCore can only be initialized once."@,
            CoreError::ZeroSize => "A window needs a width and a height above zero."@,
            CoreError::Terminated => "The GeoCore has closed its last window."@,
            CoreError::NoSuitableConfig => "Couldn't build window display."@,
        }
    }

    /// The diagnostic message for this failure.
    pub fn message(&self) -> (msg: &'static str)
        ensures
            msg@ == self.text(),
    {
        match self {
            CoreError::AlreadyInitialized => "The GeoCore can only be initialized once.",
            CoreError::ZeroSize => "A window needs a width and a height above zero.",
            CoreError::Terminated => "The GeoCore has closed its last window.",
            CoreError::NoSuitableConfig => "Couldn't build window display.",
        }
    }
}

} // verus!
