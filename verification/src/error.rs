//! The construction-time error taxonomy.

use vstd::prelude::*;

verus! {

/// All of the different errors that can happen in the running of a doodle.
///
/// Every variant is detected while the doodle is being built; once a doodle
/// runs, no further errors are reported.  Each variant carries the diagnostic
/// text of the underlying backend failure.
#[derive(Debug)]
pub enum Error {
    /// The windowing backend failed while initializing a core subsystem.
    SdlError(String),
    /// Integer overflow was reported by the backend during canvas or
    /// renderer setup.
    IntegerOrSdlError(String),
    /// An error happened while creating the font subsystem.
    TtfInitError(String),
    /// A font related error happened.
    FontError(String),
    /// An error occurred while building the window, e.g. because the
    /// requested dimensions are rejected.
    WindowBuildError(String),
    /// Something bad happened.
    Error(String),
}

impl From<String> for Error {
    fn from(error: String) -> (r: Self) {
        Error::Error(error)
    }
}

impl vstd::std_specs::convert::FromSpecImpl<String> for Error {
    open spec fn obeys_from_spec() -> bool {
        true
    }

    open spec fn from_spec(error: String) -> Self {
        Error::Error(error)
    }
}

} // verus!
