use vstd::prelude::*;

verus! {

/// An error reported by the platform, with its error code.
#[derive(Clone, Copy, Debug, PartialEq, Eq, Structural)]
pub enum Error {
    Win32Error(u32),
}

impl Error {
    /// The platform's error code.
    pub fn code(&self) -> (r: u32)
        ensures
            *self == Error::Win32Error(r),
    {
        match self {
            Error::Win32Error(e) => *e,
        }
    }
}

impl From<u32> for Error {
    fn from(e: u32) -> (r: Error)
        ensures
            r == Error::Win32Error(e),
    {
        Error::Win32Error(e)
    }
}

impl vstd::std_specs::convert::FromSpecImpl<u32> for Error {
    open spec fn obeys_from_spec() -> bool {
        true
    }

    open spec fn from_spec(v: u32) -> Error {
        Error::Win32Error(v)
    }
}

} // verus!
