use vstd::prelude::*;

verus! {

/// Status code that the firmware's boot services report back.
/// Only success is given a name; any other raw code is a failure.
#[derive(Debug, PartialEq, Eq, Clone, Copy, Structural)]
#[must_use]
pub enum EfiStatus {
    Success,
}

/// The raw value by which the firmware reports success.
pub const EFI_SUCCESS: u64 = 0;

impl EfiStatus {
    /// The raw code of this status.
    pub open spec fn spec_code(self) -> u64 {
        match self {
            EfiStatus::Success => EFI_SUCCESS,
        }
    }

    /// Reads a raw status code: success is `Some(Success)`, every other code is `None`.
    pub fn from_code(code: u64) -> (r: Option<EfiStatus>)
        ensures
            r == (if code == EFI_SUCCESS { Some(EfiStatus::Success) } else { None::<EfiStatus> }),
            r matches Some(s) ==> s.spec_code() == code,
    {
        if code == EFI_SUCCESS {
            Some(EfiStatus::Success)
        } else {
            None
        }
    }

    /// The raw code of this status.
    pub fn code(&self) -> (r: u64)
        ensures
            r == self.spec_code(),
    {
        match self {
            EfiStatus::Success => EFI_SUCCESS,
        }
    }
}

} // verus!
