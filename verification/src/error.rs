use vstd::prelude::*;

verus! {

/// Reasons a validation run ends without accepting, each surfaced to the
/// host as a stable numeric status code.
///
/// The first nine variants carry data-access failures from the transition
/// read layer through unchanged; the last four are this validator's own
/// rejection reasons.
#[derive(Clone, Copy, Debug, PartialEq, Eq, Structural)]
pub enum Error {
    IndexOutOfBound,
    ItemMissing,
    LengthNotEnough,
    Encoding,
    WaitFailure,
    InvalidFd,
    OtherEndClosed,
    MaxVmsSpawned,
    MaxFdsCreated,
    /// More than one governed input, or not exactly one governed output.
    InvalidTypeIDCellNum,
    /// The freshly derived type id differs from the one declared in args.
    TypeIDNotMatch,
    /// The script args are too short to hold the required field.
    ArgsLengthNotEnough,
    /// The governed output's lock hash differs from the one required in args.
    InvalidTypeIDLock,
}

impl Error {
    /// The numeric status code of this rejection reason, as the host
    /// observes it.
    pub open spec fn spec_code(self) -> int {
        match self {
            Error::IndexOutOfBound => 1,
            Error::ItemMissing => 2,
            Error::LengthNotEnough => 3,
            Error::Encoding => 4,
            Error::WaitFailure => 5,
            Error::InvalidFd => 6,
            Error::OtherEndClosed => 7,
            Error::MaxVmsSpawned => 8,
            Error::MaxFdsCreated => 9,
            Error::InvalidTypeIDCellNum => 20,
            Error::TypeIDNotMatch => 21,
            Error::ArgsLengthNotEnough => 22,
            Error::InvalidTypeIDLock => 23,
        }
    }

    /// Converts the rejection reason to its stable numeric code.
    pub fn code(&self) -> (c: i8)
        ensures
            c as int == self.spec_code(),
    {
        match self {
            Error::IndexOutOfBound => 1,
            Error::ItemMissing => 2,
            Error::LengthNotEnough => 3,
            Error::Encoding => 4,
            Error::WaitFailure => 5,
            Error::InvalidFd => 6,
            Error::OtherEndClosed => 7,
            Error::MaxVmsSpawned => 8,
            Error::MaxFdsCreated => 9,
            Error::InvalidTypeIDCellNum => 20,
            Error::TypeIDNotMatch => 21,
            Error::ArgsLengthNotEnough => 22,
            Error::InvalidTypeIDLock => 23,
        }
    }
}

} // verus!
