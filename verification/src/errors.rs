use vstd::prelude::*;

verus! {

/// Error taxonomy of the library.
///
/// `Os` carries a raw errno from a syscall that was propagated verbatim.
/// `Exhausted` reports that no free subnet was left inside an address domain.
/// `Parse` reports malformed numeric or path input.
/// `CapRequired` reports a missing capability found by a pre-flight check.
/// `NoUid` reports that no non-root uid could be determined.
#[derive(Clone, Copy, Debug, PartialEq, Eq, Structural)]
pub enum Error {
    Os(i32),
    Exhausted,
    Parse,
    CapRequired,
    NoUid,
}

/// The message of each error. The pre-flight capability failure names
/// the capability it asks for: "requires CAP_SYS_ADMIN".
pub open spec fn spec_error_text(e: Error) -> Seq<u8> {
    match e {
        // "os error"
        Error::Os(_) => seq![111u8, 115, 32, 101, 114, 114, 111, 114],
        // "address domain exhausted"
        Error::Exhausted => seq![97u8, 100, 100, 114, 101, 115, 115, 32, 100, 111, 109, 97, 105,
            110, 32, 101, 120, 104, 97, 117, 115, 116, 101, 100],
        // "parse error"
        Error::Parse => seq![112u8, 97, 114, 115, 101, 32, 101, 114, 114, 111, 114],
        // "requires CAP_SYS_ADMIN"
        Error::CapRequired => seq![114u8, 101, 113, 117, 105, 114, 101, 115, 32, 67, 65, 80, 95,
            83, 89, 83, 95, 65, 68, 77, 73, 78],
        // "unable to find a non-root uid"
        Error::NoUid => seq![117u8, 110, 97, 98, 108, 101, 32, 116, 111, 32, 102, 105, 110, 100,
            32, 97, 32, 110, 111, 110, 45, 114, 111, 111, 116, 32, 117, 105, 100],
    }
}

impl Error {
    /// An actionable message for the caller to print.
    pub fn text(&self) -> (r: Vec<u8>)
        ensures
            r@ == spec_error_text(*self),
    {
        let r = match self {
            Error::Os(_) => vec![111u8, 115, 32, 101, 114, 114, 111, 114],
            Error::Exhausted => vec![97u8, 100, 100, 114, 101, 115, 115, 32, 100, 111, 109, 97,
                105, 110, 32, 101, 120, 104, 97, 117, 115, 116, 101, 100],
            Error::Parse => vec![112u8, 97, 114, 115, 101, 32, 101, 114, 114, 111, 114],
            Error::CapRequired => vec![114u8, 101, 113, 117, 105, 114, 101, 115, 32, 67, 65, 80,
                95, 83, 89, 83, 95, 65, 68, 77, 73, 78],
            Error::NoUid => vec![117u8, 110, 97, 98, 108, 101, 32, 116, 111, 32, 102, 105, 110,
                100, 32, 97, 32, 110, 111, 110, 45, 114, 111, 111, 116, 32, 117, 105, 100],
        };
        proof {
            assert(r@ =~= spec_error_text(*self));
        }
        r
    }
}

/// errno value that `umount` family syscalls return for a target that is
/// not currently mounted; such an error is treated as "already absent".
pub const ERRNO_NOT_MOUNTED: i32 = 22;

/// errno value returned when a directory operation is applied to a
/// non-directory entry; bulk teardown skips such entries.
pub const ERRNO_NOT_DIR: i32 = 20;

/// The I/O errno under which a write that the kernel cut short is
/// reported: the proc files written here take their line whole or not
/// at all.
pub const ERRNO_SHORT_WRITE: i32 = 5;

} // verus!
