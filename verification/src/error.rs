//! The errors of the module and the status bytes that stand for them.

use vstd::prelude::*;

verus! {

/// The status of a call that succeeded.
pub const DEVICE_ERROR_NONE: u8 = 0;

/// Why a call failed.
#[derive(Debug, Clone, Copy, PartialEq, Eq, Structural)]
pub enum DeviceErr {
    /// The broker could not be reached, or there is no connection to it.
    DeviceErrConn,
    /// The parameters are not acceptable.
    DeviceErrParams,
}

impl DeviceErr {
    /// The status byte that stands for an error.
    pub open spec fn spec_code(self) -> u8 {
        match self {
            DeviceErr::DeviceErrConn => 1,
            DeviceErr::DeviceErrParams => 2,
        }
    }

    /// The status byte that stands for the error.
    pub fn code(&self) -> (code: u8)
        ensures
            code == self.spec_code(),
    {
        match self {
            DeviceErr::DeviceErrConn => 1,
            DeviceErr::DeviceErrParams => 2,
        }
    }
}

/// The status byte of a call with this outcome.
pub open spec fn status_of<T>(outcome: Result<T, DeviceErr>) -> u8 {
    match outcome {
        Ok(_) => DEVICE_ERROR_NONE,
        Err(err) => err.spec_code(),
    }
}

/// The status byte of a call: zero where it succeeded, else that of its error.
pub fn status<T>(outcome: &Result<T, DeviceErr>) -> (status: u8)
    ensures
        status == status_of(*outcome),
{
    match outcome {
        Ok(_) => DEVICE_ERROR_NONE,
        Err(err) => err.code(),
    }
}

/// A status byte tells everything about the outcome: it is zero exactly where the call succeeded,
/// and two calls that failed have one status only where they failed alike.
pub proof fn law_status_tells_outcome<T>(a: Result<T, DeviceErr>, b: Result<T, DeviceErr>)
    ensures
        status_of(a) == DEVICE_ERROR_NONE <==> a is Ok,
        a is Err && b is Err && status_of(a) == status_of(b) ==> a->Err_0 == b->Err_0,
{
}

/// A call that succeeded has the status 0 whatever it returned, one that could not reach the broker
/// the status 1, and one whose parameters were refused the status 2.
pub proof fn law_status_numbers<T>(value: T)
    ensures
        status_of(Ok::<T, DeviceErr>(value)) == 0,
        status_of(Err::<T, DeviceErr>(DeviceErr::DeviceErrConn)) == 1,
        status_of(Err::<T, DeviceErr>(DeviceErr::DeviceErrParams)) == 2,
        DeviceErr::DeviceErrConn.spec_code() == 1,
        DeviceErr::DeviceErrParams.spec_code() == 2,
{
}

} // verus!
