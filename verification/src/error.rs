//! Error values shared by the interrupt-controller operations.

use vstd::prelude::*;

verus! {

/// The recoverable error conditions of this library.
///
/// `EINVAL` reports an invalid argument: a field that the register kind does
/// not support, or a reserved enumerant value.  `ENODEV` reports an
/// unsupported configuration: no controller generation usable on this
/// hardware.
#[derive(Debug, Clone, Copy, PartialEq, Eq, Structural)]
pub enum SystemError {
    EINVAL,
    ENODEV,
}

impl SystemError {
    /// The POSIX errno number of this error.
    pub fn to_posix_errno(&self) -> (r: i32)
        ensures
            *self is EINVAL ==> r == 22,
            *self is ENODEV ==> r == 19,
    {
        match self {
            SystemError::EINVAL => 22,
            SystemError::ENODEV => 19,
        }
    }
}

} // verus!
