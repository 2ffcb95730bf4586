//! Status codes of the firmware call interface.
//!
//! A firmware call returns a status word; zero is success and a closed set
//! of negative codes names the known failures. The trap instruction itself
//! is hardware glue outside this library; the mapping from status words to
//! errors is pure and lives here.

use vstd::prelude::*;

verus! {

/// The status word of a successful firmware call.
#[allow(non_upper_case_globals)]
pub const SbiSuccess: isize = 0;

pub type SbiResult<T> = Result<T, SbiError>;

/// Error codes returned by firmware calls.
///
/// The success status is not represented here since this is the error type
/// of a `Result`; codes outside the known set are kept verbatim in
/// `Unknown` for forward compatibility.
#[derive(Debug, Clone, Copy, PartialEq, Eq, Hash, Structural)]
pub enum SbiError {
    /// The call failed.
    Failed,
    /// The call is not implemented or the functionality is not available.
    NotSupported,
    /// An invalid parameter was passed.
    InvalidParameter,
    /// The firmware has denied execution of the call.
    Denied,
    /// An invalid address was passed.
    InvalidAddress,
    /// The resource is already available.
    AlreadyAvailable,
    /// The resource was previously started.
    AlreadyStarted,
    /// The resource was previously stopped.
    AlreadyStopped,
    /// A status code outside the known set, kept verbatim.
    Unknown(isize),
}

/// The error a non-zero status word decodes to.
pub open spec fn spec_sbi_error(n: isize) -> SbiError {
    if n == -1 {
        SbiError::Failed
    } else if n == -2 {
        SbiError::NotSupported
    } else if n == -3 {
        SbiError::InvalidParameter
    } else if n == -4 {
        SbiError::Denied
    } else if n == -5 {
        SbiError::InvalidAddress
    } else if n == -6 {
        SbiError::AlreadyAvailable
    } else if n == -7 {
        SbiError::AlreadyStarted
    } else if n == -8 {
        SbiError::AlreadyStopped
    } else {
        SbiError::Unknown(n)
    }
}

impl SbiError {
    pub fn new(n: isize) -> (e: Self)
        ensures
            e == spec_sbi_error(n),
            n < -8 || n > 0 ==> e == SbiError::Unknown(n),
    {
        match n {
            -1 => SbiError::Failed,
            -2 => SbiError::NotSupported,
            -3 => SbiError::InvalidParameter,
            -4 => SbiError::Denied,
            -5 => SbiError::InvalidAddress,
            -6 => SbiError::AlreadyAvailable,
            -7 => SbiError::AlreadyStarted,
            -8 => SbiError::AlreadyStopped,
            n => SbiError::Unknown(n),
        }
    }
}

impl SbiError {
    /// A human-readable description of the error, for the boot-time
    /// diagnostics that precede a halt. The catch-all variant has no
    /// fixed text; callers print its code alongside.
    pub fn message(&self) -> (m: &'static str)
        ensures
            self is Failed ==> m@ == "call to SBI failed"@,
            self is NotSupported ==> m@
                == "SBI call not implemented or functionality not available"@,
            self is InvalidParameter ==> m@ == "invalid parameter passed"@,
            self is Denied ==> m@ == "SBI implementation denied execution"@,
            self is InvalidAddress ==> m@ == "invalid address passed"@,
            self is AlreadyAvailable ==> m@ == "resource is already available"@,
            self is AlreadyStarted ==> m@ == "resource was already started"@,
            self is AlreadyStopped ==> m@ == "resource was already stopped"@,
            self is Unknown ==> m@ == "unknown SBI error code"@,
    {
        match self {
            SbiError::Failed => "call to SBI failed",
            SbiError::NotSupported => "SBI call not implemented or functionality not available",
            SbiError::InvalidParameter => "invalid parameter passed",
            SbiError::Denied => "SBI implementation denied execution",
            SbiError::InvalidAddress => "invalid address passed",
            SbiError::AlreadyAvailable => "resource is already available",
            SbiError::AlreadyStarted => "resource was already started",
            SbiError::AlreadyStopped => "resource was already stopped",
            SbiError::Unknown(_) => "unknown SBI error code",
        }
    }
}

/// Turn a raw (status, value) pair from a firmware call into a `Result`:
/// the value on success, the decoded error otherwise.
pub fn sbi_ret<T>(status: isize, value: T) -> (r: SbiResult<T>)
    ensures
        status == SbiSuccess ==> r == Ok::<T, SbiError>(value),
        status != SbiSuccess ==> r == Err::<T, SbiError>(spec_sbi_error(status)),
{
    if status == SbiSuccess {
        Ok(value)
    } else {
        Err(SbiError::new(status))
    }
}

/// Each of the eight known status codes decodes to its own named error,
/// and none of them decodes to the catch-all variant.
pub proof fn lemma_sbi_known_codes_distinct(m: isize, n: isize)
    requires
        -8 <= m <= -1,
        -8 <= n <= -1,
        m != n,
    ensures
        spec_sbi_error(m) != spec_sbi_error(n),
        !(spec_sbi_error(m) is Unknown),
{
}

} // verus!
