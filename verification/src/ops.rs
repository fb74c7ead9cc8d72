//! The death-signal operations: reading and writing the parent-death signal
//! of the calling process through the kernel, with exact error translation.

use vstd::prelude::*;
use crate::error::Error;
use crate::signal::{Signal, SignalInput, valid_signal_number};

verus! {

/// The raw number a set request resolves to before the kernel is asked to
/// install it: a clearing request (`None`, or the raw number 0) resolves to
/// 0, an existing signal to its own number, and any other raw number to
/// itself when the catalog accepts it, with an `InvalidArgument` failure
/// naming it otherwise.
pub open spec fn resolve_spec(request: Option<SignalInput>) -> Result<int, Error> {
    match request {
        None => Ok(0),
        Some(SignalInput::Existing(s)) => Ok(s@),
        Some(SignalInput::Raw(v)) => if v == 0 {
            Ok(0)
        } else if valid_signal_number(v as int) {
            Ok(v as int)
        } else {
            Err(Error::InvalidArgument(v))
        },
    }
}

/// Validates a set request, without touching the kernel.
pub fn resolve_request(request: Option<SignalInput>) -> (r: Result<i32, Error>)
    requires
        request matches Some(SignalInput::Existing(s)) ==> s.wf(),
    ensures
        r matches Ok(v) ==> resolve_spec(request) == Ok::<int, Error>(v as int),
        r matches Err(e) ==> resolve_spec(request) == Err::<int, Error>(e),
{
    match request {
        None => Ok(0),
        Some(SignalInput::Existing(s)) => Ok(s.value()),
        Some(SignalInput::Raw(v)) => {
            if v == 0 {
                Ok(0)
            } else {
                match Signal::from_raw(v) {
                    Some(s) => Ok(s.value()),
                    None => Err(Error::InvalidArgument(v)),
                }
            }
        },
    }
}

/// Clearing by `None` and clearing by the raw number 0 are one and the same
/// request, and it always resolves: both ask the kernel for 0.
pub proof fn lemma_clear_requests_agree()
    ensures
        resolve_spec(None) == resolve_spec(Some(SignalInput::Raw(0))),
        resolve_spec(None) == Ok::<int, Error>(0),
{
}

/// Relies on rustix::process::parent_process_death_signal, the
/// `prctl(PR_GET_PDEATHSIG)` read: it reports the configured signal as
/// `Ok(Some(..))`, a configuration of 0 (or of any number rustix's signal
/// type does not carry) as `Ok(None)`, and a failed kernel call as `Err`.
/// On this platform rustix's signal type carries exactly the numbers 1
/// through 31.
#[verifier::external_body]
fn kernel_read_pdeathsig() -> (r: Result<i32, Error>)
    ensures
        r matches Ok(v) ==> v == 0 || valid_signal_number(v as int),
        r matches Err(e) ==> e is Os,
{
    match rustix::process::parent_process_death_signal() {
        Ok(Some(signal)) => Ok(signal as i32),
        Ok(None) => Ok(0),
        Err(err) => Err(
            Error::Os { code: err.raw_os_error(), message: err.to_string() },
        ),
    }
}

/// Relies on rustix::process::set_parent_process_death_signal, the
/// `prctl(PR_SET_PDEATHSIG)` write, for which 0 clears the setting and a
/// signal number installs that signal; and on
/// rustix::process::Signal::from_raw to build its argument, which on this
/// platform accepts exactly the numbers 1 through 31.
#[verifier::external_body]
fn kernel_write_pdeathsig(v: i32) -> (r: Result<(), Error>)
    requires
        v == 0 || valid_signal_number(v as int),
    ensures
        r matches Err(e) ==> e is Os,
{
    let request = if v == 0 {
        None
    } else {
        rustix::process::Signal::from_raw(v)
    };
    match rustix::process::set_parent_process_death_signal(request) {
        Ok(()) => Ok(()),
        Err(err) => Err(
            Error::Os { code: err.raw_os_error(), message: err.to_string() },
        ),
    }
}

/// Turns the raw number the kernel reported into the optional canonical
/// signal it denotes: 0 means no signal is configured, any other reported
/// number denotes its canonical instance.
pub fn interpret_reported(v: i32) -> (r: Option<Signal>)
    requires
        v == 0 || valid_signal_number(v as int),
    ensures
        v == 0 ==> r is None,
        v != 0 ==> (r matches Some(s) && s@ == v),
{
    if v == 0 {
        None
    } else {
        Some(Signal::from_raw(v).unwrap())
    }
}

/// Reads the parent-death signal currently registered for the calling
/// process: `Ok(None)` when the kernel reports none, otherwise the canonical
/// instance for the reported number. A failure of the kernel call itself is
/// surfaced as the corresponding `Os` error, never swallowed.
pub fn get_parent_death_signal() -> (r: Result<Option<Signal>, Error>)
    ensures
        r matches Ok(Some(s)) ==> s.wf(),
        r matches Err(e) ==> e is Os,
{
    match kernel_read_pdeathsig() {
        Ok(v) => Ok(interpret_reported(v)),
        Err(e) => Err(e),
    }
}

/// Installs or clears the parent-death signal of the calling process. A
/// request that does not resolve is rejected with exactly the failure its
/// resolution gives, and the kernel is not called; a resolving request is
/// handed to the kernel, whose own failure, if any, comes back as an `Os`
/// error.
pub fn set_parent_death_signal(request: Option<SignalInput>) -> (r: Result<(), Error>)
    requires
        request matches Some(SignalInput::Existing(s)) ==> s.wf(),
    ensures
        resolve_spec(request) matches Err(e) ==> r == Err::<(), Error>(e),
        resolve_spec(request) is Ok ==> (r is Ok || (r matches Err(e) && e is Os)),
{
    match resolve_request(request) {
        Ok(v) => kernel_write_pdeathsig(v),
        Err(e) => Err(e),
    }
}

} // verus!
