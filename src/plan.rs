use vstd::prelude::*;

use crate::error::{no_support_message, PositionError, PositionErrorCode};
use crate::options::{effective_options, spec_effective_options, PositionOptions};

verus! {

/// What to do for a position request or a watch, once it is known whether the
/// host platform offers a geolocation service.
#[derive(Debug, Clone)]
pub enum HostCall {
    /// Issue the call to the host, with these options; the caller's error
    /// callback, if it gave one, is handed over too.
    Issue(PositionOptions),
    /// Hand this error to the caller's error callback.
    Report(PositionError),
    /// Do nothing: the service is absent and the caller gave no error callback.
    Nothing,
}

/// Decides how to serve a one-shot request or the start of a watch.
///
/// With the service present the call is issued with the effective options.
/// Without it, the caller's error callback (if any) receives a
/// `NoBrowserSupport` error; with no error callback nothing happens.
pub fn plan_host_call(
    service_present: bool,
    has_error_cb: bool,
    options: Option<PositionOptions>,
) -> (r: HostCall)
    ensures
        service_present ==> r == HostCall::Issue(spec_effective_options(options)),
        !service_present && has_error_cb ==> (r matches HostCall::Report(e)
            && e.code == PositionErrorCode::NoBrowserSupport
            && e.message@ == no_support_message()),
        !service_present && !has_error_cb ==> r is Nothing,
{
    if service_present {
        HostCall::Issue(effective_options(options))
    } else if has_error_cb {
        HostCall::Report(PositionError::no_browser_support())
    } else {
        HostCall::Nothing
    }
}

} // verus!
