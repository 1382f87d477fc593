//! The decisions behind the commands that the web view sends to the GUI, and the events that the
//! GUI forwards to the web view.

use crate::gui::error::{ipc_error_code, LinuxErrorCode, LinuxFixErrorCode};
use crate::linux::ipc::LinuxIpcError;
use crate::linux::status::DebugBundleError;
use crate::manager::TunnelArgs;
use crate::manager_cmd::ManagerCmdErrorCode;
use vstd::prelude::*;

verus! {

/// Attempts of a command before the GUI gives up.
pub const COMMAND_ATTEMPTS: u32 = 10;

/// The reply to the web view for the outcome of a manager command sent over IPC: the command's
/// JSON output, or the code of the error from the service or of the IPC failure.
pub open spec fn command_reply_spec(
    response: Result<Result<String, ManagerCmdErrorCode>, LinuxIpcError>,
) -> Result<String, LinuxErrorCode> {
    match response {
        Ok(Ok(json)) => Ok(json),
        Ok(Err(code)) => Err(LinuxErrorCode::ManagerCmd(code)),
        Err(error) => Err(ipc_error_code(error)),
    }
}

pub fn command_reply(response: Result<Result<String, ManagerCmdErrorCode>, LinuxIpcError>) -> (r: Result<
    String,
    LinuxErrorCode,
>)
    ensures
        r == command_reply_spec(response),
{
    match response {
        Ok(Ok(json)) => Ok(json),
        Ok(Err(code)) => Err(LinuxErrorCode::from(code)),
        Err(error) => Err(LinuxErrorCode::from(&error)),
    }
}

/// The code shown for a debug bundle that was not created.
pub fn debug_bundle_error_code(error: DebugBundleError) -> (r: LinuxErrorCode)
    ensures
        r == (match error {
            DebugBundleError::InProgress => LinuxErrorCode::DebugBundleInProgress,
            DebugBundleError::Failed => LinuxErrorCode::Other,
        }),
{
    match error {
        DebugBundleError::InProgress => LinuxErrorCode::DebugBundleInProgress,
        DebugBundleError::Failed => LinuxErrorCode::Other,
    }
}

/// The outcome of a fix of the service's installation: whether the app is to restart, or the
/// fix's error code.
pub fn fix_outcome(result: Result<(), LinuxFixErrorCode>, restart_app: bool) -> (r: Result<bool, LinuxErrorCode>)
    ensures
        r == (match result {
            Ok(()) => Ok(restart_app),
            Err(code) => Err(LinuxErrorCode::Fix(code)),
        }),
{
    match result {
        Ok(()) => Ok(restart_app),
        Err(code) => Err(LinuxErrorCode::from(code)),
    }
}

/// Whether an error is one of reaching the service rather than an answer from it.
pub open spec fn is_transport_error(error: LinuxErrorCode) -> bool {
    error is Ipc || error is Other
}

/// What to do after an attempt of a command.
#[derive(Debug)]
pub enum RetryStep {
    /// Reply with this result; nothing more is attempted.
    Reply(Result<String, LinuxErrorCode>),
    /// Wait a second and try again.
    RetryAfterSecond,
    /// Try again at once: the attempt already took its whole timeout.
    RetryNow,
}

/// Retries of a command sent from the web view. With `transport_only`, only failures to reach the
/// service are retried, so that a start survives a service restart; else every failure is
/// retried. After `COMMAND_ATTEMPTS` attempts, the last result is the reply. The reply is given
/// once: after it, no attempt follows.
pub struct CommandRetry {
    attempts: u32,
    transport_only: bool,
    replied: bool,
}

impl CommandRetry {
    /// How many attempts were made.
    pub closed spec fn attempts(&self) -> u32 {
        self.attempts
    }

    pub closed spec fn transport_only(&self) -> bool {
        self.transport_only
    }

    /// Whether the reply was given.
    pub closed spec fn replied(&self) -> bool {
        self.replied
    }

    /// Whether another attempt may be made: no reply yet. Then fewer than `COMMAND_ATTEMPTS`
    /// attempts were made.
    pub closed spec fn wf(&self) -> bool {
        self.attempts <= COMMAND_ATTEMPTS && (!self.replied ==> self.attempts < COMMAND_ATTEMPTS)
    }

    /// Retries for a command of which no attempt was made yet.
    pub fn new(transport_only: bool) -> (r: Self)
        ensures
            r.attempts() == 0,
            r.transport_only() == transport_only,
            !r.replied(),
            r.wf(),
    {
        CommandRetry { attempts: 0, transport_only, replied: false }
    }

    /// Decides what follows the attempt whose result is `result`: a reply with it, or, for a
    /// failure that is retried while attempts are left, a retry after a second.
    pub fn after_attempt(&mut self, result: Result<String, LinuxErrorCode>) -> (r: RetryStep)
        requires
            old(self).wf(),
            !old(self).replied(),
        ensures
            final(self).wf(),
            final(self).attempts() == old(self).attempts() + 1,
            final(self).transport_only() == old(self).transport_only(),
            final(self).replied() == (r is Reply),
            !(r is RetryNow),
            r is RetryAfterSecond <==> (final(self).attempts() < COMMAND_ATTEMPTS && match result {
                Ok(_) => false,
                Err(e) => !old(self).transport_only() || is_transport_error(e),
            }),
            r matches RetryStep::Reply(reply) ==> reply == result,
    {
        self.attempts = self.attempts + 1;
        let retry = match &result {
            Ok(_) => false,
            Err(e) => !self.transport_only || matches!(e, LinuxErrorCode::Ipc(_) | LinuxErrorCode::Other),
        };
        if retry && self.attempts < COMMAND_ATTEMPTS {
            RetryStep::RetryAfterSecond
        } else {
            self.replied = true;
            RetryStep::Reply(result)
        }
    }

    /// Decides what follows an attempt that ran out of its timeout. It counts as an `Other`
    /// failure, which every kind of retry retries, and is tried again at once while attempts
    /// are left; after the last, the reply is `Other`.
    pub fn after_timeout(&mut self) -> (r: RetryStep)
        requires
            old(self).wf(),
            !old(self).replied(),
        ensures
            final(self).wf(),
            final(self).attempts() == old(self).attempts() + 1,
            final(self).transport_only() == old(self).transport_only(),
            final(self).replied() == (r is Reply),
            final(self).attempts() < COMMAND_ATTEMPTS ==> r is RetryNow,
            final(self).attempts() == COMMAND_ATTEMPTS ==> r == RetryStep::Reply(Err(LinuxErrorCode::Other)),
    {
        self.attempts = self.attempts + 1;
        if self.attempts < COMMAND_ATTEMPTS {
            RetryStep::RetryNow
        } else {
            self.replied = true;
            RetryStep::Reply(Err(LinuxErrorCode::Other))
        }
    }
}

/// The error message for a command from the page that is not one the GUI knows:
/// `Not implemented: '<command>'`.
pub fn not_implemented_message(command_json: &str) -> (r: String)
    ensures
        r@ == "Not implemented: '"@ + command_json@ + "'"@,
{
    let mut message = String::from_str("Not implemented: '");
    message.append(command_json);
    message.append("'");
    message
}

/// A number of a JSON command, as serde_json holds it: a non-negative integer, a negative
/// integer, or a float (whose value no decision here reads).
#[derive(Debug, Clone, Copy, PartialEq, Eq, Structural)]
pub enum JsonNumber {
    PosInt(u64),
    NegInt(i64),
    Float,
}

/// The timeout of each attempt of a manager command, from the command's `timeout_ms`: none
/// without one, its milliseconds when it is a `u64`, else the error `Other`, and no attempt is
/// made.
pub fn command_timeout_ms(timeout_ms: Option<JsonNumber>) -> (r: Result<Option<u64>, LinuxErrorCode>)
    ensures
        r == (match timeout_ms {
            None => Ok(None),
            Some(JsonNumber::PosInt(ms)) => Ok(Some(ms)),
            Some(_) => Err(LinuxErrorCode::Other),
        }),
{
    match timeout_ms {
        None => Ok(None),
        Some(JsonNumber::PosInt(ms)) => Ok(Some(ms)),
        Some(_) => Err(LinuxErrorCode::Other),
    }
}

/// The command the GUI sends to set the service's tunnel arguments: `args` to connect with, or
/// none to disconnect, and whether the tunnel is to be active.
#[derive(Debug)]
pub struct SetTunnelArgs {
    pub args: Option<TunnelArgs>,
    pub active: Option<bool>,
}

/// The command that starts the tunnel, from the parse of the page's tunnel arguments: with the
/// parsed arguments, active; the error `Other`, and no command, when they did not parse.
pub fn start_tunnel_command(parsed: Result<TunnelArgs, ()>) -> (r: Result<SetTunnelArgs, LinuxErrorCode>)
    ensures
        parsed is Err <==> r == Err::<SetTunnelArgs, _>(LinuxErrorCode::Other),
        parsed matches Ok(args) ==> r matches Ok(cmd) && cmd.args == Some(args) && cmd.active == Some(true),
{
    match parsed {
        Ok(args) => Ok(SetTunnelArgs { args: Some(args), active: Some(true) }),
        Err(()) => Err(LinuxErrorCode::Other),
    }
}

/// The command that stops the tunnel: no arguments, inactive.
pub fn stop_tunnel_command() -> (r: SetTunnelArgs)
    ensures
        r.args is None,
        r.active == Some(false),
{
    SetTunnelArgs { args: None, active: Some(false) }
}

/// What the GUI knows of the web page, for forwarding events to it.
#[derive(Debug, Clone, Copy, PartialEq, Eq, Structural)]
pub struct WebviewEvents {
    /// The page has sent a command since it last started loading: it can take events.
    pub page_ready: bool,
    /// A payment succeeded while the page could not take the event.
    pub pending_payment_succeeded: bool,
}

/// What happens in the web view.
#[derive(Debug, Clone, Copy, PartialEq, Eq, Structural)]
pub enum WebviewSignal {
    CommandReceived,
    LoadStarted,
    PaymentSucceeded,
}

/// The state after `signal`, and whether to dispatch the payment-succeeded event to the page now:
/// a command from the page makes it ready and releases a held-back event; a new load makes it
/// unready; a payment success is dispatched to a ready page, else held back.
pub open spec fn on_signal_spec(before: WebviewEvents, signal: WebviewSignal) -> (WebviewEvents, bool) {
    match signal {
        WebviewSignal::CommandReceived => if before.page_ready {
            (before, false)
        } else {
            (WebviewEvents { page_ready: true, pending_payment_succeeded: false }, before.pending_payment_succeeded)
        },
        WebviewSignal::LoadStarted => (WebviewEvents { page_ready: false, ..before }, false),
        WebviewSignal::PaymentSucceeded => if before.page_ready {
            (before, true)
        } else {
            (WebviewEvents { pending_payment_succeeded: true, ..before }, false)
        },
    }
}

impl WebviewEvents {
    /// Before the page has loaded.
    pub fn new() -> (r: Self)
        ensures
            !r.page_ready,
            !r.pending_payment_succeeded,
    {
        WebviewEvents { page_ready: false, pending_payment_succeeded: false }
    }

    /// Handles `signal`; returns whether to dispatch the payment-succeeded event to the page now.
    pub fn on_signal(&mut self, signal: WebviewSignal) -> (dispatch: bool)
        ensures
            (*final(self), dispatch) == on_signal_spec(*old(self), signal),
    {
        match signal {
            WebviewSignal::CommandReceived => {
                let mut dispatch = false;
                if !self.page_ready {
                    self.page_ready = true;
                    if self.pending_payment_succeeded {
                        self.pending_payment_succeeded = false;
                        dispatch = true;
                    }
                }
                dispatch
            },
            WebviewSignal::LoadStarted => {
                self.page_ready = false;
                false
            },
            WebviewSignal::PaymentSucceeded => {
                if self.page_ready {
                    true
                } else {
                    self.pending_payment_succeeded = true;
                    false
                }
            },
        }
    }
}

/// The invariant of the forwarding: a payment success is held back only while the page cannot
/// take it.
pub open spec fn events_wf(e: WebviewEvents) -> bool {
    e.pending_payment_succeeded ==> !e.page_ready
}

/// Every signal keeps the invariant of the forwarding; an event is dispatched only to a ready
/// page; and a held-back payment success is dispatched by the next command from the page.
pub proof fn lemma_payment_success_reaches_ready_page(before: WebviewEvents, signal: WebviewSignal)
    requires
        events_wf(before),
    ensures
        events_wf(on_signal_spec(before, signal).0),
        on_signal_spec(before, signal).1 ==> on_signal_spec(before, signal).0.page_ready,
        before.pending_payment_succeeded && signal == WebviewSignal::CommandReceived ==> on_signal_spec(
            before,
            signal,
        ).1,
        signal == WebviewSignal::PaymentSucceeded ==> on_signal_spec(before, signal).1 || on_signal_spec(
            before,
            signal,
        ).0.pending_payment_succeeded,
{
}

/// The forwarding state after the signals `signals`, from `start`.
pub open spec fn events_after(start: WebviewEvents, signals: Seq<WebviewSignal>) -> WebviewEvents
    decreases signals.len(),
{
    if signals.len() == 0 {
        start
    } else {
        on_signal_spec(events_after(start, signals.drop_last()), signals.last()).0
    }
}

/// Whether the page was ready when the signal at index `k` of `signals` came.
pub open spec fn ready_at(start: WebviewEvents, signals: Seq<WebviewSignal>, k: int) -> bool {
    events_after(start, signals.take(k)).page_ready
}

/// Whether a command made the page ready at some index strictly between `j` and `k`.
pub open spec fn released_between(start: WebviewEvents, signals: Seq<WebviewSignal>, j: int, k: int) -> bool {
    exists|l: int| j < l < k && signals[l] == WebviewSignal::CommandReceived && !#[trigger] ready_at(start, signals, l)
}

/// Whether, before index `k`, a payment succeeded while the page was not ready and no command
/// has made the page ready since.
pub open spec fn held_back(start: WebviewEvents, signals: Seq<WebviewSignal>, k: int) -> bool {
    exists|j: int|
        0 <= j < k && signals[j] == WebviewSignal::PaymentSucceeded && !#[trigger] ready_at(start, signals, j)
            && !released_between(start, signals, j, k)
}

/// Whether the signal at index `k` dispatches the payment-succeeded event.
pub open spec fn dispatched_at(start: WebviewEvents, signals: Seq<WebviewSignal>, k: int) -> bool {
    on_signal_spec(events_after(start, signals.take(k)), signals[k]).1
}

proof fn lemma_take_step(start: WebviewEvents, signals: Seq<WebviewSignal>, k: int)
    requires
        0 <= k < signals.len(),
    ensures
        events_after(start, signals.take(k + 1)) == on_signal_spec(events_after(start, signals.take(k)), signals[k]).0,
{
    assert(signals.take(k + 1).drop_last() =~= signals.take(k));
    assert(signals.take(k + 1).last() == signals[k]);
}

/// Along any signals from a state without a held-back success, the forwarding keeps its
/// invariant, and a success is held back exactly when one came while the page was not ready and
/// no command has made the page ready since.
proof fn lemma_pending_is_held_back(start: WebviewEvents, signals: Seq<WebviewSignal>, k: int)
    requires
        !start.pending_payment_succeeded,
        0 <= k <= signals.len(),
    ensures
        events_wf(events_after(start, signals.take(k))),
        events_after(start, signals.take(k)).pending_payment_succeeded == held_back(start, signals, k),
    decreases k,
{
    if k == 0 {
        assert(signals.take(0) =~= Seq::<WebviewSignal>::empty());
    } else {
        let p = k - 1;
        lemma_pending_is_held_back(start, signals, p);
        lemma_take_step(start, signals, p);
        let before = events_after(start, signals.take(p));
        lemma_payment_success_reaches_ready_page(before, signals[p]);
        assert(ready_at(start, signals, p) == before.page_ready);
        if signals[p] == WebviewSignal::CommandReceived && !before.page_ready {
            assert forall|j: int|
                0 <= j < k && signals[j] == WebviewSignal::PaymentSucceeded && !#[trigger] ready_at(start, signals, j)
                implies released_between(start, signals, j, k) by {
                assert(j < p);
                assert(!ready_at(start, signals, p));
            }
        } else if signals[p] == WebviewSignal::PaymentSucceeded && !before.page_ready {
            assert(!released_between(start, signals, p, k));
            assert(held_back(start, signals, k));
        } else {
            // The signal at `p` neither releases nor holds back a success.
            if held_back(start, signals, p) {
                let j = choose|j: int|
                    0 <= j < p && signals[j] == WebviewSignal::PaymentSucceeded && !#[trigger] ready_at(start, signals, j)
                        && !released_between(start, signals, j, p);
                assert(!released_between(start, signals, j, k));
            }
            if held_back(start, signals, k) {
                let j = choose|j: int|
                    0 <= j < k && signals[j] == WebviewSignal::PaymentSucceeded && !#[trigger] ready_at(start, signals, j)
                        && !released_between(start, signals, j, k);
                if j == p {
                    assert(before.page_ready);
                } else {
                    assert(!released_between(start, signals, j, p));
                }
            }
        }
    }
}

/// Over any sequence of signals from a page that has not loaded: the event is dispatched for a
/// success that comes while the page is ready; successes that come while it is not are held back
/// and coalesce into one dispatch, at the command that next makes the page ready; and nothing
/// else dispatches.
pub proof fn lemma_dispatches_over_signals(signals: Seq<WebviewSignal>, k: int)
    requires
        0 <= k < signals.len(),
    ensures
        dispatched_at(WebviewEvents { page_ready: false, pending_payment_succeeded: false }, signals, k) <==> {
            let start = WebviewEvents { page_ready: false, pending_payment_succeeded: false };
            ||| signals[k] == WebviewSignal::PaymentSucceeded && ready_at(start, signals, k)
            ||| signals[k] == WebviewSignal::CommandReceived && !ready_at(start, signals, k) && held_back(
                start,
                signals,
                k,
            )
        },
{
    let start = WebviewEvents { page_ready: false, pending_payment_succeeded: false };
    lemma_pending_is_held_back(start, signals, k);
}

} // verus!
