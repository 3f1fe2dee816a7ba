//! The decision rule of `wait_until_ready`: after each poll of a box, stop with the box,
//! stop with an error, or sleep and poll again.
use vstd::prelude::*;

use crate::duration::{duration_debug_text, Duration};
use crate::error::{retryable, Error};
use crate::text::owned;
use crate::types::{operable, state_name, terminal_failure, BoxState};

verus! {

/// Default overall wait, in milliseconds.
pub const DEFAULT_WAIT_TIMEOUT_MILLIS: u64 = 300_000;

/// Default pause between polls, in milliseconds.
pub const DEFAULT_POLL_INTERVAL_MILLIS: u64 = 2_000;

/// How long to wait for a box, and how often to poll it.
#[derive(Clone, Copy)]
pub struct WaitOptions {
    /// Overall budget (default 300 s).
    pub timeout: Duration,
    /// Pause between polls (default 2 s).
    pub poll_interval: Duration,
}

impl Default for WaitOptions {
    fn default() -> (r: WaitOptions)
        ensures
            r.timeout@ == DEFAULT_WAIT_TIMEOUT_MILLIS * 1_000_000,
            r.poll_interval@ == DEFAULT_POLL_INTERVAL_MILLIS * 1_000_000,
    {
        WaitOptions {
            timeout: Duration::from_millis(DEFAULT_WAIT_TIMEOUT_MILLIS),
            poll_interval: Duration::from_millis(DEFAULT_POLL_INTERVAL_MILLIS),
        }
    }
}

/// The `Debug` text of wait options, each span written as std writes a `Duration`.
pub open spec fn wait_options_debug_text(o: WaitOptions) -> Seq<char> {
    "WaitOptions { timeout: "@ + duration_debug_text(o.timeout.whole_secs(), o.timeout.subsec())
        + ", poll_interval: "@ + duration_debug_text(
        o.poll_interval.whole_secs(),
        o.poll_interval.subsec(),
    ) + " }"@
}

impl WaitOptions {
    /// The `Debug` text: `WaitOptions { timeout: .., poll_interval: .. }`.
    pub fn debug_string(&self) -> (r: String)
        ensures
            r@ == wait_options_debug_text(*self),
    {
        let mut r = owned("WaitOptions { timeout: ");
        r.append(self.timeout.debug_string().as_str());
        r.append(", poll_interval: ");
        r.append(self.poll_interval.debug_string().as_str());
        r.append(" }");
        assert(r@ =~= wait_options_debug_text(*self));
        r
    }

    /// Options from a budget and a poll interval in milliseconds.
    pub fn from_millis(timeout_ms: u64, interval_ms: u64) -> (r: WaitOptions)
        ensures
            r.timeout@ == timeout_ms * 1_000_000,
            r.poll_interval@ == interval_ms * 1_000_000,
    {
        WaitOptions {
            timeout: Duration::from_millis(timeout_ms),
            poll_interval: Duration::from_millis(interval_ms),
        }
    }
}

/// What to do after a poll.
pub enum WaitStep {
    /// The box is operable: return it.
    Ready,
    /// Stop and report this error.
    Fail(Error),
    /// Sleep this long, then poll again.
    Sleep(Duration),
}

/// One decision of the wait loop. `outcome` is the state the poll read, or the error it
/// failed with; `past_deadline` tells whether the wait's budget is spent.
///
/// An operable box ends the wait; a terminal failure state ends it with `BoxTerminal`; any
/// other state, or a retryable error, is polled again until the deadline, when the wait
/// ends with `WaitTimeout` (or that error); any other error ends it at once.
pub fn wait_step(
    opts: &WaitOptions,
    box_id: &str,
    outcome: Result<BoxState, Error>,
    past_deadline: bool,
) -> (r: WaitStep)
    ensures
        match outcome {
            Ok(s) => if operable(s) {
                r is Ready
            } else if terminal_failure(s) {
                r matches WaitStep::Fail(Error::BoxTerminal { box_id: b, state: t }) && b@
                    == box_id@ && t@ == state_name(s)
            } else if past_deadline {
                r matches WaitStep::Fail(Error::WaitTimeout { box_id: b, last_state: t }) && b@
                    == box_id@ && t@ == state_name(s)
            } else {
                r == WaitStep::Sleep(opts.poll_interval)
            },
            Err(e) => if retryable(e) && !past_deadline {
                r == WaitStep::Sleep(opts.poll_interval)
            } else {
                r == WaitStep::Fail(e)
            },
        },
{
    match outcome {
        Ok(state) => {
            if state.is_operable() {
                return WaitStep::Ready;
            }
            if state.is_terminal_failure() {
                return WaitStep::Fail(
                    Error::BoxTerminal { box_id: owned(box_id), state: owned(state.as_str()) },
                );
            }
            if past_deadline {
                return WaitStep::Fail(
                    Error::WaitTimeout {
                        box_id: owned(box_id),
                        last_state: owned(state.as_str()),
                    },
                );
            }
        },
        Err(e) => {
            if e.is_retryable() {
                if past_deadline {
                    return WaitStep::Fail(e);
                }
            } else {
                return WaitStep::Fail(e);
            }
        },
    }
    WaitStep::Sleep(opts.poll_interval)
}

/// A box is handed back only in an operable state, and no state is both operable and a
/// terminal failure.
pub proof fn lemma_ready_only_when_operable(s: BoxState)
    ensures
        !(operable(s) && terminal_failure(s)),
        operable(s) <==> (s == BoxState::Ready || s == BoxState::Idle || s == BoxState::Running),
        terminal_failure(s) <==> (s == BoxState::Archived || s == BoxState::Archiving || s
            == BoxState::Error),
{
}

} // verus!
