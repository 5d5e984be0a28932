//! Follow-up actions when something needs to be done after a check has been performed:
//! when a Pushover message is sent, what it holds, and what Pushover's answers mean.

use vstd::prelude::*;
use crate::errors::MaremmaError;
use crate::json::opt_text;
use crate::status::{ServiceStatus, all_statuses, all_statuses_lists_each_once};
use crate::text::{push_str, join, join_seq, views};

verus! {

/// An action that'll run after a check has been performed
pub trait Action {
    /// What states the action would be run
    fn run_states(&self) -> Vec<ServiceStatus>;
}

/// How soon Pushover asks for a retry after a server error, in seconds
pub const DEFAULT_PUSHOVER_RETRY_SECONDS: u64 = 5;

/// The priority of a Pushover message
#[derive(Clone, Copy, Debug, PartialEq, Eq, Structural)]
pub enum PushoverPriority {
    /// -2
    Lowest,
    /// -1
    Low,
    /// 0
    Normal,
    /// 1
    High,
    /// 2
    Emergency,
}

/// The number Pushover's API gives a priority.
pub open spec fn priority_value(p: PushoverPriority) -> int {
    match p {
        PushoverPriority::Lowest => -2,
        PushoverPriority::Low => -1,
        PushoverPriority::Normal => 0,
        PushoverPriority::High => 1,
        PushoverPriority::Emergency => 2,
    }
}

impl From<PushoverPriority> for i8 {
    fn from(priority: PushoverPriority) -> (r: i8) {
        match priority {
            PushoverPriority::Lowest => -2,
            PushoverPriority::Low => -1,
            PushoverPriority::Normal => 0,
            PushoverPriority::High => 1,
            PushoverPriority::Emergency => 2,
        }
    }
}

impl vstd::std_specs::convert::FromSpecImpl<PushoverPriority> for i8 {
    open spec fn obeys_from_spec() -> bool {
        true
    }

    open spec fn from_spec(v: PushoverPriority) -> i8 {
        priority_value(v) as i8
    }
}

/// Higher priorities have higher numbers.
pub proof fn priority_values_increase(a: PushoverPriority, b: PushoverPriority)
    ensures
        (priority_value(a) < priority_value(b)) == (priority_rank(a) < priority_rank(b)),
        priority_value(a) == priority_value(b) ==> a == b,
{
}

/// The position of a priority from the lowest.
pub open spec fn priority_rank(p: PushoverPriority) -> int {
    match p {
        PushoverPriority::Lowest => 0,
        PushoverPriority::Low => 1,
        PushoverPriority::Normal => 2,
        PushoverPriority::High => 3,
        PushoverPriority::Emergency => 4,
    }
}

/// Implements the Pushover action, API documentation is at <https://pushover.net/api#messages>
#[derive(Debug)]
pub struct PushOver {
    /// API Token
    pub token: String,
    /// Specific user token
    pub user: String,
    /// Device name
    pub device: Option<String>,
    /// Message title
    pub title: Option<String>,
    /// Message to send, if you want to set one
    pub message: Option<String>,
    /// The states that this action will run on
    pub run_states: Vec<ServiceStatus>,
    /// current retry count
    pub retry_count: u8,
}

/// What is sent to Pushover.
#[derive(Debug)]
pub struct PushoverMessage {
    /// API Token
    pub token: String,
    /// Specific user token
    pub user: String,
    /// Device name
    pub device: Option<String>,
    /// Message title
    pub title: Option<String>,
    /// Message to send
    pub message: Option<String>,
    /// A URL in the message
    pub url: Option<String>,
    /// The URL's title
    pub url_title: Option<String>,
}

/// What to do after Pushover answered with a status code.
#[derive(Clone, Copy, Debug, PartialEq, Eq, Structural)]
pub enum PushoverStep {
    /// A client error (4xx), which is not handled
    ClientError,
    /// A server error (5xx): wait this many seconds and send again
    Retry(u64),
    /// Read the answer's body
    ReadBody,
}

impl PushOver {
    /// The states the action runs on: those set, or every state where none is.
    pub open spec fn action_states(&self) -> Seq<ServiceStatus> {
        if self.run_states@.len() == 0 {
            all_statuses()
        } else {
            self.run_states@
        }
    }
}

impl Action for PushOver {
    /// The states the action runs on: those set, or every state where none is.
    fn run_states(&self) -> (r: Vec<ServiceStatus>)
        ensures
            r@ == self.action_states(),
    {
        if self.run_states.len() == 0 {
            ServiceStatus::all()
        } else {
            let mut out: Vec<ServiceStatus> = Vec::new();
            let mut i: usize = 0;
            while i < self.run_states.len()
                invariant
                    i <= self.run_states@.len(),
                    out@ == self.run_states@.take(i as int),
                decreases self.run_states@.len() - i,
            {
                out.push(self.run_states[i]);
                proof {
                    assert(out@ =~= self.run_states@.take(i + 1));
                }
                i += 1;
            }
            proof {
                assert(self.run_states@.take(i as int) =~= self.run_states@);
            }
            out
        }
    }
}

impl PushOver {
    /// Is a message sent for a result with this status? For the states the action runs
    /// on (see [`Action::run_states`]): those set, or every state where none is.
    pub fn sends_for(&self, status: ServiceStatus) -> (r: bool)
        ensures
            r == self.action_states().contains(status),
    {
        if self.run_states.len() == 0 {
            proof {
                all_statuses_lists_each_once(status);
            }
            return true;
        }
        let mut i: usize = 0;
        while i < self.run_states.len()
            invariant
                i <= self.run_states@.len(),
                forall|j: int| 0 <= j < i ==> self.run_states@[j] != status,
            decreases self.run_states@.len() - i,
        {
            if self.run_states[i] == status {
                return true;
            }
            i += 1;
        }
        false
    }

    /// The message sent: the action's token, user, device, title and message, without a
    /// URL.
    pub fn payload(&self) -> (r: PushoverMessage)
        ensures
            r.token@ == self.token@,
            r.user@ == self.user@,
            opt_text(r.device) == opt_text(self.device),
            opt_text(r.title) == opt_text(self.title),
            opt_text(r.message) == opt_text(self.message),
            r.url is None,
            r.url_title is None,
    {
        PushoverMessage {
            token: self.token.clone(),
            user: self.user.clone(),
            device: crate::json::copy_opt_text(&self.device),
            title: crate::json::copy_opt_text(&self.title),
            message: crate::json::copy_opt_text(&self.message),
            url: None,
            url_title: None,
        }
    }
}

/// What to do after Pushover answered with `status`: a 4xx is a client error, a 5xx means
/// waiting [`DEFAULT_PUSHOVER_RETRY_SECONDS`] and sending again, anything else means
/// reading the body.
pub fn pushover_step(status: u16) -> (r: PushoverStep)
    ensures
        400 <= status <= 499 ==> r == PushoverStep::ClientError,
        500 <= status <= 599 ==> r == PushoverStep::Retry(DEFAULT_PUSHOVER_RETRY_SECONDS),
        !(400 <= status <= 599) ==> r == PushoverStep::ReadBody,
{
    if 400 <= status && status <= 499 {
        PushoverStep::ClientError
    } else if 500 <= status && status <= 599 {
        PushoverStep::Retry(DEFAULT_PUSHOVER_RETRY_SECONDS)
    } else {
        PushoverStep::ReadBody
    }
}

/// How `{:?}` shows a text: quoted, with Rust's escapes.
pub uninterp spec fn debug_text(s: Seq<char>) -> Seq<char>;

/// Shows a text the way `{:?}` does; the text is named.
#[verifier::external_body]
fn debug_quoted(s: &str) -> (r: String)
    ensures
        r@ == debug_text(s@),
{
    format!("{:?}", s)
}

/// What Pushover's answer means: an answer that could not be read fails with the reader's
/// error; one with a status other than 1 fails with its errors; otherwise the message was
/// sent.
pub fn pushover_outcome(answer: Result<(i32, Vec<String>), String>) -> (r: Result<(), MaremmaError>)
    ensures
        match answer {
            Err(e) => r matches Err(MaremmaError::Generic(m)) && m@ == "Failed to parse pushover response: "@ + e@,
            Ok((status, errors)) => if status == 1 {
                r is Ok
            } else {
                r matches Err(MaremmaError::Generic(m)) && m@ == "Failed to send pushover message: "@
                    + debug_text(join_seq(views(errors@), ", "@))
            },
        },
{
    match answer {
        Err(e) => {
            let mut m = String::new();
            push_str(&mut m, "Failed to parse pushover response: ");
            push_str(&mut m, e.as_str());
            Err(MaremmaError::Generic(m))
        },
        Ok((status, errors)) => {
            if status == 1 {
                Ok(())
            } else {
                let joined = join(&errors, ", ");
                let shown = debug_quoted(joined.as_str());
                let mut m = String::new();
                push_str(&mut m, "Failed to send pushover message: ");
                push_str(&mut m, shown.as_str());
                Err(MaremmaError::Generic(m))
            }
        },
    }
}

} // verus!
