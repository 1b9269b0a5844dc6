//! The connectivity probe: whether the remote service can be reached.
//!
//! The probe is one request, made when the answer is first needed. What it
//! finds holds for the rest of the run: there is no second request, and a
//! network that comes back later is not noticed.

use vstd::prelude::*;
use crate::error::ServiceError;

verus! {

/// The address that the probe requests.
pub const PROBE_URL: &'static str = "https://github.com";

/// How long the probe waits for an answer, in seconds.
pub const PROBE_TIMEOUT_SECS: u64 = 5;

/// How long the tool pauses after the warning, in milliseconds, so that the
/// warning is seen before more output follows.
pub const OFFLINE_PAUSE_MILLIS: u64 = 3000;

/// The warning that is shown when the probe fails.
pub const OFFLINE_WARNING: &'static str =
    "warning: you are offline. you will only be able to use cached templates which may be out of date";

/// A status code that stands for success.
pub open spec fn is_success(status: u16) -> bool {
    200 <= status < 300
}

/// Whether the reply to the probe shows that the service can be reached.
/// `None` stands for a request that failed or ran into the timeout.
pub open spec fn reachable(reply: Option<u16>) -> bool {
    reply matches Some(status) && is_success(status)
}

/// What a probe has found after it was asked with `reply`, where it had found
/// `found` before: the first reply decides, and what was decided stays.
pub open spec fn answer_after(found: Option<bool>, reply: Option<u16>) -> Option<bool> {
    match found {
        Some(online) => Some(online),
        None => Some(reachable(reply)),
    }
}

/// What the user is told when the probe fails.
#[derive(Debug, PartialEq, Eq)]
pub struct OfflineNotice {
    pub warning: String,
    pub pause_millis: u64,
}

/// What the probe answers.
#[derive(Debug, PartialEq, Eq)]
pub struct Answer {
    pub online: bool,
    /// The notice to show; it comes once, with the answer that the failed
    /// probe itself gives.
    pub notice: Option<OfflineNotice>,
}

impl Answer {
    /// The answer as a result: `NetworkUnavailable` where the service cannot
    /// be reached.
    pub fn checked(&self) -> (checked: Result<(), ServiceError>)
        ensures
            checked == if self.online {
                Ok::<(), ServiceError>(())
            } else {
                Err::<(), ServiceError>(ServiceError::NetworkUnavailable)
            },
    {
        if self.online {
            Ok(())
        } else {
            Err(ServiceError::NetworkUnavailable)
        }
    }
}

/// The probe with what it has found so far.
pub struct ConnectivityProbe {
    found: Option<bool>,
}

impl ConnectivityProbe {
    /// What the probe has found: `None` until the request was made.
    pub closed spec fn found(&self) -> Option<bool> {
        self.found
    }

    /// A probe that has not made its request yet.
    pub fn new() -> (probe: ConnectivityProbe)
        ensures
            probe.found() is None,
    {
        ConnectivityProbe { found: None }
    }

    /// Whether the request is still to be made.
    pub fn is_pending(&self) -> (pending: bool)
        ensures
            pending == self.found() is None,
    {
        self.found.is_none()
    }

    /// Whether the service can be reached. The first call decides it from
    /// `reply`, the status of the answer to the request, and keeps what it
    /// decided; every later call gives the same answer, whatever its `reply`.
    pub fn is_online(&mut self, reply: Option<u16>) -> (answer: Answer)
        ensures
            final(self).found() == answer_after(old(self).found(), reply),
            final(self).found() == Some(answer.online),
            answer.notice is Some <==> old(self).found() is None && !reachable(reply),
            answer.notice matches Some(notice) ==> notice.warning@ == OFFLINE_WARNING@
                && notice.pause_millis == OFFLINE_PAUSE_MILLIS,
    {
        match self.found {
            Some(online) => Answer { online, notice: None },
            None => {
                let online = match reply {
                    Some(status) => 200 <= status && status < 300,
                    None => false,
                };
                self.found = Some(online);
                let notice = if online {
                    None
                } else {
                    Some(
                        OfflineNotice {
                            warning: OFFLINE_WARNING.to_owned(),
                            pause_millis: OFFLINE_PAUSE_MILLIS,
                        },
                    )
                };
                Answer { online, notice }
            },
        }
    }
}

/// All of a run sees one answer: once the probe has found something, no
/// reply changes it.
pub proof fn lemma_first_answer_stays(found: Option<bool>, first: Option<u16>, later: Option<u16>)
    ensures
        answer_after(answer_after(found, first), later) == answer_after(found, first),
{
}

} // verus!
