//! Worker control: the state-change commands and the environment-reload
//! poll.
//!
//! A reload is destructive: it discards the current environment and waits
//! for a new one. The poll decides, at each observation, between four
//! mutually exclusive verdicts — the deadline has passed, the environment
//! reports an error, a new environment stands initialized, or the wait
//! goes on. Timing and sleeping belong to the caller; the decisions are
//! here.

use vstd::prelude::*;

use crate::entities::{
    EnvironmentState, NewState, SpecEnvironmentState, SpecNewState, WorkerState,
};

verus! {

/// The fixed pause between two environment polls, in milliseconds.
pub const POLL_INTERVAL_MS: u64 = 500;

/// The command that pauses the worker; `defer` waits for the next safe
/// checkpoint.
pub fn pause_command(defer: bool) -> (r: NewState)
    ensures
        r@ == (SpecNewState {
            new_state: WorkerState::Paused,
            reason: None,
            defer: Some(defer),
        }),
{
    NewState { new_state: WorkerState::Paused, reason: None, defer: Some(defer) }
}

/// The command that resumes a paused worker.
pub fn resume_command() -> (r: NewState)
    ensures
        r@ == (SpecNewState { new_state: WorkerState::Running, reason: None, defer: None }),
{
    NewState { new_state: WorkerState::Running, reason: None, defer: None }
}

/// The command that stops the current task, keeping its run a success.
pub fn stop_command() -> (r: NewState)
    ensures
        r@ == (SpecNewState { new_state: WorkerState::Stopping, reason: None, defer: None }),
{
    NewState { new_state: WorkerState::Stopping, reason: None, defer: None }
}

/// The command that aborts the current task, marking its run failed; the
/// reason travels with the command.
pub fn abort_command(reason: Option<String>) -> (r: NewState)
    ensures
        r@ == (SpecNewState {
            new_state: WorkerState::Aborting,
            reason: match reason {
                Some(ref s) => Some(s@),
                None => None,
            },
            defer: None,
        }),
{
    NewState { new_state: WorkerState::Aborting, reason, defer: None }
}

/// One environment-reload wait: the environment that was discarded and the
/// absolute deadline, where the caller set one. Without a deadline the
/// wait is unbounded.
#[derive(Debug, PartialEq, Eq)]
pub struct ReloadPoll {
    pub old_environment_id: String,
    pub deadline: Option<u64>,
}

/// Mathematical model of a [`ReloadPoll`].
pub struct SpecReloadPoll {
    pub old_environment_id: Seq<char>,
    pub deadline: Option<u64>,
}

impl View for ReloadPoll {
    type V = SpecReloadPoll;

    open spec fn view(&self) -> SpecReloadPoll {
        SpecReloadPoll {
            old_environment_id: self.old_environment_id@,
            deadline: self.deadline,
        }
    }
}

/// Starts a reload wait: remembers the discarded environment's identifier
/// and turns a relative timeout into an absolute deadline.
pub fn reload_poll_start(old: &EnvironmentState, now_ms: u64, timeout_ms: Option<u64>) -> (r:
    ReloadPoll)
    requires
        timeout_ms matches Some(t) ==> now_ms + t <= u64::MAX,
    ensures
        r@.old_environment_id == old@.environment_id,
        r@.deadline == match timeout_ms {
            Some(t) => Some((now_ms + t) as u64),
            None => None::<u64>,
        },
{
    ReloadPoll {
        old_environment_id: old.environment_id.clone(),
        deadline: match timeout_ms {
            Some(t) => Some(now_ms + t),
            None => None,
        },
    }
}

/// What one poll of the environment decides.
#[derive(Debug, PartialEq, Eq)]
pub enum PollVerdict {
    /// The deadline passed before a new environment stood: a reported
    /// timeout, distinct from any environment error.
    TimedOut,
    /// The environment reports an error: fatal, the poll aborts at once.
    Fatal(String),
    /// A new environment stands initialized under a fresh identifier.
    Reloaded(EnvironmentState),
    /// Nothing decided yet: poll again after the interval.
    Wait,
}

/// Mathematical model of a [`PollVerdict`].
pub enum SpecPollVerdict {
    TimedOut,
    Fatal(Seq<char>),
    Reloaded(SpecEnvironmentState),
    Wait,
}

impl View for PollVerdict {
    type V = SpecPollVerdict;

    open spec fn view(&self) -> SpecPollVerdict {
        match self {
            PollVerdict::TimedOut => SpecPollVerdict::TimedOut,
            PollVerdict::Fatal(m) => SpecPollVerdict::Fatal(m@),
            PollVerdict::Reloaded(env) => SpecPollVerdict::Reloaded(env@),
            PollVerdict::Wait => SpecPollVerdict::Wait,
        }
    }
}

/// The verdict on one observation, in decision order: past the deadline
/// the wait is a timeout before anything else is looked at; an error
/// message is fatal; a new, initialized environment under a changed
/// identifier is the awaited reload; otherwise the wait goes on. The four
/// cases exclude one another by construction.
pub open spec fn spec_poll_step(
    p: SpecReloadPoll,
    now_ms: u64,
    env: SpecEnvironmentState,
) -> SpecPollVerdict {
    if p.deadline matches Some(d) && now_ms >= d {
        SpecPollVerdict::TimedOut
    } else {
        match env.error_message {
            Some(m) => SpecPollVerdict::Fatal(m),
            None => if env.initialized && env.environment_id != p.old_environment_id {
                SpecPollVerdict::Reloaded(env)
            } else {
                SpecPollVerdict::Wait
            },
        }
    }
}

impl ReloadPoll {
    /// Decides one observation, as [`spec_poll_step`] describes.
    pub fn poll_step(&self, now_ms: u64, env: EnvironmentState) -> (r: PollVerdict)
        ensures
            r@ == spec_poll_step(self@, now_ms, env@),
    {
        match &self.deadline {
            Some(d) => {
                if now_ms >= *d {
                    return PollVerdict::TimedOut;
                }
            },
            None => (),
        }
        match env.error_message {
            Some(m) => PollVerdict::Fatal(m),
            None => {
                if env.initialized && !crate::json::str_eq(
                    env.environment_id.as_str(),
                    self.old_environment_id.as_str(),
                ) {
                    PollVerdict::Reloaded(env)
                } else {
                    PollVerdict::Wait
                }
            },
        }
    }
}

/// The first decision of a run of observations, if any observation
/// decides.
pub open spec fn spec_poll_outcome(
    p: SpecReloadPoll,
    polls: Seq<(u64, SpecEnvironmentState)>,
) -> Option<SpecPollVerdict>
    decreases polls.len(),
{
    if polls.len() == 0 {
        None
    } else {
        match spec_poll_step(p, polls[0].0, polls[0].1) {
            SpecPollVerdict::Wait => spec_poll_outcome(p, polls.skip(1)),
            v => Some(v),
        }
    }
}

/// Runs the poll over a recorded trace of observations, as
/// [`spec_poll_outcome`] describes.
pub fn poll_outcome(p: &ReloadPoll, polls: &Vec<(u64, EnvironmentState)>) -> (r: Option<
    PollVerdict,
>)
    ensures
        match r {
            Some(v) => spec_poll_outcome(p@, polls.deep_view()) == Some(v@),
            None => spec_poll_outcome(p@, polls.deep_view()) is None,
        },
{
    proof {
        assert(polls.deep_view().len() == polls@.len());
        assert(polls.deep_view().skip(0) =~= polls.deep_view());
    }
    let mut i: usize = 0;
    while i < polls.len()
        invariant
            i <= polls@.len(),
            polls.deep_view().len() == polls@.len(),
            spec_poll_outcome(p@, polls.deep_view()) == spec_poll_outcome(
                p@,
                polls.deep_view().skip(i as int),
            ),
            forall|j: int|
                0 <= j < polls@.len() ==> #[trigger] polls.deep_view()[j] == (
                polls@[j].0,
                polls@[j].1@,
                ),
        decreases polls@.len() - i,
    {
        let pair = &polls[i];
        let verdict = p.poll_step(pair.0, pair.1.clone());
        let ghost dv = polls.deep_view();
        proof {
            assert(dv.skip(i as int)[0] == dv[i as int]);
            assert(dv.skip(i as int).skip(1) =~= dv.skip(i as int + 1));
        }
        match verdict {
            PollVerdict::Wait => (),
            other => {
                return Some(other);
            },
        }
        i = i + 1;
    }
    proof {
        assert(polls.deep_view().skip(polls@.len() as int) =~= Seq::<
            (u64, SpecEnvironmentState),
        >::empty());
    }
    None
}

/// Past the deadline the verdict is the timeout, whatever the environment
/// says: a bounded wait cannot go on past its deadline.
pub proof fn lemma_poll_deadline(p: SpecReloadPoll, now_ms: u64, env: SpecEnvironmentState, d: u64)
    requires
        p.deadline == Some(d),
        now_ms >= d,
    ensures
        spec_poll_step(p, now_ms, env) == SpecPollVerdict::TimedOut,
{
}

/// The wait only ever continues before the deadline.
pub proof fn lemma_wait_is_before_deadline(
    p: SpecReloadPoll,
    now_ms: u64,
    env: SpecEnvironmentState,
    d: u64,
)
    requires
        spec_poll_step(p, now_ms, env) == SpecPollVerdict::Wait,
        p.deadline == Some(d),
    ensures
        now_ms < d,
{
}

/// A bounded wait decides: as soon as any observation falls at or past
/// the deadline, the run of observations has a verdict — it cannot end
/// undecided.
pub proof fn lemma_poll_terminates(
    p: SpecReloadPoll,
    polls: Seq<(u64, SpecEnvironmentState)>,
    i: int,
    d: u64,
)
    requires
        p.deadline == Some(d),
        0 <= i < polls.len(),
        polls[i].0 >= d,
    ensures
        spec_poll_outcome(p, polls) is Some,
    decreases polls.len(),
{
    match spec_poll_step(p, polls[0].0, polls[0].1) {
        SpecPollVerdict::Wait => {
            assert(polls[0].0 < d);
            assert(i > 0);
            assert(polls.skip(1)[i - 1] == polls[i]);
            lemma_poll_terminates(p, polls.skip(1), i - 1, d);
        },
        _ => {},
    }
}

/// An error message observed at any poll before the deadline aborts the
/// wait at once, fatally, whatever else the environment says.
pub proof fn lemma_poll_error_fatal(
    p: SpecReloadPoll,
    now_ms: u64,
    env: SpecEnvironmentState,
    msg: Seq<char>,
)
    requires
        env.error_message == Some(msg),
        p.deadline matches Some(d) ==> now_ms < d,
    ensures
        spec_poll_step(p, now_ms, env) == SpecPollVerdict::Fatal(msg),
{
}

} // verus!
