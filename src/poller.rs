//! The state of a poller that calls one RPC method at once and then on a
//! fixed interval: parameters serialized once, a count of successful polls
//! against an optional limit, and the handle of the repeating timer.
use vstd::prelude::*;

verus! {

/// Seconds between polls when the client gives no interval.
pub const DEFAULT_POLL_INTERVAL_SECS: u64 = 7;

/// The duration of `secs` seconds.
pub uninterp spec fn duration_secs(secs: u64) -> core::time::Duration;

/// Relies on `Duration::from_secs`, which depends on its argument alone.
#[verifier::external_body]
fn duration_from_secs(secs: u64) -> (r: core::time::Duration)
    ensures
        r == duration_secs(secs),
{
    core::time::Duration::from_secs(secs)
}

/// Poll parameters, serialized on first use and kept serialized after that.
#[derive(Debug)]
pub enum ParamsOnce<P> {
    Typed(P),
    Serialized(String),
}

impl<P> ParamsOnce<P> {
    /// The state after one use whose serializer, if it was called, gave
    /// `outcome`.
    pub open spec fn after_get(self, outcome: Result<String, String>) -> Self {
        match self {
            ParamsOnce::Serialized(text) => self,
            ParamsOnce::Typed(p) => match outcome {
                Ok(text) => ParamsOnce::Serialized(text),
                Err(_) => self,
            },
        }
    }

    /// The number of successful serializations over a run of uses, where
    /// `outcomes[i]` is what the serializer gives if use `i` calls it.
    pub open spec fn serializations(self, outcomes: Seq<Result<String, String>>) -> nat
        decreases outcomes.len(),
    {
        if outcomes.len() == 0 {
            0
        } else {
            let here: nat = if self is Typed && outcomes[0] is Ok {
                1
            } else {
                0
            };
            here + self.after_get(outcomes[0]).serializations(outcomes.drop_first())
        }
    }

    /// The serialized parameters: the cached text, or else what `serialize`
    /// makes of the typed value, which is then cached.
    pub fn get<F: FnOnce(&P) -> Result<String, String>>(&mut self, serialize: F) -> (r: Result<
        String,
        String,
    >)
        requires
            *old(self) matches ParamsOnce::Typed(p) ==> serialize.requires((&p,)),
        ensures
            match *old(self) {
                ParamsOnce::Serialized(text) => r == Ok::<String, String>(text),
                ParamsOnce::Typed(p) => serialize.ensures((&p,), r),
            },
            *final(self) == old(self).after_get(r),
    {
        let text = match self {
            ParamsOnce::Serialized(text) => return Ok(text.clone()),
            ParamsOnce::Typed(p) => serialize(p),
        };
        match text {
            Ok(text) => {
                *self = ParamsOnce::Serialized(text.clone());
                Ok(text)
            },
            Err(e) => Err(e),
        }
    }
}

/// Where a poller is in its life.
#[derive(Debug, Clone, Copy, PartialEq, Eq, Structural)]
pub enum PollPhase {
    /// Built, not started.
    Idle,
    /// Started: the timer repeats the poll.
    Scheduled,
    /// Stopped by its owner.
    Stopped,
    /// Halted after its limit of successful polls.
    LimitReached,
}

/// Why a poller could not do what was asked.
#[derive(Debug, Clone, Copy, PartialEq, Eq)]
pub enum PollerError {
    /// The client that the poller calls through no longer exists.
    ClientDropped,
    /// The poller was started before.
    AlreadyStarted,
    /// A poller is driven by its timer and cannot be pulled as a stream.
    StreamUnsupported,
}

/// What to do after a successful poll.
#[derive(Debug, Clone, Copy, PartialEq, Eq)]
pub struct TickOutcome {
    /// Hand the response to the callback.
    pub deliver: bool,
    /// A timer to cancel: the limit has just been reached.
    pub clear_timer: Option<u64>,
}

/// A poller of one RPC method: its parameters, interval, limit, count of
/// successful polls and timer.
#[derive(Debug)]
pub struct IcpPollerBuilder<P> {
    method: String,
    params: ParamsOnce<P>,
    poll_interval: core::time::Duration,
    limit: usize,
    count: usize,
    timer_id: Option<u64>,
    phase: PollPhase,
}

impl<P> IcpPollerBuilder<P> {
    pub closed spec fn spec_method(&self) -> Seq<char> {
        self.method@
    }

    pub closed spec fn spec_params(&self) -> ParamsOnce<P> {
        self.params
    }

    pub closed spec fn spec_poll_interval(&self) -> core::time::Duration {
        self.poll_interval
    }

    pub closed spec fn spec_limit(&self) -> usize {
        self.limit
    }

    /// Successful polls so far.
    pub closed spec fn spec_count(&self) -> usize {
        self.count
    }

    /// The live timer, if any.
    pub closed spec fn spec_timer(&self) -> Option<u64> {
        self.timer_id
    }

    pub closed spec fn spec_phase(&self) -> PollPhase {
        self.phase
    }

    /// The two pollers call the same method with the same parameters at the
    /// same interval.
    pub open spec fn same_call(self, other: Self) -> bool {
        &&& self.spec_method() == other.spec_method()
        &&& self.spec_params() == other.spec_params()
        &&& self.spec_poll_interval() == other.spec_poll_interval()
    }

    /// The two pollers have made the same progress.
    pub open spec fn same_progress(self, other: Self) -> bool {
        &&& self.spec_count() == other.spec_count()
        &&& self.spec_timer() == other.spec_timer()
        &&& self.spec_phase() == other.spec_phase()
    }

    /// A timer is held only while the poller is scheduled.
    pub closed spec fn wf(&self) -> bool {
        self.timer_id is Some ==> self.phase is Scheduled
    }

    /// The state and the outcome after one successful poll.
    pub closed spec fn after_success(self) -> (Self, TickOutcome) {
        let deliver = self.count < self.limit;
        let count: usize = if deliver {
            (self.count + 1) as usize
        } else {
            self.count
        };
        let reached = count >= self.limit;
        let outcome = TickOutcome {
            deliver,
            clear_timer: if reached {
                self.timer_id
            } else {
                None
            },
        };
        let next = IcpPollerBuilder {
            count,
            timer_id: if reached {
                None
            } else {
                self.timer_id
            },
            phase: if reached && self.phase is Scheduled {
                PollPhase::LimitReached
            } else {
                self.phase
            },
            ..self
        };
        (next, outcome)
    }

    /// The state after `n` successful polls, and how many of their responses
    /// reached the callback.
    pub open spec fn after_successes(self, n: nat) -> (Self, nat)
        decreases n,
    {
        if n == 0 {
            (self, 0)
        } else {
            let (next, outcome) = self.after_success();
            let (last, delivered) = next.after_successes((n - 1) as nat);
            (last, delivered + if outcome.deliver {
                1nat
            } else {
                0nat
            })
        }
    }

    /// The state after `stop`, and the timer it cancels.
    pub closed spec fn after_stop(self) -> (Self, Option<u64>) {
        let phase = if self.phase is Idle || self.phase is Scheduled {
            PollPhase::Stopped
        } else {
            self.phase
        };
        (IcpPollerBuilder { timer_id: None, phase, ..self }, self.timer_id)
    }

    /// A poller of `method` with `params`, polling at the client's interval,
    /// or every seven seconds when the client gives none, with no limit.
    pub fn new(client_poll_interval: Option<core::time::Duration>, method: String, params: P) -> (r:
        Self)
        ensures
            r.wf(),
            r.spec_method() == method@,
            r.spec_params() == ParamsOnce::Typed(params),
            r.spec_poll_interval() == match client_poll_interval {
                Some(interval) => interval,
                None => duration_secs(DEFAULT_POLL_INTERVAL_SECS),
            },
            r.spec_limit() == usize::MAX,
            r.spec_count() == 0,
            r.spec_timer() is None,
            r.spec_phase() == PollPhase::Idle,
    {
        let poll_interval = match client_poll_interval {
            Some(interval) => interval,
            None => duration_from_secs(DEFAULT_POLL_INTERVAL_SECS),
        };
        IcpPollerBuilder {
            method,
            params: ParamsOnce::Typed(params),
            poll_interval,
            limit: usize::MAX,
            count: 0,
            timer_id: None,
            phase: PollPhase::Idle,
        }
    }

    /// The limit on the number of successful polls.
    pub fn limit(&self) -> (r: usize)
        ensures
            r == self.spec_limit(),
    {
        self.limit
    }

    /// Sets a limit on the number of successful polls; `None` sets none.
    pub fn set_limit(&mut self, limit: Option<usize>)
        ensures
            final(self).spec_limit() == match limit {
                Some(k) => k,
                None => usize::MAX,
            },
            final(self).same_call(*old(self)),
            final(self).same_progress(*old(self)),
            old(self).wf() ==> final(self).wf(),
    {
        self.limit = match limit {
            Some(k) => k,
            None => usize::MAX,
        };
    }

    /// Sets a limit on the number of successful polls; `None` sets none.
    pub fn with_limit(self, limit: Option<usize>) -> (r: Self)
        ensures
            r.spec_limit() == match limit {
                Some(k) => k,
                None => usize::MAX,
            },
            r.same_call(self),
            r.same_progress(self),
            self.wf() ==> r.wf(),
    {
        let mut this = self;
        this.set_limit(limit);
        this
    }

    /// The time between polls.
    pub fn poll_interval(&self) -> (r: core::time::Duration)
        ensures
            r == self.spec_poll_interval(),
    {
        self.poll_interval
    }

    /// Sets the time between polls.
    pub fn set_poll_interval(&mut self, poll_interval: core::time::Duration)
        ensures
            final(self).spec_poll_interval() == poll_interval,
            final(self).spec_method() == old(self).spec_method(),
            final(self).spec_params() == old(self).spec_params(),
            final(self).spec_limit() == old(self).spec_limit(),
            final(self).same_progress(*old(self)),
            old(self).wf() ==> final(self).wf(),
    {
        self.poll_interval = poll_interval;
    }

    /// Sets the time between polls.
    pub fn with_poll_interval(self, poll_interval: core::time::Duration) -> (r: Self)
        ensures
            r.spec_poll_interval() == poll_interval,
            r.spec_method() == self.spec_method(),
            r.spec_params() == self.spec_params(),
            r.spec_limit() == self.spec_limit(),
            r.same_progress(self),
            self.wf() ==> r.wf(),
    {
        let mut this = self;
        this.set_poll_interval(poll_interval);
        this
    }

    /// Where the poller is in its life.
    pub fn phase(&self) -> (r: PollPhase)
        ensures
            r == self.spec_phase(),
    {
        self.phase
    }

    /// The method that each poll calls.
    pub fn method(&self) -> (r: &String)
        ensures
            r@ == self.spec_method(),
    {
        &self.method
    }

    /// Starts the schedule, if the client still exists and the poller has
    /// not started before.
    pub fn start(&mut self, client_alive: bool) -> (r: Result<(), PollerError>)
        requires
            old(self).wf(),
        ensures
            final(self).wf(),
            final(self).same_call(*old(self)),
            final(self).spec_limit() == old(self).spec_limit(),
            final(self).spec_count() == old(self).spec_count(),
            final(self).spec_timer() == old(self).spec_timer(),
            !client_alive ==> r == Err::<(), PollerError>(PollerError::ClientDropped)
                && final(self).spec_phase() == old(self).spec_phase(),
            client_alive && !(old(self).spec_phase() is Idle) ==> r == Err::<(), PollerError>(
                PollerError::AlreadyStarted,
            ) && final(self).spec_phase() == old(self).spec_phase(),
            client_alive && old(self).spec_phase() is Idle ==> r is Ok && final(self).spec_phase()
                == PollPhase::Scheduled,
    {
        if !client_alive {
            return Err(PollerError::ClientDropped);
        }
        match self.phase {
            PollPhase::Idle => {
                self.phase = PollPhase::Scheduled;
                Ok(())
            },
            _ => Err(PollerError::AlreadyStarted),
        }
    }

    /// Records the repeating timer of a started poller. When the schedule
    /// has already ended, or holds a timer, the new one is handed back to be
    /// cancelled.
    pub fn attach_timer(&mut self, timer_id: u64) -> (r: Option<u64>)
        requires
            old(self).wf(),
        ensures
            final(self).wf(),
            final(self).same_call(*old(self)),
            final(self).spec_limit() == old(self).spec_limit(),
            final(self).spec_count() == old(self).spec_count(),
            final(self).spec_phase() == old(self).spec_phase(),
            old(self).spec_phase() is Scheduled && old(self).spec_timer() is None ==> r is None
                && final(self).spec_timer() == Some(timer_id),
            !(old(self).spec_phase() is Scheduled && old(self).spec_timer() is None) ==> r == Some(
                timer_id,
            ) && final(self).spec_timer() == old(self).spec_timer(),
    {
        if self.phase == PollPhase::Scheduled && self.timer_id.is_none() {
            self.timer_id = Some(timer_id);
            None
        } else {
            Some(timer_id)
        }
    }

    /// The serialized parameters for a poll; they are serialized by
    /// `serialize` on the first use only.
    pub fn params<F: FnOnce(&P) -> Result<String, String>>(&mut self, serialize: F) -> (r: Result<
        String,
        String,
    >)
        requires
            old(self).spec_params() matches ParamsOnce::Typed(p) ==> serialize.requires((&p,)),
            old(self).wf(),
        ensures
            final(self).wf(),
            match old(self).spec_params() {
                ParamsOnce::Serialized(text) => r == Ok::<String, String>(text),
                ParamsOnce::Typed(p) => serialize.ensures((&p,), r),
            },
            final(self).spec_params() == old(self).spec_params().after_get(r),
            final(self).spec_method() == old(self).spec_method(),
            final(self).spec_poll_interval() == old(self).spec_poll_interval(),
            final(self).spec_limit() == old(self).spec_limit(),
            final(self).same_progress(*old(self)),
    {
        self.params.get(serialize)
    }

    /// Records a successful poll: the response reaches the callback while
    /// the count is under the limit, and the timer is cancelled once the
    /// count reaches it.
    pub fn record_success(&mut self) -> (r: TickOutcome)
        requires
            old(self).wf(),
        ensures
            final(self).wf(),
            (*final(self), r) == old(self).after_success(),
            final(self).same_call(*old(self)),
            final(self).spec_limit() == old(self).spec_limit(),
            r.deliver == (old(self).spec_count() < old(self).spec_limit()),
            final(self).spec_count() == if r.deliver {
                old(self).spec_count() + 1
            } else {
                old(self).spec_count() as int
            },
            final(self).spec_count() >= old(self).spec_limit() ==> {
                &&& r.clear_timer == old(self).spec_timer()
                &&& final(self).spec_timer() is None
                &&& final(self).spec_phase() == if old(self).spec_phase() is Scheduled {
                    PollPhase::LimitReached
                } else {
                    old(self).spec_phase()
                }
            },
            final(self).spec_count() < old(self).spec_limit() ==> {
                &&& r.clear_timer is None
                &&& final(self).spec_timer() == old(self).spec_timer()
                &&& final(self).spec_phase() == old(self).spec_phase()
            },
    {
        let deliver = self.count < self.limit;
        if deliver {
            self.count = self.count + 1;
        }
        let mut clear_timer: Option<u64> = None;
        if self.count >= self.limit {
            clear_timer = self.timer_id;
            self.timer_id = None;
            if self.phase == PollPhase::Scheduled {
                self.phase = PollPhase::LimitReached;
            }
        }
        TickOutcome { deliver, clear_timer }
    }

    /// Stops the schedule and hands back the timer to cancel, if one is
    /// live; a second call, or one after the limit, cancels nothing.
    pub fn stop(&mut self) -> (r: Option<u64>)
        requires
            old(self).wf(),
        ensures
            final(self).wf(),
            (*final(self), r) == old(self).after_stop(),
            final(self).same_call(*old(self)),
            final(self).spec_limit() == old(self).spec_limit(),
            final(self).spec_count() == old(self).spec_count(),
            r == old(self).spec_timer(),
            final(self).spec_timer() is None,
            final(self).spec_phase() == if old(self).spec_phase() is Idle || old(
                self,
            ).spec_phase() is Scheduled {
                PollPhase::Stopped
            } else {
                old(self).spec_phase()
            },
    {
        let timer = self.timer_id;
        self.timer_id = None;
        match self.phase {
            PollPhase::Idle | PollPhase::Scheduled => {
                self.phase = PollPhase::Stopped;
            },
            _ => {},
        }
        timer
    }

    /// A poller cannot be turned into a stream: it is driven by its timer.
    pub fn into_stream(self) -> (r: Result<(), PollerError>)
        ensures
            r == Err::<(), PollerError>(PollerError::StreamUnsupported),
    {
        Err(PollerError::StreamUnsupported)
    }
}

/// Parameters are serialized at most once over any run of polls, and never
/// once they are cached.
pub proof fn params_serialized_at_most_once<P>(
    params: ParamsOnce<P>,
    outcomes: Seq<Result<String, String>>,
)
    ensures
        params.serializations(outcomes) <= 1,
        params is Serialized ==> params.serializations(outcomes) == 0,
    decreases outcomes.len(),
{
    if outcomes.len() > 0 {
        params_serialized_at_most_once(params.after_get(outcomes[0]), outcomes.drop_first());
    }
}

/// Over `n` successful polls, the callback receives a response for each one
/// until the count reaches the limit and for none after, and once the limit
/// is reached the timer is gone. Before the limit is reached the timer and
/// the phase are kept, so without a limit (`usize::MAX`) every successful
/// poll reaches the callback and the schedule goes on.
pub proof fn limit_is_enforced<P>(poller: IcpPollerBuilder<P>, n: nat)
    requires
        poller.spec_count() <= poller.spec_limit(),
    ensures
        ({
            let (last, delivered) = poller.after_successes(n);
            let room = (poller.spec_limit() - poller.spec_count()) as nat;
            &&& delivered == if n <= room {
                n
            } else {
                room
            }
            &&& last.spec_count() == poller.spec_count() + delivered
            &&& last.spec_count() <= last.spec_limit()
            &&& last.spec_limit() == poller.spec_limit()
            &&& n > 0 && poller.spec_count() + n >= poller.spec_limit() ==> last.spec_timer() is None
            &&& poller.spec_count() + n < poller.spec_limit() ==> {
                &&& last.spec_timer() == poller.spec_timer()
                &&& last.spec_phase() == poller.spec_phase()
            }
        }),
    decreases n,
{
    if n > 0 {
        let (next, outcome) = poller.after_success();
        limit_is_enforced(next, (n - 1) as nat);
    }
}

/// Once the limit is reached, further successful polls cancel no timer.
pub proof fn limit_cancels_once<P>(poller: IcpPollerBuilder<P>)
    requires
        poller.spec_count() >= poller.spec_limit(),
        poller.spec_timer() is None,
    ensures
        poller.after_success().1.clear_timer is None,
        !poller.after_success().1.deliver,
        poller.after_success().0.spec_timer() is None,
{
}

/// Stopping twice cancels the timer at most once: the second stop changes
/// nothing and cancels nothing; and a poller that reached its limit has no
/// timer left for `stop` to cancel.
pub proof fn stop_is_idempotent<P>(poller: IcpPollerBuilder<P>)
    ensures
        ({
            let (stopped, _) = poller.after_stop();
            let (again, cancelled) = stopped.after_stop();
            &&& cancelled is None
            &&& again == stopped
        }),
        poller.spec_phase() is LimitReached && poller.wf() ==> poller.after_stop().1 is None,
{
}

} // verus!
