//! The agent that drives a flow-rate limiter along a sampled value path.
//!
//! Once per tick of the outside clock the agent takes the next sample of its
//! path, floors it at zero, and compares it with the value it last saw
//! confirmed. A rise becomes an inflow request, a fall an outflow request, and
//! no change nothing at all. The caller performs each request and reports how
//! it ended; only then does the agent move on. An outflow that the limiter
//! turned down for exceeding its limit is logged with the clock's time and
//! leaves the agent's belief where it was; any other failure ends the step
//! with an error.
//!
//! All amounts are in wad.

use crate::binary64::{consumed, representable, to_wad, wad_value};
use crate::process::{parameter_fault, ConfigError, ProcessParameters};
use crate::revert::{decode_revert, is_limiter_exceeded, RevertReason};
use vstd::prelude::*;

verus! {

/// An outflow that the limiter turned down for exceeding its limit.
#[derive(Clone, Copy, Debug, PartialEq, Eq)]
pub struct ExceedEvent {
    /// The outside clock when the outflow was turned down.
    pub time: u64,
    /// The value that the agent held before the step, and holds after it.
    pub pre_tvl: i128,
    /// The change that was attempted: `target_val - pre_tvl`, below zero.
    pub tvl_change: i128,
    /// The floored sample that the step aimed at.
    pub target_val: i128,
}

impl ExceedEvent {
    /// The record of a fall from `pre_tvl` to a target that is not negative.
    pub open spec fn coherent(&self) -> bool {
        &&& 0 <= self.target_val < self.pre_tvl
        &&& self.tvl_change == self.target_val - self.pre_tvl
    }
}

/// What the agent asks its caller to do next.
#[derive(Clone, Copy, Debug, PartialEq, Eq)]
pub enum Request {
    /// Pay this amount into the limiter, and wait for the confirmation.
    Inflow(u128),
    /// Draw this amount from the limiter.
    Outflow(u128),
    /// Read the outside clock.
    Timestamp,
}

/// How a request ended.
#[derive(Debug, PartialEq, Eq)]
pub enum Event {
    /// The operation went through.
    Confirmed,
    /// The limiter reverted the operation, with this payload.
    Reverted(Vec<u8>),
    /// The request failed in any other way.
    Failed,
    /// The outside clock read this time.
    Timestamp(u64),
}

/// What the end of an operation means to the agent.
#[derive(Clone, Copy, Debug, PartialEq, Eq)]
pub enum Outcome {
    /// The limiter now holds the target value.
    Applied,
    /// The limiter turned the operation down for exceeding its limit.
    RejectedByLimit,
    /// Anything else.
    OtherFailure,
}

/// Why a step ended with an error.
#[derive(Clone, Copy, Debug, PartialEq, Eq)]
pub enum StepError {
    /// A new step was asked for while a request was unanswered.
    OperationPending,
    /// An event was reported while no request was open.
    NothingPending,
    /// An inflow did not go through.
    InflowFailed,
    /// An outflow failed, and not for exceeding the limit.
    OutflowFailed,
    /// The outside clock could not be read.
    TimestampFailed,
}

/// The request that the agent waits on.
#[derive(Clone, Copy, Debug, PartialEq, Eq)]
pub enum Phase {
    /// None: the next step can start.
    Idle,
    /// An inflow towards the sample before the cursor.
    AwaitingInflow,
    /// An outflow towards the sample before the cursor.
    AwaitingOutflow,
    /// The time of an outflow that the limiter turned down.
    AwaitingTimestamp,
}

/// What an event means as the end of an operation.
pub open spec fn outcome_of(event: Event) -> Outcome {
    match event {
        Event::Confirmed => Outcome::Applied,
        Event::Reverted(payload) => if is_limiter_exceeded(payload@) {
            Outcome::RejectedByLimit
        } else {
            Outcome::OtherFailure
        },
        Event::Failed => Outcome::OtherFailure,
        Event::Timestamp(_) => Outcome::OtherFailure,
    }
}

/// Classifies the end of an operation. Only a revert whose payload decodes to
/// the limiter's own error counts as a rejection by the limit.
pub fn classify(event: &Event) -> (outcome: Outcome)
    ensures
        outcome == outcome_of(*event),
{
    match event {
        Event::Confirmed => Outcome::Applied,
        Event::Reverted(payload) => match decode_revert(payload.as_slice()) {
            RevertReason::LimiterExceeded => Outcome::RejectedByLimit,
            RevertReason::Unrecognized => Outcome::OtherFailure,
        },
        Event::Failed => Outcome::OtherFailure,
        Event::Timestamp(_) => Outcome::OtherFailure,
    }
}

/// The agent as a mathematical value.
#[verifier::ext_equal]
pub struct AgentView {
    /// The process that the path was sampled from.
    pub params: ProcessParameters,
    /// The path, one bit pattern per step.
    pub path: Seq<u64>,
    /// The value last confirmed by the limiter; at first, the initial value.
    pub last_tvl: int,
    /// Number of samples taken so far.
    pub cursor: nat,
    /// The outflows turned down so far, oldest first.
    pub exceed_log: Seq<ExceedEvent>,
    /// The request that is open.
    pub phase: Phase,
}

/// What is reported in the course of one step: the end of the flow, and the
/// reading of the clock. A step that asks for less leaves the rest unread.
pub struct Reports {
    /// The end of the inflow or outflow.
    pub flow: Event,
    /// The answer to the request for the time.
    pub clock: Event,
}

/// An agent after a call, and what the call answered.
#[verifier::ext_equal]
pub struct Transition {
    /// The agent after the call.
    pub next: AgentView,
    /// The request to perform next, `None` when the step is complete, or the
    /// error that ended the step.
    pub reply: Result<Option<Request>, StepError>,
}

impl AgentView {
    /// The value that the step in progress aims at: the floored sample before
    /// the cursor.
    pub open spec fn target(self) -> int {
        consumed(self.path[self.cursor - 1])
    }

    /// What every agent satisfies, whatever was reported to it.
    pub open spec fn valid(self) -> bool {
        &&& self.params.valid()
        &&& self.path.len() == self.params.n_steps
        &&& self.cursor <= self.path.len()
        &&& forall|i: int| 0 <= i < self.path.len() ==> representable(#[trigger] self.path[i])
        &&& i128::MIN <= self.last_tvl <= i128::MAX
        &&& forall|i: int|
            0 <= i < self.exceed_log.len() ==> (#[trigger] self.exceed_log[i]).coherent()
        &&& match self.phase {
            Phase::Idle => true,
            Phase::AwaitingInflow => self.cursor >= 1 && self.target() > self.last_tvl,
            Phase::AwaitingOutflow => self.cursor >= 1 && self.target() < self.last_tvl,
            Phase::AwaitingTimestamp => self.cursor >= 1 && self.target() < self.last_tvl,
        }
    }

    /// A new agent: nothing taken, nothing logged, nothing open.
    pub open spec fn fresh(params: ProcessParameters, initial_tvl: u64, path: Seq<u64>) -> AgentView {
        AgentView {
            params,
            path,
            last_tvl: wad_value(initial_tvl),
            cursor: 0,
            exceed_log: Seq::empty(),
            phase: Phase::Idle,
        }
    }

    /// The start of a step. While a request is open the agent refuses and
    /// stays as it is. Otherwise it takes the sample at the cursor and asks
    /// for the flow that leads from the last confirmed value to the floored
    /// sample, or for nothing where the two are equal.
    pub open spec fn start(self) -> Transition {
        if self.phase != Phase::Idle {
            Transition { next: self, reply: Err(StepError::OperationPending) }
        } else {
            let target = consumed(self.path[self.cursor as int]);
            let taken = AgentView { cursor: self.cursor + 1, ..self };
            if target > self.last_tvl {
                Transition {
                    next: AgentView { phase: Phase::AwaitingInflow, ..taken },
                    reply: Ok(Some(Request::Inflow((target - self.last_tvl) as u128))),
                }
            } else if target < self.last_tvl {
                Transition {
                    next: AgentView { phase: Phase::AwaitingOutflow, ..taken },
                    reply: Ok(Some(Request::Outflow((self.last_tvl - target) as u128))),
                }
            } else {
                Transition { next: taken, reply: Ok(None) }
            }
        }
    }

    /// The entry that a rejected outflow leaves in the log.
    pub open spec fn rejection(self, time: u64) -> ExceedEvent {
        ExceedEvent {
            time,
            pre_tvl: self.last_tvl as i128,
            tvl_change: (self.target() - self.last_tvl) as i128,
            target_val: self.target() as i128,
        }
    }

    /// The end of the open request.
    ///
    /// A confirmed flow makes the target the last confirmed value. An outflow
    /// rejected by the limit asks for the clock's time, and the time, once
    /// read, closes the step with a new entry in the log. Every other event
    /// closes the step with an error and changes neither value nor log.
    pub open spec fn settle(self, event: Event) -> Transition {
        let closed = AgentView { phase: Phase::Idle, ..self };
        match self.phase {
            Phase::Idle => Transition { next: self, reply: Err(StepError::NothingPending) },
            Phase::AwaitingInflow => match outcome_of(event) {
                Outcome::Applied => Transition {
                    next: AgentView { last_tvl: self.target(), ..closed },
                    reply: Ok(None),
                },
                _ => Transition { next: closed, reply: Err(StepError::InflowFailed) },
            },
            Phase::AwaitingOutflow => match outcome_of(event) {
                Outcome::Applied => Transition {
                    next: AgentView { last_tvl: self.target(), ..closed },
                    reply: Ok(None),
                },
                Outcome::RejectedByLimit => Transition {
                    next: AgentView { phase: Phase::AwaitingTimestamp, ..self },
                    reply: Ok(Some(Request::Timestamp)),
                },
                Outcome::OtherFailure => Transition {
                    next: closed,
                    reply: Err(StepError::OutflowFailed),
                },
            },
            Phase::AwaitingTimestamp => match event {
                Event::Timestamp(time) => Transition {
                    next: AgentView {
                        exceed_log: self.exceed_log.push(self.rejection(time)),
                        ..closed
                    },
                    reply: Ok(None),
                },
                _ => Transition { next: closed, reply: Err(StepError::TimestampFailed) },
            },
        }
    }

    /// A whole step: the start, and each request answered from `reports`
    /// until none is open. The reply is that of the last call.
    pub open spec fn step(self, reports: Reports) -> Transition {
        let started = self.start();
        if started.reply matches Ok(Some(_)) {
            let settled = started.next.settle(reports.flow);
            if settled.reply matches Ok(Some(_)) {
                settled.next.settle(reports.clock)
            } else {
                settled
            }
        } else {
            started
        }
    }

    /// One whole step for each entry of `reports`, in order.
    pub open spec fn run(self, reports: Seq<Reports>) -> AgentView
        decreases reports.len(),
    {
        if reports.len() == 0 {
            self
        } else {
            self.run(reports.drop_last()).step(reports.last()).next
        }
    }
}

/// Whether `i` is the position of the first sample that has no wad amount.
pub open spec fn first_out_of_range(path: Seq<u64>, i: int) -> bool {
    &&& 0 <= i < path.len()
    &&& !representable(path[i])
    &&& forall|j: int| 0 <= j < i ==> representable(#[trigger] path[j])
}

/// Whether an agent can be made of these: valid parameters, an initial value
/// and samples that all have wad amounts, and one sample per step.
pub open spec fn constructible(params: ProcessParameters, initial_tvl: u64, path: Seq<u64>) -> bool {
    &&& params.valid()
    &&& representable(initial_tvl)
    &&& path.len() == params.n_steps
    &&& forall|i: int| 0 <= i < path.len() ==> representable(#[trigger] path[i])
}

/// Whether `e` is the first fault of these, in the order: the parameters, the
/// initial value, the number of samples, the samples from the first on.
pub open spec fn construction_fault(
    params: ProcessParameters,
    initial_tvl: u64,
    path: Seq<u64>,
    e: ConfigError,
) -> bool {
    match parameter_fault(params) {
        Some(fault) => e == fault,
        None => if !representable(initial_tvl) {
            e == ConfigError::InitialValueOutOfRange
        } else if path.len() != params.n_steps {
            e == ConfigError::WrongSampleCount
        } else {
            e matches ConfigError::SampleOutOfRange(i) && first_out_of_range(path, i as int)
        },
    }
}

/// The agent that moves a limiter's total value locked (TVL) along a value
/// path. It holds the path, the value last confirmed by the limiter, and the
/// log of the outflows that the limiter turned down.
#[derive(Debug)]
pub struct TVLChanger {
    params: ProcessParameters,
    trajectory: Vec<u64>,
    last_tvl: i128,
    index: usize,
    exceed_events: Vec<ExceedEvent>,
    phase: Phase,
}

impl View for TVLChanger {
    type V = AgentView;

    closed spec fn view(&self) -> AgentView {
        AgentView {
            params: self.params,
            path: self.trajectory@,
            last_tvl: self.last_tvl as int,
            cursor: self.index as nat,
            exceed_log: self.exceed_events@,
            phase: self.phase,
        }
    }
}

impl TVLChanger {
    /// Makes the agent for a path that was sampled from `params`, starting
    /// from `initial_tvl`. The initial value is not part of the path.
    ///
    /// Fails on the first fault among: the parameters, an initial value
    /// without a wad amount, a path that does not hold one sample per step,
    /// a sample without a wad amount.
    pub fn new(params: ProcessParameters, initial_tvl: u64, samples: Vec<u64>) -> (r: Result<
        TVLChanger,
        ConfigError,
    >)
        ensures
            match r {
                Ok(agent) => {
                    &&& constructible(params, initial_tvl, samples@)
                    &&& agent@ =~= AgentView::fresh(params, initial_tvl, samples@)
                    &&& agent@.valid()
                },
                Err(e) => construction_fault(params, initial_tvl, samples@, e),
            },
    {
        match params.check() {
            Ok(()) => {},
            Err(e) => {
                return Err(e);
            },
        }
        let last_tvl: i128 = match to_wad(initial_tvl) {
            Some(value) => value,
            None => {
                return Err(ConfigError::InitialValueOutOfRange);
            },
        };
        if samples.len() != params.n_steps {
            return Err(ConfigError::WrongSampleCount);
        }
        let mut i: usize = 0;
        while i < samples.len()
            invariant
                i <= samples.len(),
                params.valid(),
                representable(initial_tvl),
                samples.len() == params.n_steps,
                forall|j: int| 0 <= j < i ==> representable(#[trigger] samples@[j]),
            decreases samples.len() - i,
        {
            if to_wad(samples[i]).is_none() {
                return Err(ConfigError::SampleOutOfRange(i));
            }
            i = i + 1;
        }
        Ok(
            TVLChanger {
                params,
                trajectory: samples,
                last_tvl,
                index: 0,
                exceed_events: Vec::new(),
                phase: Phase::Idle,
            },
        )
    }

    /// The whole path as it was given, samples taken or not, none floored.
    pub fn path(&self) -> (samples: Vec<u64>)
        requires
            self@.valid(),
        ensures
            samples@ == self@.path,
            samples@.len() == self@.params.n_steps,
    {
        let mut samples: Vec<u64> = Vec::new();
        let mut i: usize = 0;
        while i < self.trajectory.len()
            invariant
                i <= self.trajectory.len(),
                samples@ == self.trajectory@.take(i as int),
            decreases self.trajectory.len() - i,
        {
            samples.push(self.trajectory[i]);
            i = i + 1;
        }
        samples
    }

    /// The process that the path was sampled from.
    pub fn params(&self) -> (params: ProcessParameters)
        requires
            self@.valid(),
        ensures
            params == self@.params,
            params.valid(),
    {
        self.params
    }

    /// The value last confirmed by the limiter; at first, the initial value.
    pub fn last_tvl(&self) -> (value: i128)
        ensures
            value == self@.last_tvl,
    {
        self.last_tvl
    }

    /// Number of samples taken so far.
    pub fn index(&self) -> (cursor: usize)
        requires
            self@.valid(),
        ensures
            cursor == self@.cursor,
            cursor <= self@.path.len(),
    {
        self.index
    }

    /// Number of samples still to take.
    pub fn remaining(&self) -> (left: usize)
        requires
            self@.valid(),
        ensures
            left == self@.path.len() - self@.cursor,
    {
        self.trajectory.len() - self.index
    }

    /// The outflows turned down so far, oldest first.
    pub fn exceed_events(&self) -> (log: &Vec<ExceedEvent>)
        ensures
            log@ == self@.exceed_log,
    {
        &self.exceed_events
    }

    /// The request that is open.
    pub fn phase(&self) -> (phase: Phase)
        ensures
            phase == self@.phase,
    {
        self.phase
    }

    /// The floored sample before the cursor.
    fn target(&self) -> (target: i128)
        requires
            self@.valid(),
            self@.cursor >= 1,
        ensures
            target == self@.target(),
            target >= 0,
    {
        floored(self.trajectory[self.index - 1])
    }

    /// Starts the next step: takes the sample at the cursor, and answers with
    /// the flow to perform, or with `None` where the floored sample is the
    /// value last confirmed. The outcome of a flow is reported to `resolve`.
    ///
    /// While a request is open the call is refused and changes nothing.
    pub fn apply_next_change(&mut self) -> (reply: Result<Option<Request>, StepError>)
        requires
            old(self)@.valid(),
            old(self)@.phase == Phase::Idle ==> old(self)@.cursor < old(self)@.path.len(),
        ensures
            final(self)@ =~= old(self)@.start().next,
            reply == old(self)@.start().reply,
            final(self)@.valid(),
    {
        match self.phase {
            Phase::Idle => {},
            _ => {
                return Err(StepError::OperationPending);
            },
        }
        let target: i128 = floored(self.trajectory[self.index]);
        let last: i128 = self.last_tvl;
        if target > last {
            let amount: u128 = if last >= 0 {
                (target - last) as u128
            } else {
                (target as u128) + ((-(last + 1)) as u128) + 1
            };
            self.index = self.index + 1;
            self.phase = Phase::AwaitingInflow;
            Ok(Some(Request::Inflow(amount)))
        } else if target < last {
            let amount: u128 = (last - target) as u128;
            self.index = self.index + 1;
            self.phase = Phase::AwaitingOutflow;
            Ok(Some(Request::Outflow(amount)))
        } else {
            self.index = self.index + 1;
            Ok(None)
        }
    }

    /// Takes the end of the open request, and answers with the request to
    /// perform next, or with `None` when the step is complete.
    ///
    /// While no request is open the call is refused and changes nothing.
    pub fn resolve(&mut self, event: Event) -> (reply: Result<Option<Request>, StepError>)
        requires
            old(self)@.valid(),
        ensures
            final(self)@ =~= old(self)@.settle(event).next,
            reply == old(self)@.settle(event).reply,
            final(self)@.valid(),
    {
        match self.phase {
            Phase::Idle => Err(StepError::NothingPending),
            Phase::AwaitingInflow => {
                let target: i128 = self.target();
                self.phase = Phase::Idle;
                match classify(&event) {
                    Outcome::Applied => {
                        self.last_tvl = target;
                        Ok(None)
                    },
                    _ => Err(StepError::InflowFailed),
                }
            },
            Phase::AwaitingOutflow => {
                let target: i128 = self.target();
                match classify(&event) {
                    Outcome::Applied => {
                        self.phase = Phase::Idle;
                        self.last_tvl = target;
                        Ok(None)
                    },
                    Outcome::RejectedByLimit => {
                        self.phase = Phase::AwaitingTimestamp;
                        Ok(Some(Request::Timestamp))
                    },
                    Outcome::OtherFailure => {
                        self.phase = Phase::Idle;
                        Err(StepError::OutflowFailed)
                    },
                }
            },
            Phase::AwaitingTimestamp => {
                let target: i128 = self.target();
                self.phase = Phase::Idle;
                match event {
                    Event::Timestamp(time) => {
                        self.exceed_events.push(
                            ExceedEvent {
                                time,
                                pre_tvl: self.last_tvl,
                                tvl_change: target - self.last_tvl,
                                target_val: target,
                            },
                        );
                        Ok(None)
                    },
                    _ => Err(StepError::TimestampFailed),
                }
            },
        }
    }
}

/// The value of a sample in wad, floored at zero.
fn floored(sample: u64) -> (value: i128)
    requires
        representable(sample),
    ensures
        value == consumed(sample),
        value >= 0,
{
    let raw: i128 = to_wad(sample).unwrap();
    if raw < 0 {
        0
    } else {
        raw
    }
}

} // verus!
