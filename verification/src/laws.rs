//! What holds of every agent, proved from the model in `agents`.

use crate::agents::{
    constructible, outcome_of, AgentView, Event, ExceedEvent, Outcome, Phase, Reports, Request,
    StepError,
};
use crate::binary64::{consumed, wad_value};
use crate::process::ProcessParameters;
use crate::revert::is_limiter_exceeded;
use vstd::prelude::*;

verus! {

/// The value that the agent takes from a sample is never negative, whatever
/// the sample: it is zero where the sample is below zero, and the sample's
/// wad amount elsewhere.
pub proof fn lemma_consumed_is_not_negative(sample: u64)
    ensures
        consumed(sample) >= 0,
        wad_value(sample) < 0 ==> consumed(sample) == 0,
        wad_value(sample) >= 0 ==> consumed(sample) == wad_value(sample),
{
}

/// A new agent over acceptable inputs is valid, and holds one sample per
/// step.
pub proof fn lemma_fresh_is_valid(params: ProcessParameters, initial_tvl: u64, path: Seq<u64>)
    requires
        constructible(params, initial_tvl, path),
    ensures
        AgentView::fresh(params, initial_tvl, path).valid(),
        AgentView::fresh(params, initial_tvl, path).path.len() == params.n_steps,
{
}

/// Starting a step keeps the agent valid, and parameters, path, last
/// confirmed value and log as they were.
pub proof fn lemma_start_keeps(s: AgentView)
    requires
        s.valid(),
        s.phase == Phase::Idle ==> s.cursor < s.path.len(),
    ensures
        s.start().next.valid(),
        s.start().next.params == s.params,
        s.start().next.path == s.path,
        s.start().next.last_tvl == s.last_tvl,
        s.start().next.exceed_log == s.exceed_log,
{
}

/// Settling a request keeps the agent valid, and parameters, path and cursor
/// as they were; it ends with no flow open.
pub proof fn lemma_settle_keeps(s: AgentView, event: Event)
    requires
        s.valid(),
    ensures
        s.settle(event).next.valid(),
        s.settle(event).next.params == s.params,
        s.settle(event).next.path == s.path,
        s.settle(event).next.cursor == s.cursor,
        s.settle(event).next.phase == Phase::Idle || s.settle(event).next.phase
            == Phase::AwaitingTimestamp,
{
    let next = s.settle(event).next;
    assert forall|i: int| 0 <= i < next.exceed_log.len() implies (
    #[trigger] next.exceed_log[i]).coherent() by {
        if i < s.exceed_log.len() {
            assert(next.exceed_log[i] == s.exceed_log[i]);
        }
    }
}

/// The path holds one sample per step, at every moment: no call adds,
/// removes or changes a sample.
pub proof fn lemma_length_is_step_count(s: AgentView, event: Event)
    requires
        s.valid(),
    ensures
        s.path.len() == s.params.n_steps,
        s.cursor < s.path.len() ==> s.start().next.path.len() == s.params.n_steps,
        s.settle(event).next.path.len() == s.params.n_steps,
{
}

/// Every accepted start takes exactly one sample: with a rise, with a fall
/// and with no change alike. A refused start takes none, and no report ever
/// moves the cursor.
pub proof fn lemma_cursor_advances_by_one(s: AgentView, event: Event)
    requires
        s.valid(),
        s.phase == Phase::Idle ==> s.cursor < s.path.len(),
    ensures
        s.phase == Phase::Idle ==> s.start().reply is Ok && s.start().next.cursor == s.cursor + 1,
        s.phase != Phase::Idle ==> s.start().reply == Err::<Option<Request>, StepError>(
            StepError::OperationPending,
        ) && s.start().next == s,
        s.settle(event).next.cursor == s.cursor,
{
}

/// A whole step from rest takes exactly one sample and comes to rest again,
/// whatever is reported: confirmed, rejected by the limit, failed, or
/// nothing to do.
pub proof fn lemma_step_takes_one_sample(s: AgentView, reports: Reports)
    requires
        s.valid(),
        s.phase == Phase::Idle,
        s.cursor < s.path.len(),
    ensures
        s.step(reports).next.valid(),
        s.step(reports).next.phase == Phase::Idle,
        s.step(reports).next.cursor == s.cursor + 1,
        s.step(reports).next.path == s.path,
        s.step(reports).next.params == s.params,
        s.step(reports).reply is Err || s.step(reports).reply == Ok::<
            Option<Request>,
            StepError,
        >(None),
{
    let started = s.start();
    lemma_start_keeps(s);
    if started.reply matches Ok(Some(_)) {
        let settled = started.next.settle(reports.flow);
        lemma_settle_keeps(started.next, reports.flow);
        if settled.reply matches Ok(Some(_)) {
            lemma_settle_keeps(settled.next, reports.clock);
        }
    }
}

/// What a whole step from rest comes to, case by case. With `target` the
/// floored sample at the cursor:
/// - no change: nothing but the cursor moves;
/// - a rise: the inflow, confirmed, makes the target the last confirmed
///   value; in any other case the step fails and the value stays;
/// - a fall: the outflow, confirmed, makes the target the last confirmed
///   value; rejected by the limit, it leaves the value and, with the time
///   read, adds the rejection to the log; in any other case the step fails,
///   the value stays and nothing is logged.
pub proof fn lemma_step_by_cases(s: AgentView, reports: Reports)
    requires
        s.valid(),
        s.phase == Phase::Idle,
        s.cursor < s.path.len(),
    ensures
        ({
            let target = consumed(s.path[s.cursor as int]);
            let taken = AgentView { cursor: s.cursor + 1, ..s };
            let done = Ok::<Option<Request>, StepError>(None);
            let after = s.step(reports);
            &&& target == s.last_tvl ==> after.next == taken && after.reply == done
            &&& target > s.last_tvl && outcome_of(reports.flow) == Outcome::Applied ==> after.next
                == (AgentView { last_tvl: target, ..taken }) && after.reply == done
            &&& target > s.last_tvl && outcome_of(reports.flow) != Outcome::Applied ==> after.next
                == taken && after.reply == Err::<Option<Request>, StepError>(
                StepError::InflowFailed,
            )
            &&& target < s.last_tvl && outcome_of(reports.flow) == Outcome::Applied ==> after.next
                == (AgentView { last_tvl: target, ..taken }) && after.reply == done
            &&& target < s.last_tvl && outcome_of(reports.flow) == Outcome::OtherFailure
                ==> after.next == taken && after.reply == Err::<Option<Request>, StepError>(
                StepError::OutflowFailed,
            )
            &&& target < s.last_tvl && outcome_of(reports.flow) == Outcome::RejectedByLimit ==> (
            match reports.clock {
                Event::Timestamp(time) => after.next == (AgentView {
                    exceed_log: s.exceed_log.push(
                        ExceedEvent {
                            time,
                            pre_tvl: s.last_tvl as i128,
                            tvl_change: (target - s.last_tvl) as i128,
                            target_val: target as i128,
                        },
                    ),
                    ..taken
                }) && after.reply == done,
                _ => after.next == taken && after.reply == Err::<Option<Request>, StepError>(
                    StepError::TimestampFailed,
                ),
            })
        }),
{
    lemma_consumed_is_not_negative(s.path[s.cursor as int]);
    let started = s.start();
    if started.reply matches Ok(Some(_)) {
        let settled = started.next.settle(reports.flow);
        assert(started.next.target() == consumed(s.path[s.cursor as int]));
        if settled.reply matches Ok(Some(_)) {
            assert(settled.next.target() == consumed(s.path[s.cursor as int]));
        }
    }
}

/// As many whole steps as samples are left can be run from rest: each finds a
/// sample to take, and after `k` of them the cursor has moved by `k`.
pub proof fn lemma_run_takes_one_sample_per_step(s: AgentView, reports: Seq<Reports>)
    requires
        s.valid(),
        s.phase == Phase::Idle,
        s.cursor + reports.len() <= s.path.len(),
    ensures
        s.run(reports).valid(),
        s.run(reports).phase == Phase::Idle,
        s.run(reports).cursor == s.cursor + reports.len(),
        s.run(reports).path == s.path,
        s.run(reports).params == s.params,
    decreases reports.len(),
{
    if reports.len() > 0 {
        lemma_run_takes_one_sample_per_step(s, reports.drop_last());
        lemma_step_takes_one_sample(s.run(reports.drop_last()), reports.last());
    }
}

/// A new agent that runs one whole step per step of its path ends with every
/// sample taken and none missing.
pub proof fn lemma_full_run_exhausts_path(
    params: ProcessParameters,
    initial_tvl: u64,
    path: Seq<u64>,
    reports: Seq<Reports>,
)
    requires
        constructible(params, initial_tvl, path),
        reports.len() == params.n_steps,
    ensures
        AgentView::fresh(params, initial_tvl, path).run(reports).cursor == path.len(),
        AgentView::fresh(params, initial_tvl, path).run(reports).path == path,
        AgentView::fresh(params, initial_tvl, path).run(reports).valid(),
{
    lemma_run_takes_one_sample_per_step(AgentView::fresh(params, initial_tvl, path), reports);
}

/// An outflow that the limiter rejects for its limit leaves the last
/// confirmed value where it was, and, once the time is read, adds one entry
/// to the log: the time, that unchanged value, the target, and the fall from
/// the one to the other.
pub proof fn lemma_rejected_outflow_keeps_belief(s: AgentView, payload: Vec<u8>, time: u64)
    requires
        s.valid(),
        s.phase == Phase::AwaitingOutflow,
        is_limiter_exceeded(payload@),
    ensures
        ({
            let rejected = s.settle(Event::Reverted(payload));
            let logged = rejected.next.settle(Event::Timestamp(time));
            let entry = ExceedEvent {
                time,
                pre_tvl: s.last_tvl as i128,
                tvl_change: (s.target() - s.last_tvl) as i128,
                target_val: s.target() as i128,
            };
            &&& rejected.reply == Ok::<Option<Request>, StepError>(Some(Request::Timestamp))
            &&& rejected.next.last_tvl == s.last_tvl
            &&& rejected.next.exceed_log == s.exceed_log
            &&& logged.reply == Ok::<Option<Request>, StepError>(None)
            &&& logged.next.last_tvl == s.last_tvl
            &&& logged.next.exceed_log == s.exceed_log.push(entry)
            &&& entry.pre_tvl == s.last_tvl
            &&& entry.target_val == s.target()
            &&& entry.tvl_change == s.target() - s.last_tvl
            &&& entry.tvl_change < 0
        }),
{
}

/// Only a revert that carries the limiter's own error counts as a rejection
/// by the limit, and only a confirmation as applied.
pub proof fn lemma_outcomes(event: Event)
    ensures
        outcome_of(event) == Outcome::Applied <==> event == Event::Confirmed,
        outcome_of(event) == Outcome::RejectedByLimit <==> (event matches Event::Reverted(payload)
            && is_limiter_exceeded(payload@)),
{
}

/// A failure that is not the limiter's rejection ends the step with an error
/// and is never logged: neither the log nor the last confirmed value changes.
pub proof fn lemma_other_failure_is_not_logged(s: AgentView, event: Event)
    requires
        s.valid(),
        s.phase == Phase::AwaitingInflow || s.phase == Phase::AwaitingOutflow,
        outcome_of(event) == Outcome::OtherFailure,
    ensures
        s.settle(event).reply is Err,
        s.phase == Phase::AwaitingInflow ==> s.settle(event).reply == Err::<
            Option<Request>,
            StepError,
        >(StepError::InflowFailed),
        s.phase == Phase::AwaitingOutflow ==> s.settle(event).reply == Err::<
            Option<Request>,
            StepError,
        >(StepError::OutflowFailed),
        s.settle(event).next.exceed_log == s.exceed_log,
        s.settle(event).next.last_tvl == s.last_tvl,
        s.settle(event).next.phase == Phase::Idle,
{
}

/// No call that answers with an error changes the log or the last confirmed
/// value.
pub proof fn lemma_errors_change_nothing_observed(s: AgentView, event: Event)
    requires
        s.valid(),
    ensures
        s.start().reply is Err ==> s.start().next == s,
        s.settle(event).reply is Err ==> s.settle(event).next.exceed_log == s.exceed_log
            && s.settle(event).next.last_tvl == s.last_tvl,
{
}

/// The time is asked for only after an outflow that the limiter rejected for
/// its limit: no start, and no other end of a request, leads there.
pub proof fn lemma_time_is_asked_only_after_a_rejection(s: AgentView, event: Event)
    requires
        s.valid(),
        s.phase != Phase::AwaitingTimestamp,
    ensures
        s.start().next.phase != Phase::AwaitingTimestamp,
        s.start().reply != Ok::<Option<Request>, StepError>(Some(Request::Timestamp)),
        s.settle(event).next.phase == Phase::AwaitingTimestamp <==> s.phase
            == Phase::AwaitingOutflow && outcome_of(event) == Outcome::RejectedByLimit,
        s.settle(event).reply == Ok::<Option<Request>, StepError>(Some(Request::Timestamp))
            <==> s.phase == Phase::AwaitingOutflow && outcome_of(event)
            == Outcome::RejectedByLimit,
{
}

/// The log only grows, by one entry at a time, and only when the time of a
/// rejected outflow is read. Entries once written stay as they are.
pub proof fn lemma_log_is_append_only(s: AgentView, event: Event)
    requires
        s.valid(),
    ensures
        s.start().next.exceed_log == s.exceed_log,
        s.settle(event).next.exceed_log != s.exceed_log ==> {
            &&& s.phase == Phase::AwaitingTimestamp
            &&& event matches Event::Timestamp(time)
            &&& s.settle(event).next.exceed_log == s.exceed_log.push(s.rejection(time))
        },
        s.exceed_log.is_prefix_of(s.settle(event).next.exceed_log),
{
}

/// The last confirmed value changes only when a flow is confirmed, and then
/// to the floored sample that the step aimed at.
pub proof fn lemma_belief_follows_confirmations(s: AgentView, event: Event)
    requires
        s.valid(),
    ensures
        s.start().next.last_tvl == s.last_tvl,
        s.settle(event).next.last_tvl != s.last_tvl ==> {
            &&& s.phase == Phase::AwaitingInflow || s.phase == Phase::AwaitingOutflow
            &&& event == Event::Confirmed
            &&& s.settle(event).next.last_tvl == s.target()
            &&& s.settle(event).next.last_tvl >= 0
        },
{
}

/// Where the floored sample equals the last confirmed value, the step asks
/// for nothing and changes nothing but the cursor.
pub proof fn lemma_zero_delta_is_no_op(s: AgentView)
    requires
        s.valid(),
        s.phase == Phase::Idle,
        s.cursor < s.path.len(),
        consumed(s.path[s.cursor as int]) == s.last_tvl,
    ensures
        s.start().reply == Ok::<Option<Request>, StepError>(None),
        s.start().next == (AgentView { cursor: s.cursor + 1, ..s }),
{
}

/// A rise asks for an inflow of the difference, a fall for an outflow of it.
pub proof fn lemma_flow_is_the_difference(s: AgentView)
    requires
        s.valid(),
        s.phase == Phase::Idle,
        s.cursor < s.path.len(),
    ensures
        ({
            let target = consumed(s.path[s.cursor as int]);
            &&& target > s.last_tvl ==> (s.start().reply matches Ok(Some(Request::Inflow(amount)))
                && amount == target - s.last_tvl)
            &&& target < s.last_tvl ==> (s.start().reply matches Ok(Some(Request::Outflow(amount)))
                && amount == s.last_tvl - target)
        }),
{
    lemma_consumed_is_not_negative(s.path[s.cursor as int]);
}

} // verus!
