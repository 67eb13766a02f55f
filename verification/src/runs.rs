//! What holds of every run of a driver, whatever the service answers.

use vstd::prelude::*;
use crate::change_set::{ChangeSetDescription, ChangeSetType};
use crate::deploy::{ActionView, DriverView, Operation, Response, StepView};
use crate::events::{
    ascending, lemma_page_yields_in_order, newest_first, read_page, rfc3339_millis, EventPoller,
    StackEvent, StackEventRecord,
};
use crate::input::DeleteInput;
use crate::outcome::{lemma_latest_stack_error_wins, ErrorLogView, OutcomeView};
use crate::stack_status::{ApiFailure, DescribeStacksOutput, BAD_REQUEST};

verus! {

/// One step's worth of input: the answer of the service, and the time.
pub struct Input {
    pub response: Response,
    pub now_millis: i64,
}

impl DriverView {
    /// The actions that the driver asks for, one for each of `inputs`.
    pub open spec fn actions(self, inputs: Seq<Input>) -> Seq<ActionView>
        decreases inputs.len(),
    {
        if inputs.len() == 0 {
            Seq::empty()
        } else {
            let step = self.next(inputs[0].response, inputs[0].now_millis);
            seq![step.action] + step.driver.actions(inputs.drop_first())
        }
    }

    /// The events that the driver hands on while it is given `inputs`.
    pub open spec fn emitted(self, inputs: Seq<Input>) -> Seq<StackEvent>
        decreases inputs.len(),
    {
        if inputs.len() == 0 {
            Seq::empty()
        } else {
            let step = self.next(inputs[0].response, inputs[0].now_millis);
            step.events + step.driver.emitted(inputs.drop_first())
        }
    }

    /// The driver after it has been given the first `n` of `inputs`.
    pub open spec fn reached(self, inputs: Seq<Input>, n: int) -> DriverView
        decreases n,
    {
        if n <= 0 || inputs.len() == 0 {
            self
        } else {
            self.next(inputs[0].response, inputs[0].now_millis).driver.reached(
                inputs.drop_first(),
                n - 1,
            )
        }
    }

    /// No plan has been shown yet, and the operation has not ended.
    pub open spec fn unplanned(self) -> bool {
        self is Start || self is AwaitingStack || self is CheckingResources || self is Creating
            || self is AwaitingChangeSet || self is AwaitingResources
    }

    /// The plan has been carried out, or there was nothing to carry out.
    pub open spec fn past_plan(self) -> bool {
        self is AwaitingLastEvent || self is Executing || self is Polling || self is Finishing
            || self is Finished
    }
}

/// The stack is changed only in answer to the caller's word to proceed, given
/// while the plan is on show.
pub proof fn lemma_executes_only_on_proceed(driver: DriverView, response: Response, now_millis: i64)
    requires
        driver.next(response, now_millis).action.executes(),
    ensures
        driver is Planned,
        response is Proceed,
        driver.next(response, now_millis).driver is Executing,
{
}

/// A plan comes on show only with the action that says so, and an operation
/// never goes back behind its plan.
pub proof fn lemma_phases_go_forward(driver: DriverView, response: Response, now_millis: i64)
    ensures
        ({
            let step = driver.next(response, now_millis);
            &&& driver.unplanned() ==> step.driver.unplanned() || step.driver is Finished || (
            step.driver is Planned && step.action is Present)
            &&& driver is Planned ==> step.driver.past_plan()
            &&& driver.past_plan() ==> step.driver.past_plan()
            &&& step.action is Finish <==> step.driver is Finished
        }),
{
}

proof fn lemma_actions_step(driver: DriverView, inputs: Seq<Input>, k: int)
    requires
        0 <= k < inputs.len(),
    ensures
        driver.actions(inputs).len() == inputs.len(),
        driver.actions(inputs)[k] == if k == 0 {
            driver.next(inputs[0].response, inputs[0].now_millis).action
        } else {
            driver.next(inputs[0].response, inputs[0].now_millis).driver.actions(
                inputs.drop_first(),
            )[k - 1]
        },
    decreases inputs.len(),
{
    let step = driver.next(inputs[0].response, inputs[0].now_millis);
    lemma_actions_len(step.driver, inputs.drop_first());
}

proof fn lemma_actions_len(driver: DriverView, inputs: Seq<Input>)
    ensures
        driver.actions(inputs).len() == inputs.len(),
    decreases inputs.len(),
{
    if inputs.len() > 0 {
        let step = driver.next(inputs[0].response, inputs[0].now_millis);
        lemma_actions_len(step.driver, inputs.drop_first());
    }
}

/// Once the plan is behind, nothing changes the stack any more: an operation
/// executes at most once.
pub proof fn lemma_nothing_executes_past_plan(driver: DriverView, inputs: Seq<Input>, k: int)
    requires
        driver.past_plan(),
        0 <= k < inputs.len(),
    ensures
        !driver.actions(inputs)[k].executes(),
    decreases inputs.len(),
{
    let step = driver.next(inputs[0].response, inputs[0].now_millis);
    lemma_actions_step(driver, inputs, k);
    lemma_phases_go_forward(driver, inputs[0].response, inputs[0].now_millis);
    if k > 0 {
        lemma_nothing_executes_past_plan(step.driver, inputs.drop_first(), k - 1);
    }
}

/// A driver that has not shown its plan yet shows it before it changes the
/// stack.
proof fn lemma_plan_precedes(driver: DriverView, inputs: Seq<Input>, k: int)
    requires
        driver.unplanned(),
        0 <= k < inputs.len(),
        driver.actions(inputs)[k].executes(),
    ensures
        exists|j: int| 0 <= j < k && driver.actions(inputs)[j] is Present,
    decreases inputs.len(),
{
    let step = driver.next(inputs[0].response, inputs[0].now_millis);
    let rest = inputs.drop_first();
    lemma_actions_step(driver, inputs, k);
    lemma_actions_step(driver, inputs, 0);
    lemma_phases_go_forward(driver, inputs[0].response, inputs[0].now_millis);
    if k == 0 {
        lemma_executes_only_on_proceed(driver, inputs[0].response, inputs[0].now_millis);
    } else if step.driver is Planned {
    } else if step.driver is Finished {
        lemma_nothing_executes_past_plan(step.driver, rest, k - 1);
    } else {
        lemma_plan_precedes(step.driver, rest, k - 1);
        let j = choose|j: int| 0 <= j < k - 1 && step.driver.actions(rest)[j] is Present;
        lemma_actions_step(driver, inputs, j + 1);
    }
}

/// The plan comes first: whatever the service answers and whenever, an
/// operation asks for `ExecuteChangeSet` or `DeleteStack` only after it has
/// asked for its plan to be shown.
pub proof fn lemma_plan_before_execute(operation: Operation, inputs: Seq<Input>, k: int)
    requires
        0 <= k < inputs.len(),
        DriverView::Start(operation).actions(inputs)[k].executes(),
    ensures
        exists|j: int| 0 <= j < k && DriverView::Start(operation).actions(inputs)[j] is Present,
{
    lemma_plan_precedes(DriverView::Start(operation), inputs, k);
}

impl DriverView {
    /// The driver belongs to a deletion that has not been carried out yet.
    pub open spec fn deleting(self) -> bool {
        ||| self matches DriverView::Start(Operation::Delete(_))
        ||| self matches DriverView::AwaitingStack(Operation::Delete(_))
        ||| self is AwaitingResources
        ||| self matches DriverView::Planned { change_set, .. } && change_set.effect is Delete
    }
}

/// A deletion has no use for change sets: it never asks for one to be
/// created, described or executed.
pub proof fn lemma_delete_asks_for_no_change_set(driver: DriverView, inputs: Seq<Input>, k: int)
    requires
        driver.deleting() || driver.past_plan(),
        0 <= k < inputs.len(),
    ensures
        !(driver.actions(inputs)[k] is CreateChangeSet),
        !(driver.actions(inputs)[k] is DescribeChangeSet),
        !(driver.actions(inputs)[k] is ExecuteChangeSet),
    decreases inputs.len(),
{
    let step = driver.next(inputs[0].response, inputs[0].now_millis);
    lemma_actions_step(driver, inputs, k);
    if k > 0 {
        lemma_delete_asks_for_no_change_set(step.driver, inputs.drop_first(), k - 1);
    }
}

/// An apply that finds nothing to change changes nothing.
///
/// When the change set has failed for want of changes, the plan is to skip.
/// Carrying it out asks only for the newest event of the stack, hands that
/// one event on, asks for the outputs of the stack, and ends in success with
/// them. `ExecuteChangeSet` is never asked for.
pub proof fn lemma_unchanged_apply_succeeds(
    kind: ChangeSetType,
    change_set_id: String,
    stack_id: String,
    stack_name: String,
    client_request_token: Option<String>,
    description: ChangeSetDescription,
    records: Vec<StackEventRecord>,
    stacks: DescribeStacksOutput,
    times: Seq<i64>,
)
    requires
        !description.pending(),
        !description.available(),
        description.empty(),
        records@.len() > 0,
        StackEvent::read(records@[0], rfc3339_millis(records@[0].timestamp@)) is Ok,
        stacks.stacks matches Some(listed) && listed@.len() > 0,
        times.len() == 4,
    ensures
        ({
            let waiting = DriverView::AwaitingChangeSet {
                kind,
                change_set_id,
                stack_id,
                stack_name,
                client_request_token,
            };
            let planned = waiting.next(Response::ChangeSetDescribed(description), times[0]);
            let skipped = planned.driver.next(Response::Proceed, times[1]);
            let shown = skipped.driver.next(Response::Events(Some(records)), times[2]);
            let ended = shown.driver.next(Response::Stacks(Ok(stacks)), times[3]);
            &&& planned.action is Present
            &&& planned.driver matches DriverView::Planned { change_set, .. } && change_set.effect
                is Skip && change_set.resource_changes.len() == 0 && change_set.stack_id
                == stack_id
            &&& skipped.action == (ActionView::DescribeLastEvent { stack_id })
            &&& shown.action == (ActionView::DescribeStacks { stack_name: stack_id })
            &&& planned.events.len() == 0 && skipped.events.len() == 0 && ended.events.len() == 0
            &&& shown.events == seq![
                StackEvent::read(records@[0], rfc3339_millis(records@[0].timestamp@))->Ok_0,
            ]
            &&& ended.action == ActionView::Finish(
                OutcomeView::Success { outputs: stacks.stacks->0@[0].outputs@ },
            )
            &&& ended.driver is Finished
        }),
{
}

/// Deleting a stack that does not exist succeeds at once: nothing is asked
/// of the service but whether the stack is there.
pub proof fn lemma_delete_of_absent_stack_succeeds(
    input: DeleteInput,
    body: String,
    begun_at: i64,
    answered_at: i64,
)
    ensures
        ({
            let begun = DriverView::Start(Operation::Delete(input)).next(Response::Begin, begun_at);
            let ended = begun.driver.next(
                Response::Stacks(Err(ApiFailure::Unknown { status: BAD_REQUEST, body })),
                answered_at,
            );
            &&& begun.action == (ActionView::DescribeStacks { stack_name: input.stack_name })
            &&& ended.action == ActionView::Finish(OutcomeView::Success { outputs: Seq::empty() })
            &&& ended.driver is Finished
            &&& begun.events.len() == 0 && ended.events.len() == 0
        }),
{
}

/// Polling goes on exactly as long as no event has settled the stack, and the
/// step that ends it hands on that event last.
pub proof fn lemma_polling_ends_on_settling_event(
    poller: EventPoller,
    log: ErrorLogView,
    apply: bool,
    page: Seq<StackEvent>,
)
    requires
        !poller.done,
    ensures
        ({
            let step = StepView::polled(poller, log, apply, Ok(page));
            &&& step.events == poller.yields(page)
            &&& step.driver is Polling <==> !poller.after(page).done
            &&& step.driver matches DriverView::Polling { poller: next, .. } ==> next
                == poller.after(page)
            &&& !(step.driver is Polling) ==> step.events.len() > 0
                && step.events.last().settles_stack(poller.stack_id@)
        }),
{
}

impl Input {
    /// Where the input is a page of events that can be read, the page lists
    /// its events newest first, as the service does.
    pub open spec fn orderly(self) -> bool {
        self.response matches Response::Events(Some(records)) ==> (read_page(records@) matches Ok(
            page,
        ) ==> newest_first(page))
    }
}

/// Once the events have ended, none is handed on any more.
pub proof fn lemma_nothing_emitted_at_the_end(driver: DriverView, inputs: Seq<Input>)
    requires
        driver is Finishing || driver is Finished,
    ensures
        driver.emitted(inputs) == Seq::<StackEvent>::empty(),
    decreases inputs.len(),
{
    if inputs.len() > 0 {
        let step = driver.next(inputs[0].response, inputs[0].now_millis);
        lemma_nothing_emitted_at_the_end(step.driver, inputs.drop_first());
    }
}

/// Time never steps back for the consumer of an operation: as long as the
/// service lists events newest first, no event that a driver hands on is
/// older than one that it handed on before. While the driver polls, every
/// event still to come is newer than its poller's mark.
pub proof fn lemma_emitted_events_ascend(driver: DriverView, inputs: Seq<Input>)
    requires
        forall|k: int| 0 <= k < inputs.len() ==> (#[trigger] inputs[k]).orderly(),
    ensures
        ascending(driver.emitted(inputs)),
        driver matches DriverView::Polling { poller, .. } ==> forall|i: int|
            0 <= i < driver.emitted(inputs).len() ==> (#[trigger] driver.emitted(
                inputs,
            )[i]).timestamp > poller.high_water,
    decreases inputs.len(),
{
    if inputs.len() > 0 {
        let step = driver.next(inputs[0].response, inputs[0].now_millis);
        let rest = inputs.drop_first();
        let later = step.driver.emitted(rest);
        let all = driver.emitted(inputs);
        assert forall|k: int| 0 <= k < rest.len() implies (#[trigger] rest[k]).orderly() by {
            assert(rest[k] == inputs[k + 1]);
        }
        lemma_emitted_events_ascend(step.driver, rest);
        if step.driver is Finishing || step.driver is Finished {
            lemma_nothing_emitted_at_the_end(step.driver, rest);
        }
        if driver is Polling && step.driver is Polling {
            // The events of this page end at the new mark, past which all later ones lie.
            let poller = driver->Polling_poller;
            let records = inputs[0].response->Events_0->0;
            lemma_page_yields_in_order(poller, read_page(records@)->Ok_0);
            assert forall|i: int| 0 <= i < all.len() implies (#[trigger] all[i]).timestamp
                > poller.high_water by {
                if i >= step.events.len() {
                    assert(all[i] == later[i - step.events.len()]);
                }
            }
            assert forall|i: int, j: int| 0 <= i <= j < all.len() implies all[i].timestamp
                <= all[j].timestamp by {
                if j >= step.events.len() {
                    assert(all[j] == later[j - step.events.len()]);
                }
                if i >= step.events.len() {
                    assert(all[i] == later[i - step.events.len()]);
                }
            }
        } else if driver is Polling && step.events.len() > 0 {
            let poller = driver->Polling_poller;
            let records = inputs[0].response->Events_0->0;
            lemma_page_yields_in_order(poller, read_page(records@)->Ok_0);
            assert(all =~= step.events);
        } else if step.events.len() > 0 {
            assert(all =~= step.events);
        } else {
            assert(all =~= later);
        }
    }
}

/// Every plan that a driver shows keeps to what change sets keep to: one
/// that skips changes nothing, and one that deletes only removes.
pub proof fn lemma_plans_are_well_formed(driver: DriverView, response: Response, now_millis: i64)
    requires
        driver.unplanned(),
    ensures
        driver.next(response, now_millis).driver matches DriverView::Planned { change_set, .. }
            ==> change_set.well_formed(),
{
}

proof fn lemma_actions_from(driver: DriverView, inputs: Seq<Input>, n: int, k: int)
    requires
        0 <= n <= k < inputs.len(),
    ensures
        driver.actions(inputs)[k] == driver.reached(inputs, n).actions(inputs.skip(n))[k - n],
    decreases n,
{
    lemma_actions_len(driver, inputs);
    if n == 0 {
        assert(inputs.skip(0) =~= inputs);
    } else {
        let step = driver.next(inputs[0].response, inputs[0].now_millis);
        lemma_actions_step(driver, inputs, k);
        lemma_actions_from(step.driver, inputs.drop_first(), n - 1, k - 1);
        assert(inputs.drop_first().skip(n - 1) =~= inputs.skip(n));
    }
}

/// An operation changes its stack at most once: of any two actions of a
/// run, at most one is `ExecuteChangeSet` or `DeleteStack`.
pub proof fn lemma_executes_at_most_once(driver: DriverView, inputs: Seq<Input>, j: int, k: int)
    requires
        0 <= j < k < inputs.len(),
        driver.actions(inputs)[j].executes(),
    ensures
        !driver.actions(inputs)[k].executes(),
{
    let before = driver.reached(inputs, j);
    let tail = inputs.skip(j);
    lemma_actions_from(driver, inputs, j, j);
    lemma_actions_from(driver, inputs, j, k);
    lemma_actions_step(before, tail, 0);
    lemma_actions_step(before, tail, k - j);
    lemma_executes_only_on_proceed(before, tail[0].response, tail[0].now_millis);
    let step = before.next(tail[0].response, tail[0].now_millis);
    lemma_nothing_executes_past_plan(step.driver, tail.drop_first(), k - j - 1);
}

impl OutcomeView {
    /// The outcome is a verdict on where the stack came to rest.
    pub open spec fn is_verdict(self) -> bool {
        self is Success || self is Warning || self is Failure
    }
}

/// A verdict follows the event that settles the stack: when a driver that
/// polls comes to judge its operation, it has handed on at least one event,
/// and the last event it handed on is the one that settled the stack.
pub proof fn lemma_verdict_follows_settling_event(
    poller: EventPoller,
    log: ErrorLogView,
    apply: bool,
    inputs: Seq<Input>,
    k: int,
)
    requires
        !poller.done,
        0 <= k < inputs.len(),
        (DriverView::Polling { poller, log, apply }).actions(inputs)[k] matches ActionView::Finish(
            outcome,
        ) && outcome.is_verdict(),
    ensures
        ({
            let handed = (DriverView::Polling { poller, log, apply }).emitted(
                inputs.take(k + 1),
            );
            handed.len() > 0 && handed.last().settles_stack(poller.stack_id@)
        }),
    decreases inputs.len(),
{
    let driver = DriverView::Polling { poller, log, apply };
    let step = driver.next(inputs[0].response, inputs[0].now_millis);
    let rest = inputs.drop_first();
    let seen = inputs.take(k + 1);
    lemma_actions_step(driver, inputs, k);
    assert(seen[0] == inputs[0]);
    assert(seen.drop_first() =~= rest.take(k));
    if k == 0 {
        assert(rest.take(0) =~= Seq::<Input>::empty());
        let records = inputs[0].response->Events_0->0;
        lemma_polling_ends_on_settling_event(poller, log, apply, read_page(records@)->Ok_0);
        assert(step.driver.emitted(seen.drop_first()) =~= Seq::<StackEvent>::empty());
        assert(driver.emitted(seen) =~= step.events);
    } else if step.driver is Polling {
        let next = step.driver->Polling_poller;
        lemma_verdict_follows_settling_event(
            next,
            step.driver->Polling_log,
            apply,
            rest,
            k - 1,
        );
        let later = step.driver.emitted(rest.take(k));
        assert(driver.emitted(seen).last() == later.last());
    } else if step.driver is Finishing {
        let closing = step.driver.next(rest[0].response, rest[0].now_millis);
        lemma_actions_step(step.driver, rest, k - 1);
        if k > 1 {
            lemma_actions_step(closing.driver, rest.drop_first(), k - 2);
            lemma_nothing_is_judged_at_the_end(closing.driver, rest.drop_first(), k - 2);
        }
        let records = inputs[0].response->Events_0->0;
        lemma_polling_ends_on_settling_event(poller, log, apply, read_page(records@)->Ok_0);
        lemma_nothing_emitted_at_the_end(step.driver, rest.take(k));
        assert(driver.emitted(seen) =~= step.events);
    } else {
        lemma_nothing_is_judged_at_the_end(step.driver, rest, k - 1);
    }
}

/// An operation that has ended gives no more verdicts.
pub proof fn lemma_nothing_is_judged_at_the_end(driver: DriverView, inputs: Seq<Input>, k: int)
    requires
        driver is Finished,
        0 <= k < inputs.len(),
    ensures
        driver.actions(inputs)[k] == ActionView::Finish(
            OutcomeView::Protocol(crate::deploy::ProtocolError::Unexpected),
        ),
    decreases inputs.len(),
{
    lemma_actions_step(driver, inputs, k);
    if k > 0 {
        let step = driver.next(inputs[0].response, inputs[0].now_millis);
        lemma_nothing_is_judged_at_the_end(step.driver, inputs.drop_first(), k - 1);
    }
}

/// A failure that ends polling is the failure that the log has kept: where
/// an operation is judged a failure, the stack error in the log is the event
/// that settled the stack, and the failure shows its status and its reason.
pub proof fn lemma_failure_shows_the_kept_stack_error(
    poller: EventPoller,
    log: ErrorLogView,
    apply: bool,
    page: Seq<StackEvent>,
)
    requires
        !poller.done,
    ensures
        ({
            let step = StepView::polled(poller, log, apply, Ok(page));
            let noted = log.with_all(poller.yields(page), poller.stack_id@);
            step.action is Finish && step.action->Finish_0 is Failure ==> {
                &&& noted.stack_error_event == Some(poller.yields(page).last())
                &&& noted.stack_error_event->0.resource_status
                    == step.action->Finish_0->Failure_stack_status
                &&& noted.stack_error_event->0.resource_status_reason
                    == step.action->Finish_0->Failure_stack_status_reason
                &&& noted.stack_error_event->0.settles_stack(poller.stack_id@)
            }
        }),
{
    lemma_polling_ends_on_settling_event(poller, log, apply, page);
    let step = StepView::polled(poller, log, apply, Ok(page));
    if step.action is Finish && step.action->Finish_0 is Failure {
        lemma_latest_stack_error_wins(log, poller.yields(page), poller.stack_id@);
    }
}

} // verus!
