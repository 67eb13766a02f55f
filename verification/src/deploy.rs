//! The driver of an operation: which call to the service comes next, given
//! what the service has answered so far.
//!
//! The driver makes no call itself. Each [`Driver::step`] takes the answer to
//! the last call and returns the next call to make, the events to hand to the
//! consumer, and the driver for the step after. The caller makes the calls
//! and keeps the clocks: one second between two `DescribeChangeSet` calls,
//! five seconds between two `DescribeStackEvents` calls.

use vstd::prelude::*;
use crate::change_set::{
    change_set_name, change_set_name_at, ChangeError, ChangeSet, ChangeSetDescription,
    ChangeSetError, ChangeSetType, ChangeSetView, Effect, StackResourceRecord,
};
use crate::events::{
    convert_page, newest_event, page_view, read_newest, read_page, EventError, EventPoller,
    StackEvent, StackEventRecord,
};
use crate::input::{DeleteInput, DeployInput};
use crate::outcome::{ErrorLog, ErrorLogView, Outcome, OutcomeView};
use crate::stack_status::{
    blocked_status, blocked_status_of, ApiFailure, DescribeStacksOutput, StackStatus,
    StackStatusError, BAD_REQUEST,
};
use crate::status::{ResourceStatus, StatusSentiment};
use crate::text::{clone_option, str_eq};

verus! {

/// Seconds to wait between two `DescribeChangeSet` calls.
pub const CHANGE_SET_INTERVAL_SECONDS: u64 = 1;

/// Seconds to wait between two `DescribeStackEvents` calls.
pub const EVENTS_INTERVAL_SECONDS: u64 = 5;

/// What to do to a stack.
#[derive(Debug)]
pub enum Operation {
    /// Bring the stack to what a template describes, creating it if need be.
    Apply(DeployInput),
    /// Delete the stack.
    Delete(DeleteInput),
}

/// How the exchange with the service broke down.
#[derive(Debug)]
pub enum ProtocolError {
    /// `DescribeStacks` answered without a list of stacks.
    MissingStacks,
    /// `DescribeStacks` answered with an empty list.
    EmptyStacks,
    /// A stack came without its ID.
    MissingStackId,
    /// `CreateChangeSet` answered without the ID of the change set.
    MissingChangeSetId,
    /// `DescribeStackResources` answered without a list of resources.
    MissingStackResources,
    /// `DescribeStackEvents` answered without a list of events.
    MissingStackEvents,
    /// `DescribeChangeSet` answered without a status.
    MissingStatus,
    /// `DescribeChangeSet` answered without changes for a change set that
    /// can be executed.
    MissingChanges,
    /// A change could not be read.
    Change(ChangeError),
    /// An event could not be read.
    Event(EventError),
    /// The answer does not fit the call that the driver asked for.
    Unexpected,
}

/// The answer to the call that the driver asked for last.
#[derive(Debug)]
pub enum Response {
    /// No call has been made yet: begin.
    Begin,
    /// The answer of `DescribeStacks`.
    Stacks(Result<DescribeStacksOutput, ApiFailure>),
    /// The answer of `CreateChangeSet`.
    ChangeSetCreated { id: Option<String>, stack_id: Option<String> },
    /// The answer of `DescribeChangeSet`.
    ChangeSetDescribed(ChangeSetDescription),
    /// The answer of `DescribeStackResources`.
    Resources(Option<Vec<StackResourceRecord>>),
    /// The caller has had the plan and wants it carried out.
    Proceed,
    /// `ExecuteChangeSet` or `DeleteStack` was accepted.
    Executed,
    /// The answer of `DescribeStackEvents`.
    Events(Option<Vec<StackEventRecord>>),
    /// The call failed.
    Failed(ApiFailure),
}

/// What the caller is to do next.
#[derive(Debug)]
pub enum Action {
    /// Call `DescribeStacks` for the stack of this name or ID.
    DescribeStacks { stack_name: String },
    /// Call `CreateChangeSet` with this name and type, and with everything
    /// that `input` holds.
    CreateChangeSet { change_set_name: String, change_set_type: ChangeSetType, input: DeployInput },
    /// Wait for the next tick of the change-set clock, then call
    /// `DescribeChangeSet`.
    DescribeChangeSet { change_set_id: String },
    /// Call `DescribeStackResources` for the stack of this name or ID.
    DescribeStackResources { stack_name: String },
    /// Show the plan, [`Driver::change_set`], to whoever wants to see it,
    /// then answer with [`Response::Proceed`].
    Present,
    /// Call `ExecuteChangeSet`.
    ExecuteChangeSet { change_set_id: String, client_request_token: Option<String> },
    /// Call `DeleteStack`.
    DeleteStack {
        stack_id: String,
        role_arn: Option<String>,
        client_request_token: Option<String>,
        retain_resources: Option<Vec<String>>,
    },
    /// Call `DescribeStackEvents` at once, for the newest event only.
    DescribeLastEvent { stack_id: String },
    /// Wait for the next tick of the events clock, then call
    /// `DescribeStackEvents`.
    DescribeStackEvents { stack_id: String },
    /// Nothing more: the operation has ended.
    Finish(Outcome),
}

/// An [`Action`] with the outcome as plain values and the name of a new
/// change set as text.
pub enum ActionView {
    DescribeStacks { stack_name: String },
    CreateChangeSet {
        change_set_name: Seq<char>,
        change_set_type: ChangeSetType,
        input: DeployInput,
    },
    DescribeChangeSet { change_set_id: String },
    DescribeStackResources { stack_name: String },
    Present,
    ExecuteChangeSet { change_set_id: String, client_request_token: Option<String> },
    DeleteStack {
        stack_id: String,
        role_arn: Option<String>,
        client_request_token: Option<String>,
        retain_resources: Option<Vec<String>>,
    },
    DescribeLastEvent { stack_id: String },
    DescribeStackEvents { stack_id: String },
    Finish(OutcomeView),
}

impl View for Action {
    type V = ActionView;

    open spec fn view(&self) -> ActionView {
        match *self {
            Action::DescribeStacks { stack_name } => ActionView::DescribeStacks { stack_name },
            Action::CreateChangeSet { change_set_name, change_set_type, input } => {
                ActionView::CreateChangeSet {
                    change_set_name: change_set_name@,
                    change_set_type,
                    input,
                }
            },
            Action::DescribeChangeSet { change_set_id } => ActionView::DescribeChangeSet {
                change_set_id,
            },
            Action::DescribeStackResources { stack_name } => ActionView::DescribeStackResources {
                stack_name,
            },
            Action::Present => ActionView::Present,
            Action::ExecuteChangeSet { change_set_id, client_request_token } => {
                ActionView::ExecuteChangeSet { change_set_id, client_request_token }
            },
            Action::DeleteStack { stack_id, role_arn, client_request_token, retain_resources } => {
                ActionView::DeleteStack {
                    stack_id,
                    role_arn,
                    client_request_token,
                    retain_resources,
                }
            },
            Action::DescribeLastEvent { stack_id } => ActionView::DescribeLastEvent { stack_id },
            Action::DescribeStackEvents { stack_id } => ActionView::DescribeStackEvents {
                stack_id,
            },
            Action::Finish(outcome) => ActionView::Finish(outcome@),
        }
    }
}

impl ActionView {
    /// The action changes the stack.
    pub open spec fn executes(self) -> bool {
        self is ExecuteChangeSet || self is DeleteStack
    }
}

/// What is left to settle once the events have ended.
#[derive(Debug)]
pub enum Closing {
    /// Nothing was changed: the operation succeeded.
    Unchanged,
    /// The stack came to rest in `stack_status`.
    Settled {
        stack_status: ResourceStatus,
        stack_status_reason: Option<String>,
        resource_error_events: Vec<StackEvent>,
    },
}

/// A [`Closing`] with its events as a sequence.
pub enum ClosingView {
    Unchanged,
    Settled {
        stack_status: ResourceStatus,
        stack_status_reason: Option<String>,
        resource_error_events: Seq<StackEvent>,
    },
}

impl View for Closing {
    type V = ClosingView;

    open spec fn view(&self) -> ClosingView {
        match *self {
            Closing::Unchanged => ClosingView::Unchanged,
            Closing::Settled { stack_status, stack_status_reason, resource_error_events } => {
                ClosingView::Settled {
                    stack_status,
                    stack_status_reason,
                    resource_error_events: resource_error_events@,
                }
            },
        }
    }
}

/// The state of an operation between two calls to the service.
#[derive(Debug)]
pub enum Driver {
    /// Nothing has been asked yet.
    Start(Operation),
    /// `DescribeStacks` has been asked for the stack of the operation.
    AwaitingStack(Operation),
    /// The stack failed to be created; `DescribeStackResources` has been
    /// asked to see whether anything is left of it.
    CheckingResources(DeployInput),
    /// `CreateChangeSet` has been asked.
    Creating { kind: ChangeSetType, stack_name: String, client_request_token: Option<String> },
    /// `DescribeChangeSet` has been asked.
    AwaitingChangeSet {
        kind: ChangeSetType,
        change_set_id: String,
        stack_id: String,
        stack_name: String,
        client_request_token: Option<String>,
    },
    /// `DescribeStackResources` has been asked, to plan a deletion.
    AwaitingResources { stack_id: String, input: DeleteInput },
    /// The plan is made and shown; nothing has been changed yet.
    Planned {
        change_set: ChangeSet,
        role_arn: Option<String>,
        client_request_token: Option<String>,
        retain_resources: Option<Vec<String>>,
    },
    /// There was nothing to change; the newest event has been asked for.
    AwaitingLastEvent { stack_id: String },
    /// `ExecuteChangeSet` or `DeleteStack` has been asked.
    Executing { stack_id: String, since: i64, apply: bool },
    /// `DescribeStackEvents` has been asked.
    Polling { poller: EventPoller, log: ErrorLog, apply: bool },
    /// `DescribeStacks` has been asked, for the outputs of the stack.
    Finishing { closing: Closing },
    /// The operation has ended.
    Finished,
}

/// A [`Driver`] with its plan and its log as plain values.
pub enum DriverView {
    Start(Operation),
    AwaitingStack(Operation),
    CheckingResources(DeployInput),
    Creating { kind: ChangeSetType, stack_name: String, client_request_token: Option<String> },
    AwaitingChangeSet {
        kind: ChangeSetType,
        change_set_id: String,
        stack_id: String,
        stack_name: String,
        client_request_token: Option<String>,
    },
    AwaitingResources { stack_id: String, input: DeleteInput },
    Planned {
        change_set: ChangeSetView,
        role_arn: Option<String>,
        client_request_token: Option<String>,
        retain_resources: Option<Vec<String>>,
    },
    AwaitingLastEvent { stack_id: String },
    Executing { stack_id: String, since: i64, apply: bool },
    Polling { poller: EventPoller, log: ErrorLogView, apply: bool },
    Finishing { closing: ClosingView },
    Finished,
}

impl View for Driver {
    type V = DriverView;

    open spec fn view(&self) -> DriverView {
        match *self {
            Driver::Start(operation) => DriverView::Start(operation),
            Driver::AwaitingStack(operation) => DriverView::AwaitingStack(operation),
            Driver::CheckingResources(input) => DriverView::CheckingResources(input),
            Driver::Creating { kind, stack_name, client_request_token } => DriverView::Creating {
                kind,
                stack_name,
                client_request_token,
            },
            Driver::AwaitingChangeSet {
                kind,
                change_set_id,
                stack_id,
                stack_name,
                client_request_token,
            } => DriverView::AwaitingChangeSet {
                kind,
                change_set_id,
                stack_id,
                stack_name,
                client_request_token,
            },
            Driver::AwaitingResources { stack_id, input } => DriverView::AwaitingResources {
                stack_id,
                input,
            },
            Driver::Planned { change_set, role_arn, client_request_token, retain_resources } => {
                DriverView::Planned {
                    change_set: change_set@,
                    role_arn,
                    client_request_token,
                    retain_resources,
                }
            },
            Driver::AwaitingLastEvent { stack_id } => DriverView::AwaitingLastEvent { stack_id },
            Driver::Executing { stack_id, since, apply } => DriverView::Executing {
                stack_id,
                since,
                apply,
            },
            Driver::Polling { poller, log, apply } => DriverView::Polling {
                poller,
                log: log@,
                apply,
            },
            Driver::Finishing { closing } => DriverView::Finishing { closing: closing@ },
            Driver::Finished => DriverView::Finished,
        }
    }
}

/// What a step comes to: the driver for the next step, the events to hand
/// to the consumer, and the next thing to do.
#[derive(Debug)]
pub struct Step {
    pub driver: Driver,
    pub events: Vec<StackEvent>,
    pub action: Action,
}

/// A [`Step`] as plain values.
pub struct StepView {
    pub driver: DriverView,
    pub events: Seq<StackEvent>,
    pub action: ActionView,
}

impl View for Step {
    type V = StepView;

    open spec fn view(&self) -> StepView {
        StepView { driver: self.driver@, events: self.events@, action: self.action@ }
    }
}

/// Whole seconds since the Unix epoch, from milliseconds.
pub open spec fn unix_seconds(millis: int) -> int {
    millis / 1000
}

impl Operation {
    /// The name of the stack that the operation is for.
    pub open spec fn stack_name(self) -> String {
        match self {
            Operation::Apply(input) => input.stack_name,
            Operation::Delete(input) => input.stack_name,
        }
    }
}

impl StepView {
    /// The operation ends with `outcome`, without events.
    pub open spec fn finish(outcome: OutcomeView) -> StepView {
        StepView {
            driver: DriverView::Finished,
            events: Seq::empty(),
            action: ActionView::Finish(outcome),
        }
    }

    /// The operation ends because the exchange broke down.
    pub open spec fn broken(error: ProtocolError) -> StepView {
        Self::finish(OutcomeView::Protocol(error))
    }

    /// A step without events.
    pub open spec fn quiet(driver: DriverView, action: ActionView) -> StepView {
        StepView { driver, events: Seq::empty(), action }
    }

    /// A change set of the given type is asked for.
    pub open spec fn create(input: DeployInput, kind: ChangeSetType, now_millis: i64) -> StepView {
        Self::quiet(
            DriverView::Creating {
                kind,
                stack_name: input.stack_name,
                client_request_token: input.client_request_token,
            },
            ActionView::CreateChangeSet {
                change_set_name: change_set_name_at(unix_seconds(now_millis as int)),
                change_set_type: kind,
                input,
            },
        )
    }

    /// The operation ends because `DescribeStacks` could not be used.
    pub open spec fn no_stack(error: StackStatusError) -> StepView {
        match error {
            StackStatusError::Api(failure) => Self::finish(OutcomeView::CloudFormationApi(failure)),
            StackStatusError::MissingStacks => Self::broken(ProtocolError::MissingStacks),
            StackStatusError::EmptyStacks => Self::broken(ProtocolError::EmptyStacks),
            StackStatusError::MissingStackId => Self::broken(ProtocolError::MissingStackId),
        }
    }

    /// An apply has found out about its stack.
    ///
    /// No stack, or one under review: create it. A stack in a blocked
    /// status: report that, and change nothing. A stack whose creation
    /// failed: look whether it holds resources. Any other stack: update it.
    pub open spec fn apply_found(
        input: DeployInput,
        result: Result<DescribeStacksOutput, ApiFailure>,
        now_millis: i64,
    ) -> StepView {
        match StackStatus::of(result) {
            Err(error) => Self::no_stack(error),
            Ok(StackStatus::NotFound) => Self::create(input, ChangeSetType::Create, now_millis),
            Ok(StackStatus::ExistsErr(stack_id)) => Self::finish(
                OutcomeView::Blocked {
                    status: blocked_status_of(result->Ok_0.stacks->0@[0].stack_status@)->0,
                },
            ),
            Ok(StackStatus::ExistsOk) => {
                if result->Ok_0.stacks->0@[0].stack_status@ == "CREATE_FAILED"@ {
                    Self::quiet(
                        DriverView::CheckingResources(input),
                        ActionView::DescribeStackResources { stack_name: input.stack_name },
                    )
                } else {
                    Self::create(input, ChangeSetType::Update, now_millis)
                }
            },
        }
    }

    /// A delete has found out about its stack.
    ///
    /// No stack: done, successfully. Otherwise the resources of the stack
    /// are asked for, to plan the deletion.
    pub open spec fn delete_found(
        input: DeleteInput,
        result: Result<DescribeStacksOutput, ApiFailure>,
    ) -> StepView {
        match result {
            Err(ApiFailure::Unknown { status, body }) => {
                if status == BAD_REQUEST {
                    Self::finish(OutcomeView::Success { outputs: Seq::empty() })
                } else {
                    Self::finish(
                        OutcomeView::CloudFormationApi(ApiFailure::Unknown { status, body }),
                    )
                }
            },
            Err(failure) => Self::finish(OutcomeView::CloudFormationApi(failure)),
            Ok(output) => {
                if output.stacks is None {
                    Self::broken(ProtocolError::MissingStacks)
                } else if output.stacks->0@.len() == 0 {
                    Self::broken(ProtocolError::EmptyStacks)
                } else {
                    match output.stacks->0@[0].stack_id {
                        None => Self::broken(ProtocolError::MissingStackId),
                        Some(stack_id) => Self::quiet(
                            DriverView::AwaitingResources { stack_id, input },
                            ActionView::DescribeStackResources { stack_name: stack_id },
                        ),
                    }
                }
            },
        }
    }

    /// A change set has been described.
    ///
    /// While it is pending it is described again. Once it is not, it becomes
    /// the plan, or the operation ends with the reason why there is none.
    pub open spec fn described(
        description: ChangeSetDescription,
        kind: ChangeSetType,
        change_set_id: String,
        stack_id: String,
        stack_name: String,
        client_request_token: Option<String>,
    ) -> StepView {
        if description.pending() {
            Self::quiet(
                DriverView::AwaitingChangeSet {
                    kind,
                    change_set_id,
                    stack_id,
                    stack_name,
                    client_request_token,
                },
                ActionView::DescribeChangeSet { change_set_id },
            )
        } else {
            match ChangeSet::resolved(description, kind, change_set_id, stack_id, stack_name) {
                Ok(change_set) => Self::quiet(
                    DriverView::Planned {
                        change_set,
                        role_arn: None,
                        client_request_token,
                        retain_resources: None,
                    },
                    ActionView::Present,
                ),
                Err(ChangeSetError::CreateChangeSetFailed { status, status_reason }) => {
                    Self::finish(OutcomeView::CreateChangeSetFailed { status, status_reason })
                },
                Err(ChangeSetError::MissingStatus) => Self::broken(ProtocolError::MissingStatus),
                Err(ChangeSetError::MissingChanges) => Self::broken(ProtocolError::MissingChanges),
                Err(ChangeSetError::Malformed(error)) => Self::broken(ProtocolError::Change(error)),
            }
        }
    }

    /// The caller wants the plan carried out.
    ///
    /// A plan that skips changes nothing: only the newest event is asked
    /// for. Any other plan is executed, and the time is noted from which
    /// events count.
    pub open spec fn proceed(
        change_set: ChangeSetView,
        role_arn: Option<String>,
        client_request_token: Option<String>,
        retain_resources: Option<Vec<String>>,
        now_millis: i64,
    ) -> StepView {
        match change_set.effect {
            Effect::Skip => Self::quiet(
                DriverView::AwaitingLastEvent { stack_id: change_set.stack_id },
                ActionView::DescribeLastEvent { stack_id: change_set.stack_id },
            ),
            Effect::Create { id } => Self::quiet(
                DriverView::Executing {
                    stack_id: change_set.stack_id,
                    since: now_millis,
                    apply: true,
                },
                ActionView::ExecuteChangeSet { change_set_id: id, client_request_token },
            ),
            Effect::Update { id } => Self::quiet(
                DriverView::Executing {
                    stack_id: change_set.stack_id,
                    since: now_millis,
                    apply: true,
                },
                ActionView::ExecuteChangeSet { change_set_id: id, client_request_token },
            ),
            Effect::Delete => Self::quiet(
                DriverView::Executing {
                    stack_id: change_set.stack_id,
                    since: now_millis,
                    apply: false,
                },
                ActionView::DeleteStack {
                    stack_id: change_set.stack_id,
                    role_arn,
                    client_request_token,
                    retain_resources,
                },
            ),
        }
    }

    /// The newest event of a stack that was left unchanged has come in: it
    /// is handed on, and the outputs of the stack are asked for.
    pub open spec fn last_event(
        stack_id: String,
        newest: Result<Option<StackEvent>, EventError>,
    ) -> StepView {
        match newest {
            Err(error) => Self::broken(ProtocolError::Event(error)),
            Ok(newest) => StepView {
                driver: DriverView::Finishing { closing: ClosingView::Unchanged },
                events: match newest {
                    Some(event) => seq![event],
                    None => Seq::empty(),
                },
                action: ActionView::DescribeStacks { stack_name: stack_id },
            },
        }
    }

    /// A page of events has come in while the stack is changing.
    ///
    /// What is new in it is handed on and searched for errors. Unless the
    /// newest event settles the stack, the next page is asked for. Once it
    /// does, the operation is judged: at once, where the stack was deleted or
    /// did not come to rest in a positive status; else after the outputs of
    /// the stack have been asked for.
    pub open spec fn polled(
        poller: EventPoller,
        log: ErrorLogView,
        apply: bool,
        page: Result<Seq<StackEvent>, EventError>,
    ) -> StepView {
        match page {
            Err(error) => Self::broken(ProtocolError::Event(error)),
            Ok(page) => {
                let events = poller.yields(page);
                let next = poller.after(page);
                let noted = log.with_all(events, poller.stack_id@);
                if poller.done {
                    Self::broken(ProtocolError::Unexpected)
                } else if !next.done {
                    StepView {
                        driver: DriverView::Polling { poller: next, log: noted, apply },
                        events,
                        action: ActionView::DescribeStackEvents { stack_id: poller.stack_id },
                    }
                } else if apply && events.last().resource_status.sentiment_of()
                    == StatusSentiment::Positive {
                    StepView {
                        driver: DriverView::Finishing {
                            closing: ClosingView::Settled {
                                stack_status: events.last().resource_status,
                                stack_status_reason: events.last().resource_status_reason,
                                resource_error_events: noted.resource_error_events,
                            },
                        },
                        events,
                        action: ActionView::DescribeStacks { stack_name: poller.stack_id },
                    }
                } else {
                    StepView {
                        driver: DriverView::Finished,
                        events,
                        action: ActionView::Finish(
                            OutcomeView::judged(
                                events.last().resource_status,
                                events.last().resource_status_reason,
                                noted.resource_error_events,
                                Seq::empty(),
                            ),
                        ),
                    }
                }
            },
        }
    }

    /// The outputs of the stack have come in: the operation is judged.
    pub open spec fn closed(
        closing: ClosingView,
        result: Result<DescribeStacksOutput, ApiFailure>,
    ) -> StepView {
        match result {
            Err(failure) => Self::finish(OutcomeView::CloudFormationApi(failure)),
            Ok(output) => {
                if output.stacks is None {
                    Self::broken(ProtocolError::MissingStacks)
                } else if output.stacks->0@.len() == 0 {
                    Self::broken(ProtocolError::EmptyStacks)
                } else {
                    let outputs = output.stacks->0@[0].outputs@;
                    match closing {
                        ClosingView::Unchanged => Self::finish(OutcomeView::Success { outputs }),
                        ClosingView::Settled {
                            stack_status,
                            stack_status_reason,
                            resource_error_events,
                        } => Self::finish(
                            OutcomeView::judged(
                                stack_status,
                                stack_status_reason,
                                resource_error_events,
                                outputs,
                            ),
                        ),
                    }
                }
            },
        }
    }
}

impl DriverView {
    /// The step that `response` leads to. `now_millis` is the time of the
    /// step, in milliseconds since the Unix epoch.
    ///
    /// A call that failed ends the operation with the failure, whole. An
    /// answer that does not fit the state ends it as an exchange gone wrong;
    /// so does any answer once the operation has ended.
    pub open spec fn next(self, response: Response, now_millis: i64) -> StepView {
        match (self, response) {
            (DriverView::Finished, _) => StepView::broken(ProtocolError::Unexpected),
            (_, Response::Failed(failure)) => StepView::finish(
                OutcomeView::CloudFormationApi(failure),
            ),
            (DriverView::Start(operation), Response::Begin) => StepView::quiet(
                DriverView::AwaitingStack(operation),
                ActionView::DescribeStacks { stack_name: operation.stack_name() },
            ),
            (
                DriverView::AwaitingStack(Operation::Apply(input)),
                Response::Stacks(result),
            ) => StepView::apply_found(input, result, now_millis),
            (
                DriverView::AwaitingStack(Operation::Delete(input)),
                Response::Stacks(result),
            ) => StepView::delete_found(input, result),
            (DriverView::CheckingResources(input), Response::Resources(resources)) => {
                match resources {
                    None => StepView::broken(ProtocolError::MissingStackResources),
                    Some(resources) => {
                        if resources@.len() == 0 {
                            StepView::finish(
                                OutcomeView::Blocked { status: ResourceStatus::CreateFailed },
                            )
                        } else {
                            StepView::create(input, ChangeSetType::Update, now_millis)
                        }
                    },
                }
            },
            (
                DriverView::Creating { kind, stack_name, client_request_token },
                Response::ChangeSetCreated { id, stack_id },
            ) => {
                if id is None {
                    StepView::broken(ProtocolError::MissingChangeSetId)
                } else if stack_id is None {
                    StepView::broken(ProtocolError::MissingStackId)
                } else {
                    StepView::quiet(
                        DriverView::AwaitingChangeSet {
                            kind,
                            change_set_id: id->0,
                            stack_id: stack_id->0,
                            stack_name,
                            client_request_token,
                        },
                        ActionView::DescribeChangeSet { change_set_id: id->0 },
                    )
                }
            },
            (
                DriverView::AwaitingChangeSet {
                    kind,
                    change_set_id,
                    stack_id,
                    stack_name,
                    client_request_token,
                },
                Response::ChangeSetDescribed(description),
            ) => StepView::described(
                description,
                kind,
                change_set_id,
                stack_id,
                stack_name,
                client_request_token,
            ),
            (
                DriverView::AwaitingResources { stack_id, input },
                Response::Resources(resources),
            ) => {
                match resources {
                    None => StepView::broken(ProtocolError::MissingStackResources),
                    Some(resources) => StepView::quiet(
                        DriverView::Planned {
                            change_set: ChangeSet::deletion(stack_id, input.stack_name, resources@),
                            role_arn: input.role_arn,
                            client_request_token: input.client_request_token,
                            retain_resources: input.retain_resources,
                        },
                        ActionView::Present,
                    ),
                }
            },
            (
                DriverView::Planned {
                    change_set,
                    role_arn,
                    client_request_token,
                    retain_resources,
                },
                Response::Proceed,
            ) => StepView::proceed(
                change_set,
                role_arn,
                client_request_token,
                retain_resources,
                now_millis,
            ),
            (DriverView::AwaitingLastEvent { stack_id }, Response::Events(records)) => {
                match records {
                    None => StepView::broken(ProtocolError::MissingStackEvents),
                    Some(records) => StepView::last_event(stack_id, read_newest(records@)),
                }
            },
            (DriverView::Executing { stack_id, since, apply }, Response::Executed) => {
                StepView::quiet(
                    DriverView::Polling {
                        poller: EventPoller { stack_id, high_water: since, done: false },
                        log: ErrorLogView::empty(),
                        apply,
                    },
                    ActionView::DescribeStackEvents { stack_id },
                )
            },
            (DriverView::Polling { poller, log, apply }, Response::Events(records)) => {
                match records {
                    None => StepView::broken(ProtocolError::MissingStackEvents),
                    Some(records) => StepView::polled(
                        poller,
                        log,
                        apply,
                        read_page(records@),
                    ),
                }
            },
            (DriverView::Finishing { closing }, Response::Stacks(result)) => StepView::closed(
                closing,
                result,
            ),
            _ => StepView::broken(ProtocolError::Unexpected),
        }
    }
}

/// Whole seconds since the Unix epoch, from milliseconds.
fn seconds_of(millis: i64) -> (r: i64)
    ensures
        r == unix_seconds(millis as int),
{
    if millis >= 0 {
        millis / 1000
    } else {
        -((-(millis + 1)) / 1000) - 1
    }
}

impl Step {
    fn finish(outcome: Outcome) -> (r: Step)
        ensures
            r@ == StepView::finish(outcome@),
    {
        Step { driver: Driver::Finished, events: Vec::new(), action: Action::Finish(outcome) }
    }

    fn broken(error: ProtocolError) -> (r: Step)
        ensures
            r@ == StepView::broken(error),
    {
        Self::finish(Outcome::Protocol(error))
    }

    fn quiet(driver: Driver, action: Action) -> (r: Step)
        ensures
            r@ == StepView::quiet(driver@, action@),
    {
        Step { driver, events: Vec::new(), action }
    }

    fn create(input: DeployInput, kind: ChangeSetType, now_millis: i64) -> (r: Step)
        ensures
            r@ == StepView::create(input, kind, now_millis),
    {
        let stack_name = input.stack_name.clone();
        let client_request_token = clone_option(&input.client_request_token);
        let change_set_name = change_set_name(seconds_of(now_millis));
        Self::quiet(
            Driver::Creating { kind, stack_name, client_request_token },
            Action::CreateChangeSet { change_set_name, change_set_type: kind, input },
        )
    }

    fn no_stack(error: StackStatusError) -> (r: Step)
        ensures
            r@ == StepView::no_stack(error),
    {
        match error {
            StackStatusError::Api(failure) => Self::finish(Outcome::CloudFormationApi(failure)),
            StackStatusError::MissingStacks => Self::broken(ProtocolError::MissingStacks),
            StackStatusError::EmptyStacks => Self::broken(ProtocolError::EmptyStacks),
            StackStatusError::MissingStackId => Self::broken(ProtocolError::MissingStackId),
        }
    }

    fn apply_found(
        input: DeployInput,
        result: Result<DescribeStacksOutput, ApiFailure>,
        now_millis: i64,
    ) -> (r: Step)
        ensures
            r@ == StepView::apply_found(input, result, now_millis),
    {
        let status_text: Option<String> = match &result {
            Ok(output) => match &output.stacks {
                Some(stacks) => {
                    if stacks.len() > 0 {
                        Some(stacks[0].stack_status.clone())
                    } else {
                        None
                    }
                },
                None => None,
            },
            Err(_) => None,
        };
        match StackStatus::try_from_result(result) {
            Err(error) => Self::no_stack(error),
            Ok(StackStatus::NotFound) => Self::create(input, ChangeSetType::Create, now_millis),
            Ok(StackStatus::ExistsErr(_)) => {
                match status_text {
                    Some(text) => match blocked_status(text.as_str()) {
                        Some(status) => Self::finish(Outcome::Blocked { status }),
                        None => Self::broken(ProtocolError::Unexpected),
                    },
                    None => Self::broken(ProtocolError::Unexpected),
                }
            },
            Ok(StackStatus::ExistsOk) => {
                let create_failed = match status_text {
                    Some(text) => str_eq(text.as_str(), "CREATE_FAILED"),
                    None => false,
                };
                if create_failed {
                    let stack_name = input.stack_name.clone();
                    Self::quiet(
                        Driver::CheckingResources(input),
                        Action::DescribeStackResources { stack_name },
                    )
                } else {
                    Self::create(input, ChangeSetType::Update, now_millis)
                }
            },
        }
    }

    fn delete_found(input: DeleteInput, result: Result<DescribeStacksOutput, ApiFailure>) -> (r:
        Step)
        ensures
            r@ == StepView::delete_found(input, result),
    {
        match result {
            Err(ApiFailure::Unknown { status, body }) => {
                if status == BAD_REQUEST {
                    Self::finish(Outcome::Success { outputs: Vec::new() })
                } else {
                    Self::finish(Outcome::CloudFormationApi(ApiFailure::Unknown { status, body }))
                }
            },
            Err(failure) => Self::finish(Outcome::CloudFormationApi(failure)),
            Ok(output) => {
                let mut stacks = match output.stacks {
                    Some(stacks) => stacks,
                    None => {
                        return Self::broken(ProtocolError::MissingStacks);
                    },
                };
                if stacks.len() == 0 {
                    return Self::broken(ProtocolError::EmptyStacks);
                }
                let stack = stacks.swap_remove(0);
                match stack.stack_id {
                    None => Self::broken(ProtocolError::MissingStackId),
                    Some(stack_id) => {
                        let stack_name = stack_id.clone();
                        Self::quiet(
                            Driver::AwaitingResources { stack_id, input },
                            Action::DescribeStackResources { stack_name },
                        )
                    },
                }
            },
        }
    }

    fn described(
        description: ChangeSetDescription,
        kind: ChangeSetType,
        change_set_id: String,
        stack_id: String,
        stack_name: String,
        client_request_token: Option<String>,
    ) -> (r: Step)
        ensures
            r@ == StepView::described(
                description,
                kind,
                change_set_id,
                stack_id,
                stack_name,
                client_request_token,
            ),
    {
        if description.is_pending() {
            let again = change_set_id.clone();
            Self::quiet(
                Driver::AwaitingChangeSet {
                    kind,
                    change_set_id,
                    stack_id,
                    stack_name,
                    client_request_token,
                },
                Action::DescribeChangeSet { change_set_id: again },
            )
        } else {
            match ChangeSet::resolve(description, kind, change_set_id, stack_id, stack_name) {
                Ok(change_set) => Self::quiet(
                    Driver::Planned {
                        change_set,
                        role_arn: None,
                        client_request_token,
                        retain_resources: None,
                    },
                    Action::Present,
                ),
                Err(ChangeSetError::CreateChangeSetFailed { status, status_reason }) => {
                    Self::finish(Outcome::CreateChangeSetFailed { status, status_reason })
                },
                Err(ChangeSetError::MissingStatus) => Self::broken(ProtocolError::MissingStatus),
                Err(ChangeSetError::MissingChanges) => Self::broken(ProtocolError::MissingChanges),
                Err(ChangeSetError::Malformed(error)) => Self::broken(ProtocolError::Change(error)),
            }
        }
    }

    fn proceed(
        change_set: ChangeSet,
        role_arn: Option<String>,
        client_request_token: Option<String>,
        retain_resources: Option<Vec<String>>,
        now_millis: i64,
    ) -> (r: Step)
        ensures
            r@ == StepView::proceed(
                change_set@,
                role_arn,
                client_request_token,
                retain_resources,
                now_millis,
            ),
    {
        let stack_id = change_set.stack_id;
        let again = stack_id.clone();
        match change_set.effect {
            Effect::Skip => Self::quiet(
                Driver::AwaitingLastEvent { stack_id },
                Action::DescribeLastEvent { stack_id: again },
            ),
            Effect::Create { id } => Self::quiet(
                Driver::Executing { stack_id, since: now_millis, apply: true },
                Action::ExecuteChangeSet { change_set_id: id, client_request_token },
            ),
            Effect::Update { id } => Self::quiet(
                Driver::Executing { stack_id, since: now_millis, apply: true },
                Action::ExecuteChangeSet { change_set_id: id, client_request_token },
            ),
            Effect::Delete => Self::quiet(
                Driver::Executing { stack_id, since: now_millis, apply: false },
                Action::DeleteStack {
                    stack_id: again,
                    role_arn,
                    client_request_token,
                    retain_resources,
                },
            ),
        }
    }

    /// The step that the newest event of an unchanged stack leads to, once
    /// it has been read.
    pub fn last_event(stack_id: String, newest: Result<Option<StackEvent>, EventError>) -> (r:
        Step)
        ensures
            r@ == StepView::last_event(stack_id, newest),
    {
        match newest {
            Err(error) => Self::broken(ProtocolError::Event(error)),
            Ok(newest) => {
                let mut events: Vec<StackEvent> = Vec::new();
                match newest {
                    Some(event) => {
                        events.push(event);
                    },
                    None => {},
                }
                Step {
                    driver: Driver::Finishing { closing: Closing::Unchanged },
                    events,
                    action: Action::DescribeStacks { stack_name: stack_id },
                }
            },
        }
    }

    /// The step that a page of events leads to while the stack is changing,
    /// once the page has been read.
    pub fn polled(
        poller: EventPoller,
        log: ErrorLog,
        apply: bool,
        page: Result<Vec<StackEvent>, EventError>,
    ) -> (r: Step)
        ensures
            r@ == StepView::polled(poller, log@, apply, page_view(page)),
    {
        let page = match page {
            Ok(page) => page,
            Err(error) => {
                return Self::broken(ProtocolError::Event(error));
            },
        };
        if poller.is_done() {
            return Self::broken(ProtocolError::Unexpected);
        }
        let mut poller = poller;
        let mut log = log;
        let events = poller.accept(page);
        log.observe_all(&events, poller.stack_id.as_str());
        if !poller.is_done() {
            let stack_id = poller.stack_id.clone();
            return Step {
                driver: Driver::Polling { poller, log, apply },
                events,
                action: Action::DescribeStackEvents { stack_id },
            };
        }
        let last = &events[events.len() - 1];
        let stack_status = last.resource_status;
        let stack_status_reason = clone_option(&last.resource_status_reason);
        let positive = match stack_status.sentiment() {
            StatusSentiment::Positive => true,
            _ => false,
        };
        if apply && positive {
            Step {
                driver: Driver::Finishing {
                    closing: Closing::Settled {
                        stack_status,
                        stack_status_reason,
                        resource_error_events: log.resource_error_events,
                    },
                },
                events,
                action: Action::DescribeStacks { stack_name: poller.stack_id },
            }
        } else {
            let outcome = Outcome::classify(
                stack_status,
                stack_status_reason,
                log.resource_error_events,
                Vec::new(),
            );
            Step { driver: Driver::Finished, events, action: Action::Finish(outcome) }
        }
    }

    fn closed(closing: Closing, result: Result<DescribeStacksOutput, ApiFailure>) -> (r: Step)
        ensures
            r@ == StepView::closed(closing@, result),
    {
        match result {
            Err(failure) => Self::finish(Outcome::CloudFormationApi(failure)),
            Ok(output) => {
                let mut stacks = match output.stacks {
                    Some(stacks) => stacks,
                    None => {
                        return Self::broken(ProtocolError::MissingStacks);
                    },
                };
                if stacks.len() == 0 {
                    return Self::broken(ProtocolError::EmptyStacks);
                }
                let outputs = stacks.swap_remove(0).outputs;
                match closing {
                    Closing::Unchanged => Self::finish(Outcome::Success { outputs }),
                    Closing::Settled { stack_status, stack_status_reason, resource_error_events } => {
                        Self::finish(
                            Outcome::classify(
                                stack_status,
                                stack_status_reason,
                                resource_error_events,
                                outputs,
                            ),
                        )
                    },
                }
            },
        }
    }
}

impl Driver {
    /// A driver for `operation`, before anything has been asked.
    pub fn new(operation: Operation) -> (r: Driver)
        ensures
            r == Driver::Start(operation),
    {
        Driver::Start(operation)
    }

    /// The plan, once there is one and until it is carried out.
    pub fn change_set(&self) -> (r: Option<&ChangeSet>)
        ensures
            match r {
                Some(plan) => self matches Driver::Planned { change_set, .. } && *plan
                    == change_set,
                None => !(self is Planned),
            },
    {
        match self {
            Driver::Planned { change_set, .. } => Some(change_set),
            _ => None,
        }
    }

    /// Whether the operation has ended.
    pub fn is_finished(&self) -> (r: bool)
        ensures
            r == (self is Finished),
    {
        match self {
            Driver::Finished => true,
            _ => false,
        }
    }

    /// Takes the answer to the last action and says what comes next.
    ///
    /// `now_millis` is the current time in milliseconds since the Unix
    /// epoch. It names a new change set, and it is the time from which events
    /// count once the plan is carried out.
    pub fn step(self, response: Response, now_millis: i64) -> (r: Step)
        ensures
            r@ == self@.next(response, now_millis),
    {
        match (self, response) {
            (Driver::Finished, _) => Step::broken(ProtocolError::Unexpected),
            (_, Response::Failed(failure)) => Step::finish(Outcome::CloudFormationApi(failure)),
            (Driver::Start(operation), Response::Begin) => {
                let stack_name = match &operation {
                    Operation::Apply(input) => input.stack_name.clone(),
                    Operation::Delete(input) => input.stack_name.clone(),
                };
                Step::quiet(
                    Driver::AwaitingStack(operation),
                    Action::DescribeStacks { stack_name },
                )
            },
            (Driver::AwaitingStack(Operation::Apply(input)), Response::Stacks(result)) => {
                Step::apply_found(input, result, now_millis)
            },
            (Driver::AwaitingStack(Operation::Delete(input)), Response::Stacks(result)) => {
                Step::delete_found(input, result)
            },
            (Driver::CheckingResources(input), Response::Resources(resources)) => {
                match resources {
                    None => Step::broken(ProtocolError::MissingStackResources),
                    Some(resources) => {
                        if resources.len() == 0 {
                            Step::finish(Outcome::Blocked { status: ResourceStatus::CreateFailed })
                        } else {
                            Step::create(input, ChangeSetType::Update, now_millis)
                        }
                    },
                }
            },
            (
                Driver::Creating { kind, stack_name, client_request_token },
                Response::ChangeSetCreated { id, stack_id },
            ) => {
                match (id, stack_id) {
                    (None, _) => Step::broken(ProtocolError::MissingChangeSetId),
                    (Some(_), None) => Step::broken(ProtocolError::MissingStackId),
                    (Some(change_set_id), Some(stack_id)) => {
                        let again = change_set_id.clone();
                        Step::quiet(
                            Driver::AwaitingChangeSet {
                                kind,
                                change_set_id,
                                stack_id,
                                stack_name,
                                client_request_token,
                            },
                            Action::DescribeChangeSet { change_set_id: again },
                        )
                    },
                }
            },
            (
                Driver::AwaitingChangeSet {
                    kind,
                    change_set_id,
                    stack_id,
                    stack_name,
                    client_request_token,
                },
                Response::ChangeSetDescribed(description),
            ) => Step::described(
                description,
                kind,
                change_set_id,
                stack_id,
                stack_name,
                client_request_token,
            ),
            (Driver::AwaitingResources { stack_id, input }, Response::Resources(resources)) => {
                match resources {
                    None => Step::broken(ProtocolError::MissingStackResources),
                    Some(resources) => Step::quiet(
                        Driver::Planned {
                            change_set: ChangeSet::for_delete(stack_id, input.stack_name, resources),
                            role_arn: input.role_arn,
                            client_request_token: input.client_request_token,
                            retain_resources: input.retain_resources,
                        },
                        Action::Present,
                    ),
                }
            },
            (
                Driver::Planned { change_set, role_arn, client_request_token, retain_resources },
                Response::Proceed,
            ) => Step::proceed(
                change_set,
                role_arn,
                client_request_token,
                retain_resources,
                now_millis,
            ),
            (Driver::AwaitingLastEvent { stack_id }, Response::Events(records)) => {
                match records {
                    None => Step::broken(ProtocolError::MissingStackEvents),
                    Some(records) => Step::last_event(stack_id, newest_event(records)),
                }
            },
            (Driver::Executing { stack_id, since, apply }, Response::Executed) => {
                let again = stack_id.clone();
                Step::quiet(
                    Driver::Polling {
                        poller: EventPoller::new(stack_id, since),
                        log: ErrorLog::new(),
                        apply,
                    },
                    Action::DescribeStackEvents { stack_id: again },
                )
            },
            (Driver::Polling { poller, log, apply }, Response::Events(records)) => {
                match records {
                    None => Step::broken(ProtocolError::MissingStackEvents),
                    Some(records) => Step::polled(poller, log, apply, convert_page(records)),
                }
            },
            (Driver::Finishing { closing }, Response::Stacks(result)) => Step::closed(
                closing,
                result,
            ),
            _ => Step::broken(ProtocolError::Unexpected),
        }
    }
}

} // verus!
