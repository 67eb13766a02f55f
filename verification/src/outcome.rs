//! How an operation ended: the errors seen on the way, and the verdict on the
//! status in which the stack came to rest.

use vstd::prelude::*;
use crate::deploy::ProtocolError;
use crate::events::StackEvent;
use crate::reason::{detail_of, ReasonShape, StatusReasonDetail};
use crate::stack_status::ApiFailure;
use crate::status::{ResourceStatus, StatusSentiment};

verus! {

/// An output of a stack.
#[derive(Debug)]
pub struct StackOutput {
    pub key: String,
    pub value: String,
}

/// An event that reports an error of a resource, with what its reason says.
#[derive(Debug)]
pub struct ResourceError {
    pub event: StackEvent,
    /// `None` where the event gives no reason.
    pub detail: Option<StatusReasonDetail>,
}

/// How an operation ended.
#[derive(Debug)]
#[allow(inconsistent_fields)]
pub enum Outcome {
    /// The stack came to rest in a positive status and no resource reported
    /// an error.
    Success { outputs: Vec<StackOutput> },
    /// The stack came to rest in a positive status, but resources reported
    /// errors on the way.
    Warning { outputs: Vec<StackOutput>, resource_errors: Vec<ResourceError> },
    /// The stack came to rest in a status that is not positive.
    Failure {
        stack_status: ResourceStatus,
        stack_status_reason: Option<String>,
        /// What the reason says; `None` where there is no reason.
        detail: Option<StatusReasonDetail>,
        resource_errors: Vec<ResourceError>,
    },
    /// The stack was found in a status from which it cannot be applied to.
    Blocked { status: ResourceStatus },
    /// The change set could not be created, and not for want of changes.
    CreateChangeSetFailed { status: String, status_reason: Option<String> },
    /// A call to the service failed; the failure is kept as it came.
    CloudFormationApi(ApiFailure),
    /// The exchange with the service broke down.
    Protocol(ProtocolError),
}

/// What a reason says, where there is one.
pub open spec fn explained(reason: Option<String>) -> Option<ReasonShape> {
    match reason {
        Some(text) => Some(detail_of(text@)),
        None => None,
    }
}

/// A [`ResourceError`] with its detail as plain text.
pub struct ResourceErrorView {
    pub event: StackEvent,
    pub detail: Option<ReasonShape>,
}

impl View for ResourceError {
    type V = ResourceErrorView;

    open spec fn view(&self) -> ResourceErrorView {
        ResourceErrorView {
            event: self.event,
            detail: match self.detail {
                Some(detail) => Some(detail@),
                None => None,
            },
        }
    }
}

/// The error that `event` reports, with what its reason says.
pub open spec fn error_of(event: StackEvent) -> ResourceErrorView {
    ResourceErrorView { event, detail: explained(event.resource_status_reason) }
}

/// The errors that `events` report, each with what its reason says.
pub open spec fn errors_of(events: Seq<StackEvent>) -> Seq<ResourceErrorView> {
    events.map_values(|event: StackEvent| error_of(event))
}

/// The views of `errors`.
pub open spec fn error_views(errors: Seq<ResourceError>) -> Seq<ResourceErrorView> {
    errors.map_values(|error: ResourceError| error@)
}

/// An [`Outcome`] as plain values.
#[allow(inconsistent_fields)]
pub enum OutcomeView {
    Success { outputs: Seq<StackOutput> },
    Warning { outputs: Seq<StackOutput>, resource_errors: Seq<ResourceErrorView> },
    Failure {
        stack_status: ResourceStatus,
        stack_status_reason: Option<String>,
        detail: Option<ReasonShape>,
        resource_errors: Seq<ResourceErrorView>,
    },
    Blocked { status: ResourceStatus },
    CreateChangeSetFailed { status: String, status_reason: Option<String> },
    CloudFormationApi(ApiFailure),
    Protocol(ProtocolError),
}

impl View for Outcome {
    type V = OutcomeView;

    open spec fn view(&self) -> OutcomeView {
        match self {
            Outcome::Success { outputs } => OutcomeView::Success { outputs: outputs@ },
            Outcome::Warning { outputs, resource_errors } => OutcomeView::Warning {
                outputs: outputs@,
                resource_errors: error_views(resource_errors@),
            },
            Outcome::Failure { stack_status, stack_status_reason, detail, resource_errors } => {
                OutcomeView::Failure {
                    stack_status: *stack_status,
                    stack_status_reason: *stack_status_reason,
                    detail: match detail {
                        Some(detail) => Some(detail@),
                        None => None,
                    },
                    resource_errors: error_views(resource_errors@),
                }
            },
            Outcome::Blocked { status } => OutcomeView::Blocked { status: *status },
            Outcome::CreateChangeSetFailed { status, status_reason } => {
                OutcomeView::CreateChangeSetFailed { status: *status, status_reason: *status_reason }
            },
            Outcome::CloudFormationApi(failure) => OutcomeView::CloudFormationApi(*failure),
            Outcome::Protocol(error) => OutcomeView::Protocol(*error),
        }
    }
}

impl OutcomeView {
    /// The verdict on a stack that came to rest in `stack_status`, after the
    /// resource errors given. The first rule that fits decides:
    /// a positive status without resource errors is a success; a positive
    /// status with resource errors is a warning; any other status is a
    /// failure.
    pub open spec fn judged(
        stack_status: ResourceStatus,
        stack_status_reason: Option<String>,
        resource_error_events: Seq<StackEvent>,
        outputs: Seq<StackOutput>,
    ) -> OutcomeView {
        if stack_status.sentiment_of() == StatusSentiment::Positive {
            if resource_error_events.len() == 0 {
                OutcomeView::Success { outputs }
            } else {
                OutcomeView::Warning { outputs, resource_errors: errors_of(resource_error_events) }
            }
        } else {
            OutcomeView::Failure {
                stack_status,
                stack_status_reason,
                detail: explained(stack_status_reason),
                resource_errors: errors_of(resource_error_events),
            }
        }
    }

    /// The exit code by which a command-line caller reports the outcome.
    pub open spec fn exit_code(self) -> u8 {
        match self {
            OutcomeView::Success { .. } => 0,
            OutcomeView::Warning { .. } => 3,
            OutcomeView::Failure { .. } => 4,
            _ => 1,
        }
    }
}

/// Reads the reason of an event, where it has one.
fn explain(reason: &Option<String>) -> (r: Option<StatusReasonDetail>)
    ensures
        match r {
            Some(detail) => explained(*reason) == Some(detail@),
            None => explained(*reason).is_none(),
        },
{
    match reason {
        Some(text) => Some(StatusReasonDetail::parse(text.as_str())),
        None => None,
    }
}

/// Attaches to each error event what its reason says.
fn explain_all(events: Vec<StackEvent>) -> (r: Vec<ResourceError>)
    ensures
        error_views(r@) == errors_of(events@),
{
    let ghost all = events@;
    let mut errors: Vec<ResourceError> = Vec::new();
    for event in it: events
        invariant
            it.seq() == all,
            error_views(errors@) == errors_of(all.take(it.index() as int)),
    {
        let ghost before = errors@;
        let detail = explain(&event.resource_status_reason);
        let error = ResourceError { event, detail };
        errors.push(error);
        assert(error_views(errors@) =~= error_views(before).push(error@));
    }
    errors
}

impl Outcome {
    /// Judges an operation whose stack has come to rest.
    ///
    /// `stack_status` and `stack_status_reason` are those of the event that
    /// settled the stack; `resource_error_events` are the error events of
    /// resources seen on the way.
    pub fn classify(
        stack_status: ResourceStatus,
        stack_status_reason: Option<String>,
        resource_error_events: Vec<StackEvent>,
        outputs: Vec<StackOutput>,
    ) -> (r: Outcome)
        ensures
            r@ == OutcomeView::judged(
                stack_status,
                stack_status_reason,
                resource_error_events@,
                outputs@,
            ),
    {
        let positive = match stack_status.sentiment() {
            StatusSentiment::Positive => true,
            _ => false,
        };
        if positive {
            if resource_error_events.len() == 0 {
                Outcome::Success { outputs }
            } else {
                Outcome::Warning { outputs, resource_errors: explain_all(resource_error_events) }
            }
        } else {
            let detail = explain(&stack_status_reason);
            Outcome::Failure {
                stack_status,
                stack_status_reason,
                detail,
                resource_errors: explain_all(resource_error_events),
            }
        }
    }

    /// The exit code by which a command-line caller reports the outcome:
    /// 0 for a success, 3 for a warning, 4 for a failure, 1 for anything else.
    pub fn exit_code(&self) -> (code: u8)
        ensures
            code == self@.exit_code(),
            code == 0 <==> self is Success,
            code == 3 <==> self is Warning,
            code == 4 <==> self is Failure,
            code == 0 || code == 1 || code == 3 || code == 4,
    {
        match self {
            Outcome::Success { .. } => 0,
            Outcome::Warning { .. } => 3,
            Outcome::Failure { .. } => 4,
            _ => 1,
        }
    }
}

/// For what has come to rest the verdict is decided by the status alone: it
/// is a failure exactly when the status is negative, and otherwise a success
/// or a warning according to whether resources reported errors.
pub proof fn lemma_verdict_of_stack_at_rest(
    stack_status: ResourceStatus,
    stack_status_reason: Option<String>,
    resource_error_events: Seq<StackEvent>,
    outputs: Seq<StackOutput>,
)
    requires
        stack_status.terminal(),
    ensures
        ({
            let verdict = OutcomeView::judged(
                stack_status,
                stack_status_reason,
                resource_error_events,
                outputs,
            );
            &&& verdict is Failure <==> stack_status.erroneous()
            &&& verdict is Success <==> !stack_status.erroneous() && resource_error_events.len()
                == 0
            &&& verdict is Warning <==> !stack_status.erroneous() && resource_error_events.len()
                > 0
        }),
{
}

/// The error events of an operation, sorted as they come in.
#[derive(Debug)]
pub struct ErrorLog {
    /// The latest error event about the stack itself.
    pub stack_error_event: Option<StackEvent>,
    /// The error events about resources of the stack, oldest first.
    pub resource_error_events: Vec<StackEvent>,
}

/// An [`ErrorLog`] with its events as a sequence.
pub struct ErrorLogView {
    pub stack_error_event: Option<StackEvent>,
    pub resource_error_events: Seq<StackEvent>,
}

impl View for ErrorLog {
    type V = ErrorLogView;

    open spec fn view(&self) -> ErrorLogView {
        ErrorLogView {
            stack_error_event: self.stack_error_event,
            resource_error_events: self.resource_error_events@,
        }
    }
}

impl ErrorLogView {
    /// The log before any event.
    pub open spec fn empty() -> ErrorLogView {
        ErrorLogView { stack_error_event: None, resource_error_events: Seq::empty() }
    }

    /// The log after `event`: an event that is no error leaves it as it is;
    /// an error of the stack replaces the one kept; an error of a resource
    /// is added to the list.
    pub open spec fn with(self, event: StackEvent, stack_id: Seq<char>) -> ErrorLogView {
        if !event.resource_status.erroneous() {
            self
        } else if event.about_stack(stack_id) {
            ErrorLogView { stack_error_event: Some(event), ..self }
        } else {
            ErrorLogView {
                resource_error_events: self.resource_error_events.push(event),
                ..self
            }
        }
    }

    /// The log after `events`, in order.
    pub open spec fn with_all(self, events: Seq<StackEvent>, stack_id: Seq<char>) -> ErrorLogView
        decreases events.len(),
    {
        if events.len() == 0 {
            self
        } else {
            self.with_all(events.drop_last(), stack_id).with(events.last(), stack_id)
        }
    }
}

impl ErrorLog {
    /// A log without events.
    pub fn new() -> (r: ErrorLog)
        ensures
            r@ == ErrorLogView::empty(),
    {
        ErrorLog { stack_error_event: None, resource_error_events: Vec::new() }
    }

    /// Takes note of `event` if it reports an error.
    pub fn observe(&mut self, event: &StackEvent, stack_id: &str)
        ensures
            final(self)@ == old(self)@.with(*event, stack_id@),
    {
        if event.resource_status.is_error() {
            if event.is_about_stack(stack_id) {
                self.stack_error_event = Some(event.clone());
            } else {
                self.resource_error_events.push(event.clone());
            }
        }
    }

    /// Takes note of every error that `events` report, in order.
    pub fn observe_all(&mut self, events: &Vec<StackEvent>, stack_id: &str)
        ensures
            final(self)@ == old(self)@.with_all(events@, stack_id@),
    {
        let mut i: usize = 0;
        while i < events.len()
            invariant
                i <= events.len(),
                self@ == old(self)@.with_all(events@.take(i as int), stack_id@),
            decreases events.len() - i,
        {
            assert(events@.take(i + 1).drop_last() =~= events@.take(i as int));
            self.observe(&events[i], stack_id);
            i += 1;
        }
        assert(events@.take(events.len() as int) =~= events@);
    }
}

/// When the last event of a run reports an error of the stack, that event is
/// the stack error that the log keeps: the latest wins.
pub proof fn lemma_latest_stack_error_wins(
    log: ErrorLogView,
    events: Seq<StackEvent>,
    stack_id: Seq<char>,
)
    requires
        events.len() > 0,
        events.last().about_stack(stack_id),
        events.last().resource_status.erroneous(),
    ensures
        log.with_all(events, stack_id).stack_error_event == Some(events.last()),
{
}

} // verus!
