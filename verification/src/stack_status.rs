//! What `DescribeStacks` says about the stack that an operation is for.

use vstd::prelude::*;
use crate::outcome::StackOutput;
use crate::status::ResourceStatus;
use crate::text::{decimal_nat, render_nat, str_eq};

verus! {

/// A stack as `DescribeStacks` reports it.
#[derive(Debug)]
pub struct StackRecord {
    pub stack_id: Option<String>,
    pub stack_status: String,
    pub outputs: Vec<StackOutput>,
}

/// What `DescribeStacks` returns when it succeeds.
#[derive(Debug)]
pub struct DescribeStacksOutput {
    pub stacks: Option<Vec<StackRecord>>,
}

/// How a call to the service failed.
#[derive(Debug)]
pub enum ApiFailure {
    /// The service answered with an error that the client does not know;
    /// `status` is the HTTP status code of the answer.
    Unknown { status: u16, body: String },
    /// Any other failure, with the client's message.
    Other { message: String },
}

impl ApiFailure {
    /// The failure in words: for an answer that the client does not know,
    /// its status code and its body; else the client's message.
    pub open spec fn message(self) -> Seq<char> {
        match self {
            ApiFailure::Unknown { status, body } => "HTTP "@ + decimal_nat(status as nat) + ": "@
                + body@,
            ApiFailure::Other { message } => message@,
        }
    }

    /// The failure in words.
    pub fn to_string(&self) -> (r: String)
        ensures
            r@ == self.message(),
    {
        match self {
            ApiFailure::Unknown { status, body } => {
                let mut message = "HTTP ".to_owned();
                let code = render_nat(*status as u64);
                message.append(code.as_str());
                message.append(": ");
                message.append(body.as_str());
                message
            },
            ApiFailure::Other { message } => message.clone(),
        }
    }
}

/// Where an operation finds its stack.
#[derive(Debug, PartialEq, Eq)]
pub enum StackStatus {
    /// There is no such stack, or only the shell of one under review.
    NotFound,
    /// The stack exists in a status from which it cannot be changed; the
    /// stack's ID is kept.
    ExistsErr(String),
    /// The stack exists and can be changed.
    ExistsOk,
}

/// Why the answer of `DescribeStacks` could not be used.
#[derive(Debug)]
pub enum StackStatusError {
    /// The call failed.
    Api(ApiFailure),
    /// The answer carries no list of stacks.
    MissingStacks,
    /// The answer lists no stack.
    EmptyStacks,
    /// The stack has no ID.
    MissingStackId,
}

/// The HTTP status code with which the service reports a stack that does not
/// exist.
pub const BAD_REQUEST: u16 = 400;

/// The status from which a stack cannot be changed that `text` names, if it
/// names one.
pub open spec fn blocked_status_of(text: Seq<char>) -> Option<ResourceStatus> {
    if text == "DELETE_FAILED"@ {
        Some(ResourceStatus::DeleteFailed)
    } else if text == "ROLLBACK_FAILED"@ {
        Some(ResourceStatus::RollbackFailed)
    } else if text == "ROLLBACK_COMPLETE"@ {
        Some(ResourceStatus::RollbackComplete)
    } else {
        None
    }
}

/// The status from which a stack cannot be changed that `text` names, if it
/// names one.
pub fn blocked_status(text: &str) -> (r: Option<ResourceStatus>)
    ensures
        r == blocked_status_of(text@),
{
    if str_eq(text, "DELETE_FAILED") {
        Some(ResourceStatus::DeleteFailed)
    } else if str_eq(text, "ROLLBACK_FAILED") {
        Some(ResourceStatus::RollbackFailed)
    } else if str_eq(text, "ROLLBACK_COMPLETE") {
        Some(ResourceStatus::RollbackComplete)
    } else {
        None
    }
}

/// A blocked status is the status that its text names, and it is a terminal
/// error of a stack.
pub proof fn lemma_blocked_status_is_named(text: Seq<char>)
    ensures
        blocked_status_of(text) matches Some(status) ==> {
            &&& status.wire_name() == text
            &&& status.terminal()
            &&& status.erroneous()
            &&& status.for_stacks()
        },
{
}

/// Whether a stack that is blocked in `status` can be applied to again once
/// it has been deleted: so it is after a creation that was rolled back, from
/// which nothing but deletion leads on.
pub fn can_recover_by_deleting(status: ResourceStatus) -> (r: bool)
    ensures
        r == (status == ResourceStatus::RollbackComplete),
{
    match status {
        ResourceStatus::RollbackComplete => true,
        _ => false,
    }
}

impl StackStatus {
    /// Where the answer of `DescribeStacks` puts the stack.
    ///
    /// A failure with status code 400 means that the stack does not exist. A
    /// stack under review counts as not found. A stack whose deletion or
    /// rollback failed, or whose creation was rolled back, exists in error.
    /// Any other stack exists and can be changed. Only the first stack of
    /// the answer is looked at.
    pub open spec fn of(result: Result<DescribeStacksOutput, ApiFailure>) -> Result<
        StackStatus,
        StackStatusError,
    > {
        match result {
            Ok(output) => {
                if output.stacks is None {
                    Err(StackStatusError::MissingStacks)
                } else if output.stacks->0@.len() == 0 {
                    Err(StackStatusError::EmptyStacks)
                } else {
                    let stack = output.stacks->0@[0];
                    if stack.stack_status@ == "REVIEW_IN_PROGRESS"@ {
                        Ok(StackStatus::NotFound)
                    } else if blocked_status_of(stack.stack_status@) is Some {
                        match stack.stack_id {
                            Some(id) => Ok(StackStatus::ExistsErr(id)),
                            None => Err(StackStatusError::MissingStackId),
                        }
                    } else {
                        Ok(StackStatus::ExistsOk)
                    }
                }
            },
            Err(ApiFailure::Unknown { status, body }) => {
                if status == BAD_REQUEST {
                    Ok(StackStatus::NotFound)
                } else {
                    Err(StackStatusError::Api(ApiFailure::Unknown { status, body }))
                }
            },
            Err(failure) => Err(StackStatusError::Api(failure)),
        }
    }

    /// Reads the answer of `DescribeStacks`.
    pub fn try_from_result(result: Result<DescribeStacksOutput, ApiFailure>) -> (r: Result<
        StackStatus,
        StackStatusError,
    >)
        ensures
            r == Self::of(result),
    {
        match result {
            Ok(output) => {
                let mut stacks = match output.stacks {
                    Some(stacks) => stacks,
                    None => {
                        return Err(StackStatusError::MissingStacks);
                    },
                };
                if stacks.len() == 0 {
                    return Err(StackStatusError::EmptyStacks);
                }
                let stack = stacks.swap_remove(0);
                if str_eq(stack.stack_status.as_str(), "REVIEW_IN_PROGRESS") {
                    Ok(StackStatus::NotFound)
                } else if blocked_status(stack.stack_status.as_str()).is_some() {
                    match stack.stack_id {
                        Some(id) => Ok(StackStatus::ExistsErr(id)),
                        None => Err(StackStatusError::MissingStackId),
                    }
                } else {
                    Ok(StackStatus::ExistsOk)
                }
            },
            Err(ApiFailure::Unknown { status, body }) => {
                if status == BAD_REQUEST {
                    Ok(StackStatus::NotFound)
                } else {
                    Err(StackStatusError::Api(ApiFailure::Unknown { status, body }))
                }
            },
            Err(failure) => Err(StackStatusError::Api(failure)),
        }
    }
}

} // verus!
