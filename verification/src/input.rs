//! What a caller hands to an operation.

use vstd::prelude::*;
use crate::text::clone_option;

verus! {

/// An input parameter of a stack.
#[derive(Clone, Debug, PartialEq, Eq)]
pub struct Parameter {
    pub key: String,
    pub value: String,
}

/// A tag to put on a stack.
#[derive(Clone, Debug, PartialEq, Eq)]
pub struct Tag {
    pub key: String,
    pub value: String,
}

/// A capability that a template may need the caller to acknowledge.
#[derive(Clone, Copy, Debug, PartialEq, Eq, Structural)]
pub enum Capability {
    /// The template may create IAM resources.
    Iam,
    /// The template may create IAM resources with custom names.
    NamedIam,
    /// The template holds macros.
    AutoExpand,
}

impl Capability {
    /// The name of the capability, as the service spells it.
    pub open spec fn wire_name(self) -> Seq<char> {
        match self {
            Capability::Iam => "CAPABILITY_IAM"@,
            Capability::NamedIam => "CAPABILITY_NAMED_IAM"@,
            Capability::AutoExpand => "CAPABILITY_AUTO_EXPAND"@,
        }
    }

    /// The name of the capability, as the service spells it.
    pub fn as_str(&self) -> (r: &'static str)
        ensures
            r@ == self.wire_name(),
    {
        match self {
            Self::Iam => "CAPABILITY_IAM",
            Self::NamedIam => "CAPABILITY_NAMED_IAM",
            Self::AutoExpand => "CAPABILITY_AUTO_EXPAND",
        }
    }
}

/// What to deploy: a template, and the stack to apply it to.
#[derive(Debug)]
pub struct DeployInput {
    /// The name of the stack to deploy.
    pub stack_name: String,
    /// The template body.
    pub template_body: String,
    /// The parameters to set when creating or updating the stack.
    pub parameters: Vec<Parameter>,
    /// The tags to put on the stack.
    pub tags: Vec<Tag>,
    /// The capabilities that the caller acknowledges.
    pub capabilities: Vec<Capability>,
    /// The topics to which the service reports the events of the stack.
    pub notification_arns: Vec<String>,
    /// The resource types that the caller may work with; `None` for all.
    pub resource_types: Option<Vec<String>>,
    /// The role that CloudFormation assumes for the operation.
    pub role_arn: Option<String>,
    /// A token that makes a repeated request the same request.
    pub client_request_token: Option<String>,
}

/// Which stack to delete.
#[derive(Debug)]
pub struct DeleteInput {
    /// The name of the stack to delete.
    pub stack_name: String,
    /// The role that CloudFormation assumes for the operation.
    pub role_arn: Option<String>,
    /// A token that makes a repeated request the same request.
    pub client_request_token: Option<String>,
    /// The logical IDs of resources to keep when deleting a stack whose
    /// deletion failed before.
    pub retain_resources: Option<Vec<String>>,
}

impl DeleteInput {
    /// What to delete so that `input` can be applied afresh: the stack of
    /// `input`, under the same role, whole, and as a request of its own.
    pub fn for_recovery(input: &DeployInput) -> (r: DeleteInput)
        ensures
            r.stack_name == input.stack_name,
            r.role_arn == input.role_arn,
            r.client_request_token is None,
            r.retain_resources is None,
    {
        DeleteInput {
            stack_name: input.stack_name.clone(),
            role_arn: clone_option(&input.role_arn),
            client_request_token: None,
            retain_resources: None,
        }
    }
}

} // verus!
