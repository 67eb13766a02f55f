//! The status vocabulary: every status that CloudFormation reports for a stack
//! or for a resource, with its wire name and its classification.

use vstd::prelude::*;
use crate::text::str_eq;

verus! {

/// How a status reads to an operator.
#[derive(Clone, Copy, Debug, PartialEq, Eq, Structural)]
pub enum StatusSentiment {
    /// The operation went, or is going, as asked.
    Positive,
    /// Nothing to say yet: work is under way.
    Neutral,
    /// Something failed, or was rolled back.
    Negative,
}

/// What a status can be reported for.
#[derive(Clone, Copy, Debug, PartialEq, Eq, Structural)]
pub enum StatusScope {
    /// Stacks only.
    Stack,
    /// Resources only.
    Resource,
    /// Stacks and resources.
    Both,
}

/// A status of a stack or of a resource in a stack.
///
/// The set is closed: a wire string outside it is an error, never a default.
#[derive(Clone, Copy, Debug, PartialEq, Eq, Structural)]
pub enum ResourceStatus {
    CreateInProgress,
    CreateFailed,
    CreateComplete,
    RollbackInProgress,
    RollbackFailed,
    RollbackComplete,
    DeleteInProgress,
    DeleteFailed,
    DeleteComplete,
    DeleteSkipped,
    UpdateInProgress,
    UpdateCompleteCleanupInProgress,
    UpdateComplete,
    UpdateFailed,
    UpdateRollbackInProgress,
    UpdateRollbackFailed,
    UpdateRollbackCompleteCleanupInProgress,
    UpdateRollbackComplete,
    ReviewInProgress,
    ImportInProgress,
    ImportComplete,
    ImportFailed,
    ImportRollbackInProgress,
    ImportRollbackFailed,
    ImportRollbackComplete,
}

impl ResourceStatus {
    /// The string by which CloudFormation names this status.
    pub open spec fn wire_name(self) -> Seq<char> {
        match self {
            ResourceStatus::CreateInProgress => "CREATE_IN_PROGRESS"@,
            ResourceStatus::CreateFailed => "CREATE_FAILED"@,
            ResourceStatus::CreateComplete => "CREATE_COMPLETE"@,
            ResourceStatus::RollbackInProgress => "ROLLBACK_IN_PROGRESS"@,
            ResourceStatus::RollbackFailed => "ROLLBACK_FAILED"@,
            ResourceStatus::RollbackComplete => "ROLLBACK_COMPLETE"@,
            ResourceStatus::DeleteInProgress => "DELETE_IN_PROGRESS"@,
            ResourceStatus::DeleteFailed => "DELETE_FAILED"@,
            ResourceStatus::DeleteComplete => "DELETE_COMPLETE"@,
            ResourceStatus::DeleteSkipped => "DELETE_SKIPPED"@,
            ResourceStatus::UpdateInProgress => "UPDATE_IN_PROGRESS"@,
            ResourceStatus::UpdateCompleteCleanupInProgress => "UPDATE_COMPLETE_CLEANUP_IN_PROGRESS"@,
            ResourceStatus::UpdateComplete => "UPDATE_COMPLETE"@,
            ResourceStatus::UpdateFailed => "UPDATE_FAILED"@,
            ResourceStatus::UpdateRollbackInProgress => "UPDATE_ROLLBACK_IN_PROGRESS"@,
            ResourceStatus::UpdateRollbackFailed => "UPDATE_ROLLBACK_FAILED"@,
            ResourceStatus::UpdateRollbackCompleteCleanupInProgress => "UPDATE_ROLLBACK_COMPLETE_CLEANUP_IN_PROGRESS"@,
            ResourceStatus::UpdateRollbackComplete => "UPDATE_ROLLBACK_COMPLETE"@,
            ResourceStatus::ReviewInProgress => "REVIEW_IN_PROGRESS"@,
            ResourceStatus::ImportInProgress => "IMPORT_IN_PROGRESS"@,
            ResourceStatus::ImportComplete => "IMPORT_COMPLETE"@,
            ResourceStatus::ImportFailed => "IMPORT_FAILED"@,
            ResourceStatus::ImportRollbackInProgress => "IMPORT_ROLLBACK_IN_PROGRESS"@,
            ResourceStatus::ImportRollbackFailed => "IMPORT_ROLLBACK_FAILED"@,
            ResourceStatus::ImportRollbackComplete => "IMPORT_ROLLBACK_COMPLETE"@,
        }
    }

    /// No further transition will follow this status without a new request.
    pub open spec fn terminal(self) -> bool {
        match self {
            ResourceStatus::CreateFailed
            | ResourceStatus::CreateComplete
            | ResourceStatus::RollbackFailed
            | ResourceStatus::RollbackComplete
            | ResourceStatus::DeleteFailed
            | ResourceStatus::DeleteComplete
            | ResourceStatus::DeleteSkipped
            | ResourceStatus::UpdateComplete
            | ResourceStatus::UpdateFailed
            | ResourceStatus::UpdateRollbackFailed
            | ResourceStatus::UpdateRollbackComplete
            | ResourceStatus::ImportComplete
            | ResourceStatus::ImportFailed
            | ResourceStatus::ImportRollbackFailed
            | ResourceStatus::ImportRollbackComplete => true,
            ResourceStatus::CreateInProgress
            | ResourceStatus::RollbackInProgress
            | ResourceStatus::DeleteInProgress
            | ResourceStatus::UpdateInProgress
            | ResourceStatus::UpdateCompleteCleanupInProgress
            | ResourceStatus::UpdateRollbackInProgress
            | ResourceStatus::UpdateRollbackCompleteCleanupInProgress
            | ResourceStatus::ReviewInProgress
            | ResourceStatus::ImportInProgress
            | ResourceStatus::ImportRollbackInProgress => false,
        }
    }

    /// How this status reads: work under way is neutral; a terminal status is
    /// negative when something failed or was rolled back, and positive
    /// otherwise: when the operation completed, or left a resource alone that
    /// was to be kept.
    pub open spec fn sentiment_of(self) -> StatusSentiment {
        match self {
            ResourceStatus::CreateComplete
            | ResourceStatus::DeleteComplete
            | ResourceStatus::DeleteSkipped
            | ResourceStatus::UpdateComplete
            | ResourceStatus::ImportComplete => StatusSentiment::Positive,
            ResourceStatus::CreateFailed
            | ResourceStatus::RollbackFailed
            | ResourceStatus::RollbackComplete
            | ResourceStatus::DeleteFailed
            | ResourceStatus::UpdateFailed
            | ResourceStatus::UpdateRollbackFailed
            | ResourceStatus::UpdateRollbackComplete
            | ResourceStatus::ImportFailed
            | ResourceStatus::ImportRollbackFailed
            | ResourceStatus::ImportRollbackComplete => StatusSentiment::Negative,
            ResourceStatus::CreateInProgress
            | ResourceStatus::RollbackInProgress
            | ResourceStatus::DeleteInProgress
            | ResourceStatus::UpdateInProgress
            | ResourceStatus::UpdateCompleteCleanupInProgress
            | ResourceStatus::UpdateRollbackInProgress
            | ResourceStatus::UpdateRollbackCompleteCleanupInProgress
            | ResourceStatus::ReviewInProgress
            | ResourceStatus::ImportInProgress
            | ResourceStatus::ImportRollbackInProgress => StatusSentiment::Neutral,
        }
    }

    /// This status counts as an error when an operation is judged.
    pub open spec fn erroneous(self) -> bool {
        self.sentiment_of() == StatusSentiment::Negative
    }

    /// What this status can be reported for.
    pub open spec fn scope_of(self) -> StatusScope {
        match self {
            ResourceStatus::UpdateCompleteCleanupInProgress
            | ResourceStatus::UpdateRollbackCompleteCleanupInProgress
            | ResourceStatus::ReviewInProgress => StatusScope::Stack,
            ResourceStatus::DeleteSkipped
            | ResourceStatus::ImportFailed => StatusScope::Resource,
            _ => StatusScope::Both,
        }
    }

    /// A stack can be in this status.
    pub open spec fn for_stacks(self) -> bool {
        self.scope_of() != StatusScope::Resource
    }

    /// `text` is the wire name of some status.
    pub open spec fn known(text: Seq<char>) -> bool {
        exists|status: ResourceStatus| status.wire_name() == text
    }

    /// The status that `text` names, if any.
    pub open spec fn named(text: Seq<char>) -> Option<ResourceStatus> {
        if Self::known(text) {
            Some(choose|status: ResourceStatus| status.wire_name() == text)
        } else {
            None
        }
    }

    /// Indicates whether the status is a terminal status.
    #[must_use]
    pub fn is_terminal(&self) -> (r: bool)
        ensures
            r == self.terminal(),
    {
        match self {
            Self::CreateFailed
            | Self::CreateComplete
            | Self::RollbackFailed
            | Self::RollbackComplete
            | Self::DeleteFailed
            | Self::DeleteComplete
            | Self::DeleteSkipped
            | Self::UpdateComplete
            | Self::UpdateFailed
            | Self::UpdateRollbackFailed
            | Self::UpdateRollbackComplete
            | Self::ImportComplete
            | Self::ImportFailed
            | Self::ImportRollbackFailed
            | Self::ImportRollbackComplete => true,
            // Spelled out so that a new variant has to be placed.
            Self::CreateInProgress
            | Self::RollbackInProgress
            | Self::DeleteInProgress
            | Self::UpdateInProgress
            | Self::UpdateCompleteCleanupInProgress
            | Self::UpdateRollbackInProgress
            | Self::UpdateRollbackCompleteCleanupInProgress
            | Self::ReviewInProgress
            | Self::ImportInProgress
            | Self::ImportRollbackInProgress => false,
        }
    }

    /// Indicates whether the status indicates an error.
    #[must_use]
    pub fn is_error(&self) -> (r: bool)
        ensures
            r == self.erroneous(),
    {
        match self {
            Self::CreateFailed
            | Self::RollbackFailed
            | Self::RollbackComplete
            | Self::DeleteFailed
            | Self::UpdateFailed
            | Self::UpdateRollbackFailed
            | Self::UpdateRollbackComplete
            | Self::ImportFailed
            | Self::ImportRollbackFailed
            | Self::ImportRollbackComplete => true,
            Self::CreateInProgress
            | Self::CreateComplete
            | Self::RollbackInProgress
            | Self::DeleteInProgress
            | Self::DeleteComplete
            | Self::DeleteSkipped
            | Self::UpdateInProgress
            | Self::UpdateCompleteCleanupInProgress
            | Self::UpdateComplete
            | Self::UpdateRollbackInProgress
            | Self::UpdateRollbackCompleteCleanupInProgress
            | Self::ReviewInProgress
            | Self::ImportInProgress
            | Self::ImportComplete
            | Self::ImportRollbackInProgress => false,
        }
    }

    /// How the status reads to an operator.
    #[must_use]
    pub fn sentiment(&self) -> (r: StatusSentiment)
        ensures
            r == self.sentiment_of(),
    {
        if !self.is_terminal() {
            StatusSentiment::Neutral
        } else if self.is_error() {
            StatusSentiment::Negative
        } else {
            StatusSentiment::Positive
        }
    }

    /// What the status can be reported for.
    #[must_use]
    pub fn scope(&self) -> (r: StatusScope)
        ensures
            r == self.scope_of(),
    {
        match self {
            Self::UpdateCompleteCleanupInProgress
            | Self::UpdateRollbackCompleteCleanupInProgress
            | Self::ReviewInProgress => StatusScope::Stack,
            Self::DeleteSkipped
            | Self::ImportFailed => StatusScope::Resource,
            _ => StatusScope::Both,
        }
    }

    /// The wire name of the status.
    #[must_use]
    pub fn as_str(&self) -> (r: &'static str)
        ensures
            r@ == self.wire_name(),
    {
        match self {
            Self::CreateInProgress => "CREATE_IN_PROGRESS",
            Self::CreateFailed => "CREATE_FAILED",
            Self::CreateComplete => "CREATE_COMPLETE",
            Self::RollbackInProgress => "ROLLBACK_IN_PROGRESS",
            Self::RollbackFailed => "ROLLBACK_FAILED",
            Self::RollbackComplete => "ROLLBACK_COMPLETE",
            Self::DeleteInProgress => "DELETE_IN_PROGRESS",
            Self::DeleteFailed => "DELETE_FAILED",
            Self::DeleteComplete => "DELETE_COMPLETE",
            Self::DeleteSkipped => "DELETE_SKIPPED",
            Self::UpdateInProgress => "UPDATE_IN_PROGRESS",
            Self::UpdateCompleteCleanupInProgress => "UPDATE_COMPLETE_CLEANUP_IN_PROGRESS",
            Self::UpdateComplete => "UPDATE_COMPLETE",
            Self::UpdateFailed => "UPDATE_FAILED",
            Self::UpdateRollbackInProgress => "UPDATE_ROLLBACK_IN_PROGRESS",
            Self::UpdateRollbackFailed => "UPDATE_ROLLBACK_FAILED",
            Self::UpdateRollbackCompleteCleanupInProgress => "UPDATE_ROLLBACK_COMPLETE_CLEANUP_IN_PROGRESS",
            Self::UpdateRollbackComplete => "UPDATE_ROLLBACK_COMPLETE",
            Self::ReviewInProgress => "REVIEW_IN_PROGRESS",
            Self::ImportInProgress => "IMPORT_IN_PROGRESS",
            Self::ImportComplete => "IMPORT_COMPLETE",
            Self::ImportFailed => "IMPORT_FAILED",
            Self::ImportRollbackInProgress => "IMPORT_ROLLBACK_IN_PROGRESS",
            Self::ImportRollbackFailed => "IMPORT_ROLLBACK_FAILED",
            Self::ImportRollbackComplete => "IMPORT_ROLLBACK_COMPLETE",
        }
    }

    /// The wire name of the status, owned.
    #[must_use]
    pub fn to_string(&self) -> (r: String)
        ensures
            r@ == self.wire_name(),
    {
        self.as_str().to_owned()
    }

    /// Reads a wire name. A string that names no status is handed back as the
    /// error, so that the caller can fail loudly.
    pub fn from_str(status: &str) -> (r: Result<ResourceStatus, String>)
        ensures
            match r {
                Ok(found) => Self::named(status@) == Some(found),
                Err(unknown) => unknown@ == status@ && Self::named(status@).is_none(),
            },
    {
        let r = if str_eq(status, "CREATE_IN_PROGRESS") {
            Ok(Self::CreateInProgress)
        } else if str_eq(status, "CREATE_FAILED") {
            Ok(Self::CreateFailed)
        } else if str_eq(status, "CREATE_COMPLETE") {
            Ok(Self::CreateComplete)
        } else if str_eq(status, "ROLLBACK_IN_PROGRESS") {
            Ok(Self::RollbackInProgress)
        } else if str_eq(status, "ROLLBACK_FAILED") {
            Ok(Self::RollbackFailed)
        } else if str_eq(status, "ROLLBACK_COMPLETE") {
            Ok(Self::RollbackComplete)
        } else if str_eq(status, "DELETE_IN_PROGRESS") {
            Ok(Self::DeleteInProgress)
        } else if str_eq(status, "DELETE_FAILED") {
            Ok(Self::DeleteFailed)
        } else if str_eq(status, "DELETE_COMPLETE") {
            Ok(Self::DeleteComplete)
        } else if str_eq(status, "DELETE_SKIPPED") {
            Ok(Self::DeleteSkipped)
        } else if str_eq(status, "UPDATE_IN_PROGRESS") {
            Ok(Self::UpdateInProgress)
        } else if str_eq(status, "UPDATE_COMPLETE_CLEANUP_IN_PROGRESS") {
            Ok(Self::UpdateCompleteCleanupInProgress)
        } else if str_eq(status, "UPDATE_COMPLETE") {
            Ok(Self::UpdateComplete)
        } else if str_eq(status, "UPDATE_FAILED") {
            Ok(Self::UpdateFailed)
        } else if str_eq(status, "UPDATE_ROLLBACK_IN_PROGRESS") {
            Ok(Self::UpdateRollbackInProgress)
        } else if str_eq(status, "UPDATE_ROLLBACK_FAILED") {
            Ok(Self::UpdateRollbackFailed)
        } else if str_eq(status, "UPDATE_ROLLBACK_COMPLETE_CLEANUP_IN_PROGRESS") {
            Ok(Self::UpdateRollbackCompleteCleanupInProgress)
        } else if str_eq(status, "UPDATE_ROLLBACK_COMPLETE") {
            Ok(Self::UpdateRollbackComplete)
        } else if str_eq(status, "REVIEW_IN_PROGRESS") {
            Ok(Self::ReviewInProgress)
        } else if str_eq(status, "IMPORT_IN_PROGRESS") {
            Ok(Self::ImportInProgress)
        } else if str_eq(status, "IMPORT_COMPLETE") {
            Ok(Self::ImportComplete)
        } else if str_eq(status, "IMPORT_FAILED") {
            Ok(Self::ImportFailed)
        } else if str_eq(status, "IMPORT_ROLLBACK_IN_PROGRESS") {
            Ok(Self::ImportRollbackInProgress)
        } else if str_eq(status, "IMPORT_ROLLBACK_FAILED") {
            Ok(Self::ImportRollbackFailed)
        } else if str_eq(status, "IMPORT_ROLLBACK_COMPLETE") {
            Ok(Self::ImportRollbackComplete)
        } else {
            assert forall|any: ResourceStatus| any.wire_name() != status@ by {
                match any {
                    ResourceStatus::CreateInProgress => {},
                    ResourceStatus::CreateFailed => {},
                    ResourceStatus::CreateComplete => {},
                    ResourceStatus::RollbackInProgress => {},
                    ResourceStatus::RollbackFailed => {},
                    ResourceStatus::RollbackComplete => {},
                    ResourceStatus::DeleteInProgress => {},
                    ResourceStatus::DeleteFailed => {},
                    ResourceStatus::DeleteComplete => {},
                    ResourceStatus::DeleteSkipped => {},
                    ResourceStatus::UpdateInProgress => {},
                    ResourceStatus::UpdateCompleteCleanupInProgress => {},
                    ResourceStatus::UpdateComplete => {},
                    ResourceStatus::UpdateFailed => {},
                    ResourceStatus::UpdateRollbackInProgress => {},
                    ResourceStatus::UpdateRollbackFailed => {},
                    ResourceStatus::UpdateRollbackCompleteCleanupInProgress => {},
                    ResourceStatus::UpdateRollbackComplete => {},
                    ResourceStatus::ReviewInProgress => {},
                    ResourceStatus::ImportInProgress => {},
                    ResourceStatus::ImportComplete => {},
                    ResourceStatus::ImportFailed => {},
                    ResourceStatus::ImportRollbackInProgress => {},
                    ResourceStatus::ImportRollbackFailed => {},
                    ResourceStatus::ImportRollbackComplete => {},
                }
            }
            Err(status.to_owned())
        };
        proof {
            if let Ok(found) = r {
                assert(found.wire_name() == status@);
                lemma_named_is_exact(status@);
            }
        }
        r
    }
}

/// The length and the first character of a wire name.
spec fn shape(name: Seq<char>) -> (nat, char) {
    (name.len(), name[0])
}

proof fn lemma_shapes(status: ResourceStatus)
    ensures
        shape(status.wire_name()) == match status {
            ResourceStatus::CreateInProgress => (18nat, 'C'),
            ResourceStatus::CreateFailed => (13nat, 'C'),
            ResourceStatus::CreateComplete => (15nat, 'C'),
            ResourceStatus::RollbackInProgress => (20nat, 'R'),
            ResourceStatus::RollbackFailed => (15nat, 'R'),
            ResourceStatus::RollbackComplete => (17nat, 'R'),
            ResourceStatus::DeleteInProgress => (18nat, 'D'),
            ResourceStatus::DeleteFailed => (13nat, 'D'),
            ResourceStatus::DeleteComplete => (15nat, 'D'),
            ResourceStatus::DeleteSkipped => (14nat, 'D'),
            ResourceStatus::UpdateInProgress => (18nat, 'U'),
            ResourceStatus::UpdateCompleteCleanupInProgress => (35nat, 'U'),
            ResourceStatus::UpdateComplete => (15nat, 'U'),
            ResourceStatus::UpdateFailed => (13nat, 'U'),
            ResourceStatus::UpdateRollbackInProgress => (27nat, 'U'),
            ResourceStatus::UpdateRollbackFailed => (22nat, 'U'),
            ResourceStatus::UpdateRollbackCompleteCleanupInProgress => (44nat, 'U'),
            ResourceStatus::UpdateRollbackComplete => (24nat, 'U'),
            ResourceStatus::ReviewInProgress => (18nat, 'R'),
            ResourceStatus::ImportInProgress => (18nat, 'I'),
            ResourceStatus::ImportComplete => (15nat, 'I'),
            ResourceStatus::ImportFailed => (13nat, 'I'),
            ResourceStatus::ImportRollbackInProgress => (27nat, 'I'),
            ResourceStatus::ImportRollbackFailed => (22nat, 'I'),
            ResourceStatus::ImportRollbackComplete => (24nat, 'I'),
        },
{
    reveal_strlit("CREATE_IN_PROGRESS");
    reveal_strlit("CREATE_FAILED");
    reveal_strlit("CREATE_COMPLETE");
    reveal_strlit("ROLLBACK_IN_PROGRESS");
    reveal_strlit("ROLLBACK_FAILED");
    reveal_strlit("ROLLBACK_COMPLETE");
    reveal_strlit("DELETE_IN_PROGRESS");
    reveal_strlit("DELETE_FAILED");
    reveal_strlit("DELETE_COMPLETE");
    reveal_strlit("DELETE_SKIPPED");
    reveal_strlit("UPDATE_IN_PROGRESS");
    reveal_strlit("UPDATE_COMPLETE_CLEANUP_IN_PROGRESS");
    reveal_strlit("UPDATE_COMPLETE");
    reveal_strlit("UPDATE_FAILED");
    reveal_strlit("UPDATE_ROLLBACK_IN_PROGRESS");
    reveal_strlit("UPDATE_ROLLBACK_FAILED");
    reveal_strlit("UPDATE_ROLLBACK_COMPLETE_CLEANUP_IN_PROGRESS");
    reveal_strlit("UPDATE_ROLLBACK_COMPLETE");
    reveal_strlit("REVIEW_IN_PROGRESS");
    reveal_strlit("IMPORT_IN_PROGRESS");
    reveal_strlit("IMPORT_COMPLETE");
    reveal_strlit("IMPORT_FAILED");
    reveal_strlit("IMPORT_ROLLBACK_IN_PROGRESS");
    reveal_strlit("IMPORT_ROLLBACK_FAILED");
    reveal_strlit("IMPORT_ROLLBACK_COMPLETE");
}

/// No two statuses share a wire name, so a wire name decides its status.
pub proof fn lemma_wire_name_decides_status(a: ResourceStatus, b: ResourceStatus)
    requires
        a.wire_name() == b.wire_name(),
    ensures
        a == b,
{
    lemma_shapes(a);
    lemma_shapes(b);
}

/// `named` finds the one status with the given wire name.
pub proof fn lemma_named_is_exact(text: Seq<char>)
    ensures
        forall|status: ResourceStatus|
            status.wire_name() == text ==> ResourceStatus::named(text) == Some(status),
{
    assert forall|status: ResourceStatus| status.wire_name() == text implies ResourceStatus::named(
        text,
    ) == Some(status) by {
        let chosen = choose|other: ResourceStatus| other.wire_name() == text;
        lemma_wire_name_decides_status(chosen, status);
    }
}

/// Every status has a wire name that is known, and reading it back yields the
/// same status: no status is lost on the wire.
pub proof fn lemma_every_status_is_known(status: ResourceStatus)
    ensures
        ResourceStatus::named(status.wire_name()) == Some(status),
{
    lemma_named_is_exact(status.wire_name());
}

/// A status is neutral exactly while work is under way, and an error is
/// exactly a negative status: what has come to rest has either succeeded or
/// failed, and a terminal status without error is positive.
pub proof fn lemma_sentiment_follows_phase(status: ResourceStatus)
    ensures
        !status.terminal() <==> status.sentiment_of() == StatusSentiment::Neutral,
        status.erroneous() <==> status.sentiment_of() == StatusSentiment::Negative,
        status.erroneous() ==> status.terminal(),
        status.terminal() && !status.erroneous() ==> status.sentiment_of()
            == StatusSentiment::Positive,
{
}

} // verus!
