//! Change sets: the plan of what an operation will do to a stack, shown to
//! the caller before anything is executed.

use vstd::prelude::*;
use crate::text::{chars_of, contains, contains_text, decimal, render_int, str_eq};

verus! {

/// Describes a set of changes that will be applied during deployment.
///
/// CloudFormation doesn't describe stack deletions with change sets. To keep
/// the API consistent, a `ChangeSet` carries an overall [`Effect`] on the
/// stack, which includes [`Delete`](Effect::Delete) as a possibility. The
/// [`ResourceChange`]s of a deletion are made up from the resources that the
/// stack holds, on the assumption that all of them will be removed.
#[derive(Debug)]
pub struct ChangeSet {
    /// The aggregate effect of the change set on the stack.
    pub effect: Effect,
    /// The name of the stack the change set will be applied to.
    pub stack_name: String,
    /// The ID of the stack the change set will be applied to.
    pub stack_id: String,
    /// The changes that will be applied to resources during deployment.
    pub resource_changes: Vec<ResourceChange>,
}

/// The aggregate effect a [`ChangeSet`] will have on a CloudFormation stack.
#[derive(Debug)]
pub enum Effect {
    /// The change set will do nothing.
    Skip,
    /// The change set will create a new stack.
    Create { id: String },
    /// The change set will update an existing stack.
    Update { id: String },
    /// The change set will delete an existing stack.
    Delete,
}

/// Describes a single change in a [`ChangeSet`].
#[derive(Debug)]
pub struct ResourceChange {
    /// The action that will be applied.
    pub action: ResourceAction,
    /// The logical resource ID of the affected resource.
    pub logical_resource_id: String,
    /// The physical resource ID of the affected resource.
    ///
    /// This will be `None` for new resources or resources in an error state.
    pub physical_resource_id: Option<String>,
    /// The type of the affected resource.
    pub resource_type: String,
}

/// An action that CloudFormation will apply during deployment of a [`ChangeSet`].
#[derive(Clone, Copy, Debug, PartialEq, Eq, Structural)]
pub enum ResourceAction {
    /// Add a new resource to the stack.
    Add,
    /// Modify an existing resource in the stack.
    Modify,
    /// Remove a resource from the stack.
    Remove,
}

/// Whether a change set is to create a stack or to update one.
#[derive(Clone, Copy, Debug, PartialEq, Eq, Structural)]
pub enum ChangeSetType {
    Create,
    Update,
}

/// One change of a change set as the service reports it.
#[derive(Debug)]
pub struct ChangeRecord {
    pub resource_change: Option<ResourceChangeRecord>,
}

/// The resource part of a [`ChangeRecord`].
#[derive(Debug)]
pub struct ResourceChangeRecord {
    pub action: Option<String>,
    pub logical_resource_id: Option<String>,
    pub physical_resource_id: Option<String>,
    pub resource_type: Option<String>,
}

/// A resource of a stack as the service reports it.
#[derive(Debug)]
pub struct StackResourceRecord {
    pub logical_resource_id: String,
    pub physical_resource_id: Option<String>,
    pub resource_type: String,
}

/// A change set as `DescribeChangeSet` reports it.
#[derive(Debug)]
pub struct ChangeSetDescription {
    pub status: Option<String>,
    pub execution_status: Option<String>,
    pub status_reason: Option<String>,
    pub changes: Option<Vec<ChangeRecord>>,
}

/// Why a reported change could not be read.
#[derive(Debug)]
pub enum ChangeError {
    MissingResourceChange,
    MissingAction,
    /// The action is none that this library knows; the text is kept.
    UnknownAction(String),
    MissingLogicalResourceId,
    MissingResourceType,
}

/// Why no change set came of a description.
#[derive(Debug)]
pub enum ChangeSetError {
    /// The change set settled in a state from which it cannot be executed,
    /// and not because it was empty.
    CreateChangeSetFailed { status: String, status_reason: Option<String> },
    /// The description carries no status.
    MissingStatus,
    /// The description of an executable change set carries no changes.
    MissingChanges,
    /// One of the changes could not be read.
    Malformed(ChangeError),
}

/// A [`ChangeSet`] with its changes as a sequence.
pub struct ChangeSetView {
    pub effect: Effect,
    pub stack_name: String,
    pub stack_id: String,
    pub resource_changes: Seq<ResourceChange>,
}

impl View for ChangeSet {
    type V = ChangeSetView;

    open spec fn view(&self) -> ChangeSetView {
        ChangeSetView {
            effect: self.effect,
            stack_name: self.stack_name,
            stack_id: self.stack_id,
            resource_changes: self.resource_changes@,
        }
    }
}

impl ChangeSetView {
    /// What every change set keeps to: one that skips changes nothing, and
    /// one that deletes only removes.
    ///
    /// The converse of the first does not hold: a plan without changes need
    /// not skip. A change set that the service holds ready is executed even
    /// where it lists no change to a resource, and a stack without resources
    /// is deleted all the same.
    pub open spec fn well_formed(self) -> bool {
        &&& self.effect is Skip ==> self.resource_changes.len() == 0
        &&& self.effect is Delete ==> forall|i: int|
            0 <= i < self.resource_changes.len() ==> (
            #[trigger] self.resource_changes[i]).action == ResourceAction::Remove
    }
}

impl Effect {
    /// The name of the effect.
    pub open spec fn name(self) -> Seq<char> {
        match self {
            Effect::Skip => "Skip"@,
            Effect::Create { .. } => "Create"@,
            Effect::Update { .. } => "Update"@,
            Effect::Delete => "Delete"@,
        }
    }

    /// The name of the effect.
    pub fn as_str(&self) -> (r: &'static str)
        ensures
            r@ == self.name(),
    {
        match self {
            Self::Skip => "Skip",
            Self::Create { .. } => "Create",
            Self::Update { .. } => "Update",
            Self::Delete => "Delete",
        }
    }

    /// The name of the effect, owned.
    pub fn to_string(&self) -> (r: String)
        ensures
            r@ == self.name(),
    {
        self.as_str().to_owned()
    }
}

impl ResourceAction {
    /// The name of the action, as the service spells it.
    pub open spec fn name(self) -> Seq<char> {
        match self {
            ResourceAction::Add => "Add"@,
            ResourceAction::Modify => "Modify"@,
            ResourceAction::Remove => "Remove"@,
        }
    }

    /// The action that `text` names, if any.
    pub open spec fn named(text: Seq<char>) -> Option<ResourceAction> {
        if text == "Add"@ {
            Some(ResourceAction::Add)
        } else if text == "Modify"@ {
            Some(ResourceAction::Modify)
        } else if text == "Remove"@ {
            Some(ResourceAction::Remove)
        } else {
            None
        }
    }

    /// The name of the action.
    pub fn as_str(&self) -> (r: &'static str)
        ensures
            r@ == self.name(),
    {
        match self {
            Self::Add => "Add",
            Self::Modify => "Modify",
            Self::Remove => "Remove",
        }
    }

    /// The name of the action, owned.
    pub fn to_string(&self) -> (r: String)
        ensures
            r@ == self.name(),
    {
        self.as_str().to_owned()
    }

    /// Reads the name of an action. A string that names none is handed back
    /// as the error.
    pub fn from_str(action: &str) -> (r: Result<ResourceAction, String>)
        ensures
            match r {
                Ok(found) => Self::named(action@) == Some(found),
                Err(unknown) => unknown@ == action@ && Self::named(action@).is_none(),
            },
    {
        if str_eq(action, "Add") {
            Ok(Self::Add)
        } else if str_eq(action, "Modify") {
            Ok(Self::Modify)
        } else if str_eq(action, "Remove") {
            Ok(Self::Remove)
        } else {
            Err(action.to_owned())
        }
    }
}

/// Reading the name of an action gives that action back.
pub proof fn lemma_action_name_reads_back(action: ResourceAction)
    ensures
        ResourceAction::named(action.name()) == Some(action),
{
    reveal_strlit("Add");
    reveal_strlit("Modify");
    reveal_strlit("Remove");
    assert("Modify"@[0] == 'M' && "Remove"@[0] == 'R');
}

impl ChangeSetType {
    /// The name that `CreateChangeSet` takes for this type.
    pub open spec fn wire_name(self) -> Seq<char> {
        match self {
            ChangeSetType::Create => "CREATE"@,
            ChangeSetType::Update => "UPDATE"@,
        }
    }

    /// The name that `CreateChangeSet` takes for this type.
    pub fn as_str(&self) -> (r: &'static str)
        ensures
            r@ == self.wire_name(),
    {
        match self {
            Self::Create => "CREATE",
            Self::Update => "UPDATE",
        }
    }
}

impl ResourceChange {
    /// What `change` reads as. The first defect in field order decides the
    /// error.
    pub open spec fn read(change: ChangeRecord) -> Result<ResourceChange, ChangeError> {
        match change.resource_change {
            None => Err(ChangeError::MissingResourceChange),
            Some(resource) => {
                if resource.action is None {
                    Err(ChangeError::MissingAction)
                } else if ResourceAction::named(resource.action->0@) is None {
                    Err(ChangeError::UnknownAction(resource.action->0))
                } else if resource.logical_resource_id is None {
                    Err(ChangeError::MissingLogicalResourceId)
                } else if resource.resource_type is None {
                    Err(ChangeError::MissingResourceType)
                } else {
                    Ok(
                        ResourceChange {
                            action: ResourceAction::named(resource.action->0@)->0,
                            logical_resource_id: resource.logical_resource_id->0,
                            physical_resource_id: resource.physical_resource_id,
                            resource_type: resource.resource_type->0,
                        },
                    )
                }
            },
        }
    }

    /// The removal of `resource`: what deleting its stack does to it.
    pub open spec fn removal_of(resource: StackResourceRecord) -> ResourceChange {
        ResourceChange {
            action: ResourceAction::Remove,
            logical_resource_id: resource.logical_resource_id,
            physical_resource_id: resource.physical_resource_id,
            resource_type: resource.resource_type,
        }
    }

    /// The change that a record stands for.
    ///
    /// The record has to be one that the service may send: the resource
    /// change present, with an action that is known, a logical ID and a type.
    /// For records of which that is not known, there is
    /// [`ResourceChange::try_from_native`].
    pub fn from_native(change: ChangeRecord) -> (read: ResourceChange)
        requires
            Self::read(change) is Ok,
        ensures
            Self::read(change) == Ok::<ResourceChange, ChangeError>(read),
    {
        Self::try_from_native(change).unwrap()
    }

    /// Reads a change as the service reports it: the change that it stands
    /// for, or what is wrong with it.
    pub fn try_from_native(change: ChangeRecord) -> (r: Result<ResourceChange, ChangeError>)
        ensures
            r == Self::read(change),
    {
        let resource = match change.resource_change {
            Some(resource) => resource,
            None => {
                return Err(ChangeError::MissingResourceChange);
            },
        };
        let action_text = match resource.action {
            Some(text) => text,
            None => {
                return Err(ChangeError::MissingAction);
            },
        };
        let action = match ResourceAction::from_str(action_text.as_str()) {
            Ok(action) => action,
            Err(_) => {
                return Err(ChangeError::UnknownAction(action_text));
            },
        };
        let logical_resource_id = match resource.logical_resource_id {
            Some(id) => id,
            None => {
                return Err(ChangeError::MissingLogicalResourceId);
            },
        };
        let resource_type = match resource.resource_type {
            Some(resource_type) => resource_type,
            None => {
                return Err(ChangeError::MissingResourceType);
            },
        };
        Ok(
            ResourceChange {
                action,
                logical_resource_id,
                physical_resource_id: resource.physical_resource_id,
                resource_type,
            },
        )
    }
}

/// What a list of reported changes reads as: each change read in turn, or
/// the error of the first that cannot be read.
pub open spec fn read_changes(changes: Seq<ChangeRecord>) -> Result<
    Seq<ResourceChange>,
    ChangeError,
>
    decreases changes.len(),
{
    if changes.len() == 0 {
        Ok(Seq::empty())
    } else {
        match read_changes(changes.drop_last()) {
            Err(error) => Err(error),
            Ok(read) => match ResourceChange::read(changes.last()) {
                Err(error) => Err(error),
                Ok(change) => Ok(read.push(change)),
            },
        }
    }
}

proof fn lemma_read_changes_fails_on(changes: Seq<ChangeRecord>, n: int)
    requires
        0 <= n <= changes.len(),
        read_changes(changes.take(n)) is Err,
    ensures
        read_changes(changes) == read_changes(changes.take(n)),
    decreases changes.len() - n,
{
    if n < changes.len() {
        assert(changes.take(n + 1).drop_last() =~= changes.take(n));
        lemma_read_changes_fails_on(changes, n + 1);
    } else {
        assert(changes.take(n) =~= changes);
    }
}

/// Reads a list of reported changes, in order.
pub fn convert_changes(changes: Vec<ChangeRecord>) -> (r: Result<Vec<ResourceChange>, ChangeError>)
    ensures
        match r {
            Ok(read) => read_changes(changes@) == Ok::<Seq<ResourceChange>, ChangeError>(read@),
            Err(error) => read_changes(changes@) == Err::<Seq<ResourceChange>, ChangeError>(error),
        },
{
    let ghost all = changes@;
    let total: usize = changes.len();
    let mut read: Vec<ResourceChange> = Vec::new();
    let mut count: usize = 0;
    for change in it: changes
        invariant
            it.seq() == all,
            count == it.index(),
            all.len() == total,
            read_changes(all.take(count as int)) == Ok::<Seq<ResourceChange>, ChangeError>(read@),
    {
        assert(all.take(count + 1).drop_last() =~= all.take(count as int));
        match ResourceChange::try_from_native(change) {
            Ok(change) => {
                read.push(change);
            },
            Err(error) => {
                proof {
                    lemma_read_changes_fails_on(all, count + 1);
                }
                return Err(error);
            },
        }
        count += 1;
    }
    assert(all.take(count as int) =~= all);
    Ok(read)
}

/// The name under which a change set is created at `unix_seconds`.
pub open spec fn change_set_name_at(unix_seconds: int) -> Seq<char> {
    "cfn-deploy-"@ + decimal(unix_seconds)
}

/// The name for a change set created at `unix_seconds`, seconds since the
/// Unix epoch: unique as long as no two are created within one second.
pub fn change_set_name(unix_seconds: i64) -> (r: String)
    ensures
        r@ == change_set_name_at(unix_seconds as int),
{
    let mut name = "cfn-deploy-".to_owned();
    let stamp = render_int(unix_seconds);
    name.append(stamp.as_str());
    name
}

/// The reason says that a change set failed only for want of changes.
pub open spec fn reports_no_changes(reason: Seq<char>) -> bool {
    contains_text(reason, "didn't contain changes"@) || contains_text(
        reason,
        "No updates are to be performed"@,
    )
}

/// Whether the reason says that a change set failed only for want of changes.
pub fn is_no_changes_reason(reason: &str) -> (r: bool)
    ensures
        r == reports_no_changes(reason@),
{
    let text = chars_of(reason);
    let first = chars_of("didn't contain changes");
    if contains(&text, &first) {
        return true;
    }
    let second = chars_of("No updates are to be performed");
    contains(&text, &second)
}

impl ChangeSetDescription {
    /// The change set is still being created.
    pub open spec fn pending(self) -> bool {
        self.status matches Some(status) && (status@ == "CREATE_PENDING"@ || status@
            == "CREATE_IN_PROGRESS"@)
    }

    /// The change set can be executed.
    pub open spec fn available(self) -> bool {
        self.execution_status matches Some(status) && status@ == "AVAILABLE"@
    }

    /// The change set failed only for want of changes.
    pub open spec fn empty(self) -> bool {
        &&& self.status matches Some(status) && status@ == "FAILED"@
        &&& self.status_reason matches Some(reason) && reports_no_changes(reason@)
    }

    /// Whether the change set is still being created, so that it has to be
    /// described again.
    pub fn is_pending(&self) -> (r: bool)
        ensures
            r == self.pending(),
    {
        match &self.status {
            Some(status) => str_eq(status.as_str(), "CREATE_PENDING") || str_eq(
                status.as_str(),
                "CREATE_IN_PROGRESS",
            ),
            None => false,
        }
    }

    /// Whether the change set can be executed.
    pub fn is_available(&self) -> (r: bool)
        ensures
            r == self.available(),
    {
        match &self.execution_status {
            Some(status) => str_eq(status.as_str(), "AVAILABLE"),
            None => false,
        }
    }

    /// Whether the change set failed only for want of changes.
    pub fn is_empty(&self) -> (r: bool)
        ensures
            r == self.empty(),
    {
        let failed = match &self.status {
            Some(status) => str_eq(status.as_str(), "FAILED"),
            None => false,
        };
        if !failed {
            return false;
        }
        match &self.status_reason {
            Some(reason) => is_no_changes_reason(reason.as_str()),
            None => false,
        }
    }
}

impl ChangeSet {
    /// The effect of executing the change set `id` of the given type.
    pub open spec fn effect_of(kind: ChangeSetType, id: String) -> Effect {
        match kind {
            ChangeSetType::Create => Effect::Create { id },
            ChangeSetType::Update => Effect::Update { id },
        }
    }

    /// What comes of a change set that has left the pending state.
    ///
    /// One that can be executed becomes a plan with the changes it reports. One
    /// that failed for want of changes becomes a plan that skips. Any other is
    /// a failure, reported with its status and reason.
    ///
    /// Whether a plan skips is decided by the service's word alone, never by
    /// counting changes: a change set that can be executed becomes a plan to
    /// create or to update even where it reports no changes, since it may
    /// still change what is no resource.
    pub open spec fn resolved(
        description: ChangeSetDescription,
        kind: ChangeSetType,
        id: String,
        stack_id: String,
        stack_name: String,
    ) -> Result<ChangeSetView, ChangeSetError> {
        if description.available() {
            match description.changes {
                None => Err(ChangeSetError::MissingChanges),
                Some(changes) => match read_changes(changes@) {
                    Err(error) => Err(ChangeSetError::Malformed(error)),
                    Ok(resource_changes) => Ok(
                        ChangeSetView {
                            effect: Self::effect_of(kind, id),
                            stack_name,
                            stack_id,
                            resource_changes,
                        },
                    ),
                },
            }
        } else if description.status is None {
            Err(ChangeSetError::MissingStatus)
        } else if description.empty() {
            Ok(
                ChangeSetView {
                    effect: Effect::Skip,
                    stack_name,
                    stack_id,
                    resource_changes: Seq::empty(),
                },
            )
        } else {
            Err(
                ChangeSetError::CreateChangeSetFailed {
                    status: description.status->0,
                    status_reason: description.status_reason,
                },
            )
        }
    }

    /// The plan for deleting a stack that holds `resources`.
    pub open spec fn deletion(
        stack_id: String,
        stack_name: String,
        resources: Seq<StackResourceRecord>,
    ) -> ChangeSetView {
        ChangeSetView {
            effect: Effect::Delete,
            stack_name,
            stack_id,
            resource_changes: resources.map_values(
                |resource: StackResourceRecord| ResourceChange::removal_of(resource),
            ),
        }
    }

    /// Makes the plan of a change set that has left the pending state.
    pub fn resolve(
        description: ChangeSetDescription,
        kind: ChangeSetType,
        id: String,
        stack_id: String,
        stack_name: String,
    ) -> (r: Result<ChangeSet, ChangeSetError>)
        ensures
            match r {
                Ok(change_set) => Self::resolved(description, kind, id, stack_id, stack_name)
                    == Ok::<ChangeSetView, ChangeSetError>(change_set@),
                Err(error) => Self::resolved(description, kind, id, stack_id, stack_name)
                    == Err::<ChangeSetView, ChangeSetError>(error),
            },
            r matches Ok(change_set) ==> change_set@.well_formed(),
    {
        if description.is_available() {
            let changes = match description.changes {
                Some(changes) => changes,
                None => {
                    return Err(ChangeSetError::MissingChanges);
                },
            };
            let resource_changes = match convert_changes(changes) {
                Ok(read) => read,
                Err(error) => {
                    return Err(ChangeSetError::Malformed(error));
                },
            };
            let effect = match kind {
                ChangeSetType::Create => Effect::Create { id },
                ChangeSetType::Update => Effect::Update { id },
            };
            Ok(ChangeSet { effect, stack_name, stack_id, resource_changes })
        } else {
            let empty = description.is_empty();
            let status = match description.status {
                Some(status) => status,
                None => {
                    return Err(ChangeSetError::MissingStatus);
                },
            };
            if empty {
                Ok(
                    ChangeSet {
                        effect: Effect::Skip,
                        stack_name,
                        stack_id,
                        resource_changes: Vec::new(),
                    },
                )
            } else {
                Err(
                    ChangeSetError::CreateChangeSetFailed {
                        status,
                        status_reason: description.status_reason,
                    },
                )
            }
        }
    }

    /// Makes the plan for deleting a stack from the resources that it holds.
    ///
    /// The service has no change sets for deletions, so the plan is made up:
    /// one removal for each resource, in the order given.
    pub fn for_delete(stack_id: String, stack_name: String, resources: Vec<StackResourceRecord>) -> (r:
        ChangeSet)
        ensures
            r@ == Self::deletion(stack_id, stack_name, resources@),
            r@.well_formed(),
    {
        let ghost all = resources@;
        let mut resource_changes: Vec<ResourceChange> = Vec::new();
        for resource in it: resources
            invariant
                it.seq() == all,
                resource_changes@ == all.take(it.index() as int).map_values(
                    |resource: StackResourceRecord| ResourceChange::removal_of(resource),
                ),
        {
            resource_changes.push(
                ResourceChange {
                    action: ResourceAction::Remove,
                    logical_resource_id: resource.logical_resource_id,
                    physical_resource_id: resource.physical_resource_id,
                    resource_type: resource.resource_type,
                },
            );
        }
        assert(all.take(all.len() as int) =~= all);
        ChangeSet { effect: Effect::Delete, stack_name, stack_id, resource_changes }
    }
}

/// Which plans can be empty.
///
/// A plan skips exactly when its change set cannot be executed, and then it
/// is empty. A plan to create or to update holds the changes that the
/// service reports, be they none: an empty plan need not skip.
pub proof fn lemma_which_plans_are_empty(
    description: ChangeSetDescription,
    kind: ChangeSetType,
    id: String,
    stack_id: String,
    stack_name: String,
)
    ensures
        ChangeSet::resolved(description, kind, id, stack_id, stack_name) matches Ok(plan) ==> {
            &&& plan.well_formed()
            &&& plan.effect is Skip <==> !description.available()
            &&& plan.effect is Skip ==> description.empty() && plan.resource_changes.len() == 0
            &&& !(plan.effect is Skip) ==> plan.effect == ChangeSet::effect_of(kind, id)
                && read_changes(description.changes->0@) == Ok::<
                Seq<ResourceChange>,
                ChangeError,
            >(plan.resource_changes)
        },
        description.available() && description.changes is Some && description.changes->0@.len()
            == 0 ==> ChangeSet::resolved(description, kind, id, stack_id, stack_name) == Ok::<
            ChangeSetView,
            ChangeSetError,
        >(
            ChangeSetView {
                effect: ChangeSet::effect_of(kind, id),
                stack_name,
                stack_id,
                resource_changes: Seq::empty(),
            },
        ),
{
}

/// The plan of a deletion removes every resource of the stack and nothing
/// else; for a stack without resources it is a deletion without changes.
pub proof fn lemma_deletion_removes_everything(
    stack_id: String,
    stack_name: String,
    resources: Seq<StackResourceRecord>,
)
    ensures
        ({
            let plan = ChangeSet::deletion(stack_id, stack_name, resources);
            &&& plan.well_formed()
            &&& plan.effect is Delete
            &&& plan.resource_changes.len() == resources.len()
            &&& resources.len() == 0 ==> plan.resource_changes.len() == 0
        }),
{
}

} // verus!
