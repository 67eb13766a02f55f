//! Words for the operator: hints drawn from status reasons, lists of names,
//! and the widths of the columns in which events are printed.

use vstd::prelude::*;
use vstd::utf8::encode_utf8;
use crate::change_set::ChangeSet;
use crate::events::StackEvent;
use crate::outcome::{error_views, ResourceError, ResourceErrorView};
use crate::reason::{texts, ReasonShape, StatusReasonDetail};
use crate::status::ResourceStatus;
use crate::text::{decimal_nat, render_nat};

verus! {

/// `items` joined by `separator`.
pub open spec fn joined(items: Seq<Seq<char>>, separator: Seq<char>) -> Seq<char>
    decreases items.len(),
{
    if items.len() == 0 {
        Seq::empty()
    } else if items.len() == 1 {
        items[0]
    } else {
        joined(items.drop_last(), separator) + separator + items.last()
    }
}

/// What stands before item `i` in a list of `n` items written out in
/// English: a comma, and before the last item the word `and`; between two
/// items only the `and`.
pub open spec fn separator_before(i: int, n: int) -> Seq<char> {
    if i + 1 < n {
        ", "@
    } else if n == 2 {
        " and "@
    } else {
        ", and "@
    }
}

/// The first `k` of `items`, as they stand in the list of all of them
/// written out in English.
pub open spec fn listing_of(items: Seq<Seq<char>>, k: int) -> Seq<char>
    decreases k,
{
    if k <= 0 {
        Seq::empty()
    } else if k == 1 {
        items[0]
    } else {
        listing_of(items, k - 1) + separator_before(k - 1, items.len() as int) + items[k - 1]
    }
}

/// `items` written out as a list in English: `1`, `1 and 2`, `1, 2, and 3`.
pub open spec fn listing(items: Seq<Seq<char>>) -> Seq<char> {
    listing_of(items, items.len() as int)
}

/// Joins `items` with `separator` between them.
pub fn join(items: &[String], separator: &str) -> (r: String)
    ensures
        r@ == joined(texts(items@), separator@),
{
    let mut out = String::new();
    let mut i: usize = 0;
    while i < items.len()
        invariant
            i <= items.len(),
            out@ == joined(texts(items@).take(i as int), separator@),
        decreases items.len() - i,
    {
        if i > 0 {
            out.append(separator);
        }
        out.append(items[i].as_str());
        proof {
            let all = texts(items@);
            assert(all.take(i + 1).drop_last() =~= all.take(i as int));
        }
        i += 1;
    }
    assert(texts(items@).take(items.len() as int) =~= texts(items@));
    out
}

/// Writes `items` out as a list in English.
pub fn display_list(items: &[String]) -> (r: String)
    ensures
        r@ == listing(texts(items@)),
{
    let n: usize = items.len();
    let mut out = String::new();
    let mut seen: usize = 0;
    while seen < n
        invariant
            seen <= n,
            n == items@.len(),
            out@ == listing_of(texts(items@), seen as int),
        decreases n - seen,
    {
        if seen > 0 {
            let more = seen + 1 < n;
            if seen > 1 || more {
                out.append(",");
            }
            if !more {
                out.append(" and");
            }
            out.append(" ");
        }
        out.append(items[seen].as_str());
        proof {
            reveal_strlit(",");
            reveal_strlit(" and");
            reveal_strlit(" ");
            reveal_strlit(", ");
            reveal_strlit(" and ");
            reveal_strlit(", and ");
            assert(","@ + " "@ =~= ", "@);
        }
        seen += 1;
    }
    out
}

/// The hint that goes with what a status reason says, if any goes with it.
pub open spec fn hint_for(shape: ReasonShape) -> Option<Seq<char>> {
    match shape {
        ReasonShape::CreationCancelled => Some("See preceding resource errors"@),
        ReasonShape::MissingPermission { principal, permission } => Some(
            "Give "@ + (match principal {
                Some(who) => who,
                None => "yourself"@,
            }) + " the "@ + permission + " permission"@,
        ),
        ReasonShape::ResourceErrors { logical_resource_ids } => Some(
            "See resource error(s) for "@ + joined(logical_resource_ids, ", "@),
        ),
        ReasonShape::Other(_) => None,
    }
}

/// The hint that goes with what a status reason says, if any goes with it.
pub fn get_hint(detail: &StatusReasonDetail) -> (r: Option<String>)
    ensures
        match r {
            Some(hint) => hint_for(detail@) == Some(hint@),
            None => hint_for(detail@).is_none(),
        },
{
    match detail {
        StatusReasonDetail::CreationCancelled => Some("See preceding resource errors".to_owned()),
        StatusReasonDetail::MissingPermission { principal, permission } => {
            let mut hint = "Give ".to_owned();
            match principal {
                Some(who) => {
                    hint.append(who.as_str());
                },
                None => {
                    hint.append("yourself");
                },
            }
            hint.append(" the ");
            hint.append(permission.as_str());
            hint.append(" permission");
            Some(hint)
        },
        StatusReasonDetail::ResourceErrors { logical_resource_ids } => {
            let mut hint = "See resource error(s) for ".to_owned();
            let ids = join(logical_resource_ids.as_slice(), ", ");
            hint.append(ids.as_str());
            Some(hint)
        },
        StatusReasonDetail::Other(_) => None,
    }
}

/// The label under which a status is printed: its wire name, but for the two
/// longest, which are cut short.
pub open spec fn label_of(status: ResourceStatus) -> Seq<char> {
    match status {
        ResourceStatus::UpdateCompleteCleanupInProgress => "UPDATE_CLEANUP_IN_PROGRESS"@,
        ResourceStatus::UpdateRollbackCompleteCleanupInProgress => "ROLLBACK_CLEANUP_IN_PROGRESS"@,
        _ => status.wire_name(),
    }
}

/// The label under which a status is printed.
pub fn status_label(status: ResourceStatus) -> (r: &'static str)
    ensures
        r@ == label_of(status),
{
    match status {
        ResourceStatus::UpdateCompleteCleanupInProgress => "UPDATE_CLEANUP_IN_PROGRESS",
        ResourceStatus::UpdateRollbackCompleteCleanupInProgress => "ROLLBACK_CLEANUP_IN_PROGRESS",
        _ => status.as_str(),
    }
}

/// The width of the text in a terminal column: its length in bytes.
pub open spec fn width(text: Seq<char>) -> usize {
    encode_utf8(text).len() as usize
}

/// The widths of the columns in which events are printed.
#[derive(Clone, Copy, Debug, PartialEq, Eq, Structural)]
pub struct Sizing {
    pub resource_status: usize,
    pub logical_resource_id: usize,
    pub resource_type: usize,
}

/// The width of the status column: that of the widest label.
pub const STATUS_WIDTH: usize = 28;

/// The least width of the type column: that of the type of a stack.
pub const TYPE_WIDTH: usize = 26;

impl Default for Sizing {
    /// The widths for events of which nothing is known beforehand.
    fn default() -> (r: Sizing)
        ensures
            r.resource_status == STATUS_WIDTH,
            r.logical_resource_id == 0,
            r.resource_type == TYPE_WIDTH,
    {
        Sizing {
            resource_status: STATUS_WIDTH,
            logical_resource_id: 0,
            resource_type: TYPE_WIDTH,
        }
    }
}

impl Sizing {
    /// The widths for the events of a plan: the ID column takes the widest
    /// logical ID of the plan and the name of the stack, the type column the
    /// widest type of the plan and no less than its least width.
    pub fn new_for_change_set(change_set: &ChangeSet) -> (r: Sizing)
        ensures
            r.resource_status == STATUS_WIDTH,
            r.logical_resource_id >= width(change_set.stack_name@),
            r.resource_type >= TYPE_WIDTH,
            forall|i: int|
                0 <= i < change_set.resource_changes@.len() ==> {
                    &&& r.logical_resource_id >= width(
                        (#[trigger] change_set.resource_changes@[i]).logical_resource_id@,
                    )
                    &&& r.resource_type >= width(change_set.resource_changes@[i].resource_type@)
                },
            r.logical_resource_id == width(change_set.stack_name@) || exists|i: int|
                0 <= i < change_set.resource_changes@.len() && r.logical_resource_id == width(
                    (#[trigger] change_set.resource_changes@[i]).logical_resource_id@,
                ),
            r.resource_type == TYPE_WIDTH || exists|i: int|
                0 <= i < change_set.resource_changes@.len() && r.resource_type == width(
                    (#[trigger] change_set.resource_changes@[i]).resource_type@,
                ),
    {
        let changes = &change_set.resource_changes;
        let mut logical_resource_id: usize = change_set.stack_name.as_str().len();
        let mut resource_type: usize = TYPE_WIDTH;
        let mut k: usize = 0;
        while k < changes.len()
            invariant
                k <= changes.len(),
                changes == &change_set.resource_changes,
                logical_resource_id >= width(change_set.stack_name@),
                resource_type >= TYPE_WIDTH,
                forall|i: int|
                    0 <= i < k ==> {
                        &&& logical_resource_id >= width(
                            (#[trigger] changes@[i]).logical_resource_id@,
                        )
                        &&& resource_type >= width(changes@[i].resource_type@)
                    },
                logical_resource_id == width(change_set.stack_name@) || exists|i: int|
                    0 <= i < k && logical_resource_id == width(
                        (#[trigger] changes@[i]).logical_resource_id@,
                    ),
                resource_type == TYPE_WIDTH || exists|i: int|
                    0 <= i < k && resource_type == width((#[trigger] changes@[i]).resource_type@),
            decreases changes.len() - k,
        {
            let id_width = changes[k].logical_resource_id.as_str().len();
            if id_width > logical_resource_id {
                logical_resource_id = id_width;
            }
            let type_width = changes[k].resource_type.as_str().len();
            if type_width > resource_type {
                resource_type = type_width;
            }
            k += 1;
        }
        Sizing { resource_status: STATUS_WIDTH, logical_resource_id, resource_type }
    }
}

/// Every label fits the status column.
pub proof fn lemma_labels_fit(status: ResourceStatus)
    ensures
        label_of(status).len() <= STATUS_WIDTH,
{
    reveal_strlit("UPDATE_CLEANUP_IN_PROGRESS");
    reveal_strlit("ROLLBACK_CLEANUP_IN_PROGRESS");
    reveal_strlit("CREATE_IN_PROGRESS");
    reveal_strlit("CREATE_FAILED");
    reveal_strlit("CREATE_COMPLETE");
    reveal_strlit("ROLLBACK_IN_PROGRESS");
    reveal_strlit("ROLLBACK_FAILED");
    reveal_strlit("ROLLBACK_COMPLETE");
    reveal_strlit("DELETE_IN_PROGRESS");
    reveal_strlit("DELETE_FAILED");
    reveal_strlit("DELETE_COMPLETE");
    reveal_strlit("DELETE_SKIPPED");
    reveal_strlit("UPDATE_IN_PROGRESS");
    reveal_strlit("UPDATE_COMPLETE");
    reveal_strlit("UPDATE_FAILED");
    reveal_strlit("UPDATE_ROLLBACK_IN_PROGRESS");
    reveal_strlit("UPDATE_ROLLBACK_FAILED");
    reveal_strlit("UPDATE_ROLLBACK_COMPLETE");
    reveal_strlit("REVIEW_IN_PROGRESS");
    reveal_strlit("IMPORT_IN_PROGRESS");
    reveal_strlit("IMPORT_COMPLETE");
    reveal_strlit("IMPORT_FAILED");
    reveal_strlit("IMPORT_ROLLBACK_IN_PROGRESS");
    reveal_strlit("IMPORT_ROLLBACK_FAILED");
    reveal_strlit("IMPORT_ROLLBACK_COMPLETE");
}

/// The name under which the resource of an event is printed: its logical
/// ID, after the alias of its stack and a slash where the stack has one.
pub open spec fn resource_name(event: StackEvent) -> Seq<char> {
    match event.stack_alias {
        Some(alias) => alias@ + "/"@ + event.logical_resource_id@,
        None => event.logical_resource_id@,
    }
}

/// The name under which the resource of an event is printed.
pub fn resource_label(event: &StackEvent) -> (r: String)
    ensures
        r@ == resource_name(*event),
{
    match &event.stack_alias {
        Some(alias) => {
            let mut name = alias.clone();
            name.append("/");
            name.append(event.logical_resource_id.as_str());
            name
        },
        None => event.logical_resource_id.clone(),
    }
}

/// How text is set off on a terminal: what is written before text in bold,
/// what before text in red, and what after either. Where all three are
/// empty, text stays plain.
#[derive(Debug)]
pub struct Style {
    pub bold: String,
    pub red: String,
    pub reset: String,
}

/// A [`Style`] as text.
pub struct StyleView {
    pub bold: Seq<char>,
    pub red: Seq<char>,
    pub reset: Seq<char>,
}

impl View for Style {
    type V = StyleView;

    open spec fn view(&self) -> StyleView {
        StyleView { bold: self.bold@, red: self.red@, reset: self.reset@ }
    }
}

impl StyleView {
    /// The style that leaves text plain.
    pub open spec fn plain() -> StyleView {
        StyleView { bold: Seq::empty(), red: Seq::empty(), reset: Seq::empty() }
    }

    /// `text` in bold.
    pub open spec fn in_bold(self, text: Seq<char>) -> Seq<char> {
        self.bold + text + self.reset
    }

    /// `text` in red.
    pub open spec fn in_red(self, text: Seq<char>) -> Seq<char> {
        self.red + text + self.reset
    }

    /// Each of `texts` in bold.
    pub open spec fn each_in_bold(self, texts: Seq<Seq<char>>) -> Seq<Seq<char>> {
        texts.map_values(|text: Seq<char>| self.in_bold(text))
    }
}

impl Style {
    /// The style that leaves text plain.
    pub fn plain() -> (r: Style)
        ensures
            r@ == StyleView::plain(),
    {
        Style { bold: String::new(), red: String::new(), reset: String::new() }
    }

    /// Adds `text` in bold to `out`.
    fn push_bold(&self, out: &mut String, text: &str)
        ensures
            final(out)@ == old(out)@ + self@.in_bold(text@),
    {
        out.append(self.bold.as_str());
        out.append(text);
        out.append(self.reset.as_str());
    }

    /// Adds `text` in red to `out`.
    fn push_red(&self, out: &mut String, text: &str)
        ensures
            final(out)@ == old(out)@ + self@.in_red(text@),
    {
        out.append(self.red.as_str());
        out.append(text);
        out.append(self.reset.as_str());
    }
}

/// The hint of [`hint_for`] as it is printed in `style`: who is to be given
/// what, and which resources to look at, stand in bold.
pub open spec fn styled_hint_for(shape: ReasonShape, style: StyleView) -> Option<Seq<char>> {
    match shape {
        ReasonShape::CreationCancelled => Some("See preceding resource errors"@),
        ReasonShape::MissingPermission { principal, permission } => Some(
            "Give "@ + (match principal {
                Some(who) => style.in_bold(who),
                None => "yourself"@,
            }) + " the "@ + style.in_bold(permission) + " permission"@,
        ),
        ReasonShape::ResourceErrors { logical_resource_ids } => Some(
            "See resource error(s) for "@ + joined(style.each_in_bold(logical_resource_ids), ", "@),
        ),
        ReasonShape::Other(_) => None,
    }
}

/// In the plain style a hint reads as it does without any style.
pub proof fn lemma_plain_hint(shape: ReasonShape)
    ensures
        styled_hint_for(shape, StyleView::plain()) == hint_for(shape),
{
    let plain = StyleView::plain();
    assert forall|text: Seq<char>| #[trigger] plain.in_bold(text) == text by {
        assert(plain.in_bold(text) =~= text);
    }
    match shape {
        ReasonShape::ResourceErrors { logical_resource_ids } => {
            assert(plain.each_in_bold(logical_resource_ids) =~= logical_resource_ids);
        },
        _ => {},
    }
}

/// The hint that goes with what a status reason says, as it is printed in
/// `style`.
pub fn get_styled_hint(detail: &StatusReasonDetail, style: &Style) -> (r: Option<String>)
    ensures
        match r {
            Some(hint) => styled_hint_for(detail@, style@) == Some(hint@),
            None => styled_hint_for(detail@, style@).is_none(),
        },
{
    match detail {
        StatusReasonDetail::CreationCancelled => Some("See preceding resource errors".to_owned()),
        StatusReasonDetail::MissingPermission { principal, permission } => {
            let mut hint = "Give ".to_owned();
            match principal {
                Some(who) => {
                    style.push_bold(&mut hint, who.as_str());
                },
                None => {
                    hint.append("yourself");
                },
            }
            hint.append(" the ");
            style.push_bold(&mut hint, permission.as_str());
            hint.append(" permission");
            Some(hint)
        },
        StatusReasonDetail::ResourceErrors { logical_resource_ids } => {
            let mut marked: Vec<String> = Vec::new();
            let mut i: usize = 0;
            while i < logical_resource_ids.len()
                invariant
                    i <= logical_resource_ids.len(),
                    texts(marked@) == style@.each_in_bold(
                        texts(logical_resource_ids@).take(i as int),
                    ),
                decreases logical_resource_ids.len() - i,
            {
                let mut id = String::new();
                style.push_bold(&mut id, logical_resource_ids[i].as_str());
                let ghost before = marked@;
                marked.push(id);
                assert(texts(marked@) =~= texts(before).push(id@));
                i += 1;
            }
            assert(texts(logical_resource_ids@).take(i as int) =~= texts(logical_resource_ids@));
            let mut hint = "See resource error(s) for ".to_owned();
            let ids = join(marked.as_slice(), ", ");
            hint.append(ids.as_str());
            Some(hint)
        },
        StatusReasonDetail::Other(_) => None,
    }
}

/// The reason as it is printed: `No reason` where there is none.
pub open spec fn reason_text(reason: Option<String>) -> Seq<char> {
    match reason {
        Some(text) => text@,
        None => "No reason"@,
    }
}

/// A line of a report: a label in bold, and what goes under it.
pub open spec fn labelled_line(label: Seq<char>, value: Seq<char>, style: StyleView) -> Seq<char> {
    "   "@ + style.in_bold(label) + " "@ + value + "\n"@
}

/// The line that gives the hint for `detail` under `label`, or nothing where
/// there is no hint.
pub open spec fn hint_line(
    label: Seq<char>,
    detail: Option<ReasonShape>,
    style: StyleView,
) -> Seq<char> {
    match detail {
        Some(shape) => match styled_hint_for(shape, style) {
            Some(hint) => labelled_line(label, hint, style),
            None => Seq::empty(),
        },
        None => Seq::empty(),
    }
}

/// The line that opens the paragraph on the resource error at `index`,
/// counted from zero and numbered from one.
pub open spec fn error_heading(index: nat, resource: Seq<char>, style: StyleView) -> Seq<char> {
    "\n"@ + decimal_nat(index + 1) + ". "@ + style.in_bold("Resource:"@) + " "@ + resource + "\n"@
}

/// The paragraph on the resource error at `index`: the resource, its type,
/// its status in red, the reason, and a hint where the reason gives one.
pub open spec fn error_paragraph(
    index: nat,
    error: ResourceErrorView,
    style: StyleView,
) -> Seq<char> {
    error_heading(index, error.event.logical_resource_id@, style) + labelled_line(
        "Type:    "@,
        error.event.resource_type@,
        style,
    ) + labelled_line(
        "Status:  "@,
        style.in_red(error.event.resource_status.wire_name()),
        style,
    ) + labelled_line(
        "Reason:  "@,
        reason_text(error.event.resource_status_reason),
        style,
    ) + hint_line("Hint:    "@, error.detail, style)
}

/// The paragraphs on the first `k` of `errors`.
pub open spec fn error_paragraphs(
    errors: Seq<ResourceErrorView>,
    k: int,
    style: StyleView,
) -> Seq<char>
    decreases k,
{
    if k <= 0 {
        Seq::empty()
    } else {
        error_paragraphs(errors, k - 1, style) + error_paragraph(
            (k - 1) as nat,
            errors[k - 1],
            style,
        )
    }
}

/// The head of a failure report: the stack, its status in red and the
/// reason, and a hint where the reason gives one.
pub open spec fn failure_head(
    stack_id: Seq<char>,
    stack_status: ResourceStatus,
    stack_status_reason: Option<String>,
    detail: Option<ReasonShape>,
    style: StyleView,
) -> Seq<char> {
    "Failed to apply stack "@ + style.in_bold(stack_id) + ":\n\n"@ + labelled_line(
        "Status:"@,
        style.in_red(stack_status.wire_name()),
        style,
    ) + labelled_line("Reason:"@, reason_text(stack_status_reason), style) + hint_line(
        "Hint:  "@,
        detail,
        style,
    )
}

/// What is printed of a failure: the head, and after it a numbered paragraph
/// on each resource error, if there are any.
pub open spec fn failure_text(
    stack_id: Seq<char>,
    stack_status: ResourceStatus,
    stack_status_reason: Option<String>,
    detail: Option<ReasonShape>,
    resource_errors: Seq<ResourceErrorView>,
    style: StyleView,
) -> Seq<char> {
    failure_head(stack_id, stack_status, stack_status_reason, detail, style)
        + if resource_errors.len() == 0 {
        Seq::empty()
    } else {
        "\nWhat went wrong? The following resource errors occurred during the operation:\n"@
            + error_paragraphs(resource_errors, resource_errors.len() as int, style)
    }
}

/// The view of a detail that may be missing.
pub open spec fn shape_of(detail: Option<StatusReasonDetail>) -> Option<ReasonShape> {
    match detail {
        Some(detail) => Some(detail@),
        None => None,
    }
}

/// The reason, or `No reason`.
fn reason_or_none(reason: &Option<String>) -> (r: &str)
    ensures
        r@ == reason_text(*reason),
{
    match reason {
        Some(text) => text.as_str(),
        None => "No reason",
    }
}

/// Adds a labelled line to `out`.
fn push_labelled(out: &mut String, label: &str, value: &str, style: &Style)
    ensures
        final(out)@ == old(out)@ + labelled_line(label@, value@, style@),
{
    out.append("   ");
    style.push_bold(out, label);
    out.append(" ");
    out.append(value);
    out.append("\n");
}

/// Adds a labelled line with a status in red to `out`.
fn push_status(out: &mut String, label: &str, status: ResourceStatus, style: &Style)
    ensures
        final(out)@ == old(out)@ + labelled_line(
            label@,
            style@.in_red(status.wire_name()),
            style@,
        ),
{
    let mut value = String::new();
    style.push_red(&mut value, status.as_str());
    push_labelled(out, label, value.as_str(), style);
}

/// Adds the hint line for `detail` to `out`.
fn push_hint(out: &mut String, label: &str, detail: &Option<StatusReasonDetail>, style: &Style)
    ensures
        final(out)@ == old(out)@ + hint_line(label@, shape_of(*detail), style@),
{
    let hint = match detail {
        Some(detail) => get_styled_hint(detail, style),
        None => None,
    };
    if let Some(hint) = hint {
        push_labelled(out, label, hint.as_str(), style);
    }
}

/// Adds the line that opens the paragraph on a resource error to `out`.
fn push_heading(out: &mut String, index: usize, resource: &str, style: &Style)
    requires
        index < usize::MAX,
    ensures
        final(out)@ == old(out)@ + error_heading(index as nat, resource@, style@),
{
    let number = render_nat((index + 1) as u64);
    out.append("\n");
    out.append(number.as_str());
    out.append(". ");
    style.push_bold(out, "Resource:");
    out.append(" ");
    out.append(resource);
    out.append("\n");
}

/// Adds the paragraph on one resource error to `out`.
fn push_error(out: &mut String, index: usize, error: &ResourceError, style: &Style)
    requires
        index < usize::MAX,
    ensures
        final(out)@ == old(out)@ + error_paragraph(index as nat, error@, style@),
{
    push_heading(out, index, error.event.logical_resource_id.as_str(), style);
    push_labelled(out, "Type:    ", error.event.resource_type.as_str(), style);
    push_status(out, "Status:  ", error.event.resource_status, style);
    push_labelled(out, "Reason:  ", reason_or_none(&error.event.resource_status_reason), style);
    push_hint(out, "Hint:    ", &error.detail, style);
}

/// Writes the report of a failure for the operator: what became of the
/// stack and why, and what went wrong with which resource. Labels and the
/// stack stand in bold and statuses in red, as `style` has them.
pub fn failure_report(
    stack_id: &str,
    stack_status: ResourceStatus,
    stack_status_reason: &Option<String>,
    detail: &Option<StatusReasonDetail>,
    resource_errors: &Vec<ResourceError>,
    style: &Style,
) -> (r: String)
    ensures
        r@ == failure_text(
            stack_id@,
            stack_status,
            *stack_status_reason,
            shape_of(*detail),
            error_views(resource_errors@),
            style@,
        ),
{
    let mut out = "Failed to apply stack ".to_owned();
    style.push_bold(&mut out, stack_id);
    out.append(":\n\n");
    push_status(&mut out, "Status:", stack_status, style);
    push_labelled(&mut out, "Reason:", reason_or_none(stack_status_reason), style);
    push_hint(&mut out, "Hint:  ", detail, style);
    if resource_errors.len() == 0 {
        return out;
    }
    out.append(
        "\nWhat went wrong? The following resource errors occurred during the operation:\n",
    );
    let ghost intro = out@;
    let ghost errors = error_views(resource_errors@);
    let mut index: usize = 0;
    while index < resource_errors.len()
        invariant
            index <= resource_errors.len(),
            errors == error_views(resource_errors@),
            out@ == intro + error_paragraphs(errors, index as int, style@),
        decreases resource_errors.len() - index,
    {
        push_error(&mut out, index, &resource_errors[index], style);
        index += 1;
    }
    out
}

/// The logical IDs of the resources that `errors` are about.
pub open spec fn resources_of(errors: Seq<ResourceErrorView>) -> Seq<Seq<char>> {
    errors.map_values(|error: ResourceErrorView| error.event.logical_resource_id@)
}

/// The line on one resource error in a warning.
pub open spec fn warning_line(error: ResourceErrorView) -> Seq<char> {
    "   "@ + error.event.logical_resource_id@ + " ("@ + error.event.resource_status.wire_name()
        + "): "@ + reason_text(error.event.resource_status_reason) + "\n"@
}

/// The lines on the first `k` of `errors` in a warning.
pub open spec fn warning_lines(errors: Seq<ResourceErrorView>, k: int) -> Seq<char>
    decreases k,
{
    if k <= 0 {
        Seq::empty()
    } else {
        warning_lines(errors, k - 1) + warning_line(errors[k - 1])
    }
}

/// What is printed of a warning: that the stack has settled, which
/// resources reported errors, listed in English, and a line on each error.
pub open spec fn warning_text(stack: Seq<char>, errors: Seq<ResourceErrorView>) -> Seq<char> {
    "Stack "@ + stack + " settled, but not without errors in "@ + listing(resources_of(errors))
        + ":\n"@ + warning_lines(errors, errors.len() as int)
}

/// Writes the report of a warning for the operator.
pub fn warning_report(stack: &str, resource_errors: &Vec<ResourceError>) -> (r: String)
    ensures
        r@ == warning_text(stack@, error_views(resource_errors@)),
{
    let ghost errors = error_views(resource_errors@);
    let mut names: Vec<String> = Vec::new();
    let mut i: usize = 0;
    while i < resource_errors.len()
        invariant
            i <= resource_errors.len(),
            errors == error_views(resource_errors@),
            texts(names@) == resources_of(errors.take(i as int)),
        decreases resource_errors.len() - i,
    {
        let ghost before = names@;
        let name = resource_errors[i].event.logical_resource_id.clone();
        names.push(name);
        assert(texts(names@) =~= texts(before).push(name@));
        i += 1;
    }
    assert(errors.take(i as int) =~= errors);
    let mut out = "Stack ".to_owned();
    out.append(stack);
    out.append(" settled, but not without errors in ");
    let listed = display_list(names.as_slice());
    out.append(listed.as_str());
    out.append(":\n");
    let ghost intro = out@;
    let mut k: usize = 0;
    while k < resource_errors.len()
        invariant
            k <= resource_errors.len(),
            errors == error_views(resource_errors@),
            out@ == intro + warning_lines(errors, k as int),
        decreases resource_errors.len() - k,
    {
        let error = &resource_errors[k];
        out.append("   ");
        out.append(error.event.logical_resource_id.as_str());
        out.append(" (");
        out.append(error.event.resource_status.as_str());
        out.append("): ");
        out.append(reason_or_none(&error.event.resource_status_reason));
        out.append("\n");
        k += 1;
    }
    out
}

} // verus!
