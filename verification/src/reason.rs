//! What the free text of a status reason says, as far as it can be told.
//!
//! CloudFormation explains a status in English. Three shapes of explanation
//! are recognised, without regard to ASCII case; any other text is kept as it
//! is.

use vstd::prelude::*;
use vstd::string::StrSliceExecFns;
use crate::text::{
    chars_of, find_from, first_occurrence, fold_case, folded, lemma_first_occurrence, matches_at,
    occurs_at, run_end, run_start,
};

verus! {

/// What a status reason says.
#[derive(Debug)]
pub enum StatusReasonDetail {
    /// Creation of the resource was cancelled, usually because another
    /// resource failed.
    CreationCancelled,
    /// A permission was missing.
    MissingPermission {
        /// Who lacked it, where the reason says so.
        principal: Option<String>,
        /// The permission, as `service:Action`.
        permission: String,
    },
    /// The stack failed because of errors in the resources listed.
    ResourceErrors { logical_resource_ids: Vec<String> },
    /// Anything else: the reason as it came.
    Other(String),
}

/// A [`StatusReasonDetail`] as plain text.
pub enum ReasonShape {
    CreationCancelled,
    MissingPermission { principal: Option<Seq<char>>, permission: Seq<char> },
    ResourceErrors { logical_resource_ids: Seq<Seq<char>> },
    Other(Seq<char>),
}

/// The texts of `strings`.
pub open spec fn texts(strings: Seq<String>) -> Seq<Seq<char>> {
    strings.map_values(|s: String| s@)
}

impl View for StatusReasonDetail {
    type V = ReasonShape;

    open spec fn view(&self) -> ReasonShape {
        match self {
            StatusReasonDetail::CreationCancelled => ReasonShape::CreationCancelled,
            StatusReasonDetail::MissingPermission { principal, permission } => {
                ReasonShape::MissingPermission {
                    principal: match principal {
                        Some(who) => Some(who@),
                        None => None,
                    },
                    permission: permission@,
                }
            },
            StatusReasonDetail::ResourceErrors { logical_resource_ids } => {
                ReasonShape::ResourceErrors { logical_resource_ids: texts(logical_resource_ids@) }
            },
            StatusReasonDetail::Other(raw) => ReasonShape::Other(raw@),
        }
    }
}

/// The kinds of character that the shapes are made of.
#[derive(Clone, Copy, Debug, PartialEq, Eq, Structural)]
pub enum CharClass {
    /// The space character.
    Space,
    /// Anything but the space character.
    Word,
    /// What a permission is written with: ASCII letters and digits, `:`, `-`
    /// and `*`.
    Permission,
    /// What a logical ID in a list is written with: anything but a space, a
    /// comma and a closing bracket.
    ListItem,
}

impl CharClass {
    /// Whether `c` belongs to the class.
    pub open spec fn holds(self, c: char) -> bool {
        match self {
            CharClass::Space => c == ' ',
            CharClass::Word => c != ' ',
            CharClass::Permission => ('a' <= c && c <= 'z') || ('A' <= c && c <= 'Z') || ('0' <= c
                && c <= '9') || c == ':' || c == '-' || c == '*',
            CharClass::ListItem => c != ' ' && c != ',' && c != ']',
        }
    }

    /// The class as a test on characters.
    pub open spec fn test(self) -> spec_fn(char) -> bool {
        |c: char| self.holds(c)
    }

    /// Whether `c` belongs to the class.
    pub fn contains(&self, c: char) -> (r: bool)
        ensures
            r == self.holds(c),
    {
        match self {
            CharClass::Space => c == ' ',
            CharClass::Word => c != ' ',
            CharClass::Permission => ('a' <= c && c <= 'z') || ('A' <= c && c <= 'Z') || ('0' <= c
                && c <= '9') || c == ':' || c == '-' || c == '*',
            CharClass::ListItem => c != ' ' && c != ',' && c != ']',
        }
    }
}

/// The end of the run of `class` characters that starts at `start`.
fn scan(chars: &Vec<char>, start: usize, class: CharClass) -> (end: usize)
    requires
        start <= chars.len(),
    ensures
        end == run_end(chars@, start as int, class.test()),
        start <= end <= chars.len(),
{
    let mut end: usize = start;
    while end < chars.len() && class.contains(chars[end])
        invariant
            start <= end <= chars.len(),
            run_end(chars@, start as int, class.test()) == run_end(
                chars@,
                end as int,
                class.test(),
            ),
        decreases chars.len() - end,
    {
        end += 1;
    }
    end
}

/// The start of the run of `class` characters that ends at `end`.
fn scan_back(chars: &Vec<char>, end: usize, class: CharClass) -> (start: usize)
    requires
        end <= chars.len(),
    ensures
        start == run_start(chars@, end as int, class.test()),
        start <= end,
{
    let mut start: usize = end;
    while start > 0 && class.contains(chars[start - 1])
        invariant
            start <= end <= chars.len(),
            run_start(chars@, end as int, class.test()) == run_start(
                chars@,
                start as int,
                class.test(),
            ),
        decreases start,
    {
        start -= 1;
    }
    start
}

/// The words after which a reason names a missing permission.
pub open spec fn permission_marker() -> Seq<char> {
    "is not authorized to perform: "@
}

/// The word after which a reason names who lacks a permission.
pub open spec fn principal_marker() -> Seq<char> {
    "user: "@
}

/// The words with which a reason reports a cancelled creation.
pub open spec fn cancelled_marker() -> Seq<char> {
    "resource creation cancelled"@
}

/// The words with which a reason starts to list failed resources.
pub open spec fn failed_marker() -> Seq<char> {
    "the following resource(s) failed to "@
}

/// The principal that stands before the permission marker at `at`: the word
/// that ends one space before the marker, where `User: ` comes right before
/// that word.
pub open spec fn principal_before(reason: Seq<char>, at: int) -> Option<Seq<char>> {
    let end = at - 1;
    let start = run_start(reason, end, CharClass::Word.test());
    if 1 <= at <= reason.len() && reason[end] == ' ' && start < end && occurs_at(
        fold_case(reason),
        start - principal_marker().len(),
        principal_marker(),
    ) {
        Some(reason.subrange(start, end))
    } else {
        None
    }
}

/// The missing permission that `reason` reports, if it reports one: the
/// permission is the run of permission characters after the first
/// permission marker, and must not be empty.
pub open spec fn missing_permission_in(reason: Seq<char>) -> Option<ReasonShape> {
    match first_occurrence(fold_case(reason), permission_marker(), 0) {
        None => None,
        Some(at) => {
            let start = at + permission_marker().len();
            let end = run_end(reason, start, CharClass::Permission.test());
            if start < end {
                Some(
                    ReasonShape::MissingPermission {
                        principal: principal_before(reason, at),
                        permission: reason.subrange(start, end),
                    },
                )
            } else {
                None
            }
        },
    }
}

/// The logical IDs listed from `at` on: items separated by commas, each after
/// any number of spaces, up to a closing bracket. `None` where the text is no
/// such list: an item is empty, something stands between an item and the
/// comma or bracket after it, or the bracket is missing.
pub open spec fn listed_from(reason: Seq<char>, at: int) -> Option<Seq<Seq<char>>>
    decreases reason.len() - at,
{
    let start = run_end(reason, at, CharClass::Space.test());
    let end = run_end(reason, start, CharClass::ListItem.test());
    if at < 0 || at > reason.len() || start < at || end < start {
        None
    } else if start == end || end >= reason.len() {
        None
    } else if reason[end] == ']' {
        Some(seq![reason.subrange(start, end)])
    } else if reason[end] == ',' {
        match listed_from(reason, end + 1) {
            Some(rest) => Some(seq![reason.subrange(start, end)] + rest),
            None => None,
        }
    } else {
        None
    }
}

/// The resources that `reason` reports as failed, if it starts with such a
/// report: the marker, `create` or `update`, a colon, and the bracketed list.
pub open spec fn failed_resources_in(reason: Seq<char>) -> Option<Seq<Seq<char>>> {
    let lower = fold_case(reason);
    let verb = failed_marker().len() as int;
    if occurs_at(lower, 0, failed_marker()) && (occurs_at(lower, verb, "create: ["@) || occurs_at(
        lower,
        verb,
        "update: ["@,
    )) {
        listed_from(reason, verb + 9)
    } else {
        None
    }
}

/// What `reason` says. The shapes are tried in this order: a missing
/// permission anywhere in the text, a cancelled creation at its start, a list
/// of failed resources at its start.
pub open spec fn detail_of(reason: Seq<char>) -> ReasonShape {
    match missing_permission_in(reason) {
        Some(shape) => shape,
        None => {
            if occurs_at(fold_case(reason), 0, cancelled_marker()) {
                ReasonShape::CreationCancelled
            } else {
                match failed_resources_in(reason) {
                    Some(ids) => ReasonShape::ResourceErrors { logical_resource_ids: ids },
                    None => ReasonShape::Other(reason),
                }
            }
        },
    }
}

/// The text of `reason` from `start` to `end`, owned.
fn slice_of(reason: &str, start: usize, end: usize) -> (r: String)
    requires
        start <= end <= reason@.len(),
    ensures
        r@ == reason@.subrange(start as int, end as int),
{
    reason.substring_char(start, end).to_owned()
}

fn read_principal(reason: &str, chars: &Vec<char>, lower: &Vec<char>, at: usize) -> (r: Option<
    String,
>)
    requires
        chars@ == reason@,
        lower@ == fold_case(reason@),
        at <= chars.len(),
    ensures
        match r {
            Some(who) => principal_before(reason@, at as int) == Some(who@),
            None => principal_before(reason@, at as int).is_none(),
        },
{
    if at < 1 {
        return None;
    }
    let end: usize = at - 1;
    if chars[end] != ' ' {
        return None;
    }
    let start = scan_back(chars, end, CharClass::Word);
    if start >= end {
        return None;
    }
    let marker = chars_of("user: ");
    proof {
        reveal_strlit("user: ");
    }
    if start < marker.len() {
        return None;
    }
    if !matches_at(lower, start - marker.len(), &marker) {
        return None;
    }
    Some(slice_of(reason, start, end))
}

fn read_missing_permission(reason: &str, chars: &Vec<char>, lower: &Vec<char>) -> (r: Option<
    StatusReasonDetail,
>)
    requires
        chars@ == reason@,
        lower@ == fold_case(reason@),
    ensures
        match r {
            Some(detail) => missing_permission_in(reason@) == Some(detail@),
            None => missing_permission_in(reason@).is_none(),
        },
{
    let marker = chars_of("is not authorized to perform: ");
    match find_from(lower, &marker, 0) {
        None => None,
        Some(at) => {
            proof {
                lemma_first_occurrence(lower@, marker@, 0);
                assert(lower@.len() == lower.len());
            }
            let start: usize = at + marker.len();
            let end = scan(chars, start, CharClass::Permission);
            if start < end {
                let principal = read_principal(reason, chars, lower, at);
                let permission = slice_of(reason, start, end);
                Some(StatusReasonDetail::MissingPermission { principal, permission })
            } else {
                None
            }
        },
    }
}

/// `ids` followed by what is listed from `at` on.
spec fn listed_after(ids: Seq<Seq<char>>, reason: Seq<char>, at: int) -> Option<Seq<Seq<char>>> {
    match listed_from(reason, at) {
        Some(rest) => Some(ids + rest),
        None => None,
    }
}

fn read_list(reason: &str, chars: &Vec<char>, from: usize) -> (r: Option<Vec<String>>)
    requires
        chars@ == reason@,
        from <= chars.len(),
    ensures
        match r {
            Some(ids) => listed_from(reason@, from as int) == Some(texts(ids@)),
            None => listed_from(reason@, from as int).is_none(),
        },
{
    let mut ids: Vec<String> = Vec::new();
    let mut at: usize = from;
    let ghost whole = listed_from(reason@, from as int);
    loop
        invariant
            chars@ == reason@,
            at <= chars.len(),
            listed_after(texts(ids@), reason@, at as int) == whole,
            whole == listed_from(reason@, from as int),
        decreases chars.len() - at,
    {
        let start = scan(chars, at, CharClass::Space);
        let end = scan(chars, start, CharClass::ListItem);
        if start == end || end >= chars.len() {
            return None;
        }
        let id = slice_of(reason, start, end);
        ids.push(id);
        if chars[end] == ']' {
            return Some(ids);
        } else if chars[end] == ',' {
            at = end + 1;
        } else {
            return None;
        }
    }
}

fn read_failed_resources(reason: &str, chars: &Vec<char>, lower: &Vec<char>) -> (r: Option<
    Vec<String>,
>)
    requires
        chars@ == reason@,
        lower@ == fold_case(reason@),
    ensures
        match r {
            Some(ids) => failed_resources_in(reason@) == Some(texts(ids@)),
            None => failed_resources_in(reason@).is_none(),
        },
{
    let marker = chars_of("the following resource(s) failed to ");
    if !matches_at(lower, 0, &marker) {
        return None;
    }
    let verb: usize = marker.len();
    let create = chars_of("create: [");
    let update = chars_of("update: [");
    proof {
        reveal_strlit("create: [");
        reveal_strlit("update: [");
    }
    if matches_at(lower, verb, &create) || matches_at(lower, verb, &update) {
        assert(lower@.len() == lower.len());
        read_list(reason, chars, verb + create.len())
    } else {
        None
    }
}

impl StatusReasonDetail {
    /// Reads a status reason. Every text reads as something: one that fits no
    /// shape is kept whole.
    pub fn parse(reason: &str) -> (r: StatusReasonDetail)
        ensures
            r@ == detail_of(reason@),
    {
        let chars = chars_of(reason);
        let lower = folded(&chars);
        if let Some(detail) = read_missing_permission(reason, &chars, &lower) {
            return detail;
        }
        let cancelled = chars_of("resource creation cancelled");
        if matches_at(&lower, 0, &cancelled) {
            return StatusReasonDetail::CreationCancelled;
        }
        match read_failed_resources(reason, &chars, &lower) {
            Some(logical_resource_ids) => StatusReasonDetail::ResourceErrors {
                logical_resource_ids,
            },
            None => StatusReasonDetail::Other(reason.to_owned()),
        }
    }
}

} // verus!
