//! Stack events, and the poller that turns successive pages of them into one
//! ascending stream that ends with the event that settles the stack.

use vstd::prelude::*;
use crate::status::ResourceStatus;
use crate::text::{clone_option, str_eq};

verus! {

/// A stack event as the service reports it: text throughout, most of it optional.
#[derive(Debug)]
pub struct StackEventRecord {
    pub physical_resource_id: Option<String>,
    pub logical_resource_id: Option<String>,
    pub resource_type: Option<String>,
    pub resource_status: Option<String>,
    pub resource_status_reason: Option<String>,
    /// The time of the event as an RFC 3339 date-time.
    pub timestamp: String,
}

/// A stack event.
#[derive(Debug)]
pub struct StackEvent {
    /// The physical resource ID to which the event pertains.
    pub physical_resource_id: Option<String>,
    /// The logical resource ID to which the event pertains.
    pub logical_resource_id: String,
    /// The type of the resource to which the event pertains.
    pub resource_type: String,
    /// The status of the resource to which the event pertains.
    pub resource_status: ResourceStatus,
    /// A message with context for the status of the resource.
    pub resource_status_reason: Option<String>,
    /// The time at which the event occurred, in milliseconds since the Unix epoch.
    pub timestamp: i64,
    /// The name under which the stack of the event goes where events of
    /// several stacks are shown together; `None` for the stack of the
    /// operation itself.
    pub stack_alias: Option<String>,
}

/// Why a record could not be read as an event.
#[derive(Debug)]
pub enum EventError {
    MissingPhysicalResourceId,
    MissingLogicalResourceId,
    MissingResourceType,
    MissingResourceStatus,
    /// The status is none that this library knows; the text is kept.
    UnknownStatus(String),
    /// The timestamp is no RFC 3339 date-time; the text is kept.
    InvalidTimestamp(String),
}

/// The instant that `chrono` reads from an RFC 3339 date-time, in milliseconds
/// since the Unix epoch, or `None` where it refuses the text.
pub uninterp spec fn rfc3339_millis(text: Seq<char>) -> Option<i64>;

/// Calls `chrono::DateTime::parse_from_rfc3339` and, where that succeeds,
/// `DateTime::timestamp_millis` on what it returned. Nothing is proved of the
/// parsing: the contract only gives its result a name.
#[verifier::external_body]
fn parse_rfc3339(text: &str) -> (r: Option<i64>)
    ensures
        r == rfc3339_millis(text@),
{
    match chrono::DateTime::parse_from_rfc3339(text) {
        Ok(instant) => Some(instant.timestamp_millis()),
        Err(_) => None,
    }
}

impl Clone for StackEvent {
    fn clone(&self) -> (r: Self)
        ensures
            r == *self,
    {
        StackEvent {
            physical_resource_id: clone_option(&self.physical_resource_id),
            logical_resource_id: self.logical_resource_id.clone(),
            resource_type: self.resource_type.clone(),
            resource_status: self.resource_status,
            resource_status_reason: clone_option(&self.resource_status_reason),
            timestamp: self.timestamp,
            stack_alias: clone_option(&self.stack_alias),
        }
    }
}

impl StackEvent {
    /// What `record` reads as, given the instant `at` that its timestamp
    /// stands for (`None` where the timestamp is malformed). The first defect
    /// in field order decides the error. An empty physical ID means that the
    /// resource has none yet.
    pub open spec fn read(record: StackEventRecord, at: Option<i64>) -> Result<
        StackEvent,
        EventError,
    > {
        if record.physical_resource_id is None {
            Err(EventError::MissingPhysicalResourceId)
        } else if record.logical_resource_id is None {
            Err(EventError::MissingLogicalResourceId)
        } else if record.resource_type is None {
            Err(EventError::MissingResourceType)
        } else if record.resource_status is None {
            Err(EventError::MissingResourceStatus)
        } else if ResourceStatus::named(record.resource_status->0@) is None {
            Err(EventError::UnknownStatus(record.resource_status->0))
        } else if at is None {
            Err(EventError::InvalidTimestamp(record.timestamp))
        } else {
            Ok(
                StackEvent {
                    physical_resource_id: if record.physical_resource_id->0@.len() == 0 {
                        None
                    } else {
                        record.physical_resource_id
                    },
                    logical_resource_id: record.logical_resource_id->0,
                    resource_type: record.resource_type->0,
                    resource_status: ResourceStatus::named(record.resource_status->0@)->0,
                    resource_status_reason: record.resource_status_reason,
                    timestamp: at->0,
                    stack_alias: None,
                },
            )
        }
    }

    /// The event is about the stack itself, not about a resource in it.
    pub open spec fn about_stack(self, stack_id: Seq<char>) -> bool {
        self.physical_resource_id matches Some(id) && id@ == stack_id
    }

    /// The event reports that the stack has come to rest.
    pub open spec fn settles_stack(self, stack_id: Seq<char>) -> bool {
        self.about_stack(stack_id) && self.resource_status.terminal()
    }

    /// Reads a record whose timestamp has been parsed already.
    pub fn from_native_at(record: StackEventRecord, at: Option<i64>) -> (r: Result<
        StackEvent,
        EventError,
    >)
        ensures
            r == Self::read(record, at),
    {
        let physical_resource_id = match record.physical_resource_id {
            Some(id) => id,
            None => {
                return Err(EventError::MissingPhysicalResourceId);
            },
        };
        let logical_resource_id = match record.logical_resource_id {
            Some(id) => id,
            None => {
                return Err(EventError::MissingLogicalResourceId);
            },
        };
        let resource_type = match record.resource_type {
            Some(resource_type) => resource_type,
            None => {
                return Err(EventError::MissingResourceType);
            },
        };
        let status_text = match record.resource_status {
            Some(text) => text,
            None => {
                return Err(EventError::MissingResourceStatus);
            },
        };
        let resource_status = match ResourceStatus::from_str(status_text.as_str()) {
            Ok(status) => status,
            Err(_) => {
                return Err(EventError::UnknownStatus(status_text));
            },
        };
        let timestamp = match at {
            Some(at) => at,
            None => {
                return Err(EventError::InvalidTimestamp(record.timestamp));
            },
        };
        Ok(
            StackEvent {
                physical_resource_id: if physical_resource_id.as_str().is_empty() {
                    None
                } else {
                    Some(physical_resource_id)
                },
                logical_resource_id,
                resource_type,
                resource_status,
                resource_status_reason: record.resource_status_reason,
                timestamp,
                stack_alias: None,
            },
        )
    }

    /// Whether a record can be read, given the instant that its timestamp
    /// stands for.
    pub fn is_readable_at(record: &StackEventRecord, at: Option<i64>) -> (r: bool)
        ensures
            r == (Self::read(*record, at) is Ok),
    {
        let status_known = match &record.resource_status {
            Some(text) => ResourceStatus::from_str(text.as_str()).is_ok(),
            None => false,
        };
        record.physical_resource_id.is_some() && record.logical_resource_id.is_some()
            && record.resource_type.is_some() && status_known && at.is_some()
    }

    /// The event that a record stands for.
    ///
    /// The record has to be one that the service may send: every field but
    /// the reason present, the status known, the timestamp an RFC 3339
    /// date-time. For records of which that is not known, there is
    /// [`StackEvent::try_from_native`].
    pub fn from_native(record: StackEventRecord) -> (event: StackEvent)
        requires
            StackEvent::read(record, rfc3339_millis(record.timestamp@)) is Ok,
        ensures
            StackEvent::read(record, rfc3339_millis(record.timestamp@)) == Ok::<
                StackEvent,
                EventError,
            >(event),
    {
        let at = parse_rfc3339(record.timestamp.as_str());
        Self::from_native_at(record, at).unwrap()
    }

    /// Reads a record as the service reports it: the event that it stands
    /// for, or what is wrong with it.
    pub fn try_from_native(record: StackEventRecord) -> (r: Result<StackEvent, EventError>)
        ensures
            r == Self::read(record, rfc3339_millis(record.timestamp@)),
    {
        let at = parse_rfc3339(record.timestamp.as_str());
        if Self::is_readable_at(&record, at) {
            Ok(Self::from_native(record))
        } else {
            Self::from_native_at(record, at)
        }
    }

    /// Whether the event is about the stack itself.
    pub fn is_about_stack(&self, stack_id: &str) -> (r: bool)
        ensures
            r == self.about_stack(stack_id@),
    {
        match &self.physical_resource_id {
            Some(id) => str_eq(id.as_str(), stack_id),
            None => false,
        }
    }

    /// Whether the event reports that the stack has come to rest.
    pub fn is_stack_terminal(&self, stack_id: &str) -> (r: bool)
        ensures
            r == self.settles_stack(stack_id@),
    {
        self.is_about_stack(stack_id) && self.resource_status.is_terminal()
    }
}

/// The test that an event is newer than `high_water`.
pub open spec fn is_newer_than(high_water: int) -> spec_fn(StackEvent) -> bool {
    |event: StackEvent| event.timestamp > high_water
}

/// The events of `page` that are newer than `high_water`, in the order of `page`.
pub open spec fn newer_than(page: Seq<StackEvent>, high_water: int) -> Seq<StackEvent> {
    page.filter(is_newer_than(high_water))
}

/// No event of `page` is newer than one before it: the order in which the
/// service lists events.
pub open spec fn newest_first(page: Seq<StackEvent>) -> bool {
    forall|i: int, j: int| 0 <= i <= j < page.len() ==> page[i].timestamp >= page[j].timestamp
}

/// No event of `events` is older than one before it.
pub open spec fn ascending(events: Seq<StackEvent>) -> bool {
    forall|i: int, j: int|
        0 <= i <= j < events.len() ==> events[i].timestamp <= events[j].timestamp
}

/// What a page is read as: each record read in turn, or the error of the
/// first record that cannot be read.
pub open spec fn read_page(records: Seq<StackEventRecord>) -> Result<Seq<StackEvent>, EventError>
    decreases records.len(),
{
    if records.len() == 0 {
        Ok(Seq::empty())
    } else {
        match read_page(records.drop_last()) {
            Err(error) => Err(error),
            Ok(events) => match StackEvent::read(
                records.last(),
                rfc3339_millis(records.last().timestamp@),
            ) {
                Err(error) => Err(error),
                Ok(event) => Ok(events.push(event)),
            },
        }
    }
}

/// Reads a whole page of records, in order. One record that cannot be read
/// fails the page: nothing is passed over in silence.
pub fn convert_page(records: Vec<StackEventRecord>) -> (r: Result<Vec<StackEvent>, EventError>)
    ensures
        page_view(r) == read_page(records@),
{
    let ghost all = records@;
    let total: usize = records.len();
    let mut events: Vec<StackEvent> = Vec::new();
    let mut count: usize = 0;
    for record in it: records
        invariant
            it.seq() == all,
            count == it.index(),
            all.len() == total,
            read_page(all.take(count as int)) == Ok::<Seq<StackEvent>, EventError>(events@),
    {
        assert(all.take(count + 1).drop_last() =~= all.take(count as int));
        match StackEvent::try_from_native(record) {
            Ok(event) => {
                events.push(event);
            },
            Err(error) => {
                proof {
                    lemma_read_page_fails_on(all, count + 1);
                }
                return Err(error);
            },
        }
        count += 1;
    }
    assert(all.take(count as int) =~= all);
    Ok(events)
}

/// A page whose first `n` records cannot be read cannot be read either, and
/// fails with the same error.
proof fn lemma_read_page_fails_on(records: Seq<StackEventRecord>, n: int)
    requires
        0 <= n <= records.len(),
        read_page(records.take(n)) is Err,
    ensures
        read_page(records) == read_page(records.take(n)),
    decreases records.len() - n,
{
    if n < records.len() {
        assert(records.take(n + 1).drop_last() =~= records.take(n));
        lemma_read_page_fails_on(records, n + 1);
    } else {
        assert(records.take(n) =~= records);
    }
}

/// What the newest event of a page reads as: the first record read, or
/// `None` for an empty page.
pub open spec fn read_newest(records: Seq<StackEventRecord>) -> Result<
    Option<StackEvent>,
    EventError,
> {
    if records.len() == 0 {
        Ok(None)
    } else {
        match StackEvent::read(records[0], rfc3339_millis(records[0].timestamp@)) {
            Ok(event) => Ok(Some(event)),
            Err(error) => Err(error),
        }
    }
}

/// The view of a page that may have failed to be read.
pub open spec fn page_view(page: Result<Vec<StackEvent>, EventError>) -> Result<
    Seq<StackEvent>,
    EventError,
> {
    match page {
        Ok(events) => Ok(events@),
        Err(error) => Err(error),
    }
}

/// The newest event of a page as the service lists it, read; `None` for an
/// empty page. Only that one record is read.
pub fn newest_event(records: Vec<StackEventRecord>) -> (r: Result<Option<StackEvent>, EventError>)
    ensures
        r == read_newest(records@),
{
    let mut records = records;
    if records.len() == 0 {
        return Ok(None);
    }
    let first = records.swap_remove(0);
    match StackEvent::try_from_native(first) {
        Ok(event) => Ok(Some(event)),
        Err(error) => Err(error),
    }
}

/// Follows the events of one stack operation.
///
/// The poller is fed the pages that `DescribeStackEvents` returns, newest
/// event first, and hands back what is new in each, oldest event first. It
/// is done once it has yielded the event that settles the stack.
#[derive(Debug)]
pub struct EventPoller {
    /// The stack whose operation is followed.
    pub stack_id: String,
    /// The time of the newest event yielded so far, or the time polling began.
    pub high_water: i64,
    /// The event that settles the stack has been yielded.
    pub done: bool,
}

impl EventPoller {
    /// What the poller yields when it is fed `page`.
    pub open spec fn yields(self, page: Seq<StackEvent>) -> Seq<StackEvent> {
        if self.done {
            Seq::empty()
        } else {
            newer_than(page, self.high_water as int).reverse()
        }
    }

    /// The poller after it has been fed `page`.
    pub open spec fn after(self, page: Seq<StackEvent>) -> EventPoller {
        let fresh = newer_than(page, self.high_water as int);
        if self.done || fresh.len() == 0 {
            self
        } else {
            EventPoller {
                stack_id: self.stack_id,
                high_water: fresh[0].timestamp,
                done: fresh[0].settles_stack(self.stack_id@),
            }
        }
    }

    /// Everything the poller yields when it is fed `pages` one after another.
    pub open spec fn consumed(self, pages: Seq<Seq<StackEvent>>) -> Seq<StackEvent>
        decreases pages.len(),
    {
        if pages.len() == 0 {
            Seq::empty()
        } else {
            self.yields(pages[0]) + self.after(pages[0]).consumed(pages.drop_first())
        }
    }

    /// The poller after it has been fed `pages` one after another.
    pub open spec fn settled(self, pages: Seq<Seq<StackEvent>>) -> EventPoller
        decreases pages.len(),
    {
        if pages.len() == 0 {
            self
        } else {
            self.after(pages[0]).settled(pages.drop_first())
        }
    }

    /// A poller for the events of `stack_id` that are newer than `since`.
    pub fn new(stack_id: String, since: i64) -> (r: Self)
        ensures
            r.stack_id == stack_id,
            r.high_water == since,
            !r.done,
    {
        EventPoller { stack_id, high_water: since, done: false }
    }

    /// Whether the event that settles the stack has been yielded.
    pub fn is_done(&self) -> (r: bool)
        ensures
            r == self.done,
    {
        self.done
    }

    /// Takes one page, newest event first, and returns the events in it that
    /// are newer than anything yielded before, oldest first. The newest of
    /// them becomes the new high-water mark, and ends the stream if it
    /// settles the stack. A poller that is done yields nothing.
    pub fn accept(&mut self, page: Vec<StackEvent>) -> (out: Vec<StackEvent>)
        ensures
            out@ == old(self).yields(page@),
            *final(self) == old(self).after(page@),
    {
        if self.done {
            return Vec::new();
        }
        let ghost all = page@;
        let ghost mark = self.high_water as int;
        let mut page = page;
        let mut out: Vec<StackEvent> = Vec::new();
        while page.len() > 0
            invariant
                page@ == all.take(page@.len() as int),
                page@.len() <= all.len(),
                mark == self.high_water,
                *self == *old(self),
                out@ == newer_than(all.skip(page@.len() as int), mark).reverse(),
            decreases page.len(),
        {
            let ghost k = page@.len() as int;
            let event = page.pop().unwrap();
            proof {
                let tail = all.skip(k - 1);
                assert(tail.drop_first() =~= all.skip(k));
                lemma_newer_than_front(tail, mark);
            }
            if event.timestamp > self.high_water {
                out.push(event);
            }
        }
        assert(all.skip(0) =~= all);
        let n = out.len();
        if n > 0 {
            let newest = &out[n - 1];
            let done = newest.is_stack_terminal(self.stack_id.as_str());
            self.high_water = newest.timestamp;
            self.done = done;
        }
        out
    }
}

/// The newest events of a page are its first newest event, if it has one,
/// and the newest events of the rest.
proof fn lemma_newer_than_front(page: Seq<StackEvent>, high_water: int)
    requires
        page.len() > 0,
    ensures
        newer_than(page, high_water) == if page[0].timestamp > high_water {
            seq![page[0]] + newer_than(page.drop_first(), high_water)
        } else {
            newer_than(page.drop_first(), high_water)
        },
{
    let head = seq![page[0]];
    let test = is_newer_than(high_water);
    assert(page =~= head + page.drop_first());
    Seq::filter_distributes_over_add(head, page.drop_first(), test);
    reveal_with_fuel(Seq::filter, 2);
}

/// What holds of the newest events of a page: each is newer than the mark
/// and comes from the page; and where the page is newest first, so are they,
/// and no event of the page is newer than the first of them.
proof fn lemma_newer_than_facts(page: Seq<StackEvent>, high_water: int)
    ensures
        forall|i: int|
            0 <= i < newer_than(page, high_water).len() ==> {
                &&& (#[trigger] newer_than(page, high_water)[i]).timestamp > high_water
                &&& page.contains(newer_than(page, high_water)[i])
            },
        newest_first(page) ==> newest_first(newer_than(page, high_water)),
        newest_first(page) && newer_than(page, high_water).len() > 0 ==> forall|j: int|
            0 <= j < page.len() ==> (#[trigger] page[j]).timestamp <= newer_than(
                page,
                high_water,
            )[0].timestamp,
    decreases page.len(),
{
    let fresh = newer_than(page, high_water);
    if page.len() == 0 {
        reveal_with_fuel(Seq::filter, 1);
    } else {
        let rest = page.drop_first();
        let older = newer_than(rest, high_water);
        lemma_newer_than_front(page, high_water);
        lemma_newer_than_facts(rest, high_water);
        assert forall|i: int| 0 <= i < older.len() implies page.contains(#[trigger] older[i]) by {
            let k = choose|k: int| 0 <= k < rest.len() && rest[k] == older[i];
            assert(page[k + 1] == older[i]);
        }
        assert forall|i: int| 0 <= i < fresh.len() implies page.contains(#[trigger] fresh[i]) by {
            if page[0].timestamp > high_water && i > 0 {
                assert(fresh[i] == older[i - 1]);
            }
        }
        if newest_first(page) {
            assert forall|i: int, j: int| 0 <= i <= j < rest.len() implies rest[i].timestamp
                >= rest[j].timestamp by {
                assert(rest[i] == page[i + 1] && rest[j] == page[j + 1]);
            }
            assert forall|k: int| 0 <= k < older.len() implies page[0].timestamp >= (
            #[trigger] older[k]).timestamp by {
                let at = choose|at: int| 0 <= at < rest.len() && rest[at] == older[k];
                assert(rest[at] == page[at + 1]);
            }
        }
    }
}

/// What one page does to a poller that is fed pages in the service's order:
/// the events it yields ascend, each is newer than the old mark and none is
/// newer than the new one, which is at or after the old.
pub proof fn lemma_page_yields_in_order(poller: EventPoller, page: Seq<StackEvent>)
    requires
        newest_first(page),
    ensures
        ascending(poller.yields(page)),
        poller.after(page).high_water >= poller.high_water,
        poller.after(page).stack_id == poller.stack_id,
        forall|i: int|
            0 <= i < poller.yields(page).len() ==> poller.high_water < (#[trigger] poller.yields(
                page,
            )[i]).timestamp <= poller.after(page).high_water,
{
    lemma_newer_than_facts(page, poller.high_water as int);
}

/// Time never steps back: whatever pages a poller is fed, as long as each
/// lists its events newest first, no event that it hands to the consumer is
/// older than one handed out before, and all of them are newer than the time
/// polling began.
pub proof fn lemma_consumed_events_ascend(poller: EventPoller, pages: Seq<Seq<StackEvent>>)
    requires
        forall|k: int| 0 <= k < pages.len() ==> newest_first(#[trigger] pages[k]),
    ensures
        ascending(poller.consumed(pages)),
        forall|i: int|
            0 <= i < poller.consumed(pages).len() ==> (#[trigger] poller.consumed(
                pages,
            )[i]).timestamp > poller.high_water,
    decreases pages.len(),
{
    if pages.len() > 0 {
        let first = poller.yields(pages[0]);
        let next = poller.after(pages[0]);
        let rest = next.consumed(pages.drop_first());
        let all = poller.consumed(pages);
        lemma_page_yields_in_order(poller, pages[0]);
        assert forall|k: int| 0 <= k < pages.drop_first().len() implies newest_first(
            #[trigger] pages.drop_first()[k],
        ) by {
            assert(pages.drop_first()[k] == pages[k + 1]);
        }
        lemma_consumed_events_ascend(next, pages.drop_first());
        assert forall|i: int| 0 <= i < all.len() implies (#[trigger] all[i]).timestamp
            > poller.high_water by {
            if i >= first.len() {
                assert(all[i] == rest[i - first.len()]);
            }
        }
        assert forall|i: int, j: int| 0 <= i <= j < all.len() implies all[i].timestamp
            <= all[j].timestamp by {
            if j >= first.len() {
                assert(all[j] == rest[j - first.len()]);
            }
            if i >= first.len() {
                assert(all[i] == rest[i - first.len()]);
            }
        }
    }
}

/// A poller that is done stays done and yields nothing more.
pub proof fn lemma_done_is_final(poller: EventPoller, pages: Seq<Seq<StackEvent>>)
    requires
        poller.done,
    ensures
        poller.consumed(pages) == Seq::<StackEvent>::empty(),
        poller.settled(pages) == poller,
    decreases pages.len(),
{
    if pages.len() > 0 {
        lemma_done_is_final(poller, pages.drop_first());
    }
}

/// A stream that has ended has ended with the event that settles the stack:
/// that event is the last one handed out.
pub proof fn lemma_stream_ends_with_settling_event(
    poller: EventPoller,
    pages: Seq<Seq<StackEvent>>,
)
    requires
        !poller.done,
        poller.settled(pages).done,
    ensures
        poller.consumed(pages).len() > 0,
        poller.consumed(pages).last().settles_stack(poller.stack_id@),
    decreases pages.len(),
{
    if pages.len() > 0 {
        let next = poller.after(pages[0]);
        if next.done {
            lemma_done_is_final(next, pages.drop_first());
        } else {
            lemma_stream_ends_with_settling_event(next, pages.drop_first());
        }
    }
}

/// No event is delivered twice: once a page has been accepted, every event
/// that a later page yields is strictly newer than every event of that page,
/// so an event that the service lists again is passed over.
pub proof fn lemma_listed_again_is_passed_over(
    poller: EventPoller,
    page: Seq<StackEvent>,
    later: Seq<StackEvent>,
)
    requires
        newest_first(page),
        !poller.done,
    ensures
        forall|i: int, k: int|
            0 <= i < page.len() && 0 <= k < poller.after(page).yields(later).len() ==> (
            #[trigger] page[i]).timestamp < (#[trigger] poller.after(page).yields(
                later,
            )[k]).timestamp,
{
    let next = poller.after(page);
    lemma_newer_than_facts(page, poller.high_water as int);
    lemma_newer_than_facts(later, next.high_water as int);
    let out = next.yields(later);
    assert forall|i: int, k: int| 0 <= i < page.len() && 0 <= k < out.len() implies (
    #[trigger] page[i]).timestamp < (#[trigger] out[k]).timestamp by {
        if newer_than(page, poller.high_water as int).len() == 0 {
            lemma_nothing_newer(page, poller.high_water as int, i);
        }
    }
}

/// A page without newer events holds no event that is newer than the mark.
proof fn lemma_nothing_newer(page: Seq<StackEvent>, high_water: int, i: int)
    requires
        newer_than(page, high_water).len() == 0,
        0 <= i < page.len(),
    ensures
        page[i].timestamp <= high_water,
    decreases page.len(),
{
    lemma_newer_than_front(page, high_water);
    if i > 0 {
        lemma_nothing_newer(page.drop_first(), high_water, i - 1);
    }
}

} // verus!
