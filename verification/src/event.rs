//! Events that transactions emit.

use vstd::prelude::*;
use crate::address::{array_of, vec_of};
use crate::codec::views;
use crate::convert::{from_proto_all, into_proto_all, FromProto, IntoProto};
use crate::convert::{lemma_read_all_each, read_all, written_all};
use crate::error::Error;
use crate::proto::{repeated_events, take_events, EventProto, EventsListProto};
use crate::proto::EventMessage;

verus! {

/// How many bytes the key of an event stream has.
pub const EVENT_KEY_LENGTH: usize = 40;

/// An event: the stream that it belongs to, its place there, and its content.
#[derive(Debug, PartialEq, Eq)]
pub struct ContractEvent {
    key: [u8; 40],
    sequence_number: u64,
    event_data: Vec<u8>,
}

/// What an event holds.
pub ghost struct EventView {
    pub key: Seq<u8>,
    pub sequence_number: u64,
    pub event_data: Seq<u8>,
}

impl View for ContractEvent {
    type V = EventView;

    closed spec fn view(&self) -> EventView {
        EventView {
            key: self.key@,
            sequence_number: self.sequence_number,
            event_data: self.event_data@,
        }
    }
}

impl Clone for ContractEvent {
    fn clone(&self) -> (r: ContractEvent)
        ensures
            r@ == self@,
    {
        ContractEvent {
            key: self.key,
            sequence_number: self.sequence_number,
            event_data: vec_of(self.event_data.as_slice()),
        }
    }
}

impl EventView {
    /// The key of the stream is one.
    pub open spec fn valid(self) -> bool {
        self.key.len() == EVENT_KEY_LENGTH
    }
}

impl ContractEvent {
    /// The key of the stream is always one.
    pub proof fn lemma_valid(self)
        ensures
            self@.valid(),
    {
    }

    /// The event with these parts. The key has to be one.
    pub fn new(key: Vec<u8>, sequence_number: u64, event_data: Vec<u8>) -> (r: Result<
        ContractEvent,
        Error,
    >)
        ensures
            key@.len() == EVENT_KEY_LENGTH ==> r is Ok && r->Ok_0@ == (EventView {
                key: key@,
                sequence_number,
                event_data: event_data@,
            }),
            key@.len() != EVENT_KEY_LENGTH ==> r == Err::<ContractEvent, Error>(
                Error::InvalidEventKeyLength,
            ),
    {
        if key.len() != EVENT_KEY_LENGTH {
            return Err(Error::InvalidEventKeyLength);
        }
        Ok(ContractEvent { key: array_of(key.as_slice()), sequence_number, event_data })
    }

    /// The stream that the event belongs to.
    pub fn key(&self) -> (r: &[u8])
        ensures
            r@ == self@.key,
            r@.len() == EVENT_KEY_LENGTH,
    {
        vstd::array::array_as_slice(&self.key)
    }

    /// The place of the event in its stream.
    pub fn sequence_number(&self) -> (r: u64)
        ensures
            r == self@.sequence_number,
    {
        self.sequence_number
    }

    /// The content of the event.
    pub fn event_data(&self) -> (r: &[u8])
        ensures
            r@ == self@.event_data,
    {
        self.event_data.as_slice()
    }
}

impl FromProto for ContractEvent {
    type ProtoType = EventProto;

    open spec fn read(object: EventMessage) -> Result<EventView, Error> {
        if object.key.len() == EVENT_KEY_LENGTH {
            Ok(
                EventView {
                    key: object.key,
                    sequence_number: object.sequence_number,
                    event_data: object.event_data,
                },
            )
        } else {
            Err(Error::InvalidEventKeyLength)
        }
    }

    fn from_proto(object: EventProto) -> (r: Result<Self, Error>) {
        let ghost message = object@;
        ContractEvent::new(object.key, object.sequence_number, object.event_data)
    }
}

impl IntoProto for ContractEvent {
    type ProtoType = EventProto;

    open spec fn written(v: EventView) -> EventMessage {
        EventMessage {
            key: v.key,
            sequence_number: v.sequence_number,
            event_data: v.event_data,
        }
    }

    /// Reading the message gives back the event.
    fn into_proto(self) -> (r: EventProto)
        ensures
            ContractEvent::read(r@) == Ok::<EventView, Error>(self@),
    {
        let object = EventProto {
            key: vec_of(self.key()),
            sequence_number: self.sequence_number,
            event_data: self.event_data,
        };
        let ghost message = object@;
        object
    }
}

// ---------------------------------------------------------------------------------------------
// Lists of events
// ---------------------------------------------------------------------------------------------

/// The same events again.
pub fn clone_events(events: &Vec<ContractEvent>) -> (r: Vec<ContractEvent>)
    ensures
        views(r@) == views(events@),
{
    let r = events.clone();
    assert(views(r@) =~= views(events@));
    r
}

/// What the lists of events hold.
pub open spec fn event_lists(s: Seq<Vec<ContractEvent>>) -> Seq<Seq<EventView>> {
    Seq::new(s.len(), |i: int| views(s[i]@))
}

/// The same lists of events again.
pub fn clone_event_lists(lists: &Vec<Vec<ContractEvent>>) -> (r: Vec<Vec<ContractEvent>>)
    ensures
        event_lists(r@) == event_lists(lists@),
{
    let mut r: Vec<Vec<ContractEvent>> = Vec::new();
    let mut i: usize = 0;
    while i < lists.len()
        invariant
            i <= lists@.len(),
            r@.len() == i,
            forall|j: int| 0 <= j < i ==> views((#[trigger] r@[j])@) == views(lists@[j]@),
        decreases lists@.len() - i,
    {
        r.push(clone_events(&lists[i]));
        i = i + 1;
    }
    assert(event_lists(r@) =~= event_lists(lists@));
    r
}

/// What each list of event messages says; if one says nothing, why the first such one does not.
pub open spec fn read_event_lists(s: Seq<Seq<EventMessage>>) -> Result<Seq<Seq<EventView>>, Error>
    decreases s.len(),
{
    if s.len() == 0 {
        Ok(Seq::empty())
    } else {
        match read_event_lists(s.drop_last()) {
            Err(e) => Err(e),
            Ok(before) => match read_all::<ContractEvent>(s.last()) {
                Err(e) => Err(e),
                Ok(events) => Ok(before.push(events)),
            },
        }
    }
}

/// A list of event messages for each list of events.
pub open spec fn written_event_lists(s: Seq<Seq<EventView>>) -> Seq<Seq<EventMessage>> {
    Seq::new(s.len(), |i: int| written_all::<ContractEvent>(s[i]))
}

/// Lists with one that says nothing say nothing as a whole.
proof fn lemma_read_event_lists_stops(s: Seq<Seq<EventMessage>>, n: int)
    requires
        0 <= n <= s.len(),
        read_event_lists(s.take(n)) is Err,
    ensures
        read_event_lists(s) == read_event_lists(s.take(n)),
    decreases s.len(),
{
    if n == s.len() {
        assert(s.take(n) =~= s);
    } else {
        assert(s.drop_last().take(n) =~= s.take(n));
        lemma_read_event_lists_stops(s.drop_last(), n);
    }
}

/// Reading the messages of valid events gives back the events.
pub proof fn lemma_events_read_written(s: Seq<EventView>)
    requires
        valid_events(s),
    ensures
        read_all::<ContractEvent>(written_all::<ContractEvent>(s)) == Ok::<Seq<EventView>, Error>(
            s,
        ),
{
    lemma_read_all_each::<ContractEvent>(written_all::<ContractEvent>(s), s);
}

/// Reading the messages of lists of valid events gives back the lists.
pub proof fn lemma_event_lists_read_written(s: Seq<Seq<EventView>>)
    requires
        valid_event_lists(s),
    ensures
        read_event_lists(written_event_lists(s)) == Ok::<Seq<Seq<EventView>>, Error>(s),
    decreases s.len(),
{
    let messages = written_event_lists(s);
    if s.len() == 0 {
        assert(s =~= Seq::empty());
    } else {
        let before = s.drop_last();
        assert(valid_event_lists(before)) by {
            assert forall|i: int| 0 <= i < before.len() implies valid_events(
                #[trigger] before[i],
            ) by {
                assert(valid_events(s[i]));
            }
        }
        lemma_event_lists_read_written(before);
        assert(messages.drop_last() =~= written_event_lists(before));
        assert(valid_events(s[s.len() - 1]));
        lemma_events_read_written(s.last());
        assert(before.push(s.last()) =~= s);
    }
}

/// Reads the events of one transaction.
pub fn events_from_proto(object: EventsListProto) -> (r: Result<Vec<ContractEvent>, Error>)
    ensures
        match read_all::<ContractEvent>(object@) {
            Ok(v) => r is Ok && views(r->Ok_0@) == v,
            Err(e) => r == Err::<Vec<ContractEvent>, Error>(e),
        },
{
    from_proto_all::<ContractEvent>(take_events(object.events))
}

/// Writes the events of one transaction.
pub fn events_into_proto(events: Vec<ContractEvent>) -> (r: EventsListProto)
    ensures
        r@ == written_all::<ContractEvent>(views(events@)),
{
    EventsListProto { events: repeated_events(into_proto_all(events)) }
}

/// Reads the events of several transactions.
pub fn event_lists_from_proto(objects: Vec<EventsListProto>) -> (r: Result<
    Vec<Vec<ContractEvent>>,
    Error,
>)
    ensures
        match read_event_lists(views(objects@)) {
            Ok(v) => r is Ok && event_lists(r->Ok_0@) == v,
            Err(e) => r == Err::<Vec<Vec<ContractEvent>>, Error>(e),
        },
{
    let ghost all = views(objects@);
    let ghost given = objects@;
    let mut lists: Vec<Vec<ContractEvent>> = Vec::new();
    assert(event_lists(lists@) =~= Seq::empty());
    assert(all.take(0) =~= Seq::empty());
    for object in it: objects
        invariant
            it.seq() == given,
            all == views(given),
            read_event_lists(all.take(it.index() as int)) == Ok::<Seq<Seq<EventView>>, Error>(
                event_lists(lists@),
            ),
    {
        let ghost k = it.index() as int;
        let ghost before = lists@;
        proof {
            assert(all.take(k + 1).drop_last() =~= all.take(k));
            assert(all.take(k + 1).last() == object@);
        }
        match events_from_proto(object) {
            Ok(events) => {
                lists.push(events);
                assert(event_lists(lists@) =~= event_lists(before).push(views(events@)));
            },
            Err(e) => {
                proof {
                    lemma_read_event_lists_stops(all, k + 1);
                }
                return Err(e);
            },
        }
    }
    assert(all.take(given.len() as int) =~= all);
    Ok(lists)
}

/// Writes the events of several transactions.
pub fn event_lists_into_proto(lists: Vec<Vec<ContractEvent>>) -> (r: Vec<EventsListProto>)
    ensures
        views(r@) == written_event_lists(event_lists(lists@)),
{
    let ghost given = lists@;
    let mut objects: Vec<EventsListProto> = Vec::new();
    for events in it: lists
        invariant
            it.seq() == given,
            objects@.len() == it.index(),
            forall|j: int|
                0 <= j < objects@.len() ==> (#[trigger] objects@[j])@ == written_all::<
                    ContractEvent,
                >(views(given[j]@)),
    {
        objects.push(events_into_proto(events));
    }
    assert(views(objects@) =~= written_event_lists(event_lists(given)));
    objects
}

/// What the events hold, where there are any.
pub open spec fn option_events(o: Option<Vec<ContractEvent>>) -> Option<Seq<EventView>> {
    match o {
        Some(events) => Some(views(events@)),
        None => None,
    }
}

/// What the event messages say, where there are any.
pub open spec fn read_option_events(o: Option<Seq<EventMessage>>) -> Result<
    Option<Seq<EventView>>,
    Error,
> {
    match o {
        None => Ok(None),
        Some(messages) => match read_all::<ContractEvent>(messages) {
            Ok(events) => Ok(Some(events)),
            Err(e) => Err(e),
        },
    }
}

/// The messages of the events, where there are any.
pub open spec fn written_option_events(o: Option<Seq<EventView>>) -> Option<Seq<EventMessage>> {
    match o {
        None => None,
        Some(events) => Some(written_all::<ContractEvent>(events)),
    }
}

/// What the lists of events hold, where there are any.
pub open spec fn option_event_lists(o: Option<Vec<Vec<ContractEvent>>>) -> Option<
    Seq<Seq<EventView>>,
> {
    match o {
        Some(lists) => Some(event_lists(lists@)),
        None => None,
    }
}

/// What the lists of event messages say, where there are any.
pub open spec fn read_option_event_lists(o: Option<Seq<Seq<EventMessage>>>) -> Result<
    Option<Seq<Seq<EventView>>>,
    Error,
> {
    match o {
        None => Ok(None),
        Some(messages) => match read_event_lists(messages) {
            Ok(lists) => Ok(Some(lists)),
            Err(e) => Err(e),
        },
    }
}

/// The messages of the lists of events, where there are any.
pub open spec fn written_option_event_lists(o: Option<Seq<Seq<EventView>>>) -> Option<
    Seq<Seq<EventMessage>>,
> {
    match o {
        None => None,
        Some(lists) => Some(written_event_lists(lists)),
    }
}

/// Every event of the list has a key that is one.
pub open spec fn valid_events(s: Seq<EventView>) -> bool {
    forall|i: int| 0 <= i < s.len() ==> (#[trigger] s[i]).valid()
}

/// Every event of every list has a key that is one.
pub open spec fn valid_event_lists(s: Seq<Seq<EventView>>) -> bool {
    forall|i: int| 0 <= i < s.len() ==> valid_events(#[trigger] s[i])
}

/// The events of a list always have a key that is one.
pub proof fn lemma_valid_events(events: Seq<ContractEvent>)
    ensures
        valid_events(views(events)),
{
    assert forall|i: int| 0 <= i < events.len() implies (#[trigger] views(events)[i]).valid() by {
        events[i].lemma_valid();
    }
}

/// The events of several lists always have a key that is one.
pub proof fn lemma_valid_event_lists(lists: Seq<Vec<ContractEvent>>)
    ensures
        valid_event_lists(event_lists(lists)),
{
    assert forall|i: int| 0 <= i < lists.len() implies valid_events(
        #[trigger] event_lists(lists)[i],
    ) by {
        lemma_valid_events(lists[i]@);
    }
}

} // verus!
