//! Typed publish/subscribe broadcasting.
//!
//! The bus keeps the ordered log of everything published. A subscription
//! is a cursor into that log, taken at the moment of subscribing: a
//! subscriber sees nothing published earlier and everything published
//! later, in publish order. This in-memory model retains the full log, so
//! a subscriber can always catch up and no "lagged" error exists; the
//! bounded transport that carries events out of the process is the
//! runtime's concern. Publishing with zero subscribers is a no-op, not an
//! error.

use vstd::prelude::*;

use crate::players::MinecraftJavaPlayer;
use crate::state::State;

verus! {

/// Who caused an operation, carried on every event.
#[derive(Clone, Debug)]
pub enum CausedBy {
    User { user_id: String },
    System,
    Unknown,
}

/// What happened to one instance.
#[derive(Clone, Debug)]
pub enum InstanceEventKind {
    /// The guarded transition succeeded and the instance now rests in `to`.
    StateTransition { to: State },
    /// One raw line of process output.
    InstanceOutput { message: String },
    /// A line the classifier recognised as a system message.
    SystemMessage { message: String },
    /// The player roster changed.
    PlayerChange {
        player_list: Vec<MinecraftJavaPlayer>,
        players_joined: Vec<String>,
        players_left: Vec<String>,
    },
    /// A chat line a player sent, for games whose classifier reports chat.
    PlayerMessage { player: String, player_message: String },
}

#[derive(Clone, Debug)]
pub struct InstanceEvent {
    pub instance_uuid: String,
    pub instance_name: String,
    pub instance_event_inner: InstanceEventKind,
}

/// Progress of a long-running setup operation, in whole percent.
#[derive(Clone, Debug)]
pub struct ProgressionEvent {
    pub event_id: i64,
    pub percent: u32,
    pub progress_message: String,
}

#[derive(Clone, Debug)]
pub enum EventInner {
    InstanceEvent(InstanceEvent),
    ProgressionEvent(ProgressionEvent),
}

/// An immutable, timestamped, cloneable record. The timestamp is supplied
/// by the caller: the host clock lives outside the library.
#[derive(Clone, Debug)]
pub struct Event {
    pub event_inner: EventInner,
    pub details: String,
    pub snowflake: i64,
    pub caused_by: CausedBy,
}

impl Event {
    /// Build an event about one instance.
    pub fn instance_event(
        uuid: &String,
        name: &String,
        kind: InstanceEventKind,
        details: String,
        snowflake: i64,
        caused_by: CausedBy,
    ) -> (r: Event)
        ensures
            r.event_inner matches EventInner::InstanceEvent(ie) && ie.instance_uuid@ == uuid@
                && ie.instance_name@ == name@ && ie.instance_event_inner == kind,
            r.details == details,
            r.snowflake == snowflake,
            r.caused_by == caused_by,
    {
        Event {
            event_inner: EventInner::InstanceEvent(
                InstanceEvent {
                    instance_uuid: uuid.clone(),
                    instance_name: name.clone(),
                    instance_event_inner: kind,
                },
            ),
            details,
            snowflake,
            caused_by,
        }
    }
}

/// The event concerns the named instance.
pub open spec fn about_instance(e: Event, uuid: Seq<char>, name: Seq<char>) -> bool {
    match e.event_inner {
        EventInner::InstanceEvent(ie) => ie.instance_uuid@ == uuid && ie.instance_name@ == name,
        EventInner::ProgressionEvent(_) => false,
    }
}

/// What an instance event says happened.
pub open spec fn instance_kind_of(e: Event) -> InstanceEventKind
    recommends
        e.event_inner is InstanceEvent,
{
    match e.event_inner {
        EventInner::InstanceEvent(ie) => ie.instance_event_inner,
        EventInner::ProgressionEvent(_) => arbitrary(),
    }
}

/// The event announces that the named instance now rests in state `to`.
pub open spec fn is_transition_event(e: Event, uuid: Seq<char>, name: Seq<char>, to: State) -> bool {
    &&& about_instance(e, uuid, name)
    &&& match instance_kind_of(e) {
        InstanceEventKind::StateTransition { to: t } => t == to,
        _ => false,
    }
}

/// The event carries one raw output line of the named instance.
pub open spec fn is_output_event(e: Event, uuid: Seq<char>, name: Seq<char>, msg: Seq<char>) -> bool {
    &&& about_instance(e, uuid, name)
    &&& match instance_kind_of(e) {
        InstanceEventKind::InstanceOutput { message } => message@ == msg,
        _ => false,
    }
}

/// The event republishes a line recognised as a system message.
pub open spec fn is_system_message_event(
    e: Event,
    uuid: Seq<char>,
    name: Seq<char>,
    msg: Seq<char>,
) -> bool {
    &&& about_instance(e, uuid, name)
    &&& match instance_kind_of(e) {
        InstanceEventKind::SystemMessage { message } => message@ == msg,
        _ => false,
    }
}

/// The event announces a roster change: the new roster, and the one player
/// that joined or left.
pub open spec fn is_player_change_event(
    e: Event,
    uuid: Seq<char>,
    name: Seq<char>,
    list: Seq<MinecraftJavaPlayer>,
    joined: Option<Seq<char>>,
    left: Option<Seq<char>>,
) -> bool {
    &&& about_instance(e, uuid, name)
    &&& match instance_kind_of(e) {
        InstanceEventKind::PlayerChange { player_list, players_joined, players_left } => {
            &&& player_list@ == list
            &&& match joined {
                Some(n) => players_joined@.len() == 1 && players_joined@[0]@ == n,
                None => players_joined@.len() == 0,
            }
            &&& match left {
                Some(n) => players_left@.len() == 1 && players_left@[0]@ == n,
                None => players_left@.len() == 0,
            }
        },
        _ => false,
    }
}

/// The broadcaster: an append-only log of events.
pub struct EventBus {
    log: Vec<Event>,
}

/// A subscription handle: a cursor into the bus it was taken from.
pub struct Subscriber {
    start: usize,
    cursor: usize,
    received: Ghost<Seq<Event>>,
}

impl EventBus {
    /// Everything published so far, oldest first.
    pub closed spec fn events(&self) -> Seq<Event> {
        self.log@
    }

    pub fn new() -> (r: Self)
        ensures
            r.events() == Seq::<Event>::empty(),
    {
        Self { log: Vec::new() }
    }

    /// Number of events published so far.
    pub fn published_count(&self) -> (r: usize)
        ensures
            r == self.events().len(),
    {
        self.log.len()
    }

    /// Deliver an event to every active subscriber. Appends to the log;
    /// subscribers observe it through their own cursors. Never blocks and
    /// never fails, with or without subscribers.
    pub fn publish(&mut self, e: Event)
        ensures
            final(self).events() == old(self).events().push(e),
    {
        self.log.push(e);
    }

    /// A new subscription. It yields only events published from this
    /// moment on, in publish order; it cannot be restarted.
    pub fn subscribe(&self) -> (s: Subscriber)
        ensures
            s.wf(self),
            s.start_index() == self.events().len(),
            s.cursor_index() == self.events().len(),
            s.received() == Seq::<Event>::empty(),
    {
        let s = Subscriber {
            start: self.log.len(),
            cursor: self.log.len(),
            received: Ghost(Seq::empty()),
        };
        proof {
            assert(s.received@ =~= self.events().subrange(s.start as int, s.cursor as int));
        }
        s
    }

    /// The subscriber's next event, if one was published since it last
    /// looked; advances its cursor. Returns `None` when the subscriber has
    /// caught up with the log.
    pub fn poll<'a>(&'a self, sub: &mut Subscriber) -> (r: Option<&'a Event>)
        requires
            old(sub).wf(self),
        ensures
            final(sub).wf(self),
            final(sub).start_index() == old(sub).start_index(),
            old(sub).cursor_index() < self.events().len() ==> {
                &&& r matches Some(e) && *e == self.events()[old(sub).cursor_index()]
                    && final(sub).received() == old(sub).received().push(*e)
                &&& final(sub).cursor_index() == old(sub).cursor_index() + 1
            },
            old(sub).cursor_index() >= self.events().len() ==> {
                &&& r is None
                &&& final(sub).cursor_index() == old(sub).cursor_index()
                &&& final(sub).received() == old(sub).received()
            },
    {
        if sub.cursor < self.log.len() {
            let e = &self.log[sub.cursor];
            sub.cursor = sub.cursor + 1;
            proof {
                sub.received@ = sub.received@.push(*e);
                assert(sub.received@ =~= self.events().subrange(
                    sub.start as int,
                    sub.cursor as int,
                ));
            }
            Some(e)
        } else {
            None
        }
    }
}

impl Subscriber {
    /// Length of the log at the moment of subscription.
    pub closed spec fn start_index(&self) -> int {
        self.start as int
    }

    /// Position of the next event this subscriber will see.
    pub closed spec fn cursor_index(&self) -> int {
        self.cursor as int
    }

    /// Everything this subscriber has been handed, in the order it was
    /// handed out.
    pub closed spec fn received(&self) -> Seq<Event> {
        self.received@
    }

    /// The subscriber belongs to this bus: its cursor lies between its
    /// subscription point and the end of the log, and what it has received
    /// is exactly the stretch of the log in between.
    pub closed spec fn wf(&self, bus: &EventBus) -> bool {
        &&& self.start <= self.cursor <= bus.events().len()
        &&& self.received@ == bus.events().subrange(self.start as int, self.cursor as int)
    }
}

/// Publishing never disturbs an existing subscription: the events it has
/// received and its position both survive, and the subscriber stays
/// well-formed on the grown log.
pub proof fn lemma_publish_preserves_subscriber(pre: &EventBus, post: &EventBus, sub: &Subscriber, e: Event)
    requires
        sub.wf(pre),
        post.events() == pre.events().push(e),
    ensures
        sub.wf(post),
{
    assert(post.events().subrange(sub.start_index(), sub.cursor_index()) =~= pre.events().subrange(
        sub.start_index(),
        sub.cursor_index(),
    ));
}

/// Ordered delivery, and nothing from before the subscription: every event
/// a subscriber has received sits in the log at or after its subscription
/// point, and the k-th event it received is exactly the k-th event
/// published after it subscribed. In particular, of the events published
/// before it subscribed it receives none.
pub proof fn lemma_subscriber_delivery(bus: &EventBus, sub: &Subscriber)
    requires
        sub.wf(bus),
    ensures
        sub.received().len() == sub.cursor_index() - sub.start_index(),
        forall|k: int|
            0 <= k < sub.received().len() ==> sub.received()[k] == bus.events()[sub.start_index()
                + k],
{
}

} // verus!
