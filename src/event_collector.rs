//! The event-clustering engine: the event model, the pending cluster that
//! decides where a chord window closes, the sequence that logs the decisions,
//! and the collector that drives both.
use crate::timestamp::{within_window, Timestamp};
use vstd::prelude::*;

verus! {

/// Window, in milliseconds from the event that opened it, within which
/// further presses still join the same cluster.
pub const CLUSTER_INTERVAL_LIMIT_MS: u64 = 20;

/// What produced an event.
pub enum EventKind {
    Keyboard,
    Mouse,
}

/// An observed input event.
pub trait Event {
    fn event_kind(&self) -> EventKind;
}

// ------------------------------------------------------------------ event model

/// A key of a device: the device's path and the key's numeric code.
#[derive(Debug, PartialEq, Eq)]
pub struct Key {
    path: String,
    code: u16,
}

/// Mathematical model of a [`Key`].
pub ghost struct KeyView {
    pub path: Seq<char>,
    pub code: u16,
}

impl View for Key {
    type V = KeyView;

    closed spec fn view(&self) -> KeyView {
        KeyView { path: self.path@, code: self.code }
    }
}

impl Clone for Key {
    fn clone(&self) -> (r: Self)
        ensures
            r@ == self@,
    {
        Key { path: self.path.clone(), code: self.code }
    }
}

impl Key {
    pub fn new(path: &str, code: u16) -> (r: Key)
        ensures
            r@ == (KeyView { path: path@, code }),
    {
        Key { code, path: path.to_string() }
    }

    /// Path of the device the key belongs to.
    pub fn path(&self) -> (r: &str)
        ensures
            r@ == self@.path,
    {
        self.path.as_str()
    }

    /// The key's numeric code.
    pub fn code(&self) -> (r: u16)
        ensures
            r == self@.code,
    {
        self.code
    }
}

/// State of a key in one observed transition.
#[derive(Debug, Clone, Copy, PartialEq, Eq, Structural)]
pub enum KeyState {
    Down,
    Up,
    Hold,
    Uninitiated,
}

/// The integer codes that denote a key state: -1, 0, 1 and 2.
pub open spec fn is_key_state_code(code: i32) -> bool {
    -1 <= code <= 2
}

/// The key state that an integer code denotes.
pub open spec fn key_state_of(code: i32) -> KeyState
    recommends
        is_key_state_code(code),
{
    if code == 0 {
        KeyState::Up
    } else if code == 1 {
        KeyState::Down
    } else if code == 2 {
        KeyState::Hold
    } else {
        KeyState::Uninitiated
    }
}

impl KeyState {
    /// Decodes a key state: 0 is `Up`, 1 `Down`, 2 `Hold`, -1 `Uninitiated`.
    /// Any other code is a programming error and is ruled out by the contract.
    pub fn from_code(code: i32) -> (r: KeyState)
        requires
            is_key_state_code(code),
        ensures
            r == key_state_of(code),
    {
        match code {
            0 => KeyState::Up,
            1 => KeyState::Down,
            2 => KeyState::Hold,
            _ => KeyState::Uninitiated,
        }
    }

    /// Whether this is the `Down` state.
    pub fn is_down(&self) -> (r: bool)
        ensures
            r == (*self == KeyState::Down),
    {
        match self {
            KeyState::Down => true,
            _ => false,
        }
    }
}

/// One observed transition of a key.
#[derive(Debug, PartialEq, Eq)]
pub struct KeyboardEvent {
    key: Key,
    state: KeyState,
    timestamp: Timestamp,
}

/// Mathematical model of a [`KeyboardEvent`]; `time` is in nanoseconds.
pub ghost struct EventView {
    pub key: KeyView,
    pub state: KeyState,
    pub time: nat,
}

impl View for KeyboardEvent {
    type V = EventView;

    closed spec fn view(&self) -> EventView {
        EventView { key: self.key@, state: self.state, time: self.timestamp@ }
    }
}

impl Clone for KeyboardEvent {
    fn clone(&self) -> (r: Self)
        ensures
            r@ == self@,
    {
        KeyboardEvent { key: self.key.clone(), state: self.state, timestamp: self.timestamp }
    }
}

impl KeyboardEvent {
    /// Builds an event from a key, an integer state code and a timestamp.
    pub fn new(key: Key, state: i32, timestamp: Timestamp) -> (r: KeyboardEvent)
        requires
            is_key_state_code(state),
        ensures
            r@ == (EventView { key: key@, state: key_state_of(state), time: timestamp@ }),
    {
        KeyboardEvent { key, state: KeyState::from_code(state), timestamp }
    }

    pub fn timestamp(&self) -> (r: Timestamp)
        ensures
            r@ == self@.time,
    {
        self.timestamp
    }

    pub fn state(&self) -> (r: KeyState)
        ensures
            r == self@.state,
    {
        self.state
    }

    pub fn key(&self) -> (r: &Key)
        ensures
            r@ == self@.key,
    {
        &self.key
    }
}

impl Event for KeyboardEvent {
    fn event_kind(&self) -> EventKind {
        EventKind::Keyboard
    }
}


/// Models of a sequence of events.
pub open spec fn event_views(events: Seq<KeyboardEvent>) -> Seq<EventView> {
    events.map_values(|e: KeyboardEvent| e@)
}

// ------------------------------------------------------------------ output elements

/// Keys judged to have been pressed together, in the order they arrived.
/// A cluster always has at least two members.
#[derive(Debug, PartialEq, Eq)]
pub struct Cluster {
    members: Vec<KeyboardEvent>,
}

impl View for Cluster {
    type V = Seq<EventView>;

    closed spec fn view(&self) -> Seq<EventView> {
        event_views(self.members@)
    }
}

impl Cluster {
    pub fn new(members: Vec<KeyboardEvent>) -> (r: Cluster)
        requires
            members@.len() >= 2,
        ensures
            r@ == event_views(members@),
    {
        Cluster { members }
    }

    /// The members, in arrival order.
    pub fn members(&self) -> (r: &[KeyboardEvent])
        ensures
            event_views(r@) == self@,
    {
        self.members.as_slice()
    }
}

/// Copies a list of events, keeping each event's model.
fn clone_events(events: &[KeyboardEvent]) -> (r: Vec<KeyboardEvent>)
    ensures
        event_views(r@) == event_views(events@),
{
    let mut out: Vec<KeyboardEvent> = Vec::new();
    let mut i: usize = 0;
    while i < events.len()
        invariant
            i <= events@.len(),
            out@.len() == i,
            forall|j: int| 0 <= j < i ==> #[trigger] out@[j]@ == events@[j]@,
        decreases events@.len() - i,
    {
        out.push(events[i].clone());
        i = i + 1;
    }
    assert(event_views(out@) =~= event_views(events@));
    out
}

impl Clone for Cluster {
    fn clone(&self) -> (r: Self)
        ensures
            r@ == self@,
    {
        Cluster { members: clone_events(self.members.as_slice()) }
    }
}

/// One entry of the output sequence: a standalone key press or a cluster.
#[derive(Debug, PartialEq, Eq)]
pub enum InputElement {
    Key(KeyboardEvent),
    Cluster(Cluster),
}

/// Mathematical model of an [`InputElement`].
pub ghost enum ElementView {
    Key(EventView),
    Cluster(Seq<EventView>),
}

impl View for InputElement {
    type V = ElementView;

    open spec fn view(&self) -> ElementView {
        match self {
            InputElement::Key(e) => ElementView::Key(e@),
            InputElement::Cluster(c) => ElementView::Cluster(c@),
        }
    }
}

impl Clone for InputElement {
    fn clone(&self) -> (r: Self)
        ensures
            r@ == self@,
    {
        match self {
            InputElement::Key(e) => InputElement::Key(e.clone()),
            InputElement::Cluster(c) => InputElement::Cluster(c.clone()),
        }
    }
}

/// Models of a sequence of output elements.
pub open spec fn element_views(elements: Seq<InputElement>) -> Seq<ElementView> {
    elements.map_values(|e: InputElement| e@)
}


// ------------------------------------------------------------------ pending cluster

/// Outcome of the latest update of a [`PendingCluster`].
pub enum PendingClusterState {
    /// The window is still open; nothing was produced.
    Pending,
    /// The window closed with two or more members, which form this cluster.
    Formed(InputElement),
    /// The window closed with a single member, handed back as a standalone key.
    Rejected(Vec<InputElement>),
}

/// Mathematical model of a [`PendingClusterState`].
pub ghost enum StateView {
    Pending,
    Formed(ElementView),
    Rejected(Seq<ElementView>),
}

impl View for PendingClusterState {
    type V = StateView;

    open spec fn view(&self) -> StateView {
        match self {
            PendingClusterState::Pending => StateView::Pending,
            PendingClusterState::Formed(e) => StateView::Formed(e@),
            PendingClusterState::Rejected(v) => StateView::Rejected(element_views(v@)),
        }
    }
}

/// Mathematical model of a [`PendingCluster`]: the members of the open
/// window, oldest first, and the outcome of the latest update.
pub ghost struct PendingView {
    pub members: Seq<EventView>,
    pub state: StateView,
}

/// The accumulator that is given no events yet.
pub open spec fn empty_pending() -> PendingView {
    PendingView { members: Seq::empty(), state: StateView::Pending }
}

/// Timestamps only move forward: a press never comes before the event that
/// opened the current window.
pub open spec fn in_order(members: Seq<EventView>, e: EventView) -> bool {
    e.state != KeyState::Down || members.len() == 0 || members[0].time <= e.time
}

/// What the accumulator becomes when it is given `e`, with windows of
/// `limit_ms` milliseconds measured from the first member.
pub open spec fn pending_step(p: PendingView, e: EventView, limit_ms: nat) -> PendingView {
    if e.state != KeyState::Down {
        p
    } else if p.members.len() == 0 || within_window(p.members[0].time, e.time, limit_ms) {
        PendingView { members: p.members.push(e), state: StateView::Pending }
    } else if p.members.len() == 1 {
        PendingView {
            members: Seq::empty(),
            state: StateView::Rejected(seq![ElementView::Key(p.members[0])]),
        }
    } else {
        PendingView { members: Seq::empty(), state: StateView::Formed(ElementView::Cluster(p.members)) }
    }
}

/// Accumulates the presses of the window that is currently open.
pub struct PendingCluster {
    members: Vec<KeyboardEvent>,
    state: PendingClusterState,
}

impl View for PendingCluster {
    type V = PendingView;

    closed spec fn view(&self) -> PendingView {
        PendingView { members: event_views(self.members@), state: self.state@ }
    }
}

impl Default for PendingCluster {
    fn default() -> (r: Self)
        ensures
            r@ == empty_pending(),
    {
        let r = PendingCluster { members: Vec::new(), state: PendingClusterState::Pending };
        assert(r@.members =~= Seq::<EventView>::empty());
        r
    }
}

impl PendingCluster {
    /// Outcome of the latest update.
    pub fn state(&self) -> (r: &PendingClusterState)
        ensures
            r@ == self@.state,
    {
        &self.state
    }

    /// Members of the open window, oldest first.
    pub fn members(&self) -> (r: &[KeyboardEvent])
        ensures
            event_views(r@) == self@.members,
    {
        self.members.as_slice()
    }

    /// Appends a copy of `event` to the window and marks it pending.
    fn add(&mut self, event: &KeyboardEvent)
        ensures
            final(self)@ == (PendingView {
                members: old(self)@.members.push(event@),
                state: StateView::Pending,
            }),
    {
        self.members.push(event.clone());
        self.state = PendingClusterState::Pending;
        assert(final(self)@.members =~= old(self)@.members.push(event@));
    }

    /// Closes a window of two or more members into a cluster.
    fn form(&mut self)
        requires
            old(self)@.members.len() >= 2,
        ensures
            final(self)@ == (PendingView {
                members: Seq::empty(),
                state: StateView::Formed(ElementView::Cluster(old(self)@.members)),
            }),
    {
        let mut taken: Vec<KeyboardEvent> = Vec::new();
        std::mem::swap(&mut self.members, &mut taken);
        let cluster = Cluster::new(taken);
        self.state = PendingClusterState::Formed(InputElement::Cluster(cluster));
        assert(final(self)@.members =~= Seq::<EventView>::empty());
    }

    /// Closes the window, handing each member back as a standalone key.
    fn reject(&mut self)
        ensures
            final(self)@.members == Seq::<EventView>::empty(),
            final(self)@.state == StateView::Rejected(
                old(self)@.members.map_values(|e: EventView| ElementView::Key(e)),
            ),
    {
        let mut taken: Vec<KeyboardEvent> = Vec::new();
        std::mem::swap(&mut self.members, &mut taken);
        let mut elements: Vec<InputElement> = Vec::new();
        let mut i: usize = 0;
        while i < taken.len()
            invariant
                i <= taken@.len(),
                elements@.len() == i,
                forall|j: int|
                    0 <= j < i ==> #[trigger] elements@[j]@ == ElementView::Key(taken@[j]@),
            decreases taken@.len() - i,
        {
            elements.push(InputElement::Key(taken[i].clone()));
            i = i + 1;
        }
        assert(element_views(elements@) =~= event_views(taken@).map_values(
            |e: EventView| ElementView::Key(e),
        ));
        self.state = PendingClusterState::Rejected(elements);
        assert(final(self)@.members =~= Seq::<EventView>::empty());
    }

    /// Whether `event` falls within `limit_ms` milliseconds of the window's
    /// first member.
    fn incoming_event_fits_in_interval_limit(&self, event: &KeyboardEvent, limit_ms: u64) -> (r: bool)
        requires
            self@.members.len() > 0,
            self@.members[0].time <= event@.time,
        ensures
            r == within_window(self@.members[0].time, event@.time, limit_ms as nat),
    {
        let first_member_timestamp = self.members[0].timestamp();
        event.timestamp().within_millis_of(&first_member_timestamp, limit_ms)
    }

    fn has_multiple_members(&self) -> (r: bool)
        ensures
            r == (self@.members.len() > 1),
    {
        self.members.len() > 1
    }

    fn has_single_member(&self) -> (r: bool)
        ensures
            r == (self@.members.len() == 1),
    {
        self.members.len() == 1
    }

    fn handle_key_down_event(&mut self, event: &KeyboardEvent, limit_ms: u64)
        requires
            event@.state == KeyState::Down,
            in_order(old(self)@.members, event@),
        ensures
            final(self)@ == pending_step(old(self)@, event@, limit_ms as nat),
    {
        if self.members.len() == 0 || self.incoming_event_fits_in_interval_limit(event, limit_ms) {
            self.add(event);
        } else if self.has_single_member() {
            self.reject();
            assert(old(self)@.members.map_values(|e: EventView| ElementView::Key(e))
                =~= seq![ElementView::Key(old(self)@.members[0])]);
        } else if self.has_multiple_members() {
            self.form();
        }
    }

    /// Feeds one event to the accumulator. Only presses are looked at.
    fn update(&mut self, event: &KeyboardEvent, limit_ms: u64)
        requires
            in_order(old(self)@.members, event@),
        ensures
            final(self)@ == pending_step(old(self)@, event@, limit_ms as nat),
    {
        if event.state().is_down() {
            self.handle_key_down_event(event, limit_ms);
        }
    }
}


// ------------------------------------------------------------------ sequence

/// What the output log becomes after the accumulator reported `state` for
/// the event `e`: a closed window's element(s), then `e` as a standalone key.
pub open spec fn emit(out: Seq<ElementView>, e: EventView, state: StateView) -> Seq<ElementView> {
    match state {
        StateView::Pending => out,
        StateView::Formed(element) => out.push(element).push(ElementView::Key(e)),
        StateView::Rejected(elements) => out + elements.push(ElementView::Key(e)),
    }
}

/// The append-only log of finished elements, in the order they were decided.
pub struct Sequence {
    elements: Vec<InputElement>,
}

impl View for Sequence {
    type V = Seq<ElementView>;

    closed spec fn view(&self) -> Seq<ElementView> {
        element_views(self.elements@)
    }
}

impl Default for Sequence {
    fn default() -> (r: Self)
        ensures
            r@ == Seq::<ElementView>::empty(),
    {
        let r = Sequence { elements: Vec::new() };
        assert(r@ =~= Seq::<ElementView>::empty());
        r
    }
}

impl Sequence {
    /// The elements logged so far, oldest first.
    pub fn elements(&self) -> (r: &[InputElement])
        ensures
            element_views(r@) == self@,
    {
        self.elements.as_slice()
    }

    fn add_element(&mut self, element: &InputElement)
        ensures
            final(self)@ == old(self)@.push(element@),
    {
        self.elements.push(element.clone());
        assert(final(self)@ =~= old(self)@.push(element@));
    }

    fn add_key_event(&mut self, event: &KeyboardEvent)
        ensures
            final(self)@ == old(self)@.push(ElementView::Key(event@)),
    {
        self.elements.push(InputElement::Key(event.clone()));
        assert(final(self)@ =~= old(self)@.push(ElementView::Key(event@)));
    }

    /// Logs what the accumulator decided for `event`.
    fn update(&mut self, event: &KeyboardEvent, pending_cluster_state: &PendingClusterState)
        ensures
            final(self)@ == emit(old(self)@, event@, pending_cluster_state@),
    {
        match pending_cluster_state {
            PendingClusterState::Pending => {},
            PendingClusterState::Formed(cluster_element) => {
                self.add_element(cluster_element);
                self.add_key_event(event);
            },
            PendingClusterState::Rejected(key_elements) => {
                let ghost start = self@;
                let mut i: usize = 0;
                while i < key_elements.len()
                    invariant
                        i <= key_elements@.len(),
                        self@ == start + element_views(key_elements@).subrange(0, i as int),
                    decreases key_elements@.len() - i,
                {
                    self.add_element(&key_elements[i]);
                    i = i + 1;
                    assert(element_views(key_elements@).subrange(0, i as int)
                        =~= element_views(key_elements@).subrange(0, i - 1 as int).push(
                        key_elements@[i - 1]@,
                    ));
                    assert(self@ =~= start + element_views(key_elements@).subrange(0, i as int));
                }
                assert(element_views(key_elements@).subrange(0, i as int)
                    =~= element_views(key_elements@));
                self.add_key_event(event);
                assert(self@ =~= start + element_views(key_elements@).push(ElementView::Key(event@)));
            },
        }
    }
}

// ------------------------------------------------------------------ collector

/// Mathematical model of a [`Collector`].
pub ghost struct CollectorView {
    pub pending: PendingView,
    pub elements: Seq<ElementView>,
}

/// The collector that has received nothing yet.
pub open spec fn empty_collector() -> CollectorView {
    CollectorView { pending: empty_pending(), elements: Seq::empty() }
}

/// Whether a collector in state `c` can take `e` (see [`in_order`]).
pub open spec fn admits(c: CollectorView, e: EventView) -> bool {
    in_order(c.pending.members, e)
}

/// What a collector in state `c` becomes when it receives `e`. Events other
/// than presses leave it as it is.
pub open spec fn collector_step(c: CollectorView, e: EventView) -> CollectorView {
    if e.state != KeyState::Down {
        c
    } else {
        let p = pending_step(c.pending, e, CLUSTER_INTERVAL_LIMIT_MS as nat);
        CollectorView { pending: p, elements: emit(c.elements, e, p.state) }
    }
}

/// Owns one accumulator and one output log for a single ordered stream of
/// events.
pub struct Collector {
    pending_cluster: PendingCluster,
    sequence: Sequence,
}

impl View for Collector {
    type V = CollectorView;

    closed spec fn view(&self) -> CollectorView {
        CollectorView { pending: self.pending_cluster@, elements: self.sequence@ }
    }
}

impl Default for Collector {
    fn default() -> (r: Self)
        ensures
            r@ == empty_collector(),
    {
        Collector { pending_cluster: PendingCluster::default(), sequence: Sequence::default() }
    }
}

impl Collector {
    /// A collector with an empty window and an empty log.
    pub fn new() -> (r: Collector)
        ensures
            r@ == empty_collector(),
    {
        Collector::default()
    }

    pub fn pending_cluster(&self) -> (r: &PendingCluster)
        ensures
            r@ == self@.pending,
    {
        &self.pending_cluster
    }

    pub fn sequence(&self) -> (r: &Sequence)
        ensures
            r@ == self@.elements,
    {
        &self.sequence
    }

    /// Feeds one event: the accumulator decides first, then the log records
    /// that decision. Events other than presses are ignored.
    ///
    /// Events must come in time order: a press may not be older than the
    /// press that opened the current window.
    pub fn receive(&mut self, event: &KeyboardEvent)
        requires
            admits(old(self)@, event@),
        ensures
            final(self)@ == collector_step(old(self)@, event@),
    {
        if event.state().is_down() {
            self.pending_cluster.update(event, CLUSTER_INTERVAL_LIMIT_MS);
            self.sequence.update(event, &self.pending_cluster.state);
        }
    }
}

} // verus!
