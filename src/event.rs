use vstd::prelude::*;

verus! {

/// The message that every creation notification carries.
pub open spec fn created_message() -> Seq<char> {
    "Foobar created"@
}

/// Notification produced once, when a flag store is created.
pub struct Created {
    pub message: String,
}

impl Created {
    /// The notification that a constructor produces.
    pub fn creation() -> (r: Created)
        ensures
            r.message@ == created_message(),
    {
        Created { message: "Foobar created".to_owned() }
    }
}

/// Notification produced by every flip, carrying the value after the flip.
pub struct Flipped {
    pub flip: bool,
}

/// Any notification of the flag store.
pub enum Event {
    Created(Created),
    Flipped(Flipped),
}

/// What a notification says, as plain values.
pub enum EventView {
    Created(Seq<char>),
    Flipped(bool),
}

impl View for Event {
    type V = EventView;

    open spec fn view(&self) -> EventView {
        match self {
            Event::Created(c) => EventView::Created(c.message@),
            Event::Flipped(f) => EventView::Flipped(f.flip),
        }
    }
}

/// In-memory recorder of notifications, in the order they were produced.
pub struct EventLog {
    events: Vec<Event>,
}

impl View for EventLog {
    type V = Seq<EventView>;

    closed spec fn view(&self) -> Seq<EventView> {
        self.events@.map_values(|e: Event| e@)
    }
}

impl EventLog {
    /// A recorder that holds nothing yet.
    pub fn new() -> (r: EventLog)
        ensures
            r@ == Seq::<EventView>::empty(),
    {
        let r = EventLog { events: Vec::new() };
        assert(r@ =~= Seq::<EventView>::empty());
        r
    }

    /// Appends one notification.
    pub fn record(&mut self, e: Event)
        ensures
            final(self)@ == old(self)@.push(e@),
    {
        self.events.push(e);
        assert(final(self)@ =~= old(self)@.push(e@));
    }

    /// Number of notifications recorded.
    pub fn len(&self) -> (r: usize)
        ensures
            r == self@.len(),
    {
        self.events.len()
    }

    /// The notifications recorded, oldest first.
    pub fn events(&self) -> (r: &Vec<Event>)
        ensures
            r@.map_values(|e: Event| e@) == self@,
    {
        &self.events
    }

    /// Hands out every recorded notification, oldest first.
    pub fn into_events(self) -> (r: Vec<Event>)
        ensures
            r@.map_values(|e: Event| e@) == self@,
    {
        self.events
    }
}

} // verus!
