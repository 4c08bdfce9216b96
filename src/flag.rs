use vstd::prelude::*;
use crate::event::{created_message, Created, Event, EventLog, EventView, Flipped};

verus! {

/// The value a flag takes when it is flipped from `v`.
pub open spec fn flipped(v: bool) -> bool {
    !v
}

/// Stores a single `bool` value.
pub struct Foobar {
    value: bool,
}

impl View for Foobar {
    type V = bool;

    closed spec fn view(&self) -> bool {
        self.value
    }
}

impl Foobar {
    /// Creates a store holding `init_value` and records one creation
    /// notification.
    pub fn new(init_value: bool, log: &mut EventLog) -> (r: Self)
        ensures
            r@ == init_value,
            final(log)@ == old(log)@.push(EventView::Created(created_message())),
    {
        log.record(Event::Created(Created::creation()));
        Foobar { value: init_value }
    }

    /// Creates a store holding `false`; the same as `new(false, log)`.
    pub fn default(log: &mut EventLog) -> (r: Self)
        ensures
            r@ == false,
            final(log)@ == old(log)@.push(EventView::Created(created_message())),
    {
        Self::new(false, log)
    }

    /// Turns `true` into `false` and back, and records one flip notification
    /// carrying the new value.
    pub fn flip(&mut self, log: &mut EventLog)
        ensures
            final(self)@ == flipped(old(self)@),
            final(log)@ == old(log)@.push(EventView::Flipped(final(self)@)),
    {
        self.value = !self.value;
        log.record(Event::Flipped(Flipped { flip: self.value }));
    }

    /// The value held now.
    pub fn get(&self) -> (r: bool)
        ensures
            r == self@,
    {
        self.value
    }
}

/// Flipping a store twice gives back the value it held before: `b` is `a`
/// flipped once and `c` is `b` flipped once.
pub proof fn lemma_flip_twice(a: Foobar, b: Foobar, c: Foobar)
    requires
        b@ == flipped(a@),
        c@ == flipped(b@),
    ensures
        c@ == a@,
{
}

/// A flip that turns the log `before` into `after` adds exactly one
/// notification, a flip notification carrying what `get` returns afterwards.
pub proof fn lemma_flip_records_new_value(
    old_store: Foobar,
    new_store: Foobar,
    before: Seq<EventView>,
    after: Seq<EventView>,
)
    requires
        new_store@ == flipped(old_store@),
        after == before.push(EventView::Flipped(new_store@)),
    ensures
        after.len() == before.len() + 1,
        after.subrange(0, before.len() as int) == before,
        after.subrange(before.len() as int, after.len() as int) == seq![EventView::Flipped(new_store@)],
        new_store@ == !old_store@,
{
    assert(after.subrange(0, before.len() as int) =~= before);
    assert(after.subrange(before.len() as int, after.len() as int) =~= seq![EventView::Flipped(new_store@)]);
}

/// Creating a store that turns the log `before` into `after` adds exactly one
/// notification, a creation notification with the message "Foobar created".
pub proof fn lemma_construct_records_one_creation(before: Seq<EventView>, after: Seq<EventView>)
    requires
        after == before.push(EventView::Created(created_message())),
    ensures
        after.len() == before.len() + 1,
        after.subrange(0, before.len() as int) == before,
        after.subrange(before.len() as int, after.len() as int) == seq![EventView::Created("Foobar created"@)],
{
    assert(after.subrange(0, before.len() as int) =~= before);
    assert(after.subrange(before.len() as int, after.len() as int) =~= seq![EventView::Created("Foobar created"@)]);
}

} // verus!
