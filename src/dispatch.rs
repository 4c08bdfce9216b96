use vstd::prelude::*;
use crate::event::{created_message, EventLog, EventView};
use crate::flag::{flipped, Foobar};

verus! {

/// A constructor of the flag store, with its argument.
pub enum Constructor {
    New(bool),
    Default,
}

/// An entry point callable on a created flag store.
pub enum Message {
    Flip,
    Get,
}

/// The value a store holds right after `c` created it.
pub open spec fn initial_value(c: Constructor) -> bool {
    match c {
        Constructor::New(v) => v,
        Constructor::Default => false,
    }
}

/// Maps the identifiers under which a host addresses the entry points to the
/// entry points. How the identifiers are derived is the host's concern.
pub struct DispatchTable {
    pub new: u32,
    pub default: u32,
    pub flip: u32,
    pub get: u32,
}

impl DispatchTable {
    /// The constructor that `selector` names, given the argument that came
    /// with the call (which `default` does not use).
    pub fn constructor(&self, selector: u32, init_value: bool) -> (r: Option<Constructor>)
        ensures
            r == (if selector == self.new {
                Some(Constructor::New(init_value))
            } else if selector == self.default {
                Some(Constructor::Default)
            } else {
                None::<Constructor>
            }),
    {
        if selector == self.new {
            Some(Constructor::New(init_value))
        } else if selector == self.default {
            Some(Constructor::Default)
        } else {
            None
        }
    }

    /// The message that `selector` names.
    pub fn message(&self, selector: u32) -> (r: Option<Message>)
        ensures
            r == (if selector == self.flip {
                Some(Message::Flip)
            } else if selector == self.get {
                Some(Message::Get)
            } else {
                None::<Message>
            }),
    {
        if selector == self.flip {
            Some(Message::Flip)
        } else if selector == self.get {
            Some(Message::Get)
        } else {
            None
        }
    }
}

/// Runs constructor `c`.
pub fn instantiate(c: Constructor, log: &mut EventLog) -> (r: Foobar)
    ensures
        r@ == initial_value(c),
        final(log)@ == old(log)@.push(EventView::Created(created_message())),
{
    match c {
        Constructor::New(v) => Foobar::new(v, log),
        Constructor::Default => Foobar::default(log),
    }
}

impl Foobar {
    /// Runs message `m`: `Get` answers with the value held, `Flip` answers
    /// nothing.
    pub fn call(&mut self, m: Message, log: &mut EventLog) -> (r: Option<bool>)
        ensures
            m == Message::Get ==> {
                &&& r == Some(old(self)@)
                &&& final(self)@ == old(self)@
                &&& final(log)@ == old(log)@
            },
            m == Message::Flip ==> {
                &&& r == None::<bool>
                &&& final(self)@ == flipped(old(self)@)
                &&& final(log)@ == old(log)@.push(EventView::Flipped(final(self)@))
            },
    {
        match m {
            Message::Flip => {
                self.flip(log);
                None
            },
            Message::Get => Some(self.get()),
        }
    }
}

} // verus!
