//! A ghost account of what the driver holds open on the crate's behalf.
//!
//! Every action either opens something, uses something that is open, or
//! closes it. The ledger follows a conversation action by action. It turns
//! unsound as soon as an action uses or closes what is not open, or opens
//! what is open already; a sound ledger with nothing open is proof that the
//! conversation leaked nothing and closed nothing twice.

use crate::protocol::{ActionView, Bus, EventView, Reply};
use vstd::prelude::*;

verus! {

/// Something of the operating system that stays open until it is closed.
pub enum Resource {
    /// The connection to a bus.
    Connection(Bus),
    /// The descriptor that a descriptor call handed out.
    Descriptor,
    /// A power assertion, by its identifier.
    Assertion(u32),
    /// A power request, by its handle.
    Request(isize),
}

/// What is open, and whether every action so far was in order.
pub struct Ledger {
    pub open: Set<Resource>,
    pub sound: bool,
}

impl Ledger {
    /// The ledger before anything has happened.
    pub open spec fn empty() -> Ledger {
        Ledger { open: Set::empty(), sound: true }
    }

    /// The ledger after `resource` was opened.
    pub open spec fn with_opened(self, resource: Resource) -> Ledger {
        Ledger {
            open: self.open.insert(resource),
            sound: self.sound && !self.open.contains(resource),
        }
    }

    /// The ledger after `resource` was used.
    pub open spec fn with_used(self, resource: Resource) -> Ledger {
        Ledger { open: self.open, sound: self.sound && self.open.contains(resource) }
    }

    /// The ledger after `resource` was closed.
    pub open spec fn with_closed(self, resource: Resource) -> Ledger {
        Ledger {
            open: self.open.remove(resource),
            sound: self.sound && self.open.contains(resource),
        }
    }

    /// The ledger after the driver has performed `action` and reported
    /// `event`.
    pub open spec fn record(self, action: ActionView, event: EventView) -> Ledger {
        match action {
            ActionView::Connect(bus) => if event is Connected {
                self.with_opened(Resource::Connection(bus))
            } else {
                self
            },
            ActionView::Call(call) => {
                let after = self.with_used(Resource::Connection(call.bus));
                if call.reply == Reply::Descriptor && event is Descriptor {
                    after.with_opened(Resource::Descriptor)
                } else {
                    after
                }
            },
            ActionView::CloseDescriptor => self.with_closed(Resource::Descriptor),
            ActionView::Disconnect(bus) => self.with_closed(Resource::Connection(bus)),
            ActionView::CreateAssertion { .. } => match event {
                EventView::Status { code, id } => if code == 0 {
                    self.with_opened(Resource::Assertion(id))
                } else {
                    self
                },
                _ => self,
            },
            ActionView::ReleaseAssertion { id } => self.with_closed(Resource::Assertion(id)),
            ActionView::CreateRequest { .. } => match event {
                EventView::Handle(handle) => self.with_opened(Resource::Request(handle)),
                _ => self,
            },
            ActionView::SetRequest { handle, .. } => self.with_used(Resource::Request(handle)),
            ActionView::ClearRequest { handle, .. } => self.with_used(Resource::Request(handle)),
            ActionView::CloseHandle { handle } => self.with_closed(Resource::Request(handle)),
        }
    }

    /// The ledger after the driver has performed `actions` in order and
    /// reported `events`, one for each action.
    pub open spec fn record_all(self, actions: Seq<ActionView>, events: Seq<EventView>) -> Ledger
        decreases actions.len(),
    {
        if actions.len() == 0 || events.len() != actions.len() {
            self
        } else {
            self.record_all(actions.drop_last(), events.drop_last()).record(
                actions.last(),
                events.last(),
            )
        }
    }
}

} // verus!
