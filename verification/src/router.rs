//! The registry that finds the handler of a packet by the packet's type.
//!
//! `H` is a handler. The router stores handlers and picks one; running it,
//! and logging what it reports, is left to the caller, so that a handler
//! that fails can never end the read loop.

use crate::protocol::PacketType;
use std::collections::HashMap;
use vstd::prelude::*;
use vstd::slice::slice_to_vec;
use vstd::std_specs::hash::*;

verus! {

broadcast use vstd::std_specs::hash::group_hash_axioms;

/// The registry as contracts see it: the handlers by the code of their
/// packet type, and the handler of last resort.
pub struct RouterView<H> {
    pub handlers: Map<u8, H>,
    pub default_handler: Option<H>,
}

impl<H> RouterView<H> {
    /// The handler that a packet of the given type goes to.
    pub open spec fn route(self, packet_type: PacketType) -> Option<H> {
        if self.handlers.contains_key(packet_type.spec_code()) {
            Some(self.handlers[packet_type.spec_code()])
        } else {
            self.default_handler
        }
    }
}

/// Where a packet goes.
pub enum Route<'a, H> {
    /// To the handler registered for its type.
    Handler(&'a H),
    /// To the default handler, as none is registered for its type.
    Default(&'a H),
    /// Nowhere: no handler is registered for its type, and there is no
    /// default handler.
    Unhandled,
}

/// A packet on its way to a handler: where it goes, and a copy of its payload
/// for the handler to own.
pub struct Dispatch<'a, H> {
    pub route: Route<'a, H>,
    pub payload: Vec<u8>,
}

impl<'a, H> Dispatch<'a, H> {
    /// Whether there is a handler to run.
    pub fn handled(&self) -> (b: bool)
        ensures
            b == !(self.route is Unhandled),
    {
        match self.route {
            Route::Unhandled => false,
            _ => true,
        }
    }
}

/// The handlers by packet type, and the default handler.
pub struct PacketRouter<H> {
    handlers: HashMap<u8, H>,
    default_handler: Option<H>,
}

impl<H> View for PacketRouter<H> {
    type V = RouterView<H>;

    closed spec fn view(&self) -> RouterView<H> {
        RouterView { handlers: self.handlers@, default_handler: self.default_handler }
    }
}

impl<H> PacketRouter<H> {
    pub fn new() -> (r: Self)
        ensures
            r@.handlers == Map::<u8, H>::empty(),
            r@.default_handler is None,
    {
        PacketRouter { handlers: HashMap::new(), default_handler: None }
    }

    /// Registers the handler of a packet type, in place of any earlier one.
    pub fn register(&mut self, packet_type: PacketType, handler: H)
        ensures
            final(self)@ == (RouterView {
                handlers: old(self)@.handlers.insert(packet_type.spec_code(), handler),
                ..old(self)@
            }),
    {
        self.handlers.insert(packet_type.code(), handler);
    }

    /// Sets the handler of packets whose type has none.
    pub fn set_default_handler(&mut self, handler: H)
        ensures
            final(self)@ == (RouterView { default_handler: Some(handler), ..old(self)@ }),
    {
        self.default_handler = Some(handler);
    }

    pub fn has_handler(&self, packet_type: PacketType) -> (b: bool)
        ensures
            b == self@.handlers.contains_key(packet_type.spec_code()),
    {
        let code = packet_type.code();
        self.handlers.contains_key(&code)
    }

    /// Finds the handler of a packet and copies the payload for it: the
    /// handler registered for the type, else the default handler, else none.
    pub fn dispatch(&self, packet_type: PacketType, payload: &[u8]) -> (d: Dispatch<'_, H>)
        ensures
            d.payload@ == payload@,
            match d.route {
                Route::Handler(h) => self@.handlers.contains_key(packet_type.spec_code()) && *h
                    == self@.handlers[packet_type.spec_code()],
                Route::Default(h) => !self@.handlers.contains_key(packet_type.spec_code())
                    && self@.default_handler == Some(*h),
                Route::Unhandled => !self@.handlers.contains_key(packet_type.spec_code())
                    && self@.default_handler is None,
            },
    {
        let payload_owned = slice_to_vec(payload);
        let code = packet_type.code();
        match self.handlers.get(&code) {
            Some(handler) => Dispatch { route: Route::Handler(handler), payload: payload_owned },
            None => match &self.default_handler {
                Some(handler) => Dispatch {
                    route: Route::Default(handler),
                    payload: payload_owned,
                },
                None => Dispatch { route: Route::Unhandled, payload: payload_owned },
            },
        }
    }

    /// Takes the handler of a packet type out; says whether there was one.
    pub fn unregister(&mut self, packet_type: PacketType) -> (b: bool)
        ensures
            b == old(self)@.handlers.contains_key(packet_type.spec_code()),
            final(self)@ == (RouterView {
                handlers: old(self)@.handlers.remove(packet_type.spec_code()),
                ..old(self)@
            }),
    {
        let code = packet_type.code();
        let removed = self.handlers.remove(&code);
        assert(self@.handlers =~= old(self)@.handlers.remove(packet_type.spec_code()));
        removed.is_some()
    }

    /// Forgets every handler, the default handler too.
    pub fn clear(&mut self)
        ensures
            final(self)@.handlers == Map::<u8, H>::empty(),
            final(self)@.default_handler is None,
    {
        self.handlers.clear();
        self.default_handler = None;
    }
}

impl<H> Default for PacketRouter<H> {
    fn default() -> (r: Self)
        ensures
            r@.handlers == Map::<u8, H>::empty(),
            r@.default_handler is None,
    {
        PacketRouter::new()
    }
}

/// A packet goes to the handler registered for its type if there is one, to
/// the default handler if there is none, and is unhandled only when there is
/// neither.
pub proof fn law_route<H>(v: RouterView<H>, packet_type: PacketType)
    ensures
        v.route(packet_type) is None <==> !v.handlers.contains_key(packet_type.spec_code())
            && v.default_handler is None,
{
}

} // verus!
