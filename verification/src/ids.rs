//! Keys that name a link between two devices. A device is named by the
//! 128-bit value of its UUID, most significant byte first, so that the order
//! of two values is the order of the two UUIDs.

use crate::binary::pow256;
use crate::digest::hex_lower_text;
use crate::text::concat3;
use vstd::prelude::*;
use vstd::string::StringExecFns;

verus! {

/// How two devices reach each other.
#[derive(Debug, Clone, Copy, PartialEq, Eq, Hash, Structural)]
pub enum RouteKind {
    Direct,
    /// Reserved: no transport goes by a relay.
    Relay,
}

impl RouteKind {
    pub open spec fn label_text(self) -> Seq<char> {
        match self {
            RouteKind::Direct => "direct"@,
            RouteKind::Relay => "relay"@,
        }
    }

    /// The word that stands for the route in a key's text.
    pub fn label(&self) -> (s: &'static str)
        ensures
            s@ == self.label_text(),
    {
        match self {
            RouteKind::Direct => "direct",
            RouteKind::Relay => "relay",
        }
    }
}

/// The UUID that a text spells, as `Uuid::parse_str` of the `uuid` crate
/// reads it: its 128-bit value, or nothing where the text spells none.
pub uninterp spec fn uuid_of_text(text: Seq<char>) -> Option<u128>;

/// `Uuid::parse_str` of the `uuid` crate, the UUID given by its 128-bit
/// value.
#[verifier::external_body]
pub(crate) fn uuid_parse_str(text: &str) -> (id: Option<u128>)
    ensures
        id == uuid_of_text(text@),
{
    match uuid::Uuid::parse_str(text) {
        Ok(id) => Some(id.as_u128()),
        Err(_) => None,
    }
}

/// The sixteen bytes of a 128-bit value, most significant first.
pub open spec fn be_bytes16(id: u128) -> Seq<u8> {
    Seq::new(16, |i: int| ((id as nat / pow256((15 - i) as nat)) % 256) as u8)
}

/// A UUID in its usual form: 32 lower-case hexadecimal digits in groups of
/// 8, 4, 4, 4 and 12, with hyphens between the groups.
pub open spec fn hyphenated_text(id: u128) -> Seq<char> {
    let h = hex_lower_text(be_bytes16(id));
    h.subrange(0, 8) + seq!['-'] + h.subrange(8, 12) + seq!['-'] + h.subrange(12, 16) + seq!['-']
        + h.subrange(16, 20) + seq!['-'] + h.subrange(20, 32)
}

/// The `Display` of `uuid::Uuid`: the UUID with the given value in hyphenated
/// lower-case form.
#[verifier::external_body]
pub(crate) fn uuid_hyphenated(id: u128) -> (text: String)
    ensures
        text@ == hyphenated_text(id),
{
    uuid::Uuid::from_u128(id).to_string()
}

/// `Uuid::new_v4` of the `uuid` crate, the UUID given by its 128-bit value:
/// a value drawn at random, of which nothing is known beforehand.
#[verifier::external_body]
pub(crate) fn uuid_new_v4() -> (id: u128) {
    uuid::Uuid::new_v4().as_u128()
}

/// A new id for a connection or a file: a random UUID in hyphenated form.
pub fn fresh_id() -> (text: String)
    ensures
        exists|id: u128| text@ == hyphenated_text(id),
{
    let id = uuid_new_v4();
    uuid_hyphenated(id)
}

/// Reads a device id. Gives the id that the text spells, and nothing where it
/// spells none.
pub fn parse_device_id(text: &str) -> (id: Option<u128>)
    ensures
        id == uuid_of_text(text@),
{
    uuid_parse_str(text)
}

/// One end's view of a link: itself, its peer, and the route between them.
#[derive(Debug, Clone, Copy, PartialEq, Eq, Hash, Structural)]
pub struct LinkKey {
    pub local: u128,
    pub peer: u128,
    pub route: RouteKind,
}

/// The key of a link that both of its ends derive: the smaller id, the
/// larger id, and the route.
#[derive(Debug, Clone, Copy, PartialEq, Eq, Hash, Structural)]
pub struct PairKey {
    pub a: u128,
    pub b: u128,
    pub route: RouteKind,
}

impl PairKey {
    pub open spec fn spec_from(x: u128, y: u128, route: RouteKind) -> PairKey {
        if x <= y {
            PairKey { a: x, b: y, route }
        } else {
            PairKey { a: y, b: x, route }
        }
    }

    /// The key of the link between `x` and `y`, in whichever order they are
    /// given.
    pub fn from(x: u128, y: u128, route: RouteKind) -> (key: Self)
        ensures
            key == Self::spec_from(x, y, route),
            key.a <= key.b,
    {
        if x <= y {
            PairKey { a: x, b: y, route }
        } else {
            PairKey { a: y, b: x, route }
        }
    }

    pub open spec fn text(self) -> Seq<char> {
        hyphenated_text(self.a) + ":"@ + hyphenated_text(self.b) + ":"@ + self.route.label_text()
    }

    /// The key as text: the two ids and the route, with colons between them.
    pub fn to_text(&self) -> (text: String)
        ensures
            text@ == self.text(),
    {
        let a = uuid_hyphenated(self.a);
        let b = uuid_hyphenated(self.b);
        let mut s = concat3(a.as_str(), ":", b.as_str());
        s.append(":");
        s.append(self.route.label());
        s
    }
}

impl LinkKey {
    pub fn new(local: u128, peer: u128, route: RouteKind) -> (key: Self)
        ensures
            key == (LinkKey { local, peer, route }),
    {
        LinkKey { local, peer, route }
    }

    pub fn direct(local: u128, peer: u128) -> (key: Self)
        ensures
            key == (LinkKey { local, peer, route: RouteKind::Direct }),
    {
        LinkKey::new(local, peer, RouteKind::Direct)
    }

    pub fn relay(local: u128, peer: u128) -> (key: Self)
        ensures
            key == (LinkKey { local, peer, route: RouteKind::Relay }),
    {
        LinkKey::new(local, peer, RouteKind::Relay)
    }

    pub open spec fn spec_pair_key(self) -> PairKey {
        PairKey::spec_from(self.local, self.peer, self.route)
    }

    /// The key that both ends of the link derive.
    pub fn pair_key(&self) -> (key: PairKey)
        ensures
            key == self.spec_pair_key(),
    {
        PairKey::from(self.local, self.peer, self.route)
    }

    pub open spec fn text(self) -> Seq<char> {
        hyphenated_text(self.local) + ":"@ + hyphenated_text(self.peer) + ":"@
            + self.route.label_text()
    }

    /// The key as text: the two ids and the route, with colons between them.
    pub fn to_text(&self) -> (text: String)
        ensures
            text@ == self.text(),
    {
        let local = uuid_hyphenated(self.local);
        let peer = uuid_hyphenated(self.peer);
        let mut s = concat3(local.as_str(), ":", peer.as_str());
        s.append(":");
        s.append(self.route.label());
        s
    }
}

/// Both ends of a link derive the same key: swapping local and peer changes
/// nothing.
pub proof fn law_pair_key_symmetric(local: u128, peer: u128, route: RouteKind)
    ensures
        (LinkKey { local, peer, route }).spec_pair_key() == (LinkKey {
            local: peer,
            peer: local,
            route,
        }).spec_pair_key(),
{
}

/// A pair key holds the two ids of its link in order, and keeps the route.
pub proof fn law_pair_key_canonical(link: LinkKey)
    ensures
        link.spec_pair_key().a <= link.spec_pair_key().b,
        link.spec_pair_key().route == link.route,
        link.spec_pair_key().a == link.local && link.spec_pair_key().b == link.peer
            || link.spec_pair_key().a == link.peer && link.spec_pair_key().b == link.local,
{
}

} // verus!
