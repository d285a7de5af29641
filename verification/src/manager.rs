//! The registries of sessions: the servers by their id, and the clients by
//! the key of the link that each of them serves.
//!
//! `V` is a server and `S` a client, as their driver holds them.

use crate::config::SocketClientConfig;
use crate::error::{SocketError, SocketResult};
use crate::ids::{parse_device_id, uuid_of_text, LinkKey, PairKey, RouteKind};
use crate::registry::{Registry, RegistryKey};
use crate::session::{ClientHandle, ServerHandle};
use vstd::prelude::*;
use vstd::string::StringExecFns;

verus! {

/// The servers that were started, by their id.
pub struct SocketServerManager<V> {
    servers: Registry<String, V>,
}

impl<V> View for SocketServerManager<V> {
    type V = Map<Seq<char>, V>;

    closed spec fn view(&self) -> Map<Seq<char>, V> {
        self.servers@
    }
}

/// A server is kept while it listens or has a connection.
pub open spec fn in_use<V: ServerHandle>(server: V) -> bool {
    server.running() || server.holds_connection()
}

impl<V: ServerHandle> SocketServerManager<V> {
    pub closed spec fn wf(&self) -> bool {
        self.servers.wf()
    }

    pub fn new() -> (m: Self)
        ensures
            m.wf(),
            m@ == Map::<Seq<char>, V>::empty(),
    {
        SocketServerManager { servers: Registry::new() }
    }

    /// Forgets the servers that neither listen nor have a connection, and
    /// hands them out.
    pub fn prune(&mut self) -> (dropped: Vec<V>)
        requires
            old(self).wf(),
        ensures
            final(self).wf(),
            forall|id: Seq<char>| #[trigger]
                final(self)@.contains_key(id) <==> old(self)@.contains_key(id) && in_use(
                    old(self)@[id],
                ),
            forall|id: Seq<char>| #[trigger]
                final(self)@.contains_key(id) ==> final(self)@[id] == old(self)@[id],
            forall|i: int| 0 <= i < dropped@.len() ==> !in_use(#[trigger] dropped@[i]),
    {
        let mut dropped: Vec<V> = Vec::new();
        let mut i: usize = 0;
        proof {
            self.servers.lemma_entries();
        }
        while i < self.servers.len()
            invariant
                self.servers.wf(),
                i <= self.servers.count(),
                forall|k: int| 0 <= k < i ==> in_use((#[trigger] self.servers.entry(k)).1),
                forall|id: Seq<char>| #[trigger]
                    self.servers@.contains_key(id) ==> old(self)@.contains_key(id)
                        && self.servers@[id] == old(self)@[id],
                forall|id: Seq<char>|
                    old(self)@.contains_key(id) && in_use(old(self)@[id])
                        ==> #[trigger] self.servers@.contains_key(id),
                forall|k: int| 0 <= k < dropped@.len() ==> !in_use(#[trigger] dropped@[k]),
            decreases self.servers.count() - i,
        {
            let keep = {
                let entry = self.servers.at(i);
                entry.1.is_running() || entry.1.has_connection()
            };
            if keep {
                i = i + 1;
            } else {
                let ghost before = self.servers@;
                proof {
                    self.servers.lemma_entries();
                }
                let (_, server) = self.servers.remove_at(i);
                dropped.push(server);
                proof {
                    assert forall|id: Seq<char>|
                        old(self)@.contains_key(id) && in_use(
                            old(self)@[id],
                        ) implies #[trigger] self.servers@.contains_key(id) by {
                        assert(before.contains_key(id));
                    }
                }
            }
        }
        proof {
            self.servers.lemma_entries();
            assert forall|id: Seq<char>| #[trigger]
                self.servers@.contains_key(id) implies in_use(old(self)@[id]) by {
                let k = choose|k: int|
                    0 <= k < self.servers.count() && (#[trigger] self.servers.entry(k)).0.id()
                        == id;
                assert(in_use(self.servers.entry(k).1));
            }
        }
        dropped
    }

    /// Keeps a server that was started under its id, in place of any that
    /// was kept under it.
    pub fn create_server(&mut self, id: String, server: V) -> (previous: Option<V>)
        requires
            old(self).wf(),
        ensures
            final(self).wf(),
            final(self)@ == old(self)@.insert(id@, server),
            match previous {
                Some(p) => old(self)@.contains_key(id@) && p == old(self)@[id@],
                None => !old(self)@.contains_key(id@),
            },
    {
        self.servers.insert(id, server)
    }

    /// Forgets the server with the given id and hands it out to be stopped.
    pub fn stop_server(&mut self, id: &str) -> (server: Option<V>)
        requires
            old(self).wf(),
        ensures
            final(self).wf(),
            final(self)@ == old(self)@.remove(id@),
            match server {
                Some(s) => old(self)@.contains_key(id@) && s == old(self)@[id@],
                None => !old(self)@.contains_key(id@),
            },
    {
        let key = String::from_str(id);
        self.servers.remove(&key)
    }

    /// Whether any server has a connection that is not closing.
    pub fn has_active_server_connection(&self) -> (b: bool)
        requires
            self.wf(),
        ensures
            b == exists|id: Seq<char>| #[trigger]
                self@.contains_key(id) && self@[id].active_connection(),
    {
        proof {
            self.servers.lemma_entries();
        }
        let mut i: usize = 0;
        while i < self.servers.len()
            invariant
                self.servers.wf(),
                i <= self.servers.count(),
                forall|k: int|
                    0 <= k < i ==> !(#[trigger] self.servers.entry(k)).1.active_connection(),
            decreases self.servers.count() - i,
        {
            let active = self.servers.at(i).1.has_active_connection();
            if active {
                proof {
                    self.servers.lemma_entries();
                    let id = self.servers.entry(i as int).0.id();
                    assert(self@.contains_key(id) && self@[id].active_connection());
                }
                return true;
            }
            i = i + 1;
        }
        proof {
            self.servers.lemma_entries();
            assert forall|id: Seq<char>| #[trigger] self@.contains_key(id) implies !self@[id].active_connection() by {
                let k = choose|k: int|
                    0 <= k < self.servers.count() && (#[trigger] self.servers.entry(k)).0.id()
                        == id;
                assert(!self.servers.entry(k).1.active_connection());
            }
        }
        false
    }
}

/// What to do about a connection to the signalling server.
pub enum ServerConnectPlan<'a, S> {
    /// The client is connected and authenticated: the token is to be
    /// revoked on it, and the client serves.
    RevokeToken(&'a S),
    /// The client is connected and not authenticated: it is to authenticate
    /// with the token.
    Authenticate(&'a S),
    /// There is no client that is connected: a new one is to dial and
    /// authenticate.
    Dial,
}

/// What to do about a connection to a peer.
pub enum ConnectPlan<'a, S> {
    /// The link has a client that is connected: it serves.
    Reuse(&'a S),
    /// A new client is to dial, and to be kept under this key.
    Dial(PairKey),
}

/// The link that a pair of ids names, as far as there is one: the error
/// says which of the two ids is missing or is no UUID.
pub open spec fn link_of(local: Option<u128>, target: Option<Option<u128>>) -> Result<
    LinkKey,
    Seq<char>,
> {
    match local {
        None => Err("device_id must be a valid UUID"@),
        Some(l) => match target {
            None => Err("target_id is required"@),
            Some(None) => Err("target_id must be a valid UUID"@),
            Some(Some(p)) => Ok(LinkKey { local: l, peer: p, route: RouteKind::Direct }),
        },
    }
}

/// The ids that a configuration spells: that of the device, and that of the
/// target if the configuration names one.
pub open spec fn ids_of(config: SocketClientConfig) -> (Option<u128>, Option<Option<u128>>) {
    (
        uuid_of_text(config.device_id@),
        match config.target_id {
            Some(t) => Some(uuid_of_text(t@)),
            None => None,
        },
    )
}

/// The direct link between the two devices whose ids were read, each id
/// being there or not.
pub fn link_from_ids(local: Option<u128>, target: Option<Option<u128>>) -> (res: SocketResult<
    LinkKey,
>)
    ensures
        match res {
            Ok(link) => link_of(local, target) == Ok::<LinkKey, Seq<char>>(link),
            Err(e) => e matches SocketError::ParseError(m) && link_of(local, target) == Err::<
                LinkKey,
                Seq<char>,
            >(m@),
        },
{
    let l = match local {
        None => {
            return Err(SocketError::parse("device_id must be a valid UUID"));
        },
        Some(l) => l,
    };
    match target {
        None => Err(SocketError::parse("target_id is required")),
        Some(None) => Err(SocketError::parse("target_id must be a valid UUID")),
        Some(Some(p)) => Ok(LinkKey::direct(l, p)),
    }
}

/// The direct link that a configuration names.
pub fn resolve_link(config: &SocketClientConfig) -> (res: SocketResult<LinkKey>)
    ensures
        match res {
            Ok(link) => link_of(ids_of(*config).0, ids_of(*config).1) == Ok::<
                LinkKey,
                Seq<char>,
            >(link),
            Err(e) => e matches SocketError::ParseError(m) && link_of(
                ids_of(*config).0,
                ids_of(*config).1,
            ) == Err::<LinkKey, Seq<char>>(m@),
        },
{
    let local = parse_device_id(config.device_id.as_str());
    let target = match &config.target_id {
        Some(t) => Some(parse_device_id(t.as_str())),
        None => None,
    };
    link_from_ids(local, target)
}

/// The clients: the one that is connected to the signalling server, and
/// those that are connected to peers, by the key of their link.
pub struct SocketClientManager<S> {
    server_client: Option<S>,
    clients: Registry<PairKey, S>,
}

/// The clients as contracts see them.
pub struct ClientsView<S> {
    pub server_client: Option<S>,
    pub clients: Map<PairKey, S>,
}

impl<S> View for SocketClientManager<S> {
    type V = ClientsView<S>;

    closed spec fn view(&self) -> ClientsView<S> {
        ClientsView { server_client: self.server_client, clients: self.clients@ }
    }
}

impl<S: ClientHandle> SocketClientManager<S> {
    pub closed spec fn wf(&self) -> bool {
        self.clients.wf()
    }

    pub fn new() -> (m: Self)
        ensures
            m.wf(),
            m@.server_client is None,
            m@.clients == Map::<PairKey, S>::empty(),
    {
        SocketClientManager { server_client: None, clients: Registry::new() }
    }

    /// Decides how to get a connection to the signalling server.
    pub fn connect(&self) -> (plan: ServerConnectPlan<'_, S>)
        ensures
            match plan {
                ServerConnectPlan::RevokeToken(c) => self@.server_client == Some(*c)
                    && c.connected() && c.authenticated(),
                ServerConnectPlan::Authenticate(c) => self@.server_client == Some(*c)
                    && c.connected() && !c.authenticated(),
                ServerConnectPlan::Dial => !(self@.server_client matches Some(c) && c.connected()),
            },
    {
        match &self.server_client {
            Some(existing) => {
                if existing.is_connected() {
                    if existing.is_authenticated() {
                        ServerConnectPlan::RevokeToken(existing)
                    } else {
                        ServerConnectPlan::Authenticate(existing)
                    }
                } else {
                    ServerConnectPlan::Dial
                }
            },
            None => ServerConnectPlan::Dial,
        }
    }

    /// What a login's outcome means for the caller: a login that was refused
    /// is a failure to authenticate.
    pub fn authentication_result(ok: bool) -> (res: SocketResult<()>)
        ensures
            match res {
                Ok(_) => ok,
                Err(e) => !ok && (e matches SocketError::AuthenticationFailed(m) && m@
                    == "invalid token"@),
            },
    {
        if ok {
            Ok(())
        } else {
            Err(SocketError::auth_failed("invalid token"))
        }
    }

    /// Keeps the client that is connected to the signalling server, and
    /// hands out the one that was kept.
    pub fn set_server_client(&mut self, client: S) -> (previous: Option<S>)
        requires
            old(self).wf(),
        ensures
            final(self).wf(),
            previous == old(self)@.server_client,
            final(self)@ == (ClientsView { server_client: Some(client), ..old(self)@ }),
    {
        let previous = self.server_client.take();
        self.server_client = Some(client);
        previous
    }

    /// Decides how to get a connection to the peer that a configuration
    /// names. The link's key is the same at both ends. A client that is
    /// kept under the key and is connected serves; else a new one is to dial.
    pub fn connect_to(&self, config: &SocketClientConfig) -> (res: SocketResult<
        ConnectPlan<'_, S>,
    >)
        requires
            self.wf(),
        ensures
            match res {
                Err(e) => e matches SocketError::ParseError(m) && link_of(
                    ids_of(*config).0,
                    ids_of(*config).1,
                ) == Err::<LinkKey, Seq<char>>(m@),
                Ok(plan) => link_of(ids_of(*config).0, ids_of(*config).1) matches Ok(link) && ({
                    let key = link.spec_pair_key();
                    match plan {
                        ConnectPlan::Reuse(c) => self@.clients.contains_key(key)
                            && self@.clients[key] == *c && c.connected(),
                        ConnectPlan::Dial(k) => k == key && !(self@.clients.contains_key(key)
                            && self@.clients[key].connected()),
                    }
                }),
            },
    {
        let link = match resolve_link(config) {
            Ok(link) => link,
            Err(e) => {
                return Err(e);
            },
        };
        let key = link.pair_key();
        match self.clients.get(&key) {
            Some(client) => {
                if client.is_connected() {
                    Ok(ConnectPlan::Reuse(client))
                } else {
                    Ok(ConnectPlan::Dial(key))
                }
            },
            None => Ok(ConnectPlan::Dial(key)),
        }
    }

    /// Keeps a client that has connected under the key of its link, and
    /// hands out the one that was kept under it.
    pub fn register_client(&mut self, key: PairKey, client: S) -> (previous: Option<S>)
        requires
            old(self).wf(),
        ensures
            final(self).wf(),
            final(self)@ == (ClientsView {
                clients: old(self)@.clients.insert(key, client),
                ..old(self)@
            }),
            match previous {
                Some(p) => old(self)@.clients.contains_key(key) && p == old(self)@.clients[key],
                None => !old(self)@.clients.contains_key(key),
            },
    {
        self.clients.insert(key, client)
    }

    pub fn get_client(&self, key: &PairKey) -> (client: Option<&S>)
        requires
            self.wf(),
        ensures
            match client {
                Some(c) => self@.clients.contains_key(*key) && *c == self@.clients[*key],
                None => !self@.clients.contains_key(*key),
            },
    {
        self.clients.get(key)
    }

    pub fn is_connected_to_server(&self) -> (b: bool)
        ensures
            b == (self@.server_client matches Some(c) && c.connected() && c.authenticated()),
    {
        match &self.server_client {
            Some(c) => c.is_connected() && c.is_authenticated(),
            None => false,
        }
    }

    /// Forgets the client of a link and hands it out to be disconnected. A
    /// link without a client is not connected.
    pub fn disconnect(&mut self, key: &PairKey) -> (res: SocketResult<S>)
        requires
            old(self).wf(),
        ensures
            final(self).wf(),
            final(self)@ == (ClientsView {
                clients: old(self)@.clients.remove(*key),
                ..old(self)@
            }),
            match res {
                Ok(c) => old(self)@.clients.contains_key(*key) && c == old(self)@.clients[*key],
                Err(e) => !old(self)@.clients.contains_key(*key) && e is NotConnected,
            },
    {
        match self.clients.remove(key) {
            Some(c) => Ok(c),
            None => Err(SocketError::NotConnected),
        }
    }

    /// Forgets the client that is connected to the signalling server and
    /// hands it out to be disconnected.
    pub fn disconnect_from_server(&mut self) -> (client: Option<S>)
        requires
            old(self).wf(),
        ensures
            final(self).wf(),
            client == old(self)@.server_client,
            final(self)@ == (ClientsView { server_client: None, ..old(self)@ }),
    {
        self.server_client.take()
    }
}

/// Both ends of a link look their session up under the same key: the key
/// that one end derives from a pair of ids is the key that the other end
/// derives from the pair reversed.
pub proof fn law_session_key_symmetric(a: u128, b: u128)
    ensures
        link_of(Some(a), Some(Some(b))) matches Ok(here) && link_of(
            Some(b),
            Some(Some(a)),
        ) matches Ok(there) && here.spec_pair_key() == there.spec_pair_key(),
{
}

} // verus!
