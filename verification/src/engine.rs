//! The engine of a node: its identity, its settings and its network
//! manager under one roof.
use vstd::prelude::*;
use crate::config::{Config, DEFAULT_MAX_PEERS, DEFAULT_PORT};
use crate::identity::{Identity, UserCredentials};
use crate::message::{EncryptedMessage, Message};
use crate::network::{
    connect_done,
    holds_peer,
    names_peer,
    send_prepared,
    sent_confirmed,
    NetworkError,
    NetworkManager,
};
use crate::peer::{Peer, PeerPingStatus};

verus! {

/// A node of the chat network.
#[derive(Debug)]
pub struct ReachEngine {
    pub identity: Identity,
    pub network: NetworkManager,
    pub config: Config,
}

impl ReachEngine {
    /// The network of the engine is well formed, and all three parts speak
    /// of the same user.
    pub open spec fn wf(&self) -> bool {
        &&& self.network.wf()
        &&& self.network.identity.user_id == self.identity.user_id
        &&& self.config.identity.user_id == self.identity.user_id
    }

    /// An engine for a new identity made from `credentials`, with the
    /// default settings, no connection and no listener. It always succeeds.
    pub fn new(credentials: UserCredentials) -> (engine: Result<ReachEngine, NetworkError>)
        ensures
            engine is Ok,
            engine.unwrap().wf(),
            engine.unwrap().identity.email@ == credentials.email@,
            engine.unwrap().identity.has_valid_keys(),
            engine.unwrap().identity.password_matches(credentials.password@),
            engine.unwrap().config.identity.same_as(&engine.unwrap().identity),
            engine.unwrap().network.identity.same_as(&engine.unwrap().identity),
            engine.unwrap().config.default_port == DEFAULT_PORT,
            engine.unwrap().config.max_peers == DEFAULT_MAX_PEERS,
            engine.unwrap().network.connections@.len() == 0,
            engine.unwrap().network.inbox@.len() == 0,
            engine.unwrap().network.listening_port is None,
    {
        let identity = match Identity::new(credentials) {
            Ok(identity) => identity,
            Err(_) => {
                return Err(NetworkError::InvalidIdentity);
            },
        };
        let config = Config::new(identity.clone());
        match NetworkManager::new(identity.clone()) {
            Err(e) => Err(e),
            Ok(network) => Ok(ReachEngine { identity, network, config }),
        }
    }

    /// An engine for an identity that exists, with the default settings, no
    /// connection and no listener. An identity whose private key cannot be
    /// read is refused.
    pub fn from_identity(identity: Identity) -> (engine: Result<ReachEngine, NetworkError>)
        ensures
            engine is Ok <==> crate::identity::key_bytes_spec(identity.keypair.private_key@) is Ok,
            engine is Err ==> engine.unwrap_err() == NetworkError::InvalidIdentity,
            engine is Ok ==> {
                &&& engine.unwrap().wf()
                &&& engine.unwrap().identity == identity
                &&& engine.unwrap().config.identity.same_as(&identity)
                &&& engine.unwrap().network.identity.same_as(&identity)
                &&& engine.unwrap().config.default_port == DEFAULT_PORT
                &&& engine.unwrap().config.max_peers == DEFAULT_MAX_PEERS
                &&& engine.unwrap().network.connections@.len() == 0
                &&& engine.unwrap().network.inbox@.len() == 0
                &&& engine.unwrap().network.listening_port is None
            },
    {
        let config = Config::new(identity.clone());
        match NetworkManager::new(identity.clone()) {
            Err(e) => Err(e),
            Ok(network) => Ok(ReachEngine { identity, network, config }),
        }
    }

    /// The settings of the engine.
    pub fn get_config(&self) -> (config: &Config)
        ensures
            *config == self.config,
    {
        &self.config
    }

    /// Records that the node listens on `port`: see
    /// [`NetworkManager::start_listening`].
    pub fn start_server(&mut self, port: u16) -> (out: Result<(), NetworkError>)
        requires
            old(self).wf(),
        ensures
            final(self).wf(),
            final(self).identity == old(self).identity,
            final(self).config == old(self).config,
            final(self).network.connections == old(self).network.connections,
            final(self).network.inbox == old(self).network.inbox,
            out is Ok <==> old(self).network.listening_port is None,
            out is Ok ==> final(self).network.listening_port == Some(port),
            out is Err ==> out.unwrap_err() == NetworkError::Bind && *final(self) == *old(self),
    {
        self.network.start_listening(port)
    }

    /// Completes an outgoing connection: what becomes of the network is
    /// what [`NetworkManager::connect_to_peer`] makes of it. On success the
    /// peer is in the table; a failure changes nothing.
    pub fn connect_to_peer(
        &mut self,
        address: &str,
        dialed: bool,
        first: Option<&Message>,
        now: i64,
    ) -> (out: Result<Peer, NetworkError>)
        requires
            old(self).wf(),
        ensures
            final(self).wf(),
            final(self).identity == old(self).identity,
            final(self).config == old(self).config,
            connect_done(old(self).network, final(self).network, dialed, first, address@, now, out),
            out is Ok ==> holds_peer(final(self).network.connections@, out.unwrap().id),
    {
        let ghost before = self.network.connections@;
        let out = self.network.connect_to_peer(address, dialed, first, now);
        proof {
            if out is Ok {
                let id = out.unwrap().id;
                let after = self.network.connections@;
                if holds_peer(before, id) {
                    assert(after[crate::network::slot_of(before, id)].peer.id == id);
                } else {
                    assert(after[after.len() - 1].peer.id == id);
                }
            }
        }
        out
    }

    /// Prepares `content` at `now` for the peer that `peer_id` names: see
    /// [`NetworkManager::send_message`]. Nothing is changed.
    pub fn send_message(&self, peer_id: &str, content: &str, now: i64) -> (out: Result<
        (Message, EncryptedMessage),
        NetworkError,
    >)
        requires
            self.wf(),
        ensures
            send_prepared(self.network, peer_id@, content@, now, out),
    {
        self.network.send_message(peer_id, content, now)
    }

    /// Takes note at `now` of what became of a prepared message on the
    /// wire: see [`NetworkManager::confirm_sent`].
    pub fn confirm_sent(&mut self, message: Message, written: bool, now: i64) -> (out: Result<
        String,
        NetworkError,
    >)
        requires
            old(self).wf(),
        ensures
            final(self).wf(),
            final(self).identity == old(self).identity,
            final(self).config == old(self).config,
            sent_confirmed(old(self).network, final(self).network, message, written, out),
    {
        self.network.confirm_sent(message, written, now)
    }

    /// Answers at `now` a liveness probe: see [`NetworkManager::ping_peer`].
    /// A peer that is not in the table is offline, and nothing changes.
    pub fn ping_peer(&self, peer_id: &str, probe: Option<u64>, now: i64) -> (status: PeerPingStatus)
        requires
            self.wf(),
        ensures
            status.user_id@ == peer_id@,
            status.is_online == (names_peer(self.network.connections@, peer_id@) && probe is Some),
            status.last_seen == now,
            status.response_time == if status.is_online {
                probe
            } else {
                None
            },
    {
        self.network.ping_peer(peer_id, probe, now)
    }

    /// Changes the name under which the local user appears to its peers.
    pub fn set_nickname(&mut self, nickname: String) -> (out: Result<(), NetworkError>)
        requires
            old(self).wf(),
        ensures
            final(self).wf(),
            out is Ok,
            final(self).network.identity.display_name == Some(nickname),
            final(self).network.connections == old(self).network.connections,
            final(self).network.inbox == old(self).network.inbox,
            final(self).identity == old(self).identity,
            final(self).config == old(self).config,
    {
        self.network.set_nickname(nickname)
    }

    /// Copies of the peers in the table, in its order.
    pub fn get_connected_peers(&self) -> (peers: Vec<Peer>)
        ensures
            peers@.len() == self.network.connections@.len(),
            forall|i: int|
                0 <= i < peers@.len() ==> (#[trigger] peers@[i])@
                    == self.network.connections@[i].peer@,
    {
        self.network.get_connected_peers()
    }

    /// Shuts the network down at `now`: see [`NetworkManager::shutdown`].
    pub fn shutdown(&mut self, now: i64)
        requires
            old(self).wf(),
        ensures
            final(self).wf(),
            final(self).network.connections@.len() == 0,
            final(self).network.listening_port is None,
            final(self).network.inbox == old(self).network.inbox,
            final(self).identity == old(self).identity,
            final(self).config == old(self).config,
    {
        self.network.shutdown(now);
    }
}

} // verus!
