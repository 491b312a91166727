//! What is known of a remote identity, independent of the transport.
use vstd::prelude::*;
use crate::stamp::{now_millis};
use crate::text::{copy_text};

verus! {

/// Where a peer stands in the life of its connection.
#[derive(Debug, Clone, Copy, PartialEq, Eq, Structural)]
pub enum PeerStatus {
    Connected,
    Connecting,
    Disconnected,
    HandshakeInProgress,
    Authenticated,
}

impl PeerStatus {
    /// The peer has completed a handshake and has not been disconnected.
    pub open spec fn is_established(self) -> bool {
        self == PeerStatus::Connected || self == PeerStatus::Authenticated
    }

    /// A peer in this state may hold a slot in a connection table.
    pub open spec fn is_live(self) -> bool {
        self.is_established() || self == PeerStatus::HandshakeInProgress
    }
}

/// A remote identity and the state of the connection to it.
#[derive(Debug)]
pub struct Peer {
    pub id: u128,
    pub email: String,
    pub display_name: String,
    pub address: String,
    pub public_key: String,
    pub status: PeerStatus,
    pub connected_at: Option<i64>,
    pub last_seen: i64,
}

/// The mathematical value of a [`Peer`].
pub struct PeerView {
    pub id: u128,
    pub email: Seq<char>,
    pub display_name: Seq<char>,
    pub address: Seq<char>,
    pub public_key: Seq<char>,
    pub status: PeerStatus,
    pub connected_at: Option<i64>,
    pub last_seen: i64,
}

impl View for Peer {
    type V = PeerView;

    open spec fn view(&self) -> PeerView {
        PeerView {
            id: self.id,
            email: self.email@,
            display_name: self.display_name@,
            address: self.address@,
            public_key: self.public_key@,
            status: self.status,
            connected_at: self.connected_at,
            last_seen: self.last_seen,
        }
    }
}

impl Clone for Peer {
    fn clone(&self) -> (copy: Peer)
        ensures
            copy@ == self@,
    {
        Peer {
            id: self.id,
            email: copy_text(&self.email),
            display_name: copy_text(&self.display_name),
            address: copy_text(&self.address),
            public_key: copy_text(&self.public_key),
            status: self.status,
            connected_at: self.connected_at,
            last_seen: self.last_seen,
        }
    }
}

/// The difference of two timestamps, held within the range of `i64`.
pub open spec fn elapsed_spec(since: i64, now: i64) -> i64 {
    if now - since > i64::MAX {
        i64::MAX
    } else if now - since < i64::MIN {
        i64::MIN
    } else {
        (now - since) as i64
    }
}

impl Peer {
    /// A peer first seen at `now`, about to connect.
    pub fn new_at(
        id: u128,
        email: String,
        display_name: String,
        address: String,
        public_key: String,
        now: i64,
    ) -> (peer: Peer)
        ensures
            peer@ == (PeerView {
                id,
                email: email@,
                display_name: display_name@,
                address: address@,
                public_key: public_key@,
                status: PeerStatus::Connecting,
                connected_at: None,
                last_seen: now,
            }),
    {
        Peer {
            id,
            email,
            display_name,
            address,
            public_key,
            status: PeerStatus::Connecting,
            connected_at: None,
            last_seen: now,
        }
    }

    /// A peer first seen now, about to connect.
    pub fn new(id: u128, email: String, display_name: String, address: String, public_key: String)
        -> (peer: Peer)
        ensures
            peer@ == (PeerView {
                id,
                email: email@,
                display_name: display_name@,
                address: address@,
                public_key: public_key@,
                status: PeerStatus::Connecting,
                connected_at: None,
                last_seen: peer.last_seen,
            }),
    {
        let now = now_millis();
        Peer::new_at(id, email, display_name, address, public_key, now)
    }

    /// Records at `now` that the connection stands.
    pub fn mark_connected(&mut self, now: i64)
        ensures
            final(self)@ == (PeerView {
                status: PeerStatus::Connected,
                connected_at: Some(now),
                last_seen: now,
                ..old(self)@
            }),
    {
        self.status = PeerStatus::Connected;
        self.connected_at = Some(now);
        self.last_seen = now;
    }

    /// Records at `now` that the handshake succeeded.
    pub fn mark_authenticated(&mut self, now: i64)
        ensures
            final(self)@ == (PeerView {
                status: PeerStatus::Authenticated,
                last_seen: now,
                ..old(self)@
            }),
    {
        self.status = PeerStatus::Authenticated;
        self.last_seen = now;
    }

    /// Records at `now` that the connection has ended.
    pub fn mark_disconnected(&mut self, now: i64)
        ensures
            final(self)@ == (PeerView {
                status: PeerStatus::Disconnected,
                last_seen: now,
                ..old(self)@
            }),
    {
        self.status = PeerStatus::Disconnected;
        self.last_seen = now;
    }

    /// Records that the peer was heard from at `now`.
    pub fn touch(&mut self, now: i64)
        ensures
            final(self)@ == (PeerView { last_seen: now, ..old(self)@ }),
    {
        self.last_seen = now;
    }

    /// The connection stands, as of the clock's current time.
    pub fn set_connected(&mut self)
        ensures
            final(self).connected_at is Some,
            final(self).connected_at == Some(final(self).last_seen),
            final(self)@ == (PeerView {
                status: PeerStatus::Connected,
                connected_at: final(self).connected_at,
                last_seen: final(self).last_seen,
                ..old(self)@
            }),
    {
        let now = now_millis();
        self.mark_connected(now);
    }

    /// The handshake succeeded, as of the clock's current time.
    pub fn set_authenticated(&mut self)
        ensures
            final(self)@ == (PeerView {
                status: PeerStatus::Authenticated,
                last_seen: final(self).last_seen,
                ..old(self)@
            }),
    {
        let now = now_millis();
        self.mark_authenticated(now);
    }

    /// The connection has ended, as of the clock's current time.
    pub fn set_disconnected(&mut self)
        ensures
            final(self)@ == (PeerView {
                status: PeerStatus::Disconnected,
                last_seen: final(self).last_seen,
                ..old(self)@
            }),
    {
        let now = now_millis();
        self.mark_disconnected(now);
    }

    /// The peer was heard from just now.
    pub fn update_last_seen(&mut self)
        ensures
            final(self)@ == (PeerView { last_seen: final(self).last_seen, ..old(self)@ }),
    {
        let now = now_millis();
        self.touch(now);
    }

    /// Whether a handshake has completed and the peer is still there.
    pub fn is_connected(&self) -> (connected: bool)
        ensures
            connected == self.status.is_established(),
    {
        match self.status {
            PeerStatus::Connected => true,
            PeerStatus::Authenticated => true,
            _ => false,
        }
    }

    /// Milliseconds from the moment the connection stood until `now`, if
    /// it ever stood.
    pub fn connection_duration_at(&self, now: i64) -> (elapsed: Option<i64>)
        ensures
            elapsed == match self.connected_at {
                Some(since) => Some(elapsed_spec(since, now)),
                None => None,
            },
    {
        match self.connected_at {
            Some(since) => {
                let wide: i128 = now as i128 - since as i128;
                if wide > i64::MAX as i128 {
                    Some(i64::MAX)
                } else if wide < i64::MIN as i128 {
                    Some(i64::MIN)
                } else {
                    Some(wide as i64)
                }
            },
            None => None,
        }
    }

    /// Milliseconds for which the connection has stood until the clock's
    /// current time, if it ever stood.
    pub fn connection_duration(&self) -> (elapsed: Option<i64>)
        ensures
            elapsed is Some <==> self.connected_at is Some,
            elapsed is Some ==> exists|now: i64|
                elapsed.unwrap() == #[trigger] elapsed_spec(self.connected_at.unwrap(), now),
    {
        let now = now_millis();
        self.connection_duration_at(now)
    }
}

/// The answer to a liveness probe.
#[derive(Debug)]
pub struct PeerPingStatus {
    pub user_id: String,
    pub is_online: bool,
    pub last_seen: i64,
    pub response_time: Option<u64>,
}

impl PeerPingStatus {
    /// At `now` the peer answered within `response_time` milliseconds.
    pub fn online_at(user_id: String, response_time: u64, now: i64) -> (status: PeerPingStatus)
        ensures
            status.user_id@ == user_id@,
            status.is_online,
            status.last_seen == now,
            status.response_time == Some(response_time),
    {
        PeerPingStatus {
            user_id,
            is_online: true,
            last_seen: now,
            response_time: Some(response_time),
        }
    }

    /// At `now` the peer is unknown or did not answer.
    pub fn offline_at(user_id: String, now: i64) -> (status: PeerPingStatus)
        ensures
            status.user_id@ == user_id@,
            !status.is_online,
            status.last_seen == now,
            status.response_time is None,
    {
        PeerPingStatus { user_id, is_online: false, last_seen: now, response_time: None }
    }

    /// The peer answered within `response_time` milliseconds, as of the
    /// clock's current time.
    pub fn online(user_id: String, response_time: u64) -> (status: PeerPingStatus)
        ensures
            status.user_id@ == user_id@,
            status.is_online,
            status.response_time == Some(response_time),
    {
        PeerPingStatus::online_at(user_id, response_time, now_millis())
    }

    /// The peer is unknown or did not answer, as of the clock's current
    /// time.
    pub fn offline(user_id: String) -> (status: PeerPingStatus)
        ensures
            status.user_id@ == user_id@,
            !status.is_online,
            status.response_time is None,
    {
        PeerPingStatus::offline_at(user_id, now_millis())
    }
}

} // verus!
