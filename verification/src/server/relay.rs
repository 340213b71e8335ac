use vstd::prelude::*;
use crate::network::signaling::{opt_text, SignalingMessage};
use crate::server::registry::PeerRegistry;
use crate::text::same_text;

verus! {

/// What the server does with one text message from a peer.
#[derive(Debug, Clone, Copy, PartialEq, Eq, Structural)]
pub enum RelayOutcome {
    /// The sender was registered under the ID it gave.
    Registered,
    /// The message goes, unchanged, to the connection with this handle.
    Relayed(u64),
    /// The message is for a peer that is not online; it is dropped.
    TargetOffline,
    /// A field the message type needs is missing; the message is dropped.
    Ignored,
    /// The sender gets `{"type":"pong"}` back.
    Pong,
    /// The sender asked whether a peer is online; it gets this answer back.
    Presence(bool),
    /// The message type is not known; the message is dropped.
    UnknownType,
}

/// Whether messages of this type are passed on to their target.
pub open spec fn is_relayed_type(t: Seq<char>) -> bool {
    t == "offer"@ || t == "answer"@ || t == "ice-candidate"@ || t == "disconnect"@
}

/// The outcome of a message, given the peers online when it arrives.
pub open spec fn route_outcome(peers: Map<Seq<char>, u64>, msg: SignalingMessage) -> RelayOutcome {
    let t = msg.msg_type@;
    if t == "register"@ {
        if msg.from is Some {
            RelayOutcome::Registered
        } else {
            RelayOutcome::Ignored
        }
    } else if is_relayed_type(t) {
        match opt_text(msg.to) {
            Some(target) => if peers.contains_key(target) {
                RelayOutcome::Relayed(peers[target])
            } else {
                RelayOutcome::TargetOffline
            },
            None => RelayOutcome::Ignored,
        }
    } else if t == "ping"@ {
        RelayOutcome::Pong
    } else if t == "is-online"@ {
        match opt_text(msg.to) {
            Some(target) => RelayOutcome::Presence(peers.contains_key(target)),
            None => RelayOutcome::Ignored,
        }
    } else {
        RelayOutcome::UnknownType
    }
}

/// The peers online after a message from connection `conn` is handled.
pub open spec fn peers_after(peers: Map<Seq<char>, u64>, conn: u64, msg: SignalingMessage) -> Map<
    Seq<char>,
    u64,
> {
    if msg.msg_type@ == "register"@ && msg.from is Some {
        peers.insert(msg.from->0@, conn)
    } else {
        peers
    }
}

/// The ID the connection is registered under after a message is handled.
pub open spec fn session_after(session: Option<Seq<char>>, msg: SignalingMessage) -> Option<
    Seq<char>,
> {
    if msg.msg_type@ == "register"@ && msg.from is Some {
        opt_text(msg.from)
    } else {
        session
    }
}

/// Handles one text message that arrived on connection `conn`, whose peer has
/// registered as `session_id` (if it has): `register` records the sender,
/// `offer`/`answer`/`ice-candidate`/`disconnect` go to their target, `ping` is
/// answered, and `is-online` is answered with whether its target is online.
pub fn handle_message(
    registry: &mut PeerRegistry,
    conn: u64,
    session_id: &mut Option<String>,
    msg: &SignalingMessage,
) -> (r: RelayOutcome)
    ensures
        r == route_outcome(old(registry)@, *msg),
        final(registry)@ == peers_after(old(registry)@, conn, *msg),
        opt_text(*final(session_id)) == session_after(opt_text(*old(session_id)), *msg),
{
    let t = msg.msg_type.as_str();
    if same_text(t, "register") {
        match &msg.from {
            Some(id) => {
                registry.register(id.clone(), conn);
                *session_id = Some(id.clone());
                RelayOutcome::Registered
            },
            None => RelayOutcome::Ignored,
        }
    } else if same_text(t, "offer") || same_text(t, "answer") || same_text(t, "ice-candidate")
        || same_text(t, "disconnect") {
        match &msg.to {
            Some(target) => match registry.get_session(target.as_str()) {
                Some(handle) => RelayOutcome::Relayed(handle),
                None => RelayOutcome::TargetOffline,
            },
            None => RelayOutcome::Ignored,
        }
    } else if same_text(t, "ping") {
        RelayOutcome::Pong
    } else if same_text(t, "is-online") {
        match &msg.to {
            Some(target) => RelayOutcome::Presence(registry.is_online(target.as_str())),
            None => RelayOutcome::Ignored,
        }
    } else {
        RelayOutcome::UnknownType
    }
}

/// Handles the end of a connection (closed or failed): its peer goes offline.
pub fn handle_close(registry: &mut PeerRegistry, session_id: &Option<String>)
    ensures
        final(registry)@ == match opt_text(*session_id) {
            Some(id) => old(registry)@.remove(id),
            None => old(registry)@,
        },
{
    match session_id {
        Some(id) => registry.unregister(id.as_str()),
        None => {},
    }
}

/// Once a connection has registered as `id`, every offer, answer or ICE
/// candidate addressed to `id` is relayed to that connection.
pub proof fn lemma_register_then_relay(
    peers: Map<Seq<char>, u64>,
    conn: u64,
    register: SignalingMessage,
    msg: SignalingMessage,
)
    requires
        register.msg_type@ == "register"@,
        register.from is Some,
        is_relayed_type(msg.msg_type@),
        opt_text(msg.to) == opt_text(register.from),
    ensures
        route_outcome(peers_after(peers, conn, register), msg) == RelayOutcome::Relayed(conn),
{
    reveal_strlit("register");
    reveal_strlit("offer");
    reveal_strlit("answer");
    reveal_strlit("ice-candidate");
    reveal_strlit("disconnect");
    reveal_strlit("ping");
    reveal_strlit("is-online");
    assert("register"@.len() == 8);
    assert("offer"@.len() == 5);
    assert("answer"@.len() == 6);
    assert("ice-candidate"@.len() == 13);
    assert("disconnect"@.len() == 10);
}

/// After the connection of `id` closes, messages addressed to `id` are dropped.
pub proof fn lemma_close_then_offline(peers: Map<Seq<char>, u64>, id: Seq<char>, msg: SignalingMessage)
    requires
        is_relayed_type(msg.msg_type@),
        opt_text(msg.to) == Some(id),
    ensures
        route_outcome(peers.remove(id), msg) == RelayOutcome::TargetOffline,
{
    reveal_strlit("register");
    reveal_strlit("offer");
    reveal_strlit("answer");
    reveal_strlit("ice-candidate");
    reveal_strlit("disconnect");
    reveal_strlit("ping");
    reveal_strlit("is-online");
    assert("register"@.len() == 8);
    assert("offer"@.len() == 5);
    assert("answer"@.len() == 6);
    assert("ice-candidate"@.len() == 13);
    assert("disconnect"@.len() == 10);
}

/// Messages other than `register` leave the registry and the connection's ID as
/// they were.
pub proof fn lemma_only_register_changes_state(
    peers: Map<Seq<char>, u64>,
    conn: u64,
    session: Option<Seq<char>>,
    msg: SignalingMessage,
)
    requires
        msg.msg_type@ != "register"@,
    ensures
        peers_after(peers, conn, msg) == peers,
        session_after(session, msg) == session,
{
}

/// Whether a peer is online is what an `is-online` query about it is
/// answered: yes right after it registers, no right after its connection closes.
pub proof fn lemma_presence_follows_registration(
    peers: Map<Seq<char>, u64>,
    conn: u64,
    register: SignalingMessage,
    query: SignalingMessage,
)
    requires
        register.msg_type@ == "register"@,
        register.from is Some,
        query.msg_type@ == "is-online"@,
        opt_text(query.to) == opt_text(register.from),
    ensures
        route_outcome(peers_after(peers, conn, register), query) == RelayOutcome::Presence(true),
        route_outcome(peers_after(peers, conn, register).remove(register.from->0@), query)
            == RelayOutcome::Presence(false),
{
    reveal_strlit("register");
    reveal_strlit("offer");
    reveal_strlit("answer");
    reveal_strlit("ice-candidate");
    reveal_strlit("disconnect");
    reveal_strlit("ping");
    reveal_strlit("is-online");
    assert("register"@.len() == 8);
    assert("offer"@.len() == 5);
    assert("answer"@.len() == 6);
    assert("ice-candidate"@.len() == 13);
    assert("disconnect"@.len() == 10);
    assert("ping"@.len() == 4);
    assert("is-online"@.len() == 9);
}

} // verus!
