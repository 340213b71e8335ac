use vstd::prelude::*;
use vstd::string::*;
use crate::text::same_text;

verus! {

/// The text of an optional string.
pub open spec fn opt_text(o: Option<String>) -> Option<Seq<char>> {
    match o {
        Some(s) => Some(s@),
        None => None,
    }
}

/// A message exchanged with the signaling server.
#[derive(Debug, Clone)]
pub struct SignalingMessage {
    pub msg_type: String,
    pub from: Option<String>,
    pub to: Option<String>,
    pub payload: Option<serde_json::Value>,
    /// The SDP the message carries: for a decoded message, the string held under
    /// the payload's `sdp` key; when encoded, a message with an SDP and no
    /// payload gets the payload `{"sdp": ...}`.
    pub sdp: Option<String>,
}

/// Whether `msg` is the message awaited: of type `expected_type` and sent by `from_peer`.
pub open spec fn is_awaited(msg: SignalingMessage, expected_type: Seq<char>, from_peer: Seq<char>) -> bool {
    msg.msg_type@ == expected_type && opt_text(msg.from) == Some(from_peer)
}

/// Signaling client state: the server URL and the session this client registers as.
/// The connection itself is held by the caller.
pub struct SignalingClient {
    url: String,
    session_id: Option<String>,
}

impl SignalingClient {
    pub closed spec fn url_spec(&self) -> Seq<char> {
        self.url@
    }

    pub closed spec fn session_spec(&self) -> Option<Seq<char>> {
        opt_text(self.session_id)
    }

    /// A client for the server at `url`, with no session set.
    pub fn new(url: String) -> (r: Self)
        ensures
            r.url_spec() == url@,
            r.session_spec() is None,
    {
        SignalingClient { url, session_id: None }
    }

    /// The server URL.
    pub fn url(&self) -> (r: &str)
        ensures
            r@ == self.url_spec(),
    {
        self.url.as_str()
    }

    /// The session this client registers as, if set.
    pub fn session_id(&self) -> (r: Option<&str>)
        ensures
            match r {
                Some(s) => self.session_spec() == Some(s@),
                None => self.session_spec() is None,
            },
    {
        match &self.session_id {
            Some(s) => Some(s.as_str()),
            None => None,
        }
    }

    pub fn set_session_id(&mut self, id: String)
        ensures
            final(self).session_spec() == Some(id@),
            final(self).url_spec() == old(self).url_spec(),
    {
        self.session_id = Some(id);
    }

    /// The message sent right after connecting: a `register` message from this
    /// session, when a session is set.
    pub fn registration_message(&self) -> (r: Option<SignalingMessage>)
        ensures
            match self.session_spec() {
                Some(id) => r matches Some(m) && m.msg_type@ == "register"@ && opt_text(m.from)
                    == Some(id) && m.to is None && m.payload is None && m.sdp is None,
                None => r is None,
            },
    {
        match &self.session_id {
            Some(id) => Some(
                SignalingMessage {
                    msg_type: String::from_str("register"),
                    from: Some(id.clone()),
                    to: None,
                    payload: None,
                    sdp: None,
                },
            ),
            None => None,
        }
    }

    /// The message carrying an SDP offer or answer: of type `msg_type`, from
    /// this session (if set) to `target`, with the SDP and no other payload.
    pub fn sdp_message(&self, target: &str, msg_type: &str, sdp: String) -> (r: SignalingMessage)
        ensures
            r.msg_type@ == msg_type@,
            opt_text(r.from) == self.session_spec(),
            opt_text(r.to) == Some(target@),
            r.payload is None,
            opt_text(r.sdp) == Some(sdp@),
    {
        let from = match &self.session_id {
            Some(id) => Some(id.clone()),
            None => None,
        };
        SignalingMessage {
            msg_type: String::from_str(msg_type),
            from,
            to: Some(String::from_str(target)),
            payload: None,
            sdp: Some(sdp),
        }
    }

    /// The message that `send_to` sends: of type `msg_type`, from this session
    /// (if set) to `target`, carrying `payload`.
    pub fn addressed_message(&self, target: &str, msg_type: &str, payload: serde_json::Value) -> (r:
        SignalingMessage)
        ensures
            r.msg_type@ == msg_type@,
            opt_text(r.from) == self.session_spec(),
            opt_text(r.to) == Some(target@),
            r.payload == Some(payload),
            r.sdp is None,
    {
        let from = match &self.session_id {
            Some(id) => Some(id.clone()),
            None => None,
        };
        SignalingMessage {
            msg_type: String::from_str(msg_type),
            from,
            to: Some(String::from_str(target)),
            payload: Some(payload),
            sdp: None,
        }
    }
}

/// Whether a received message is the one `wait_for_message` waits for: of the
/// expected type and from the expected peer.
pub fn is_awaited_message(msg: &SignalingMessage, expected_type: &str, from_peer: &str) -> (r: bool)
    ensures
        r == is_awaited(*msg, expected_type@, from_peer@),
{
    if !same_text(msg.msg_type.as_str(), expected_type) {
        return false;
    }
    match &msg.from {
        Some(f) => same_text(f.as_str(), from_peer),
        None => false,
    }
}

} // verus!
