pub mod auth;
pub mod id;

use vstd::prelude::*;
use vstd::string::*;
use crate::capture::capturer::Capturer;
use crate::encode::encoder::Encoder;
use crate::error::{is_connection_error, AppError};
use crate::input::injector::InputInjector;
use crate::network::ice::{is_stun_entry, IceServer};
use crate::network::signaling::{opt_text, SignalingClient, SignalingMessage};
use crate::network::webrtc_peer::WebRtcPeer;

verus! {

/// A frame rate brought into the supported range, 10 to 60 frames per second.
pub open spec fn clamped_fps(fps: u32) -> u32 {
    if fps < 10 {
        10
    } else if fps > 60 {
        60
    } else {
        fps
    }
}

/// `fps` brought into 10..=60.
pub fn clamp_fps(fps: u32) -> (r: u32)
    ensures
        r == clamped_fps(fps),
        10 <= r <= 60,
{
    if fps < 10 {
        10
    } else if fps > 60 {
        60
    } else {
        fps
    }
}

/// Whether `r` is a connection error with message `msg`.
pub open spec fn fails_with_connection_error<T>(r: Result<T, AppError>, msg: Seq<char>) -> bool {
    r matches Err(e) && is_connection_error(e, msg)
}

/// The connection manager's configuration and parts: the signaling server, the
/// WebRTC settings, the capturer, encoder and input injector, and the frame rate.
/// The live connections are held by the caller.
pub struct ConnectionManager {
    signaling_url: String,
    webrtc: WebRtcPeer,
    pub capturer: Option<Box<dyn Capturer>>,
    pub encoder: Option<Box<dyn Encoder>>,
    pub injector: Option<Box<dyn InputInjector>>,
    fps: u32,
}

impl ConnectionManager {
    pub closed spec fn signaling_url_spec(&self) -> Seq<char> {
        self.signaling_url@
    }

    pub closed spec fn capturer_spec(&self) -> Option<Box<dyn Capturer>> {
        self.capturer
    }

    pub closed spec fn encoder_spec(&self) -> Option<Box<dyn Encoder>> {
        self.encoder
    }

    pub closed spec fn injector_spec(&self) -> Option<Box<dyn InputInjector>> {
        self.injector
    }

    pub closed spec fn fps_spec(&self) -> u32 {
        self.fps
    }

    pub closed spec fn webrtc_spec(&self) -> WebRtcPeer {
        self.webrtc
    }

    /// A manager for the signaling server at `signaling_url`, using the default
    /// STUN servers, at 30 frames per second, with no parts set.
    pub fn new(signaling_url: String) -> (r: Self)
        ensures
            r.signaling_url_spec() == signaling_url@,
            r.webrtc_spec().signaling_url_spec() == signaling_url@,
            r.webrtc_spec().ice_servers_spec().len() == 2,
            is_stun_entry(r.webrtc_spec().ice_servers_spec()[0], "stun:stun.l.google.com:19302"@),
            is_stun_entry(r.webrtc_spec().ice_servers_spec()[1], "stun:stun1.l.google.com:19302"@),
            r.fps_spec() == 30,
            r.capturer_spec() is None,
            r.encoder_spec() is None,
            r.injector_spec() is None,
    {
        ConnectionManager {
            signaling_url: signaling_url.clone(),
            webrtc: WebRtcPeer::new(signaling_url, IceServer::default_stun()),
            capturer: None,
            encoder: None,
            injector: None,
            fps: 30,
        }
    }

    pub fn set_capturer(&mut self, capturer: Box<dyn Capturer>)
        ensures
            final(self).capturer_spec() is Some,
            final(self).encoder_spec() == old(self).encoder_spec(),
            final(self).injector_spec() == old(self).injector_spec(),
            final(self).fps_spec() == old(self).fps_spec(),
    {
        self.capturer = Some(capturer);
    }

    pub fn set_encoder(&mut self, encoder: Box<dyn Encoder>)
        ensures
            final(self).encoder_spec() is Some,
            final(self).capturer_spec() == old(self).capturer_spec(),
            final(self).injector_spec() == old(self).injector_spec(),
            final(self).fps_spec() == old(self).fps_spec(),
    {
        self.encoder = Some(encoder);
    }

    pub fn set_injector(&mut self, injector: Box<dyn InputInjector>)
        ensures
            final(self).injector_spec() is Some,
            final(self).capturer_spec() == old(self).capturer_spec(),
            final(self).encoder_spec() == old(self).encoder_spec(),
            final(self).fps_spec() == old(self).fps_spec(),
    {
        self.injector = Some(injector);
    }

    /// Sets the frame rate, brought into 10..=60.
    pub fn set_fps(&mut self, fps: u32)
        ensures
            final(self).fps_spec() == clamped_fps(fps),
            final(self).capturer_spec() == old(self).capturer_spec(),
            final(self).encoder_spec() == old(self).encoder_spec(),
            final(self).injector_spec() == old(self).injector_spec(),
    {
        self.fps = clamp_fps(fps);
    }

    pub fn fps(&self) -> (r: u32)
        ensures
            r == self.fps_spec(),
    {
        self.fps
    }

    pub fn webrtc(&self) -> (r: &WebRtcPeer)
        ensures
            *r == self.webrtc_spec(),
    {
        &self.webrtc
    }

    /// The signaling client state for this manager's server, registering as
    /// `session_id` (what `connect_signaling` connects).
    pub fn signaling_client(&self, session_id: String) -> (r: SignalingClient)
        ensures
            r.url_spec() == self.signaling_url_spec(),
            r.session_spec() == Some(session_id@),
    {
        let mut client = SignalingClient::new(self.signaling_url.clone());
        client.set_session_id(session_id);
        client
    }

    /// The first steps of `start_streaming`: signaling must be connected, then
    /// the capturer and the encoder are taken out. The checks run in that order;
    /// a capturer taken out before the encoder turns out missing is dropped.
    pub fn take_stream_parts(&mut self, signaling_connected: bool) -> (r: Result<
        (Box<dyn Capturer>, Box<dyn Encoder>),
        AppError,
    >)
        ensures
            final(self).injector_spec() == old(self).injector_spec(),
            final(self).fps_spec() == old(self).fps_spec(),
            !signaling_connected ==> fails_with_connection_error(r, "Not connected to signaling"@)
                && final(self).capturer_spec() == old(self).capturer_spec() && final(self).encoder_spec()
                == old(self).encoder_spec(),
            signaling_connected && old(self).capturer_spec() is None ==> fails_with_connection_error(
                r,
                "No capturer set"@,
            ) && final(self).capturer_spec() is None && final(self).encoder_spec() == old(self).encoder_spec(),
            signaling_connected && old(self).capturer_spec() is Some && old(self).encoder_spec() is None
                ==> fails_with_connection_error(r, "No encoder set"@) && final(self).capturer_spec() is None
                && final(self).encoder_spec() is None,
            signaling_connected && old(self).capturer_spec() is Some && old(self).encoder_spec() is Some ==> r
                == Ok::<(Box<dyn Capturer>, Box<dyn Encoder>), AppError>(
                (old(self).capturer_spec()->0, old(self).encoder_spec()->0),
            ) && final(self).capturer_spec() is None && final(self).encoder_spec() is None,
    {
        if !signaling_connected {
            return Err(AppError::Connection(String::from_str("Not connected to signaling")));
        }
        let capturer = match self.capturer.take() {
            Some(c) => c,
            None => return Err(AppError::Connection(String::from_str("No capturer set"))),
        };
        let encoder = match self.encoder.take() {
            Some(e) => e,
            None => return Err(AppError::Connection(String::from_str("No encoder set"))),
        };
        Ok((capturer, encoder))
    }

    /// Takes the input injector out, for the input task.
    pub fn take_injector(&mut self) -> (r: Option<Box<dyn InputInjector>>)
        ensures
            r == old(self).injector_spec(),
            final(self).injector_spec() is None,
            final(self).capturer_spec() == old(self).capturer_spec(),
            final(self).encoder_spec() == old(self).encoder_spec(),
            final(self).fps_spec() == old(self).fps_spec(),
    {
        self.injector.take()
    }
}

/// The SDP string carried in an `offer` or `answer` message; when there is
/// none, a connection error "No SDP in {what}".
pub fn sdp_of(msg: &SignalingMessage, what: &str) -> (r: Result<String, AppError>)
    ensures
        match msg.sdp {
            Some(s) => r matches Ok(t) && t@ == s@,
            None => r matches Err(e) && is_connection_error(e, "No SDP in "@ + what@),
        },
{
    match &msg.sdp {
        Some(sdp) => Ok(sdp.clone()),
        None => {
            let mut m = String::from_str("No SDP in ");
            m.append(what);
            Err(AppError::Connection(m))
        },
    }
}

} // verus!
