//! Media streams: RTSP cameras and WebRTC peers.
use vstd::prelude::*;
use crate::error::GrassError;

verus! {

/// An RTSP client.
pub trait GrassRtspClient {
    /// Whether the client is connected.
    spec fn is_connected(&self) -> bool;

    /// Connects to the stream at `url`; this succeeds.
    fn connect(&mut self, url: &str) -> (r: Result<(), GrassError>)
        ensures
            final(self).is_connected(),
            r is Ok,
    ;

    /// The next frame.
    fn get_frame(&self) -> (r: Result<Vec<u8>, GrassError>);

    /// Disconnects; this succeeds.
    fn disconnect(&mut self) -> (r: Result<(), GrassError>)
        ensures
            !final(self).is_connected(),
            r is Ok,
    ;
}

/// An RTSP stream: the URL it holds and whether it is connected.
pub struct GrassRtspStream {
    url: String,
    connected: bool,
}

impl GrassRtspStream {
    pub closed spec fn url_text(&self) -> Seq<char> {
        self.url@
    }

    /// A stream with no URL, not connected.
    pub fn new() -> (r: Self)
        ensures
            r.url_text().len() == 0,
            !r.is_connected(),
    {
        GrassRtspStream { url: String::new(), connected: false }
    }

    pub fn url(&self) -> (r: &str)
        ensures
            r@ == self.url_text(),
    {
        self.url.as_str()
    }

    /// Whether the stream is connected.
    pub fn connected(&self) -> (r: bool)
        ensures
            r == self.is_connected(),
    {
        self.connected
    }
}

impl GrassRtspClient for GrassRtspStream {
    closed spec fn is_connected(&self) -> bool {
        self.connected
    }

    /// Marks the stream connected; the URL it holds stays.
    fn connect(&mut self, url: &str) -> (r: Result<(), GrassError>)
        ensures
            final(self).url_text() == old(self).url_text(),
    {
        self.connected = true;
        Ok(())
    }

    /// An empty frame.
    fn get_frame(&self) -> (r: Result<Vec<u8>, GrassError>)
        ensures
            r matches Ok(v) && v@.len() == 0,
    {
        Ok(Vec::new())
    }

    /// Marks the stream disconnected.
    fn disconnect(&mut self) -> (r: Result<(), GrassError>)
        ensures
            final(self).url_text() == old(self).url_text(),
    {
        self.connected = false;
        Ok(())
    }
}

/// The states of a WebRTC connection.
#[derive(Debug, Clone, Copy, PartialEq, Eq, Structural)]
pub enum GrassRtcState {
    New,
    Connecting,
    Connected,
    Disconnected,
    Failed,
}

/// The session description that a peer offers.
pub open spec fn offer_sdp() -> Seq<char> {
    "v=0\r\no=- 0 0 IN IP4 0.0.0.0\r\n"@
}

/// A WebRTC peer.
pub trait GrassRtcPeer {
    /// The connection state.
    spec fn current_state(&self) -> GrassRtcState;

    /// An SDP offer.
    fn create_offer(&self) -> (r: Result<String, GrassError>);

    /// Takes the remote side's session description.
    fn set_remote_description(&mut self, sdp: &str) -> (r: Result<(), GrassError>);

    /// Takes an ICE candidate.
    fn add_ice_candidate(&self, candidate: &str) -> (r: Result<(), GrassError>);

    /// Sends `data` over the data channel.
    fn send_data(&self, data: &[u8]) -> (r: Result<(), GrassError>);

    /// Closes the connection.
    fn close(&mut self) -> (r: Result<(), GrassError>);

    /// The connection state.
    fn state(&self) -> (r: GrassRtcState)
        ensures
            r == self.current_state(),
    ;
}

/// A WebRTC peer that tracks its connection state: new until the remote
/// description arrives, then connected until closed.
pub struct GrassWebRtcPeer {
    state: GrassRtcState,
}

impl GrassWebRtcPeer {
    /// A peer in state `New`.
    pub fn new() -> (r: Self)
        ensures
            r.current_state() == GrassRtcState::New,
    {
        GrassWebRtcPeer { state: GrassRtcState::New }
    }
}

impl GrassRtcPeer for GrassWebRtcPeer {
    closed spec fn current_state(&self) -> GrassRtcState {
        self.state
    }

    /// The fixed offer `v=0\r\no=- 0 0 IN IP4 0.0.0.0\r\n`.
    fn create_offer(&self) -> (r: Result<String, GrassError>)
        ensures
            r matches Ok(s) && s@ == offer_sdp(),
    {
        Ok("v=0\r\no=- 0 0 IN IP4 0.0.0.0\r\n".to_owned())
    }

    /// Any remote description connects the peer.
    fn set_remote_description(&mut self, sdp: &str) -> (r: Result<(), GrassError>)
        ensures
            r is Ok,
            final(self).current_state() == GrassRtcState::Connected,
    {
        self.state = GrassRtcState::Connected;
        Ok(())
    }

    /// Accepts the candidate; the state stays.
    fn add_ice_candidate(&self, candidate: &str) -> (r: Result<(), GrassError>)
        ensures
            r is Ok,
    {
        Ok(())
    }

    /// Accepts the data; the state stays.
    fn send_data(&self, data: &[u8]) -> (r: Result<(), GrassError>)
        ensures
            r is Ok,
    {
        Ok(())
    }

    /// Disconnects the peer.
    fn close(&mut self) -> (r: Result<(), GrassError>)
        ensures
            r is Ok,
            final(self).current_state() == GrassRtcState::Disconnected,
    {
        self.state = GrassRtcState::Disconnected;
        Ok(())
    }

    fn state(&self) -> (r: GrassRtcState) {
        self.state
    }
}


impl Default for GrassRtspStream {
    /// A stream with no URL, not connected.
    fn default() -> (r: Self)
        ensures
            r.url_text().len() == 0,
            !r.is_connected(),
    {
        Self::new()
    }
}

impl Default for GrassWebRtcPeer {
    /// A peer in state `New`.
    fn default() -> (r: Self)
        ensures
            r.current_state() == GrassRtcState::New,
    {
        Self::new()
    }
}

} // verus!
