//! Heartbeats: a socket whose client has not been heard of for too long is given up.
//!
//! Times are nanoseconds on one clock that does not run backwards.

use vstd::prelude::*;

verus! {

/// How often a socket looks whether its client is still there: every second.
pub const INTERVAL: u128 = 1_000_000_000;

/// How long a client may stay silent: ten seconds.
pub const CLIENT_TIMEOUT: u128 = 10_000_000_000;

/// What a client sends over a socket on which it has nothing to say.
#[derive(Debug)]
pub enum Frame {
    /// A ping, with what the client wants to get back.
    Ping(Vec<u8>),
    /// The answer to a ping.
    Pong,
    /// Anything else, a broken frame and the end of the connection among them.
    Other,
}

/// What is due for a frame.
#[derive(Debug)]
pub enum FrameAction {
    /// Send this back.
    Pong(Vec<u8>),
    /// Nothing.
    Nothing,
    /// Stop the socket.
    Stop,
}

/// What is due at a beat.
#[derive(Clone, Copy, Debug, PartialEq, Eq, Structural)]
pub enum Beat {
    /// Ping the client.
    Ping,
    /// Stop the socket.
    Stop,
}

/// The client was last heard of at `hb` and has now been silent for too long.
pub open spec fn timed_out(hb: u128, now: u128) -> bool {
    now - hb > CLIENT_TIMEOUT
}

/// When the client was last heard of, after a frame.
pub open spec fn heard_of(hb: u128, frame: Frame, now: u128) -> u128 {
    if frame is Other {
        hb
    } else {
        now
    }
}

/// A client who sends a ping or a pong is not given up within the ten seconds that follow, and is
/// given up after them if it sends no more.
pub proof fn law_sign_of_life_lasts(hb: u128, frame: Frame, now: u128, later: u128)
    requires
        !(frame is Other),
        now <= later,
    ensures
        timed_out(heard_of(hb, frame, now), later) == (later > now + CLIENT_TIMEOUT),
{
}

/// Whether the client has been silent for too long.
pub fn is_timed_out(hb: u128, now: u128) -> (late: bool)
    ensures
        late == timed_out(hb, now),
{
    now > hb && now - hb > CLIENT_TIMEOUT
}

/// What is due at a beat.
pub fn beat(hb: u128, now: u128) -> (due: Beat)
    ensures
        due == if timed_out(hb, now) {
            Beat::Stop
        } else {
            Beat::Ping
        },
{
    if is_timed_out(hb, now) {
        Beat::Stop
    } else {
        Beat::Ping
    }
}

/// What is due for a frame: a ping is answered with what it brought, a pong is taken note of,
/// anything else stops the socket. Ping and pong are signs of life.
pub fn handle_frame(hb: &mut u128, frame: Frame, now: u128) -> (due: FrameAction)
    ensures
        *final(hb) == heard_of(*old(hb), frame, now),
        due == match frame {
            Frame::Ping(msg) => FrameAction::Pong(msg),
            Frame::Pong => FrameAction::Nothing,
            Frame::Other => FrameAction::Stop,
        },
{
    match frame {
        Frame::Ping(msg) => {
            *hb = now;
            FrameAction::Pong(msg)
        },
        Frame::Pong => {
            *hb = now;
            FrameAction::Nothing
        },
        Frame::Other => FrameAction::Stop,
    }
}

} // verus!
