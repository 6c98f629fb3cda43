//! Position reported by an orbit after one advance.
use vstd::prelude::*;

verus! {

/// Where an orbit stands after an advance: how much Left input it consumed,
/// how much Left output it produced, and the signals it raises.
#[derive(Debug)]
pub struct TlsPosition {
    /// Bytes to discard from the front of the Left input.
    pub in_discard: usize,
    /// Bytes appended to the Left output, ready to be sent.
    pub out_send: usize,
    /// Bytes encoded but not yet marked for sending.
    pub out_encoded: usize,
    /// The orbit wants application data from the Right side.
    pub want_write_right: bool,
    /// The peer has closed its side.
    pub peer_closed: bool,
}

impl Default for TlsPosition {
    fn default() -> (p: TlsPosition)
        ensures
            p.in_discard == 0,
            p.out_send == 0,
            p.out_encoded == 0,
            !p.want_write_right,
            !p.peer_closed,
    {
        TlsPosition {
            in_discard: 0,
            out_send: 0,
            out_encoded: 0,
            want_write_right: false,
            peer_closed: false,
        }
    }
}

impl TlsPosition {
    /// A position with the given discard and every other field at its default.
    pub open spec fn discard_only(in_discard: usize) -> TlsPosition {
        TlsPosition {
            in_discard,
            out_send: 0,
            out_encoded: 0,
            want_write_right: false,
            peer_closed: false,
        }
    }

    /// The peer closed the connection.
    pub fn peer_closed(in_discard: usize) -> (p: TlsPosition)
        ensures
            p == (TlsPosition { peer_closed: true, ..TlsPosition::discard_only(in_discard) }),
    {
        TlsPosition {
            in_discard,
            out_send: 0,
            out_encoded: 0,
            want_write_right: false,
            peer_closed: true,
        }
    }

    /// The handshake waits for more input from the peer.
    pub fn with_blocked_handshake(in_discard: usize) -> (p: TlsPosition)
        ensures
            p == TlsPosition::discard_only(in_discard),
    {
        TlsPosition {
            in_discard,
            out_send: 0,
            out_encoded: 0,
            want_write_right: false,
            peer_closed: false,
        }
    }

    /// Only input was consumed.
    pub fn with_discard_only(in_discard: usize) -> (p: TlsPosition)
        ensures
            p == TlsPosition::discard_only(in_discard),
    {
        TlsPosition {
            in_discard,
            out_send: 0,
            out_encoded: 0,
            want_write_right: false,
            peer_closed: false,
        }
    }

    /// Input was consumed and output encoded.
    pub fn with_encoded(in_discard: usize, out_encoded: usize) -> (p: TlsPosition)
        ensures
            p == (TlsPosition { out_encoded, ..TlsPosition::discard_only(in_discard) }),
    {
        TlsPosition {
            in_discard,
            out_send: 0,
            out_encoded,
            want_write_right: false,
            peer_closed: false,
        }
    }

    /// Input was consumed and output is ready to be sent.
    pub fn with_send(in_discard: usize, out_send: usize) -> (p: TlsPosition)
        ensures
            p == (TlsPosition { out_send, ..TlsPosition::discard_only(in_discard) }),
    {
        TlsPosition {
            in_discard,
            out_send,
            out_encoded: 0,
            want_write_right: false,
            peer_closed: false,
        }
    }

    /// The orbit waits for application data from the Right side.
    pub fn want_write_right(in_discard: usize) -> (p: TlsPosition)
        ensures
            p == (TlsPosition { want_write_right: true, ..TlsPosition::discard_only(in_discard) }),
    {
        TlsPosition {
            in_discard,
            out_send: 0,
            out_encoded: 0,
            want_write_right: true,
            peer_closed: false,
        }
    }
}

} // verus!
