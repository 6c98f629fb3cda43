//! The byte stream that a TLS client reads from and writes to in the A/B
//! test: writes are kept until a read injector forwards them to the orbit.
use vstd::prelude::*;

verus! {

#[verifier::external_type_specification]
#[verifier::external_body]
pub struct ExIoError(std::io::Error);

/// What a read injector reports: how many written bytes it forwarded (to be
/// discarded from the stream), and the outcome of the read.
#[derive(Debug)]
pub struct AbStreamForward {
    /// Written bytes forwarded to the other side.
    pub discard_write: usize,
    /// The result the read reports.
    pub read_status: Result<usize, std::io::Error>,
}

/// A stream whose reads are served by an injector, with the bytes written to
/// it kept until they are forwarded.
pub struct AbStream<I, U> {
    /// Serves reads: gets the user data, the read buffer and the written bytes.
    pub read_injector: I,
    /// Bytes written and not yet forwarded.
    pub bytes_out: Vec<u8>,
    /// User data handed to the injector.
    pub user: U,
}

impl<I, U> AbStream<I, U> {
    /// A stream with the given user data and injector, nothing written yet.
    pub fn with_read_injector(user: U, f: I) -> (s: Self)
        ensures
            s.user == user,
            s.read_injector == f,
            s.bytes_out@ == Seq::<u8>::empty(),
    {
        AbStream { read_injector: f, bytes_out: Vec::with_capacity(16_384), user }
    }

    /// Drop the first `discard_write` written bytes, which were forwarded.
    pub fn discard_written(&mut self, discard_write: usize)
        requires
            discard_write <= old(self).bytes_out@.len(),
        ensures
            final(self).bytes_out@ == old(self).bytes_out@.subrange(
                discard_write as int,
                old(self).bytes_out@.len() as int,
            ),
            final(self).user == old(self).user,
            final(self).read_injector == old(self).read_injector,
    {
        if discard_write > 0 {
            let rest = self.bytes_out.split_off(discard_write);
            self.bytes_out = rest;
        }
        proof {
            assert(self.bytes_out@ =~= old(self).bytes_out@.subrange(
                discard_write as int,
                old(self).bytes_out@.len() as int,
            ));
        }
    }

    /// Keep the bytes written; returns how many were taken (all of them).
    pub fn write_bytes(&mut self, buf: &[u8]) -> (n: usize)
        ensures
            n == buf@.len(),
            final(self).bytes_out@ == old(self).bytes_out@ + buf@,
            final(self).user == old(self).user,
            final(self).read_injector == old(self).read_injector,
    {
        if buf.len() > 0 {
            self.bytes_out.extend_from_slice(buf);
            proof {
                assert(self.bytes_out@ =~= old(self).bytes_out@ + buf@);
            }
            return buf.len();
        }
        proof {
            assert(buf@ =~= Seq::<u8>::empty());
            assert(self.bytes_out@ =~= old(self).bytes_out@ + buf@);
        }
        0
    }
}

} // verus!
