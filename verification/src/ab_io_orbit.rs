//! Left and Right I/O sides of an orbit, backed by byte vectors.
use vstd::prelude::*;

verus! {

/// Left (network) side: ciphertext coming in and going out.
pub struct AbIoLeft {
    in_bytes: Vec<u8>,
    in_bytes_len: usize,
    /// Output buffer; its first `out_bytes_len` bytes are pending.
    pub out_bytes: Vec<u8>,
    /// Number of pending output bytes.
    pub out_bytes_len: usize,
    blocked: bool,
    ready: bool,
    want_read: bool,
    want_write: bool,
    shutdown: bool,
}

/// Mathematical model of an [`AbIoLeft`].
pub ghost struct LeftModel {
    pub in_bytes: Seq<u8>,
    pub in_len: nat,
    pub out_bytes: Seq<u8>,
    pub out_len: nat,
    pub blocked: bool,
    pub ready: bool,
    pub want_read: bool,
    pub want_write: bool,
    pub shutdown: bool,
}

impl View for AbIoLeft {
    type V = LeftModel;

    closed spec fn view(&self) -> LeftModel {
        LeftModel {
            in_bytes: self.in_bytes@,
            in_len: self.in_bytes_len as nat,
            out_bytes: self.out_bytes@,
            out_len: self.out_bytes_len as nat,
            blocked: self.blocked,
            ready: self.ready,
            want_read: self.want_read,
            want_write: self.want_write,
            shutdown: self.shutdown,
        }
    }
}

/// The model of the lengths after `left_set_lens(new_in, new_out)`: a shrinking
/// length drops bytes from the front of its buffer, a growing one only moves the length.
pub open spec fn left_after_set_lens(m: LeftModel, new_in: nat, new_out: nat) -> LeftModel {
    LeftModel {
        in_bytes: if new_in < m.in_len {
            m.in_bytes.subrange(m.in_len - new_in, m.in_bytes.len() as int)
        } else {
            m.in_bytes
        },
        in_len: new_in,
        out_bytes: if new_out < m.out_len {
            m.out_bytes.subrange(m.out_len - new_out, m.out_bytes.len() as int)
        } else {
            m.out_bytes
        },
        out_len: new_out,
        ..m
    }
}

/// The buffers of a Left side are vectors, so their lengths fit a `usize`.
pub proof fn lemma_left_buffers_fit(l: &AbIoLeft)
    ensures
        l@.in_bytes.len() <= usize::MAX,
        l@.out_bytes.len() <= usize::MAX,
{
    broadcast use vstd::std_specs::vec::axiom_spec_len;

    assert(l.in_bytes.len() == l.in_bytes@.len());
    assert(l.out_bytes.len() == l.out_bytes@.len());
}

/// The model after `copy_in(buf)`: the bytes are appended to the input.
pub open spec fn left_after_copy_in(m: LeftModel, buf: Seq<u8>) -> LeftModel {
    LeftModel { in_bytes: m.in_bytes + buf, in_len: m.in_len + buf.len(), ..m }
}

/// The Left input is a queue: bytes copied in are appended behind the pending
/// ones, and shrinking the input length by `k` removes the `k` oldest bytes.
/// The input stays tight (its length is that of its buffer) throughout.
pub proof fn law_left_input_is_fifo(m: LeftModel, buf: Seq<u8>, k: nat)
    requires
        m.in_len == m.in_bytes.len(),
        k <= m.in_len + buf.len(),
    ensures
        ({
            let m1 = left_after_copy_in(m, buf);
            let m2 = left_after_set_lens(m1, (m1.in_len - k) as nat, m1.out_len);
            &&& m1.in_len == m1.in_bytes.len()
            &&& m2.in_len == m2.in_bytes.len()
            &&& m2.in_bytes == (m.in_bytes + buf).subrange(k as int, (m.in_len + buf.len()) as int)
            &&& m2.out_bytes == m.out_bytes
            &&& m2.out_len == m.out_len
        }),
{
}

/// Setting the Left lengths is read back by `left_lens`, and a shrinking
/// output length drops the oldest pending output bytes, keeping the rest in
/// order.
pub proof fn law_left_set_lens_reads_back(m: LeftModel, new_in: nat, new_out: nat)
    requires
        m.out_len <= m.out_bytes.len(),
        new_out <= m.out_len,
    ensures
        left_after_set_lens(m, new_in, new_out).in_len == new_in,
        left_after_set_lens(m, new_in, new_out).out_len == new_out,
        left_after_set_lens(m, new_in, new_out).out_bytes.subrange(0, new_out as int)
            == m.out_bytes.subrange(m.out_len - new_out, m.out_len as int),
{
}

/// A Left side whose lengths describe bytes that its buffers hold.
pub open spec fn left_lens_in_bounds(m: LeftModel) -> bool {
    m.in_len <= m.in_bytes.len() && m.out_len <= m.out_bytes.len()
}

impl Default for AbIoLeft {
    fn default() -> (l: AbIoLeft)
        ensures
            l@ == (LeftModel {
                in_bytes: Seq::empty(),
                in_len: 0,
                out_bytes: Seq::empty(),
                out_len: 0,
                blocked: false,
                ready: false,
                want_read: false,
                want_write: false,
                shutdown: false,
            }),
    {
        AbIoLeft {
            in_bytes: Vec::new(),
            in_bytes_len: 0,
            out_bytes: Vec::new(),
            out_bytes_len: 0,
            blocked: false,
            ready: false,
            want_read: false,
            want_write: false,
            shutdown: false,
        }
    }
}

impl AbIoLeft {
    /// An empty Left side whose output buffer is `out_bytes`, nothing pending.
    pub fn with_out_buffer(out_bytes: Vec<u8>) -> (l: AbIoLeft)
        ensures
            l@ == (LeftModel {
                in_bytes: Seq::empty(),
                in_len: 0,
                out_bytes: out_bytes@,
                out_len: 0,
                blocked: false,
                ready: false,
                want_read: false,
                want_write: false,
                shutdown: false,
            }),
    {
        AbIoLeft {
            in_bytes: Vec::new(),
            in_bytes_len: 0,
            out_bytes,
            out_bytes_len: 0,
            blocked: false,
            ready: false,
            want_read: false,
            want_write: false,
            shutdown: false,
        }
    }

    /// Whether both pending lengths lie within their buffers.
    pub fn lens_in_bounds(&self) -> (b: bool)
        ensures
            b == left_lens_in_bounds(self@),
    {
        self.in_bytes_len <= self.in_bytes.len() && self.out_bytes_len <= self.out_bytes.len()
    }

    /// The pending Left output.
    pub fn pending_out(&self) -> (b: &[u8])
        requires
            self@.out_len <= self@.out_bytes.len(),
        ensures
            b@ == self@.out_bytes.subrange(0, self@.out_len as int),
    {
        let (head, _tail) = self.out_bytes.as_slice().split_at(self.out_bytes_len);
        head
    }

    /// Append `buf` to the Left input; returns the number of bytes taken.
    pub fn copy_in(&mut self, buf: &mut [u8]) -> (n: usize)
        requires
            old(self)@.in_len <= old(self)@.in_bytes.len() || old(self)@.in_len + old(buf)@.len()
                <= usize::MAX,
        ensures
            n == old(buf)@.len(),
            final(buf)@ == old(buf)@,
            final(self)@ == left_after_copy_in(old(self)@, old(buf)@),
    {
        self.in_bytes.extend_from_slice(buf);
        proof {
            // a vector's length fits a usize
            vstd::std_specs::vec::axiom_spec_len(&self.in_bytes);
        }
        self.in_bytes_len = self.in_bytes_len + buf.len();
        proof {
            assert(self.in_bytes@ =~= old(self)@.in_bytes + buf@);
        }
        buf.len()
    }

    /// Is Left in blocked?
    pub fn left_in_blocked(&self) -> (b: bool)
        ensures
            b == self@.blocked,
    {
        self.blocked
    }

    /// Set Left in blocked.
    pub fn set_left_in_blocked(&mut self, b: bool)
        ensures
            final(self)@ == (LeftModel { blocked: b, ..old(self)@ }),
    {
        self.blocked = b;
    }

    /// Lengths of input and output of the Left side.
    pub fn left_lens(&self) -> (r: (usize, usize))
        ensures
            r.0 == self@.in_len,
            r.1 == self@.out_len,
    {
        (self.in_bytes_len, self.out_bytes_len)
    }

    /// Set the lengths of input and output of the Left side.
    pub fn left_set_lens(&mut self, new_len_in: usize, new_len_out: usize)
        requires
            new_len_in < old(self)@.in_len ==> old(self)@.in_len - new_len_in
                <= old(self)@.in_bytes.len(),
            new_len_out < old(self)@.out_len ==> old(self)@.out_len - new_len_out
                <= old(self)@.out_bytes.len(),
        ensures
            final(self)@ == left_after_set_lens(old(self)@, new_len_in as nat, new_len_out as nat),
    {
        let (cur_len_in, cur_len_out) = self.left_lens();
        if new_len_in < cur_len_in {
            let cut_off = cur_len_in - new_len_in;
            self.in_bytes = self.in_bytes.split_off(cut_off);
            self.in_bytes_len = new_len_in;
        }
        if new_len_out < cur_len_out {
            let cut_off = cur_len_out - new_len_out;
            self.out_bytes = self.out_bytes.split_off(cut_off);
            self.out_bytes_len = new_len_out;
        }
        if new_len_in > cur_len_in {
            self.in_bytes_len = new_len_in;
        }
        if new_len_out > cur_len_out {
            self.out_bytes_len = new_len_out;
        }
    }

    /// The pending input and the whole output buffer of the Left side.
    pub fn left_bufs_mut(&mut self) -> (r: (&mut [u8], &mut Vec<u8>))
        requires
            old(self)@.in_len <= old(self)@.in_bytes.len(),
        ensures
            r.0@ == old(self)@.in_bytes.subrange(0, old(self)@.in_len as int),
            r.1@ == old(self)@.out_bytes,
            final(self)@ == (LeftModel {
                in_bytes: final(r.0)@ + old(self)@.in_bytes.subrange(
                    old(self)@.in_len as int,
                    old(self)@.in_bytes.len() as int,
                ),
                out_bytes: final(r.1)@,
                ..old(self)@
            }),
    {
        let n = self.in_bytes_len;
        let (head, _tail) = self.in_bytes.as_mut_slice().split_at_mut(n);
        (head, &mut self.out_bytes)
    }

    /// Whether the Left side is ready for the Right side.
    pub fn is_ready(&self) -> (b: bool)
        ensures
            b == self@.ready,
    {
        self.ready
    }

    /// Set the readiness for Right side input and output; returns it.
    pub fn set_ready(&mut self, r: bool) -> (b: bool)
        ensures
            b == r,
            final(self)@ == (LeftModel { ready: r, ..old(self)@ }),
    {
        self.ready = r;
        self.ready
    }

    /// Whether the Left side wants input.
    pub fn left_want_read(&self) -> (b: bool)
        ensures
            b == self@.want_read,
    {
        self.want_read
    }

    /// Set the Left side wanting to read.
    pub fn set_left_want_read(&mut self, r: bool)
        ensures
            final(self)@ == (LeftModel { want_read: r, ..old(self)@ }),
    {
        self.want_read = r;
    }

    /// Whether the Left side wants output.
    pub fn left_want_write(&self) -> (b: bool)
        ensures
            b == self@.want_write,
    {
        self.want_write
    }

    /// Set the Left side wanting to write.
    pub fn set_left_want_write(&mut self, w: bool)
        ensures
            final(self)@ == (LeftModel { want_write: w, ..old(self)@ }),
    {
        self.want_write = w;
    }

    /// The state machine signals shutdown (e.g. the peer closed).
    pub fn shutdown(&mut self)
        ensures
            final(self)@ == (LeftModel { shutdown: true, ..old(self)@ }),
    {
        self.shutdown = true;
    }
}

/// Right (application) side: cleartext coming in and going out.
pub struct AbIoRight {
    /// Received cleartext; its first `in_bytes_len` bytes are pending.
    pub in_bytes: Vec<u8>,
    /// Number of pending received bytes.
    pub in_bytes_len: usize,
    out_bytes: Vec<u8>,
    out_bytes_len: usize,
    want_right_next_in: bool,
}

/// Mathematical model of an [`AbIoRight`].
pub ghost struct RightModel {
    pub in_bytes: Seq<u8>,
    pub in_len: nat,
    pub out_bytes: Seq<u8>,
    pub out_len: nat,
    pub want_next_in: bool,
}

impl View for AbIoRight {
    type V = RightModel;

    closed spec fn view(&self) -> RightModel {
        RightModel {
            in_bytes: self.in_bytes@,
            in_len: self.in_bytes_len as nat,
            out_bytes: self.out_bytes@,
            out_len: self.out_bytes_len as nat,
            want_next_in: self.want_right_next_in,
        }
    }
}

impl Default for AbIoRight {
    fn default() -> (r: AbIoRight)
        ensures
            r@ == (RightModel {
                in_bytes: Seq::empty(),
                in_len: 0,
                out_bytes: Seq::empty(),
                out_len: 0,
                want_next_in: false,
            }),
    {
        AbIoRight {
            in_bytes: Vec::new(),
            in_bytes_len: 0,
            out_bytes: Vec::new(),
            out_bytes_len: 0,
            want_right_next_in: false,
        }
    }
}

/// A Right side whose lengths describe bytes that its buffers hold.
pub open spec fn right_lens_in_bounds(m: RightModel) -> bool {
    m.in_len <= m.in_bytes.len() && m.out_len <= m.out_bytes.len()
}

impl AbIoRight {
    /// Whether both pending lengths lie within their buffers.
    pub fn lens_in_bounds(&self) -> (b: bool)
        ensures
            b == right_lens_in_bounds(self@),
    {
        self.in_bytes_len <= self.in_bytes.len() && self.out_bytes_len <= self.out_bytes.len()
    }

    /// The pending Right input.
    pub fn pending_in(&self) -> (b: &[u8])
        requires
            self@.in_len <= self@.in_bytes.len(),
        ensures
            b@ == self@.in_bytes.subrange(0, self@.in_len as int),
    {
        let (head, _tail) = self.in_bytes.as_slice().split_at(self.in_bytes_len);
        head
    }

    /// Mark the pending Right input as consumed (its bytes stay in the buffer).
    pub fn clear_pending_in(&mut self)
        ensures
            final(self)@ == (RightModel { in_len: 0, ..old(self)@ }),
    {
        self.in_bytes_len = 0;
    }

    /// Lengths of input and output of the Right side.
    pub fn right_lens(&self) -> (r: (usize, usize))
        ensures
            r.0 == self@.in_len,
            r.1 == self@.out_len,
    {
        (self.in_bytes_len, self.out_bytes_len)
    }

    /// The pending Right output.
    pub fn buf_right_out(&self) -> (b: &[u8])
        requires
            self@.out_len <= self@.out_bytes.len(),
        ensures
            b@ == self@.out_bytes.subrange(0, self@.out_len as int),
    {
        let (head, _tail) = self.out_bytes.as_slice().split_at(self.out_bytes_len);
        head
    }

    /// Whether the Right side wants the next input block.
    pub fn wants_right_next_in(&self) -> (b: bool)
        ensures
            b == self@.want_next_in,
    {
        self.want_right_next_in
    }

    /// Set the Right side wanting the next input block.
    pub fn set_wants_right_next_in(&mut self, wr: bool)
        ensures
            final(self)@ == (RightModel { want_next_in: wr, ..old(self)@ }),
    {
        self.want_right_next_in = wr;
    }

    /// All Right output was consumed.
    pub fn all_sent_right_out(&mut self)
        ensures
            final(self)@ == (RightModel { out_bytes: Seq::empty(), out_len: 0, ..old(self)@ }),
    {
        self.out_bytes = Vec::new();
        self.out_bytes_len = 0;
    }

    /// Add bytes to the Right output.
    pub fn add_right_out(&mut self, new_data: &[u8])
        requires
            old(self)@.out_len <= old(self)@.out_bytes.len() || old(self)@.out_len
                + new_data@.len() <= usize::MAX,
        ensures
            final(self)@ == (RightModel {
                out_bytes: old(self)@.out_bytes + new_data@,
                out_len: old(self)@.out_len + new_data@.len(),
                ..old(self)@
            }),
    {
        self.out_bytes.extend_from_slice(new_data);
        proof {
            // a vector's length fits a usize
            vstd::std_specs::vec::axiom_spec_len(&self.out_bytes);
        }
        self.out_bytes_len = self.out_bytes_len + new_data.len();
        proof {
            assert(self.out_bytes@ =~= old(self)@.out_bytes + new_data@);
        }
    }

    /// Add bytes to the Right input.
    pub fn add_right_in(&mut self, new_data: &[u8])
        requires
            old(self)@.in_len <= old(self)@.in_bytes.len() || old(self)@.in_len + new_data@.len()
                <= usize::MAX,
        ensures
            final(self)@ == (RightModel {
                in_bytes: old(self)@.in_bytes + new_data@,
                in_len: old(self)@.in_len + new_data@.len(),
                ..old(self)@
            }),
    {
        self.in_bytes.extend_from_slice(new_data);
        proof {
            // a vector's length fits a usize
            vstd::std_specs::vec::axiom_spec_len(&self.in_bytes);
        }
        self.in_bytes_len = self.in_bytes_len + new_data.len();
        proof {
            assert(self.in_bytes@ =~= old(self)@.in_bytes + new_data@);
        }
    }
}

} // verus!
