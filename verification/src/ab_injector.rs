//! The read injector of the A/B test: on each read of the client's stream it
//! feeds the client's bytes to the orbit, plays the application on the Right
//! side, and hands the orbit's output back to the client.
use vstd::prelude::*;
use vstd::string::StringSliceAdditionalSpecFns;

use crate::ab_driver::{Orbit, TestingCtx};
use crate::ab_io_orbit::{left_after_copy_in, left_after_set_lens, AbIoLeft, AbIoRight, LeftModel, RightModel};
use crate::ab_io_std::AbStreamForward;
use crate::error::TlsError;
use crate::position::TlsPosition;
use crate::rustls_blueprint::{rustls_advance, sides_in_bounds, TlsContext};
use crate::ytls_blueprint::bytes_eq;

verus! {

/// The request the application expects from the client.
pub const EXPECTED_REQUEST: &'static str = "GET / HTTP/1.0\r\n\r\n";

/// The application's response.
pub const TEAPOT_RESPONSE: &'static str = "418 I'm a teapot\r\n\r\n";

/// What the application did with the pending Right input.
#[derive(Debug, PartialEq, Eq, Structural)]
pub enum AppRequest {
    /// Nothing was pending.
    NoRequest,
    /// The expected request was pending; it was consumed and answered.
    Answered,
    /// Something other than the expected request was pending.
    WrongRequest,
}

/// Why the injector cannot serve a read.
#[derive(Debug, PartialEq, Eq, Structural)]
pub enum InjectorError {
    /// The client's read buffer is empty.
    NoRxHeadroom,
    /// The cleartext received is not the expected request.
    WrongCleartext,
}

/// Whether the pending Right input is something other than the expected
/// request.
pub open spec fn wrong_request(r: RightModel) -> bool {
    r.in_len > 0 && r.in_bytes.subrange(0, r.in_len as int) != EXPECTED_REQUEST.spec_bytes()
}

/// The application on the Right side took `r0` to `r1` with outcome `a`: no
/// pending input is no request; the expected request is consumed and the
/// teapot response queued; anything else is a wrong request, left in place.
pub open spec fn app_served(r0: RightModel, r1: RightModel, a: AppRequest) -> bool {
    if r0.in_len == 0 {
        a == AppRequest::NoRequest && r1 == r0
    } else if wrong_request(r0) {
        a == AppRequest::WrongRequest && r1 == r0
    } else {
        a == AppRequest::Answered && r1 == answered(r0)
    }
}

/// The Right side after the application answered the pending request: the
/// request is consumed and the teapot response queued behind the output.
pub open spec fn answered(r0: RightModel) -> RightModel {
    RightModel {
        in_len: 0,
        out_bytes: r0.out_bytes + TEAPOT_RESPONSE.spec_bytes(),
        out_len: r0.out_len + TEAPOT_RESPONSE.spec_bytes().len(),
        ..r0
    }
}

/// Play the application on the Right side: if the pending input is the
/// expected request, consume it and queue the teapot response.
pub fn serve_app_request(r: &mut AbIoRight) -> (a: AppRequest)
    requires
        old(r)@.in_len <= old(r)@.in_bytes.len(),
        old(r)@.out_len <= old(r)@.out_bytes.len(),
    ensures
        app_served(old(r)@, final(r)@, a),
        a == AppRequest::Answered <==> old(r)@.in_len > 0 && old(r)@.in_bytes.subrange(
            0,
            old(r)@.in_len as int,
        ) == EXPECTED_REQUEST.spec_bytes(),
        final(r)@.in_len <= final(r)@.in_bytes.len(),
        final(r)@.out_len <= final(r)@.out_bytes.len(),
{
    let (r_pending_in, _) = r.right_lens();
    if r_pending_in == 0 {
        return AppRequest::NoRequest;
    }
    if !bytes_eq(r.pending_in(), EXPECTED_REQUEST.as_bytes()) {
        return AppRequest::WrongRequest;
    }
    r.clear_pending_in();
    r.add_right_out(TEAPOT_RESPONSE.as_bytes());
    AppRequest::Answered
}

/// Copy as much pending Left output as fits into `to_client` and drop what
/// was copied from the Left output; returns the number of bytes copied.
pub fn copy_out_to_client(l: &mut AbIoLeft, to_client: &mut [u8]) -> (n: usize)
    requires
        old(l)@.in_len <= old(l)@.in_bytes.len(),
        old(l)@.out_len <= old(l)@.out_bytes.len(),
    ensures
        n == if old(to_client)@.len() < old(l)@.out_len {
            old(to_client)@.len() as int
        } else {
            old(l)@.out_len as int
        },
        final(to_client)@ == old(l)@.out_bytes.subrange(0, n as int) + old(to_client)@.subrange(
            n as int,
            old(to_client)@.len() as int,
        ),
        old(l)@.out_len > 0 ==> final(l)@ == left_after_set_lens(
            old(l)@,
            old(l)@.in_len,
            (old(l)@.out_len - n) as nat,
        ),
        old(l)@.out_len == 0 ==> final(l)@ == old(l)@,
        final(l)@.in_len <= final(l)@.in_bytes.len(),
        final(l)@.out_len <= final(l)@.out_bytes.len(),
{
    let (l_pending_in, l_pending_out) = l.left_lens();
    if l_pending_out == 0 {
        proof {
            assert(to_client@ =~= old(l)@.out_bytes.subrange(0, 0) + old(to_client)@.subrange(
                0,
                old(to_client)@.len() as int,
            ));
        }
        return 0;
    }
    let copy_len = if to_client.len() < l_pending_out {
        to_client.len()
    } else {
        l_pending_out
    };
    {
        let pending = l.pending_out();
        let mut i: usize = 0;
        while i < copy_len
            invariant
                copy_len <= to_client@.len(),
                copy_len <= pending@.len(),
                to_client@.len() == old(to_client)@.len(),
                i <= copy_len,
                forall|j: int| 0 <= j < i ==> to_client@[j] == pending@[j],
                forall|j: int| copy_len <= j < to_client@.len() ==> to_client@[j] == old(
                    to_client,
                )@[j],
            decreases copy_len - i,
        {
            to_client[i] = pending[i];
            i = i + 1;
        }
        proof {
            assert(to_client@ =~= old(l)@.out_bytes.subrange(0, copy_len as int) + old(
                to_client,
            )@.subrange(copy_len as int, old(to_client)@.len() as int));
        }
    }
    let new_len = l_pending_out - copy_len;
    l.left_set_lens(l_pending_in, new_len);
    copy_len
}

/// The copy of Left output to the client: from a Left side `mid`, `n` bytes
/// (as many as fit the client's buffer) went to the front of `to_client1` and
/// were dropped from the front of the Left output, giving `l1`.
pub open spec fn handed_to_client(
    mid: LeftModel,
    to_client0: Seq<u8>,
    to_client1: Seq<u8>,
    l1: LeftModel,
    n: usize,
) -> bool {
    &&& mid.in_len <= mid.in_bytes.len()
    &&& mid.out_len <= mid.out_bytes.len()
    &&& n == if to_client0.len() < mid.out_len {
        to_client0.len() as int
    } else {
        mid.out_len as int
    }
    &&& to_client1 == mid.out_bytes.subrange(0, n as int) + to_client0.subrange(
        n as int,
        to_client0.len() as int,
    )
    &&& l1 == if mid.out_len > 0 {
        left_after_set_lens(mid, mid.in_len, (mid.out_len - n) as nat)
    } else {
        mid
    }
}

/// Some Left side `mid` handed `n` bytes of its output to the client, giving
/// `to_client1` and `l1`.
pub open spec fn copied_to_client(to_client0: Seq<u8>, to_client1: Seq<u8>, l1: LeftModel, n: usize) -> bool {
    exists|mid: LeftModel|
        #![trigger handed_to_client(mid, to_client0, to_client1, l1, n)]
        handed_to_client(mid, to_client0, to_client1, l1, n)
}

/// The read injector's work: the client's bytes copied in gave the Left side
/// `l0` beside the Right side `r0`; the orbit's first pass took them to `l1`,
/// `r1`, leaving the orbit as `o1`; the client's buffer went from `tc0` to
/// `tc1`, and the read ended at `of`, `lf`, `rf` with `res`. With an empty
/// client buffer the read fails for want of headroom; otherwise the
/// application is played on `r1`; a wrong request fails the read; else, when
/// the request was answered, a second pass of the orbit from the sides the
/// application left encrypts the answer, and the orbit's output is then copied
/// to the client.
pub open spec fn injector_outcome<O: Orbit>(
    l0: LeftModel,
    r0: RightModel,
    tc0: Seq<u8>,
    tc1: Seq<u8>,
    of: O,
    lf: LeftModel,
    rf: RightModel,
    res: Result<AbStreamForward, InjectorError>,
    o1: O,
    l1: LeftModel,
    r1: RightModel,
) -> bool {
    &&& o1.advanced(l0, r0, l1, r1)
    &&& sides_in_bounds(l1, r1)
    &&& if tc0.len() == 0 {
        res matches Err(InjectorError::NoRxHeadroom) && of == o1 && lf == l1 && rf == r1 && tc1
            == tc0
    } else if wrong_request(r1) {
        res matches Err(InjectorError::WrongCleartext) && of == o1 && lf == l1 && rf == r1 && tc1
            == tc0
    } else {
        exists|r2: RightModel, a: AppRequest, l3: LeftModel, n: usize|
            #![trigger app_served(r1, r2, a), handed_to_client(l3, tc0, tc1, lf, n)]
            {
                &&& app_served(r1, r2, a)
                &&& (a == AppRequest::NoRequest ==> of == o1 && l3 == l1 && rf == r2)
                &&& (a == AppRequest::Answered ==> of.advanced(l1, r2, l3, rf) && sides_in_bounds(
                    l3,
                    rf,
                ))
                &&& handed_to_client(l3, tc0, tc1, lf, n)
                &&& res matches Ok(f) && f.read_status == Ok::<usize, std::io::Error>(n)
            }
    }
}

/// Serve a read of the client's stream: feed the bytes the client wrote
/// (`to_server`) to the orbit, let the application answer a complete request
/// and the orbit encrypt the answer, then copy the orbit's output into the
/// client's read buffer (`to_client`). The written bytes are all forwarded.
pub fn ab_read_injector<O: Orbit>(
    u: &mut TestingCtx<O>,
    to_client: &mut [u8],
    to_server: &mut [u8],
) -> (res: Result<AbStreamForward, InjectorError>)
    requires
        sides_in_bounds(old(u).l@, old(u).r@),
    ensures
        sides_in_bounds(final(u).l@, final(u).r@),
        (res matches Err(InjectorError::NoRxHeadroom)) <==> old(to_client)@.len() == 0,
        res matches Ok(f) ==> f.discard_write == old(to_server)@.len(),
        res matches Ok(f) ==> f.read_status is Ok,
        res matches Ok(f) ==> copied_to_client(
            old(to_client)@,
            final(to_client)@,
            final(u).l@,
            f.read_status->Ok_0,
        ),
        res is Err ==> final(to_client)@ == old(to_client)@,
        exists|o1: O, l1: LeftModel, r1: RightModel|
            #[trigger] injector_outcome(
                left_after_copy_in(old(u).l@, old(to_server)@),
                old(u).r@,
                old(to_client)@,
                final(to_client)@,
                final(u).o,
                final(u).l@,
                final(u).r@,
                res,
                o1,
                l1,
                r1,
            ),
{
    u.l.copy_in(to_server);
    let ghost l0 = u.l@;
    let ghost r0 = u.r@;
    let mut user = ();
    let _ = u.o.advance_with(&mut user, &mut u.l, &mut u.r);
    let ghost o1 = u.o;
    let ghost l1 = u.l@;
    let ghost r1 = u.r@;
    if to_client.len() == 0 {
        let res = Err(InjectorError::NoRxHeadroom);
        proof {
            assert(injector_outcome(l0, r0, old(to_client)@, to_client@, u.o, u.l@, u.r@, res, o1, l1, r1));
        }
        return res;
    }
    let a = serve_app_request(&mut u.r);
    let ghost r2 = u.r@;
    match a {
        AppRequest::WrongRequest => {
            let res = Err(InjectorError::WrongCleartext);
            proof {
                assert(injector_outcome(l0, r0, old(to_client)@, to_client@, u.o, u.l@, u.r@, res, o1, l1, r1));
            }
            return res;
        },
        AppRequest::Answered => {
            let _ = u.o.advance_with(&mut user, &mut u.l, &mut u.r);
        },
        AppRequest::NoRequest => {},
    }
    let ghost mid = u.l@;
    let copied = copy_out_to_client(&mut u.l, to_client);
    let res = Ok(AbStreamForward { discard_write: to_server.len(), read_status: Ok(copied) });
    proof {
        assert(handed_to_client(mid, old(to_client)@, to_client@, u.l@, copied));
        assert(copied_to_client(old(to_client)@, to_client@, u.l@, copied));
        assert(app_served(r1, r2, a));
        assert(injector_outcome(l0, r0, old(to_client)@, to_client@, u.o, u.l@, u.r@, res, o1, l1, r1));
    }
    res
}

/// The application answers exactly the expected request: it answers when,
/// and only when, the pending Right input is byte for byte the expected
/// request; an answer consumes that input and queues the teapot response
/// behind the pending output; otherwise the Right side is left as it was.
pub proof fn law_app_answers_exactly_the_request(r0: RightModel, r1: RightModel, a: AppRequest)
    requires
        app_served(r0, r1, a),
    ensures
        a == AppRequest::Answered <==> r0.in_len > 0 && r0.in_bytes.subrange(0, r0.in_len as int)
            == EXPECTED_REQUEST.spec_bytes(),
        a == AppRequest::Answered ==> r1.in_len == 0 && r1.out_bytes == r0.out_bytes
            + TEAPOT_RESPONSE.spec_bytes() && r1.out_len == r0.out_len
            + TEAPOT_RESPONSE.spec_bytes().len(),
        a != AppRequest::Answered ==> r1 == r0,
{
}

/// A read that answers a request returns the answer encrypted in the same
/// read: when the client's buffer has room and the first pass left the
/// expected request pending on a rustls orbit, the Left side whose output is
/// handed to the client is the result of a rustls advance from the sides the
/// application left, the teapot response queued on the Right output.
pub proof fn law_injector_encrypts_the_answer(
    l0: LeftModel,
    r0: RightModel,
    tc0: Seq<u8>,
    tc1: Seq<u8>,
    of: TlsContext,
    lf: LeftModel,
    rf: RightModel,
    res: Result<AbStreamForward, InjectorError>,
    o1: TlsContext,
    l1: LeftModel,
    r1: RightModel,
)
    requires
        injector_outcome(l0, r0, tc0, tc1, of, lf, rf, res, o1, l1, r1),
        tc0.len() > 0,
        r1.in_len > 0,
        r1.in_bytes.subrange(0, r1.in_len as int) == EXPECTED_REQUEST.spec_bytes(),
    ensures
        res is Ok,
        exists|l3: LeftModel, n: usize, res2: Result<TlsPosition, TlsError>|
            #![trigger handed_to_client(l3, tc0, tc1, lf, n), rustls_advance(l1, answered(r1), l3, rf, res2, of.handshaking())]
            handed_to_client(l3, tc0, tc1, lf, n) && rustls_advance(
                l1,
                answered(r1),
                l3,
                rf,
                res2,
                of.handshaking(),
            ),
{
    let (r2, a, l3, n) = choose|r2: RightModel, a: AppRequest, l3: LeftModel, n: usize|
        #![trigger app_served(r1, r2, a), handed_to_client(l3, tc0, tc1, lf, n)]
        {
            &&& app_served(r1, r2, a)
            &&& (a == AppRequest::NoRequest ==> of == o1 && l3 == l1 && rf == r2)
            &&& (a == AppRequest::Answered ==> of.advanced(l1, r2, l3, rf) && sides_in_bounds(
                l3,
                rf,
            ))
            &&& handed_to_client(l3, tc0, tc1, lf, n)
            &&& res matches Ok(f) && f.read_status == Ok::<usize, std::io::Error>(n)
        };
    assert(r2 == answered(r1));
    let res2 = choose|res2: Result<TlsPosition, TlsError>|
        #[trigger] rustls_advance(l1, r2, l3, rf, res2, of.handshaking());
    assert(handed_to_client(l3, tc0, tc1, lf, n));
}

} // verus!
