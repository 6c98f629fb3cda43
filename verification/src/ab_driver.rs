//! The A/B test driver: the context an orbit is tested in, the expected
//! failure modes, and the orbit interface the driver uses.
use vstd::prelude::*;

use crate::ab_io_orbit::{AbIoLeft, AbIoRight, LeftModel, RightModel};
use crate::rustls_blueprint::{
    law_advance_keeps_sides_in_bounds, rustls_advance, sides_in_bounds, TlsContext,
};
use crate::error::TlsError;
use crate::position::TlsPosition;

verus! {

/// A state machine that advances between a Left and a Right side.
pub trait Orbit {
    /// Where the orbit stands after an advance.
    type Position;
    /// What an advance can fail with.
    type Error;

    /// An advance of this orbit, which it is in afterwards, took the Left and
    /// Right sides from `l0`, `r0` to `l1`, `r1`. An orbit that states no more
    /// keeps the pending lengths within their buffers.
    open spec fn advanced(&self, l0: LeftModel, r0: RightModel, l1: LeftModel, r1: RightModel) -> bool {
        sides_in_bounds(l1, r1)
    }

    /// Advance the orbit with user data `u` and the two sides; the pending
    /// lengths of the sides stay within their buffers, and the sides are what
    /// the orbit's advance makes of them.
    fn advance_with<B>(&mut self, u: &mut B, l: &mut AbIoLeft, r: &mut AbIoRight) -> (res: Result<
        Self::Position,
        Self::Error,
    >)
        requires
            sides_in_bounds(old(l)@, old(r)@),
        ensures
            sides_in_bounds(final(l)@, final(r)@),
            final(self).advanced(old(l)@, old(r)@, final(l)@, final(r)@),
    ;
}

impl Orbit for TlsContext {
    type Position = TlsPosition;
    type Error = TlsError;

    /// A rustls advance, readiness following the handshake state of the
    /// connection afterwards.
    open spec fn advanced(&self, l0: LeftModel, r0: RightModel, l1: LeftModel, r1: RightModel) -> bool {
        exists|res: Result<TlsPosition, TlsError>|
            #[trigger] rustls_advance(l0, r0, l1, r1, res, self.handshaking())
    }

    fn advance_with<B>(&mut self, u: &mut B, l: &mut AbIoLeft, r: &mut AbIoRight) -> (res: Result<
        TlsPosition,
        TlsError,
    >)
        ensures
            rustls_advance(old(l)@, old(r)@, final(l)@, final(r)@, res, final(self).handshaking()),
    {
        let ghost l0 = l@;
        let ghost r0 = r@;
        let res = TlsContext::advance_with(self, u, l, r);
        proof {
            law_advance_keeps_sides_in_bounds(l0, r0, l@, r@, res, self.handshaking());
        }
        res
    }
}

/// An A/B test server context.
pub trait AbServerCtx {}

/// Testing context of an orbit: the orbit and its two sides.
pub struct TestingCtx<O> {
    /// Orbit under test.
    pub o: O,
    /// Left side of the orbit.
    pub l: AbIoLeft,
    /// Right side of the orbit.
    pub r: AbIoRight,
}

/// Size of the Left output buffer of a testing context.
pub const LEFT_OUT_CAPACITY: usize = 16384;

/// A testing context for an orbit: empty sides, with a Left output buffer of
/// [`LEFT_OUT_CAPACITY`] zero bytes and nothing pending.
pub fn testing_ctx<O>(orbit: O) -> (ctx: TestingCtx<O>)
    ensures
        ctx.o == orbit,
        ctx.l@ == (LeftModel {
            in_bytes: Seq::empty(),
            in_len: 0,
            out_bytes: Seq::new(LEFT_OUT_CAPACITY as nat, |i: int| 0u8),
            out_len: 0,
            blocked: false,
            ready: false,
            want_read: false,
            want_write: false,
            shutdown: false,
        }),
        ctx.r@ == (RightModel {
            in_bytes: Seq::empty(),
            in_len: 0,
            out_bytes: Seq::empty(),
            out_len: 0,
            want_next_in: false,
        }),
{
    let out_bytes = vec![0u8; LEFT_OUT_CAPACITY];
    proof {
        assert(out_bytes@ =~= Seq::new(LEFT_OUT_CAPACITY as nat, |i: int| 0u8));
    }
    TestingCtx { o: orbit, l: AbIoLeft::with_out_buffer(out_bytes), r: AbIoRight::default() }
}

/// Failures that a test triggers on purpose, to check that it is caught.
#[derive(Debug)]
pub enum ExpectedFailure {
    /// The client fails to verify the server certificate.
    ServerCertVerifyFailed,
    /// The server should not be a teapot.
    ItsNotATeapot,
}

/// The host name the test client connects to: a name the certificate does
/// not cover when the certificate check is meant to fail.
pub fn teapot_hostname(exp_failure: &Option<ExpectedFailure>) -> (h: &'static str)
    ensures
        (exp_failure matches Some(ExpectedFailure::ServerCertVerifyFailed)) ==> h@
            == "here.we.fail"@,
        !(exp_failure matches Some(ExpectedFailure::ServerCertVerifyFailed)) ==> h@
            == "test.rustcryp.to"@,
{
    match exp_failure {
        Some(ExpectedFailure::ServerCertVerifyFailed) => "here.we.fail",
        _ => "test.rustcryp.to",
    }
}

/// The response the test expects from the server: not a teapot's when the
/// teapot check is meant to fail.
pub fn teapot_expected_response(exp_failure: &Option<ExpectedFailure>) -> (r: &'static str)
    ensures
        (exp_failure matches Some(ExpectedFailure::ItsNotATeapot)) ==> r@ == "200 OK"@,
        !(exp_failure matches Some(ExpectedFailure::ItsNotATeapot)) ==> r@
            == "418 I'm a teapot\r\n\r\n"@,
{
    match exp_failure {
        Some(ExpectedFailure::ItsNotATeapot) => "200 OK",
        _ => "418 I'm a teapot\r\n\r\n",
    }
}

} // verus!
