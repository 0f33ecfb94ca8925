//! Model of the serialized refresh protocol shared by all call surfaces.
//!
//! A refresh happens only under exclusive access to the session, so when
//! several surfaces race on one session their exclusive sections execute
//! in some serialization order.  Each section re-checks staleness before
//! exchanging: [`spec_refresh_window`] is one such section, and
//! [`spec_run_windows`] a whole serialization.  The lemmas below prove
//! the protocol's core guarantee: starting from a stale credential,
//! exactly one refresh exchange happens, and every surface whose window
//! has run — in particular every surface about to read a token — observes
//! a credential that is no longer stale.

use vstd::prelude::*;

use crate::types::RefreshAccessTokenResponse;
use crate::{spec_is_stale, spec_refreshed_token, Token};

verus! {

/// One exclusive section of the ensure-fresh protocol: re-check staleness
/// under exclusive access and refresh only if the credential is still
/// stale.  Yields the credential afterwards and whether an exchange was
/// issued; `resp` is what that exchange would return.
pub open spec fn spec_refresh_window(
    t: Token,
    resp: RefreshAccessTokenResponse,
    now: u64,
) -> (Token, bool) {
    if spec_is_stale(t, now) {
        (spec_refreshed_token(t, resp, now), true)
    } else {
        (t, false)
    }
}

/// A serialization of exclusive sections, one per concurrent operation:
/// the credential after all of them, and how many refresh exchanges were
/// issued in total.
pub open spec fn spec_run_windows(
    t: Token,
    resps: Seq<RefreshAccessTokenResponse>,
    now: u64,
) -> (Token, nat)
    decreases resps.len(),
{
    if resps.len() == 0 {
        (t, 0)
    } else {
        let first = spec_refresh_window(t, resps[0], now);
        let rest = spec_run_windows(first.0, resps.drop_first(), now);
        (rest.0, rest.1 + if first.1 { 1nat } else { 0nat })
    }
}

/// A successful refresh exchange leaves the credential fresh: the new
/// expiry lies at or after `now`, so the credential is not stale at `now`.
pub proof fn lemma_refresh_makes_fresh(t: Token, resp: RefreshAccessTokenResponse, now: u64)
    requires
        t is Oauth,
        now + resp.expires_in <= u64::MAX,
    ensures
        !spec_is_stale(spec_refreshed_token(t, resp, now), now),
{
}

/// A refresh driven by the protocol happens only on a stale credential,
/// so the expiry of the installed credential strictly advances: the old
/// expiry lies more than the skew window before `now`, the new one at
/// `now + expires_in` or later.
pub proof fn lemma_refresh_advances_expiry(t: Token, resp: RefreshAccessTokenResponse, now: u64)
    requires
        spec_is_stale(t, now),
        now + resp.expires_in <= u64::MAX,
    ensures
        t matches Token::Oauth(o) ==> (spec_refreshed_token(t, resp, now) matches Token::Oauth(n)
            && n.token_expiration > o.token_expiration),
{
}

/// A credential that is not stale passes through any number of exclusive
/// sections untouched, with no refresh exchange issued.
pub proof fn lemma_fresh_runs_untouched(t: Token, resps: Seq<RefreshAccessTokenResponse>, now: u64)
    requires
        !spec_is_stale(t, now),
    ensures
        spec_run_windows(t, resps, now) == (t, 0nat),
    decreases resps.len(),
{
    if resps.len() > 0 {
        lemma_fresh_runs_untouched(t, resps.drop_first(), now);
    }
}

/// The protocol's core guarantee: when concurrent operations find one
/// session holding a stale OAuth credential, their serialized exclusive
/// sections issue exactly one refresh exchange, and after any positive
/// number of sections — in particular when each operation goes on to read
/// its token — the credential is an OAuth credential that is no longer
/// stale.
pub proof fn lemma_exactly_one_refresh(t: Token, resps: Seq<RefreshAccessTokenResponse>, now: u64)
    requires
        spec_is_stale(t, now),
        resps.len() > 0,
        forall|i: int| 0 <= i < resps.len() ==> now + (#[trigger] resps[i]).expires_in <= u64::MAX,
    ensures
        spec_run_windows(t, resps, now).1 == 1,
        spec_run_windows(t, resps, now).0 is Oauth,
        forall|i: int|
            1 <= i <= resps.len() ==> !spec_is_stale(
                #[trigger] spec_run_windows(t, resps.take(i), now).0,
                now,
            ),
{
    let refreshed = spec_refreshed_token(t, resps[0], now);
    lemma_refresh_makes_fresh(t, resps[0], now);
    lemma_fresh_runs_untouched(refreshed, resps.drop_first(), now);
    assert forall|i: int|
        1 <= i <= resps.len() implies !spec_is_stale(
        spec_run_windows(t, resps.take(i), now).0,
        now,
    ) by {
        assert(resps.take(i)[0] == resps[0]);
        lemma_fresh_runs_untouched(refreshed, resps.take(i).drop_first(), now);
    }
}

} // verus!
