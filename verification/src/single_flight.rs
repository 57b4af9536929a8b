//! What the refresh protocol guarantees to callers that queue on the refresh
//! lock, stated over a model of the queue.
//!
//! The lock admits one caller at a time, so the callers that missed the fast
//! path take their turns one after another. A turn is what
//! `Authenticator::on_lock_acquired`, `on_token_response` and `on_token_body`
//! do between them: look at the cache again, and only if it is not fresh ask
//! the token endpoint and store what it grants.

use vstd::prelude::*;
use crate::authenticator::{
    AuthError, Authenticator, MIN_LIFETIME_SECS, SAFETY_MARGIN_SECS, Step, TokenGrant, TokenModel, bearer_value, expiry, fresh, granted,
    is_success,
};

verus! {

/// What the token endpoint grants.
pub struct Grant {
    pub access_token: Seq<char>,
    pub expires_in: int,
}

/// One caller's turn under the refresh lock.
pub struct Turn {
    /// When the caller got the lock and looked at the cache again.
    pub locked_at: int,
    /// When the token endpoint's reply was decoded, had the caller asked.
    pub replied_at: int,
    /// What the token endpoint would answer: a grant, or `None` for any of
    /// the failures.
    pub reply: Option<Grant>,
}

/// The queue's outcome.
pub struct Outcome {
    /// The cache after the last turn.
    pub cache: Option<TokenModel>,
    /// How many requests went to the token endpoint.
    pub requests: nat,
    /// What each caller got, in turn: a header value, or `None` for a failure.
    pub results: Seq<Option<Seq<char>>>,
}

/// The cache after one turn.
pub open spec fn cache_after(cache: Option<TokenModel>, leeway: int, turn: Turn) -> Option<
    TokenModel,
> {
    if fresh(cache, leeway, turn.locked_at) {
        cache
    } else {
        match turn.reply {
            Some(g) => Some(granted(g.access_token, g.expires_in, turn.replied_at)),
            None => cache,
        }
    }
}

/// What the caller of one turn gets.
pub open spec fn result_of(cache: Option<TokenModel>, leeway: int, turn: Turn) -> Option<
    Seq<char>,
> {
    if fresh(cache, leeway, turn.locked_at) {
        Some(cache.unwrap().header_value)
    } else {
        match turn.reply {
            Some(g) => Some(bearer_value(g.access_token)),
            None => None,
        }
    }
}

/// The requests that one turn sends to the token endpoint.
pub open spec fn requests_of(cache: Option<TokenModel>, leeway: int, turn: Turn) -> nat {
    if fresh(cache, leeway, turn.locked_at) {
        0
    } else {
        1
    }
}

/// The turns taken one after another, starting from `cache`.
pub open spec fn run(cache: Option<TokenModel>, leeway: int, turns: Seq<Turn>) -> Outcome
    decreases turns.len(),
{
    if turns.len() == 0 {
        Outcome { cache, requests: 0, results: Seq::empty() }
    } else {
        let first = turns[0];
        let rest = run(cache_after(cache, leeway, first), leeway, turns.drop_first());
        Outcome {
            cache: rest.cache,
            requests: requests_of(cache, leeway, first) + rest.requests,
            results: seq![result_of(cache, leeway, first)] + rest.results,
        }
    }
}

/// The turn of a caller that got the lock at `locked_at` and to whom the
/// token endpoint would answer with `reply` and, behind a success status,
/// with `body`, decoded at `replied_at`.
pub open spec fn turn_of(
    locked_at: u64,
    reply: Result<u16, String>,
    body: Result<TokenGrant, String>,
    replied_at: u64,
) -> Turn {
    Turn {
        locked_at: locked_at as int,
        replied_at: replied_at as int,
        reply: match (reply, body) {
            (Ok(status), Ok(g)) => if is_success(status) {
                Some(Grant { access_token: g.access_token@, expires_in: g.expires_in as int })
            } else {
                None
            },
            _ => None,
        },
    }
}

/// One caller's whole turn under the refresh lock, with the token endpoint's
/// answer at hand: the steps of the authenticator one after another. The
/// answer is looked at only if the cache is not fresh.
pub fn take_turn(
    auth: &mut Authenticator,
    locked_at: u64,
    reply: Result<u16, String>,
    body: Result<TokenGrant, String>,
    replied_at: u64,
) -> (result: Result<String, AuthError>)
    ensures
        final(auth).token_url() == old(auth).token_url(),
        final(auth).client_id() == old(auth).client_id(),
        final(auth).client_secret() == old(auth).client_secret(),
        final(auth).leeway() == old(auth).leeway(),
        final(auth).wf() == old(auth).wf(),
        final(auth).cache() == cache_after(
            old(auth).cache(),
            old(auth).leeway(),
            turn_of(locked_at, reply, body, replied_at),
        ),
        match result {
            Ok(value) => result_of(
                old(auth).cache(),
                old(auth).leeway(),
                turn_of(locked_at, reply, body, replied_at),
            ) == Some(value@),
            Err(e) => result_of(
                old(auth).cache(),
                old(auth).leeway(),
                turn_of(locked_at, reply, body, replied_at),
            ).is_none() && !fresh(old(auth).cache(), old(auth).leeway(), locked_at as int) && match e {
                AuthError::TokenTransport(m) => reply matches Err(why) && m@ == why@,
                AuthError::TokenHttpStatus(code) => reply matches Ok(status) && !is_success(status)
                    && code == status,
                AuthError::TokenDecode(m) => (reply matches Ok(status) && is_success(status)) && (
                body matches Err(why) && m@ == why@),
            },
        },
{
    match auth.on_lock_acquired(locked_at) {
        Step::Serve(value) => return Ok(value),
        _ => {},
    }
    match Authenticator::on_token_response(reply) {
        Step::Fail(e) => return Err(e),
        _ => {},
    }
    match auth.on_token_body(body, replied_at) {
        Step::Serve(value) => Ok(value),
        Step::Fail(e) => Err(e),
        _ => vstd::pervasive::unreached(),
    }
}

/// While the cached token is fresh at every caller's turn, no request goes to
/// the token endpoint, whatever it would answer; every caller gets the cached
/// value and the cache stays as it is.
pub proof fn fresh_token_serves_every_caller(
    cache: Option<TokenModel>,
    leeway: int,
    turns: Seq<Turn>,
)
    requires
        forall|i: int| 0 <= i < turns.len() ==> fresh(cache, leeway, (#[trigger] turns[i]).locked_at),
    ensures
        run(cache, leeway, turns).requests == 0,
        run(cache, leeway, turns).cache == cache,
        run(cache, leeway, turns).results.len() == turns.len(),
        forall|i: int|
            0 <= i < turns.len() ==> #[trigger] run(cache, leeway, turns).results[i] == Some(
                cache.unwrap().header_value,
            ),
    decreases turns.len(),
{
    if turns.len() > 0 {
        let tail = turns.drop_first();
        assert(fresh(cache, leeway, turns[0].locked_at));
        assert forall|i: int| 0 <= i < tail.len() implies fresh(
            cache,
            leeway,
            (#[trigger] tail[i]).locked_at,
        ) by {
            assert(tail[i] == turns[i + 1]);
        }
        fresh_token_serves_every_caller(cache, leeway, tail);
        let rest = run(cache, leeway, tail);
        assert forall|i: int| 0 <= i < turns.len() implies #[trigger] run(
            cache,
            leeway,
            turns,
        ).results[i] == Some(cache.unwrap().header_value) by {
            if i > 0 {
                assert(run(cache, leeway, turns).results[i] == rest.results[i - 1]);
            }
        }
    }
}

/// Single flight: when the callers queue on a cache that is empty or not
/// fresh, the first one's refresh succeeds, and what it stores is fresh at
/// every later turn, then exactly one request goes to the token endpoint and
/// every caller gets the header value of that one grant.
pub proof fn one_refresh_serves_every_waiter(
    cache: Option<TokenModel>,
    leeway: int,
    turns: Seq<Turn>,
    grant: Grant,
)
    requires
        turns.len() > 0,
        !fresh(cache, leeway, turns[0].locked_at),
        turns[0].reply == Some(grant),
        forall|i: int|
            1 <= i < turns.len() ==> (#[trigger] turns[i]).locked_at + leeway < expiry(
                turns[0].replied_at,
                grant.expires_in,
            ),
    ensures
        run(cache, leeway, turns).requests == 1,
        run(cache, leeway, turns).results.len() == turns.len(),
        forall|i: int|
            0 <= i < turns.len() ==> #[trigger] run(cache, leeway, turns).results[i] == Some(
                bearer_value(grant.access_token),
            ),
        run(cache, leeway, turns).cache == Some(
            granted(grant.access_token, grant.expires_in, turns[0].replied_at),
        ),
{
    let stored = Some(granted(grant.access_token, grant.expires_in, turns[0].replied_at));
    let tail = turns.drop_first();
    assert(cache_after(cache, leeway, turns[0]) == stored);
    assert forall|i: int| 0 <= i < tail.len() implies fresh(
        stored,
        leeway,
        (#[trigger] tail[i]).locked_at,
    ) by {
        assert(tail[i] == turns[i + 1]);
    }
    fresh_token_serves_every_caller(stored, leeway, tail);
    let rest = run(stored, leeway, tail);
    assert forall|i: int| 0 <= i < turns.len() implies #[trigger] run(
        cache,
        leeway,
        turns,
    ).results[i] == Some(bearer_value(grant.access_token)) by {
        if i > 0 {
            assert(run(cache, leeway, turns).results[i] == rest.results[i - 1]);
        }
    }
}

/// A refresh that fails changes nothing in the cache: a token that was there
/// is served to whoever finds it fresh afterwards.
pub proof fn failed_refresh_keeps_token(
    cache: Option<TokenModel>,
    leeway: int,
    failed: Turn,
    later: Turn,
)
    requires
        failed.reply.is_none(),
        fresh(cache, leeway, later.locked_at),
    ensures
        cache_after(cache, leeway, failed) == cache,
        run(cache, leeway, seq![failed, later]).cache == cache,
        run(cache, leeway, seq![failed, later]).results[1] == Some(cache.unwrap().header_value),
{
    let turns = seq![failed, later];
    let tail = turns.drop_first();
    assert(tail =~= seq![later]);
    assert(tail.drop_first() =~= Seq::<Turn>::empty());
    assert(run(cache, leeway, tail.drop_first()).results =~= Seq::empty());
    let rest = run(cache, leeway, tail);
    assert(rest.results[0] == Some(cache.unwrap().header_value));
    assert(run(cache, leeway, turns).results[1] == rest.results[0]);
}

/// With an empty cache and a token endpoint that fails every time, every
/// waiting caller asks once and every one of them fails; the cache stays
/// empty.
pub proof fn failure_reaches_every_waiter(leeway: int, turns: Seq<Turn>)
    requires
        forall|i: int| 0 <= i < turns.len() ==> (#[trigger] turns[i]).reply.is_none(),
    ensures
        run(None, leeway, turns).cache == None::<TokenModel>,
        run(None, leeway, turns).requests == turns.len(),
        run(None, leeway, turns).results.len() == turns.len(),
        forall|i: int|
            0 <= i < turns.len() ==> #[trigger] run(None, leeway, turns).results[i]
                == None::<Seq<char>>,
    decreases turns.len(),
{
    if turns.len() > 0 {
        let tail = turns.drop_first();
        assert(turns[0].reply.is_none());
        assert forall|i: int| 0 <= i < tail.len() implies (#[trigger] tail[i]).reply.is_none() by {
            assert(tail[i] == turns[i + 1]);
        }
        failure_reaches_every_waiter(leeway, tail);
        let rest = run(None, leeway, tail);
        assert forall|i: int| 0 <= i < turns.len() implies #[trigger] run(
            None,
            leeway,
            turns,
        ).results[i] == None::<Seq<char>> by {
            if i > 0 {
                assert(run(None, leeway, turns).results[i] == rest.results[i - 1]);
            }
        }
    }
}

/// A grant of no more than the minimum lifetime is stored as if it were of
/// the minimum: for that lifetime less the safety margin, however short the
/// grant itself.
pub proof fn short_grant_is_raised_to_the_minimum(now: int, expires_in: int)
    requires
        0 <= expires_in <= MIN_LIFETIME_SECS,
        0 <= now,
        now + (MIN_LIFETIME_SECS - SAFETY_MARGIN_SECS) * 1000 <= u64::MAX,
    ensures
        expiry(now, expires_in) == now + (MIN_LIFETIME_SECS - SAFETY_MARGIN_SECS) * 1000,
        expiry(now, expires_in) == expiry(now, MIN_LIFETIME_SECS as int),
{
}

} // verus!
