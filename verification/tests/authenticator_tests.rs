use esplora_auth_proxy::authenticator::{
    bearer_header, expiry_at, AuthError, Authenticator, Step, TokenGrant, TokenRequest,
};

fn auth() -> Authenticator {
    Authenticator::new(
        "https://login.example/token".to_string(),
        "my-client".to_string(),
        "my-secret".to_string(),
        20_000,
    )
}

fn grant(token: &str, expires_in: u64) -> Result<TokenGrant, String> {
    Ok(TokenGrant { access_token: token.to_string(), expires_in })
}

#[test]
fn empty_cache_queues_for_the_lock() {
    let a = auth();
    assert_eq!(a.on_call(0), Step::AcquireLock);
    assert_eq!(a.servable(0), None);
    assert_eq!(a.valid_until(), None);
}

#[test]
fn lock_holder_with_empty_cache_asks_the_token_endpoint() {
    let a = auth();
    let expected = TokenRequest {
        url: "https://login.example/token".to_string(),
        form: vec![
            ("grant_type".to_string(), "client_credentials".to_string()),
            ("client_id".to_string(), "my-client".to_string()),
            ("client_secret".to_string(), "my-secret".to_string()),
            ("scope".to_string(), "openid".to_string()),
        ],
    };
    assert_eq!(a.on_lock_acquired(5), Step::RequestToken(expected));
}

#[test]
fn success_status_goes_on_to_decoding() {
    assert_eq!(Authenticator::on_token_response(Ok(200)), Step::DecodeBody);
    assert_eq!(Authenticator::on_token_response(Ok(204)), Step::DecodeBody);
    assert_eq!(Authenticator::on_token_response(Ok(299)), Step::DecodeBody);
}

#[test]
fn other_status_fails_with_that_status() {
    assert_eq!(
        Authenticator::on_token_response(Ok(401)),
        Step::Fail(AuthError::TokenHttpStatus(401))
    );
    assert_eq!(
        Authenticator::on_token_response(Ok(199)),
        Step::Fail(AuthError::TokenHttpStatus(199))
    );
    assert_eq!(
        Authenticator::on_token_response(Ok(300)),
        Step::Fail(AuthError::TokenHttpStatus(300))
    );
    assert_eq!(
        Authenticator::on_token_response(Ok(503)),
        Step::Fail(AuthError::TokenHttpStatus(503))
    );
}

#[test]
fn transport_failure_fails_with_its_message() {
    assert_eq!(
        Authenticator::on_token_response(Err("connection refused".to_string())),
        Step::Fail(AuthError::TokenTransport("connection refused".to_string()))
    );
}

#[test]
fn undecodable_body_fails_and_keeps_the_cache() {
    let mut a = auth();
    assert_eq!(a.on_token_body(grant("first", 300), 1_000), Step::Serve("Bearer first".to_string()));
    let before = a.valid_until();
    assert_eq!(
        a.on_token_body(Err("missing field".to_string()), 2_000),
        Step::Fail(AuthError::TokenDecode("missing field".to_string()))
    );
    assert_eq!(a.valid_until(), before);
    assert_eq!(a.servable(2_000), Some("Bearer first".to_string()));
}

#[test]
fn grant_is_stored_and_served() {
    let mut a = auth();
    let step = a.on_token_body(grant("abc", 300), 1_000);
    assert_eq!(step, Step::Serve("Bearer abc".to_string()));
    assert_eq!(a.valid_until(), Some(1_000 + 290_000));
    assert_eq!(a.on_call(1_001), Step::Serve("Bearer abc".to_string()));
}

#[test]
fn short_grant_is_stored_for_fifty_seconds() {
    let mut a = auth();
    a.on_token_body(grant("abc", 5), 7_000);
    assert_eq!(a.valid_until(), Some(7_000 + 50_000));
    assert_eq!(expiry_at(7_000, 5), 57_000);
    assert_eq!(expiry_at(0, 0), 50_000);
    assert_eq!(expiry_at(0, 60), 50_000);
    assert_eq!(expiry_at(0, 61), 51_000);
}

#[test]
fn expiry_stops_at_the_end_of_the_clock() {
    assert_eq!(expiry_at(u64::MAX, 5), u64::MAX);
    assert_eq!(expiry_at(10, u64::MAX), u64::MAX);
    assert_eq!(expiry_at(u64::MAX - 50_000, 5), u64::MAX);
    assert_eq!(expiry_at(u64::MAX - 50_001, 5), u64::MAX - 1);
}

#[test]
fn token_is_fresh_only_while_more_than_the_leeway_is_left() {
    let mut a = auth();
    a.on_token_body(grant("abc", 100), 0);
    // valid until 90_000; the leeway is 20_000
    assert_eq!(a.on_call(69_999), Step::Serve("Bearer abc".to_string()));
    assert_eq!(a.on_call(70_000), Step::AcquireLock);
    assert_eq!(a.on_call(90_000), Step::AcquireLock);
    assert_eq!(a.on_call(u64::MAX), Step::AcquireLock);
    assert_eq!(a.on_lock_acquired(69_999), Step::Serve("Bearer abc".to_string()));
    assert!(matches!(a.on_lock_acquired(70_000), Step::RequestToken(_)));
}

#[test]
fn fresh_token_is_served_without_a_request() {
    let mut a = auth();
    a.on_token_body(grant("warm", 3_600), 0);
    for now in [0u64, 1, 1_000, 3_000_000] {
        assert_eq!(a.on_call(now), Step::Serve("Bearer warm".to_string()));
    }
}

#[test]
fn waiters_share_one_refresh() {
    // Ten callers miss the fast path on an empty cache and queue on the lock.
    let mut a = auth();
    let mut requests = 0;
    let mut served: Vec<String> = Vec::new();
    for caller in 0..10u64 {
        assert_eq!(a.on_call(caller), Step::AcquireLock);
    }
    for caller in 0..10u64 {
        match a.on_lock_acquired(100 + caller) {
            Step::Serve(value) => served.push(value),
            Step::RequestToken(_) => {
                requests += 1;
                assert_eq!(Authenticator::on_token_response(Ok(200)), Step::DecodeBody);
                match a.on_token_body(grant("shared", 300), 150) {
                    Step::Serve(value) => served.push(value),
                    other => panic!("unexpected step {:?}", other),
                }
            }
            other => panic!("unexpected step {:?}", other),
        }
    }
    assert_eq!(requests, 1);
    assert_eq!(served, vec!["Bearer shared".to_string(); 10]);
}

#[test]
fn failed_refresh_leaves_a_valid_token_servable() {
    let mut a = auth();
    a.on_token_body(grant("old", 100), 0);
    // at 75_000 the token is no longer fresh, but it has not expired
    assert!(matches!(a.on_lock_acquired(75_000), Step::RequestToken(_)));
    assert_eq!(
        Authenticator::on_token_response(Ok(500)),
        Step::Fail(AuthError::TokenHttpStatus(500))
    );
    assert_eq!(a.valid_until(), Some(90_000));
    assert_eq!(a.on_call(60_000), Step::Serve("Bearer old".to_string()));
}

#[test]
fn failure_on_an_empty_cache_reaches_every_waiter() {
    let mut a = auth();
    for caller in 0..5u64 {
        assert!(matches!(a.on_lock_acquired(caller), Step::RequestToken(_)));
        assert_eq!(
            a.on_token_body(Err("bad json".to_string()), caller),
            Step::Fail(AuthError::TokenDecode("bad json".to_string()))
        );
        assert_eq!(a.valid_until(), None);
    }
}

#[test]
fn refresh_replaces_the_previous_token() {
    let mut a = auth();
    a.on_token_body(grant("one", 100), 0);
    a.on_token_body(grant("two", 200), 80_000);
    assert_eq!(a.valid_until(), Some(80_000 + 190_000));
    assert_eq!(a.on_call(80_000), Step::Serve("Bearer two".to_string()));
}

#[test]
fn bearer_header_puts_the_scheme_first() {
    assert_eq!(bearer_header("xyz"), "Bearer xyz");
    assert_eq!(bearer_header(""), "Bearer ");
}
