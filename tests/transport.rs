use acmed_core::acme_error::AcmeError;
use acmed_core::error::Error;
use acmed_core::transport::{
    check_get_response, check_status, post_jose, rate_limit, update_nonce, Endpoint, PostAction,
    PostEvent, PostPhase, PostRun, RateLimiter, CONTENT_TYPE_JOSE, CONTENT_TYPE_JSON,
};

fn endpoint() -> Endpoint {
    Endpoint::new("https://acme.example/new-nonce".to_string(), RateLimiter::new(100))
}

#[test]
fn nonce_header_updates_endpoint() {
    let mut ep = endpoint();
    assert!(update_nonce(&mut ep, None).is_ok());
    assert_eq!(ep.nonce, None);
    assert!(update_nonce(&mut ep, Some("abc_DEF-1")).is_ok());
    assert_eq!(ep.nonce, Some("abc_DEF-1".to_string()));
    let r = update_nonce(&mut ep, Some("bad/nonce"));
    assert_eq!(r, Err(Error::InvalidNonce("bad/nonce".to_string())));
    assert_eq!(ep.nonce, Some("abc_DEF-1".to_string()));
}

#[test]
fn status_check() {
    assert!(check_status(200).is_ok());
    assert!(check_status(299).is_ok());
    assert_eq!(check_status(199), Err(Error::HttpStatus(199)));
    assert_eq!(check_status(404), Err(Error::HttpStatus(404)));
}

#[test]
fn get_response_checks_nonce_first() {
    let mut ep = endpoint();
    assert_eq!(
        check_get_response(&mut ep, 500, Some("+")),
        Err(Error::InvalidNonce("+".to_string()))
    );
    assert_eq!(check_get_response(&mut ep, 500, Some("n1")), Err(Error::HttpStatus(500)));
    assert_eq!(ep.nonce, Some("n1".to_string()));
    assert!(check_get_response(&mut ep, 204, None).is_ok());
}

#[test]
fn rate_limiter_spacing() {
    let mut ep = endpoint();
    assert_eq!(rate_limit(&mut ep, 1000), 0);
    assert_eq!(rate_limit(&mut ep, 1030), 70);
    assert_eq!(rate_limit(&mut ep, 1500), 0);
    let mut rl = RateLimiter::new(u64::MAX);
    assert_eq!(rl.block_until_allowed(5), 0);
    assert_eq!(rl.block_until_allowed(6), u64::MAX - 6);
}

#[test]
fn error_types() {
    assert_eq!(AcmeError::from_type("urn:ietf:params:acme:error:badNonce"), AcmeError::BadNonce);
    assert_eq!(
        AcmeError::from_type("urn:ietf:params:acme:error:unauthorized"),
        AcmeError::Unauthorized
    );
    assert_eq!(AcmeError::from_type("badNonce"), AcmeError::Unknown);
    assert!(AcmeError::BadNonce.is_recoverable());
    assert!(AcmeError::RateLimited.is_recoverable());
    assert!(!AcmeError::Unauthorized.is_recoverable());
    assert!(!AcmeError::Unknown.is_recoverable());
}

#[test]
fn post_success_first_try() {
    let mut ep = endpoint();
    let (mut run, ct, accept) = post_jose();
    assert_eq!(ct, CONTENT_TYPE_JOSE);
    assert_eq!(accept, CONTENT_TYPE_JSON);
    assert!(matches!(run.step(&mut ep, PostEvent::Proceed), PostAction::FetchNonce));
    ep.nonce = Some("n0".to_string());
    match run.step(&mut ep, PostEvent::Proceed) {
        PostAction::BuildBody(n) => assert_eq!(n, "n0"),
        _ => panic!("expected a body to build"),
    }
    match run.step(&mut ep, PostEvent::BodyBuilt("body".to_string())) {
        PostAction::Send(b) => assert_eq!(b, "body"),
        _ => panic!("expected a send"),
    }
    let a = run.step(&mut ep, PostEvent::Responded(200, Some("n1".to_string())));
    assert!(matches!(a, PostAction::Finish(Ok(()))));
    assert_eq!(ep.nonce, Some("n1".to_string()));
    assert_eq!(run.attempts, 1);
}

#[test]
fn post_retry_budget_is_bounded() {
    let mut ep = endpoint();
    ep.nonce = Some("n".to_string());
    let mut run = PostRun::new(3, 2);
    let mut sends = 0;
    let mut action = run.step(&mut ep, PostEvent::Proceed);
    for _ in 0..100 {
        action = match action {
            PostAction::BuildBody(_) => run.step(&mut ep, PostEvent::BodyBuilt("b".to_string())),
            PostAction::Send(_) => {
                sends += 1;
                run.step(&mut ep, PostEvent::Responded(400, Some("m".to_string())))
            }
            PostAction::DecodeError => run.step(&mut ep, PostEvent::ApiError(AcmeError::BadNonce)),
            PostAction::Sleep(s) => {
                assert_eq!(s, 2);
                run.step(&mut ep, PostEvent::Proceed)
            }
            other => {
                action = other;
                break;
            }
        };
    }
    assert!(matches!(action, PostAction::Finish(Err(Error::TooManyErrors))));
    assert_eq!(sends, 3);
    assert_eq!(run.attempts, 3);
}

#[test]
fn post_builder_error_stops_at_once() {
    let mut ep = endpoint();
    ep.nonce = Some("n".to_string());
    let mut run = PostRun::new(5, 1);
    assert!(matches!(run.step(&mut ep, PostEvent::Proceed), PostAction::BuildBody(_)));
    let a = run.step(&mut ep, PostEvent::Failed(Error::Other("no key".to_string())));
    match a {
        PostAction::Finish(Err(e)) => assert_eq!(e, Error::Other("no key".to_string())),
        _ => panic!("expected the builder error"),
    }
    assert_eq!(run.attempts, 0);
    assert_eq!(run.phase, PostPhase::Done);
}

#[test]
fn post_terminal_error_is_not_retried() {
    let mut ep = endpoint();
    ep.nonce = Some("n".to_string());
    let mut run = PostRun::new(5, 1);
    run.step(&mut ep, PostEvent::Proceed);
    run.step(&mut ep, PostEvent::BodyBuilt("b".to_string()));
    assert!(matches!(run.step(&mut ep, PostEvent::Responded(403, None)), PostAction::DecodeError));
    let a = run.step(&mut ep, PostEvent::ApiError(AcmeError::Unauthorized));
    match a {
        PostAction::Finish(Err(e)) => assert_eq!(e, Error::HttpStatus(403)),
        _ => panic!("expected the status error"),
    }
}

#[test]
fn post_without_nonce_fails_fast() {
    let mut ep = endpoint();
    let mut run = PostRun::new(5, 1);
    assert!(matches!(run.step(&mut ep, PostEvent::Proceed), PostAction::FetchNonce));
    let a = run.step(&mut ep, PostEvent::Failed(Error::Other("offline".to_string())));
    assert!(matches!(a, PostAction::Finish(Err(Error::MissingNonce))));
}

#[test]
fn post_invalid_nonce_header_is_fatal() {
    let mut ep = endpoint();
    ep.nonce = Some("n".to_string());
    let mut run = PostRun::new(5, 1);
    run.step(&mut ep, PostEvent::Proceed);
    run.step(&mut ep, PostEvent::BodyBuilt("b".to_string()));
    let a = run.step(&mut ep, PostEvent::Responded(200, Some("x=".to_string())));
    assert!(matches!(a, PostAction::Finish(Err(Error::InvalidNonce(_)))));
    assert_eq!(ep.nonce, Some("n".to_string()));
}

#[test]
fn error_messages() {
    assert_eq!(Error::InvalidLogLevel("x".to_string()).message(), "x: invalid log level");
    assert_eq!(Error::TooManyErrors.message(), "Too much errors, will not retry");
    assert_eq!(Error::HttpStatus(404).message(), "HTTP error: 404");
}

#[test]
fn post_out_of_order_event_is_refused() {
    let mut ep = endpoint();
    let mut run = PostRun::new(5, 1);
    let a = run.step(&mut ep, PostEvent::BodyBuilt("b".to_string()));
    assert!(matches!(a, PostAction::Finish(Err(Error::UnexpectedEvent))));
    assert_eq!(run.phase, PostPhase::Done);
    assert_eq!(run.attempts, 0);
}
