use vstd::prelude::*;

use crate::acme_error::AcmeError;
use crate::error::Error;
use crate::nonce::{is_nonce, is_nonce_spec};

verus! {

/// Media type of a signed request body.
pub const CONTENT_TYPE_JOSE: &'static str = "application/jose+json";

/// Media type of a JSON document.
pub const CONTENT_TYPE_JSON: &'static str = "application/json";

/// Media type of a PEM certificate chain.
pub const CONTENT_TYPE_PEM: &'static str = "application/pem-certificate-chain";

/// Response header that carries the next replay nonce.
pub const HEADER_NONCE: &'static str = "Replay-Nonce";

/// Response header that carries the location of a created resource.
pub const HEADER_LOCATION: &'static str = "Location";

/// Keeps outbound requests at least a fixed interval apart.
pub struct RateLimiter {
    pub min_interval_ms: u64,
    pub last_ms: Option<u64>,
}

/// The earliest time, in milliseconds, at which the next request may leave.
pub open spec fn allowed_at(rl: &RateLimiter) -> int {
    match rl.last_ms {
        None => 0,
        Some(last) => if last + rl.min_interval_ms > u64::MAX {
            u64::MAX as int
        } else {
            last + rl.min_interval_ms
        },
    }
}

impl RateLimiter {
    pub fn new(min_interval_ms: u64) -> (r: RateLimiter)
        ensures
            r.min_interval_ms == min_interval_ms,
            r.last_ms is None,
    {
        RateLimiter { min_interval_ms, last_ms: None }
    }

    /// Claims the next slot for a request asked for at `now_ms`, and returns
    /// how many milliseconds the caller must wait before sending it.
    pub fn block_until_allowed(&mut self, now_ms: u64) -> (wait_ms: u64)
        ensures
            wait_ms == (if allowed_at(old(self)) > now_ms {
                allowed_at(old(self)) - now_ms
            } else {
                0
            }),
            final(self).last_ms == Some((now_ms + wait_ms) as u64),
            final(self).min_interval_ms == old(self).min_interval_ms,
    {
        let allowed: u64 = match self.last_ms {
            None => 0,
            Some(last) => if last > u64::MAX - self.min_interval_ms {
                u64::MAX
            } else {
                last + self.min_interval_ms
            },
        };
        let wait_ms: u64 = if allowed > now_ms {
            allowed - now_ms
        } else {
            0
        };
        self.last_ms = Some(now_ms + wait_ms);
        wait_ms
    }
}

/// The state kept across the exchanges with one ACME server.
pub struct Endpoint {
    pub new_nonce_url: String,
    pub nonce: Option<String>,
    pub rl: RateLimiter,
}

impl Endpoint {
    /// The nonce held, if any, is a valid one.
    pub open spec fn wf(&self) -> bool {
        self.nonce matches Some(n) ==> is_nonce_spec(n@)
    }

    pub fn new(new_nonce_url: String, rl: RateLimiter) -> (r: Endpoint)
        ensures
            r.wf(),
            r.new_nonce_url == new_nonce_url,
            r.nonce is None,
            r.rl == rl,
    {
        Endpoint { new_nonce_url, nonce: None, rl }
    }
}

/// Takes the `Replay-Nonce` header of a response, if there is one. A valid
/// value becomes the endpoint's nonce; any other is refused and changes nothing.
pub fn update_nonce(endpoint: &mut Endpoint, header: Option<&str>) -> (r: Result<(), Error>)
    ensures
        final(endpoint).new_nonce_url == old(endpoint).new_nonce_url,
        final(endpoint).rl == old(endpoint).rl,
        old(endpoint).wf() ==> final(endpoint).wf(),
        header is None ==> r is Ok && final(endpoint).nonce == old(endpoint).nonce,
        header is Some && is_nonce_spec(header->0@) ==> r is Ok && final(endpoint).nonce is Some
            && final(endpoint).nonce->0@ == header->0@,
        header is Some && !is_nonce_spec(header->0@) ==> final(endpoint).nonce == old(
            endpoint,
        ).nonce && (r matches Err(Error::InvalidNonce(s)) && s@ == header->0@),
{
    match header {
        Some(h) => {
            if !is_nonce(h) {
                return Err(Error::InvalidNonce(h.to_owned()));
            }
            endpoint.nonce = Some(h.to_owned());
            Ok(())
        },
        None => Ok(()),
    }
}

/// An HTTP status in the success range.
pub open spec fn is_success(status: u16) -> bool {
    200 <= status <= 299
}

/// Accepts a success status and turns any other into an error.
pub fn check_status(status: u16) -> (r: Result<(), Error>)
    ensures
        is_success(status) ==> r is Ok,
        !is_success(status) ==> r == Err::<(), Error>(Error::HttpStatus(status)),
{
    if 200 <= status && status <= 299 {
        Ok(())
    } else {
        Err(Error::HttpStatus(status))
    }
}

/// Handles the response to an unsigned request: its nonce header first, then
/// its status.
pub fn check_get_response(endpoint: &mut Endpoint, status: u16, nonce_header: Option<&str>) -> (r:
    Result<(), Error>)
    ensures
        final(endpoint).new_nonce_url == old(endpoint).new_nonce_url,
        final(endpoint).rl == old(endpoint).rl,
        old(endpoint).wf() ==> final(endpoint).wf(),
        nonce_header is None ==> final(endpoint).nonce == old(endpoint).nonce,
        nonce_header is Some && is_nonce_spec(nonce_header->0@) ==> final(endpoint).nonce is Some
            && final(endpoint).nonce->0@ == nonce_header->0@,
        nonce_header is Some && !is_nonce_spec(nonce_header->0@) ==> final(endpoint).nonce == old(
            endpoint,
        ).nonce && (r matches Err(Error::InvalidNonce(s)) && s@ == nonce_header->0@),
        (nonce_header is None || is_nonce_spec(nonce_header->0@)) ==> (
        is_success(status) ==> r is Ok),
        (nonce_header is None || is_nonce_spec(nonce_header->0@)) ==> (
        !is_success(status) ==> r == Err::<(), Error>(Error::HttpStatus(status))),
{
    match update_nonce(endpoint, nonce_header) {
        Ok(()) => {},
        Err(e) => {
            return Err(e);
        },
    }
    check_status(status)
}

/// The step a signed request is at.
#[derive(Debug, Clone, Copy, PartialEq, Eq, Structural)]
pub enum PostPhase {
    Start,
    AwaitNonce,
    AwaitBody,
    AwaitResponse,
    AwaitApiError,
    AwaitSleep,
    Done,
}

/// What the caller reports back after performing an action.
pub enum PostEvent {
    /// The last action is over: the start, a nonce fetch, or a sleep.
    Proceed,
    /// The body builder returned this signed body.
    BodyBuilt(String),
    /// The server answered with this status and `Replay-Nonce` header.
    Responded(u16, Option<String>),
    /// The error document of a failed response names this error type.
    ApiError(AcmeError),
    /// The action failed: body builder, network, or decoding.
    Failed(Error),
}

/// What the caller is to do next for a signed request.
pub enum PostAction {
    /// Fetch a fresh nonce from the new-nonce URL; its failure is tolerated.
    FetchNonce,
    /// Build the signed body with this nonce.
    BuildBody(String),
    /// Wait for the rate limiter, then send this body.
    Send(String),
    /// Decode the failed response's body as an ACME error document.
    DecodeError,
    /// Sleep this many seconds.
    Sleep(u64),
    /// The request is over: `Ok` means the last response is the answer.
    Finish(Result<(), Error>),
}

/// A signed request with its retry policy, driven one action at a time.
pub struct PostRun {
    pub attempts: usize,
    pub max_attempts: usize,
    pub wait_secs: u64,
    pub last_status: u16,
    pub phase: PostPhase,
}

/// The event is one that the phase waits for.
pub open spec fn answers(phase: PostPhase, event: PostEvent) -> bool {
    match phase {
        PostPhase::Start => event is Proceed,
        PostPhase::AwaitNonce => event is Proceed || event is Failed,
        PostPhase::AwaitBody => event is BodyBuilt || event is Failed,
        PostPhase::AwaitResponse => event is Responded || event is Failed,
        PostPhase::AwaitApiError => event is ApiError || event is Failed,
        PostPhase::AwaitSleep => event is Proceed,
        PostPhase::Done => false,
    }
}

impl PostRun {
    /// No more bodies are sent than the budget allows.
    pub open spec fn wf(&self) -> bool {
        &&& self.attempts <= self.max_attempts
        &&& (self.phase == PostPhase::AwaitBody ==> self.attempts < self.max_attempts)
    }

    /// A signed request that may send at most `max_attempts` bodies, and
    /// sleeps `wait_secs` seconds after each recoverable error.
    pub fn new(max_attempts: usize, wait_secs: u64) -> (r: PostRun)
        ensures
            r.wf(),
            r.attempts == 0,
            r.max_attempts == max_attempts,
            r.wait_secs == wait_secs,
            r.phase == PostPhase::Start,
    {
        PostRun { attempts: 0, max_attempts, wait_secs, last_status: 0, phase: PostPhase::Start }
    }

    /// The action that opens an attempt: give up once the budget is spent,
    /// fail where no nonce is held, else build a body with the nonce.
    pub open spec fn opens_attempt(
        self,
        after: PostRun,
        nonce: Option<String>,
        r: PostAction,
    ) -> bool {
        if self.attempts >= self.max_attempts {
            after.phase == PostPhase::Done && r == PostAction::Finish(
                Err(Error::TooManyErrors),
            )
        } else if nonce is None {
            after.phase == PostPhase::Done && r == PostAction::Finish(Err(Error::MissingNonce))
        } else {
            after.phase == PostPhase::AwaitBody && r == PostAction::BuildBody(nonce->0)
        }
    }

    fn open_attempt(&mut self, endpoint: &Endpoint) -> (r: PostAction)
        requires
            old(self).wf(),
        ensures
            final(self).wf(),
            final(self).attempts == old(self).attempts,
            final(self).max_attempts == old(self).max_attempts,
            final(self).wait_secs == old(self).wait_secs,
            final(self).last_status == old(self).last_status,
            old(self).opens_attempt(*final(self), endpoint.nonce, r),
    {
        if self.attempts >= self.max_attempts {
            self.phase = PostPhase::Done;
            return PostAction::Finish(Err(Error::TooManyErrors));
        }
        match &endpoint.nonce {
            Some(n) => {
                self.phase = PostPhase::AwaitBody;
                PostAction::BuildBody(n.clone())
            },
            None => {
                self.phase = PostPhase::Done;
                PostAction::Finish(Err(Error::MissingNonce))
            },
        }
    }

    /// Moves the request on by one step, given what came of the last action
    /// (`Proceed` to begin). The endpoint's nonce is taken from each response.
    pub fn step(&mut self, endpoint: &mut Endpoint, event: PostEvent) -> (r: PostAction)
        requires
            old(self).wf(),
            old(endpoint).wf(),
        ensures
            final(self).wf(),
            final(endpoint).wf(),
            final(self).max_attempts == old(self).max_attempts,
            final(self).wait_secs == old(self).wait_secs,
            final(endpoint).new_nonce_url == old(endpoint).new_nonce_url,
            final(endpoint).rl == old(endpoint).rl,
            // a body is sent only within the budget, and each send spends one attempt
            r is Send ==> final(self).attempts == old(self).attempts + 1,
            !(r is Send) ==> final(self).attempts == old(self).attempts,
            !(old(self).phase == PostPhase::AwaitResponse && event is Responded)
                ==> final(endpoint).nonce == old(endpoint).nonce,
            !answers(old(self).phase, event) ==> final(self).phase == PostPhase::Done && r
                == PostAction::Finish(Err(Error::UnexpectedEvent)),
            old(self).phase == PostPhase::Start && event is Proceed ==> if old(
                endpoint,
            ).nonce is None {
                final(self).phase == PostPhase::AwaitNonce && r == PostAction::FetchNonce
            } else {
                old(self).opens_attempt(*final(self), old(endpoint).nonce, r)
            },
            old(self).phase == PostPhase::AwaitNonce && (event is Proceed || event is Failed)
                ==> old(self).opens_attempt(*final(self), old(endpoint).nonce, r),
            old(self).phase == PostPhase::AwaitSleep && event is Proceed ==> old(
                self,
            ).opens_attempt(*final(self), old(endpoint).nonce, r),
            old(self).phase == PostPhase::AwaitBody && event is BodyBuilt ==> final(self).phase
                == PostPhase::AwaitResponse && r == PostAction::Send(event->BodyBuilt_0),
            // a body builder error ends the request at once, with that error
            old(self).phase == PostPhase::AwaitBody && event is Failed ==> final(self).phase
                == PostPhase::Done && r == PostAction::Finish(Err(event->Failed_0)),
            old(self).phase == PostPhase::AwaitResponse && event is Failed ==> final(self).phase
                == PostPhase::Done && r == PostAction::Finish(Err(event->Failed_0)),
            old(self).phase == PostPhase::AwaitResponse && event is Responded ==> ({
                let status = event->Responded_0;
                let header = event->Responded_1;
                if header is Some && !is_nonce_spec(header->0@) {
                    &&& final(endpoint).nonce == old(endpoint).nonce
                    &&& final(self).phase == PostPhase::Done
                    &&& r matches PostAction::Finish(Err(Error::InvalidNonce(s)))
                    &&& s@ == header->0@
                } else {
                    &&& (header is None ==> final(endpoint).nonce == old(endpoint).nonce)
                    &&& (header is Some ==> final(endpoint).nonce is Some
                        && final(endpoint).nonce->0@ == header->0@)
                    &&& (is_success(status) ==> final(self).phase == PostPhase::Done && r
                        == PostAction::Finish(Ok(())))
                    &&& (!is_success(status) ==> final(self).phase == PostPhase::AwaitApiError
                        && final(self).last_status == status && r == PostAction::DecodeError)
                }
            }),
            old(self).phase == PostPhase::AwaitApiError && event is ApiError ==> if event->ApiError_0.is_recoverable_spec() {
                final(self).phase == PostPhase::AwaitSleep && r == PostAction::Sleep(
                    old(self).wait_secs,
                )
            } else {
                final(self).phase == PostPhase::Done && r == PostAction::Finish(
                    Err(Error::HttpStatus(old(self).last_status)),
                )
            },
            old(self).phase == PostPhase::AwaitApiError && event is Failed ==> final(self).phase
                == PostPhase::Done && r == PostAction::Finish(Err(event->Failed_0)),
    {
        match (self.phase, event) {
            (PostPhase::Start, PostEvent::Proceed) => {
                if endpoint.nonce.is_none() {
                    self.phase = PostPhase::AwaitNonce;
                    PostAction::FetchNonce
                } else {
                    self.open_attempt(endpoint)
                }
            },
            (PostPhase::AwaitNonce, PostEvent::Proceed)
            | (PostPhase::AwaitNonce, PostEvent::Failed(_))
            | (PostPhase::AwaitSleep, PostEvent::Proceed) => self.open_attempt(endpoint),
            (PostPhase::AwaitBody, PostEvent::BodyBuilt(body)) => {
                self.attempts = self.attempts + 1;
                self.phase = PostPhase::AwaitResponse;
                PostAction::Send(body)
            },
            (PostPhase::AwaitResponse, PostEvent::Responded(status, header)) => {
                let checked = match &header {
                    Some(h) => update_nonce(endpoint, Some(h.as_str())),
                    None => update_nonce(endpoint, None),
                };
                if let Err(e) = checked {
                    self.phase = PostPhase::Done;
                    return PostAction::Finish(Err(e));
                }
                match check_status(status) {
                    Ok(()) => {
                        self.phase = PostPhase::Done;
                        PostAction::Finish(Ok(()))
                    },
                    Err(_) => {
                        self.last_status = status;
                        self.phase = PostPhase::AwaitApiError;
                        PostAction::DecodeError
                    },
                }
            },
            (PostPhase::AwaitApiError, PostEvent::ApiError(kind)) => {
                if kind.is_recoverable() {
                    self.phase = PostPhase::AwaitSleep;
                    PostAction::Sleep(self.wait_secs)
                } else {
                    self.phase = PostPhase::Done;
                    PostAction::Finish(Err(Error::HttpStatus(self.last_status)))
                }
            },
            (PostPhase::AwaitBody, PostEvent::Failed(e))
            | (PostPhase::AwaitResponse, PostEvent::Failed(e))
            | (PostPhase::AwaitApiError, PostEvent::Failed(e)) => {
                self.phase = PostPhase::Done;
                PostAction::Finish(Err(e))
            },
            _ => {
                self.phase = PostPhase::Done;
                PostAction::Finish(Err(Error::UnexpectedEvent))
            },
        }
    }
}

/// A signed request whose body is a JOSE document and whose answer is JSON,
/// with the default retry budget and backoff. Returns the run and the
/// content type and accepted type to send.
pub fn post_jose() -> (r: (PostRun, &'static str, &'static str))
    ensures
        r.0.wf(),
        r.0.attempts == 0,
        r.0.max_attempts == crate::DEFAULT_HTTP_FAIL_NB_RETRY,
        r.0.wait_secs == crate::DEFAULT_HTTP_FAIL_WAIT_SEC,
        r.0.phase == PostPhase::Start,
        r.1@ == CONTENT_TYPE_JOSE@,
        r.2@ == CONTENT_TYPE_JSON@,
{
    (
        PostRun::new(crate::DEFAULT_HTTP_FAIL_NB_RETRY, crate::DEFAULT_HTTP_FAIL_WAIT_SEC),
        CONTENT_TYPE_JOSE,
        CONTENT_TYPE_JSON,
    )
}

/// Claims the rate limiter's next slot for a request asked for at `now_ms`;
/// returns how many milliseconds to wait before sending.
pub fn rate_limit(endpoint: &mut Endpoint, now_ms: u64) -> (wait_ms: u64)
    ensures
        wait_ms == (if allowed_at(&old(endpoint).rl) > now_ms {
            allowed_at(&old(endpoint).rl) - now_ms
        } else {
            0
        }),
        final(endpoint).rl.last_ms == Some((now_ms + wait_ms) as u64),
        final(endpoint).rl.min_interval_ms == old(endpoint).rl.min_interval_ms,
        final(endpoint).nonce == old(endpoint).nonce,
        final(endpoint).new_nonce_url == old(endpoint).new_nonce_url,
{
    endpoint.rl.block_until_allowed(now_ms)
}

/// A signed request gives up for want of attempts only once it has sent as
/// many bodies as its budget allows, never sooner.
pub proof fn lemma_gives_up_only_when_spent(
    run: PostRun,
    after: PostRun,
    nonce: Option<String>,
    r: PostAction,
)
    requires
        run.wf(),
        run.opens_attempt(after, nonce, r),
        r == PostAction::Finish(Err(Error::TooManyErrors)),
    ensures
        run.attempts == run.max_attempts,
{
}

/// A signed request never sends more bodies than its budget: from a
/// well-formed run, a send is possible only while attempts remain.
pub proof fn lemma_send_within_budget(run: PostRun)
    requires
        run.wf(),
        run.phase == PostPhase::AwaitBody,
    ensures
        run.attempts + 1 <= run.max_attempts,
{
}

} // verus!
