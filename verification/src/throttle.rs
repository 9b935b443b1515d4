//! How a failed call is answered: a throttled one is sent again after a random
//! pause, any other failure is handed back.
use http::StatusCode;
use rand::rngs::ThreadRng;
use rand::Rng;
use vstd::prelude::*;

verus! {

/// The shortest pause after a throttled call, in milliseconds.
pub const THROTTLING_MIN_WAIT_MS: u64 = 1000;

/// The bound below which every pause after a throttled call stays, in
/// milliseconds.
pub const THROTTLING_MAX_WAIT_MS: u64 = 10000;

/// The generator `rand::rngs::ThreadRng`, as an opaque value.
#[verifier::external_type_specification]
#[verifier::external_body]
pub struct ExThreadRng(rand::rngs::ThreadRng);

/// `rand::thread_rng`. Nothing is claimed of the generator. A system that gives no
/// randomness to seed it with makes the call panic.
#[verifier::external_body]
pub(crate) fn thread_rng() -> ThreadRng {
    rand::thread_rng()
}

/// `rand::Rng::gen_range` on the half-open range from `low` to `high`. Trusted:
/// the number drawn lies in the range. Which one it is rests on chance.
#[verifier::external_body]
fn gen_range(rng: &mut ThreadRng, low: u64, high: u64) -> (drawn: u64)
    requires
        low < high,
    ensures
        low <= drawn < high,
{
    rng.gen_range(low..high)
}

/// `http::StatusCode::SERVICE_UNAVAILABLE`, as a number. Trusted: it is 503.
#[verifier::external_body]
fn service_unavailable() -> (status: u16)
    ensures
        status == 503,
{
    StatusCode::SERVICE_UNAVAILABLE.as_u16()
}

/// `http::StatusCode::TOO_MANY_REQUESTS`, as a number. Trusted: it is 429.
#[verifier::external_body]
fn too_many_requests() -> (status: u16)
    ensures
        status == 429,
{
    StatusCode::TOO_MANY_REQUESTS.as_u16()
}

/// Why a call failed: the error, and the HTTP status where there was an answer.
#[derive(Debug, PartialEq)]
pub struct ApiError<E> {
    pub status: Option<u16>,
    pub error: E,
}

impl<E> ApiError<E> {
    /// The call was refused for now: 503 Service Unavailable or 429 Too Many
    /// Requests.
    pub open spec fn spec_throttled(self) -> bool {
        self.status == Some(503u16) || self.status == Some(429u16)
    }
}

/// What a call came to: its answer, or why it failed.
pub type Reply<S, E> = Result<S, ApiError<E>>;

/// Tells whether a call was throttled.
pub fn is_throttled<S, E>(reply: &Reply<S, E>) -> (throttled: bool)
    ensures
        throttled == (reply is Err && reply->Err_0.spec_throttled()),
{
    match reply {
        Ok(_) => false,
        Err(failure) => match failure.status {
            Some(status) => status == service_unavailable() || status == too_many_requests(),
            None => false,
        },
    }
}

/// A pause, in milliseconds, that a throttled call may be answered with.
pub open spec fn is_pause(ms: u64) -> bool {
    THROTTLING_MIN_WAIT_MS <= ms < THROTTLING_MAX_WAIT_MS
}

/// Draws the pause, in milliseconds, after a throttled call.
pub fn random_wait(rng: &mut ThreadRng) -> (ms: u64)
    ensures
        is_pause(ms),
{
    gen_range(rng, THROTTLING_MIN_WAIT_MS, THROTTLING_MAX_WAIT_MS)
}

/// What to do about a reply that is no final failure.
#[derive(Debug, PartialEq)]
pub enum Settled<S> {
    /// Pause for so many milliseconds, then send the same call again.
    Retry(u64),
    /// Go on with the answer.
    Answer(S),
}

/// A reply is settled: the answer goes on, a throttled call is to be sent again
/// after a pause, and any other failure is final.
pub open spec fn settles<S, E>(reply: Reply<S, E>, outcome: Result<Settled<S>, E>) -> bool {
    match reply {
        Ok(answer) => outcome == Ok::<Settled<S>, E>(Settled::Answer(answer)),
        Err(failure) => if failure.spec_throttled() {
            outcome matches Ok(Settled::Retry(ms)) && is_pause(ms)
        } else {
            outcome == Err::<Settled<S>, E>(failure.error)
        },
    }
}

/// Settles a reply.
pub fn settle<S, E>(rng: &mut ThreadRng, reply: Reply<S, E>) -> (outcome: Result<Settled<S>, E>)
    ensures
        settles(reply, outcome),
{
    if is_throttled(&reply) {
        return Ok(Settled::Retry(random_wait(rng)));
    }
    match reply {
        Ok(answer) => Ok(Settled::Answer(answer)),
        Err(failure) => Err(failure.error),
    }
}

} // verus!
