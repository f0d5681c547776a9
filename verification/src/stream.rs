use vstd::prelude::*;

verus! {

/// How long to wait before reading a camera's stream again after it failed.
pub const STREAM_RETRY_SECS: u64 = 2;

/// What to do once a camera's stream has ended.
#[derive(Clone, Copy, Debug, PartialEq, Eq, Structural)]
pub enum StreamNext {
    /// The stream ended by itself: stop reading it.
    Stop,
    /// The stream failed: read it again after this many seconds.
    RetryAfterSecs(u64),
}

/// The step after a stream ends: a clean end stops; a failure is retried
/// after `STREAM_RETRY_SECS` seconds.
pub fn after_stream(ended_cleanly: bool) -> (next: StreamNext)
    ensures
        ended_cleanly ==> next == StreamNext::Stop,
        !ended_cleanly ==> next == StreamNext::RetryAfterSecs(STREAM_RETRY_SECS),
{
    if ended_cleanly {
        StreamNext::Stop
    } else {
        StreamNext::RetryAfterSecs(STREAM_RETRY_SECS)
    }
}

} // verus!
