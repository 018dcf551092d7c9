//! The listener lifecycle and the log-pipe line scanner.
//!
//! The lifecycle state machine guarantees the gateway's loopback listener
//! is bound at most once per process and that stopping is safe whenever.
//! The shell around the library performs the actual bind and teardown;
//! it consults this state machine before either.

use vstd::prelude::*;

verus! {

/// Whether the gateway's listener is currently running. The shell binds
/// the listener only when `start` says so, and tears it down only when
/// `stop` says so.
pub struct ServerLifecycle {
    running: bool,
}

impl ServerLifecycle {
    /// Whether the listener is running.
    pub closed spec fn is_running(&self) -> bool {
        self.running
    }

    /// A process starts with no listener.
    pub fn new() -> (r: ServerLifecycle)
        ensures
            !r.is_running(),
    {
        ServerLifecycle { running: false }
    }

    /// Marks the listener started; says whether the caller must actually
    /// bind it now. A second call finds it already running and binds
    /// nothing, so the listener is bound at most once.
    pub fn start(&mut self) -> (bind_now: bool)
        ensures
            final(self).is_running(),
            bind_now == !old(self).is_running(),
    {
        let bind_now = !self.running;
        self.running = true;
        bind_now
    }

    /// Marks the listener stopped; says whether there is anything to tear
    /// down. Safe to call when not running: a no-op, not an error.
    pub fn stop(&mut self) -> (teardown: bool)
        ensures
            !final(self).is_running(),
            teardown == old(self).is_running(),
    {
        let teardown = self.running;
        self.running = false;
        teardown
    }
}

/// The position of the first occurrence of a byte, or -1.
pub open spec fn first_pos(s: Seq<u8>, b: u8) -> int
    decreases s.len(),
{
    if s.len() == 0 {
        -1
    } else if s[0] == b {
        0
    } else {
        let r = first_pos(s.drop_first(), b);
        if r < 0 {
            -1
        } else {
            r + 1
        }
    }
}

/// `first_pos` is exactly the first index holding the byte.
pub proof fn lemma_first_pos(s: Seq<u8>, b: u8)
    ensures
        first_pos(s, b) < 0 ==> (forall|j: int| 0 <= j < s.len() ==> s[j] != b),
        first_pos(s, b) >= 0 ==> first_pos(s, b) < s.len() && s[first_pos(s, b)] == b && (forall|
            j: int,
        | 0 <= j < first_pos(s, b) ==> s[j] != b),
    decreases s.len(),
{
    if s.len() > 0 && s[0] != b {
        lemma_first_pos(s.drop_first(), b);
        assert forall|j: int| 0 <= j < s.len() implies (first_pos(s, b) < 0 ==> s[j] != b) by {
            if j > 0 {
                assert(s.drop_first()[j - 1] == s[j]);
            }
        }
        if first_pos(s, b) >= 0 {
            assert(s.drop_first()[first_pos(s.drop_first(), b)] == s[first_pos(s, b)]);
            assert forall|j: int| 0 <= j < first_pos(s, b) implies s[j] != b by {
                if j > 0 {
                    assert(s.drop_first()[j - 1] == s[j]);
                }
            }
        }
    }
}

/// A chunk read from the pipe ends the current line when it holds a line
/// break: a line feed anywhere in the chunk, else a carriage return.
pub open spec fn scan_stop(chunk: Seq<u8>) -> bool {
    first_pos(chunk, 10) >= 0 || first_pos(chunk, 13) >= 0
}

/// What of the chunk belongs to the current line: everything before the
/// first line feed if one occurs, else everything before the first
/// carriage return if one occurs, else the whole chunk.
pub open spec fn scanned_prefix(chunk: Seq<u8>) -> Seq<u8> {
    if first_pos(chunk, 10) >= 0 {
        chunk.take(first_pos(chunk, 10))
    } else if first_pos(chunk, 13) >= 0 {
        chunk.take(first_pos(chunk, 13))
    } else {
        chunk
    }
}

/// The first occurrence of a byte in a chunk.
fn find_byte(chunk: &[u8], b: u8) -> (r: Option<usize>)
    ensures
        r matches Some(i) ==> i == first_pos(chunk@, b),
        r is None ==> first_pos(chunk@, b) < 0,
{
    let mut i: usize = 0;
    while i < chunk.len()
        invariant
            i <= chunk@.len(),
            forall|j: int| 0 <= j < i ==> chunk@[j] != b,
        decreases chunk@.len() - i,
    {
        if chunk[i] == b {
            proof {
                lemma_first_pos(chunk@, b);
            }
            return Some(i);
        }
        i = i + 1;
    }
    proof {
        lemma_first_pos(chunk@, b);
    }
    None
}

/// Appends the first `end` bytes of a chunk to the line buffer.
fn append_range(buf: &mut Vec<u8>, chunk: &[u8], end: usize)
    requires
        end <= chunk@.len(),
    ensures
        final(buf)@ == old(buf)@ + chunk@.take(end as int),
{
    let ghost start = buf@;
    let mut i: usize = 0;
    while i < end
        invariant
            i <= end <= chunk@.len(),
            buf@ == start + chunk@.take(i as int),
        decreases end - i,
    {
        buf.push(chunk[i]);
        proof {
            assert(buf@ =~= start + chunk@.take(i + 1 as int));
        }
        i = i + 1;
    }
}

/// Consumes one chunk read from the captured log pipe: extends the line
/// buffer with the part that belongs to the current line and reports
/// whether the line is complete. The read loop around it keeps feeding
/// chunks until this says to stop or the pipe is exhausted.
pub fn scan_chunk(buf: &mut Vec<u8>, chunk: &[u8]) -> (stop: bool)
    ensures
        stop == scan_stop(chunk@),
        final(buf)@ == old(buf)@ + scanned_prefix(chunk@),
{
    match find_byte(chunk, 10) {
        Some(p) => {
            proof {
                lemma_first_pos(chunk@, 10);
            }
            append_range(buf, chunk, p);
            true
        },
        None => match find_byte(chunk, 13) {
            Some(p) => {
                proof {
                    lemma_first_pos(chunk@, 13);
                }
                append_range(buf, chunk, p);
                true
            },
            None => {
                let len = chunk.len();
                append_range(buf, chunk, len);
                proof {
                    assert(chunk@.take(chunk@.len() as int) =~= chunk@);
                }
                false
            },
        },
    }
}

} // verus!
