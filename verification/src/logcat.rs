//! The logcat sink: log levels to Android priorities, and the line buffer
//! that turns formatted log output into one logcat record per line.
use vstd::prelude::*;

verus! {

/// Level of a log event.
#[derive(Debug, Clone, Copy, PartialEq, Eq)]
pub enum TraceLevel {
    Error,
    Warn,
    Info,
    Debug,
    Trace,
}

/// The Android log priority of a level (`android/log.h`): error 6, warn 5,
/// info 4, debug and trace 3.
pub fn log_priority(level: TraceLevel) -> (r: i32)
    ensures
        r == match level {
            TraceLevel::Error => 6i32,
            TraceLevel::Warn => 5i32,
            TraceLevel::Info => 4i32,
            TraceLevel::Debug | TraceLevel::Trace => 3i32,
        },
{
    match level {
        TraceLevel::Error => 6,
        TraceLevel::Warn => 5,
        TraceLevel::Info => 4,
        TraceLevel::Debug | TraceLevel::Trace => 3,
    }
}

/// Feeding `bytes` to a buffer holding `buf`: every newline completes the
/// buffered line (an empty line is dropped); other bytes are buffered. The
/// result is the new buffer and the completed lines, in order.
pub open spec fn feed(buf: Seq<u8>, bytes: Seq<u8>) -> (Seq<u8>, Seq<Seq<u8>>)
    decreases bytes.len(),
{
    if bytes.len() == 0 {
        (buf, Seq::empty())
    } else {
        let prev = feed(buf, bytes.drop_last());
        let c = bytes.last();
        if c == 10 {
            if prev.0.len() > 0 {
                (Seq::empty(), prev.1.push(prev.0))
            } else {
                (Seq::empty(), prev.1)
            }
        } else {
            (prev.0.push(c), prev.1)
        }
    }
}

/// The line buffer of one log event.
#[derive(Debug)]
pub struct LineBuffer {
    buf: Vec<u8>,
}

impl LineBuffer {
    /// The buffered, not yet completed line.
    pub closed spec fn pending(&self) -> Seq<u8> {
        self.buf@
    }

    /// An empty buffer.
    pub fn new() -> (r: LineBuffer)
        ensures
            r.pending() == Seq::<u8>::empty(),
    {
        LineBuffer { buf: Vec::new() }
    }

    /// Takes formatted output; returns the lines it completed.
    pub fn write(&mut self, bytes: &[u8]) -> (r: Vec<Vec<u8>>)
        ensures
            final(self).pending() == feed(old(self).pending(), bytes@).0,
            r@.map_values(|l: Vec<u8>| l@) == feed(old(self).pending(), bytes@).1,
    {
        let ghost start = self.buf@;
        let mut lines: Vec<Vec<u8>> = Vec::new();
        let n = bytes.len();
        let mut i: usize = 0;
        while i < n
            invariant
                n == bytes@.len(),
                i <= n,
                self.buf@ == feed(start, bytes@.take(i as int)).0,
                lines@.map_values(|l: Vec<u8>| l@) == feed(start, bytes@.take(i as int)).1,
            decreases n - i,
        {
            let b = bytes[i];
            let ghost before_lines = lines@;
            proof {
                let t = bytes@.take(i + 1);
                assert(t.drop_last() =~= bytes@.take(i as int));
                assert(t.last() == b);
            }
            if b == 10 {
                if self.buf.len() > 0 {
                    let mut line: Vec<u8> = Vec::new();
                    std::mem::swap(&mut line, &mut self.buf);
                    lines.push(line);
                    proof {
                        assert(lines@.map_values(|l: Vec<u8>| l@) =~= before_lines.map_values(
                            |l: Vec<u8>| l@,
                        ).push(feed(start, bytes@.take(i as int)).0));
                    }
                }
                proof {
                    assert(self.buf@ =~= Seq::<u8>::empty());
                }
            } else {
                self.buf.push(b);
            }
            i = i + 1;
        }
        proof {
            assert(bytes@.take(n as int) =~= bytes@);
        }
        lines
    }

    /// Ends the event: the unfinished line, if any, is emitted.
    pub fn finish(&mut self) -> (r: Option<Vec<u8>>)
        ensures
            old(self).pending().len() == 0 ==> r is None,
            old(self).pending().len() > 0 ==> (r matches Some(l) && l@ == old(self).pending()),
            final(self).pending() == Seq::<u8>::empty(),
    {
        if self.buf.len() == 0 {
            return None;
        }
        let mut line: Vec<u8> = Vec::new();
        std::mem::swap(&mut line, &mut self.buf);
        Some(line)
    }
}

} // verus!
