//! Deciding when a response frame read from the serial line is complete.
//!
//! RTU frames carry no length in their first bytes, so the end of a frame
//! is found by a heuristic: after some bytes arrive the reader pauses
//! briefly and reads again; when nothing more comes, the frame is complete.
//! The reader gives up after an overall timeout, and a frame of fewer than
//! five bytes is refused. The caller performs the reads and the pauses and
//! reports each outcome here.

use vstd::prelude::*;

verus! {

/// What one read from the serial line gave.
pub enum ReadEvent {
    /// Bytes (an empty vector counts as nothing read).
    Data(Vec<u8>),
    /// The read returned without bytes.
    Nothing,
    /// The read timed out.
    TimedOut,
    /// The read failed otherwise.
    Failed,
}

/// Why no response frame was read.
pub enum ResponseError {
    /// Nothing arrived before the overall timeout.
    TimedOut,
    /// Fewer than five bytes arrived: these.
    TooShort(Vec<u8>),
}

/// What the reader asks its caller to do next.
pub enum ReadAction {
    /// Read again.
    Read,
    /// Pause briefly, then read the rest of the frame.
    ReadAfterPause,
    /// Stop and report the error of the failed read.
    Fail,
    /// Stop: the response, or why there is none.
    Done(Result<Vec<u8>, ResponseError>),
}

/// The bytes a read event carries.
pub open spec fn event_bytes(event: ReadEvent) -> Seq<u8> {
    match event {
        ReadEvent::Data(b) => b@,
        _ => Seq::empty(),
    }
}

/// Whether a read event carries at least one byte.
pub open spec fn got_bytes(event: ReadEvent) -> bool {
    event_bytes(event).len() > 0
}

/// Whether `action` ends the read with the bytes `buf`: accepted when
/// there are at least five of them, else refused as too short.
pub open spec fn finishes_with(action: ReadAction, buf: Seq<u8>) -> bool {
    if buf.len() < 5 {
        action matches ReadAction::Done(Err(ResponseError::TooShort(v))) && v@ == buf
    } else {
        action matches ReadAction::Done(Ok(v)) && v@ == buf
    }
}

/// The end of a round of reading: read again, unless the overall timeout
/// has passed, in which case the read ends (with an error when nothing
/// arrived at all).
pub open spec fn round_ends_with(action: ReadAction, buf: Seq<u8>, timed_out: bool) -> bool {
    if !timed_out {
        action is Read
    } else if buf.len() == 0 {
        action matches ReadAction::Done(Err(ResponseError::TimedOut))
    } else {
        finishes_with(action, buf)
    }
}

/// Reader of one response frame: the bytes received so far, and whether
/// the next read is the one after the pause.
pub struct ResponseReader {
    buf: Vec<u8>,
    follow_up: bool,
}

fn copy_bytes(s: &[u8]) -> (r: Vec<u8>)
    ensures
        r@ == s@,
{
    let mut r: Vec<u8> = Vec::new();
    let mut i: usize = 0;
    while i < s.len()
        invariant
            i <= s@.len(),
            r@ == s@.take(i as int),
        decreases s@.len() - i,
    {
        r.push(s[i]);
        assert(s@.take(i + 1) =~= s@.take(i as int).push(s@[i as int]));
        i = i + 1;
    }
    assert(s@.take(s@.len() as int) =~= s@);
    r
}

impl ResponseReader {
    /// The bytes received so far.
    pub closed spec fn received(&self) -> Seq<u8> {
        self.buf@
    }

    /// Whether the next read is the one after the pause.
    pub closed spec fn awaiting_rest(&self) -> bool {
        self.follow_up
    }

    /// A reader that has received nothing.
    pub fn new() -> (r: Self)
        ensures
            r.received() == Seq::<u8>::empty(),
            !r.awaiting_rest(),
    {
        ResponseReader { buf: Vec::new(), follow_up: false }
    }

    fn finish(&self) -> (action: ReadAction)
        ensures
            finishes_with(action, self.received()),
    {
        let bytes = copy_bytes(self.buf.as_slice());
        if bytes.len() < 5 {
            ReadAction::Done(Err(ResponseError::TooShort(bytes)))
        } else {
            ReadAction::Done(Ok(bytes))
        }
    }

    fn end_round(&self, timed_out: bool) -> (action: ReadAction)
        ensures
            round_ends_with(action, self.received(), timed_out),
    {
        if !timed_out {
            ReadAction::Read
        } else if self.buf.len() == 0 {
            ReadAction::Done(Err(ResponseError::TimedOut))
        } else {
            self.finish()
        }
    }

    /// Takes the outcome of a read, and whether the overall timeout has
    /// passed by then, and says what to do next. Received bytes are kept in
    /// order. After the first bytes of a round the reader pauses and reads
    /// again; when that read brings nothing (or fails) the frame is complete.
    /// A timeout ends the reading once bytes have arrived; a failed read of
    /// a round's first read is reported.
    pub fn on_read(&mut self, event: ReadEvent, timed_out: bool) -> (action: ReadAction)
        ensures
            final(self).received() == old(self).received() + event_bytes(event),
            old(self).awaiting_rest() ==> if got_bytes(event) {
                !final(self).awaiting_rest() && round_ends_with(
                    action,
                    final(self).received(),
                    timed_out,
                )
            } else {
                finishes_with(action, old(self).received())
            },
            !old(self).awaiting_rest() ==> if got_bytes(event) {
                final(self).awaiting_rest() && action is ReadAfterPause
            } else if event is Failed {
                action is Fail
            } else if event is TimedOut && old(self).received().len() > 0 {
                finishes_with(action, old(self).received())
            } else {
                !final(self).awaiting_rest() && round_ends_with(
                    action,
                    old(self).received(),
                    timed_out,
                )
            },
    {
        let bytes = match &event {
            ReadEvent::Data(b) => copy_bytes(b.as_slice()),
            _ => Vec::new(),
        };
        let got = bytes.len() > 0;
        let ghost before = self.buf@;
        let ghost follow_up = self.follow_up;
        let mut i: usize = 0;
        while i < bytes.len()
            invariant
                i <= bytes@.len(),
                self.buf@ == before + bytes@.take(i as int),
                self.follow_up == follow_up,
            decreases bytes@.len() - i,
        {
            self.buf.push(bytes[i]);
            assert(bytes@.take(i + 1) =~= bytes@.take(i as int).push(bytes@[i as int]));
            i = i + 1;
        }
        assert(bytes@.take(bytes@.len() as int) =~= bytes@);
        assert(bytes@ == event_bytes(event));
        if !got {
            assert(self.buf@ =~= before);
        }
        if self.follow_up {
            if got {
                self.follow_up = false;
                self.end_round(timed_out)
            } else {
                self.finish()
            }
        } else if got {
            self.follow_up = true;
            ReadAction::ReadAfterPause
        } else {
            match &event {
                ReadEvent::Failed => ReadAction::Fail,
                ReadEvent::TimedOut => if self.buf.len() > 0 {
                    self.finish()
                } else {
                    self.end_round(timed_out)
                },
                _ => self.end_round(timed_out),
            }
        }
    }
}

} // verus!
