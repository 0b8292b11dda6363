//! Assembly of raw control-connection bytes into command lines.
//!
//! Bytes arrive one at a time from the transport. A line ends at CRLF, which
//! is stripped; space bytes before the first other byte of a fresh line are
//! skipped, tolerating clients that pad their commands. A line that grows
//! past `LINE_MAX` without its CRLF is refused, as a guard against a peer
//! that streams garbage forever; the connection should be dropped then.

use vstd::prelude::*;
use crate::ascii::{SP, CR, LF};

verus! {

/// The longest line the reader accepts, terminator excluded.
pub const LINE_MAX: usize = 4096;

/// What feeding one byte to the reader produced.
#[derive(Debug, PartialEq, Eq)]
pub enum LineEvent {
    /// A full line, its CRLF terminator stripped.
    Line(Vec<u8>),
    /// The line is not complete yet.
    Pending,
    /// The line exceeds `LINE_MAX`; fatal for this connection.
    TooLong,
}

/// Accumulates bytes until a CRLF-terminated line is complete.
pub struct LineReader {
    buf: Vec<u8>,
}

impl View for LineReader {
    type V = Seq<u8>;

    closed spec fn view(&self) -> Seq<u8> {
        self.buf@
    }
}

impl LineReader {
    /// A fresh reader holding nothing.
    pub fn new() -> (r: LineReader)
        ensures
            r@ == Seq::<u8>::empty(),
    {
        LineReader { buf: Vec::new() }
    }

    /// Feeds one byte. Exactly when the byte is a LF completing a CR already
    /// held, the line gathered so far comes back, without the CRLF, and the
    /// reader is empty again. A space fed to an empty reader is skipped; any
    /// other byte is kept, unless the reader is full, which is fatal.
    pub fn push(&mut self, b: u8) -> (r: LineEvent)
        ensures
            match r {
                LineEvent::Line(line) => {
                    &&& old(self)@.len() > 0
                    &&& old(self)@.last() == CR
                    &&& b == LF
                    &&& line@ == old(self)@.drop_last()
                    &&& final(self)@ == Seq::<u8>::empty()
                },
                LineEvent::Pending => {
                    &&& !(old(self)@.len() > 0 && old(self)@.last() == CR && b == LF)
                    &&& final(self)@ == (if old(self)@.len() == 0 && b == SP {
                        old(self)@
                    } else {
                        old(self)@.push(b)
                    })
                    &&& old(self)@.len() < LINE_MAX || (old(self)@.len() == 0 && b == SP)
                },
                LineEvent::TooLong => {
                    &&& old(self)@.len() >= LINE_MAX
                    &&& !(old(self)@.last() == CR && b == LF)
                    &&& final(self)@ == old(self)@
                },
            },
    {
        if self.buf.len() == 0 {
            if b == SP {
                return LineEvent::Pending;
            }
            self.buf.push(b);
            return LineEvent::Pending;
        }
        if b == LF && self.buf[self.buf.len() - 1] == CR {
            let mut line: Vec<u8> = Vec::new();
            std::mem::swap(&mut line, &mut self.buf);
            let _ = line.pop();
            return LineEvent::Line(line);
        }
        if self.buf.len() >= LINE_MAX {
            return LineEvent::TooLong;
        }
        self.buf.push(b);
        LineEvent::Pending
    }
}

} // verus!
