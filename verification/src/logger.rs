//! Forwarding of log lines to a logger of the host.

use vstd::prelude::*;

verus! {

/// A logger of the host.  Lines may come from any thread, one at a time.
pub trait Logger: Send {
    /// Called with every log line.
    fn log(&self, log_line: String);
}

/// A writer that hands what is written to it to a logger, as one line per
/// write.
pub struct LoggerWrapper {
    inner: Box<dyn Logger>,
}

/// The text that bytes stand for when they are read as UTF-8, with U+FFFD in
/// the place of what is none: what `String::from_utf8_lossy` of std gives.
pub uninterp spec fn lossy_text_of(bytes: Seq<u8>) -> Seq<char>;

/// Calls `String::from_utf8_lossy` of std, which reads bytes as UTF-8 and
/// puts U+FFFD in the place of what is none, and takes the string out.
#[verifier::external_body]
fn lossy_text(buf: &[u8]) -> (r: String)
    ensures
        r@ == lossy_text_of(buf@),
{
    String::from_utf8_lossy(buf).into_owned()
}

impl LoggerWrapper {
    /// A writer for `logger`.
    pub fn new(logger: Box<dyn Logger>) -> Self {
        LoggerWrapper { inner: logger }
    }

    /// Hands `buf` to the logger as one line, the text `lossy_text_of` of
    /// its bytes, and reports all of it as written.  What the logger does
    /// with the line is its own: the writer is as it was.
    pub fn write(&mut self, buf: &[u8]) -> (r: usize)
        ensures
            r == buf@.len(),
            *final(self) == *old(self),
    {
        let line = lossy_text(buf);
        self.inner.log(line);
        buf.len()
    }

    /// Does nothing: a line is with the logger as soon as it is written.
    pub fn flush(&mut self)
        ensures
            *final(self) == *old(self),
    {
    }
}

} // verus!
