//! The verified core of the transport layer: the growable receive buffer
//! whose invariant is that it holds only unconsumed, not-yet-parsed bytes,
//! the parse-and-consume step of the read loop, and the classification of
//! stream closure and of session failures.

use vstd::prelude::*;

use crate::report::{spec_parse, InputReport, ReportError};

verus! {

/// Logical-channel identifier of the control channel, opened and held but
/// never exchanged on.
pub const CONTROL_PSM: u16 = 0x11;

/// Logical-channel identifier of the data channel that carries all report
/// traffic.
pub const DATA_PSM: u16 = 0x13;

/// A failure that ends a controller session.
#[derive(Debug, Clone, Copy, PartialEq, Eq, Structural)]
pub enum SessionError {
    /// The codec found the stream desynchronized: fatal to the process.
    Codec(ReportError),
    /// The peer closed the channel while a frame sat truncated in the
    /// buffer: an ordinary disconnection.
    ConnectionReset,
}

impl SessionError {
    /// True for the failures after which the caller restarts the
    /// discovery or listen cycle; codec desynchronization instead aborts.
    pub fn is_transient(&self) -> (r: bool)
        ensures
            r == (*self is ConnectionReset),
    {
        match *self {
            SessionError::ConnectionReset => true,
            SessionError::Codec(_) => false,
        }
    }
}

/// The receive buffer of a connection. It holds exactly the bytes read
/// from the data channel and not yet consumed by a successful parse;
/// the bytes of a parsed frame are removed atomically with the parse.
pub struct RecvBuffer {
    buf: Vec<u8>,
}

impl View for RecvBuffer {
    type V = Seq<u8>;

    closed spec fn view(&self) -> Seq<u8> {
        self.buf@
    }
}

impl RecvBuffer {
    /// An empty buffer, as a fresh connection starts with.
    pub fn new() -> (r: RecvBuffer)
        ensures
            r@ == Seq::<u8>::empty(),
    {
        RecvBuffer { buf: Vec::new() }
    }

    /// Number of buffered, not-yet-parsed bytes.
    pub fn len(&self) -> (n: usize)
        ensures
            n == self@.len(),
    {
        self.buf.len()
    }

    /// Appends bytes read from the channel to the back of the buffer.
    pub fn append(&mut self, data: &[u8])
        ensures
            final(self)@ == old(self)@ + data@,
    {
        self.buf.extend_from_slice(data);
    }

    /// Removes the first `n` bytes, which a successful parse consumed.
    fn consume(&mut self, n: usize)
        requires
            n <= old(self)@.len(),
        ensures
            final(self)@ == old(self)@.skip(n as int),
    {
        let ghost orig = self.buf@;
        let mut rest: Vec<u8> = Vec::new();
        let mut i: usize = n;
        while i < self.buf.len()
            invariant
                self.buf@ == orig,
                n <= i,
                i as int <= orig.len(),
                rest@ == orig.subrange(n as int, i as int),
            decreases orig.len() - i,
        {
            let b: u8 = self.buf[i];
            rest.push(b);
            proof {
                assert(orig.subrange(n as int, i as int).push(orig[i as int]) =~= orig.subrange(
                    n as int,
                    i + 1,
                ));
            }
            i += 1;
        }
        self.buf = rest;
        proof {
            assert(self.buf@ =~= orig.skip(n as int));
        }
    }

    /// One step of the read loop: attempts a parse on the buffered bytes.
    /// On a frame, removes exactly its bytes and returns it; on
    /// `Incomplete`, leaves the buffer unchanged and returns `None` so the
    /// caller reads more bytes; a fatal codec error surfaces unchanged.
    pub fn try_parse(&mut self) -> (r: Result<Option<InputReport>, ReportError>)
        ensures
            (spec_parse(old(self)@) matches Ok((report, n)) ==> r == Ok::<
                Option<InputReport>,
                ReportError,
            >(Some(report)) && final(self)@ == old(self)@.skip(n as int)),
            spec_parse(old(self)@) == Err::<(InputReport, usize), ReportError>(
                ReportError::Incomplete,
            ) ==> r == Ok::<Option<InputReport>, ReportError>(None) && final(self)@ == old(self)@,
            (spec_parse(old(self)@) matches Err(e) ==> (e != ReportError::Incomplete ==> r
                == Err::<Option<InputReport>, ReportError>(e) && final(self)@ == old(self)@)),
    {
        match InputReport::parse(self.buf.as_slice()) {
            Ok((report, n)) => {
                self.consume(n);
                Ok(Some(report))
            },
            Err(e) => {
                if e == ReportError::Incomplete {
                    Ok(None)
                } else {
                    Err(e)
                }
            },
        }
    }

    /// Classifies a zero-length read, which means the peer closed the
    /// channel: a clean end of stream if nothing sat in the buffer, a
    /// connection reset if a frame was left truncated.
    pub fn on_stream_closed(&self) -> (r: Option<SessionError>)
        ensures
            r is None <==> self@.len() == 0,
            self@.len() > 0 ==> r == Some(SessionError::ConnectionReset),
    {
        if self.buf.is_empty() {
            None
        } else {
            Some(SessionError::ConnectionReset)
        }
    }
}

} // verus!
