use vstd::prelude::*;

verus! {

/// Why a read from the terminal's descriptor delivered no bytes.
#[derive(Debug, Clone, Copy, PartialEq, Eq, Structural)]
pub enum ReadError {
    /// The descriptor is non-blocking and has nothing pending.
    WouldBlock,
    /// The other end is not ready (an I/O error while the shell starts or
    /// after it has gone).
    NotReady,
    /// Any other failure, with the system's error number.
    Other(i32),
}

impl ReadError {
    /// Nothing was wrong: there was simply no data yet. Such a read is
    /// retried on the next tick and not reported.
    pub fn is_transient(&self) -> (r: bool)
        ensures
            r == (*self is WouldBlock || *self is NotReady),
    {
        match self {
            ReadError::WouldBlock => true,
            ReadError::NotReady => true,
            ReadError::Other(_) => false,
        }
    }
}

/// The bytes that one read delivers: on success the first `n` bytes of
/// the buffer (no more than it holds), on any failure none.
pub open spec fn delivered(buffer: Seq<u8>, result: Result<usize, ReadError>) -> Seq<u8> {
    match result {
        Ok(n) => if n <= buffer.len() {
            buffer.take(n as int)
        } else {
            buffer
        },
        Err(_) => Seq::empty(),
    }
}

/// Turns the outcome of one non-blocking read into the bytes for the
/// interpreter. A failure never stops the caller: it yields no bytes.
pub fn received_bytes(buffer: &[u8], result: Result<usize, ReadError>) -> (r: Vec<u8>)
    ensures
        r@ == delivered(buffer@, result),
{
    let mut out: Vec<u8> = Vec::new();
    match result {
        Ok(n) => {
            let end = if n <= buffer.len() { n } else { buffer.len() };
            let mut i: usize = 0;
            while i < end
                invariant
                    end <= buffer@.len(),
                    i <= end,
                    out@ == buffer@.take(i as int),
                decreases end - i,
            {
                out.push(buffer[i]);
                i = i + 1;
                assert(out@ =~= buffer@.take(i as int));
            }
            assert(buffer@.take(end as int) =~= delivered(buffer@, result));
        },
        Err(_) => {},
    }
    out
}

/// Who owns the shell: the child's process id while the session is open.
/// Closing hands the id out once, to be signalled; after that the session
/// is closed for good and reads and writes are skipped.
#[derive(Debug, Clone, Copy, PartialEq, Eq, Structural)]
pub struct SessionState {
    pub child_pid: Option<i32>,
    pub open: bool,
}

impl SessionState {
    /// An open session over the child `pid`.
    pub fn new(pid: i32) -> (s: SessionState)
        ensures
            s.child_pid == Some(pid),
            s.open,
    {
        SessionState { child_pid: Some(pid), open: true }
    }

    /// Whether reads and writes still go to the descriptor.
    pub fn is_open(&self) -> (r: bool)
        ensures
            r == self.open,
    {
        self.open
    }

    /// Closes the session. Returns the child to send the termination
    /// signal to, if one is still tracked; a second close returns nothing.
    pub fn close(&mut self) -> (r: Option<i32>)
        ensures
            r == old(self).child_pid,
            final(self).child_pid is None,
            !final(self).open,
    {
        let pid = self.child_pid;
        self.child_pid = None;
        self.open = false;
        pid
    }
}

} // verus!
