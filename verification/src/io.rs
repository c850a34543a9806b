//! Scripted duplex byte stream: one endpoint whose read and write sides are
//! pre-programmed by a companion scripting handle.
//!
//! Each side is in one of three states: `Open` with an ordered queue of byte
//! chunks, `Closed`, or `Failing` with an error kind. Queuing new data on a
//! side that is `Closed` or `Failing` discards that terminal state and
//! reopens the side with just the new data (re-arming). A side flag records
//! whether the last write attempt found an empty open script; it is for test
//! introspection only.
//!
//! Scripting-contract violations — a read chunk larger than the caller's
//! buffer, a write that differs from the expected bytes — are test-authoring
//! errors, not domain outcomes. The step functions report them as explicit
//! outcomes carrying the evidence (the needed length, the expected bytes);
//! the harness edge that drives the steps is expected to abort on them with
//! a diagnostic, rather than treat them as recoverable errors.

use vstd::prelude::*;

use crate::step::Step;

verus! {

/// The kind tag carried by a scripted I/O failure, simulating an arbitrary
/// lower-level error.
#[derive(Clone, Copy, Debug, PartialEq, Eq, Structural)]
pub enum ErrorKind {
    NotFound,
    PermissionDenied,
    ConnectionRefused,
    ConnectionReset,
    BrokenPipe,
    AlreadyExists,
    WouldBlock,
    InvalidInput,
    InvalidData,
    TimedOut,
    WriteZero,
    Interrupted,
    UnexpectedEof,
    Other,
}

/// The state of one side of the stream. An `Open` side has an ordered queue
/// of scripted byte chunks (exposed separately as a sequence); `Closed` and
/// `Failing` are terminal until the side is re-armed with new data.
#[derive(Clone, Copy, Debug, PartialEq, Eq, Structural)]
pub enum StreamState {
    Open,
    Closed,
    Failing(ErrorKind),
}

/// One step of the read operation.
#[derive(Debug)]
pub enum ReadPoll {
    /// The read side is open with nothing scripted: suspended.
    Suspended,
    /// The next scripted chunk, delivered whole.
    Data(Vec<u8>),
    /// The read side is closed: end-of-stream, a zero-length result.
    Eof,
    /// The read side is failing: the scripted error.
    Failed(ErrorKind),
    /// Scripting-contract violation: the next chunk needs more room than
    /// the caller's buffer offers. The script is left in place; the harness
    /// edge should abort with a diagnostic.
    BufferTooSmall { needed: usize },
}

/// One step of the write operation.
#[derive(Debug)]
pub enum WritePoll {
    /// The write side is open with nothing scripted: suspended (and the
    /// pending-write flag is set).
    Suspended,
    /// The written bytes matched the next expected chunk (or the side is
    /// closed and swallowed them): this many bytes were accepted.
    Accepted(usize),
    /// The write side is failing: the scripted error.
    Failed(ErrorKind),
    /// Scripting-assertion failure: the written bytes differ from the
    /// expected chunk, which is carried here as evidence. The harness edge
    /// should abort with a diagnostic naming expected and actual bytes.
    Mismatch(Vec<u8>),
}

struct Side {
    state: StreamState,
    chunks: std::collections::VecDeque<Vec<u8>>,
}

/// The stream endpoint handed to the code under test: two independently
/// scripted sides and the pending-write flag.
pub struct MockIo {
    read: Side,
    write: Side,
    write_pending: bool,
}

/// The views of the chunks queued on one side.
spec fn chunk_views(s: Seq<Vec<u8>>) -> Seq<Seq<u8>> {
    s.map_values(|v: Vec<u8>| v@)
}

impl MockIo {
    /// The read side's state.
    pub closed spec fn read_state(&self) -> StreamState {
        self.read.state
    }

    /// The chunks scripted for delivery on read, head first; empty unless
    /// the read side is open.
    pub closed spec fn read_data(&self) -> Seq<Seq<u8>> {
        if self.read.state is Open {
            chunk_views(self.read.chunks@)
        } else {
            Seq::empty()
        }
    }

    /// The write side's state.
    pub closed spec fn write_state(&self) -> StreamState {
        self.write.state
    }

    /// The chunks expected to be written, head first; empty unless the
    /// write side is open.
    pub closed spec fn write_data(&self) -> Seq<Seq<u8>> {
        if self.write.state is Open {
            chunk_views(self.write.chunks@)
        } else {
            Seq::empty()
        }
    }

    /// Whether the last write attempt found an empty open script.
    pub closed spec fn write_pending(&self) -> bool {
        self.write_pending
    }

    /// One step of the read operation into a buffer of `capacity` bytes:
    /// deliver the next scripted chunk whole if it fits, report the
    /// violation if it does not, suspend while the open script is empty,
    /// and report end-of-stream or the scripted error on a closed or
    /// failing side.
    pub fn poll_read(&mut self, capacity: usize) -> (r: ReadPoll)
        ensures
            final(self).read_state() == old(self).read_state(),
            final(self).write_state() == old(self).write_state(),
            final(self).write_data() == old(self).write_data(),
            final(self).write_pending() == old(self).write_pending(),
            old(self).read_state() is Open && old(self).read_data().len() == 0 ==> r is Suspended
                && final(self).read_data() == old(self).read_data(),
            old(self).read_state() is Open && old(self).read_data().len() > 0 && old(
                self,
            ).read_data()[0].len() <= capacity ==> (r matches ReadPoll::Data(d) && d@ == old(
                self,
            ).read_data()[0]) && final(self).read_data() == old(self).read_data().drop_first(),
            old(self).read_state() is Open && old(self).read_data().len() > 0 && old(
                self,
            ).read_data()[0].len() > capacity ==> (r matches ReadPoll::BufferTooSmall { needed }
                && needed == old(self).read_data()[0].len()) && final(self).read_data() == old(self).read_data(),
            old(self).read_state() is Closed ==> r is Eof,
            old(self).read_state() matches StreamState::Failing(k) ==> r == ReadPoll::Failed(k),
    {
        match self.read.state {
            StreamState::Open => {
                if self.read.chunks.len() == 0 {
                    ReadPoll::Suspended
                } else {
                    let needed = self.read.chunks[0].len();
                    if needed <= capacity {
                        let chunk = self.read.chunks.pop_front().unwrap();
                        proof {
                            assert(self.read_data() =~= old(self).read_data().drop_first());
                        }
                        ReadPoll::Data(chunk)
                    } else {
                        ReadPoll::BufferTooSmall { needed }
                    }
                }
            },
            StreamState::Closed => ReadPoll::Eof,
            StreamState::Failing(kind) => ReadPoll::Failed(kind),
        }
    }

    /// One step of the write operation offering `data`: match it against
    /// the next expected chunk byte for byte (clearing the pending-write
    /// flag on success), report the mismatch with the expected bytes if it
    /// differs, suspend (setting the pending-write flag) while the open
    /// script is empty, swallow the bytes whole on a closed side, and
    /// report the scripted error on a failing side.
    pub fn poll_write(&mut self, data: &Vec<u8>) -> (r: WritePoll)
        ensures
            final(self).write_state() == old(self).write_state(),
            final(self).read_state() == old(self).read_state(),
            final(self).read_data() == old(self).read_data(),
            old(self).write_state() is Open && old(self).write_data().len() == 0 ==> r
                is Suspended && final(self).write_data() == old(self).write_data()
                && final(self).write_pending(),
            old(self).write_state() is Open && old(self).write_data().len() > 0 && data@ == old(
                self,
            ).write_data()[0] ==> (r matches WritePoll::Accepted(n) && n == old(
                self,
            ).write_data()[0].len()) && final(self).write_data() == old(self).write_data().drop_first()
                && !final(self).write_pending(),
            old(self).write_state() is Open && old(self).write_data().len() > 0 && data@ != old(
                self,
            ).write_data()[0] ==> (r matches WritePoll::Mismatch(e) && e@ == old(
                self,
            ).write_data()[0]) && final(self).write_data() == old(self).write_data().drop_first()
                && final(self).write_pending() == old(self).write_pending(),
            old(self).write_state() is Closed ==> (r matches WritePoll::Accepted(n) && n == data@.len())
                && final(self).write_data() == old(self).write_data()
                && final(self).write_pending() == old(self).write_pending(),
            old(self).write_state() matches StreamState::Failing(k) ==> r == WritePoll::Failed(k)
                && final(self).write_data() == old(self).write_data()
                && final(self).write_pending() == old(self).write_pending(),
    {
        match self.write.state {
            StreamState::Open => {
                if self.write.chunks.len() == 0 {
                    self.write_pending = true;
                    WritePoll::Suspended
                } else {
                    let expected = self.write.chunks.pop_front().unwrap();
                    proof {
                        assert(self.write_data() =~= old(self).write_data().drop_first());
                    }
                    if bytes_equal(data, &expected) {
                        self.write_pending = false;
                        WritePoll::Accepted(expected.len())
                    } else {
                        WritePoll::Mismatch(expected)
                    }
                }
            },
            StreamState::Closed => WritePoll::Accepted(data.len()),
            StreamState::Failing(kind) => WritePoll::Failed(kind),
        }
    }

    /// One step of the flush operation: nothing is buffered, so it always
    /// completes successfully and changes nothing.
    pub fn poll_flush(&mut self) -> (r: Step<Result<(), ErrorKind>>)
        ensures
            r == Step::Completed(Ok::<(), ErrorKind>(())),
            *final(self) == *old(self),
    {
        Step::Completed(Ok(()))
    }

    /// One step of the shutdown operation: it always completes successfully
    /// and changes nothing.
    pub fn poll_shutdown(&mut self) -> (r: Step<Result<(), ErrorKind>>)
        ensures
            r == Step::Completed(Ok::<(), ErrorKind>(())),
            *final(self) == *old(self),
    {
        Step::Completed(Ok(()))
    }
}

/// Compare two byte vectors for equality, byte for byte.
fn bytes_equal(a: &Vec<u8>, b: &Vec<u8>) -> (r: bool)
    ensures
        r == (a@ == b@),
{
    if a.len() != b.len() {
        return false;
    }
    let mut i: usize = 0;
    while i < a.len()
        invariant
            i <= a@.len(),
            a@.len() == b@.len(),
            forall|j: int| 0 <= j < i ==> a@[j] == b@[j],
        decreases a@.len() - i,
    {
        if a[i] != b[i] {
            return false;
        }
        i += 1;
    }
    proof {
        assert(a@ =~= b@);
    }
    true
}

/// The companion scripting handle: the test programs the stream's two sides
/// through it.
#[derive(Debug)]
pub struct Handle;

impl Handle {
    /// Script `data` for delivery on read. An open side queues it behind
    /// what is already scripted; a closed or failing side is re-armed:
    /// the terminal state is discarded and the side reopens with just this
    /// data.
    pub fn read(&mut self, io: &mut MockIo, data: Vec<u8>)
        ensures
            final(io).read_state() is Open,
            old(io).read_state() is Open ==> final(io).read_data() == old(io).read_data().push(
                data@,
            ),
            !(old(io).read_state() is Open) ==> final(io).read_data() == seq![data@],
            final(io).write_state() == old(io).write_state(),
            final(io).write_data() == old(io).write_data(),
            final(io).write_pending() == old(io).write_pending(),
    {
        match io.read.state {
            StreamState::Open => {
                io.read.chunks.push_back(data);
                proof {
                    assert(io.read_data() =~= old(io).read_data().push(data@));
                }
            },
            _ => {
                io.read.chunks.clear();
                io.read.chunks.push_back(data);
                io.read.state = StreamState::Open;
                proof {
                    assert(io.read_data() =~= seq![data@]);
                }
            },
        }
    }

    /// Force the read side into the failing state: every read reports this
    /// error until the side is re-armed with new data.
    pub fn read_error(&mut self, io: &mut MockIo, kind: ErrorKind)
        ensures
            final(io).read_state() == StreamState::Failing(kind),
            final(io).read_data() == Seq::<Seq<u8>>::empty(),
            final(io).write_state() == old(io).write_state(),
            final(io).write_data() == old(io).write_data(),
            final(io).write_pending() == old(io).write_pending(),
    {
        io.read.chunks.clear();
        io.read.state = StreamState::Failing(kind);
    }

    /// Force the read side closed: every read reports end-of-stream until
    /// the side is re-armed with new data.
    pub fn close_read(&mut self, io: &mut MockIo)
        ensures
            final(io).read_state() is Closed,
            final(io).read_data() == Seq::<Seq<u8>>::empty(),
            final(io).write_state() == old(io).write_state(),
            final(io).write_data() == old(io).write_data(),
            final(io).write_pending() == old(io).write_pending(),
    {
        io.read.chunks.clear();
        io.read.state = StreamState::Closed;
    }

    /// Script `data` as the next bytes expected to be written. An open side
    /// queues it behind what is already expected; a closed or failing side
    /// is re-armed with just this expectation.
    pub fn write(&mut self, io: &mut MockIo, data: Vec<u8>)
        ensures
            final(io).write_state() is Open,
            old(io).write_state() is Open ==> final(io).write_data() == old(io).write_data().push(
                data@,
            ),
            !(old(io).write_state() is Open) ==> final(io).write_data() == seq![data@],
            final(io).read_state() == old(io).read_state(),
            final(io).read_data() == old(io).read_data(),
            final(io).write_pending() == old(io).write_pending(),
    {
        match io.write.state {
            StreamState::Open => {
                io.write.chunks.push_back(data);
                proof {
                    assert(io.write_data() =~= old(io).write_data().push(data@));
                }
            },
            _ => {
                io.write.chunks.clear();
                io.write.chunks.push_back(data);
                io.write.state = StreamState::Open;
                proof {
                    assert(io.write_data() =~= seq![data@]);
                }
            },
        }
    }

    /// Force the write side into the failing state: every write reports
    /// this error until the side is re-armed with new data.
    pub fn write_error(&mut self, io: &mut MockIo, kind: ErrorKind)
        ensures
            final(io).write_state() == StreamState::Failing(kind),
            final(io).write_data() == Seq::<Seq<u8>>::empty(),
            final(io).read_state() == old(io).read_state(),
            final(io).read_data() == old(io).read_data(),
            final(io).write_pending() == old(io).write_pending(),
    {
        io.write.chunks.clear();
        io.write.state = StreamState::Failing(kind);
    }

    /// Force the write side closed: every write is swallowed whole, with
    /// zero effect, until the side is re-armed with new data.
    pub fn close_write(&mut self, io: &mut MockIo)
        ensures
            final(io).write_state() is Closed,
            final(io).write_data() == Seq::<Seq<u8>>::empty(),
            final(io).read_state() == old(io).read_state(),
            final(io).read_data() == old(io).read_data(),
            final(io).write_pending() == old(io).write_pending(),
    {
        io.write.chunks.clear();
        io.write.state = StreamState::Closed;
    }

    /// Whether every chunk scripted for read has been consumed. Terminal
    /// states queue no chunks, so a closed or failing side counts as done.
    pub fn is_read_done(&self, io: &MockIo) -> (r: bool)
        ensures
            r == (io.read_data().len() == 0),
    {
        match io.read.state {
            StreamState::Open => io.read.chunks.len() == 0,
            _ => true,
        }
    }

    /// Whether every expected write has been consumed. Terminal states
    /// queue no chunks, so a closed or failing side counts as done.
    pub fn is_write_done(&self, io: &MockIo) -> (r: bool)
        ensures
            r == (io.write_data().len() == 0),
    {
        match io.write.state {
            StreamState::Open => io.write.chunks.len() == 0,
            _ => true,
        }
    }

    /// Whether the last write attempt found an empty open script: the
    /// pending-write probe.
    pub fn is_write_pending(&self, io: &MockIo) -> (r: bool)
        ensures
            r == io.write_pending(),
    {
        io.write_pending
    }

    /// Give the scripting handle up, forcing both sides closed. A test can
    /// then no longer hang on an abandoned script: reads report
    /// end-of-stream and writes are swallowed. (The stricter alternative —
    /// aborting when scripted items remain unconsumed — is left to the
    /// test, which can check `is_read_done` and `is_write_done` first.)
    pub fn drop_handle(self, io: &mut MockIo)
        ensures
            final(io).read_state() is Closed,
            final(io).write_state() is Closed,
            final(io).read_data() == Seq::<Seq<u8>>::empty(),
            final(io).write_data() == Seq::<Seq<u8>>::empty(),
            final(io).write_pending() == old(io).write_pending(),
    {
        io.read.chunks.clear();
        io.read.state = StreamState::Closed;
        io.write.chunks.clear();
        io.write.state = StreamState::Closed;
    }
}

/// Make a scripted stream: the endpoint for the code under test and the
/// scripting handle for the test, with both sides open and empty and the
/// pending-write flag clear.
pub fn mock() -> (r: (MockIo, Handle))
    ensures
        r.0.read_state() is Open,
        r.0.read_data() == Seq::<Seq<u8>>::empty(),
        r.0.write_state() is Open,
        r.0.write_data() == Seq::<Seq<u8>>::empty(),
        !r.0.write_pending(),
{
    let io = MockIo {
        read: Side { state: StreamState::Open, chunks: std::collections::VecDeque::new() },
        write: Side { state: StreamState::Open, chunks: std::collections::VecDeque::new() },
        write_pending: false,
    };
    proof {
        assert(io.read_data() =~= Seq::<Seq<u8>>::empty());
        assert(io.write_data() =~= Seq::<Seq<u8>>::empty());
    }
    (io, Handle)
}

} // verus!
