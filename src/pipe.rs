use vstd::prelude::*;

use std::collections::VecDeque;

use crate::stream::min;

verus! {

/// A bounded first-in first-out byte queue: one direction of a two-ended
/// channel, written at one end and read at the other.
pub struct Pipe {
    data: VecDeque<u8>,
    capacity: usize,
    write_closed: bool,
}

/// The abstract state of a [`Pipe`].
pub ghost struct PipeModel {
    /// The bytes written and not read yet, oldest first.
    pub data: Seq<u8>,
    /// The most bytes the queue holds at once.
    pub capacity: nat,
    /// Whether the writing end has shut down.
    pub write_closed: bool,
}

/// What a pipe operation reports.
#[derive(PartialEq, Eq, Structural, Debug, Clone, Copy)]
pub enum PipeStatus {
    /// This many bytes were moved; a read of zero bytes from an empty pipe
    /// means the writer has shut down.
    Ready(usize),
    /// The pipe is full (for a write) or empty (for a read); try again
    /// later.
    Pending,
    /// The writing end has shut down: nothing more can be written.
    Closed,
}

impl PipeModel {
    /// The queue never holds more than its capacity.
    pub open spec fn wf(self) -> bool {
        self.data.len() <= self.capacity
    }

    /// How many more bytes fit.
    pub open spec fn free(self) -> nat {
        (self.capacity - self.data.len()) as nat
    }
}

impl View for Pipe {
    type V = PipeModel;

    closed spec fn view(&self) -> PipeModel {
        PipeModel {
            data: self.data@,
            capacity: self.capacity as nat,
            write_closed: self.write_closed,
        }
    }
}

impl Pipe {
    /// The queue never holds more than its capacity.
    #[verifier::type_invariant]
    spec fn inv(&self) -> bool {
        self.data@.len() <= self.capacity
    }

    /// An empty, open pipe that holds at most `capacity` bytes.
    pub fn new(capacity: usize) -> (r: Pipe)
        ensures
            r@.wf(),
            r@.data == Seq::<u8>::empty(),
            r@.capacity == capacity,
            !r@.write_closed,
    {
        Pipe { data: VecDeque::with_capacity(capacity), capacity, write_closed: false }
    }

    /// The number of bytes waiting to be read.
    pub fn len(&self) -> (r: usize)
        ensures
            r == self@.data.len(),
    {
        self.data.len()
    }

    /// Appends as much of `buf` as there is room for.
    ///
    /// A write to a full pipe is [`PipeStatus::Pending`], and one after
    /// [`Pipe::shutdown`] is [`PipeStatus::Closed`]; neither changes anything.
    pub fn write(&mut self, buf: &[u8]) -> (r: PipeStatus)
        ensures
            final(self)@.wf(),
            final(self)@.capacity == old(self)@.capacity,
            final(self)@.write_closed == old(self)@.write_closed,
            old(self)@.write_closed ==> r == PipeStatus::Closed && final(self)@ == old(self)@,
            !old(self)@.write_closed && buf@.len() > 0 && old(self)@.free() == 0 ==> r
                == PipeStatus::Pending && final(self)@ == old(self)@,
            !old(self)@.write_closed && (buf@.len() == 0 || old(self)@.free() > 0) ==> {
                let n = min(buf@.len() as int, old(self)@.free() as int);
                &&& r == PipeStatus::Ready(n as usize)
                &&& final(self)@.data == old(self)@.data + buf@.subrange(0, n)
            },
    {
        proof {
            use_type_invariant(&*self);
        }
        if self.write_closed {
            return PipeStatus::Closed;
        }
        if buf.len() == 0 {
            assert(self.data@ =~= old(self)@.data + buf@.subrange(0, 0));
            return PipeStatus::Ready(0);
        }
        let free: usize = self.capacity - self.data.len();
        if free == 0 {
            return PipeStatus::Pending;
        }
        let n: usize = if buf.len() < free {
            buf.len()
        } else {
            free
        };
        let mut data: VecDeque<u8> = VecDeque::new();
        std::mem::swap(&mut data, &mut self.data);
        let mut i: usize = 0;
        while i < n
            invariant
                0 <= i <= n,
                n <= buf@.len(),
                old(self)@.data.len() + n <= old(self)@.capacity,
                data@ == old(self)@.data + buf@.subrange(0, i as int),
            decreases n - i,
        {
            data.push_back(buf[i]);
            assert(data@ =~= old(self)@.data + buf@.subrange(0, i + 1));
            i = i + 1;
        }
        std::mem::swap(&mut data, &mut self.data);
        PipeStatus::Ready(n)
    }

    /// Moves as many queued bytes as fit into `buf`, oldest first.
    ///
    /// A read from an empty pipe is [`PipeStatus::Pending`] while the writer
    /// may still write, and `Ready(0)`, the end of the stream, once it has
    /// shut down.
    pub fn read(&mut self, buf: &mut [u8]) -> (r: PipeStatus)
        ensures
            final(self)@.wf(),
            final(self)@.capacity == old(self)@.capacity,
            final(self)@.write_closed == old(self)@.write_closed,
            old(self)@.data.len() == 0 ==> {
                &&& r == (if old(self)@.write_closed {
                    PipeStatus::Ready(0)
                } else {
                    PipeStatus::Pending
                })
                &&& final(self)@ == old(self)@
                &&& final(buf)@ == old(buf)@
            },
            old(self)@.data.len() > 0 ==> {
                let n = min(old(self)@.data.len() as int, old(buf)@.len() as int);
                &&& r == PipeStatus::Ready(n as usize)
                &&& final(self)@.data == old(self)@.data.subrange(n, old(self)@.data.len() as int)
                &&& final(buf)@ == old(self)@.data.subrange(0, n) + old(buf)@.subrange(
                    n,
                    old(buf)@.len() as int,
                )
            },
    {
        proof {
            use_type_invariant(&*self);
        }
        let len: usize = self.data.len();
        if len == 0 {
            if self.write_closed {
                return PipeStatus::Ready(0);
            } else {
                return PipeStatus::Pending;
            }
        }
        let n: usize = if len < buf.len() {
            len
        } else {
            buf.len()
        };
        let mut data: VecDeque<u8> = VecDeque::new();
        std::mem::swap(&mut data, &mut self.data);
        let mut i: usize = 0;
        while i < n
            invariant
                0 <= i <= n,
                n <= buf@.len(),
                n <= old(self)@.data.len(),
                buf@.len() == old(buf)@.len(),
                data@ == old(self)@.data.subrange(i as int, old(self)@.data.len() as int),
                forall|j: int| 0 <= j < i ==> buf@[j] == old(self)@.data[j],
                forall|j: int| i <= j < buf@.len() ==> buf@[j] == old(buf)@[j],
            decreases n - i,
        {
            let b = data.pop_front();
            match b {
                Some(x) => {
                    buf[i] = x;
                },
                None => {},
            }
            assert(data@ =~= old(self)@.data.subrange(i + 1, old(self)@.data.len() as int));
            i = i + 1;
        }
        std::mem::swap(&mut data, &mut self.data);
        assert(buf@ =~= old(self)@.data.subrange(0, n as int) + old(buf)@.subrange(
            n as int,
            old(buf)@.len() as int,
        ));
        PipeStatus::Ready(n)
    }

    /// Shuts the writing end down: later writes are refused, and once the
    /// queued bytes are read the reader sees the end of the stream.
    pub fn shutdown(&mut self)
        ensures
            final(self)@.wf(),
            final(self)@ == (PipeModel { write_closed: true, ..old(self)@ }),
    {
        proof {
            use_type_invariant(&*self);
        }
        self.write_closed = true;
    }
}

/// The two directions of a two-ended channel, each able to hold
/// `total_capacity` bytes: the first carries bytes from the first peer to
/// the second, the other carries bytes back.
pub fn create_pair(total_capacity: usize) -> (r: (Pipe, Pipe))
    ensures
        r.0@.wf(),
        r.1@.wf(),
        r.0@.data == Seq::<u8>::empty(),
        r.1@.data == Seq::<u8>::empty(),
        r.0@.capacity == total_capacity,
        r.1@.capacity == total_capacity,
        !r.0@.write_closed,
        !r.1@.write_closed,
{
    (Pipe::new(total_capacity), Pipe::new(total_capacity))
}

} // verus!
