use vstd::prelude::*;

verus! {

/// An in-memory byte stream that acts as either end of one connection.
///
/// Two growable buffers carry the two directions: bytes written in the
/// client role go to `server` and are read in the server role, and the
/// other way round. Each buffer has its own read cursor.
pub struct Stream {
    is_client: bool,
    server_read_pos: usize,
    client_read_pos: usize,
    server: Vec<u8>,
    client: Vec<u8>,
}

/// The abstract state of a [`Stream`].
pub ghost struct StreamModel {
    /// The current role: `true` for client, `false` for server.
    pub is_client: bool,
    /// Everything written in the client role, in order.
    pub to_server: Seq<u8>,
    /// Everything written in the server role, in order.
    pub to_client: Seq<u8>,
    /// How much of `to_server` the server role has read.
    pub server_read_pos: nat,
    /// How much of `to_client` the client role has read.
    pub client_read_pos: nat,
}

/// What a read reports.
#[derive(PartialEq, Eq, Structural, Debug, Clone, Copy)]
pub enum ReadStatus {
    /// This many bytes were copied into the caller's buffer.
    Ready(usize),
    /// No unread byte is there yet; the caller should try again later.
    Pending,
}

impl StreamModel {
    /// Cursors never run past the data written so far.
    pub open spec fn wf(self) -> bool {
        &&& self.server_read_pos <= self.to_server.len()
        &&& self.client_read_pos <= self.to_client.len()
    }

    /// The buffer that the current role writes into.
    pub open spec fn outgoing(self) -> Seq<u8> {
        if self.is_client {
            self.to_server
        } else {
            self.to_client
        }
    }

    /// The buffer that the current role reads from.
    pub open spec fn incoming(self) -> Seq<u8> {
        if self.is_client {
            self.to_client
        } else {
            self.to_server
        }
    }

    /// The read cursor of the buffer that the current role reads from.
    pub open spec fn cursor(self) -> nat {
        if self.is_client {
            self.client_read_pos
        } else {
            self.server_read_pos
        }
    }

    /// The bytes that the current role has yet to read.
    pub open spec fn unread(self) -> Seq<u8> {
        self.incoming().subrange(self.cursor() as int, self.incoming().len() as int)
    }

    /// The same state in another role.
    pub open spec fn with_role(self, is_client: bool) -> StreamModel {
        StreamModel { is_client, ..self }
    }

    /// The state after the current role writes `bytes`.
    pub open spec fn appended(self, bytes: Seq<u8>) -> StreamModel {
        if self.is_client {
            StreamModel { to_server: self.to_server + bytes, ..self }
        } else {
            StreamModel { to_client: self.to_client + bytes, ..self }
        }
    }

    /// The state after the current role reads `n` bytes.
    pub open spec fn consumed(self, n: nat) -> StreamModel {
        if self.is_client {
            StreamModel { client_read_pos: self.client_read_pos + n, ..self }
        } else {
            StreamModel { server_read_pos: self.server_read_pos + n, ..self }
        }
    }

    /// `next` is a later state of the same stream: buffers only grow at
    /// their end and cursors only move forward.
    pub open spec fn leads_to(self, next: StreamModel) -> bool {
        &&& self.to_server.is_prefix_of(next.to_server)
        &&& self.to_client.is_prefix_of(next.to_client)
        &&& self.server_read_pos <= next.server_read_pos
        &&& self.client_read_pos <= next.client_read_pos
    }
}

/// The smaller of two integers.
pub open spec fn min(a: int, b: int) -> int {
    if a <= b {
        a
    } else {
        b
    }
}

/// All the slices one after the other.
pub open spec fn concat(slices: Seq<Seq<u8>>) -> Seq<u8>
    decreases slices.len(),
{
    if slices.len() == 0 {
        Seq::empty()
    } else {
        concat(slices.drop_last()) + slices.last()
    }
}

/// What a vectored write is given, as byte sequences.
pub open spec fn slices_view(bufs: Seq<&[u8]>) -> Seq<Seq<u8>> {
    bufs.map_values(|b: &[u8]| b@)
}

/// The room needed for a whole run of `iterations` messages of
/// `message_len` bytes, each with `overhead` bytes of framing:
/// `iterations * (message_len + overhead)`, or `None` when that does not
/// fit in a `usize`.
pub fn payload_capacity(iterations: usize, message_len: usize, overhead: usize) -> (r: Option<usize>)
    ensures
        iterations * (message_len + overhead) <= usize::MAX ==> r == Some(
            (iterations * (message_len + overhead)) as usize,
        ),
        iterations * (message_len + overhead) > usize::MAX ==> r == None::<usize>,
{
    match message_len.checked_add(overhead) {
        Some(per_message) => iterations.checked_mul(per_message),
        None => {
            if iterations == 0 {
                Some(0)
            } else {
                proof {
                    assert(iterations * (message_len + overhead) >= message_len + overhead)
                        by (nonlinear_arith)
                        requires
                            iterations >= 1,
                            message_len + overhead >= 0,
                    ;
                }
                None
            }
        }
    }
}

impl View for Stream {
    type V = StreamModel;

    closed spec fn view(&self) -> StreamModel {
        StreamModel {
            is_client: self.is_client,
            to_server: self.server@,
            to_client: self.client@,
            server_read_pos: self.server_read_pos as nat,
            client_read_pos: self.client_read_pos as nat,
        }
    }
}

impl Stream {
    /// Each cursor stays within the bytes written to its buffer.
    #[verifier::type_invariant]
    spec fn inv(&self) -> bool {
        &&& self.server_read_pos <= self.server@.len()
        &&& self.client_read_pos <= self.client@.len()
    }

    /// A fresh stream in the client role, with both buffers empty and room
    /// reserved for `capacity` bytes in each.
    pub fn new(capacity: usize) -> (r: Stream)
        ensures
            r@.wf(),
            r@.is_client,
            r@.to_server == Seq::<u8>::empty(),
            r@.to_client == Seq::<u8>::empty(),
            r@.server_read_pos == 0,
            r@.client_read_pos == 0,
    {
        Stream {
            server: Vec::with_capacity(capacity),
            client: Vec::with_capacity(capacity),
            server_read_pos: 0,
            client_read_pos: 0,
            is_client: true,
        }
    }

    /// Switches to the server role.
    pub fn role_server(&mut self)
        ensures
            final(self)@.wf(),
            final(self)@ == old(self)@.with_role(false),
            old(self)@.leads_to(final(self)@),
    {
        proof {
            use_type_invariant(&*self);
        }
        self.is_client = false
    }

    /// Switches to the client role.
    pub fn role_client(&mut self)
        ensures
            final(self)@.wf(),
            final(self)@ == old(self)@.with_role(true),
            old(self)@.leads_to(final(self)@),
    {
        proof {
            use_type_invariant(&*self);
        }
        self.is_client = true
    }

    /// Appends `buf` to the buffer of the current role and reports its
    /// whole length as written.
    pub fn write(&mut self, buf: &[u8]) -> (n: usize)
        ensures
            final(self)@.wf(),
            final(self)@ == old(self)@.appended(buf@),
            old(self)@.leads_to(final(self)@),
            n == buf@.len(),
    {
        proof {
            use_type_invariant(&*self);
        }
        let mut out: Vec<u8> = Vec::new();
        if self.is_client {
            let pos: usize = self.server_read_pos;
            self.server_read_pos = 0;
            std::mem::swap(&mut out, &mut self.server);
            out.extend_from_slice(buf);
            assert(out@ =~= old(self)@.to_server + buf@);
            std::mem::swap(&mut out, &mut self.server);
            self.server_read_pos = pos;
        } else {
            let pos: usize = self.client_read_pos;
            self.client_read_pos = 0;
            std::mem::swap(&mut out, &mut self.client);
            out.extend_from_slice(buf);
            assert(out@ =~= old(self)@.to_client + buf@);
            std::mem::swap(&mut out, &mut self.client);
            self.client_read_pos = pos;
        }
        buf.len()
    }

    /// Appends all of `bufs`, in order, to the buffer of the current role
    /// and reports the total number of bytes written.
    pub fn write_vectored(&mut self, bufs: &[&[u8]]) -> (n: usize)
        ensures
            final(self)@.wf(),
            final(self)@ == old(self)@.appended(concat(slices_view(bufs@))),
            old(self)@.leads_to(final(self)@),
            n == concat(slices_view(bufs@)).len(),
    {
        proof {
            use_type_invariant(&*self);
        }
        let ghost start = self@;
        let mut total: usize = 0;
        let mut i: usize = 0;
        while i < bufs.len()
            invariant
                start.wf(),
                0 <= i <= bufs@.len(),
                self@ == start.appended(concat(slices_view(bufs@.subrange(0, i as int)))),
                total == concat(slices_view(bufs@.subrange(0, i as int))).len(),
            decreases bufs@.len() - i,
        {
            let b: &[u8] = bufs[i];
            self.write(b);
            proof {
                let done = slices_view(bufs@.subrange(0, i as int));
                let next = slices_view(bufs@.subrange(0, i + 1));
                assert(next.drop_last() =~= done);
                assert(next.last() == b@);
                if start.is_client {
                    assert(start.to_server + concat(done) + b@ =~= start.to_server + concat(next));
                } else {
                    assert(start.to_client + concat(done) + b@ =~= start.to_client + concat(next));
                }
            }
            let len: usize = if self.is_client {
                self.server.len()
            } else {
                self.client.len()
            };
            assert(total + b@.len() <= len);
            total = total + b.len();
            i = i + 1;
        }
        assert(bufs@.subrange(0, bufs@.len() as int) =~= bufs@);
        total
    }

    /// Copies as many unread bytes of the current role's incoming buffer as
    /// fit into `buf`, and moves that buffer's cursor past them.
    ///
    /// When nothing is unread the stream reports [`ReadStatus::Pending`]
    /// and changes nothing: more data may still be written.
    pub fn read(&mut self, buf: &mut [u8]) -> (r: ReadStatus)
        ensures
            final(self)@.wf(),
            old(self)@.leads_to(final(self)@),
            old(self)@.unread().len() == 0 ==> {
                &&& r == ReadStatus::Pending
                &&& final(self)@ == old(self)@
                &&& final(buf)@ == old(buf)@
            },
            old(self)@.unread().len() > 0 ==> {
                let n = min(old(self)@.unread().len() as int, old(buf)@.len() as int);
                &&& r == ReadStatus::Ready(n as usize)
                &&& final(self)@ == old(self)@.consumed(n as nat)
                &&& final(buf)@ == old(self)@.unread().subrange(0, n) + old(buf)@.subrange(
                    n,
                    old(buf)@.len() as int,
                )
            },
    {
        proof {
            use_type_invariant(&*self);
        }
        let pos: usize = if self.is_client {
            self.client_read_pos
        } else {
            self.server_read_pos
        };
        let src: &Vec<u8> = if self.is_client {
            &self.client
        } else {
            &self.server
        };
        let avail: usize = src.len() - pos;
        if avail == 0 {
            return ReadStatus::Pending;
        }
        let n: usize = if avail < buf.len() {
            avail
        } else {
            buf.len()
        };
        let ghost unread = self@.unread();
        let mut i: usize = 0;
        while i < n
            invariant
                0 <= i <= n,
                n <= buf@.len(),
                n <= avail,
                pos + avail == src@.len(),
                src@.len() <= usize::MAX,
                buf@.len() == old(buf)@.len(),
                unread == src@.subrange(pos as int, src@.len() as int),
                forall|j: int| 0 <= j < i ==> buf@[j] == unread[j],
                forall|j: int| i <= j < buf@.len() ==> buf@[j] == old(buf)@[j],
            decreases n - i,
        {
            buf[i] = src[pos + i];
            i = i + 1;
        }
        assert(buf@ =~= unread.subrange(0, n as int) + old(buf)@.subrange(
            n as int,
            old(buf)@.len() as int,
        ));
        if self.is_client {
            self.client_read_pos = pos + n;
        } else {
            self.server_read_pos = pos + n;
        }
        ReadStatus::Ready(n)
    }

    /// Nothing is buffered on the way out, so flushing has nothing to do.
    pub fn flush(&mut self)
        ensures
            final(self)@ == old(self)@,
    {
    }

    /// There is no medium to release, so closing has nothing to do.
    pub fn close(&mut self)
        ensures
            final(self)@ == old(self)@,
    {
    }

    /// Whether the stream is in the client role.
    pub fn is_client(&self) -> (r: bool)
        ensures
            r == self@.is_client,
    {
        self.is_client
    }
}

} // verus!
