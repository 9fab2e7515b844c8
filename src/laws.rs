use vstd::prelude::*;

use crate::stream::{concat, StreamModel};

verus! {

/// The state after the current role writes each slice in turn, one write
/// per slice.
pub open spec fn written_each(m: StreamModel, slices: Seq<Seq<u8>>) -> StreamModel
    decreases slices.len(),
{
    if slices.len() == 0 {
        m
    } else {
        written_each(m, slices.drop_last()).appended(slices.last())
    }
}

/// Writing two pieces one after the other is writing them joined.
pub proof fn lemma_append_twice(m: StreamModel, a: Seq<u8>, b: Seq<u8>)
    ensures
        m.appended(a).appended(b) == m.appended(a + b),
{
    if m.is_client {
        assert(m.to_server + a + b =~= m.to_server + (a + b));
    } else {
        assert(m.to_client + a + b =~= m.to_client + (a + b));
    }
}

/// Bytes written in the client role are, once the stream turns to the
/// server role, what the server has yet to read, right after whatever it
/// had not read before; with nothing left over, they are exactly that.
pub proof fn lemma_client_bytes_reach_server(m: StreamModel, b: Seq<u8>)
    requires
        m.wf(),
        m.is_client,
    ensures
        m.appended(b).wf(),
        m.appended(b).with_role(false).unread() == m.with_role(false).unread() + b,
        m.with_role(false).unread().len() == 0 ==> m.appended(b).with_role(false).unread() == b,
{
    let s = m.with_role(false);
    let t = m.appended(b).with_role(false);
    assert(t.incoming() == s.incoming() + b);
    assert(t.unread() =~= s.unread() + b);
}

/// A read of `n` bytes takes the first `n` unread bytes and leaves the rest,
/// in order, for the reads that follow.
pub proof fn lemma_reads_in_order(m: StreamModel, n: nat)
    requires
        m.wf(),
        n <= m.unread().len(),
    ensures
        m.consumed(n).wf(),
        m.leads_to(m.consumed(n)),
        m.unread() == m.unread().subrange(0, n as int) + m.consumed(n).unread(),
{
    assert(m.unread() =~= m.unread().subrange(0, n as int) + m.consumed(n).unread());
}

/// A stream only moves forward: over any run of operations, each of which
/// leads from one state to the next, no buffer loses bytes and no cursor
/// goes back.
pub proof fn lemma_leads_to_transitive(a: StreamModel, b: StreamModel, c: StreamModel)
    requires
        a.leads_to(b),
        b.leads_to(c),
    ensures
        a.leads_to(c),
{
    assert(a.to_server =~= c.to_server.subrange(0, a.to_server.len() as int));
    assert(a.to_client =~= c.to_client.subrange(0, a.to_client.len() as int));
}

/// A vectored write leaves the stream as writing its slices one by one
/// would.
pub proof fn lemma_vectored_is_sequential(m: StreamModel, slices: Seq<Seq<u8>>)
    ensures
        m.appended(concat(slices)) == written_each(m, slices),
    decreases slices.len(),
{
    if slices.len() == 0 {
        if m.is_client {
            assert(m.to_server + concat(slices) =~= m.to_server);
        } else {
            assert(m.to_client + concat(slices) =~= m.to_client);
        }
    } else {
        lemma_vectored_is_sequential(m, slices.drop_last());
        lemma_append_twice(m, concat(slices.drop_last()), slices.last());
    }
}

} // verus!
