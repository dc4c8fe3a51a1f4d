//! Mock transport for exercising protocol logic without a network.
//!
//! Responses are programmed in advance and handed out in FIFO order by
//! `recv_from`; every packet given to `send_to` is recorded.

use crate::error::KnxError;
use crate::error::KnxResult;
use crate::net::{IpEndpoint, Ipv4Addr};
use std::collections::VecDeque;
use vstd::prelude::*;

verus! {

/// Mock transport for testing KNX communication without real network.
#[derive(Debug)]
pub struct MockTransport {
    responses: VecDeque<(Vec<u8>, IpEndpoint)>,
    sent_packets: Vec<(Vec<u8>, IpEndpoint)>,
    ready: bool,
}

/// A packet with its bytes taken as a sequence.
pub open spec fn packet_view(p: (Vec<u8>, IpEndpoint)) -> (Seq<u8>, IpEndpoint) {
    (p.0@, p.1)
}

impl MockTransport {
    /// The responses still to hand out, first one first.
    pub closed spec fn spec_responses(&self) -> Seq<(Seq<u8>, IpEndpoint)> {
        self.responses@.map_values(|p: (Vec<u8>, IpEndpoint)| packet_view(p))
    }

    /// The packets sent so far, in order.
    pub closed spec fn spec_sent(&self) -> Seq<(Seq<u8>, IpEndpoint)> {
        self.sent_packets@.map_values(|p: (Vec<u8>, IpEndpoint)| packet_view(p))
    }

    /// Whether the transport reports itself ready.
    pub closed spec fn spec_ready(&self) -> bool {
        self.ready
    }

    /// Create a new mock transport: no responses, nothing sent, ready.
    pub fn new() -> (r: Self)
        ensures
            r.spec_responses() == Seq::<(Seq<u8>, IpEndpoint)>::empty(),
            r.spec_sent() == Seq::<(Seq<u8>, IpEndpoint)>::empty(),
            r.spec_ready(),
    {
        let r = Self { responses: VecDeque::new(), sent_packets: Vec::new(), ready: true };
        assert(r.spec_responses() =~= Seq::<(Seq<u8>, IpEndpoint)>::empty());
        assert(r.spec_sent() =~= Seq::<(Seq<u8>, IpEndpoint)>::empty());
        r
    }

    /// Add a response from 192.168.1.10:3671 to be returned by a later
    /// `recv_from`.
    pub fn add_response(&mut self, data: Vec<u8>)
        ensures
            final(self).spec_responses().len() == old(self).spec_responses().len() + 1,
            final(self).spec_responses().drop_last() == old(self).spec_responses(),
            final(self).spec_responses().last().0 == data@,
            final(self).spec_responses().last().1.addr@ == seq![192u8, 168u8, 1u8, 10u8],
            final(self).spec_responses().last().1.port == 3671,
            final(self).spec_sent() == old(self).spec_sent(),
            final(self).spec_ready() == old(self).spec_ready(),
    {
        let from = IpEndpoint::new(Ipv4Addr::new(192, 168, 1, 10), 3671);
        self.add_response_from(data, from);
    }

    /// Add a response with a specific source endpoint.
    pub fn add_response_from(&mut self, data: Vec<u8>, from: IpEndpoint)
        ensures
            final(self).spec_responses() == old(self).spec_responses().push((data@, from)),
            final(self).spec_sent() == old(self).spec_sent(),
            final(self).spec_ready() == old(self).spec_ready(),
    {
        let ghost d = data@;
        self.responses.push_back((data, from));
        assert(self.spec_responses() =~= old(self).spec_responses().push((d, from)));
    }

    /// All packets sent via `send_to`, as `(data, destination)`.
    pub fn sent_packets(&self) -> (r: &[(Vec<u8>, IpEndpoint)])
        ensures
            r@.map_values(|p: (Vec<u8>, IpEndpoint)| packet_view(p)) == self.spec_sent(),
    {
        self.sent_packets.as_slice()
    }

    /// The last packet sent, if any.
    pub fn last_sent(&self) -> (r: Option<&(Vec<u8>, IpEndpoint)>)
        ensures
            self.spec_sent().len() == 0 <==> r is None,
            r matches Some(p) ==> packet_view(*p) == self.spec_sent().last(),
    {
        let n = self.sent_packets.len();
        if n == 0 {
            None
        } else {
            Some(&self.sent_packets[n - 1])
        }
    }

    /// Clear all sent packets from the history.
    pub fn clear_sent(&mut self)
        ensures
            final(self).spec_sent() == Seq::<(Seq<u8>, IpEndpoint)>::empty(),
            final(self).spec_responses() == old(self).spec_responses(),
            final(self).spec_ready() == old(self).spec_ready(),
    {
        self.sent_packets.clear();
        assert(self.spec_sent() =~= Seq::<(Seq<u8>, IpEndpoint)>::empty());
    }

    /// Clear all pending responses.
    pub fn clear_responses(&mut self)
        ensures
            final(self).spec_responses() == Seq::<(Seq<u8>, IpEndpoint)>::empty(),
            final(self).spec_sent() == old(self).spec_sent(),
            final(self).spec_ready() == old(self).spec_ready(),
    {
        self.responses.clear();
        assert(self.spec_responses() =~= Seq::<(Seq<u8>, IpEndpoint)>::empty());
    }

    /// Set whether the transport reports as ready.
    pub fn set_ready(&mut self, ready: bool)
        ensures
            final(self).spec_ready() == ready,
            final(self).spec_responses() == old(self).spec_responses(),
            final(self).spec_sent() == old(self).spec_sent(),
    {
        self.ready = ready;
    }

    /// Check if there are pending responses.
    pub fn has_responses(&self) -> (r: bool)
        ensures
            r == (self.spec_responses().len() > 0),
    {
        self.responses.len() > 0
    }

    /// Get the number of pending responses.
    pub fn pending_responses(&self) -> (r: usize)
        ensures
            r == self.spec_responses().len(),
    {
        self.responses.len()
    }

    /// Record `data` as sent to `addr`.
    pub fn send_to(&mut self, data: &[u8], addr: IpEndpoint) -> (r: KnxResult<()>)
        ensures
            r is Ok,
            final(self).spec_sent() == old(self).spec_sent().push((data@, addr)),
            final(self).spec_responses() == old(self).spec_responses(),
            final(self).spec_ready() == old(self).spec_ready(),
    {
        let copy = vstd::slice::slice_to_vec(data);
        self.sent_packets.push((copy, addr));
        assert(self.spec_sent() =~= old(self).spec_sent().push((data@, addr)));
        Ok(())
    }

    /// Hand out the next programmed response: as much of it as `buf`
    /// holds is copied to its start; returns that length and the source.
    ///
    /// # Errors
    ///
    /// `Timeout` when no response is left.
    pub fn recv_from(&mut self, buf: &mut [u8]) -> (r: KnxResult<(usize, IpEndpoint)>)
        ensures
            old(self).spec_responses().len() > 0 <==> r is Ok,
            final(self).spec_sent() == old(self).spec_sent(),
            final(self).spec_ready() == old(self).spec_ready(),
            r matches Ok(got) ==> {
                let first = old(self).spec_responses()[0];
                let n = if first.0.len() < old(buf)@.len() {
                    first.0.len()
                } else {
                    old(buf)@.len()
                };
                &&& got.0 == n
                &&& got.1 == first.1
                &&& final(buf)@ == first.0.take(n as int) + old(buf)@.skip(n as int)
                &&& final(self).spec_responses() == old(self).spec_responses().skip(1)
            },
            r matches Err(e) ==> e is Timeout && final(buf)@ == old(buf)@
                && final(self).spec_responses() == old(self).spec_responses(),
    {
        let ghost before = self.responses@;
        match self.responses.pop_front() {
            Some((data, from)) => {
                assert(self.spec_responses() =~= old(self).spec_responses().skip(1));
                let len = if data.len() < buf.len() {
                    data.len()
                } else {
                    buf.len()
                };
                let mut i: usize = 0;
                while i < len
                    invariant
                        0 <= i <= len,
                        len <= data@.len(),
                        len <= buf@.len(),
                        buf@.len() == old(buf)@.len(),
                        forall|k: int| 0 <= k < i ==> buf@[k] == data@[k],
                        forall|k: int| i <= k < buf@.len() ==> buf@[k] == old(buf)@[k],
                    decreases len - i,
                {
                    buf[i] = data[i];
                    i = i + 1;
                }
                assert(buf@ =~= data@.take(len as int) + old(buf)@.skip(len as int));
                Ok((len, from))
            },
            None => Err(KnxError::Timeout),
        }
    }

    /// Whether the transport reports itself ready.
    pub fn is_ready(&self) -> (r: bool)
        ensures
            r == self.spec_ready(),
    {
        self.ready
    }

    /// Close the transport: not ready, pending responses dropped.
    pub fn close(&mut self)
        ensures
            !final(self).spec_ready(),
            final(self).spec_responses() == Seq::<(Seq<u8>, IpEndpoint)>::empty(),
            final(self).spec_sent() == old(self).spec_sent(),
    {
        self.ready = false;
        self.responses.clear();
        assert(self.spec_responses() =~= Seq::<(Seq<u8>, IpEndpoint)>::empty());
    }
}

impl Default for MockTransport {
    /// No responses, nothing sent, not ready.
    fn default() -> (r: Self)
        ensures
            r.spec_responses() == Seq::<(Seq<u8>, IpEndpoint)>::empty(),
            r.spec_sent() == Seq::<(Seq<u8>, IpEndpoint)>::empty(),
            !r.spec_ready(),
    {
        let r = Self { responses: VecDeque::new(), sent_packets: Vec::new(), ready: false };
        assert(r.spec_responses() =~= Seq::<(Seq<u8>, IpEndpoint)>::empty());
        assert(r.spec_sent() =~= Seq::<(Seq<u8>, IpEndpoint)>::empty());
        r
    }
}

/// Responses come out of the mock in the order they were programmed: after
/// adding `a` then `b` to a transport with no pending responses, the first
/// is `a` and the one after it `b`.
pub proof fn lemma_mock_fifo(
    pending: Seq<(Seq<u8>, IpEndpoint)>,
    a: (Seq<u8>, IpEndpoint),
    b: (Seq<u8>, IpEndpoint),
)
    requires
        pending.len() == 0,
    ensures
        pending.push(a).push(b)[0] == a,
        pending.push(a).push(b).skip(1)[0] == b,
{
}

} // verus!
