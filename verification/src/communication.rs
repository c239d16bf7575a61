//! Identifiers of the processes in the system, and the decision logic of
//! the bootstrap protocol that connects a node to its peers.

use vstd::prelude::*;

use crate::error::{Error, ErrorKind};
use crate::message::{spec_frame_ok, Header, WireMessage};
use crate::view::SystemParams;

verus! {

/// A `NodeId` represents the id of a process in the BFT system.
///
/// Replica ids live in `[0, n)`; client ids are `>= first_cli`.
#[derive(Debug, Copy, Clone, Eq, PartialEq, Structural, Hash)]
pub struct NodeId(pub u32);

impl NodeId {
    /// The ids naming each value of `range`, in order.
    pub fn targets_u32(range: core::ops::Range<u32>) -> (r: Vec<NodeId>)
        ensures
            range.start <= range.end ==> r@.len() == range.end - range.start,
            range.start > range.end ==> r@.len() == 0,
            forall|i: int| 0 <= i < r@.len() ==> r@[i] == NodeId((range.start + i) as u32),
    {
        let mut r: Vec<NodeId> = Vec::new();
        let mut id: u32 = range.start;
        while id < range.end
            invariant
                range.start <= id,
                id <= range.end || (range.start > range.end && id == range.start),
                r@.len() == id - range.start,
                forall|i: int| 0 <= i < r@.len() ==> r@[i] == NodeId((range.start + i) as u32),
            decreases range.end - id,
        {
            r.push(NodeId(id));
            id = id + 1;
        }
        r
    }

    /// The ids naming each value of `range`, in order; values are
    /// truncated to 32 bits as `From<usize>` does.
    pub fn targets(range: core::ops::Range<usize>) -> (r: Vec<NodeId>)
        ensures
            range.start <= range.end ==> r@.len() == range.end - range.start,
            range.start > range.end ==> r@.len() == 0,
            forall|i: int| 0 <= i < r@.len() ==> r@[i] == NodeId((range.start + i) as u32),
    {
        let mut r: Vec<NodeId> = Vec::new();
        let mut id: usize = range.start;
        while id < range.end
            invariant
                range.start <= id,
                id <= range.end || (range.start > range.end && id == range.start),
                r@.len() == id - range.start,
                forall|i: int| 0 <= i < r@.len() ==> r@[i] == NodeId((range.start + i) as u32),
            decreases range.end - id,
        {
            r.push(NodeId(id as u32));
            id = id + 1;
        }
        r
    }
}

/// Checks the one header a peer sends when it connects: the frame must
/// be well-formed with an empty payload, addressed to this node, and
/// not a client reaching another client; the peer's id is returned.
/// Any rejection means the receiver must drop the socket.
pub fn handshake_peer(header: Header, my_id: NodeId, first_cli: NodeId) -> (r: Result<
    NodeId,
    Error,
>)
    ensures
        r is Ok <==> (spec_frame_ok(header, Seq::<u8>::empty())
            && !(header.from >= first_cli.0 && my_id.0 >= first_cli.0) && header.to == my_id.0),
        r is Ok ==> r->Ok_0 == NodeId(header.from),
        r is Err ==> r->Err_0.spec_kind() == ErrorKind::Communication,
{
    let empty: Vec<u8> = Vec::new();
    let message = match WireMessage::from_parts(header, empty.as_slice()) {
        Ok(message) => message,
        // drop connections with invalid headers
        Err(_) => {
            return Err(Error::wrapped(ErrorKind::Communication, "Invalid handshake header"));
        },
    };
    let from = message.header().from();
    let to = message.header().to();
    // drop connections from other clients if we are a client
    if from.0 >= first_cli.0 && my_id.0 >= first_cli.0 {
        return Err(Error::wrapped(ErrorKind::Communication, "Client to client connection"));
    }
    // drop connections to the wrong destination
    if to != my_id {
        return Err(Error::wrapped(ErrorKind::Communication, "Connection to the wrong node"));
    }
    Ok(from)
}

/// How many of a replica peer's two directed connections are up.
pub type ConnCount = u8;

/// An event the bootstrap procedure reacts to, read off the node's
/// inbound channel.
pub enum BootstrapEvent {
    /// An outgoing connection to the named peer completed.
    ConnectedTx(NodeId),
    /// An incoming connection from the named peer completed.
    ConnectedRx(NodeId),
    /// An outgoing connection failed for good.
    DisconnectedTx(NodeId),
    /// An incoming connection failed, from the named peer when its
    /// handshake revealed it.
    DisconnectedRx(Option<NodeId>),
}

/// The decision core of the bootstrap procedure: counts the two directed
/// connections of every replica peer, succeeds when all are up, and
/// treats any disconnection as fatal.
#[derive(Debug)]
pub struct Bootstrap {
    /// How many directed connections each replica has established.
    pub counts: Vec<ConnCount>,
    /// The id of the node bootstrapping.
    pub my_id: NodeId,
    /// The first id belonging to a client.
    pub first_cli: NodeId,
}

/// Whether every replica peer has both of its directed connections up.
pub open spec fn spec_bootstrap_complete(b: Bootstrap) -> bool {
    forall|i: int| 0 <= i < b.counts@.len() && i != b.my_id.0 ==> b.counts@[i] == 2
}

impl Bootstrap {
    /// The well-formedness of the tracker: one counter per replica.
    pub open spec fn wf(&self) -> bool {
        self.counts@.len() <= u32::MAX
    }

    /// Starts tracking a bootstrap, performing the initial checks of
    /// correctness: the parameters must satisfy `n >= 3f + 1`, and the
    /// node's id must belong to a replica or to a client.
    pub fn new(n: usize, f: usize, id: NodeId, first_cli: NodeId) -> (r: Result<Bootstrap, Error>)
        ensures
            r is Ok <==> (SystemParams { n, f }).wf() && !(id.0 >= n && id.0 < first_cli.0),
            r is Err ==> r->Err_0.spec_kind() == ErrorKind::Communication,
            r is Ok ==> ({
                let b = r->Ok_0;
                &&& b.wf()
                &&& b.my_id == id
                &&& b.first_cli == first_cli
                &&& b.counts@.len() == n
                &&& forall|i: int| 0 <= i < n ==> b.counts@[i] == 0
            }),
    {
        let params = match SystemParams::new(n, f) {
            Ok(params) => params,
            Err(e) => {
                return Err(e);
            },
        };
        if id.0 as usize >= n && id.0 < first_cli.0 {
            return Err(Error::wrapped(ErrorKind::Communication, "Invalid node ID"));
        }
        let mut counts: Vec<ConnCount> = Vec::new();
        let mut i: usize = 0;
        while i < n
            invariant
                i <= n,
                counts@.len() == i,
                forall|j: int| 0 <= j < i ==> counts@[j] == 0,
            decreases n - i,
        {
            counts.push(0);
            i = i + 1;
        }
        Ok(Bootstrap { counts, my_id: id, first_cli })
    }

    /// Whether every replica peer has both of its directed connections
    /// up, so the bootstrap is complete.
    pub fn complete(&self) -> (r: bool)
        requires
            self.wf(),
        ensures
            r == spec_bootstrap_complete(*self),
    {
        let mut i: usize = 0;
        while i < self.counts.len()
            invariant
                self.wf(),
                i <= self.counts@.len(),
                forall|j: int| 0 <= j < i && j != self.my_id.0 ==> self.counts@[j] == 2,
            decreases self.counts@.len() - i,
        {
            if i as u32 != self.my_id.0 && self.counts[i] != 2 {
                return false;
            }
            i = i + 1;
        }
        true
    }

    /// Reacts to one event read off the inbound channel during
    /// bootstrap: completed connections of replica peers are counted,
    /// and any disconnection is fatal. Returns whether the bootstrap is
    /// complete.
    pub fn handle(&mut self, event: BootstrapEvent) -> (r: Result<bool, Error>)
        requires
            old(self).wf(),
        ensures
            final(self).wf(),
            final(self).my_id == old(self).my_id,
            final(self).first_cli == old(self).first_cli,
            match event {
                BootstrapEvent::ConnectedTx(id) | BootstrapEvent::ConnectedRx(id) => {
                    &&& r matches Ok(done) && done == spec_bootstrap_complete(*final(self))
                    &&& if id.0 < old(self).first_cli.0 && id.0 < old(self).counts@.len() {
                        final(self).counts@ == old(self).counts@.update(
                            id.0 as int,
                            (if old(self).counts@[id.0 as int] == 0xff {
                                0xffu8
                            } else {
                                (old(self).counts@[id.0 as int] + 1) as u8
                            }),
                        )
                    } else {
                        final(self).counts == old(self).counts
                    }
                },
                BootstrapEvent::DisconnectedTx(_) => r is Err
                    && r->Err_0.spec_kind() == ErrorKind::Communication && *final(self)
                    == *old(self),
                BootstrapEvent::DisconnectedRx(_) => r is Err
                    && r->Err_0.spec_kind() == ErrorKind::Communication && *final(self)
                    == *old(self),
            },
    {
        match event {
            BootstrapEvent::ConnectedTx(id) | BootstrapEvent::ConnectedRx(id) => {
                if id.0 < self.first_cli.0 && (id.0 as usize) < self.counts.len() {
                    // not a client connection, increase count
                    let index = id.0 as usize;
                    let count = self.counts[index];
                    let count = if count == 0xff {
                        count
                    } else {
                        count + 1
                    };
                    self.counts[index] = count;
                }
                Ok(self.complete())
            },
            BootstrapEvent::DisconnectedTx(_) => Err(Error::wrapped(
                ErrorKind::Communication,
                "Node disconnected from send side",
            )),
            BootstrapEvent::DisconnectedRx(_) => Err(Error::wrapped(
                ErrorKind::Communication,
                "Node disconnected from receive side",
            )),
        }
    }
}

impl From<u32> for NodeId {
    /// Wraps the raw id.
    fn from(id: u32) -> (r: NodeId) {
        NodeId(id)
    }
}

impl vstd::std_specs::convert::FromSpecImpl<u32> for NodeId {
    open spec fn obeys_from_spec() -> bool {
        true
    }

    open spec fn from_spec(id: u32) -> NodeId {
        NodeId(id)
    }
}

impl From<usize> for NodeId {
    /// Wraps the raw id, truncated to 32 bits.
    fn from(id: usize) -> (r: NodeId) {
        NodeId(id as u32)
    }
}

impl vstd::std_specs::convert::FromSpecImpl<usize> for NodeId {
    open spec fn obeys_from_spec() -> bool {
        true
    }

    open spec fn from_spec(id: usize) -> NodeId {
        NodeId(id as u32)
    }
}

impl From<NodeId> for u32 {
    /// The raw 32-bit id.
    fn from(id: NodeId) -> (r: u32) {
        id.0
    }
}

impl vstd::std_specs::convert::FromSpecImpl<NodeId> for u32 {
    open spec fn obeys_from_spec() -> bool {
        true
    }

    open spec fn from_spec(id: NodeId) -> u32 {
        id.0
    }
}

impl From<NodeId> for usize {
    /// The raw id, widened to `usize`.
    fn from(id: NodeId) -> (r: usize) {
        id.0 as usize
    }
}

impl vstd::std_specs::convert::FromSpecImpl<NodeId> for usize {
    open spec fn obeys_from_spec() -> bool {
        true
    }

    open spec fn from_spec(id: NodeId) -> usize {
        id.0 as usize
    }
}

} // verus!
