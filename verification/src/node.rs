use vstd::prelude::*;
use crate::config::SyncifyConfig;
use crate::error::StreamRejected;
use crate::identity::bytes_equal;
use crate::router::{Action, Event, Machine, Protocol, RouterState};

verus! {

/// The protocol identifiers of the three handlers, as their libraries define them.
#[derive(Clone, Debug)]
pub struct ProtocolIds {
    pub blobs: Vec<u8>,
    pub gossip: Vec<u8>,
    pub docs: Vec<u8>,
}

/// Where an inbound stream goes.
#[derive(Clone, Copy, PartialEq, Eq, Structural, Debug)]
pub enum Dispatch {
    /// Hand the stream to this handler.
    Handler(Protocol),
    /// Close the stream; no handler sees it.
    Rejected(StreamRejected),
}

/// The handler registered for an identifier, if there is one.
pub open spec fn handler_for(ids: ProtocolIds, alpn: Seq<u8>) -> Option<Protocol> {
    if alpn == ids.blobs@ {
        Some(Protocol::Blobs)
    } else if alpn == ids.gossip@ {
        Some(Protocol::Gossip)
    } else if alpn == ids.docs@ {
        Some(Protocol::Docs)
    } else {
        None
    }
}

/// Where a stream that negotiated `alpn` goes: nowhere if no handler is registered for
/// it, nowhere unless the router is ready, and else to its handler.
pub open spec fn route(ids: ProtocolIds, m: Machine, alpn: Seq<u8>) -> Dispatch {
    match handler_for(ids, alpn) {
        None => Dispatch::Rejected(StreamRejected::UnknownProtocol),
        Some(p) => if m.state == RouterState::Ready {
            Dispatch::Handler(p)
        } else {
            Dispatch::Rejected(StreamRejected::HandlerBusy)
        },
    }
}

/// A count of stream errors after one more: it stops at the largest number.
pub open spec fn bumped(n: u64) -> u64 {
    if n < u64::MAX {
        (n + 1) as u64
    } else {
        n
    }
}

/// Whether an identifier occurs in a list of identifiers.
pub open spec fn lists(advertised: Seq<Vec<u8>>, alpn: Seq<u8>) -> bool {
    exists|i: int| 0 <= i < advertised.len() && (#[trigger] advertised[i])@ == alpn
}

/// Whether a list of identifiers holds those of all three handlers.
pub open spec fn covers(advertised: Seq<Vec<u8>>, ids: ProtocolIds) -> bool {
    lists(advertised, ids.blobs@) && lists(advertised, ids.gossip@) && lists(advertised, ids.docs@)
}

fn is_listed(advertised: &Vec<Vec<u8>>, alpn: &Vec<u8>) -> (r: bool)
    ensures
        r == lists(advertised@, alpn@),
{
    let mut i: usize = 0;
    while i < advertised.len()
        invariant
            i <= advertised@.len(),
            forall|k: int| 0 <= k < i ==> (#[trigger] advertised@[k])@ != alpn@,
        decreases advertised@.len() - i,
    {
        if bytes_equal(advertised[i].as_slice(), alpn.as_slice()) {
            return true;
        }
        i += 1;
    }
    false
}

/// The node: its configuration, the identifiers it serves, the router's state, and how
/// many streams were turned away or failed.
pub struct Syncify {
    config: SyncifyConfig,
    ids: ProtocolIds,
    machine: Machine,
    stream_errors: u64,
}

fn copy_bytes(src: &Vec<u8>) -> (out: Vec<u8>)
    ensures
        out@ == src@,
{
    let mut out: Vec<u8> = Vec::new();
    let mut i: usize = 0;
    while i < src.len()
        invariant
            i <= src@.len(),
            out@ == src@.take(i as int),
        decreases src@.len() - i,
    {
        out.push(src[i]);
        assert(out@ =~= src@.take(i + 1));
        i += 1;
    }
    assert(src@.take(src@.len() as int) =~= src@);
    out
}

impl Syncify {
    /// The router's supervision state.
    pub closed spec fn machine(&self) -> Machine {
        self.machine
    }

    /// The identifiers that the handlers are registered under.
    pub closed spec fn ids(&self) -> ProtocolIds {
        self.ids
    }

    /// The configuration that the node was made with.
    pub closed spec fn spec_config(&self) -> SyncifyConfig {
        self.config
    }

    /// How many streams were turned away or failed so far.
    pub closed spec fn spec_stream_errors(&self) -> u64 {
        self.stream_errors
    }

    /// The router's state can be reached.
    pub open spec fn wf(&self) -> bool {
        self.machine().wf()
    }

    /// A node that has not bound anything yet. What comes first is to bind the endpoint
    /// with the configuration's key and label and with `alpns()`.
    pub fn new(config: SyncifyConfig, ids: ProtocolIds) -> (node: Syncify)
        ensures
            node.machine() == Machine::idle(RouterState::Building),
            node.ids() == ids,
            node.spec_config() == config,
            node.spec_stream_errors() == 0,
            node.wf(),
    {
        Syncify { config, ids, machine: Machine::new(), stream_errors: 0 }
    }

    /// How many streams were turned away or failed so far.
    pub fn stream_errors(&self) -> (n: u64)
        ensures
            n == self.spec_stream_errors(),
    {
        self.stream_errors
    }

    fn count_stream_error(&mut self)
        ensures
            final(self).stream_errors == bumped(old(self).stream_errors),
            final(self).machine == old(self).machine,
            final(self).ids == old(self).ids,
            final(self).config == old(self).config,
    {
        if self.stream_errors < u64::MAX {
            self.stream_errors = self.stream_errors + 1;
        }
    }

    /// The configuration that the node was made with.
    pub fn config(&self) -> (cfg: &SyncifyConfig)
        ensures
            *cfg == self.spec_config(),
    {
        &self.config
    }

    /// Where the router is in its life cycle.
    pub fn state(&self) -> (s: RouterState)
        ensures
            s == self.machine().state,
    {
        self.machine.state
    }

    /// Whether the endpoint runs without the global rendezvous service.
    pub fn degraded(&self) -> (d: bool)
        ensures
            d == self.machine().degraded,
    {
        self.machine.degraded
    }

    /// Whether a list of identifiers that is about to be advertised at bind time holds
    /// the identifier of every handler that this node will register.
    pub fn advertises(&self, advertised: &Vec<Vec<u8>>) -> (r: bool)
        ensures
            r == covers(advertised@, self.ids()),
    {
        is_listed(advertised, &self.ids.blobs) && is_listed(advertised, &self.ids.gossip)
            && is_listed(advertised, &self.ids.docs)
    }

    /// The identifiers to advertise when binding: those of the three handlers that will be
    /// registered, in the order blobs, gossip, docs.
    pub fn alpns(&self) -> (list: Vec<Vec<u8>>)
        ensures
            list@.len() == 3,
            list@[0]@ == self.ids().blobs@,
            list@[1]@ == self.ids().gossip@,
            list@[2]@ == self.ids().docs@,
            covers(list@, self.ids()),
    {
        let mut list: Vec<Vec<u8>> = Vec::new();
        list.push(copy_bytes(&self.ids.blobs));
        list.push(copy_bytes(&self.ids.gossip));
        list.push(copy_bytes(&self.ids.docs));
        list
    }

    /// Takes one event from outside and says what to do next; see [`Machine::step`].
    /// A stream failure that a serving router is told of is counted.
    pub fn on_event(&mut self, e: Event) -> (a: Action)
        requires
            old(self).wf(),
        ensures
            final(self).machine() == old(self).machine().next(e),
            a == old(self).machine().reply(e),
            final(self).ids() == old(self).ids(),
            final(self).spec_config() == old(self).spec_config(),
            final(self).spec_stream_errors() == if e == Event::StreamFailed
                && old(self).machine().state == RouterState::Ready {
                bumped(old(self).spec_stream_errors())
            } else {
                old(self).spec_stream_errors()
            },
            final(self).wf(),
    {
        let a = self.machine.step(e);
        match (e, a) {
            (Event::StreamFailed, Action::Serve) => {
                self.count_stream_error();
            },
            _ => {},
        }
        a
    }

    /// Decides where an inbound stream goes by the identifier it negotiated, and counts
    /// the stream if it is turned away. Nothing else changes.
    pub fn dispatch(&mut self, alpn: &[u8]) -> (d: Dispatch)
        ensures
            d == route(old(self).ids(), old(self).machine(), alpn@),
            final(self).machine() == old(self).machine(),
            final(self).ids() == old(self).ids(),
            final(self).spec_config() == old(self).spec_config(),
            final(self).spec_stream_errors() == if d is Rejected {
                bumped(old(self).spec_stream_errors())
            } else {
                old(self).spec_stream_errors()
            },
    {
        let found = if bytes_equal(alpn, self.ids.blobs.as_slice()) {
            Some(Protocol::Blobs)
        } else if bytes_equal(alpn, self.ids.gossip.as_slice()) {
            Some(Protocol::Gossip)
        } else if bytes_equal(alpn, self.ids.docs.as_slice()) {
            Some(Protocol::Docs)
        } else {
            None
        };
        let d = match found {
            None => Dispatch::Rejected(StreamRejected::UnknownProtocol),
            Some(p) => match self.machine.state {
                RouterState::Ready => Dispatch::Handler(p),
                _ => Dispatch::Rejected(StreamRejected::HandlerBusy),
            },
        };
        match d {
            Dispatch::Rejected(_) => {
                self.count_stream_error();
            },
            Dispatch::Handler(_) => {},
        }
        d
    }
}

/// A stream whose identifier no handler is registered for is turned away as unknown, in
/// every state of the router: no handler sees it.
pub proof fn unknown_identifier_reaches_no_handler(ids: ProtocolIds, m: Machine, alpn: Seq<u8>)
    requires
        alpn != ids.blobs@,
        alpn != ids.gossip@,
        alpn != ids.docs@,
    ensures
        route(ids, m, alpn) == Dispatch::Rejected(StreamRejected::UnknownProtocol),
{
}

/// A stream reaches a handler only while the router is ready, and then the endpoint is
/// bound and all three handlers run.
pub proof fn streams_are_served_only_when_ready(ids: ProtocolIds, m: Machine, alpn: Seq<u8>)
    requires
        m.wf(),
        route(ids, m, alpn) is Handler,
    ensures
        m.state == RouterState::Ready,
        m.all_started(),
        handler_for(ids, alpn) == Some(route(ids, m, alpn)->Handler_0),
{
}

} // verus!
