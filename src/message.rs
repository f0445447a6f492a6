//! The messages between the runner, which watches builds, and the host, which
//! runs the application and its loaded module; and the host's queue of load
//! requests, which acknowledges loads in the order they were asked for.
use vstd::prelude::*;

verus! {

/// Sent by the runner to the host.
#[derive(Debug, Clone)]
pub enum DylibRunnerMessage {
    /// The connection is closed; nothing follows.
    ConnectionClosed,
    /// Load the root module of build `build_id`, found at `local_path`.
    LoadRootLib { build_id: u32, local_path: String },
    /// The asset called `name` at `local_path` changed.
    AssetUpdated { local_path: String, name: String },
    /// Opaque bytes relayed without interpretation.
    SerializedMessage { message: Vec<u8> },
}

/// Sent by the host to the runner.
#[derive(Debug, Clone)]
pub enum DylibRunnerOutput {
    /// The root module of build `build_id` is loaded.
    LoadedLib { build_id: u32 },
    /// Opaque bytes relayed without interpretation.
    SerializedMessage { message: Vec<u8> },
}

/// A load the host was asked for and has not yet finished.
#[derive(Debug, Clone)]
pub struct PendingLoad {
    pub build_id: u32,
    pub local_path: String,
}

/// What the host should do with a message from the runner, besides queueing
/// load requests.
#[derive(Debug, Clone)]
pub enum HostEvent {
    /// A load request was queued.
    LoadQueued { build_id: u32 },
    /// The runner closed the connection: the loads still queued, listed
    /// oldest first, are failed and leave the queue.
    Closed { dropped: Vec<u32> },
    /// An asset changed.
    AssetChanged { local_path: String, name: String },
    /// Bytes to hand on as they are.
    Relay { message: Vec<u8> },
    /// Nothing more arrives after the connection was closed.
    Ignored,
}

/// The host's side of the connection: load requests in order of arrival.
pub struct HostInbox {
    pending: Vec<PendingLoad>,
    closed: bool,
}

/// The acknowledgements given when the queued builds `p` are worked through
/// by `HostInbox::finish`, oldest first, with `o[i]` saying whether the load
/// of `p[i]` succeeded: a failed load is not acknowledged.
pub open spec fn acks_in_order(p: Seq<u32>, o: Seq<bool>) -> Seq<u32>
    decreases p.len(),
{
    if p.len() == 0 || o.len() == 0 {
        Seq::empty()
    } else if o[0] {
        seq![p[0]] + acks_in_order(p.drop_first(), o.drop_first())
    } else {
        acks_in_order(p.drop_first(), o.drop_first())
    }
}

impl HostInbox {
    /// The builds waiting to be loaded, oldest first.
    pub closed spec fn pending_ids(&self) -> Seq<u32> {
        self.pending@.map_values(|l: PendingLoad| l.build_id)
    }

    pub closed spec fn is_closed(&self) -> bool {
        self.closed
    }

    pub fn new() -> (r: HostInbox)
        ensures
            r.pending_ids() == Seq::<u32>::empty(),
            !r.is_closed(),
    {
        let r = HostInbox { pending: Vec::new(), closed: false };
        assert(r.pending_ids() =~= Seq::<u32>::empty());
        r
    }

    /// Takes in one message from the runner. A load request joins the back
    /// of the queue; after the connection is closed nothing is taken in.
    pub fn receive(&mut self, msg: DylibRunnerMessage) -> (r: HostEvent)
        ensures
            old(self).is_closed() ==> final(self).pending_ids() == old(self).pending_ids()
                && final(self).is_closed() && r is Ignored,
            !old(self).is_closed() ==> match msg {
                DylibRunnerMessage::LoadRootLib { build_id, .. } => final(self).pending_ids()
                    == old(self).pending_ids().push(build_id) && !final(self).is_closed()
                    && r == (HostEvent::LoadQueued { build_id }),
                DylibRunnerMessage::ConnectionClosed => final(self).pending_ids()
                    == Seq::<u32>::empty() && final(self).is_closed() && match r {
                    HostEvent::Closed { dropped } => dropped@ == old(self).pending_ids(),
                    _ => false,
                },
                DylibRunnerMessage::AssetUpdated { local_path, name } => final(self).pending_ids()
                    == old(self).pending_ids() && !final(self).is_closed() && (r == (
                HostEvent::AssetChanged { local_path, name })),
                DylibRunnerMessage::SerializedMessage { message } => final(self).pending_ids()
                    == old(self).pending_ids() && !final(self).is_closed() && (r == (
                HostEvent::Relay { message })),
            },
    {
        if self.closed {
            return HostEvent::Ignored;
        }
        match msg {
            DylibRunnerMessage::LoadRootLib { build_id, local_path } => {
                self.pending.push(PendingLoad { build_id, local_path });
                assert(self.pending_ids() =~= old(self).pending_ids().push(build_id));
                HostEvent::LoadQueued { build_id }
            },
            DylibRunnerMessage::ConnectionClosed => {
                let mut dropped: Vec<u32> = Vec::new();
                let mut i: usize = 0;
                while i < self.pending.len()
                    invariant
                        i <= self.pending@.len(),
                        self.pending_ids() == old(self).pending_ids(),
                        dropped@ == self.pending_ids().subrange(0, i as int),
                    decreases self.pending@.len() - i,
                {
                    dropped.push(self.pending[i].build_id);
                    assert(dropped@ =~= self.pending_ids().subrange(0, i + 1));
                    i = i + 1;
                }
                assert(dropped@ =~= old(self).pending_ids());
                self.pending = Vec::new();
                assert(self.pending_ids() =~= Seq::<u32>::empty());
                self.closed = true;
                HostEvent::Closed { dropped }
            },
            DylibRunnerMessage::AssetUpdated { local_path, name } => HostEvent::AssetChanged {
                local_path,
                name,
            },
            DylibRunnerMessage::SerializedMessage { message } => HostEvent::Relay { message },
        }
    }

    /// The oldest load request, which is the one to work on.
    pub fn next_load(&self) -> (r: Option<&PendingLoad>)
        ensures
            self.pending_ids().len() == 0 ==> r is None,
            self.pending_ids().len() > 0 ==> (r matches Some(l) && l.build_id
                == self.pending_ids()[0]),
    {
        if self.pending.len() == 0 {
            None
        } else {
            Some(&self.pending[0])
        }
    }

    /// Finishes the oldest load request: on success it is acknowledged, on
    /// failure it is dropped without a word.
    pub fn finish(&mut self, ok: bool) -> (r: Option<DylibRunnerOutput>)
        requires
            old(self).pending_ids().len() > 0,
        ensures
            final(self).pending_ids() == old(self).pending_ids().drop_first(),
            final(self).is_closed() == old(self).is_closed(),
            ok ==> (r matches Some(DylibRunnerOutput::LoadedLib { build_id }) && build_id
                == old(self).pending_ids()[0]),
            !ok ==> r is None,
    {
        let first = self.pending.remove(0);
        assert(self.pending_ids() =~= old(self).pending_ids().drop_first());
        if ok {
            Some(DylibRunnerOutput::LoadedLib { build_id: first.build_id })
        } else {
            None
        }
    }
}

/// One call of `HostInbox::finish` is one step of `acks_in_order`: it gives
/// the acknowledgement (if any) of the oldest request and leaves the rest of
/// the queue to the following calls.
pub proof fn lemma_finish_is_one_step(p: Seq<u32>, o: Seq<bool>)
    requires
        p.len() > 0,
        o.len() > 0,
    ensures
        acks_in_order(p, o) == (if o[0] {
            seq![p[0]]
        } else {
            Seq::<u32>::empty()
        }) + acks_in_order(p.drop_first(), o.drop_first()),
{
    if !o[0] {
        assert(Seq::<u32>::empty() + acks_in_order(p.drop_first(), o.drop_first()) =~= acks_in_order(
            p.drop_first(),
            o.drop_first(),
        ));
    }
}

/// Every queued build whose load succeeds is acknowledged.
pub proof fn lemma_success_is_acked(p: Seq<u32>, o: Seq<bool>, j: int)
    requires
        0 <= j < p.len(),
        j < o.len(),
        o[j],
    ensures
        exists|k: int| 0 <= k < acks_in_order(p, o).len() && acks_in_order(p, o)[k] == p[j],
    decreases p.len(),
{
    let a = acks_in_order(p, o);
    if j == 0 {
        assert(a[0] == p[0]);
    } else {
        lemma_success_is_acked(p.drop_first(), o.drop_first(), j - 1);
        let r = acks_in_order(p.drop_first(), o.drop_first());
        let k = choose|k: int| 0 <= k < r.len() && r[k] == p.drop_first()[j - 1];
        if o[0] {
            assert(a[k + 1] == p[j]);
        } else {
            assert(a[k] == p[j]);
        }
    }
}

/// Acknowledgements keep the order of the requests: where build `p[i]` was
/// asked for before build `p[j]` and both loads succeed, the acknowledgement
/// of `p[i]` comes before that of `p[j]`.
pub proof fn lemma_acks_keep_request_order(p: Seq<u32>, o: Seq<bool>, i: int, j: int)
    requires
        0 <= i < j < p.len(),
        j < o.len(),
        o[i],
        o[j],
    ensures
        exists|ki: int, kj: int|
            0 <= ki < kj < acks_in_order(p, o).len() && acks_in_order(p, o)[ki] == p[i]
                && acks_in_order(p, o)[kj] == p[j],
    decreases p.len(),
{
    let a = acks_in_order(p, o);
    let r = acks_in_order(p.drop_first(), o.drop_first());
    if i == 0 {
        lemma_success_is_acked(p.drop_first(), o.drop_first(), j - 1);
        let k = choose|k: int| 0 <= k < r.len() && r[k] == p.drop_first()[j - 1];
        assert(a[0] == p[0] && a[k + 1] == p[j]);
    } else {
        lemma_acks_keep_request_order(p.drop_first(), o.drop_first(), i - 1, j - 1);
        let (ki, kj) = choose|ki: int, kj: int|
            0 <= ki < kj < r.len() && r[ki] == p.drop_first()[i - 1] && r[kj] == p.drop_first()[j
                - 1];
        if o[0] {
            assert(a[ki + 1] == p[i] && a[kj + 1] == p[j]);
        } else {
            assert(a[ki] == p[i] && a[kj] == p[j]);
        }
    }
}

} // verus!
