use vstd::prelude::*;
use crate::connect::WsMessage;

verus! {

/// One of the two streams that a relay joins.
#[derive(PartialEq, Eq, Structural, Debug, Clone, Copy)]
pub enum Side {
    A,
    B,
}

/// What a relay observed: bytes read from a side (none at end of stream), a
/// message on a websocket side, or an I/O error.
pub enum RelayEvent {
    Read(Side, Vec<u8>),
    Frame(Side, WsMessage),
    Error,
}

/// What a relay does about it.
pub enum RelayAction {
    /// Write these bytes to that side (as one binary message on a websocket side).
    Write(Side, Vec<u8>),
    /// Nothing to forward; keep going.
    Skip,
    /// Stop relaying and close a websocket side on a best-effort basis; with
    /// `true` the relay failed.
    Stop(bool),
}

/// Abstract relay event.
pub enum RelayEventModel {
    Read(Side, Seq<u8>),
    Binary(Side, Seq<u8>),
    OtherFrame(Side),
    Closed(Side),
    Error,
}

/// Abstract relay action.
pub enum RelayActionModel {
    Write(Side, Seq<u8>),
    Skip,
    Stop(bool),
}

impl RelayEvent {
    pub open spec fn model(&self) -> RelayEventModel {
        match self {
            RelayEvent::Read(s, b) => RelayEventModel::Read(*s, b@),
            RelayEvent::Frame(s, WsMessage::Binary(b)) => RelayEventModel::Binary(*s, b@),
            RelayEvent::Frame(s, WsMessage::Other) => RelayEventModel::OtherFrame(*s),
            RelayEvent::Frame(s, WsMessage::Closed) => RelayEventModel::Closed(*s),
            RelayEvent::Error => RelayEventModel::Error,
        }
    }
}

impl RelayAction {
    pub open spec fn model(&self) -> RelayActionModel {
        match self {
            RelayAction::Write(s, b) => RelayActionModel::Write(*s, b@),
            RelayAction::Skip => RelayActionModel::Skip,
            RelayAction::Stop(e) => RelayActionModel::Stop(*e),
        }
    }
}

/// The side opposite to `s`.
pub open spec fn other(s: Side) -> Side {
    match s {
        Side::A => Side::B,
        Side::B => Side::A,
    }
}

/// The decision for one event: bytes go verbatim to the other side, an empty
/// read or a closed websocket ends the relay cleanly, non-binary messages are
/// ignored, and an error ends it with failure.
pub open spec fn relay_next(e: RelayEventModel) -> RelayActionModel {
    match e {
        RelayEventModel::Read(s, b) => if b.len() == 0 {
            RelayActionModel::Stop(false)
        } else {
            RelayActionModel::Write(other(s), b)
        },
        RelayEventModel::Binary(s, b) => RelayActionModel::Write(other(s), b),
        RelayEventModel::OtherFrame(_) => RelayActionModel::Skip,
        RelayEventModel::Closed(_) => RelayActionModel::Stop(false),
        RelayEventModel::Error => RelayActionModel::Stop(true),
    }
}

/// Decides what to do about one event.
pub fn relay_step(event: RelayEvent) -> (r: RelayAction)
    ensures
        r.model() == relay_next(event.model()),
{
    match event {
        RelayEvent::Read(s, b) => if b.len() == 0 {
            RelayAction::Stop(false)
        } else {
            RelayAction::Write(opposite(s), b)
        },
        RelayEvent::Frame(s, WsMessage::Binary(b)) => RelayAction::Write(opposite(s), b),
        RelayEvent::Frame(_, WsMessage::Other) => RelayAction::Skip,
        RelayEvent::Frame(_, WsMessage::Closed) => RelayAction::Stop(false),
        RelayEvent::Error => RelayAction::Stop(true),
    }
}

/// The side opposite to `s`.
pub fn opposite(s: Side) -> (r: Side)
    ensures
        r == other(s),
{
    match s {
        Side::A => Side::B,
        Side::B => Side::A,
    }
}

/// What a run of a relay has written to each side, and how it ended if it did.
pub struct RelayOutcome {
    pub to_a: Seq<u8>,
    pub to_b: Seq<u8>,
    pub stopped: Option<bool>,
}

/// The outcome of feeding `evs` to a relay in order; events after the stop are
/// never looked at.
pub open spec fn relay_run(evs: Seq<RelayEventModel>) -> RelayOutcome
    decreases evs.len(),
{
    if evs.len() == 0 {
        RelayOutcome { to_a: Seq::empty(), to_b: Seq::empty(), stopped: None }
    } else {
        let r = relay_run(evs.drop_last());
        if r.stopped is Some {
            r
        } else {
            match relay_next(evs.last()) {
                RelayActionModel::Write(Side::A, b) => RelayOutcome { to_a: r.to_a + b, ..r },
                RelayActionModel::Write(Side::B, b) => RelayOutcome { to_b: r.to_b + b, ..r },
                RelayActionModel::Skip => r,
                RelayActionModel::Stop(e) => RelayOutcome { stopped: Some(e), ..r },
            }
        }
    }
}

/// The events of side A sending these chunks.
pub open spec fn reads_from_a(chunks: Seq<Seq<u8>>) -> Seq<RelayEventModel> {
    chunks.map_values(|c: Seq<u8>| RelayEventModel::Read(Side::A, c))
}

/// All chunks one after another.
pub open spec fn concat(chunks: Seq<Seq<u8>>) -> Seq<u8>
    decreases chunks.len(),
{
    if chunks.len() == 0 {
        Seq::empty()
    } else {
        concat(chunks.drop_last()) + chunks.last()
    }
}

proof fn lemma_reads_run(chunks: Seq<Seq<u8>>)
    requires
        forall|i: int| 0 <= i < chunks.len() ==> #[trigger] chunks[i].len() > 0,
    ensures
        relay_run(reads_from_a(chunks)) == (RelayOutcome {
            to_a: Seq::empty(),
            to_b: concat(chunks),
            stopped: None,
        }),
    decreases chunks.len(),
{
    if chunks.len() > 0 {
        let pre = chunks.drop_last();
        assert(reads_from_a(chunks).drop_last() =~= reads_from_a(pre));
        assert forall|i: int| 0 <= i < pre.len() implies #[trigger] pre[i].len() > 0 by {
            assert(pre[i] == chunks[i]);
        }
        lemma_reads_run(pre);
        assert(chunks[chunks.len() - 1].len() > 0);
    }
}

/// When side A sends non-empty chunks and then closes while side B sends
/// nothing, the relay writes exactly those bytes, in order, to B, nothing to
/// A, and stops without error on the close.
pub proof fn lemma_one_way_transfer(chunks: Seq<Seq<u8>>)
    requires
        forall|i: int| 0 <= i < chunks.len() ==> #[trigger] chunks[i].len() > 0,
    ensures
        relay_run(reads_from_a(chunks).push(RelayEventModel::Read(Side::A, Seq::empty())))
            == (RelayOutcome { to_a: Seq::empty(), to_b: concat(chunks), stopped: Some(false) }),
{
    lemma_reads_run(chunks);
    let evs = reads_from_a(chunks).push(RelayEventModel::Read(Side::A, Seq::empty()));
    assert(evs.drop_last() =~= reads_from_a(chunks));
}

} // verus!
