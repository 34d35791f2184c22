//! The decisions of one capture-loop iteration: what to replay and what to
//! log for each outcome of a receive.
//!
//! Receiving and sending are left to the caller, which runs the loop: it
//! hands each outcome of a receive to `plan_for_frame` or
//! `plan_for_receive_error`, writes the records, and sends the outbound
//! frame if there is one.

use vstd::prelude::*;
use vstd::slice::slice_to_vec;
use pnet::packet::ethernet::EthernetPacket;
use crate::decode::{ETHERNET_HEADER_LEN, inspect_frame, report_of, sliced_ethernet};
use crate::report::{Level, LogRecord, RecordModel, Topic, new_record, record, records_model};

verus! {

/// Relies on pnet's `EthernetPacket::new`: it gives a packet exactly when the
/// buffer holds at least an Ethernet header (its minimum packet size).
#[verifier::external_body]
fn holds_ethernet_header(frame: &[u8]) -> (r: bool)
    ensures
        r == (frame@.len() >= ETHERNET_HEADER_LEN),
{
    EthernetPacket::new(frame).is_some()
}

/// What one loop iteration does: the frame to send back out, if any, and the
/// records to log, in order.
#[derive(Clone, Debug)]
pub struct IterationPlan {
    pub outbound: Option<Vec<u8>>,
    pub records: Vec<LogRecord>,
}

/// What an `IterationPlan` holds, as mathematical values.
pub struct PlanModel {
    pub outbound: Option<Seq<u8>>,
    pub records: Seq<RecordModel>,
}

impl View for IterationPlan {
    type V = PlanModel;

    open spec fn view(&self) -> PlanModel {
        PlanModel {
            outbound: match self.outbound {
                Some(v) => Some(v@),
                None => None,
            },
            records: records_model(self.records@),
        }
    }
}

/// The outcome of one receive.
pub enum ReceiveModel {
    /// A frame with these bytes arrived.
    Frame(Seq<u8>),
    /// The receive failed with this message.
    Failed(Seq<char>),
}

/// The plan for one outcome of a receive. A frame that holds an Ethernet
/// header is replayed byte for byte, whatever its decoding gives; a shorter
/// one is not sent. Each frame is decoded and reported; a failed receive
/// gives one error record and nothing else.
pub open spec fn plan_of(event: ReceiveModel) -> PlanModel {
    match event {
        ReceiveModel::Frame(f) => PlanModel {
            outbound: if f.len() >= ETHERNET_HEADER_LEN {
                Some(f)
            } else {
                None
            },
            records: report_of(sliced_ethernet(f)),
        },
        ReceiveModel::Failed(m) => PlanModel {
            outbound: None,
            records: seq![record(Level::Error, Topic::ReadFailure, m)],
        },
    }
}

/// The plans for a run of receive outcomes, one per outcome.
pub open spec fn plans_of(events: Seq<ReceiveModel>) -> Seq<PlanModel> {
    events.map_values(|e: ReceiveModel| plan_of(e))
}

/// Plans the iteration for a received frame.
pub fn plan_for_frame(frame: &[u8]) -> (r: IterationPlan)
    ensures
        r@ == plan_of(ReceiveModel::Frame(frame@)),
{
    let records = inspect_frame(frame);
    let outbound = if holds_ethernet_header(frame) {
        Some(slice_to_vec(frame))
    } else {
        None
    };
    IterationPlan { outbound, records }
}

/// Plans the iteration for a failed receive.
pub fn plan_for_receive_error(message: &str) -> (r: IterationPlan)
    ensures
        r@ == plan_of(ReceiveModel::Failed(message@)),
{
    let mut records: Vec<LogRecord> = Vec::new();
    records.push(new_record(Level::Error, Topic::ReadFailure, message.to_owned()));
    assert(records_model(records@) =~= seq![record(Level::Error, Topic::ReadFailure, message@)]);
    IterationPlan { outbound: None, records }
}

/// Replay is faithful: a frame that holds an Ethernet header is sent back
/// out exactly as received, whatever its decoding gives.
pub proof fn lemma_replay_is_faithful(frame: Seq<u8>)
    requires
        frame.len() >= ETHERNET_HEADER_LEN,
    ensures
        plan_of(ReceiveModel::Frame(frame)).outbound == Some(frame),
{
}

/// A failed receive is logged once and leaves no trace: it sends nothing,
/// and the frame received after it is planned exactly as it would be with
/// no failure before it.
pub proof fn lemma_receive_failure_recovers(message: Seq<char>, frame: Seq<u8>)
    ensures
        ({
            let p = plans_of(seq![ReceiveModel::Failed(message), ReceiveModel::Frame(frame)]);
            &&& p.len() == 2
            &&& p[0].outbound is None
            &&& p[0].records == seq![record(Level::Error, Topic::ReadFailure, message)]
            &&& p[1] == plans_of(seq![ReceiveModel::Frame(frame)])[0]
        }),
{
    let e = seq![ReceiveModel::Failed(message), ReceiveModel::Frame(frame)];
    assert(e[1] == seq![ReceiveModel::Frame(frame)][0]);
}

} // verus!
