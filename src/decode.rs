//! Layered decoding of a link-layer frame into diagnostic log records.
//!
//! The slicing into layers is etherparse's; what is reported for each
//! outcome is decided here.

use vstd::prelude::*;
use etherparse::{SlicedPacket, TransportSlice};
use crate::report::{Level, LogRecord, RecordModel, Topic, new_record, record, records_model};

verus! {

/// The length of an Ethernet II header: two addresses and the ether type.
pub const ETHERNET_HEADER_LEN: usize = 14;

/// The transport header found in a frame.
#[derive(Clone, Debug)]
pub enum TransportHeader {
    /// A TCP header; holds the bytes of its options.
    Tcp(Vec<u8>),
    /// A UDP header; holds its eight header bytes.
    Udp(Vec<u8>),
    /// A protocol other than TCP and UDP; holds the IP protocol number.
    Unknown(u8),
}

/// What `TransportHeader` holds, as mathematical values.
pub enum TransportModel {
    Tcp(Seq<u8>),
    Udp(Seq<u8>),
    Unknown(u8),
}

impl View for TransportHeader {
    type V = TransportModel;

    open spec fn view(&self) -> TransportModel {
        match self {
            TransportHeader::Tcp(o) => TransportModel::Tcp(o@),
            TransportHeader::Udp(h) => TransportModel::Udp(h@),
            TransportHeader::Unknown(p) => TransportModel::Unknown(*p),
        }
    }
}

/// The layers of a frame that could be sliced: a text rendering of each
/// header layer, the transport header if one was found, and the bytes that
/// follow the innermost recognised layer.
#[derive(Clone, Debug)]
pub struct FrameLayers {
    pub link_text: String,
    pub vlan_text: String,
    pub ip_text: String,
    pub transport_text: String,
    pub transport: Option<TransportHeader>,
    pub payload: Vec<u8>,
}

/// What `FrameLayers` holds, as mathematical values.
pub struct LayersModel {
    pub link_text: Seq<char>,
    pub vlan_text: Seq<char>,
    pub ip_text: Seq<char>,
    pub transport_text: Seq<char>,
    pub transport: Option<TransportModel>,
    pub payload: Seq<u8>,
}

impl View for FrameLayers {
    type V = LayersModel;

    open spec fn view(&self) -> LayersModel {
        LayersModel {
            link_text: self.link_text@,
            vlan_text: self.vlan_text@,
            ip_text: self.ip_text@,
            transport_text: self.transport_text@,
            transport: match self.transport {
                Some(t) => Some(t@),
                None => None,
            },
            payload: self.payload@,
        }
    }
}

/// A frame whose link-layer envelope could not be parsed, with a text
/// rendering of the reason.
#[derive(Clone, Debug)]
pub struct DecodeFailure {
    pub reason: String,
}

/// The outcome of slicing, as mathematical values.
pub open spec fn outcome_model(r: Result<FrameLayers, DecodeFailure>) -> Result<LayersModel, Seq<char>> {
    match r {
        Ok(l) => Ok(l@),
        Err(e) => Err(e.reason@),
    }
}

/// What etherparse's Ethernet slicer makes of a frame.
pub uninterp spec fn sliced_ethernet(frame: Seq<u8>) -> Result<LayersModel, Seq<char>>;

/// Relies on `etherparse::SlicedPacket::from_ethernet`: its outcome depends on
/// the bytes alone, and a frame shorter than an Ethernet II header is
/// refused. The header slices are rendered with their `Debug` impls; the TCP
/// options and the UDP header bytes are read with `TcpHeaderSlice::options`
/// and `UdpHeaderSlice::slice`.
#[verifier::external_body]
fn slice_ethernet(frame: &[u8]) -> (r: Result<FrameLayers, DecodeFailure>)
    ensures
        outcome_model(r) == sliced_ethernet(frame@),
        frame@.len() < ETHERNET_HEADER_LEN ==> r is Err,
{
    match SlicedPacket::from_ethernet(frame) {
        Err(e) => Err(DecodeFailure { reason: format!("{:?}", e) }),
        Ok(p) => Ok(FrameLayers {
            link_text: format!("{:?}", p.link), vlan_text: format!("{:?}", p.vlan),
            ip_text: format!("{:?}", p.ip), transport_text: format!("{:?}", p.transport),
            transport: p.transport.map(|t| match t {
                TransportSlice::Tcp(h) => TransportHeader::Tcp(h.options().to_vec()),
                TransportSlice::Udp(h) => TransportHeader::Udp(h.slice().to_vec()),
                TransportSlice::Unknown(n) => TransportHeader::Unknown(n),
            }),
            payload: p.payload.to_vec(),
        }),
    }
}

/// What `String::from_utf8_lossy` makes of a byte sequence.
pub uninterp spec fn lossy_text(bytes: Seq<u8>) -> Seq<char>;

/// Relies on `String::from_utf8_lossy`: the text depends on the bytes alone,
/// and no bytes give no text.
#[verifier::external_body]
fn text_of(bytes: &[u8]) -> (r: String)
    ensures
        r@ == lossy_text(bytes@),
        bytes@.len() == 0 ==> r@.len() == 0,
{
    String::from_utf8_lossy(bytes).into_owned()
}

} // verus!

verus! {

/// The informational records for the layers of a sliced frame.
pub open spec fn layer_records(l: LayersModel) -> Seq<RecordModel> {
    seq![
        record(Level::Info, Topic::Link, l.link_text),
        record(Level::Info, Topic::Vlan, l.vlan_text),
        record(Level::Info, Topic::Ip, l.ip_text),
        record(Level::Info, Topic::Transport, l.transport_text),
        record(Level::Info, Topic::Payload, lossy_text(l.payload)),
    ]
}

/// The record for the transport layer: the TCP options or the UDP header as
/// text, or an error when there is no TCP or UDP layer.
pub open spec fn transport_record(t: Option<TransportModel>) -> RecordModel {
    match t {
        Some(TransportModel::Tcp(o)) => record(Level::Info, Topic::TcpHeader, lossy_text(o)),
        Some(TransportModel::Udp(h)) => record(Level::Info, Topic::UdpHeader, lossy_text(h)),
        _ => record(Level::Error, Topic::NoTransport, Seq::empty()),
    }
}

/// The records for one outcome of slicing: a single error when the link layer
/// could not be parsed; otherwise one record per layer, then the transport
/// record.
pub open spec fn report_of(outcome: Result<LayersModel, Seq<char>>) -> Seq<RecordModel> {
    match outcome {
        Err(reason) => seq![record(Level::Error, Topic::UnpackFailure, reason)],
        Ok(l) => layer_records(l).push(transport_record(l.transport)),
    }
}

/// Builds the records for an outcome of slicing.
pub fn frame_report(outcome: &Result<FrameLayers, DecodeFailure>) -> (r: Vec<LogRecord>)
    ensures
        records_model(r@) == report_of(outcome_model(*outcome)),
{
    let mut r: Vec<LogRecord> = Vec::new();
    match outcome {
        Err(e) => {
            r.push(new_record(Level::Error, Topic::UnpackFailure, e.reason.clone()));
        },
        Ok(l) => {
            r.push(new_record(Level::Info, Topic::Link, l.link_text.clone()));
            r.push(new_record(Level::Info, Topic::Vlan, l.vlan_text.clone()));
            r.push(new_record(Level::Info, Topic::Ip, l.ip_text.clone()));
            r.push(new_record(Level::Info, Topic::Transport, l.transport_text.clone()));
            r.push(new_record(Level::Info, Topic::Payload, text_of(l.payload.as_slice())));
            let last = match &l.transport {
                Some(TransportHeader::Tcp(o)) => new_record(
                    Level::Info,
                    Topic::TcpHeader,
                    text_of(o.as_slice()),
                ),
                Some(TransportHeader::Udp(h)) => new_record(
                    Level::Info,
                    Topic::UdpHeader,
                    text_of(h.as_slice()),
                ),
                _ => new_record(Level::Error, Topic::NoTransport, String::new()),
            };
            r.push(last);
        },
    }
    assert(records_model(r@) =~= report_of(outcome_model(*outcome)));
    r
}

/// Decodes a frame and builds its records. Any byte sequence is accepted.
pub fn inspect_frame(frame: &[u8]) -> (r: Vec<LogRecord>)
    ensures
        records_model(r@) == report_of(sliced_ethernet(frame@)),
        frame@.len() < ETHERNET_HEADER_LEN ==> r@.len() == 1 && r@[0].level == Level::Error
            && r@[0].topic == Topic::UnpackFailure,
{
    let outcome = slice_ethernet(frame);
    let r = frame_report(&outcome);
    proof {
        if frame@.len() < ETHERNET_HEADER_LEN {
            assert(outcome is Err);
            assert(records_model(r@).len() == 1);
            assert(r@.len() == 1);
            assert(records_model(r@)[0] == r@[0]@);
        }
    }
    r
}

} // verus!

verus! {

/// Some record in `r` is about `topic`.
pub open spec fn has_topic(r: Seq<RecordModel>, topic: Topic) -> bool {
    exists|i: int| 0 <= i < r.len() && r[i].topic == topic
}

/// The transport layer is TCP.
pub open spec fn is_tcp(t: Option<TransportModel>) -> bool {
    t matches Some(TransportModel::Tcp(_))
}

/// The transport layer is UDP.
pub open spec fn is_udp(t: Option<TransportModel>) -> bool {
    t matches Some(TransportModel::Udp(_))
}

/// Decoding is total and every outcome is classified: for any bytes at all,
/// the report is either one unpack-failure error, or the five informational
/// layer records followed by exactly one transport verdict (TCP, UDP, or no
/// transport).
pub proof fn lemma_decode_classified(frame: Seq<u8>)
    ensures
        ({
            let r = report_of(sliced_ethernet(frame));
            ||| r.len() == 1 && r[0].level == Level::Error && r[0].topic == Topic::UnpackFailure
            ||| r.len() == 6 && r[0].topic == Topic::Link && r[1].topic == Topic::Vlan
                && r[2].topic == Topic::Ip && r[3].topic == Topic::Transport
                && r[4].topic == Topic::Payload && (forall|i: int|
                0 <= i < 5 ==> r[i].level == Level::Info) && (r[5].topic == Topic::TcpHeader
                || r[5].topic == Topic::UdpHeader || r[5].topic == Topic::NoTransport)
        }),
{
}

/// Transport classification: a TCP layer is reported as TCP and never as
/// UDP, a UDP layer as UDP and never as TCP, and any other transport
/// protocol, or none, is reported as missing with no TCP or UDP record.
pub proof fn lemma_transport_classification(frame: Seq<u8>)
    requires
        sliced_ethernet(frame) is Ok,
    ensures
        ({
            let t = sliced_ethernet(frame)->Ok_0.transport;
            let r = report_of(sliced_ethernet(frame));
            &&& has_topic(r, Topic::TcpHeader) <==> is_tcp(t)
            &&& has_topic(r, Topic::UdpHeader) <==> is_udp(t)
            &&& has_topic(r, Topic::NoTransport) <==> !is_tcp(t) && !is_udp(t)
            &&& has_topic(r, Topic::Ip)
        }),
{
    let l = sliced_ethernet(frame)->Ok_0;
    let r = report_of(sliced_ethernet(frame));
    assert(r[2].topic == Topic::Ip);
    assert(r[5] == transport_record(l.transport));
    assert(forall|i: int| 0 <= i < 5 ==> r[i] == layer_records(l)[i]);
}

} // verus!
