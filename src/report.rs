//! Log records: what the capture loop asks its logger to write.

use vstd::prelude::*;

verus! {

/// The severity of a record.
#[derive(Clone, Copy, Debug, PartialEq, Eq)]
pub enum Level {
    Info,
    Error,
}

/// What a record is about.
#[derive(Clone, Copy, Debug, PartialEq, Eq)]
pub enum Topic {
    /// The link-layer header.
    Link,
    /// The VLAN tags.
    Vlan,
    /// The IP header.
    Ip,
    /// The transport header, as a whole.
    Transport,
    /// The payload, as text.
    Payload,
    /// The options of a TCP header, as text.
    TcpHeader,
    /// The bytes of a UDP header, as text.
    UdpHeader,
    /// A frame whose link layer could not be parsed.
    UnpackFailure,
    /// A frame with no TCP or UDP transport layer.
    NoTransport,
    /// A receive that failed.
    ReadFailure,
}

/// One record for the logger.
#[derive(Clone, Debug)]
pub struct LogRecord {
    pub level: Level,
    pub topic: Topic,
    pub detail: String,
}

/// What a `LogRecord` holds, as mathematical values.
pub struct RecordModel {
    pub level: Level,
    pub topic: Topic,
    pub detail: Seq<char>,
}

impl View for LogRecord {
    type V = RecordModel;

    open spec fn view(&self) -> RecordModel {
        RecordModel { level: self.level, topic: self.topic, detail: self.detail@ }
    }
}

/// The record of the given level and topic with the given detail.
pub open spec fn record(level: Level, topic: Topic, detail: Seq<char>) -> RecordModel {
    RecordModel { level, topic, detail }
}

/// A list of records, as mathematical values.
pub open spec fn records_model(v: Seq<LogRecord>) -> Seq<RecordModel> {
    v.map_values(|r: LogRecord| r@)
}

/// Makes a record.
pub fn new_record(level: Level, topic: Topic, detail: String) -> (r: LogRecord)
    ensures
        r@ == record(level, topic, detail@),
{
    LogRecord { level, topic, detail }
}

} // verus!
