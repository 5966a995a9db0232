//! Log records and the bounded sink that collects them.

use vstd::prelude::*;

verus! {

/// Severity of a log record.
#[derive(Debug, Clone, Copy, PartialEq, Eq, Structural)]
pub enum LogLevel {
    Error,
    Warn,
    Info,
    Debug,
}

/// The part of the system that a log record speaks of.
#[derive(Debug, Clone, Copy, PartialEq, Eq, Structural)]
pub enum LogCategory {
    Device,
    Transport,
}

/// One log message.
#[derive(Debug)]
pub struct LogRecord {
    pub level: LogLevel,
    pub category: LogCategory,
    pub message: String,
}

/// A log record, seen through its message text.
pub ghost struct LogRecordView {
    pub level: LogLevel,
    pub category: LogCategory,
    pub message: Seq<char>,
}

impl View for LogRecord {
    type V = LogRecordView;

    open spec fn view(&self) -> LogRecordView {
        LogRecordView { level: self.level, category: self.category, message: self.message@ }
    }
}

/// A bounded sink of log records. A record that finds the sink full is dropped, so logging never
/// blocks the device that does it. The default sink has no room at all and drops everything.
pub struct LogSender {
    pub capacity: usize,
    pub records: Vec<LogRecord>,
}

/// The records that a sink holds, seen through their views.
pub open spec fn record_views(records: Seq<LogRecord>) -> Seq<LogRecordView> {
    records.map_values(|r: LogRecord| r@)
}

/// What a sink of the given capacity holds after it was offered `record`.
pub open spec fn after_log(
    records: Seq<LogRecordView>,
    capacity: nat,
    record: LogRecordView,
) -> Seq<LogRecordView> {
    if records.len() < capacity {
        records.push(record)
    } else {
        records
    }
}

impl View for LogSender {
    type V = Seq<LogRecordView>;

    open spec fn view(&self) -> Seq<LogRecordView> {
        record_views(self.records@)
    }
}

impl LogSender {
    /// A sink with room for `capacity` records.
    pub fn with_capacity(capacity: usize) -> (s: Self)
        ensures
            s.capacity == capacity,
            s@ == Seq::<LogRecordView>::empty(),
    {
        let s = LogSender { capacity, records: Vec::new() };
        assert(s@ =~= Seq::<LogRecordView>::empty());
        s
    }

    /// Offers `record` to the sink.
    pub fn log(&mut self, record: LogRecord)
        ensures
            final(self).capacity == old(self).capacity,
            final(self)@ == after_log(old(self)@, old(self).capacity as nat, record@),
    {
        if self.records.len() < self.capacity {
            self.records.push(record);
            assert(self@ =~= old(self)@.push(record@));
        }
    }
}

impl Default for LogSender {
    fn default() -> (s: Self)
        ensures
            s.capacity == 0,
            s@ == Seq::<LogRecordView>::empty(),
    {
        LogSender::with_capacity(0)
    }
}

/// A sink keeps what it holds; a new record comes last while there is room, and is dropped otherwise.
pub proof fn full_sink_drops(records: Seq<LogRecordView>, capacity: nat, record: LogRecordView)
    ensures
        ({
            let after = after_log(records, capacity, record);
            &&& records.len() < capacity ==> after.len() == records.len() + 1 && after.last()
                == record && after.drop_last() == records
            &&& records.len() >= capacity ==> after == records
        }),
{
    if records.len() < capacity {
        assert(after_log(records, capacity, record).drop_last() =~= records);
    }
}

} // verus!
