//! Logging that keeps a repeated record from flooding the log.
//!
//! A record that repeats the one before it is held back and counted. The
//! count is reported, as one record, when another record arrives or when a
//! batch of repetitions is full.

pub mod filter_logger;

use vstd::prelude::*;

use crate::logging::filter_logger::{option_text, Filter, Level, Logger, Record, Verdict};
use crate::text::{decimal, push_decimal, push_str, same_text, string_from};

verus! {

/// Where a record comes from and how severe it is, as a mathematical value.
pub struct Origin {
    pub level: Level,
    pub module: Option<Seq<char>>,
    pub file: Option<Seq<char>>,
}

/// A record as far as repetition goes, as a mathematical value.
pub struct Saved {
    pub origin: Origin,
    pub message: Seq<char>,
}

/// What a filter remembers, as a mathematical value: the record it saw last
/// and how often that record has been held back since.
pub struct Seen {
    pub previous: Saved,
    pub repetitions: nat,
}

/// What a visit decides, as a mathematical value.
pub enum Outcome {
    Enable,
    Disable,
    Previous { record: Saved, repetitions: nat },
}

/// What `record` is as far as repetition goes.
pub open spec fn saved_of(record: Record) -> Saved {
    Saved {
        origin: Origin {
            level: record.level,
            module: option_text(record.module),
            file: option_text(record.file),
        },
        message: record.message@,
    }
}

/// What a filter that remembers `state` decides of `record`, and what it
/// remembers afterwards. A record that repeats the last is held back and
/// counted, until `batch_size` repetitions are held back: then the count is
/// reported and the record let through. A record that differs from the last
/// is let through, after a report of the repetitions held back, if any.
pub open spec fn visited(state: Seen, record: Saved, batch_size: nat) -> (Seen, Outcome) {
    if state.previous == record && state.repetitions < batch_size {
        (Seen { previous: record, repetitions: state.repetitions + 1 }, Outcome::Disable)
    } else if state.previous != record && state.repetitions == 0 {
        (Seen { previous: record, repetitions: 0 }, Outcome::Enable)
    } else {
        (
            Seen { previous: record, repetitions: 0 },
            Outcome::Previous { record: state.previous, repetitions: state.repetitions },
        )
    }
}

/// The message of a report: the message that was repeated, and in
/// parentheses how often, with an `x`.
pub open spec fn report_text(message: Seq<char>, repetitions: nat) -> Seq<char> {
    message + seq![' ', '('] + decimal(repetitions) + seq!['x', ')']
}

fn clone_text(text: &Option<String>) -> (copy: Option<String>)
    ensures
        option_text(copy) == option_text(*text),
{
    match text {
        Some(text) => Some(text.clone()),
        None => None,
    }
}

fn same_option_text(a: &Option<String>, b: &Option<String>) -> (same: bool)
    ensures
        same == (option_text(*a) == option_text(*b)),
{
    match (a, b) {
        (Some(a), Some(b)) => same_text(a.as_str(), b.as_str()),
        (None, None) => true,
        _ => false,
    }
}

/// Where a record comes from and how severe it is.
#[derive(Debug, Clone, PartialEq, Eq, Hash)]
pub struct Metadata {
    pub level: Level,
    pub module: Option<String>,
    pub file: Option<String>,
}

impl View for Metadata {
    type V = Origin;

    open spec fn view(&self) -> Origin {
        Origin {
            level: self.level,
            module: option_text(self.module),
            file: option_text(self.file),
        }
    }
}

impl Metadata {
    /// Whether `other` comes from the same place with the same severity.
    pub fn matches(&self, other: &Record) -> (same: bool)
        ensures
            same == (self@ == saved_of(*other).origin),
    {
        self.level == other.level && same_option_text(&self.module, &other.module)
            && same_option_text(&self.file, &other.file)
    }

    /// Takes over where `from` comes from and how severe it is.
    pub fn update(&mut self, from: &Record)
        ensures
            final(self)@ == saved_of(*from).origin,
    {
        self.level = from.level;
        self.module = clone_text(&from.module);
        self.file = clone_text(&from.file);
    }
}

impl Default for Metadata {
    fn default() -> (metadata: Metadata)
        ensures
            metadata@ == (Origin { level: Level::Trace, module: None, file: None }),
    {
        Metadata { level: Level::max(), module: None, file: None }
    }
}

/// A record as far as repetition goes.
#[derive(Debug, Clone, PartialEq, Eq, Hash)]
pub struct SavedRecord {
    pub metadata: Metadata,
    pub message: String,
}

impl View for SavedRecord {
    type V = Saved;

    open spec fn view(&self) -> Saved {
        Saved { origin: self.metadata@, message: self.message@ }
    }
}

impl SavedRecord {
    /// Whether `other` repeats this record. If it does not, this record
    /// becomes `other`, and what it was before is returned.
    pub fn match_update(&mut self, other: &Record) -> (old_record: Option<SavedRecord>)
        ensures
            match old_record {
                None => old(self)@ == saved_of(*other) && final(self)@ == old(self)@,
                Some(record) => old(self)@ != saved_of(*other) && record@ == old(self)@ && final(self)@ == saved_of(*other),
            },
    {
        if self.metadata.matches(other) && same_text(self.message.as_str(), other.message.as_str()) {
            None
        } else {
            let mut record = SavedRecord::default();
            record.update(other);
            std::mem::swap(self, &mut record);
            Some(record)
        }
    }

    /// Makes this record `record`.
    pub fn update(&mut self, record: &Record)
        ensures
            final(self)@ == saved_of(*record),
    {
        self.message = record.message.clone();
        self.metadata.update(record);
    }
}

impl Default for SavedRecord {
    fn default() -> (record: SavedRecord)
        ensures
            record@ == (Saved {
                origin: Origin { level: Level::Trace, module: None, file: None },
                message: Seq::<char>::empty(),
            }),
    {
        SavedRecord { metadata: Metadata::default(), message: String::new() }
    }
}

/// What a visit decides: to let the record through, to hold it back, or to
/// let it through after a report on the record before it.
#[derive(Debug, Clone, PartialEq, Eq, Hash)]
pub enum VisitResult {
    Enable,
    Disable,
    Previous { record: SavedRecord, repetitions: usize },
}

impl View for VisitResult {
    type V = Outcome;

    open spec fn view(&self) -> Outcome {
        match self {
            VisitResult::Enable => Outcome::Enable,
            VisitResult::Disable => Outcome::Disable,
            VisitResult::Previous { record, repetitions } => Outcome::Previous {
                record: record@,
                repetitions: *repetitions as nat,
            },
        }
    }
}

/// What a filter remembers.
#[derive(Debug, Clone, PartialEq, Eq, Hash)]
pub struct RecordData {
    pub previous_record: SavedRecord,
    pub repetition_count: usize,
}

impl View for RecordData {
    type V = Seen;

    open spec fn view(&self) -> Seen {
        Seen { previous: self.previous_record@, repetitions: self.repetition_count as nat }
    }
}

impl Default for RecordData {
    fn default() -> (data: RecordData)
        ensures
            data@ == (Seen {
                previous: Saved {
                    origin: Origin { level: Level::Trace, module: None, file: None },
                    message: Seq::<char>::empty(),
                },
                repetitions: 0,
            }),
    {
        RecordData { previous_record: SavedRecord::default(), repetition_count: 0 }
    }
}

impl RecordData {
    /// Decides of `record`, and remembers it.
    pub fn visit(&mut self, record: &Record, batch_size: usize) -> (result: VisitResult)
        ensures
            (final(self)@, result@) == visited(old(self)@, saved_of(*record), batch_size as nat),
    {
        match self.previous_record.match_update(record) {
            None => {
                if self.repetition_count >= batch_size {
                    let mut previous = SavedRecord::default();
                    previous.update(record);
                    std::mem::swap(&mut self.previous_record, &mut previous);
                    let repetitions = self.repetition_count;
                    self.repetition_count = 0;
                    VisitResult::Previous { record: previous, repetitions }
                } else {
                    self.repetition_count += 1;
                    VisitResult::Disable
                }
            },
            Some(previous) => {
                if self.repetition_count == 0 {
                    VisitResult::Enable
                } else {
                    let repetitions = self.repetition_count;
                    self.repetition_count = 0;
                    VisitResult::Previous { record: previous, repetitions }
                }
            },
        }
    }
}

/// A filter that holds back a record that repeats the one before it.
pub struct SpamFilter {
    record_data: RecordData,
    batch_size: usize,
}

impl SpamFilter {
    /// What the filter remembers.
    pub closed spec fn seen(self) -> Seen {
        self.record_data@
    }

    /// How many repetitions the filter holds back before it reports them.
    pub closed spec fn batch_size(self) -> nat {
        self.batch_size as nat
    }

    /// A filter that has seen nothing yet: what it remembers is a record of
    /// the least severe level, from nowhere, with an empty message, never
    /// held back.
    pub fn new(batch_size: usize) -> (filter: SpamFilter)
        ensures
            filter.batch_size() == batch_size,
            filter.seen() == (Seen {
                previous: Saved {
                    origin: Origin { level: Level::Trace, module: None, file: None },
                    message: Seq::<char>::empty(),
                },
                repetitions: 0,
            }),
    {
        SpamFilter { record_data: RecordData::default(), batch_size }
    }

    /// The record that reports that `record` was held back `repetitions`
    /// times: it comes from where `record` came from, with its module, or a
    /// question mark where it has none, as target.
    pub fn report(record: SavedRecord, repetitions: usize) -> (report: Record)
        ensures
            saved_of(report).origin == record@.origin,
            report.target@ == (match record@.origin.module {
                Some(module) => module,
                None => seq!['?'],
            }),
            report.message@ == report_text(record@.message, repetitions as nat),
    {
        let mut message: Vec<char> = Vec::new();
        push_str(&mut message, record.message.as_str());
        message.push(' ');
        message.push('(');
        push_decimal(&mut message, repetitions as u64);
        message.push('x');
        message.push(')');
        assert(message@ == report_text(record@.message, repetitions as nat));
        let mut target: Vec<char> = Vec::new();
        match &record.metadata.module {
            Some(module) => {
                push_str(&mut target, module.as_str());
            },
            None => {
                target.push('?');
            },
        }
        Record {
            level: record.metadata.level,
            target: string_from(&target),
            module: record.metadata.module,
            file: record.metadata.file,
            message: string_from(&message),
        }
    }

    /// Decides of `record`, and remembers it: the verdict is for the record
    /// unless it is held back, and wants the report first where there is one.
    pub fn check(&mut self, record: &Record) -> (verdict: Verdict)
        ensures
            final(self).batch_size() == old(self).batch_size(),
            final(self).seen() == visited(
                old(self).seen(),
                saved_of(*record),
                old(self).batch_size(),
            ).0,
            match visited(old(self).seen(), saved_of(*record), old(self).batch_size()).1 {
                Outcome::Enable => verdict.enabled && verdict.first is None,
                Outcome::Disable => !verdict.enabled && verdict.first is None,
                Outcome::Previous { record: previous, repetitions } => {
                    &&& verdict.enabled
                    &&& verdict.first matches Some(report)
                    &&& reports(report, previous, repetitions)
                },
            },
    {
        match self.record_data.visit(record, self.batch_size) {
            VisitResult::Enable => Verdict { enabled: true, first: None },
            VisitResult::Disable => Verdict { enabled: false, first: None },
            VisitResult::Previous { record, repetitions } => Verdict {
                enabled: true,
                first: Some(SpamFilter::report(record, repetitions)),
            },
        }
    }
}

impl Filter for SpamFilter {
    /// Decides of `record`, and remembers it, as [`SpamFilter::check`] does.
    fn is_enabled(&mut self, record: &Record) -> (verdict: Verdict)
        ensures
            final(self).batch_size() == old(self).batch_size(),
            final(self).seen() == visited(
                old(self).seen(),
                saved_of(*record),
                old(self).batch_size(),
            ).0,
            match visited(old(self).seen(), saved_of(*record), old(self).batch_size()).1 {
                Outcome::Enable => verdict.enabled && verdict.first is None,
                Outcome::Disable => !verdict.enabled && verdict.first is None,
                Outcome::Previous { record: previous, repetitions } => {
                    &&& verdict.enabled
                    &&& verdict.first matches Some(report)
                    &&& reports(report, previous, repetitions)
                },
            },
    {
        self.check(record)
    }
}

/// Whether `report` is the record that reports that `previous` was held back
/// `repetitions` times: it comes from where `previous` came from, with its
/// module, or a question mark where it has none, as target, and its message
/// is that of `previous` with the count after it.
pub open spec fn reports(report: Record, previous: Saved, repetitions: nat) -> bool {
    &&& saved_of(report).origin == previous.origin
    &&& report.target@ == (match previous.origin.module {
        Some(module) => module,
        None => seq!['?'],
    })
    &&& report.message@ == report_text(previous.message, repetitions)
}

/// A logger that lets through what is at least as severe as `Info`, with a
/// filter against repetition that reports after `batch_size` repetitions.
pub fn setup(batch_size: usize) -> (logger: Logger)
    ensures
        logger.level() == Level::Info,
        logger.filter_count() == 1,
{
    let mut logger = Logger::new(Level::Info);
    logger.add_filter(SpamFilter::new(batch_size));
    logger
}

} // verus!
