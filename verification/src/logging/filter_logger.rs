//! A logger that lets filters decide which records become lines.
//!
//! The logger writes nothing itself: for each record it is shown it returns
//! the lines to write, and the caller writes them.

use vstd::prelude::*;

use crate::text::{push_str, string_from};

verus! {

/// How severe a record is, from `Error`, the most severe, to `Trace`.
#[derive(Debug, Clone, Copy, PartialEq, Eq, Hash, Structural)]
pub enum Level {
    Error,
    Warn,
    Info,
    Debug,
    Trace,
}

impl Level {
    /// The place of the level in the order of severity: 1 for `Error` up to 5
    /// for `Trace`.
    pub open spec fn rank(self) -> int {
        match self {
            Level::Error => 1,
            Level::Warn => 2,
            Level::Info => 3,
            Level::Debug => 4,
            Level::Trace => 5,
        }
    }

    /// The name of the level in capitals, with spaces after it up to five
    /// characters.
    pub open spec fn label(self) -> Seq<char> {
        match self {
            Level::Error => seq!['E', 'R', 'R', 'O', 'R'],
            Level::Warn => seq!['W', 'A', 'R', 'N', ' '],
            Level::Info => seq!['I', 'N', 'F', 'O', ' '],
            Level::Debug => seq!['D', 'E', 'B', 'U', 'G'],
            Level::Trace => seq!['T', 'R', 'A', 'C', 'E'],
        }
    }

    /// The least severe level.
    pub fn max() -> (level: Level)
        ensures
            level == Level::Trace,
    {
        Level::Trace
    }

    pub fn to_rank(&self) -> (rank: u8)
        ensures
            rank == self.rank(),
    {
        match self {
            Level::Error => 1,
            Level::Warn => 2,
            Level::Info => 3,
            Level::Debug => 4,
            Level::Trace => 5,
        }
    }

    /// Appends the label of the level to `out`.
    pub fn write_to(&self, out: &mut Vec<char>)
        ensures
            final(out)@ == old(out)@ + self.label(),
    {
        let label = match self {
            Level::Error => ['E', 'R', 'R', 'O', 'R'],
            Level::Warn => ['W', 'A', 'R', 'N', ' '],
            Level::Info => ['I', 'N', 'F', 'O', ' '],
            Level::Debug => ['D', 'E', 'B', 'U', 'G'],
            Level::Trace => ['T', 'R', 'A', 'C', 'E'],
        };
        assert(label@ == self.label());
        let mut i: usize = 0;
        while i < 5
            invariant
                i <= 5,
                label@.len() == 5,
                out@ == old(out)@ + label@.take(i as int),
            decreases 5 - i,
        {
            out.push(label[i]);
            assert(label@.take(i + 1) == label@.take(i as int).push(label@[i as int]));
            i += 1;
        }
        assert(label@.take(5) == label@);
    }
}

/// What is logged: a message, how severe it is, and where it comes from.
#[derive(Debug, Clone, PartialEq, Eq, Hash)]
pub struct Record {
    pub level: Level,
    pub target: String,
    pub module: Option<String>,
    pub file: Option<String>,
    pub message: String,
}

/// The characters of `text`, where there is a text.
pub open spec fn option_text(text: Option<String>) -> Option<Seq<char>> {
    match text {
        Some(text) => Some(text@),
        None => None,
    }
}

impl Record {
    /// What the line of the record names as its source: the target, or where
    /// that is empty the module, or where there is none a question mark.
    pub open spec fn source(self) -> Seq<char> {
        if self.target@.len() > 0 {
            self.target@
        } else {
            match self.module {
                Some(path) => path@,
                None => seq!['?'],
            }
        }
    }

    /// The line that writes the record: the source in square brackets, the
    /// label of the level, a bar and the message.
    pub open spec fn line(self) -> Seq<char> {
        seq!['['] + self.source() + seq![']', ' '] + self.level.label() + seq![' ', '|', ' ']
            + self.message@
    }
}

/// What a filter says of a record: whether it may become a line, and a record
/// that is to become a line before it.
#[derive(Debug, Clone, PartialEq, Eq, Hash)]
pub struct Verdict {
    pub enabled: bool,
    pub first: Option<Record>,
}

/// Decides which records become lines.
pub trait Filter: Send + Sync {
    fn is_enabled(&mut self, record: &Record) -> Verdict;
}

/// A filter as a logger holds it.
pub struct Slot {
    pub filter: Box<dyn Filter>,
}

fn slot<F: Filter + 'static>(filter: F) -> (slot: Slot)
    ensures
        slot == (Slot { filter: Box::new(filter) }),
{
    Slot { filter: Box::new(filter) }
}

/// A logger that allows filtering records.
pub struct Logger {
    level: Level,
    filters: Vec<Slot>,
}

/// The characters of each of `lines`.
pub open spec fn texts(lines: Seq<String>) -> Seq<Seq<char>> {
    lines.map_values(|line: String| line@)
}

/// The lines of the records that `verdicts` want first, in their order.
pub open spec fn firsts(verdicts: Seq<Verdict>) -> Seq<Seq<char>>
    decreases verdicts.len(),
{
    if verdicts.len() == 0 {
        Seq::empty()
    } else {
        match verdicts.last().first {
            Some(first) => firsts(verdicts.drop_last()).push(first.line()),
            None => firsts(verdicts.drop_last()),
        }
    }
}

/// Whether none of `verdicts` is against the record.
pub open spec fn all_enabled(verdicts: Seq<Verdict>) -> bool {
    forall|i: int| 0 <= i < verdicts.len() ==> (#[trigger] verdicts[i]).enabled
}

/// Whether none of `verdicts` but the last is against the record: the
/// verdicts of filters that were asked until one was against it.
pub open spec fn asked_in_turn(verdicts: Seq<Verdict>) -> bool {
    forall|i: int| 0 <= i < verdicts.len() - 1 ==> (#[trigger] verdicts[i]).enabled
}

/// The lines that a record gives rise to once filters have spoken: the lines
/// of the records they want first and then, unless one is against it, the
/// line of the record itself.
pub open spec fn lines_of(record: Record, verdicts: Seq<Verdict>) -> Seq<Seq<char>> {
    if all_enabled(verdicts) {
        firsts(verdicts).push(record.line())
    } else {
        firsts(verdicts)
    }
}

impl Logger {
    /// The most verbose level that the logger lets through.
    pub closed spec fn level(self) -> Level {
        self.level
    }

    /// The number of filters that the logger asks.
    pub closed spec fn filter_count(self) -> nat {
        self.filters@.len()
    }

    /// Whether the logger lets records of `level` through to its filters.
    pub open spec fn lets_through(self, level: Level) -> bool {
        level.rank() <= self.level().rank()
    }

    /// A logger that lets through what is at least as severe as `level`, with
    /// no filters.
    pub fn new(level: Level) -> (logger: Logger)
        ensures
            logger.level() == level,
            logger.filter_count() == 0,
    {
        Logger { level, filters: Vec::new() }
    }

    /// Adds a filter to the logger, to be asked after those it has.
    pub fn add_filter<F: Filter + 'static>(&mut self, filter: F)
        ensures
            final(self).level() == old(self).level(),
            final(self).filter_count() == old(self).filter_count() + 1,
    {
        let boxed = slot(filter);
        self.filters.push(boxed);
    }

    /// Whether the logger lets records of `level` through to its filters.
    pub fn enabled(&self, level: Level) -> (through: bool)
        ensures
            through == self.lets_through(level),
    {
        level.to_rank() <= self.level.to_rank()
    }

    /// The line that writes `record`.
    pub fn emit(record: &Record) -> (line: String)
        ensures
            line@ == record.line(),
    {
        let mut out: Vec<char> = Vec::new();
        out.push('[');
        if record.target.as_str().is_empty() {
            match &record.module {
                Some(path) => {
                    push_str(&mut out, path.as_str());
                },
                None => {
                    out.push('?');
                },
            }
        } else {
            push_str(&mut out, record.target.as_str());
        }
        assert(out@ == seq!['['] + record.source());
        out.push(']');
        out.push(' ');
        record.level.write_to(&mut out);
        out.push(' ');
        out.push('|');
        out.push(' ');
        push_str(&mut out, record.message.as_str());
        assert(out@ == record.line());
        string_from(&out)
    }

    /// The lines to write for `record` once filters have given `verdicts`.
    pub fn lines(record: &Record, verdicts: &Vec<Verdict>) -> (lines: Vec<String>)
        ensures
            texts(lines@) == lines_of(*record, verdicts@),
    {
        let mut lines: Vec<String> = Vec::new();
        let mut enabled = true;
        let mut i: usize = 0;
        assert(verdicts@.take(0) == Seq::<Verdict>::empty());
        assert(texts(lines@) == firsts(verdicts@.take(0)));
        while i < verdicts.len()
            invariant
                i <= verdicts@.len(),
                texts(lines@) == firsts(verdicts@.take(i as int)),
                enabled == all_enabled(verdicts@.take(i as int)),
            decreases verdicts@.len() - i,
        {
            let ghost before = verdicts@.take(i as int);
            let ghost upto = verdicts@.take(i + 1);
            assert(upto.drop_last() == before);
            assert(upto.last() == verdicts@[i as int]);
            match &verdicts[i].first {
                Some(first) => {
                    let line = Logger::emit(first);
                    let ghost old_lines = lines@;
                    lines.push(line);
                    assert(texts(lines@) == texts(old_lines).push(line@));
                },
                None => {},
            }
            proof {
                if enabled && verdicts@[i as int].enabled {
                    assert forall|k: int| 0 <= k < upto.len() implies (#[trigger] upto[k]).enabled by {
                        if k < i {
                            assert(before[k] == upto[k]);
                        }
                    }
                } else if !enabled {
                    let k = choose|k: int| 0 <= k < before.len() && !(#[trigger] before[k]).enabled;
                    assert(upto[k] == before[k]);
                } else {
                    assert(!upto[i as int].enabled);
                }
            }
            enabled = enabled && verdicts[i].enabled;
            i += 1;
        }
        assert(verdicts@.take(verdicts@.len() as int) == verdicts@);
        if enabled {
            let line = Logger::emit(record);
            let ghost old_lines = lines@;
            lines.push(line);
            assert(texts(lines@) == texts(old_lines).push(line@));
        }
        lines
    }

    /// The lines to write for `record`: none, with no filter asked, where the
    /// logger does not let its level through; else what [`Logger::lines`]
    /// makes of the verdicts of the filters, asked in their order up to the
    /// first that is against the record.
    pub fn log(&mut self, record: &Record) -> (lines: Vec<String>)
        ensures
            final(self).level() == old(self).level(),
            final(self).filter_count() == old(self).filter_count(),
            !old(self).lets_through(record.level) ==> lines@.len() == 0 && *final(self) == *old(self),
            old(self).lets_through(record.level) ==> exists|verdicts: Seq<Verdict>|
                #![auto]
                verdicts.len() <= old(self).filter_count() && asked_in_turn(verdicts)
                    && (all_enabled(verdicts) ==> verdicts.len() == old(self).filter_count())
                    && texts(lines@) == lines_of(*record, verdicts),
    {
        if !self.enabled(record.level) {
            return Vec::new();
        }
        let mut verdicts: Vec<Verdict> = Vec::new();
        let count = self.filters.len();
        let mut i: usize = 0;
        let mut enabled = true;
        while enabled && i < count
            invariant
                count == self.filters@.len(),
                self.level == old(self).level,
                count == old(self).filters@.len(),
                i <= count,
                verdicts@.len() == i,
                asked_in_turn(verdicts@),
                enabled == all_enabled(verdicts@),
            decreases count - i,
        {
            let verdict = self.filters[i].filter.is_enabled(record);
            enabled = verdict.enabled;
            let ghost before = verdicts@;
            verdicts.push(verdict);
            proof {
                assert forall|k: int| 0 <= k < verdicts@.len() - 1 implies (
                #[trigger] verdicts@[k]).enabled by {
                    assert(before[k] == verdicts@[k]);
                }
                if !enabled {
                    assert(!verdicts@[i as int].enabled);
                }
            }
            i += 1;
        }
        let lines = Logger::lines(record, &verdicts);
        proof {
            let witness = verdicts@;
            assert(witness.len() <= old(self).filter_count() && asked_in_turn(witness) && (
            all_enabled(witness) ==> witness.len() == old(self).filter_count()) && texts(lines@)
                == lines_of(*record, witness));
        }
        lines
    }
}

} // verus!
