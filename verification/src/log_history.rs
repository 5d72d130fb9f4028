//! The in-memory log shown by the `:log` command: the latest lines, oldest first, at most
//! `LOG_CAPACITY` of them.

use std::collections::VecDeque;
use std::time::Instant;

use log::Level;
use vstd::prelude::*;

use crate::clock::now;

verus! {

#[verifier::external_type_specification]
#[verifier::external_body]
pub struct ExLevel(Level);

/// `<Level as Clone>::clone`: `Level` is `Copy`, so the clone is the same level.
pub assume_specification[ <Level as Clone>::clone ](level: &Level) -> (copy: Level)
    ensures
        copy == *level,
;

/// Lines kept.
pub const LOG_CAPACITY: usize = 1000;

/// One logged line.
#[derive(Clone, Debug)]
pub struct LogLine {
    pub at: Instant,
    pub level: Level,
    pub message: String,
}

impl LogLine {
    /// An equal copy.
    pub fn duplicate(&self) -> (copy: LogLine)
        ensures
            copy == *self,
    {
        LogLine { at: self.at, level: self.level, message: self.message.clone() }
    }
}

/// The latest lines of the log.
#[derive(Debug)]
pub struct LogHistory {
    lines: VecDeque<LogLine>,
}

impl View for LogHistory {
    type V = Seq<LogLine>;

    closed spec fn view(&self) -> Seq<LogLine> {
        self.lines@
    }
}

impl LogHistory {
    #[verifier::type_invariant]
    spec fn bounded(self) -> bool {
        self.lines@.len() <= LOG_CAPACITY
    }

    /// No line yet.
    pub fn new() -> (history: LogHistory)
        ensures
            history@ == Seq::<LogLine>::empty(),
    {
        LogHistory { lines: VecDeque::new() }
    }

    /// Appends a line stamped now; when the log is full the oldest line goes.
    pub fn push(&mut self, level: Level, message: String)
        ensures
            final(self)@.len() <= LOG_CAPACITY,
            final(self)@.len() == (if old(self)@.len() >= LOG_CAPACITY {
                old(self)@.len()
            } else {
                old(self)@.len() + 1
            }),
            final(self)@.drop_last() == (if old(self)@.len() >= LOG_CAPACITY {
                old(self)@.drop_first()
            } else {
                old(self)@
            }),
            final(self)@.last().level == level,
            final(self)@.last().message == message,
    {
        proof {
            use_type_invariant(&*self);
        }
        let line = LogLine { at: now(), level, message };
        let mut lines: VecDeque<LogLine> = VecDeque::new();
        std::mem::swap(&mut lines, &mut self.lines);
        let ghost before = lines@;
        if lines.len() >= LOG_CAPACITY {
            let _ = lines.pop_front();
        }
        lines.push_back(line);
        proof {
            if before.len() >= LOG_CAPACITY {
                assert(lines@.drop_last() =~= before.drop_first());
            } else {
                assert(lines@.drop_last() =~= before);
            }
        }
        self.lines = lines;
    }

    /// Every line kept, oldest first.
    pub fn snapshot(&self) -> (lines: Vec<LogLine>)
        ensures
            lines@ == self@,
    {
        let mut lines: Vec<LogLine> = Vec::new();
        let mut i: usize = 0;
        while i < self.lines.len()
            invariant
                0 <= i <= self.lines@.len(),
                lines@ == self.lines@.take(i as int),
            decreases self.lines@.len() - i,
        {
            lines.push(self.lines[i].duplicate());
            assert(lines@ =~= self.lines@.take(i + 1));
            i += 1;
        }
        assert(self.lines@.take(self.lines@.len() as int) =~= self.lines@);
        lines
    }

    /// Number of lines kept.
    pub fn len(&self) -> (count: usize)
        ensures
            count == self@.len(),
            count <= LOG_CAPACITY,
    {
        proof {
            use_type_invariant(self);
        }
        self.lines.len()
    }

    /// Whether nothing was logged.
    pub fn is_empty(&self) -> (empty: bool)
        ensures
            empty == (self@.len() == 0),
    {
        self.lines.len() == 0
    }
}

} // verus!
