//! The event log that the consoles show: time-stamped lines, the most
//! recent two hundred.
use vstd::prelude::*;
use std::collections::VecDeque;

verus! {

/// One line of the event log.
pub struct LogEntry {
    pub time: String,
    pub message: String,
}

impl LogEntry {
    /// A line with the given time stamp.
    pub fn at(time: String, message: String) -> (r: Self)
        ensures
            r.time@ == time@,
            r.message@ == message@,
    {
        Self { time, message }
    }
}

/// How many lines the log keeps.
pub const LOG_CAPACITY: usize = 200;

/// The log: its lines, oldest first, at most `LOG_CAPACITY` of them.
pub struct LogBuffer {
    entries: VecDeque<LogEntry>,
}

/// A line of the log by its text: time stamp and message.
pub open spec fn entry_text(e: LogEntry) -> (Seq<char>, Seq<char>) {
    (e.time@, e.message@)
}

impl View for LogBuffer {
    type V = Seq<(Seq<char>, Seq<char>)>;

    closed spec fn view(&self) -> Seq<(Seq<char>, Seq<char>)> {
        self.entries@.map_values(|e: LogEntry| entry_text(e))
    }
}

/// The lines kept after adding `e` to `lines`: the newest `LOG_CAPACITY`
/// of them.
pub open spec fn spec_push(lines: Seq<(Seq<char>, Seq<char>)>, e: (Seq<char>, Seq<char>)) -> Seq<
    (Seq<char>, Seq<char>),
> {
    let all = lines.push(e);
    if all.len() > LOG_CAPACITY {
        all.subrange(all.len() - LOG_CAPACITY, all.len() as int)
    } else {
        all
    }
}

impl LogBuffer {
    pub fn new() -> (r: Self)
        ensures
            r@ == Seq::<(Seq<char>, Seq<char>)>::empty(),
    {
        let r = Self { entries: VecDeque::new() };
        assert(r@ =~= Seq::<(Seq<char>, Seq<char>)>::empty());
        r
    }

    /// Adds a line, dropping the oldest beyond the capacity.
    pub fn push(&mut self, e: LogEntry)
        ensures
            final(self)@ == spec_push(old(self)@, entry_text(e)),
    {
        let ghost all = old(self)@.push(entry_text(e));
        let ghost before = self.entries@;
        self.entries.push_back(e);
        assert(self.entries@.map_values(|x: LogEntry| entry_text(x)) =~= before.map_values(
            |x: LogEntry| entry_text(x),
        ).push(entry_text(e)));
        let ghost mut dropped: int = 0;
        while self.entries.len() > LOG_CAPACITY
            invariant
                0 <= dropped <= all.len(),
                self.entries@.len() == all.len() - dropped,
                self@ == all.subrange(dropped, all.len() as int),
                all.len() > LOG_CAPACITY ==> self.entries@.len() >= LOG_CAPACITY,
                all.len() <= LOG_CAPACITY ==> dropped == 0,
            decreases self.entries@.len(),
        {
            let ghost full = self.entries@;
            let _ = self.entries.pop_front();
            assert(self.entries@ =~= full.drop_first());
            proof {
                dropped = dropped + 1;
            }
            assert(self.entries@.map_values(|x: LogEntry| entry_text(x)) =~= full.map_values(
                |x: LogEntry| entry_text(x),
            ).drop_first());
            assert(self@ =~= all.subrange(dropped, all.len() as int));
        }
        assert(self@ =~= spec_push(old(self)@, entry_text(e)));
    }

    pub fn clear(&mut self)
        ensures
            final(self)@ == Seq::<(Seq<char>, Seq<char>)>::empty(),
    {
        self.entries.clear();
        assert(self@ =~= Seq::<(Seq<char>, Seq<char>)>::empty());
    }

    pub fn len(&self) -> (r: usize)
        ensures
            r == self@.len(),
    {
        self.entries.len()
    }

    /// The lines, oldest first.
    pub fn entries(&self) -> (r: &VecDeque<LogEntry>)
        ensures
            r@.map_values(|e: LogEntry| entry_text(e)) == self@,
    {
        &self.entries
    }
}

/// However many lines are added, the log keeps at most `LOG_CAPACITY`,
/// the newest line is always the last one added, and below the capacity
/// nothing is dropped.
pub proof fn law_log_keeps_newest(lines: Seq<(Seq<char>, Seq<char>)>, e: (Seq<char>, Seq<char>))
    ensures
        spec_push(lines, e).len() <= LOG_CAPACITY,
        spec_push(lines, e).last() == e,
        lines.len() < LOG_CAPACITY ==> spec_push(lines, e) == lines.push(e),
{
}

} // verus!
