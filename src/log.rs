//! The bounded event log and its one-line rendering.

use crate::series::last_n;
use vstd::prelude::*;

verus! {

/// How many events the log keeps; older events are dropped first.
pub const LOG_CAPACITY: usize = 100;

#[derive(Clone, Copy, Debug, PartialEq, Eq, Structural)]
pub enum LogType {
    Info,
    Error,
    Warning,
}

/// The tag that an event of level `t` is shown with.
pub open spec fn level_tag(t: LogType) -> Seq<char> {
    match t {
        LogType::Info => "[Info]"@,
        LogType::Error => "[Error]"@,
        LogType::Warning => "[Warning]"@,
    }
}

/// One recorded event: its tag and its message.
#[derive(Clone, Debug)]
pub struct Log {
    pub status: String,
    pub message: String,
}

impl View for Log {
    type V = (Seq<char>, Seq<char>);

    open spec fn view(&self) -> (Seq<char>, Seq<char>) {
        (self.status@, self.message@)
    }
}

/// The views of a sequence of events.
pub open spec fn entries(v: Seq<Log>) -> Seq<(Seq<char>, Seq<char>)> {
    v.map_values(|l: Log| l@)
}

/// The events after recording `e` on a log holding `s`.
pub open spec fn recorded(
    s: Seq<(Seq<char>, Seq<char>)>,
    e: (Seq<char>, Seq<char>),
) -> Seq<(Seq<char>, Seq<char>)> {
    last_n(s.push(e), LOG_CAPACITY as nat)
}

/// The events after recording each of `es`, first to last.
pub open spec fn recorded_all(
    s: Seq<(Seq<char>, Seq<char>)>,
    es: Seq<(Seq<char>, Seq<char>)>,
) -> Seq<(Seq<char>, Seq<char>)>
    decreases es.len(),
{
    if es.len() == 0 {
        s
    } else {
        recorded_all(recorded(s, es[0]), es.drop_first())
    }
}

/// An event as it is shown: tag, a space, message.
pub open spec fn entry_text(e: (Seq<char>, Seq<char>)) -> Seq<char> {
    e.0 + " "@ + e.1
}

/// The events with a tag or a message, shown in order and separated by " | ".
pub open spec fn rendered(s: Seq<(Seq<char>, Seq<char>)>) -> Seq<char>
    decreases s.len(),
{
    if s.len() == 0 {
        Seq::empty()
    } else {
        let before = rendered(s.drop_last());
        let e = s.last();
        if e.0.len() == 0 && e.1.len() == 0 {
            before
        } else if before.len() == 0 {
            entry_text(e)
        } else {
            before + " | "@ + entry_text(e)
        }
    }
}

fn tag_text(t: LogType) -> (r: &'static str)
    ensures
        r@ == level_tag(t),
{
    match t {
        LogType::Info => "[Info]",
        LogType::Error => "[Error]",
        LogType::Warning => "[Warning]",
    }
}

/// An append-only log that keeps the newest `LOG_CAPACITY` events.
pub struct LogList {
    log: Vec<Log>,
}

impl View for LogList {
    type V = Seq<(Seq<char>, Seq<char>)>;

    closed spec fn view(&self) -> Seq<(Seq<char>, Seq<char>)> {
        entries(self.log@)
    }
}

impl LogList {
    pub open spec fn wf(&self) -> bool {
        self@.len() <= LOG_CAPACITY
    }

    /// A log holding one blank event, which is not shown.
    pub fn new() -> (r: Self)
        ensures
            r.wf(),
            r@ == seq![(Seq::<char>::empty(), Seq::<char>::empty())],
    {
        let mut log: Vec<Log> = Vec::new();
        log.push(Log { status: String::new(), message: String::new() });
        let r = LogList { log };
        assert(r@ =~= seq![(Seq::<char>::empty(), Seq::<char>::empty())]);
        r
    }

    /// Records one event, dropping the oldest when the log is full.
    pub fn print_mes(&mut self, status: LogType, message: &str)
        requires
            old(self).wf(),
        ensures
            final(self).wf(),
            final(self)@ == recorded(old(self)@, (level_tag(status), message@)),
    {
        let entry = Log { status: String::from_str(tag_text(status)), message: String::from_str(message) };
        let ghost e = entry@;
        if self.log.len() == LOG_CAPACITY {
            let _ = self.log.remove(0);
        }
        self.log.push(entry);
        assert(self@ =~= recorded(old(self)@, e));
    }

    /// The recorded events, oldest first.
    pub fn get_logs(&self) -> (r: &Vec<Log>)
        ensures
            entries(r@) == self@,
    {
        &self.log
    }

    /// The log as one line of text.
    pub fn to_display_string(&self) -> (r: String)
        ensures
            r@ == rendered(self@),
    {
        let mut out = String::new();
        let mut i: usize = 0;
        while i < self.log.len()
            invariant
                i <= self@.len(),
                self@.len() == self.log@.len(),
                out@ == rendered(self@.subrange(0, i as int)),
            decreases self@.len() - i,
        {
            let ghost upto = self@.subrange(0, i as int + 1);
            assert(upto.drop_last() =~= self@.subrange(0, i as int));
            assert(upto.last() == self.log@[i as int]@);
            let entry = &self.log[i];
            if !(entry.status.as_str().is_empty() && entry.message.as_str().is_empty()) {
                if !out.as_str().is_empty() {
                    out.append(" | ");
                }
                out.append(entry.status.as_str());
                out.append(" ");
                out.append(entry.message.as_str());
            }
            i = i + 1;
        }
        assert(self@.subrange(0, self@.len() as int) =~= self@);
        out
    }
}

impl Default for LogList {
    fn default() -> (r: Self)
        ensures
            r.wf(),
            r@ == seq![(Seq::<char>::empty(), Seq::<char>::empty())],
    {
        LogList::new()
    }
}

} // verus!
