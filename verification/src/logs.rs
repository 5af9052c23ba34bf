use vstd::prelude::*;
use vstd::string::*;

use crate::text::str_eq;

verus! {

/// How many log lines the status view keeps.
pub const RECENT_LOG_LIMIT: usize = 200;

/// The last `n` elements of `s`, or all of `s` when it is shorter.
pub open spec fn keep_last<A>(s: Seq<A>, n: nat) -> Seq<A> {
    if s.len() > n {
        s.skip(s.len() - n)
    } else {
        s
    }
}

/// The most recent log lines, oldest first, at most `RECENT_LOG_LIMIT` of them.
pub struct RecentLogs {
    lines: Vec<String>,
}

impl View for RecentLogs {
    type V = Seq<Seq<char>>;

    /// The lines held, oldest first.
    closed spec fn view(&self) -> Seq<Seq<char>> {
        self.lines@.map_values(|s: String| s@)
    }
}

impl RecentLogs {
    /// The buffer never holds more than `RECENT_LOG_LIMIT` lines.
    #[verifier::type_invariant]
    spec fn within_limit(&self) -> bool {
        self.lines@.len() <= RECENT_LOG_LIMIT
    }

    /// An empty buffer.
    pub fn new() -> (r: Self)
        ensures
            r@ == Seq::<Seq<char>>::empty(),
    {
        let r = RecentLogs { lines: Vec::new() };
        assert(r@ =~= Seq::<Seq<char>>::empty());
        r
    }

    /// Appends a line and drops the oldest ones beyond the limit.
    pub fn push(&mut self, line: String)
        ensures
            final(self)@ == keep_last(old(self)@.push(line@), RECENT_LOG_LIMIT as nat),
            final(self)@.len() <= RECENT_LOG_LIMIT,
    {
        proof {
            use_type_invariant(&*self);
        }
        let ghost line_view = line@;
        let ghost before = self@;
        let mut lines: Vec<String> = Vec::new();
        std::mem::swap(&mut lines, &mut self.lines);
        assert(lines@.map_values(|s: String| s@) == before);
        lines.push(line);
        assert(lines@.map_values(|s: String| s@) =~= before.push(line_view));
        if lines.len() > RECENT_LOG_LIMIT {
            let keep_from = lines.len() - RECENT_LOG_LIMIT;
            let tail = lines.split_off(keep_from);
            lines = tail;
            assert(lines@.map_values(|s: String| s@) =~= before.push(line_view).skip(keep_from as int));
        }
        self.lines = lines;
    }

    /// A copy of the lines held, oldest first.
    pub fn lines(&self) -> (r: Vec<String>)
        ensures
            r@.map_values(|s: String| s@) == self@,
    {
        let mut r: Vec<String> = Vec::new();
        let mut i: usize = 0;
        while i < self.lines.len()
            invariant
                i <= self.lines@.len(),
                r@.len() == i,
                forall|k: int| 0 <= k < i ==> r@[k] == self.lines@[k],
            decreases self.lines.len() - i,
        {
            r.push(self.lines[i].clone());
            i = i + 1;
        }
        assert(r@.map_values(|s: String| s@) =~= self@);
        r
    }
}

/// `<timestamp> [<level>] <message>`.
pub open spec fn log_line(timestamp: Seq<char>, level: Seq<char>, message: Seq<char>) -> Seq<char> {
    timestamp + " ["@ + level + "] "@ + message
}

/// A log line: `<timestamp> [<level>] <message>`.
pub fn format_log_line(timestamp: &str, level: &str, message: &str) -> (r: String)
    ensures
        r@ == log_line(timestamp@, level@, message@),
{
    let mut s = timestamp.to_owned();
    s.append(" [");
    s.append(level);
    s.append("] ");
    s.append(message);
    s
}

/// Whether a line of this level goes to the log file: errors always, other
/// levels only with debug logging on.
pub fn should_write_log_file(level: &str, debug_log_enabled: bool) -> (r: bool)
    ensures
        r == (level@ == "ERROR"@ || debug_log_enabled),
{
    str_eq(level, "ERROR") || debug_log_enabled
}

/// `mcpproxy-<date>.log`.
pub open spec fn log_file_name_of(date: Seq<char>) -> Seq<char> {
    "mcpproxy-"@ + date + ".log"@
}

/// The name of the log file of a day: `mcpproxy-<date>.log`.
pub fn log_file_name(date: &str) -> (r: String)
    ensures
        r@ == log_file_name_of(date@),
{
    let mut s = "mcpproxy-".to_owned();
    s.append(date);
    s.append(".log");
    s
}

} // verus!
