//! The structured logger.
//!
//! A log entry carries level, message, source location and a timestamp
//! the host supplies.  The logger keeps its entries ordered by level and
//! then timestamp, and drops an entry whose message and level it already
//! holds, so a per-frame error is reported once.  Printing to the
//! terminal and appending to the log file is host work; the rendered
//! file line is verified logic here.

use vstd::prelude::*;

use crate::native::dec_str_nat;
use crate::native::dec_str_u64;

verus! {

/// The severity of a log entry.
#[derive(Debug, Clone, Copy, PartialEq, Eq, Structural, PartialOrd, Ord)]
pub enum LogLevel {
    Info,
    Warning,
    Error,
}

/// The ordering rank of a level: informational first, errors last.
pub open spec fn level_rank(l: LogLevel) -> int {
    match l {
        LogLevel::Info => 0,
        LogLevel::Warning => 1,
        LogLevel::Error => 2,
    }
}

/// The name a level is printed under.
pub open spec fn level_name_spec(l: LogLevel) -> Seq<char> {
    match l {
        LogLevel::Info => "INFO"@,
        LogLevel::Warning => "WARNING"@,
        LogLevel::Error => "ERROR"@,
    }
}

/// The printed name of a level.
pub fn level_name(l: LogLevel) -> (r: &'static str)
    ensures
        r@ == level_name_spec(l),
{
    match l {
        LogLevel::Info => "INFO",
        LogLevel::Warning => "WARNING",
        LogLevel::Error => "ERROR",
    }
}

fn level_rank_ex(l: LogLevel) -> (r: u32)
    ensures
        r as int == level_rank(l),
{
    match l {
        LogLevel::Info => 0,
        LogLevel::Warning => 1,
        LogLevel::Error => 2,
    }
}

/// One log entry; the timestamp is in seconds, supplied by the host.
#[derive(Debug, Clone, PartialEq, Eq)]
pub struct LogEntry {
    pub level: LogLevel,
    pub message: String,
    pub file: String,
    pub line: u32,
    pub timestamp: u64,
}

impl LogEntry {
    /// An entry from its parts.
    pub fn new(level: LogLevel, message: String, file: String, line: u32, timestamp: u64) -> (r:
        Self)
        ensures
            r == (LogEntry { level, message, file, line, timestamp }),
    {
        LogEntry { level, message, file, line, timestamp }
    }
}

/// The order the logger keeps: by level rank, then by timestamp.
pub open spec fn entry_le(a: LogEntry, b: LogEntry) -> bool {
    level_rank(a.level) < level_rank(b.level) || (level_rank(a.level) == level_rank(b.level)
        && a.timestamp <= b.timestamp)
}

/// Whether a new entry must stand strictly before an existing one: a
/// lower level rank, or the same rank with a strictly earlier timestamp.
/// An entry equal in both goes after the existing one, so insertion is
/// stable.
pub open spec fn entry_strictly_before(e: LogEntry, b: LogEntry) -> bool {
    level_rank(e.level) < level_rank(b.level) || (level_rank(e.level) == level_rank(b.level)
        && e.timestamp < b.timestamp)
}

/// The position a new entry takes in an ordered sequence: directly before
/// the first existing entry it must stand strictly before, hence after
/// every entry with an equal key.
pub open spec fn insertion_point(s: Seq<LogEntry>, e: LogEntry) -> int
    decreases s.len(),
{
    if s.len() == 0 {
        0
    } else if entry_strictly_before(e, s[0]) {
        0
    } else {
        1 + insertion_point(s.drop_first(), e)
    }
}

proof fn lemma_insertion_point_at(s: Seq<LogEntry>, e: LogEntry, p: int)
    requires
        0 <= p <= s.len(),
        forall|j: int| 0 <= j < p ==> !entry_strictly_before(e, #[trigger] s[j]),
        p == s.len() || entry_strictly_before(e, s[p]),
    ensures
        insertion_point(s, e) == p,
    decreases p,
{
    if p > 0 {
        assert(!entry_strictly_before(e, s[0]));
        lemma_insertion_point_at(s.drop_first(), e, p - 1);
    }
}

/// Whether a sequence of entries is in the logger's order.
pub open spec fn entries_sorted(s: Seq<LogEntry>) -> bool {
    forall|i: int, j: int| #![trigger s[i], s[j]] 0 <= i < j < s.len() ==> entry_le(s[i], s[j])
}

/// Whether the sequence already holds an entry with this level and
/// message; such an entry is not logged again.
pub open spec fn holds_duplicate(s: Seq<LogEntry>, level: LogLevel, message: Seq<char>) -> bool {
    exists|i: int| 0 <= i < s.len() && #[trigger] s[i].level == level && s[i].message@ == message
}

/// The index of the last `/` in a path, or -1 when there is none.
pub open spec fn last_slash(p: Seq<char>) -> int
    decreases p.len(),
{
    if p.len() == 0 {
        -1
    } else if p.last() == '/' {
        p.len() - 1
    } else {
        last_slash(p.drop_last())
    }
}

/// The file name of a source path: everything after the last `/`.
pub open spec fn file_name_spec(p: Seq<char>) -> Seq<char> {
    p.subrange(last_slash(p) + 1, p.len() as int)
}

proof fn lemma_last_slash_at(p: Seq<char>, i: int)
    requires
        0 <= i < p.len(),
        p[i] == '/',
        forall|j: int| i < j < p.len() ==> p[j] != '/',
    ensures
        last_slash(p) == i,
    decreases p.len(),
{
    if i < p.len() - 1 {
        assert(p.last() != '/');
        lemma_last_slash_at(p.drop_last(), i);
    }
}

proof fn lemma_no_slash(p: Seq<char>)
    requires
        forall|j: int| 0 <= j < p.len() ==> p[j] != '/',
    ensures
        last_slash(p) == -1,
    decreases p.len(),
{
    if p.len() > 0 {
        lemma_no_slash(p.drop_last());
    }
}

/// The file name of a source path: the text after the last `/`, or the
/// whole path when it has none.
pub fn file_name_of(path: &str) -> (r: String)
    ensures
        r@ == file_name_spec(path@),
{
    let n = path.unicode_len();
    let mut j: usize = n;
    while j > 0 && path.get_char(j - 1) != '/'
        invariant
            0 <= j <= n,
            n == path@.len(),
            forall|t: int| j <= t < n ==> path@[t] != '/',
        decreases j,
    {
        j = j - 1;
    }
    proof {
        if j == 0 {
            lemma_no_slash(path@);
        } else {
            lemma_last_slash_at(path@, j - 1);
        }
    }
    path.substring_char(j, n).to_owned()
}

/// The line an entry gets in the log file:
/// `[LEVEL] timestamp - file:line: message`, with the file reduced to its
/// name.
pub open spec fn file_line_spec(e: LogEntry) -> Seq<char> {
    "["@ + level_name_spec(e.level) + "] "@ + dec_str_nat(e.timestamp as nat) + " - "@
        + file_name_spec(e.file@) + ":"@ + dec_str_nat(e.line as nat) + ": "@ + e.message@
}

/// Renders the log-file line of one entry.
pub fn format_line(e: &LogEntry) -> (r: String)
    ensures
        r@ == file_line_spec(*e),
{
    let mut r = String::from_str("[");
    r.append(level_name(e.level));
    r.append("] ");
    r.append(dec_str_u64(e.timestamp).as_str());
    r.append(" - ");
    r.append(file_name_of(e.file.as_str()).as_str());
    r.append(":");
    r.append(dec_str_u64(e.line as u64).as_str());
    r.append(": ");
    r.append(e.message.as_str());
    r
}

/// The logger: its ordered entries and the path of its log file.
#[derive(Debug)]
pub struct Logger {
    logs: Vec<LogEntry>,
    log_file: String,
}

impl Logger {
    /// The entries the logger holds, in its order.
    pub closed spec fn entries(self) -> Seq<LogEntry> {
        self.logs@
    }

    /// The path of the log file the host appends to.
    pub closed spec fn file_path(self) -> Seq<char> {
        self.log_file@
    }

    /// The logger's invariant: its entries are ordered by level, then
    /// timestamp.
    pub open spec fn wf(self) -> bool {
        entries_sorted(self.entries())
    }

    /// An empty logger writing to the given file.
    pub fn new(log_file: &str) -> (r: Self)
        ensures
            r.wf(),
            r.entries() =~= Seq::<LogEntry>::empty(),
            r.file_path() == log_file@,
    {
        Logger { logs: Vec::new(), log_file: log_file.to_owned() }
    }

    /// How many entries the logger holds.
    pub fn len(&self) -> (r: usize)
        ensures
            r == self.entries().len(),
    {
        self.logs.len()
    }

    /// The entry at one position.
    pub fn entry_at(&self, i: usize) -> (r: &LogEntry)
        requires
            i < self.entries().len(),
        ensures
            *r == self.entries()[i as int],
    {
        &self.logs[i]
    }

    /// Accepts one entry unless an entry with the same message and level
    /// is already held; a new entry is placed in order (after its equals)
    /// and `true` says the host must print and append it.
    pub fn log(
        &mut self,
        level: LogLevel,
        message: String,
        file: String,
        line: u32,
        timestamp: u64,
    ) -> (emitted: bool)
        requires
            old(self).wf(),
        ensures
            final(self).wf(),
            final(self).file_path() == old(self).file_path(),
            emitted == !holds_duplicate(old(self).entries(), level, message@),
            !emitted ==> final(self).entries() == old(self).entries(),
            emitted ==> final(self).entries() == old(self).entries().insert(
                insertion_point(
                    old(self).entries(),
                    LogEntry { level, message, file, line, timestamp },
                ),
                LogEntry { level, message, file, line, timestamp },
            ),
    {
        let n = self.logs.len();
        let mut dup = false;
        let mut k: usize = 0;
        #[verifier::loop_isolation(false)]
        while k < n
            invariant
                0 <= k <= n,
                self == old(self),
                n == self.logs@.len(),
                dup ==> holds_duplicate(self.logs@, level, message@),
                !dup ==> forall|j: int|
                    0 <= j < k ==> !(#[trigger] self.logs@[j].level == level
                        && self.logs@[j].message@ == message@),
            decreases n - k,
        {
            if self.logs[k].level == level && self.logs[k].message == message {
                dup = true;
                break;
            }
            k = k + 1;
        }
        if dup {
            return false;
        }
        let entry = LogEntry { level, message, file, line, timestamp };
        let rank = level_rank_ex(entry.level);
        let mut p: usize = 0;
        #[verifier::loop_isolation(false)]
        while p < n
            invariant
                0 <= p <= n,
                self == old(self),
                n == self.logs@.len(),
                rank as int == level_rank(entry.level),
                forall|j: int| 0 <= j < p ==> entry_le(#[trigger] self.logs@[j], entry),
            decreases n - p,
        {
            let other = level_rank_ex(self.logs[p].level);
            if rank < other || (rank == other && entry.timestamp < self.logs[p].timestamp) {
                break;
            }
            p = p + 1;
        }
        proof {
            assert(forall|j: int| p <= j < n ==> entry_le(entry, #[trigger] self.logs@[j]));
            lemma_insertion_point_at(self.logs@, entry, p as int);
        }
        self.logs.insert(p, entry);
        proof {
            assert(entries_sorted(self.logs@));
        }
        true
    }
}

/// The message for a GPU error code, decoded as the renderer reports it.
pub open spec fn gl_error_message_spec(code: u32) -> Seq<char> {
    if code == 0 {
        "No error"@
    } else if code == 0x0500 {
        "Invalid enum: An unacceptable value is specified for an enumerated argument."@
    } else if code == 0x0501 {
        "Invalid value: A numeric argument is out of range."@
    } else if code == 0x0502 {
        "Invalid operation: The specified operation is not allowed in the current state."@
    } else if code == 0x0503 {
        "Stack overflow: This command would cause a stack overflow."@
    } else if code == 0x0504 {
        "Stack underflow: This command would cause a stack underflow."@
    } else if code == 0x0505 {
        "Out of memory: There is not enough memory left to execute the command."@
    } else if code == 0x0506 {
        "Invalid framebuffer operation: The framebuffer object is not complete."@
    } else {
        "Unknown error code"@
    }
}

/// Decodes a GPU error code into the message the logger reports.
pub fn gl_error_to_message(error_code: u32) -> (r: String)
    ensures
        r@ == gl_error_message_spec(error_code),
{
    let msg: &'static str = if error_code == 0 {
        "No error"
    } else if error_code == 0x0500 {
        "Invalid enum: An unacceptable value is specified for an enumerated argument."
    } else if error_code == 0x0501 {
        "Invalid value: A numeric argument is out of range."
    } else if error_code == 0x0502 {
        "Invalid operation: The specified operation is not allowed in the current state."
    } else if error_code == 0x0503 {
        "Stack overflow: This command would cause a stack overflow."
    } else if error_code == 0x0504 {
        "Stack underflow: This command would cause a stack underflow."
    } else if error_code == 0x0505 {
        "Out of memory: There is not enough memory left to execute the command."
    } else if error_code == 0x0506 {
        "Invalid framebuffer operation: The framebuffer object is not complete."
    } else {
        "Unknown error code"
    };
    msg.to_owned()
}

} // verus!
