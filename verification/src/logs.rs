//! In-memory log capture for the in-app log viewer: a bounded buffer of recent log entries,
//! and the text they are exported as.
use vstd::prelude::*;
use crate::clock::unix_time_now;
use crate::text::push_char;

verus! {

/// The buffer keeps at most this many entries.
pub const MAX_LOG_ENTRIES: usize = 500;

/// One captured log record.
#[derive(Debug)]
pub struct LogEntry {
    /// Milliseconds since the epoch.
    pub timestamp: u64,
    pub level: String,
    pub target: String,
    pub message: String,
}

/// The mathematical content of a `LogEntry`.
pub struct LogEntryView {
    pub timestamp: u64,
    pub level: Seq<char>,
    pub target: Seq<char>,
    pub message: Seq<char>,
}

impl View for LogEntry {
    type V = LogEntryView;

    open spec fn view(&self) -> LogEntryView {
        LogEntryView {
            timestamp: self.timestamp,
            level: self.level@,
            target: self.target@,
            message: self.message@,
        }
    }
}

impl Clone for LogEntry {
    fn clone(&self) -> (e: Self)
        ensures
            e@ == self@,
    {
        LogEntry {
            timestamp: self.timestamp,
            level: self.level.clone(),
            target: self.target.clone(),
            message: self.message.clone(),
        }
    }
}

/// The views of a sequence of log entries.
pub open spec fn log_views(s: Seq<LogEntry>) -> Seq<LogEntryView> {
    s.map_values(|e: LogEntry| e@)
}

/// The entries after capturing `e`: the oldest one is dropped when the buffer is full.
pub open spec fn spec_capture(s: Seq<LogEntryView>, e: LogEntryView) -> Seq<LogEntryView> {
    if s.len() >= MAX_LOG_ENTRIES {
        s.drop_first().push(e)
    } else {
        s.push(e)
    }
}

/// Captured log entries, oldest first.
pub struct LogBuffer {
    entries: Vec<LogEntry>,
}

impl View for LogBuffer {
    type V = Seq<LogEntryView>;

    closed spec fn view(&self) -> Seq<LogEntryView> {
        log_views(self.entries@)
    }
}

impl LogBuffer {
    /// A buffer never holds more than `MAX_LOG_ENTRIES` entries.
    #[verifier::type_invariant]
    spec fn bounded(self) -> bool {
        self.entries@.len() <= MAX_LOG_ENTRIES
    }

    /// An empty buffer.
    pub fn new() -> (b: Self)
        ensures
            b@ == Seq::<LogEntryView>::empty(),
    {
        let b = LogBuffer { entries: Vec::new() };
        assert(b@ =~= Seq::<LogEntryView>::empty());
        b
    }

    /// Appends `entry`, dropping the oldest entry when the buffer is full.
    pub fn push(&mut self, entry: LogEntry)
        ensures
            final(self)@ == spec_capture(old(self)@, entry@),
    {
        proof {
            use_type_invariant(&*self);
        }
        let ghost before = self@;
        let ghost e = entry@;
        let mut entries: Vec<LogEntry> = Vec::new();
        std::mem::swap(&mut entries, &mut self.entries);
        if entries.len() >= MAX_LOG_ENTRIES {
            entries.remove(0);
            assert(log_views(entries@) =~= before.drop_first());
        }
        entries.push(entry);
        assert(log_views(entries@) =~= spec_capture(before, e));
        self.entries = entries;
    }

    /// Captures a record of `level` from `target` saying `message`, stamped with the current
    /// time in milliseconds.
    pub fn capture(&mut self, level: &str, target: &str, message: &str)
        ensures
            exists|ts: u64|
                final(self)@ == #[trigger] spec_capture(
                    old(self)@,
                    (LogEntryView {
                        timestamp: ts,
                        level: level@,
                        target: target@,
                        message: message@,
                    }),
                ),
    {
        let (millis, _secs) = unix_time_now();
        let entry = LogEntry {
            timestamp: millis as u64,
            level: level.to_owned(),
            target: target.to_owned(),
            message: message.to_owned(),
        };
        let ghost v = entry@;
        self.push(entry);
        assert(self@ == spec_capture(old(self)@, v));
    }
}

/// A snapshot of all captured entries, oldest first.
pub fn get_entries(buffer: &LogBuffer) -> (r: Vec<LogEntry>)
    ensures
        log_views(r@) == buffer@,
        r@.len() <= MAX_LOG_ENTRIES,
{
    proof {
        use_type_invariant(buffer);
    }
    let mut r: Vec<LogEntry> = Vec::new();
    let mut i: usize = 0;
    while i < buffer.entries.len()
        invariant
            i <= buffer.entries@.len(),
            r@.len() == i,
            forall|j: int| 0 <= j < i ==> #[trigger] r@[j]@ == buffer.entries@[j]@,
        decreases buffer.entries@.len() - i,
    {
        r.push(buffer.entries[i].clone());
        i = i + 1;
    }
    assert(log_views(r@) =~= log_views(buffer.entries@));
    r
}

/// Drops all captured entries.
pub fn clear(buffer: &mut LogBuffer)
    ensures
        final(buffer)@ == Seq::<LogEntryView>::empty(),
{
    buffer.entries = Vec::new();
    assert(buffer@ =~= Seq::<LogEntryView>::empty());
    assert(buffer@ =~= Seq::<LogEntryView>::empty());
}

/// Capturing keeps the buffer within its limit: a buffer within the limit stays within it,
/// holding the new entry last.
pub proof fn law_capture_is_bounded(s: Seq<LogEntryView>, e: LogEntryView)
    requires
        s.len() <= MAX_LOG_ENTRIES,
    ensures
        spec_capture(s, e).len() <= MAX_LOG_ENTRIES,
        spec_capture(s, e).last() == e,
{
}

/// The character of a decimal digit.
pub open spec fn digit_char(d: nat) -> char {
    if d == 0 {
        '0'
    } else if d == 1 {
        '1'
    } else if d == 2 {
        '2'
    } else if d == 3 {
        '3'
    } else if d == 4 {
        '4'
    } else if d == 5 {
        '5'
    } else if d == 6 {
        '6'
    } else if d == 7 {
        '7'
    } else if d == 8 {
        '8'
    } else {
        '9'
    }
}

/// The decimal digits of `n`, without leading zeros.
pub open spec fn decimal(n: nat) -> Seq<char>
    decreases n,
{
    if n < 10 {
        seq![digit_char(n)]
    } else {
        decimal(n / 10).push(digit_char(n % 10))
    }
}

/// The decimal digits of `n` (below 1000) padded with zeros to three places.
pub open spec fn pad3(n: nat) -> Seq<char> {
    if n < 10 {
        seq!['0', '0'] + decimal(n)
    } else if n < 100 {
        seq!['0'] + decimal(n)
    } else {
        decimal(n)
    }
}

fn digit(d: u64) -> (c: char)
    requires
        d < 10,
    ensures
        c == digit_char(d as nat),
{
    if d == 0 {
        '0'
    } else if d == 1 {
        '1'
    } else if d == 2 {
        '2'
    } else if d == 3 {
        '3'
    } else if d == 4 {
        '4'
    } else if d == 5 {
        '5'
    } else if d == 6 {
        '6'
    } else if d == 7 {
        '7'
    } else if d == 8 {
        '8'
    } else {
        '9'
    }
}

/// Appends the decimal digits of `n`.
pub fn push_decimal(s: &mut String, n: u64)
    ensures
        final(s)@ == old(s)@ + decimal(n as nat),
    decreases n,
{
    if n >= 10 {
        push_decimal(s, n / 10);
    }
    push_char(s, digit(n % 10));
    assert(final(s)@ =~= old(s)@ + decimal(n as nat));
}

/// The line of an exported log entry: `[seconds.milliseconds] level target — message`.
pub open spec fn log_line(e: LogEntryView) -> Seq<char> {
    "["@ + decimal((e.timestamp / 1000) as nat) + "."@ + pad3((e.timestamp % 1000) as nat) + "] "@
        + e.level + " "@ + e.target + " — "@ + e.message + "\n"@
}

/// The lines of the exported entries `s`, in order.
pub open spec fn log_text(s: Seq<LogEntryView>) -> Seq<char>
    decreases s.len(),
{
    if s.len() == 0 {
        Seq::<char>::empty()
    } else {
        log_text(s.drop_last()) + log_line(s.last())
    }
}

fn push_line(out: &mut String, e: &LogEntry)
    ensures
        final(out)@ == old(out)@ + log_line(e@),
{
    let secs = e.timestamp / 1000;
    let ms = e.timestamp % 1000;
    out.append("[");
    push_decimal(out, secs);
    out.append(".");
    let ghost before_pad = out@;
    if ms < 10 {
        out.append("00");
    } else if ms < 100 {
        out.append("0");
    }
    push_decimal(out, ms);
    proof {
        reveal_strlit("00");
        reveal_strlit("0");
        assert(out@ =~= before_pad + pad3(ms as nat));
    }
    out.append("] ");
    out.append(e.level.as_str());
    out.append(" ");
    out.append(e.target.as_str());
    out.append(" — ");
    out.append(e.message.as_str());
    out.append("\n");
    assert(out@ =~= old(out)@ + log_line(e@));
}

/// The text that the entries are exported as: one line per entry.
pub fn format_log_entries(entries: &Vec<LogEntry>) -> (s: String)
    ensures
        s@ == log_text(log_views(entries@)),
{
    let mut s = String::new();
    let mut i: usize = 0;
    while i < entries.len()
        invariant
            i <= entries@.len(),
            s@ == log_text(log_views(entries@).take(i as int)),
        decreases entries@.len() - i,
    {
        push_line(&mut s, &entries[i]);
        assert(log_views(entries@).take(i + 1).drop_last() =~= log_views(entries@).take(i as int));
        i = i + 1;
    }
    assert(log_views(entries@).take(entries@.len() as int) =~= log_views(entries@));
    s
}

/// The name of the file that logs exported at `now_secs` seconds since the epoch go to.
pub fn log_export_filename(now_secs: u64) -> (f: String)
    ensures
        f@ == "airtype-logs-"@ + decimal(now_secs as nat) + ".txt"@,
{
    let mut f = "airtype-logs-".to_owned();
    push_decimal(&mut f, now_secs);
    f.append(".txt");
    f
}

} // verus!
