//! The in-memory application log shown on the log tab.

use vstd::prelude::*;

verus! {

/// The severity of a log record, most severe first.
#[derive(Debug, Clone, Copy, PartialEq, Eq, Structural)]
pub enum Level {
    Error,
    Warn,
    Info,
    Debug,
    Trace,
}

/// The rank of a level: 1 for errors up to 5 for traces.
pub open spec fn level_rank(l: Level) -> nat {
    match l {
        Level::Error => 1,
        Level::Warn => 2,
        Level::Info => 3,
        Level::Debug => 4,
        Level::Trace => 5,
    }
}

/// The name a level is written with.
pub open spec fn level_name(l: Level) -> Seq<char> {
    match l {
        Level::Error => "ERROR"@,
        Level::Warn => "WARN"@,
        Level::Info => "INFO"@,
        Level::Debug => "DEBUG"@,
        Level::Trace => "TRACE"@,
    }
}

/// The line a record of level `l` with text `msg` is kept as.
pub open spec fn log_line(l: Level, msg: Seq<char>) -> Seq<char> {
    level_name(l) + " - "@ + msg
}

/// The name a level is written with.
pub fn level_str(l: Level) -> (r: &'static str)
    ensures
        r@ == level_name(l),
{
    match l {
        Level::Error => "ERROR",
        Level::Warn => "WARN",
        Level::Info => "INFO",
        Level::Debug => "DEBUG",
        Level::Trace => "TRACE",
    }
}

/// One call of `log` on lines `before` leaves `after`: the same lines, or
/// the same lines and one more at the end.
pub open spec fn logged_step(before: Seq<String>, after: Seq<String>) -> bool {
    after == before || (after.len() == before.len() + 1 && after.drop_last() == before)
}

/// Step `k` of `history`, the lines after each of a series of `log` calls,
/// is one call of `log`.
pub open spec fn logged_at(history: Seq<Seq<String>>, k: int) -> bool {
    logged_step(history[k], history[k + 1])
}

/// The log only grows at its end: however many records are logged between
/// two moments, the lines kept at the first moment are, in order, the first
/// lines kept at the second.
pub proof fn lemma_log_append_only(history: Seq<Seq<String>>, i: int, j: int)
    requires
        0 <= i <= j < history.len(),
        forall|k: int| 0 <= k < history.len() - 1 ==> #[trigger] logged_at(history, k),
    ensures
        history[i].len() <= history[j].len(),
        history[j].subrange(0, history[i].len() as int) == history[i],
    decreases j - i,
{
    if i < j {
        lemma_log_append_only(history, i, j - 1);
        assert(logged_at(history, j - 1));
        let a = history[j - 1];
        let b = history[j];
        if b != a {
            assert(b.subrange(0, history[i].len() as int) =~= a.subrange(0, history[i].len() as int));
        }
    } else {
        assert(history[j].subrange(0, history[i].len() as int) =~= history[i]);
    }
}

/// A log that keeps every record up to debug level, in order.
pub struct SimpleLogger {
    buffer: Vec<String>,
}

impl SimpleLogger {
    /// The lines kept so far.
    pub closed spec fn lines(&self) -> Seq<String> {
        self.buffer@
    }

    /// An empty log.
    pub fn new() -> (r: Self)
        ensures
            r.lines() == Seq::<String>::empty(),
    {
        SimpleLogger { buffer: Vec::new() }
    }

    /// Whether records of `level` are kept: everything but traces.
    pub fn enabled(&self, level: Level) -> (r: bool)
        ensures
            r == (level_rank(level) <= level_rank(Level::Debug)),
    {
        match level {
            Level::Trace => false,
            _ => true,
        }
    }

    /// Keeps the record `message` of `level`, written as `LEVEL - message`,
    /// when that level is kept.
    pub fn log(&mut self, level: Level, message: &str)
        ensures
            level_rank(level) <= level_rank(Level::Debug) ==> final(self).lines().len() == old(
                self,
            ).lines().len() + 1 && final(self).lines().drop_last() == old(self).lines()
                && final(self).lines().last()@ == log_line(level, message@),
            level_rank(level) > level_rank(Level::Debug) ==> final(self).lines() == old(self).lines(),
            logged_step(old(self).lines(), final(self).lines()),
    {
        if self.enabled(level) {
            let mut line = String::from_str(level_str(level));
            line.append(" - ");
            line.append(message);
            proof { reveal_strlit(" - "); }
            assert(line@ =~= log_line(level, message@));
            self.buffer.push(line);
            assert(self.buffer@.drop_last() =~= old(self).lines());
        }
    }

    /// Nothing is buffered outside the log itself.
    pub fn flush(&self) {
    }
}

/// A copy of every line kept, oldest first.
pub fn all(logger: &SimpleLogger) -> (r: Vec<String>)
    ensures
        r@ == logger.lines(),
{
    let r = logger.buffer.clone();
    assert(r@ =~= logger.lines());
    r
}

} // verus!
