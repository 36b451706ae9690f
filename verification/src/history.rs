//! The bounded histories the guard keeps: recent memory samples for the
//! charts and recent log lines for the log panel. Each keeps its most recent
//! entries up to a fixed capacity, dropping the oldest first.

use vstd::prelude::*;
use std::collections::VecDeque;
use std::sync::Arc;
use std::sync::Mutex;

verus! {

/// Samples kept for the charts (about 30 minutes at one sample every 2 s).
pub const MAX_SAMPLES: usize = 900;

/// Log lines kept for the log panel.
pub const MAX_LOG_LINES: usize = 200;

/// The recent log lines, shared between the logger and the history window.
pub type SharedLogLines = Arc<Mutex<VecDeque<String>>>;

/// The contents of a bounded history after `item` is added to `before`
/// with capacity `cap`: when the history is full, its oldest entry is
/// dropped first.
pub open spec fn bounded_push<T>(before: Seq<T>, item: T, cap: nat) -> Seq<T> {
    if before.len() >= cap && before.len() > 0 {
        before.subrange(1, before.len() as int).push(item)
    } else {
        before.push(item)
    }
}

/// Adds `item` to the bounded history `buf` of capacity `cap`, dropping the
/// oldest entry first when the history is full.
pub fn push_bounded<T>(buf: &mut VecDeque<T>, item: T, cap: usize)
    ensures
        final(buf)@ == bounded_push(old(buf)@, item, cap as nat),
{
    if buf.len() >= cap {
        let _ = buf.pop_front();
    }
    buf.push_back(item);
}

/// Adds a line to the recent log lines, keeping the most recent
/// `MAX_LOG_LINES`.
pub fn push_log_line(log_lines: &mut VecDeque<String>, line: String)
    ensures
        final(log_lines)@ == bounded_push(old(log_lines)@, line, MAX_LOG_LINES as nat),
{
    push_bounded(log_lines, line, MAX_LOG_LINES);
}

/// An empty log-line history, with room for `MAX_LOG_LINES` lines and the
/// one that is pushed before the oldest is dropped.
pub fn new_log_lines() -> (l: VecDeque<String>)
    ensures
        l@.len() == 0,
{
    VecDeque::with_capacity(MAX_LOG_LINES + 1)
}

/// A fresh shared log-line history, empty.
pub fn new_shared_log_lines() -> SharedLogLines {
    Arc::new(Mutex::new(new_log_lines()))
}


/// A bounded history keeps the most recent entries: when it holds at most
/// `cap` entries before a push, it holds at most `cap` after, the newest
/// entry last, and its contents are the last `cap` of the old entries
/// followed by the new one.
pub proof fn law_bounded_push_keeps_latest<T>(before: Seq<T>, item: T, cap: nat)
    requires
        cap > 0,
        before.len() <= cap,
    ensures
        bounded_push(before, item, cap).len() <= cap,
        bounded_push(before, item, cap).last() == item,
        bounded_push(before, item, cap) == before.push(item).subrange(
            if before.len() + 1 > cap { before.len() + 1 - cap } else { 0int },
            before.len() + 1 as int,
        ),
{
    let after = bounded_push(before, item, cap);
    let full = before.push(item);
    if before.len() + 1 > cap {
        assert(after =~= full.subrange(before.len() + 1 - cap, before.len() + 1 as int));
    } else {
        assert(after =~= full.subrange(0, before.len() + 1 as int));
    }
}


/// The contents of a bounded history of capacity `cap` after each of `items`
/// is pushed, in order, onto `before`.
pub open spec fn push_all<T>(before: Seq<T>, items: Seq<T>, cap: nat) -> Seq<T>
    decreases items.len(),
{
    if items.len() == 0 {
        before
    } else {
        bounded_push(push_all(before, items.drop_last(), cap), items.last(), cap)
    }
}

/// The last `k` entries of `s` (all of them when it has fewer).
pub open spec fn last_n<T>(s: Seq<T>, k: nat) -> Seq<T> {
    if s.len() > k {
        s.subrange(s.len() - k, s.len() as int)
    } else {
        s
    }
}

/// A bounded history that starts empty holds, after any number of pushes,
/// exactly the last `cap` entries pushed (all of them while there are fewer),
/// oldest first.
pub proof fn law_bounded_history_keeps_last<T>(items: Seq<T>, cap: nat)
    requires
        cap > 0,
    ensures
        push_all(Seq::empty(), items, cap) == last_n(items, cap),
        push_all(Seq::empty(), items, cap).len() == if items.len() < cap { items.len() } else { cap },
    decreases items.len(),
{
    if items.len() > 0 {
        let init = items.drop_last();
        law_bounded_history_keeps_last(init, cap);
        let before = last_n(init, cap);
        law_bounded_push_keeps_latest(before, items.last(), cap);
        let after = bounded_push(before, items.last(), cap);
        assert(items =~= init.push(items.last()));
        if init.len() >= cap {
            assert(after =~= last_n(items, cap));
        } else {
            assert(after =~= last_n(items, cap));
        }
    }
}

/// The log-line history, started empty, holds exactly the last
/// `MAX_LOG_LINES` lines pushed (all of them while there are fewer), oldest
/// first.
pub proof fn law_log_lines_keep_last(lines: Seq<String>)
    ensures
        push_all(Seq::empty(), lines, MAX_LOG_LINES as nat) == last_n(lines, MAX_LOG_LINES as nat),
        push_all(Seq::empty(), lines, MAX_LOG_LINES as nat).len() <= MAX_LOG_LINES,
{
    law_bounded_history_keeps_last(lines, MAX_LOG_LINES as nat);
}

/// The sample history, started empty, holds exactly the last `MAX_SAMPLES`
/// samples pushed (all of them while there are fewer), oldest first.
pub proof fn law_samples_keep_last<T>(samples: Seq<T>)
    ensures
        push_all(Seq::empty(), samples, MAX_SAMPLES as nat) == last_n(samples, MAX_SAMPLES as nat),
        push_all(Seq::empty(), samples, MAX_SAMPLES as nat).len() <= MAX_SAMPLES,
{
    law_bounded_history_keeps_last(samples, MAX_SAMPLES as nat);
}

} // verus!
