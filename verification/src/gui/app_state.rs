//! The bounded histories the interface keeps: recent log entries and the
//! points of each graph.
use crate::gui::elements::log_card::UiLogEntry;
use vstd::prelude::*;

verus! {

/// At most this many points are kept per graph.
pub const MAX_POINTS: usize = 1000;

/// At most this many log entries are kept.
pub const MAX_LOGS: usize = 100;

/// The most recent log entries, oldest first.
#[derive(Debug)]
pub struct LogBuffer<S> {
    logs: Vec<UiLogEntry<S>>,
}

impl<S> LogBuffer<S> {
    #[verifier::type_invariant]
    spec fn bounded(self) -> bool {
        self.logs@.len() <= MAX_LOGS
    }

    /// The entries kept, oldest first.
    pub closed spec fn entries(self) -> Seq<UiLogEntry<S>> {
        self.logs@
    }

    /// No entries.
    pub fn new() -> (r: Self)
        ensures
            r.entries() == Seq::<UiLogEntry<S>>::empty(),
    {
        LogBuffer { logs: Vec::new() }
    }

    /// Adds an entry; when the buffer is full the oldest one goes.
    pub fn push_log(&mut self, msg: UiLogEntry<S>)
        ensures
            final(self).entries() == if old(self).entries().len() >= MAX_LOGS {
                old(self).entries().drop_first().push(msg)
            } else {
                old(self).entries().push(msg)
            },
            final(self).entries().len() <= MAX_LOGS,
    {
        proof {
            use_type_invariant(&*self);
        }
        let mut logs: Vec<UiLogEntry<S>> = Vec::new();
        std::mem::swap(&mut logs, &mut self.logs);
        let ghost before = logs@;
        if logs.len() >= MAX_LOGS {
            logs.remove(0);
            assert(logs@ =~= before.drop_first());
        }
        logs.push(msg);
        self.logs = logs;
    }

    /// The entries kept, oldest first.
    pub fn get_logs(&self) -> (r: &Vec<UiLogEntry<S>>)
        ensures
            r@ == self.entries(),
    {
        &self.logs
    }
}

/// Adds a point to a graph; when it holds more than the maximum the oldest
/// point goes.
pub fn push_point<T>(points: &mut Vec<T>, pt: T)
    ensures
        final(points)@ == if old(points)@.len() + 1 > MAX_POINTS {
            old(points)@.push(pt).drop_first()
        } else {
            old(points)@.push(pt)
        },
{
    let ghost before = points@;
    points.push(pt);
    if points.len() > MAX_POINTS {
        points.remove(0);
        assert(points@ =~= before.push(pt).drop_first());
    }
}

/// The log buffer never holds more than its bound, and keeps the newest
/// entries: after a push the new entry is the last one.
pub proof fn lemma_push_keeps_newest<S>(before: Seq<UiLogEntry<S>>, after: Seq<UiLogEntry<S>>, msg: UiLogEntry<S>)
    requires
        before.len() <= MAX_LOGS,
        after == if before.len() >= MAX_LOGS {
            before.drop_first().push(msg)
        } else {
            before.push(msg)
        },
    ensures
        after.len() <= MAX_LOGS,
        after.last() == msg,
        after.len() == if before.len() >= MAX_LOGS { MAX_LOGS as int } else { (before.len() + 1) as int },
{
}

} // verus!
