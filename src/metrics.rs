use vstd::prelude::*;

verus! {

/// How an operation runs: to completion within the call, or as a task that
/// completes later.
#[derive(Clone, Copy, PartialEq, Eq, Structural)]
pub enum CallMode {
    Sync,
    Async,
}

/// What a metrics record notes about a call.
#[derive(Clone, Copy, PartialEq, Eq, Structural)]
pub enum RecordKind {
    /// The call was dispatched to the operation.
    Dispatched,
    /// The call finished, with success or failure.
    Completed { ok: bool },
}

/// One accounting record of one call of the operation `op_id`.
#[derive(Clone, Copy, PartialEq, Eq, Structural)]
pub struct MetricsRecord {
    pub op_id: usize,
    pub mode: CallMode,
    pub kind: RecordKind,
}

/// Number of dispatch records of `op` in `log`.
pub open spec fn entries(log: Seq<MetricsRecord>, op: usize) -> nat
    decreases log.len(),
{
    if log.len() == 0 {
        0
    } else {
        let last = log.last();
        entries(log.drop_last(), op) + if last.op_id == op && last.kind == RecordKind::Dispatched {
            1nat
        } else {
            0nat
        }
    }
}

/// Number of completion records of `op` in `log`, successful or not.
pub open spec fn completions(log: Seq<MetricsRecord>, op: usize) -> nat
    decreases log.len(),
{
    if log.len() == 0 {
        0
    } else {
        let last = log.last();
        completions(log.drop_last(), op) + if last.op_id == op && last.kind is Completed {
            1nat
        } else {
            0nat
        }
    }
}

pub open spec fn dispatched(op: usize, mode: CallMode) -> MetricsRecord {
    MetricsRecord { op_id: op, mode, kind: RecordKind::Dispatched }
}

pub open spec fn completed(op: usize, mode: CallMode, ok: bool) -> MetricsRecord {
    MetricsRecord { op_id: op, mode, kind: RecordKind::Completed { ok } }
}

/// The records that one whole call adds to `log`: its dispatch, then its
/// completion.
pub open spec fn call_trace(log: Seq<MetricsRecord>, op: usize, mode: CallMode, ok: bool) -> Seq<
    MetricsRecord,
> {
    log.push(dispatched(op, mode)).push(completed(op, mode, ok))
}

/// Per-call accounting, in the order the records were made.
pub struct OpMetrics {
    pub records: Vec<MetricsRecord>,
}

impl OpMetrics {
    pub fn new() -> (r: Self)
        ensures
            r.records@ == Seq::<MetricsRecord>::empty(),
    {
        OpMetrics { records: Vec::new() }
    }

    /// Notes that a call of `op_id` was dispatched.
    pub fn record_dispatched(&mut self, op_id: usize, mode: CallMode)
        ensures
            final(self).records@ == old(self).records@.push(dispatched(op_id, mode)),
    {
        self.records.push(MetricsRecord { op_id, mode, kind: RecordKind::Dispatched });
    }

    /// Notes that a call of `op_id` finished, successfully when `ok`.
    pub fn record_completed(&mut self, op_id: usize, mode: CallMode, ok: bool)
        ensures
            final(self).records@ == old(self).records@.push(completed(op_id, mode, ok)),
    {
        self.records.push(MetricsRecord { op_id, mode, kind: RecordKind::Completed { ok } });
    }

    /// How many calls of `op_id` were dispatched.
    pub fn dispatched_count(&self, op_id: usize) -> (r: usize)
        ensures
            r == entries(self.records@, op_id),
    {
        let mut n: usize = 0;
        let mut i: usize = 0;
        while i < self.records.len()
            invariant
                i <= self.records@.len(),
                n == entries(self.records@.subrange(0, i as int), op_id),
                n <= i,
            decreases self.records@.len() - i,
        {
            let rec = self.records[i];
            assert(self.records@.subrange(0, i + 1).drop_last() == self.records@.subrange(0, i as int));
            if rec.op_id == op_id && rec.kind == RecordKind::Dispatched {
                n = n + 1;
            }
            i = i + 1;
        }
        assert(self.records@.subrange(0, i as int) == self.records@);
        n
    }

    /// How many calls of `op_id` have finished, successfully or not.
    pub fn completed_count(&self, op_id: usize) -> (r: usize)
        ensures
            r == completions(self.records@, op_id),
    {
        let mut n: usize = 0;
        let mut i: usize = 0;
        while i < self.records.len()
            invariant
                i <= self.records@.len(),
                n == completions(self.records@.subrange(0, i as int), op_id),
                n <= i,
            decreases self.records@.len() - i,
        {
            let rec = self.records[i];
            assert(self.records@.subrange(0, i + 1).drop_last() == self.records@.subrange(0, i as int));
            if rec.op_id == op_id && rec.kind != RecordKind::Dispatched {
                n = n + 1;
            }
            i = i + 1;
        }
        assert(self.records@.subrange(0, i as int) == self.records@);
        n
    }
}

/// Each call, whatever its mode and outcome, adds exactly one dispatch record
/// and exactly one completion record for its operation, and none for any
/// other operation.
pub proof fn lemma_one_record_pair_per_call(
    log: Seq<MetricsRecord>,
    op: usize,
    mode: CallMode,
    ok: bool,
    other: usize,
)
    requires
        other != op,
    ensures
        entries(call_trace(log, op, mode, ok), op) == entries(log, op) + 1,
        completions(call_trace(log, op, mode, ok), op) == completions(log, op) + 1,
        entries(call_trace(log, op, mode, ok), other) == entries(log, other),
        completions(call_trace(log, op, mode, ok), other) == completions(log, other),
{
    let l1 = log.push(dispatched(op, mode));
    let l2 = l1.push(completed(op, mode, ok));
    assert(l1.drop_last() == log);
    assert(l2.drop_last() == l1);
    assert(entries(l1, op) == entries(log, op) + 1);
    assert(entries(l2, op) == entries(l1, op));
    assert(completions(l1, op) == completions(log, op));
    assert(completions(l2, op) == completions(l1, op) + 1);
    assert(entries(l1, other) == entries(log, other));
    assert(completions(l2, other) == completions(l1, other));
}

} // verus!
