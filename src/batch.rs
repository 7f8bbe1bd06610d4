use vstd::prelude::*;
use crate::descriptor::{Descriptor, RequestPlan, plan_matches, plan_request};
use crate::executor::{Reply, ResultRecord, finish_request, record_of};

verus! {

/// The records of a batch, in input order, and the batch's total time in
/// nanoseconds.
pub struct BatchOutcome {
    pub records: Vec<ResultRecord>,
    pub total_nanos: u64,
}

/// The sum of the durations of a list of records.
pub open spec fn total_dur(rs: Seq<ResultRecord>) -> int
    decreases rs.len(),
{
    if rs.len() == 0 {
        0
    } else {
        total_dur(rs.drop_last()) + rs.last().dur_nanos
    }
}

/// Each record echoes the descriptor at the same position.
pub open spec fn echoes(rs: Seq<ResultRecord>, ds: Seq<Descriptor>) -> bool {
    rs.len() == ds.len() && forall|i: int| 0 <= i < rs.len() ==> (#[trigger] rs[i]).request == ds[i]
}

/// A sequential batch in progress: request `k + 1` starts only once the
/// record of request `k` is in.
pub struct SequentialRun {
    descriptors: Vec<Descriptor>,
    records: Vec<ResultRecord>,
    started_at: u64,
    clock: u64,
}

impl SequentialRun {
    pub closed spec fn descriptors(&self) -> Seq<Descriptor> {
        self.descriptors@
    }

    pub closed spec fn records(&self) -> Seq<ResultRecord> {
        self.records@
    }

    pub closed spec fn started_at(&self) -> u64 {
        self.started_at
    }

    /// The latest clock reading the run has seen.
    pub closed spec fn clock(&self) -> u64 {
        self.clock
    }

    pub open spec fn done(&self) -> bool {
        self.records().len() == self.descriptors().len()
    }

    pub closed spec fn wf(&self) -> bool {
        &&& self.records@.len() <= self.descriptors@.len()
        &&& forall|i: int| 0 <= i < self.records@.len() ==> (#[trigger] self.records@[i]).request == self.descriptors@[i]
        &&& self.started_at <= self.clock
        &&& total_dur(self.records@) <= self.clock - self.started_at
    }

    /// Starts a run over `descriptors` at clock reading `now`.
    pub fn start(descriptors: Vec<Descriptor>, now: u64) -> (r: SequentialRun)
        ensures
            r.wf(),
            r.descriptors() == descriptors@,
            r.records().len() == 0,
            r.started_at() == now,
            r.clock() == now,
    {
        SequentialRun { descriptors, records: Vec::new(), started_at: now, clock: now }
    }

    /// The plan for the next descriptor, or `None` once every descriptor has
    /// its record.
    pub fn next_plan(&self) -> (r: Option<RequestPlan>)
        requires
            self.wf(),
        ensures
            r is None <==> self.done(),
            r is Some ==> plan_matches(self.descriptors()[self.records().len() as int], r->Some_0),
    {
        let k = self.records.len();
        if k < self.descriptors.len() {
            Some(plan_request(&self.descriptors[k]))
        } else {
            None
        }
    }

    /// Records the reply to the next descriptor, with the clock readings taken
    /// before it was dispatched and after its outcome was known.
    pub fn complete(&mut self, reply: &Reply, started_at: u64, ended_at: u64)
        requires
            old(self).wf(),
            !old(self).done(),
            old(self).clock() <= started_at,
            started_at <= ended_at,
        ensures
            final(self).wf(),
            final(self).descriptors() == old(self).descriptors(),
            final(self).started_at() == old(self).started_at(),
            final(self).clock() == ended_at,
            final(self).records() == old(self).records().push(
                record_of(old(self).descriptors()[old(self).records().len() as int], *reply, started_at, ended_at),
            ),
    {
        let k = self.records.len();
        let d = self.descriptors[k].duplicate();
        let rec = finish_request(d, reply, started_at, ended_at);
        let ghost before = self.records@;
        self.records.push(rec);
        self.clock = ended_at;
        assert(self.records@.drop_last() == before);
    }

    /// Ends the run at clock reading `now`: one record per descriptor, in
    /// order, and a total time no less than the sum of the records' times.
    pub fn finish(self, now: u64) -> (r: BatchOutcome)
        requires
            self.wf(),
            self.done(),
            self.clock() <= now,
        ensures
            r.records@ == self.records(),
            echoes(r.records@, self.descriptors()),
            r.total_nanos == now - self.started_at(),
            total_dur(r.records@) <= r.total_nanos,
    {
        BatchOutcome { records: self.records, total_nanos: now - self.started_at }
    }
}

/// What came back for one request of a concurrent batch, with the clock
/// readings taken before its dispatch and after its outcome.
pub struct Completion {
    pub reply: Reply,
    pub started_at: u64,
    pub ended_at: u64,
}

/// The records of a concurrent batch: each descriptor with its own completion.
pub open spec fn records_of(ds: Seq<Descriptor>, cs: Seq<Completion>) -> Seq<ResultRecord> {
    Seq::new(ds.len(), |i: int| record_of(ds[i], cs[i].reply, cs[i].started_at, cs[i].ended_at))
}

/// Every completion lies within the batch's clock readings.
pub open spec fn within(cs: Seq<Completion>, batch_start: u64, batch_end: u64) -> bool {
    forall|i: int| 0 <= i < cs.len() ==> {
        &&& batch_start <= (#[trigger] cs[i]).started_at
        &&& cs[i].started_at <= cs[i].ended_at
        &&& cs[i].ended_at <= batch_end
    }
}

/// Whether every completion lies within the batch's clock readings, which
/// themselves are in order.
pub fn within_bounds(cs: &Vec<Completion>, batch_start: u64, batch_end: u64) -> (r: bool)
    ensures
        r == (batch_start <= batch_end && within(cs@, batch_start, batch_end)),
{
    if batch_start > batch_end {
        return false;
    }
    let mut i: usize = 0;
    while i < cs.len()
        invariant
            i <= cs@.len(),
            batch_start <= batch_end,
            within(cs@.take(i as int), batch_start, batch_end),
        decreases cs@.len() - i,
    {
        let c = &cs[i];
        if !(batch_start <= c.started_at && c.started_at <= c.ended_at && c.ended_at <= batch_end) {
            assert(!within(cs@, batch_start, batch_end) && cs@[i as int] == *c);
            return false;
        }
        i = i + 1;
        assert(forall|j: int| 0 <= j < i ==> cs@.take(i as int)[j] == #[trigger] cs@[j]);
        assert(forall|j: int| 0 <= j < i - 1 ==> cs@.take(i - 1)[j] == #[trigger] cs@[j]);
    }
    assert(cs@.take(i as int) == cs@);
    true
}

/// The plans of all descriptors of a concurrent batch, to be launched together.
pub fn plan_all(descriptors: &Vec<Descriptor>) -> (r: Vec<RequestPlan>)
    ensures
        r@.len() == descriptors@.len(),
        forall|i: int| 0 <= i < r@.len() ==> plan_matches(descriptors@[i], #[trigger] r@[i]),
{
    let mut r: Vec<RequestPlan> = Vec::new();
    let mut i: usize = 0;
    while i < descriptors.len()
        invariant
            i <= descriptors@.len(),
            r@.len() == i,
            forall|j: int| 0 <= j < i ==> plan_matches(descriptors@[j], #[trigger] r@[j]),
        decreases descriptors@.len() - i,
    {
        r.push(plan_request(&descriptors[i]));
        i = i + 1;
    }
    r
}

/// Joins a concurrent batch: one record per descriptor, in input order, each
/// built from that descriptor's own completion alone, and a total time no
/// less than any single record's time.
pub fn gather(descriptors: Vec<Descriptor>, completions: Vec<Completion>, batch_start: u64, batch_end: u64) -> (r: BatchOutcome)
    requires
        completions@.len() == descriptors@.len(),
        batch_start <= batch_end,
        within(completions@, batch_start, batch_end),
    ensures
        r.records@ == records_of(descriptors@, completions@),
        echoes(r.records@, descriptors@),
        r.total_nanos == batch_end - batch_start,
        forall|i: int| 0 <= i < r.records@.len() ==> (#[trigger] r.records@[i]).dur_nanos <= r.total_nanos,
{
    let mut records: Vec<ResultRecord> = Vec::new();
    let mut i: usize = 0;
    while i < descriptors.len()
        invariant
            i <= descriptors@.len(),
            completions@.len() == descriptors@.len(),
            within(completions@, batch_start, batch_end),
            records@ == records_of(descriptors@, completions@).take(i as int),
        decreases descriptors@.len() - i,
    {
        let c = &completions[i];
        let rec = finish_request(descriptors[i].duplicate(), &c.reply, c.started_at, c.ended_at);
        records.push(rec);
        i = i + 1;
        assert(records@ == records_of(descriptors@, completions@).take(i as int));
    }
    assert(records@ == records_of(descriptors@, completions@));
    BatchOutcome { records, total_nanos: batch_end - batch_start }
}

/// Fault isolation in a concurrent batch: whatever happens to the request at
/// position `j`, the records at every other position stay the same.
pub proof fn lemma_fault_isolation(ds: Seq<Descriptor>, a: Seq<Completion>, b: Seq<Completion>, j: int)
    requires
        a.len() == ds.len(),
        b.len() == ds.len(),
        forall|i: int| 0 <= i < ds.len() && i != j ==> #[trigger] a[i] == b[i],
    ensures
        records_of(ds, a).len() == ds.len(),
        records_of(ds, b).len() == ds.len(),
        forall|i: int| 0 <= i < ds.len() && i != j ==> #[trigger] records_of(ds, a)[i] == records_of(ds, b)[i],
{
    assert forall|i: int| 0 <= i < ds.len() && i != j implies #[trigger] records_of(ds, a)[i] == records_of(ds, b)[i] by {
        assert(a[i] == b[i]);
    }
}

/// A concurrent batch yields exactly one record per descriptor.
pub proof fn lemma_one_record_per_descriptor(ds: Seq<Descriptor>, cs: Seq<Completion>)
    requires
        cs.len() == ds.len(),
    ensures
        records_of(ds, cs).len() == ds.len(),
        echoes(records_of(ds, cs), ds),
{
}

} // verus!
