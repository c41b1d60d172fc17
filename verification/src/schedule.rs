use crate::config::Bucket;
use crate::config::Config;
use crate::config::Object;
use vstd::prelude::*;

verus! {

/// One unit of work: one expectation on one bucket. A task holds its own
/// copy of the bucket's name and of the expectation, and shares nothing with
/// its siblings.
#[derive(Debug, PartialEq, Eq)]
pub struct Task {
    pub bucket: String,
    pub file: Object,
}

/// The tasks of one bucket: one for each of its expectations, in their order.
pub open spec fn bucket_tasks(bucket: Bucket) -> Seq<Task> {
    Seq::new(
        bucket.objects@.len(),
        |i: int| Task { bucket: bucket.name, file: bucket.objects@[i] },
    )
}

/// The tasks of a run: those of each bucket, bucket after bucket.
pub open spec fn tasks_of(buckets: Seq<Bucket>) -> Seq<Task>
    decreases buckets.len(),
{
    if buckets.len() == 0 {
        Seq::empty()
    } else {
        tasks_of(buckets.drop_last()) + bucket_tasks(buckets.last())
    }
}

/// The number of expectations in all the buckets together.
pub open spec fn count_checks(buckets: Seq<Bucket>) -> nat
    decreases buckets.len(),
{
    if buckets.len() == 0 {
        0
    } else {
        count_checks(buckets.drop_last()) + buckets.last().objects@.len()
    }
}

/// A run has exactly one task for each pair of a bucket and one of its
/// expectations.
pub proof fn lemma_one_task_per_check(buckets: Seq<Bucket>)
    ensures
        tasks_of(buckets).len() == count_checks(buckets),
    decreases buckets.len(),
{
    if buckets.len() > 0 {
        lemma_one_task_per_check(buckets.drop_last());
    }
}

/// Lays out the work of a run: one task for each expectation of each bucket.
pub fn plan(config: &Config) -> (tasks: Vec<Task>)
    ensures
        tasks@ == tasks_of(config.s3mon.buckets@),
{
    let buckets = &config.s3mon.buckets;
    let mut tasks: Vec<Task> = Vec::new();
    let mut b: usize = 0;
    while b < buckets.len()
        invariant
            b <= buckets.len(),
            tasks@ == tasks_of(buckets@.take(b as int)),
        decreases buckets.len() - b,
    {
        let bucket = &buckets[b];
        let ghost done = tasks@;
        let mut i: usize = 0;
        while i < bucket.objects.len()
            invariant
                i <= bucket.objects.len(),
                tasks@ == done + bucket_tasks(*bucket).take(i as int),
            decreases bucket.objects.len() - i,
        {
            tasks.push(Task { bucket: bucket.name.clone(), file: bucket.objects[i].clone() });
            proof {
                assert(bucket_tasks(*bucket).take(i + 1) =~= bucket_tasks(*bucket).take(
                    i as int,
                ).push(bucket_tasks(*bucket)[i as int]));
            }
            i += 1;
        }
        proof {
            assert(bucket_tasks(*bucket).take(i as int) =~= bucket_tasks(*bucket));
            assert(buckets@.take(b + 1).drop_last() =~= buckets@.take(b as int));
            assert(buckets@.take(b + 1).last() == *bucket);
        }
        b += 1;
    }
    proof {
        assert(buckets@.take(b as int) =~= buckets@);
    }
    tasks
}

/// Where a run stands: not started, waiting for some tasks to finish, or
/// finished.
#[derive(Debug, Clone, Copy, PartialEq, Eq, Structural)]
pub enum Phase {
    Idle,
    Running { outstanding: usize },
    Done,
}

impl Phase {
    /// The phase after `tasks` tasks have been started: with none there is
    /// nothing to wait for.
    pub open spec fn started(tasks: usize) -> Phase {
        if tasks == 0 {
            Phase::Done
        } else {
            Phase::Running { outstanding: tasks }
        }
    }

    /// The phase after one task has finished, well or badly. Outside a run
    /// nothing changes.
    pub open spec fn after_one(self) -> Phase {
        match self {
            Phase::Running { outstanding } => if outstanding <= 1 {
                Phase::Done
            } else {
                Phase::Running { outstanding: (outstanding - 1) as usize }
            },
            other => other,
        }
    }

    /// The phase after `finished` tasks have finished.
    pub open spec fn after(self, finished: nat) -> Phase
        decreases finished,
    {
        if finished == 0 {
            self
        } else {
            self.after_one().after((finished - 1) as nat)
        }
    }

    /// Starts a run of `tasks` tasks.
    pub fn start(tasks: usize) -> (phase: Phase)
        ensures
            phase == Phase::started(tasks),
    {
        if tasks == 0 {
            Phase::Done
        } else {
            Phase::Running { outstanding: tasks }
        }
    }

    /// Records that one task has finished.
    pub fn task_finished(self) -> (phase: Phase)
        ensures
            phase == self.after_one(),
    {
        match self {
            Phase::Running { outstanding } => {
                if outstanding <= 1 {
                    Phase::Done
                } else {
                    Phase::Running { outstanding: outstanding - 1 }
                }
            },
            other => other,
        }
    }

    /// Whether the run is over.
    pub fn is_done(&self) -> (done: bool)
        ensures
            done == (*self == Phase::Done),
    {
        match self {
            Phase::Done => true,
            _ => false,
        }
    }

    /// A run is over when every task that was started has finished, and not
    /// before.
    pub proof fn lemma_done_after_all(tasks: usize, finished: nat)
        requires
            finished <= tasks,
        ensures
            (Phase::started(tasks).after(finished) == Phase::Done) <==> finished == tasks,
            finished < tasks ==> Phase::started(tasks).after(finished) == (Phase::Running {
                outstanding: (tasks - finished) as usize,
            }),
        decreases finished,
    {
        if finished > 0 {
            Self::lemma_done_after_all(tasks, (finished - 1) as nat);
            Self::lemma_after_step(Phase::started(tasks), (finished - 1) as nat);
        }
    }

    /// Finishing one more task after `finished` of them is finishing
    /// `finished + 1`.
    pub proof fn lemma_after_step(phase: Phase, finished: nat)
        ensures
            phase.after(finished + 1) == phase.after(finished).after_one(),
        decreases finished,
    {
        assert(phase.after(finished + 1) == phase.after_one().after(finished));
        if finished > 0 {
            Self::lemma_after_step(phase.after_one(), (finished - 1) as nat);
            assert(phase.after(finished) == phase.after_one().after((finished - 1) as nat));
        } else {
            assert(phase.after_one().after(0) == phase.after_one());
            assert(phase.after(0) == phase);
        }
    }
}

} // verus!
