//! The outbound delivery queue: one job per target inbox, retried with
//! exponential backoff and dropped after a bounded number of attempts.

use vstd::prelude::*;
use crate::apub::model::Actor;
use crate::rows::{
    distinct, first_index, first_occurrences, lemma_first_index, lemma_first_index_absent,
    lemma_first_index_is, lemma_first_occurrences,
};
use crate::text::texts;

verus! {

/// The inboxes to deliver to: the given ones, each once, in the order of
/// their first mention.
pub fn unique_inboxes(targets: &Vec<String>) -> (r: Vec<String>)
    ensures
        texts(r@) == first_occurrences(texts(targets@)),
{
    let mut out: Vec<String> = Vec::new();
    let mut i: usize = 0;
    assert(texts(targets@).take(0) =~= Seq::empty());
    assert(texts(out@) =~= Seq::empty());
    while i < targets.len()
        invariant
            i <= targets.len(),
            texts(out@) == first_occurrences(texts(targets@).take(i as int)),
        decreases targets.len() - i,
    {
        let ghost before = texts(out@);
        proof {
            assert(texts(targets@).take(i + 1).drop_last() =~= texts(targets@).take(i as int));
            assert(texts(targets@).take(i + 1).last() == targets@[i as int]@);
        }
        let mut seen = false;
        let mut j: usize = 0;
        while j < out.len()
            invariant
                j <= out.len(),
                i < targets.len(),
                !seen ==> forall|k: int| 0 <= k < j ==> texts(out@)[k] != targets@[i as int]@,
                seen ==> texts(out@).contains(targets@[i as int]@),
            decreases out.len() - j,
        {
            if out[j] == targets[i] {
                seen = true;
                assert(texts(out@)[j as int] == targets@[i as int]@);
            }
            j += 1;
        }
        if !seen {
            out.push(targets[i].clone());
            assert(texts(out@) =~= before.push(targets@[i as int]@));
        }
        i += 1;
    }
    assert(texts(targets@).take(targets.len() as int) =~= texts(targets@));
    out
}

/// Two to the `n`.
pub open spec fn doubled(n: nat) -> nat
    decreases n,
{
    if n == 0 {
        1
    } else {
        2 * doubled((n - 1) as nat)
    }
}

/// Seconds to wait after the given number of failed attempts: the base
/// delay, doubled with every failure after the first, and no more than the
/// clock can count.
pub open spec fn spec_backoff(base: i64, failures: u32) -> int {
    let b: int = if base < 0 {
        0
    } else {
        base as int
    };
    let e: nat = if failures == 0 {
        0
    } else {
        (failures - 1) as nat
    };
    let d = b * doubled(e);
    if d > i64::MAX {
        i64::MAX as int
    } else {
        d
    }
}

/// Seconds to wait after the given number of failed attempts.
pub fn backoff(base: i64, failures: u32) -> (r: i64)
    ensures
        r == spec_backoff(base, failures),
{
    let b: i64 = if base < 0 {
        0
    } else {
        base
    };
    let mut d: i64 = b;
    let mut k: u32 = 1;
    assert(doubled(0) == 1);
    assert(b * doubled(0) == b);
    while k < failures
        invariant
            1 <= k,
            k <= failures || k == 1,
            0 <= b,
            0 <= d,
            d == (if b * doubled((k - 1) as nat) > i64::MAX {
                i64::MAX as int
            } else {
                b * doubled((k - 1) as nat)
            }),
        decreases failures - k,
    {
        assert(doubled(k as nat) == 2 * doubled((k - 1) as nat));
        assert(b * doubled(k as nat) == 2 * (b * doubled((k - 1) as nat))) by (nonlinear_arith)
            requires
                doubled(k as nat) == 2 * doubled((k - 1) as nat),
        ;
        if d > i64::MAX / 2 {
            d = i64::MAX;
        } else {
            d = d * 2;
        }
        k += 1;
    }
    assert(doubled(0) == 1);
    assert(b * 1 == b);
    d
}

/// One delivery of one activity to one inbox.
#[derive(Debug)]
pub struct DeliveryJob {
    pub id: u64,
    /// URL of the inbox to post to.
    pub inbox: String,
    /// The serialized activity.
    pub body: String,
    /// URI of the sending actor.
    pub actor: String,
    /// PEM text of the key the request is signed with.
    pub private_key: String,
    /// Attempts that have failed so far.
    pub attempts: u32,
    /// Earliest time of the next attempt.
    pub next_attempt_at: i64,
}

/// A delivery job as a value.
pub ghost struct JobView {
    pub id: u64,
    pub inbox: Seq<char>,
    pub body: Seq<char>,
    pub actor: Seq<char>,
    pub private_key: Seq<char>,
    pub attempts: u32,
    pub next_attempt_at: i64,
}

impl View for DeliveryJob {
    type V = JobView;

    open spec fn view(&self) -> JobView {
        JobView {
            id: self.id,
            inbox: self.inbox@,
            body: self.body@,
            actor: self.actor@,
            private_key: self.private_key@,
            attempts: self.attempts,
            next_attempt_at: self.next_attempt_at,
        }
    }
}

/// The numbers of the jobs, in order.
pub open spec fn job_ids(jobs: Seq<JobView>) -> Seq<u64> {
    Seq::new(jobs.len(), |i: int| jobs[i].id)
}

/// The jobs that one activity makes: one per inbox, numbered from
/// `first_id`, due at once.
pub open spec fn new_jobs(
    inboxes: Seq<Seq<char>>,
    body: Seq<char>,
    actor: Seq<char>,
    private_key: Seq<char>,
    first_id: u64,
    now: i64,
) -> Seq<JobView> {
    Seq::new(
        inboxes.len(),
        |i: int|
            JobView {
                id: (first_id + i) as u64,
                inbox: inboxes[i],
                body,
                actor,
                private_key,
                attempts: 0,
                next_attempt_at: now,
            },
    )
}

/// The state of the queue: the jobs in the order they were made, the
/// next job number, and the retry policy.
pub ghost struct QueueView {
    pub jobs: Seq<JobView>,
    pub next_job: u64,
    pub max_attempts: u32,
    pub backoff_base: i64,
}

/// What became of a job after an attempt was reported.
#[derive(Clone, Copy, Debug, PartialEq, Eq, Structural)]
pub enum JobStatus {
    /// The target took the activity; the job is gone.
    Delivered,
    /// The attempt failed; the next one is due at the given time.
    Retry(i64),
    /// The attempt failed and no attempts are left; the job is gone.
    Dropped,
    /// The queue holds no such job.
    Unknown,
}

/// Why nothing was enqueued.
#[derive(Clone, Copy, Debug, PartialEq, Eq, Structural)]
pub enum DeliveryError {
    /// The sending actor has no private key: it is not a local actor.
    NoPrivateKey,
    /// The queue cannot number more jobs.
    QueueFull,
}

/// The time `delay` seconds after `now`, or the end of time.
pub open spec fn spec_later(now: i64, delay: int) -> i64 {
    if now + delay > i64::MAX {
        i64::MAX
    } else {
        (now + delay) as i64
    }
}

impl QueueView {
    /// Job numbers are unique and below the next number to hand out, and
    /// no job has failed as often as the policy allows attempts.
    pub open spec fn wf(self) -> bool {
        &&& distinct(job_ids(self.jobs))
        &&& forall|i: int| 0 <= i < self.jobs.len() ==> (#[trigger] self.jobs[i]).id < self.next_job
        &&& forall|i: int|
            0 <= i < self.jobs.len() ==> (#[trigger] self.jobs[i]).attempts == 0
                || self.jobs[i].attempts < self.max_attempts
    }

    /// Place of the job with this number, or the number of jobs if there is
    /// none.
    pub open spec fn job_index(self, id: u64) -> int {
        first_index(job_ids(self.jobs), id)
    }

    /// The job with this number.
    pub open spec fn job(self, id: u64) -> Option<JobView> {
        let i = self.job_index(id);
        if i < self.jobs.len() {
            Some(self.jobs[i])
        } else {
            None
        }
    }

    /// The queue after an activity was enqueued for the given inboxes,
    /// each one taken once.
    pub open spec fn enqueue(
        self,
        body: Seq<char>,
        actor: Seq<char>,
        private_key: Seq<char>,
        targets: Seq<Seq<char>>,
        now: i64,
    ) -> QueueView {
        let inboxes = first_occurrences(targets);
        QueueView {
            jobs: self.jobs + new_jobs(inboxes, body, actor, private_key, self.next_job, now),
            next_job: (self.next_job + inboxes.len()) as u64,
            ..self
        }
    }

    /// What a report of an attempt makes of the job.
    pub open spec fn status_after(self, id: u64, delivered: bool, now: i64) -> JobStatus {
        match self.job(id) {
            None => JobStatus::Unknown,
            Some(job) => if delivered {
                JobStatus::Delivered
            } else if job.attempts + 1 >= self.max_attempts {
                JobStatus::Dropped
            } else {
                JobStatus::Retry(
                    spec_later(now, spec_backoff(self.backoff_base, (job.attempts + 1) as u32)),
                )
            },
        }
    }

    /// The queue after an attempt was reported: a delivered job and a job
    /// out of attempts leave the queue, a failed job waits for its next
    /// attempt. No other job changes.
    pub open spec fn report(self, id: u64, delivered: bool, now: i64) -> QueueView {
        let i = self.job_index(id);
        match self.status_after(id, delivered, now) {
            JobStatus::Unknown => self,
            JobStatus::Delivered | JobStatus::Dropped => QueueView {
                jobs: self.jobs.remove(i),
                ..self
            },
            JobStatus::Retry(at) => QueueView {
                jobs: self.jobs.update(
                    i,
                    JobView {
                        attempts: (self.jobs[i].attempts + 1) as u32,
                        next_attempt_at: at,
                        ..self.jobs[i]
                    },
                ),
                ..self
            },
        }
    }

    /// Index of the first job that is due at `now`, or the number of jobs
    /// when none is.
    pub open spec fn due_index(self, now: i64) -> int {
        first_index(Seq::new(self.jobs.len(), |i: int| self.jobs[i].next_attempt_at <= now), true)
    }
}

/// The queue of deliveries that wait for an attempt.
pub struct DeliveryQueue {
    jobs: Vec<DeliveryJob>,
    next_job: u64,
    max_attempts: u32,
    backoff_base: i64,
}

impl View for DeliveryQueue {
    type V = QueueView;

    closed spec fn view(&self) -> QueueView {
        QueueView {
            jobs: Seq::new(self.jobs@.len(), |i: int| self.jobs@[i]@),
            next_job: self.next_job,
            max_attempts: self.max_attempts,
            backoff_base: self.backoff_base,
        }
    }
}

impl DeliveryQueue {
    /// An empty queue with the given retry policy.
    pub fn new(max_attempts: u32, backoff_base: i64) -> (r: DeliveryQueue)
        ensures
            r@.wf(),
            r@.jobs.len() == 0,
            r@.next_job == 1,
            r@.max_attempts == max_attempts,
            r@.backoff_base == backoff_base,
    {
        DeliveryQueue { jobs: Vec::new(), next_job: 1, max_attempts, backoff_base }
    }

    /// An empty queue with the given retry policy whose jobs are numbered
    /// from `first`.
    pub fn with_first_job(max_attempts: u32, backoff_base: i64, first: u64) -> (r: DeliveryQueue)
        ensures
            r@.wf(),
            r@.jobs.len() == 0,
            r@.next_job == first,
            r@.max_attempts == max_attempts,
            r@.backoff_base == backoff_base,
    {
        DeliveryQueue { jobs: Vec::new(), next_job: first, max_attempts, backoff_base }
    }

    /// Number of jobs that wait for delivery.
    pub fn pending(&self) -> (r: usize)
        ensures
            r == self@.jobs.len(),
    {
        self.jobs.len()
    }

    /// Enqueues an activity for delivery to the given inboxes. An inbox
    /// that is named more than once gets one job. Returns the number of
    /// jobs made. Fails, changing nothing, when the actor has no private
    /// key to sign with or the queue has run out of job numbers.
    pub fn send_activity(&mut self, body: &String, actor: &Actor, to: &Vec<String>, now: i64) -> (r:
        Result<usize, DeliveryError>)
        requires
            old(self)@.wf(),
        ensures
            final(self)@.wf(),
            actor@.private_key.is_none() ==> r == Err::<usize, DeliveryError>(
                DeliveryError::NoPrivateKey,
            ) && final(self)@ == old(self)@,
            actor@.private_key.is_some() && old(self)@.next_job + first_occurrences(
                texts(to@),
            ).len() > u64::MAX ==> r == Err::<usize, DeliveryError>(DeliveryError::QueueFull)
                && final(self)@ == old(self)@,
            actor@.private_key.is_some() && old(self)@.next_job + first_occurrences(
                texts(to@),
            ).len() <= u64::MAX ==> r == Ok::<usize, DeliveryError>(
                first_occurrences(texts(to@)).len() as usize,
            ) && final(self)@ == old(self)@.enqueue(
                body@,
                actor@.uri,
                actor@.private_key.unwrap(),
                texts(to@),
                now,
            ),
    {
        let key = match &actor.private_key {
            Some(key) => key,
            None => {
                return Err(DeliveryError::NoPrivateKey);
            },
        };
        let inboxes = unique_inboxes(to);
        let n = inboxes.len();
        if n as u64 > u64::MAX - self.next_job {
            return Err(DeliveryError::QueueFull);
        }
        let ghost target = self@.enqueue(body@, actor@.uri, key@, texts(to@), now);
        let ghost fresh = new_jobs(texts(inboxes@), body@, actor@.uri, key@, self.next_job, now);
        let first_id = self.next_job;
        let mut i: usize = 0;
        while i < n
            invariant
                i <= n,
                n == inboxes.len(),
                first_id + n <= u64::MAX,
                self.next_job == first_id,
                self.max_attempts == old(self).max_attempts,
                self.backoff_base == old(self).backoff_base,
                fresh == new_jobs(texts(inboxes@), body@, actor@.uri, key@, first_id, now),
                self@.jobs =~= old(self)@.jobs + fresh.take(i as int),
            decreases n - i,
        {
            self.jobs.push(
                DeliveryJob {
                    id: first_id + i as u64,
                    inbox: inboxes[i].clone(),
                    body: body.clone(),
                    actor: actor.uri.clone(),
                    private_key: key.clone(),
                    attempts: 0,
                    next_attempt_at: now,
                },
            );
            assert(fresh.take(i + 1) =~= fresh.take(i as int).push(fresh[i as int]));
            assert(self.jobs@[self.jobs@.len() - 1]@ == fresh[i as int]);
            assert(self@.jobs =~= (old(self)@.jobs + fresh.take(i as int)).push(fresh[i as int]));
            i += 1;
        }
        self.next_job = first_id + n as u64;
        proof {
            assert(fresh.take(n as int) =~= fresh);
            assert(self@.jobs =~= target.jobs);
            lemma_first_occurrences(texts(to@));
            assert forall|a: int, b: int| 0 <= a < b < self@.jobs.len() implies job_ids(
                self@.jobs,
            )[a] != job_ids(self@.jobs)[b] by {
                let m = old(self)@.jobs.len();
                if b < m {
                    assert(job_ids(old(self)@.jobs)[a] != job_ids(old(self)@.jobs)[b]);
                } else if a < m {
                    assert(old(self)@.jobs[a].id < first_id);
                } else {
                }
            }
        }
        Ok(n)
    }

    /// The first job that is due at `now`.
    pub fn next_due(&self, now: i64) -> (r: Option<&DeliveryJob>)
        ensures
            match r {
                Some(job) => self@.due_index(now) < self@.jobs.len() && job@
                    == self@.jobs[self@.due_index(now)] && job@.next_attempt_at <= now,
                None => self@.due_index(now) == self@.jobs.len() && forall|i: int|
                    0 <= i < self@.jobs.len() ==> (#[trigger] self@.jobs[i]).next_attempt_at > now,
            },
    {
        let ghost due = Seq::new(self@.jobs.len(), |i: int| self@.jobs[i].next_attempt_at <= now);
        let mut i: usize = 0;
        while i < self.jobs.len()
            invariant
                i <= self.jobs.len(),
                due == Seq::new(self@.jobs.len(), |i: int| self@.jobs[i].next_attempt_at <= now),
                forall|j: int| 0 <= j < i ==> due[j] != true,
            decreases self.jobs.len() - i,
        {
            if self.jobs[i].next_attempt_at <= now {
                proof {
                    lemma_first_index_is(due, true, i as int);
                }
                return Some(&self.jobs[i]);
            }
            i += 1;
        }
        proof {
            lemma_first_index_absent(due, true);
            assert forall|i: int| 0 <= i < self@.jobs.len() implies (
            #[trigger] self@.jobs[i]).next_attempt_at > now by {
                assert(due[i] != true);
            }
        }
        None
    }

    /// Takes the report of a delivery attempt. A delivered job leaves the
    /// queue. A failed job waits for its next attempt, or leaves the queue
    /// when its attempts are used up. No other job is touched.
    pub fn report(&mut self, job_id: u64, delivered: bool, now: i64) -> (r: JobStatus)
        requires
            old(self)@.wf(),
        ensures
            final(self)@.wf(),
            r == old(self)@.status_after(job_id, delivered, now),
            final(self)@ == old(self)@.report(job_id, delivered, now),
    {
        let ghost ids = job_ids(self@.jobs);
        let mut i: usize = 0;
        let mut found: Option<usize> = None;
        while i < self.jobs.len() && found.is_none()
            invariant
                i <= self.jobs.len(),
                ids == job_ids(self@.jobs),
                self@ == old(self)@,
                match found {
                    Some(k) => k < self.jobs.len() && k == first_index(ids, job_id),
                    None => forall|j: int| 0 <= j < i ==> ids[j] != job_id,
                },
            decreases self.jobs.len() - i + if found.is_none() { 1int } else { 0int },
        {
            if self.jobs[i].id == job_id {
                proof {
                    lemma_first_index_is(ids, job_id, i as int);
                }
                found = Some(i);
            } else {
                i += 1;
            }
        }
        match found {
            None => {
                proof {
                    lemma_first_index_absent(ids, job_id);
                }
                JobStatus::Unknown
            },
            Some(i) => {
                proof {
                    old(self)@.lemma_report(job_id, delivered, now);
                }
                if delivered {
                    self.jobs.remove(i);
                    assert(self@.jobs =~= old(self)@.report(job_id, delivered, now).jobs);
                    JobStatus::Delivered
                } else if self.jobs[i].attempts >= self.max_attempts || self.jobs[i].attempts + 1
                    >= self.max_attempts {
                    self.jobs.remove(i);
                    assert(self@.jobs =~= old(self)@.report(job_id, delivered, now).jobs);
                    JobStatus::Dropped
                } else {
                    let failures = self.jobs[i].attempts + 1;
                    let delay = backoff(self.backoff_base, failures);
                    let at = if delay > 0 && now > i64::MAX - delay {
                        i64::MAX
                    } else {
                        now + delay
                    };
                    self.jobs[i].attempts = failures;
                    self.jobs[i].next_attempt_at = at;
                    assert(self@.jobs =~= old(self)@.report(job_id, delivered, now).jobs);
                    JobStatus::Retry(at)
                }
            },
        }
    }
}

impl QueueView {
    /// A report keeps the queue well formed and touches no job but the one
    /// reported on.
    pub proof fn lemma_report(self, id: u64, delivered: bool, now: i64)
        requires
            self.wf(),
        ensures
            self.report(id, delivered, now).wf(),
            0 <= self.job_index(id) <= self.jobs.len(),
            forall|other: u64| other != id ==> #[trigger] self.report(id, delivered, now).job(other)
                == self.job(other),
    {
        let after = self.report(id, delivered, now);
        let ids = job_ids(self.jobs);
        let ids2 = job_ids(after.jobs);
        let i = self.job_index(id);
        lemma_first_index(ids, id);
        if i < self.jobs.len() {
            match self.status_after(id, delivered, now) {
                JobStatus::Retry(_) => {
                    assert(ids2 =~= ids);
                    assert forall|other: u64| other != id implies #[trigger] after.job(other)
                        == self.job(other) by {
                        lemma_first_index(ids, other);
                    }
                },
                _ => {
                    assert(ids2 =~= ids.remove(i));
                    assert(distinct(ids2)) by {
                        assert forall|a: int, b: int| 0 <= a < b < ids2.len() implies ids2[a]
                            != ids2[b] by {
                            let a0 = if a < i { a } else { a + 1 };
                            let b0 = if b < i { b } else { b + 1 };
                            assert(ids2[a] == ids[a0]);
                            assert(ids2[b] == ids[b0]);
                            assert(ids[a0] != ids[b0]);
                        }
                    }
                    assert forall|k: int| 0 <= k < after.jobs.len() implies (
                    #[trigger] after.jobs[k]).id < after.next_job by {
                        let k0 = if k < i { k } else { k + 1 };
                        assert(after.jobs[k] == self.jobs[k0]);
                    }
                    assert forall|other: u64| other != id implies #[trigger] after.job(other)
                        == self.job(other) by {
                        lemma_first_index(ids, other);
                        lemma_first_index(ids2, other);
                        let p = first_index(ids, other);
                        let q = first_index(ids2, other);
                        if p < ids.len() {
                            let moved = if p < i { p } else { p - 1 };
                            assert(ids2[moved] == other);
                            if q < moved {
                                let q0 = if q < i { q } else { q + 1 };
                                assert(ids[q0] == other);
                                assert(ids[q0] != ids[p]);
                            }
                            assert(after.jobs[moved] == self.jobs[p]);
                        }
                        if q < ids2.len() {
                            let q0 = if q < i { q } else { q + 1 };
                            assert(ids[q0] == other);
                        }
                    }
                },
            }
        }
    }
}

/// A failure on one target does not stand in the way of another: a report
/// on one job leaves every other job as it was, still in the queue and
/// due when it was due.
pub proof fn law_failure_is_isolated(q: QueueView, failed: u64, other: u64, now: i64)
    requires
        q.wf(),
        failed != other,
    ensures
        q.report(failed, false, now).job(other) == q.job(other),
{
    q.lemma_report(failed, false, now);
}

/// Attempts are bounded: a job that fails when it has one attempt left
/// leaves the queue, so that no job is posted more often than the policy
/// allows, and a job that succeeds leaves it at once.
pub proof fn law_attempts_bounded(q: QueueView, id: u64, delivered: bool, now: i64)
    requires
        q.wf(),
        q.job(id).is_some(),
        delivered || q.job(id).unwrap().attempts + 1 >= q.max_attempts,
    ensures
        q.report(id, delivered, now).job(id).is_none(),
        q.report(id, delivered, now).jobs.len() == q.jobs.len() - 1,
{
    let ids = job_ids(q.jobs);
    let i = q.job_index(id);
    lemma_first_index(ids, id);
    let after = q.report(id, delivered, now);
    let ids2 = job_ids(after.jobs);
    assert(ids2 =~= ids.remove(i));
    assert forall|k: int| 0 <= k < ids2.len() implies ids2[k] != id by {
        let k0 = if k < i {
            k
        } else {
            k + 1
        };
        assert(ids2[k] == ids[k0]);
        if k0 != i {
            if k0 < i {
                assert(ids[k0] != ids[i]);
            } else {
                assert(ids[i] != ids[k0]);
            }
        }
    }
    lemma_first_index_absent(ids2, id);
}

/// One activity makes one job per distinct inbox, and so no more jobs
/// than inboxes were named.
pub proof fn law_fan_out(
    q: QueueView,
    body: Seq<char>,
    actor: Seq<char>,
    private_key: Seq<char>,
    targets: Seq<Seq<char>>,
    now: i64,
)
    ensures
        ({
            let after = q.enqueue(body, actor, private_key, targets, now);
            let made = after.jobs.subrange(q.jobs.len() as int, after.jobs.len() as int);
            &&& after.jobs.len() - q.jobs.len() <= targets.len()
            &&& after.jobs.take(q.jobs.len() as int) == q.jobs
            &&& distinct(Seq::new(made.len(), |i: int| made[i].inbox))
            &&& forall|t: Seq<char>| targets.contains(t) <==> exists|i: int|
                0 <= i < made.len() && (#[trigger] made[i]).inbox == t
        }),
{
    lemma_first_occurrences(targets);
    let inboxes = first_occurrences(targets);
    let after = q.enqueue(body, actor, private_key, targets, now);
    let made = after.jobs.subrange(q.jobs.len() as int, after.jobs.len() as int);
    assert(after.jobs.take(q.jobs.len() as int) =~= q.jobs);
    assert(made =~= new_jobs(inboxes, body, actor, private_key, q.next_job, now));
    assert(Seq::new(made.len(), |i: int| made[i].inbox) =~= inboxes);
    assert forall|t: Seq<char>| targets.contains(t) <==> exists|i: int|
        0 <= i < made.len() && (#[trigger] made[i]).inbox == t by {
        if targets.contains(t) {
            assert(inboxes.contains(t));
            let i = choose|i: int| 0 <= i < inboxes.len() && inboxes[i] == t;
            assert(made[i].inbox == t);
        }
        if exists|i: int| 0 <= i < made.len() && (#[trigger] made[i]).inbox == t {
            let i = choose|i: int| 0 <= i < made.len() && (#[trigger] made[i]).inbox == t;
            assert(inboxes[i] == t);
            assert(inboxes.contains(t));
        }
    }
}

} // verus!
