use vstd::prelude::*;

use crate::bytes::copy_string;
use crate::error::ZKMProverError;
use crate::prover::{ProverInput, ProverInputView, ProverResult, ProverResultView};

verus! {

/// One job of the local prover: its request, and its outcome (a result, or
/// the backend's failure message) once the background worker has recorded
/// it. `waiters` counts the callers awaiting
/// the job; a `retired` job has handed its result out and can no longer be
/// awaited anew.
pub struct ProverTask {
    proof_id: String,
    input: ProverInput,
    result: Option<Result<ProverResult, String>>,
    is_done: bool,
    key_path: String,
    waiters: u64,
    retired: bool,
}

pub struct ProverTaskView {
    pub proof_id: Seq<char>,
    pub input: ProverInputView,
    pub result: Option<Result<ProverResultView, String>>,
    pub key_path: Seq<char>,
    pub waiters: nat,
    pub retired: bool,
}

/// A job's outcome, seen through the result's view.
pub open spec fn outcome_view(o: Result<ProverResult, String>) -> Result<ProverResultView, String> {
    match o {
        Ok(x) => Ok(x@),
        Err(m) => Err(m),
    }
}

pub open spec fn option_outcome_view(r: Option<Result<ProverResult, String>>) -> Option<
    Result<ProverResultView, String>,
> {
    match r {
        Some(o) => Some(outcome_view(o)),
        None => None,
    }
}

/// What a waiter receives for a recorded outcome: the result, or the
/// backend's failure as a proving error.
pub open spec fn handed_out(o: Result<ProverResultView, String>) -> Result<
    Option<ProverResultView>,
    ZKMProverError,
> {
    match o {
        Ok(v) => Ok(Some(v)),
        Err(m) => Err(ZKMProverError::ProvingError(m)),
    }
}

impl View for ProverTask {
    type V = ProverTaskView;

    closed spec fn view(&self) -> ProverTaskView {
        ProverTaskView {
            proof_id: self.proof_id@,
            input: self.input@,
            result: option_outcome_view(self.result),
            key_path: self.key_path@,
            waiters: self.waiters as nat,
            retired: self.retired,
        }
    }
}

/// A freshly submitted job: running, unawaited.
pub open spec fn fresh_task(proof_id: Seq<char>, input: ProverInputView, key_path: Seq<char>) -> ProverTaskView {
    ProverTaskView { proof_id, input, result: None, key_path, waiters: 0, retired: false }
}

impl ProverTask {
    pub closed spec fn wf(&self) -> bool {
        &&& self.is_done == self.result.is_some()
        &&& self.retired ==> self.is_done
    }

    fn new(proof_id: &String, key_path: &String, input: &ProverInput) -> (r: ProverTask)
        ensures
            r.wf(),
            r@ == fresh_task(proof_id@, input@, key_path@),
    {
        ProverTask {
            proof_id: copy_string(proof_id),
            input: input.duplicate(),
            result: None,
            is_done: false,
            key_path: copy_string(key_path),
            waiters: 0,
            retired: false,
        }
    }

    /// Whether the job's result has been recorded.
    pub fn is_done(&self) -> (r: bool)
        requires
            self.wf(),
        ensures
            r == self@.result.is_some(),
    {
        self.is_done
    }
}

/// A job the table can still hand out to a new waiter.
pub open spec fn awaitable(jobs: Map<Seq<char>, ProverTaskView>, id: Seq<char>) -> bool {
    jobs.contains_key(id) && !jobs[id].retired
}

/// Submitting a job under `id`.
pub open spec fn spec_submit(
    jobs: Map<Seq<char>, ProverTaskView>,
    id: Seq<char>,
    input: ProverInputView,
    key_path: Seq<char>,
) -> (Map<Seq<char>, ProverTaskView>, Result<(), ZKMProverError>) {
    if jobs.contains_key(id) {
        (jobs, Err(ZKMProverError::DuplicateJob))
    } else {
        (jobs.insert(id, fresh_task(id, input, key_path)), Ok(()))
    }
}

/// The background worker recording the outcome of job `id`.
pub open spec fn spec_record(
    jobs: Map<Seq<char>, ProverTaskView>,
    id: Seq<char>,
    result: Result<ProverResultView, String>,
) -> (Map<Seq<char>, ProverTaskView>, Result<(), ZKMProverError>) {
    if !jobs.contains_key(id) {
        (jobs, Err(ZKMProverError::JobNotFound))
    } else if jobs[id].result.is_some() {
        (jobs, Err(ZKMProverError::JobAlreadyDone))
    } else {
        (jobs.insert(id, ProverTaskView { result: Some(result), ..jobs[id] }), Ok(()))
    }
}

/// A caller starting to await job `id`.
pub open spec fn spec_wait_begin(jobs: Map<Seq<char>, ProverTaskView>, id: Seq<char>) -> (
    Map<Seq<char>, ProverTaskView>,
    Result<(), ZKMProverError>,
) {
    if !awaitable(jobs, id) {
        (jobs, Err(ZKMProverError::JobNotFound))
    } else if jobs[id].waiters >= u64::MAX {
        (jobs, Err(ZKMProverError::JobPending))
    } else {
        (jobs.insert(id, ProverTaskView { waiters: jobs[id].waiters + 1, ..jobs[id] }), Ok(()))
    }
}

/// One poll by a caller awaiting job `id`: nothing yet while the job runs;
/// once it is done, its outcome, and the caller stops waiting. The first such
/// hand-out retires the job; the last one removes it from the table.
pub open spec fn spec_wait_poll(jobs: Map<Seq<char>, ProverTaskView>, id: Seq<char>) -> (
    Map<Seq<char>, ProverTaskView>,
    Result<Option<ProverResultView>, ZKMProverError>,
) {
    if !jobs.contains_key(id) || jobs[id].waiters == 0 {
        (jobs, Err(ZKMProverError::JobNotFound))
    } else {
        match jobs[id].result {
            None => (jobs, Ok(None)),
            Some(r) => {
                if jobs[id].waiters == 1 {
                    (jobs.remove(id), handed_out(r))
                } else {
                    (
                        jobs.insert(
                            id,
                            ProverTaskView {
                                waiters: (jobs[id].waiters - 1) as nat,
                                retired: true,
                                ..jobs[id]
                            },
                        ),
                        handed_out(r),
                    )
                }
            },
        }
    }
}

/// A caller giving up on job `id` (its time bound passed); the job keeps
/// running.
pub open spec fn spec_wait_abandon(jobs: Map<Seq<char>, ProverTaskView>, id: Seq<char>) -> Map<
    Seq<char>,
    ProverTaskView,
> {
    if !jobs.contains_key(id) || jobs[id].waiters == 0 {
        jobs
    } else if jobs[id].waiters == 1 && jobs[id].retired {
        jobs.remove(id)
    } else {
        jobs.insert(id, ProverTaskView { waiters: (jobs[id].waiters - 1) as nat, ..jobs[id] })
    }
}

/// The local prover's job table.
pub struct LocalProver {
    tasks: Vec<ProverTask>,
    key_path: String,
}

spec fn has_id(tasks: Seq<ProverTask>, id: Seq<char>) -> bool {
    exists|i: int| 0 <= i < tasks.len() && (#[trigger] tasks[i]).proof_id@ == id
}

spec fn index_of(tasks: Seq<ProverTask>, id: Seq<char>) -> int {
    choose|i: int| 0 <= i < tasks.len() && (#[trigger] tasks[i]).proof_id@ == id
}

spec fn ids_unique(tasks: Seq<ProverTask>) -> bool {
    forall|i: int, j: int|
        0 <= i < tasks.len() && 0 <= j < tasks.len() && i != j ==> (#[trigger] tasks[i]).proof_id@
            != (#[trigger] tasks[j]).proof_id@
}

spec fn table_view(tasks: Seq<ProverTask>) -> Map<Seq<char>, ProverTaskView> {
    Map::new(|id: Seq<char>| has_id(tasks, id), |id: Seq<char>| tasks[index_of(tasks, id)]@)
}

proof fn lemma_index_of(tasks: Seq<ProverTask>, i: int)
    requires
        ids_unique(tasks),
        0 <= i < tasks.len(),
    ensures
        has_id(tasks, tasks[i].proof_id@),
        index_of(tasks, tasks[i].proof_id@) == i,
        table_view(tasks).contains_key(tasks[i].proof_id@),
        table_view(tasks)[tasks[i].proof_id@] == tasks[i]@,
{
    let id = tasks[i].proof_id@;
    assert(has_id(tasks, id));
    let k = index_of(tasks, id);
    assert(tasks[k].proof_id@ == id);
}

impl LocalProver {
    pub closed spec fn wf(&self) -> bool {
        &&& ids_unique(self.tasks@)
        &&& forall|i: int| 0 <= i < self.tasks@.len() ==> (#[trigger] self.tasks@[i]).wf()
        &&& forall|i: int|
            0 <= i < self.tasks@.len() ==> (#[trigger] self.tasks@[i]).retired
                ==> self.tasks@[i].waiters > 0
    }

    /// The tracked jobs, by identifier.
    pub closed spec fn jobs(&self) -> Map<Seq<char>, ProverTaskView> {
        table_view(self.tasks@)
    }

    /// Where the proving and verifying keys live.
    pub closed spec fn key_path_view(&self) -> Seq<char> {
        self.key_path@
    }

    /// Where the proving and verifying keys live.
    pub fn key_path(&self) -> (r: &String)
        ensures
            r@ == self.key_path_view(),
    {
        &self.key_path
    }

    /// An empty job table whose jobs use the key material under `key_path`.
    pub fn new(key_path: &str) -> (r: LocalProver)
        ensures
            r.wf(),
            r.jobs() == Map::<Seq<char>, ProverTaskView>::empty(),
            r.key_path_view() == key_path@,
    {
        let r = LocalProver { tasks: Vec::new(), key_path: String::from_str(key_path) };
        assert(r.jobs() =~= Map::<Seq<char>, ProverTaskView>::empty());
        r
    }

    fn find(&self, proof_id: &String) -> (r: Option<usize>)
        requires
            self.wf(),
        ensures
            match r {
                Some(i) => i < self.tasks@.len() && self.tasks@[i as int].proof_id@ == proof_id@
                    && index_of(self.tasks@, proof_id@) == i,
                None => !has_id(self.tasks@, proof_id@),
            },
            r.is_some() == self.jobs().contains_key(proof_id@),
    {
        let n = self.tasks.len();
        let mut i: usize = 0;
        while i < n
            invariant
                self.wf(),
                n == self.tasks@.len(),
                i <= n,
                forall|j: int| 0 <= j < i ==> (#[trigger] self.tasks@[j]).proof_id@ != proof_id@,
            decreases n - i,
        {
            if self.tasks[i].proof_id == *proof_id {
                proof {
                    lemma_index_of(self.tasks@, i as int);
                }
                return Some(i);
            }
            i = i + 1;
        }
        None
    }

    /// Start tracking a job under `proof_id`, in the running state.
    pub fn submit(&mut self, proof_id: String, input: &ProverInput) -> (r: Result<
        (),
        ZKMProverError,
    >)
        requires
            old(self).wf(),
        ensures
            final(self).wf(),
            final(self).key_path_view() == old(self).key_path_view(),
            (final(self).jobs(), r) == spec_submit(
                old(self).jobs(),
                proof_id@,
                input@,
                old(self).key_path_view(),
            ),
    {
        if self.find(&proof_id).is_some() {
            return Err(ZKMProverError::DuplicateJob);
        }
        let task = ProverTask::new(&proof_id, &self.key_path, input);
        let ghost old_tasks = self.tasks@;
        self.tasks.push(task);
        proof {
            let tasks = self.tasks@;
            let n = old_tasks.len() as int;
            assert forall|i: int, j: int|
                0 <= i < tasks.len() && 0 <= j < tasks.len() && i != j implies (#[trigger] tasks[i]).proof_id@
                != (#[trigger] tasks[j]).proof_id@ by {
                if i == n {
                    assert(old_tasks[j] == tasks[j]);
                } else if j == n {
                    assert(old_tasks[i] == tasks[i]);
                }
            }
            lemma_push_view(old_tasks, task);
        }
        Ok(())
    }

    /// Record the outcome of job `proof_id`; a job's outcome is written at
    /// most once.
    pub fn record_result(&mut self, proof_id: &String, result: Result<ProverResult, String>) -> (r: Result<
        (),
        ZKMProverError,
    >)
        requires
            old(self).wf(),
        ensures
            final(self).wf(),
            final(self).key_path_view() == old(self).key_path_view(),
            (final(self).jobs(), r) == spec_record(old(self).jobs(), proof_id@, outcome_view(result)),
    {
        match self.find(proof_id) {
            None => Err(ZKMProverError::JobNotFound),
            Some(i) => {
                proof {
                    lemma_index_of(self.tasks@, i as int);
                }
                if self.tasks[i].is_done {
                    return Err(ZKMProverError::JobAlreadyDone);
                }
                let ghost old_tasks = self.tasks@;
                let mut task = self.tasks.remove(i);
                task.result = Some(result);
                task.is_done = true;
                self.tasks.insert(i, task);
                proof {
                    lemma_update_view(old_tasks, i as int, task);
                }
                Ok(())
            },
        }
    }

    /// A caller starts awaiting job `proof_id`.
    pub fn wait_begin(&mut self, proof_id: &String) -> (r: Result<(), ZKMProverError>)
        requires
            old(self).wf(),
        ensures
            final(self).wf(),
            final(self).key_path_view() == old(self).key_path_view(),
            (final(self).jobs(), r) == spec_wait_begin(old(self).jobs(), proof_id@),
    {
        match self.find(proof_id) {
            None => Err(ZKMProverError::JobNotFound),
            Some(i) => {
                proof {
                    lemma_index_of(self.tasks@, i as int);
                }
                if self.tasks[i].retired {
                    return Err(ZKMProverError::JobNotFound);
                }
                if self.tasks[i].waiters == u64::MAX {
                    return Err(ZKMProverError::JobPending);
                }
                let ghost old_tasks = self.tasks@;
                let mut task = self.tasks.remove(i);
                task.waiters = task.waiters + 1;
                self.tasks.insert(i, task);
                proof {
                    lemma_update_view(old_tasks, i as int, task);
                }
                Ok(())
            },
        }
    }

    /// One poll by a caller awaiting job `proof_id`.
    pub fn wait_poll(&mut self, proof_id: &String) -> (r: Result<
        Option<ProverResult>,
        ZKMProverError,
    >)
        requires
            old(self).wf(),
        ensures
            final(self).wf(),
            final(self).key_path_view() == old(self).key_path_view(),
            (final(self).jobs(), poll_view(r)) == spec_wait_poll(old(self).jobs(), proof_id@),
    {
        match self.find(proof_id) {
            None => Err(ZKMProverError::JobNotFound),
            Some(i) => {
                proof {
                    lemma_index_of(self.tasks@, i as int);
                }
                if self.tasks[i].waiters == 0 {
                    return Err(ZKMProverError::JobNotFound);
                }
                if !self.tasks[i].is_done {
                    return Ok(None);
                }
                let ghost old_tasks = self.tasks@;
                let mut task = self.tasks.remove(i);
                let out = match &task.result {
                    Some(Ok(res)) => Ok(Some(res.duplicate())),
                    Some(Err(m)) => Err(ZKMProverError::ProvingError(m.clone())),
                    None => Ok(None),
                };
                if task.waiters == 1 {
                    proof {
                        lemma_remove_view(old_tasks, i as int);
                    }
                } else {
                    task.waiters = task.waiters - 1;
                    task.retired = true;
                    self.tasks.insert(i, task);
                    proof {
                        lemma_update_view(old_tasks, i as int, task);
                    }
                }
                out
            },
        }
    }

    /// A caller stops awaiting job `proof_id` without its result.
    pub fn wait_abandon(&mut self, proof_id: &String)
        requires
            old(self).wf(),
        ensures
            final(self).wf(),
            final(self).key_path_view() == old(self).key_path_view(),
            final(self).jobs() == spec_wait_abandon(old(self).jobs(), proof_id@),
    {
        match self.find(proof_id) {
            None => {},
            Some(i) => {
                proof {
                    lemma_index_of(self.tasks@, i as int);
                }
                if self.tasks[i].waiters == 0 {
                    return;
                }
                let ghost old_tasks = self.tasks@;
                let mut task = self.tasks.remove(i);
                if task.waiters == 1 && task.retired {
                    proof {
                        lemma_remove_view(old_tasks, i as int);
                    }
                } else {
                    task.waiters = task.waiters - 1;
                    self.tasks.insert(i, task);
                    proof {
                        lemma_update_view(old_tasks, i as int, task);
                    }
                }
            },
        }
    }
}

/// Relies on `uuid::Uuid::new_v4`: a random identifier, in its hyphenated
/// text form. Nothing is promised of its value.
#[verifier::external_body]
pub(crate) fn new_proof_id() -> (r: String) {
    uuid::Uuid::new_v4().to_string()
}

/// Whether a caller's time bound has passed after `elapsed_ms` milliseconds;
/// without a bound it never does.
pub fn deadline_passed(elapsed_ms: u64, timeout_ms: Option<u64>) -> (r: bool)
    ensures
        r == match timeout_ms {
            Some(t) => elapsed_ms > t,
            None => false,
        },
{
    match timeout_ms {
        Some(t) => elapsed_ms > t,
        None => false,
    }
}

impl LocalProver {
    /// Submit a job under a fresh random identifier and return it; the
    /// caller starts the background worker. Fails only if the identifier is
    /// already tracked.
    pub fn request_proof(&mut self, input: &ProverInput) -> (r: Result<String, ZKMProverError>)
        requires
            old(self).wf(),
        ensures
            final(self).wf(),
            final(self).key_path_view() == old(self).key_path_view(),
            match r {
                Ok(id) => !old(self).jobs().contains_key(id@) && final(self).jobs() == old(
                    self,
                ).jobs().insert(id@, fresh_task(id@, input@, old(self).key_path_view())),
                Err(e) => e == ZKMProverError::DuplicateJob && final(self).jobs() == old(
                    self,
                ).jobs(),
            },
            old(self).jobs().is_empty() ==> r is Ok,
    {
        let proof_id = new_proof_id();
        let id = copy_string(&proof_id);
        match self.submit(proof_id, input) {
            Ok(()) => Ok(id),
            Err(e) => Err(e),
        }
    }
}

impl LocalProver {
    /// What the table guarantees of every tracked job: it is filed under its
    /// own identifier, and only a job whose outcome is recorded and that has
    /// a waiter left can be retired. So a running job can always be awaited
    /// (unless its waiter count is saturated).
    pub proof fn lemma_jobs_consistent(&self)
        requires
            self.wf(),
        ensures
            forall|id: Seq<char>| #[trigger]
                self.jobs().contains_key(id) ==> {
                    &&& self.jobs()[id].proof_id == id
                    &&& self.jobs()[id].retired ==> self.jobs()[id].result.is_some()
                        && self.jobs()[id].waiters > 0
                    &&& self.jobs()[id].waiters <= u64::MAX
                },
    {
        assert forall|id: Seq<char>| #[trigger] self.jobs().contains_key(id) implies {
            &&& self.jobs()[id].proof_id == id
            &&& self.jobs()[id].retired ==> self.jobs()[id].result.is_some()
                && self.jobs()[id].waiters > 0
            &&& self.jobs()[id].waiters <= u64::MAX
        } by {
            let k = index_of(self.tasks@, id);
            assert(has_id(self.tasks@, id));
            assert(self.tasks@[k].wf());
        }
    }
}

/// The outcomes of `k` successive polls of job `id`.
pub open spec fn poll_outcomes(jobs: Map<Seq<char>, ProverTaskView>, id: Seq<char>, k: nat) -> Seq<
    Result<Option<ProverResultView>, ZKMProverError>,
>
    decreases k,
{
    if k == 0 {
        Seq::empty()
    } else {
        let (next, out) = spec_wait_poll(jobs, id);
        seq![out] + poll_outcomes(next, id, (k - 1) as nat)
    }
}

/// The job table after `k` successive polls of job `id`.
pub open spec fn after_polls(jobs: Map<Seq<char>, ProverTaskView>, id: Seq<char>, k: nat) -> Map<
    Seq<char>,
    ProverTaskView,
>
    decreases k,
{
    if k == 0 {
        jobs
    } else {
        after_polls(spec_wait_poll(jobs, id).0, id, (k - 1) as nat)
    }
}

proof fn lemma_done_job_polls(jobs: Map<Seq<char>, ProverTaskView>, id: Seq<char>, r: Result<ProverResultView, String>, k: nat)
    requires
        k >= 1,
        jobs.contains_key(id),
        jobs[id].result == Some(r),
        jobs[id].waiters == k,
    ensures
        poll_outcomes(jobs, id, k).len() == k,
        forall|i: int| 0 <= i < k ==> #[trigger] poll_outcomes(jobs, id, k)[i] == handed_out(r),
        !after_polls(jobs, id, k).contains_key(id),
    decreases k,
{
    let (next, out) = spec_wait_poll(jobs, id);
    if k > 1 {
        lemma_done_job_polls(next, id, r, (k - 1) as nat);
    }
    let tail = poll_outcomes(next, id, (k - 1) as nat);
    assert(poll_outcomes(jobs, id, k) == seq![out] + tail);
    assert(after_polls(jobs, id, k) == after_polls(next, id, (k - 1) as nat));
    if k == 1 {
        assert(after_polls(next, id, 0) == next);
    }
    assert forall|i: int| 0 <= i < k implies #[trigger] poll_outcomes(jobs, id, k)[i] == handed_out(r) by {
        if i > 0 {
            assert(poll_outcomes(jobs, id, k)[i] == tail[i - 1]);
        }
    }
}

/// Once a job's outcome is recorded, every caller already awaiting it gets
/// that same outcome (the result, or the backend's failure), the outcome
/// cannot be recorded again, and from the first hand-out on the job can no
/// longer be awaited: a new await, and a poll after the last waiter has been
/// served, fail with `JobNotFound`.
pub proof fn lemma_result_reaches_every_waiter(
    jobs: Map<Seq<char>, ProverTaskView>,
    id: Seq<char>,
    r: Result<ProverResultView, String>,
    k: nat,
)
    requires
        k >= 1,
        jobs.contains_key(id),
        jobs[id].result == Some(r),
        jobs[id].waiters == k,
    ensures
        forall|i: int| 0 <= i < k ==> #[trigger] poll_outcomes(jobs, id, k)[i] == handed_out(r),
        spec_record(jobs, id, r).1 == Err::<(), ZKMProverError>(ZKMProverError::JobAlreadyDone),
        spec_wait_begin(spec_wait_poll(jobs, id).0, id).1 == Err::<(), ZKMProverError>(
            ZKMProverError::JobNotFound,
        ),
        spec_wait_begin(after_polls(jobs, id, k), id).1 == Err::<(), ZKMProverError>(
            ZKMProverError::JobNotFound,
        ),
        spec_wait_poll(after_polls(jobs, id, k), id).1 == Err::<
            Option<ProverResultView>,
            ZKMProverError,
        >(ZKMProverError::JobNotFound),
{
    lemma_done_job_polls(jobs, id, r, k);
}

pub open spec fn poll_view(r: Result<Option<ProverResult>, ZKMProverError>) -> Result<
    Option<ProverResultView>,
    ZKMProverError,
> {
    match r {
        Ok(Some(x)) => Ok(Some(x@)),
        Ok(None) => Ok(None),
        Err(e) => Err(e),
    }
}

proof fn lemma_push_view(tasks: Seq<ProverTask>, task: ProverTask)
    requires
        ids_unique(tasks.push(task)),
        !has_id(tasks, task.proof_id@),
    ensures
        table_view(tasks.push(task)) == table_view(tasks).insert(task.proof_id@, task@),
{
    let t2 = tasks.push(task);
    let n = tasks.len() as int;
    assert(ids_unique(tasks)) by {
        assert forall|i: int, j: int|
            0 <= i < tasks.len() && 0 <= j < tasks.len() && i != j implies (#[trigger] tasks[i]).proof_id@
            != (#[trigger] tasks[j]).proof_id@ by {
            assert(t2[i] == tasks[i] && t2[j] == tasks[j]);
        }
    }
    assert forall|id: Seq<char>| #[trigger] has_id(t2, id) == (has_id(tasks, id) || id == task.proof_id@) by {
        if has_id(t2, id) {
            let k = choose|k: int| 0 <= k < t2.len() && (#[trigger] t2[k]).proof_id@ == id;
            if k < n {
                assert(tasks[k] == t2[k]);
            }
        }
        if has_id(tasks, id) {
            let k = choose|k: int| 0 <= k < tasks.len() && (#[trigger] tasks[k]).proof_id@ == id;
            assert(t2[k] == tasks[k]);
        }
        if id == task.proof_id@ {
            assert(t2[n] == task);
        }
    }
    assert forall|id: Seq<char>| #[trigger] has_id(t2, id) implies t2[index_of(t2, id)]@ == table_view(
        tasks,
    ).insert(task.proof_id@, task@)[id] by {
        if id == task.proof_id@ {
            lemma_index_of(t2, n);
        } else {
            let k = choose|k: int| 0 <= k < tasks.len() && (#[trigger] tasks[k]).proof_id@ == id;
            lemma_index_of(tasks, k);
            assert(t2[k] == tasks[k]);
            lemma_index_of(t2, k);
        }
    }
    assert(table_view(t2) =~= table_view(tasks).insert(task.proof_id@, task@));
}

proof fn lemma_update_view(tasks: Seq<ProverTask>, i: int, task: ProverTask)
    requires
        ids_unique(tasks),
        0 <= i < tasks.len(),
        task.proof_id@ == tasks[i].proof_id@,
    ensures
        tasks.remove(i).insert(i, task) == tasks.update(i, task),
        ids_unique(tasks.update(i, task)),
        table_view(tasks.update(i, task)) == table_view(tasks).insert(task.proof_id@, task@),
{
    assert(tasks.remove(i).insert(i, task) =~= tasks.update(i, task));
    let t2 = tasks.update(i, task);
    assert forall|a: int, b: int|
        0 <= a < t2.len() && 0 <= b < t2.len() && a != b implies (#[trigger] t2[a]).proof_id@
        != (#[trigger] t2[b]).proof_id@ by {
        assert(t2[a].proof_id@ == tasks[a].proof_id@);
        assert(t2[b].proof_id@ == tasks[b].proof_id@);
    }
    assert forall|id: Seq<char>| #[trigger] has_id(t2, id) == has_id(tasks, id) by {
        if has_id(t2, id) {
            let k = choose|k: int| 0 <= k < t2.len() && (#[trigger] t2[k]).proof_id@ == id;
            assert(tasks[k].proof_id@ == id);
        }
        if has_id(tasks, id) {
            let k = choose|k: int| 0 <= k < tasks.len() && (#[trigger] tasks[k]).proof_id@ == id;
            assert(t2[k].proof_id@ == id);
        }
    }
    assert forall|id: Seq<char>| #[trigger] has_id(t2, id) implies t2[index_of(t2, id)]@ == table_view(
        tasks,
    ).insert(task.proof_id@, task@)[id] by {
        let k = choose|k: int| 0 <= k < tasks.len() && (#[trigger] tasks[k]).proof_id@ == id;
        lemma_index_of(tasks, k);
        lemma_index_of(t2, k);
    }
    assert(table_view(t2) =~= table_view(tasks).insert(task.proof_id@, task@));
}

proof fn lemma_remove_view(tasks: Seq<ProverTask>, i: int)
    requires
        ids_unique(tasks),
        0 <= i < tasks.len(),
    ensures
        ids_unique(tasks.remove(i)),
        table_view(tasks.remove(i)) == table_view(tasks).remove(tasks[i].proof_id@),
{
    let t2 = tasks.remove(i);
    let gone = tasks[i].proof_id@;
    assert forall|k: int| 0 <= k < t2.len() implies #[trigger] t2[k] == tasks[if k < i {
        k
    } else {
        k + 1
    }] by {}
    assert forall|a: int, b: int|
        0 <= a < t2.len() && 0 <= b < t2.len() && a != b implies (#[trigger] t2[a]).proof_id@
        != (#[trigger] t2[b]).proof_id@ by {
        let a2 = if a < i { a } else { a + 1 };
        let b2 = if b < i { b } else { b + 1 };
        assert(t2[a] == tasks[a2]);
        assert(t2[b] == tasks[b2]);
    }
    assert forall|id: Seq<char>| #[trigger] has_id(t2, id) == (has_id(tasks, id) && id != gone) by {
        if has_id(t2, id) {
            let k = choose|k: int| 0 <= k < t2.len() && (#[trigger] t2[k]).proof_id@ == id;
            let k2 = if k < i { k } else { k + 1 };
            assert(t2[k] == tasks[k2]);
            assert(k2 != i);
        }
        if has_id(tasks, id) && id != gone {
            let k = choose|k: int| 0 <= k < tasks.len() && (#[trigger] tasks[k]).proof_id@ == id;
            assert(k != i);
            let k1 = if k < i { k } else { k - 1 };
            assert(t2[k1] == tasks[k]);
        }
    }
    assert forall|id: Seq<char>| #[trigger] has_id(t2, id) implies t2[index_of(t2, id)]@ == table_view(
        tasks,
    )[id] by {
        let k = choose|k: int| 0 <= k < t2.len() && (#[trigger] t2[k]).proof_id@ == id;
        let k2 = if k < i { k } else { k + 1 };
        assert(t2[k] == tasks[k2]);
        lemma_index_of(tasks, k2);
        lemma_index_of(t2, k);
    }
    assert(table_view(t2) =~= table_view(tasks).remove(gone));
}

/// What the background worker does after splitting and proving, given the
/// request and the number of segments.
#[derive(Clone, Copy, Debug, PartialEq, Eq, Structural)]
pub enum WrapDecision {
    /// Only the program's output was asked for: no proof artifacts.
    ExecuteOnly,
    /// One segment: there is no aggregate to wrap.
    SingleSegment,
    /// A composable receipt was asked for instead of a wrapped proof.
    Composite,
    /// Wrap the aggregate into a succinct proof, generating key material
    /// first when `setup` is set.
    Wrap { setup: bool },
}

pub open spec fn spec_wrap_decision(input: ProverInputView, segment_count: nat) -> WrapDecision {
    if input.execute_only {
        WrapDecision::ExecuteOnly
    } else if segment_count <= 1 {
        WrapDecision::SingleSegment
    } else if input.composite_proof {
        WrapDecision::Composite
    } else {
        WrapDecision::Wrap { setup: input.snark_setup }
    }
}

pub fn wrap_decision(input: &ProverInput, segment_count: u64) -> (r: WrapDecision)
    ensures
        r == spec_wrap_decision(input@, segment_count as nat),
{
    if input.execute_only {
        WrapDecision::ExecuteOnly
    } else if segment_count <= 1 {
        WrapDecision::SingleSegment
    } else if input.composite_proof {
        WrapDecision::Composite
    } else {
        WrapDecision::Wrap { setup: input.snark_setup }
    }
}

/// The artifacts of a successful wrapping.
pub struct WrappedProof {
    pub stark_proof: Vec<u8>,
    pub proof_with_public_inputs: Vec<u8>,
    pub public_values: Vec<u8>,
}

/// A serialized aggregate proof and the identity of the proven program.
pub struct Receipt {
    pub receipt: Vec<u8>,
    pub elf_id: Vec<u8>,
}

/// The outcome the worker records: an execute-only run carries no proof
/// artifacts; a wrapped run carries the wrapping's artifacts, and a failed
/// wrapping makes the whole job fail with its message; a receipt, when the
/// prover produced one, is attached with the program identity.
pub fn complete_result(
    result: ProverResult,
    decision: WrapDecision,
    wrapped: Option<Result<WrappedProof, String>>,
    receipt: Option<Receipt>,
) -> (r: Result<ProverResult, String>)
    ensures
        match (decision, wrapped) {
            (WrapDecision::Wrap { setup }, Some(Err(m))) => r == Err::<ProverResult, String>(m),
            _ => r matches Ok(out) && completed(result, decision, wrapped, receipt, out),
        },
{
    let mut result = result;
    match decision {
        WrapDecision::ExecuteOnly => {
            result.proof_with_public_inputs = Vec::new();
            result.stark_proof = Vec::new();
            result.solidity_verifier = Vec::new();
        },
        WrapDecision::Wrap { setup } => {
            match wrapped {
                Some(Ok(w)) => {
                    result.stark_proof = w.stark_proof;
                    result.proof_with_public_inputs = w.proof_with_public_inputs;
                    result.public_values = w.public_values;
                },
                Some(Err(m)) => {
                    return Err(m);
                },
                None => {},
            }
        },
        _ => {},
    }
    match receipt {
        Some(rc) => {
            result.receipt = rc.receipt;
            result.elf_id = rc.elf_id;
        },
        None => {},
    }
    Ok(result)
}

/// The fields of a completed result: execution data kept; proof artifacts
/// cleared for an execute-only run and taken from a successful wrapping;
/// receipt and program identity taken from the receipt when there is one.
pub open spec fn completed(
    result: ProverResult,
    decision: WrapDecision,
    wrapped: Option<Result<WrappedProof, String>>,
    receipt: Option<Receipt>,
    out: ProverResult,
) -> bool {
    &&& out.total_steps == result.total_steps
    &&& out.split_cost == result.split_cost
    &&& out.output_stream@ == result.output_stream@
    &&& out.solidity_verifier@ == (if decision == WrapDecision::ExecuteOnly {
        Seq::empty()
    } else {
        result.solidity_verifier@
    })
    &&& (out.stark_proof@, out.proof_with_public_inputs@, out.public_values@) == match decision {
        WrapDecision::ExecuteOnly => (Seq::empty(), Seq::empty(), result.public_values@),
        WrapDecision::Wrap { setup } => match wrapped {
            Some(Ok(w)) => (w.stark_proof@, w.proof_with_public_inputs@, w.public_values@),
            _ => (result.stark_proof@, result.proof_with_public_inputs@, result.public_values@),
        },
        _ => (result.stark_proof@, result.proof_with_public_inputs@, result.public_values@),
    }
    &&& (out.receipt@, out.elf_id@) == match receipt {
        Some(rc) => (rc.receipt@, rc.elf_id@),
        None => (result.receipt@, result.elf_id@),
    }
}

} // verus!
