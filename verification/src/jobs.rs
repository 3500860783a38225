//! Generation jobs: the table of job snapshots and the rules by which a job's
//! state moves as its process starts, fails, finishes or is cancelled.
use vstd::prelude::*;
use crate::json::{Json, JsonView, json_of_text, parse_json};
use crate::paths::{join_path, joined};
use crate::text::{
    chars_of, concat2, concat3, i32_to_text, lines, signed_decimal, split_lines, string_of,
    trim, trim_chars, trimmed,
};

verus! {

/// Where a job stands.
#[derive(Clone, Copy, Debug, PartialEq, Eq, Structural)]
pub enum JobState {
    Queued,
    Running,
    Completed,
    Failed,
    Cancelled,
}

/// What the library reports of one job.
#[derive(Debug, PartialEq)]
pub struct JobSnapshot {
    pub id: String,
    pub state: JobState,
    pub message: String,
    pub result: Option<Json>,
}

/// The mathematical value of a snapshot.
pub struct SnapshotView {
    pub id: Seq<char>,
    pub state: JobState,
    pub message: Seq<char>,
    pub result: Option<JsonView>,
}

pub open spec fn result_view(r: Option<Json>) -> Option<JsonView> {
    match r {
        Some(j) => Some(j@),
        None => None,
    }
}

impl View for JobSnapshot {
    type V = SnapshotView;

    open spec fn view(&self) -> SnapshotView {
        SnapshotView {
            id: self.id@,
            state: self.state,
            message: self.message@,
            result: result_view(self.result),
        }
    }
}

impl JobSnapshot {
    /// A copy of the snapshot.
    pub fn copy(&self) -> (r: JobSnapshot)
        ensures
            r@ == self@,
    {
        let result = match &self.result {
            Some(j) => Some(j.copy()),
            None => None,
        };
        JobSnapshot { id: self.id.clone(), state: self.state, message: self.message.clone(), result }
    }
}

// ---------------------------------------------------------------------------
// Messages.
// ---------------------------------------------------------------------------

pub open spec fn queued_message() -> Seq<char> {
    "Queued…"@
}

pub open spec fn running_message() -> Seq<char> {
    "Running LTX…"@
}

pub open spec fn completed_message() -> Seq<char> {
    "Generation completed"@
}

pub open spec fn cancelled_message() -> Seq<char> {
    "Generation cancelled"@
}

pub open spec fn not_found_message() -> Seq<char> {
    "Job not found"@
}

pub open spec fn generation_failed_message() -> Seq<char> {
    "LTX generation failed"@
}

// ---------------------------------------------------------------------------
// What happens to a job.
// ---------------------------------------------------------------------------

/// Something that happened to a job's process.
#[derive(Debug, PartialEq)]
pub enum JobEvent {
    /// The worker took the job up.
    Started,
    /// The log file for the process's standard output could not be created.
    StdoutLogFailed { error: String },
    /// The log file for the process's standard error could not be created.
    StderrLogFailed { error: String },
    /// The adapter process could not be launched with this interpreter.
    LaunchFailed { python: String, error: String },
    /// Asking whether the process had ended failed.
    PollFailed { error: String },
    /// The process ended; its output was saved beside `debug_path`.
    Exited { success: bool, stdout: String, stderr: String, debug_path: String },
}

pub enum EventView {
    Started,
    StdoutLogFailed { error: Seq<char> },
    StderrLogFailed { error: Seq<char> },
    LaunchFailed { python: Seq<char>, error: Seq<char> },
    PollFailed { error: Seq<char> },
    Exited { success: bool, stdout: Seq<char>, stderr: Seq<char>, debug_path: Seq<char> },
}

impl View for JobEvent {
    type V = EventView;

    open spec fn view(&self) -> EventView {
        match self {
            JobEvent::Started => EventView::Started,
            JobEvent::StdoutLogFailed { error } => EventView::StdoutLogFailed { error: error@ },
            JobEvent::StderrLogFailed { error } => EventView::StderrLogFailed { error: error@ },
            JobEvent::LaunchFailed { python, error } => EventView::LaunchFailed {
                python: python@,
                error: error@,
            },
            JobEvent::PollFailed { error } => EventView::PollFailed { error: error@ },
            JobEvent::Exited { success, stdout, stderr, debug_path } => EventView::Exited {
                success: *success,
                stdout: stdout@,
                stderr: stderr@,
                debug_path: debug_path@,
            },
        }
    }
}

/// The message of a process that ended without success: its trimmed
/// standard error, else its trimmed standard output, else a fixed text.
pub open spec fn failure_output(stdout: Seq<char>, stderr: Seq<char>) -> Seq<char> {
    if trimmed(stderr).len() > 0 {
        trimmed(stderr)
    } else if trimmed(stdout).len() > 0 {
        trimmed(stdout)
    } else {
        generation_failed_message()
    }
}

/// The line of `lines` at or before `n - 1`, from the last, whose trimmed
/// text is a JSON document: that document.
pub open spec fn last_document(ls: Seq<Seq<char>>, n: int) -> Option<JsonView>
    decreases n,
{
    if n <= 0 || n > ls.len() {
        None
    } else {
        match json_of_text(trimmed(ls[n - 1])) {
            Ok(v) => Some(v),
            Err(_) => last_document(ls, n - 1),
        }
    }
}

/// The first line of `s`, or `<empty>` when it has none.
pub open spec fn first_output(s: Seq<char>) -> Seq<char> {
    if lines(s).len() > 0 {
        lines(s)[0]
    } else {
        "<empty>"@
    }
}

/// What the adapter's standard output is read as: the whole trimmed output
/// when it is a JSON document, else the last line that is one, else an error.
pub open spec fn adapter_document(stdout: Seq<char>) -> Result<JsonView, Seq<char>> {
    let t = trimmed(stdout);
    if t.len() == 0 {
        Err("Adapter returned empty stdout"@)
    } else {
        match json_of_text(t) {
            Ok(v) => Ok(v),
            Err(_) => match last_document(lines(t), lines(t).len() as int) {
                Some(v) => Ok(v),
                None => Err("Adapter stdout is not valid JSON. First output: "@ + first_output(stdout)),
            },
        }
    }
}

/// The snapshot of a job once `event` happened to it.
pub open spec fn after_event(s: SnapshotView, e: EventView) -> SnapshotView {
    match e {
        EventView::Started => SnapshotView { state: JobState::Running, message: running_message(), ..s },
        EventView::StdoutLogFailed { error } => SnapshotView {
            state: JobState::Failed,
            message: "Failed to create stdout log: "@ + error,
            ..s
        },
        EventView::StderrLogFailed { error } => SnapshotView {
            state: JobState::Failed,
            message: "Failed to create stderr log: "@ + error,
            ..s
        },
        EventView::LaunchFailed { python, error } => SnapshotView {
            state: JobState::Failed,
            message: "Failed to launch LTX adapter with "@ + python + ": "@ + error,
            ..s
        },
        EventView::PollFailed { error } => SnapshotView {
            state: JobState::Failed,
            message: "Failed while polling LTX process: "@ + error,
            ..s
        },
        EventView::Exited { success, stdout, stderr, debug_path } => if success {
            match adapter_document(stdout) {
                Ok(v) => SnapshotView {
                    state: JobState::Completed,
                    message: completed_message(),
                    result: Some(v),
                    ..s
                },
                Err(err) => SnapshotView {
                    state: JobState::Failed,
                    message: "Invalid adapter response: "@ + err + ". Raw output saved to "@
                        + debug_path,
                    ..s
                },
            }
        } else {
            SnapshotView { state: JobState::Failed, message: failure_output(stdout, stderr), ..s }
        },
    }
}

/// Whether a job can still be cancelled.
pub open spec fn is_active(state: JobState) -> bool {
    state == JobState::Queued || state == JobState::Running
}

/// The snapshot of a job once cancelled: a queued or running job becomes
/// cancelled; any other stays as it is.
pub open spec fn after_cancel(s: SnapshotView) -> SnapshotView {
    if is_active(s.state) {
        SnapshotView { state: JobState::Cancelled, message: cancelled_message(), ..s }
    } else {
        s
    }
}

/// The snapshot of a job just submitted.
pub open spec fn queued(id: Seq<char>) -> SnapshotView {
    SnapshotView { id, state: JobState::Queued, message: queued_message(), result: None }
}

/// `stdout` read as the adapter's answer.
pub fn parse_adapter_json(stdout: &str) -> (r: Result<Json, String>)
    ensures
        match r {
            Ok(j) => adapter_document(stdout@) == Ok::<JsonView, Seq<char>>(j@),
            Err(e) => adapter_document(stdout@) == Err::<JsonView, Seq<char>>(e@),
        },
{
    let all = chars_of(stdout);
    let t = trim_chars(&all);
    if t.len() == 0 {
        return Err(String::from_str("Adapter returned empty stdout"));
    }
    let text = string_of(t.as_slice());
    match parse_json(text.as_str()) {
        Ok(v) => {
            return Ok(v);
        },
        Err(_) => {},
    }
    let ls = split_lines(&t);
    let ghost lt = lines(t@);
    let mut n = ls.len();
    while n > 0
        invariant
            n <= ls@.len(),
            t@ == trimmed(stdout@),
            t@.len() > 0,
            json_of_text(t@) is Err,
            ls@.len() == lt.len(),
            lt == lines(t@),
            forall|k: int| 0 <= k < ls@.len() ==> #[trigger] ls@[k]@ == lt[k],
            last_document(lt, lt.len() as int) == last_document(lt, n as int),
        decreases n,
    {
        let line = trim_chars(&ls[n - 1]);
        let line_text = string_of(line.as_slice());
        match parse_json(line_text.as_str()) {
            Ok(v) => {
                return Ok(v);
            },
            Err(_) => {},
        }
        n -= 1;
    }
    let first = split_lines(&all);
    let shown = if first.len() > 0 {
        string_of(first[0].as_slice())
    } else {
        String::from_str("<empty>")
    };
    Err(concat2("Adapter stdout is not valid JSON. First output: ", shown.as_str()))
}

// ---------------------------------------------------------------------------
// The table of jobs.
// ---------------------------------------------------------------------------

/// The index of the first snapshot from `i` on whose id is `id`.
pub open spec fn find_job(s: Seq<SnapshotView>, id: Seq<char>, i: int) -> Option<int>
    decreases s.len() - i,
{
    if i < 0 || i >= s.len() {
        None
    } else if s[i].id == id {
        Some(i)
    } else {
        find_job(s, id, i + 1)
    }
}

/// The snapshot of the job `id`, when the table holds it.
pub open spec fn job_of(s: Seq<SnapshotView>, id: Seq<char>) -> Option<SnapshotView> {
    match find_job(s, id, 0) {
        Some(i) => Some(s[i]),
        None => None,
    }
}

/// The table with the job `id` set to `v`: replaced where it stands, or
/// added at the end.
pub open spec fn with_job(s: Seq<SnapshotView>, id: Seq<char>, v: SnapshotView) -> Seq<SnapshotView> {
    match find_job(s, id, 0) {
        Some(i) => s.update(i, v),
        None => s.push(v),
    }
}

/// The table once `f` is applied to the job `id`, when it holds that job.
pub open spec fn cancel_in(s: Seq<SnapshotView>, id: Seq<char>) -> Seq<SnapshotView> {
    match job_of(s, id) {
        Some(j) => with_job(s, id, after_cancel(j)),
        None => s,
    }
}

pub open spec fn event_in(s: Seq<SnapshotView>, id: Seq<char>, e: EventView) -> Seq<SnapshotView> {
    match job_of(s, id) {
        Some(j) => with_job(s, id, after_event(j, e)),
        None => s,
    }
}

pub proof fn lemma_find_job_bounds(s: Seq<SnapshotView>, id: Seq<char>, i: int)
    requires
        0 <= i,
    ensures
        find_job(s, id, i) matches Some(k) ==> i <= k < s.len() && s[k].id == id && forall|
            j: int,
        |
            i <= j < k ==> #[trigger] s[j].id != id,
        find_job(s, id, i) is None ==> forall|j: int| i <= j < s.len() ==> #[trigger] s[j].id != id,
    decreases s.len() - i,
{
    if i < s.len() && s[i].id != id {
        lemma_find_job_bounds(s, id, i + 1);
    }
}

proof fn lemma_find_job_at(s: Seq<SnapshotView>, id: Seq<char>, k: int, i: int)
    requires
        0 <= i <= k < s.len(),
        s[k].id == id,
        forall|j: int| 0 <= j < k ==> #[trigger] s[j].id != id,
    ensures
        find_job(s, id, i) == Some(k),
    decreases k - i,
{
    if i < k {
        lemma_find_job_at(s, id, k, i + 1);
    }
}

proof fn lemma_find_job_none(s: Seq<SnapshotView>, id: Seq<char>, i: int)
    requires
        0 <= i,
        forall|j: int| 0 <= j < s.len() ==> #[trigger] s[j].id != id,
    ensures
        find_job(s, id, i) is None,
    decreases s.len() - i,
{
    if i < s.len() {
        lemma_find_job_none(s, id, i + 1);
    }
}

/// Setting a job and then looking it up gives the snapshot that was set;
/// looking up any other job gives what it was before.
pub proof fn lemma_with_job(s: Seq<SnapshotView>, id: Seq<char>, v: SnapshotView, other: Seq<char>)
    requires
        v.id == id,
    ensures
        job_of(with_job(s, id, v), id) == Some(v),
        other != id ==> job_of(with_job(s, id, v), other) == job_of(s, other),
{
    lemma_find_job_bounds(s, id, 0);
    lemma_find_job_bounds(s, other, 0);
    let t = with_job(s, id, v);
    match find_job(s, id, 0) {
        Some(i) => {
            lemma_find_job_at(t, id, i, 0);
            if other != id {
                match find_job(s, other, 0) {
                    Some(k) => {
                        lemma_find_job_at(t, other, k, 0);
                    },
                    None => {
                        lemma_find_job_none(t, other, 0);
                    },
                }
            }
        },
        None => {
            lemma_find_job_at(t, id, s.len() as int, 0);
            if other != id {
                match find_job(s, other, 0) {
                    Some(k) => {
                        lemma_find_job_at(t, other, k, 0);
                    },
                    None => {
                        lemma_find_job_none(t, other, 0);
                    },
                }
            }
        },
    }
}

/// The jobs that the library tracks, each under its id.
pub struct JobManager {
    jobs: Vec<JobSnapshot>,
}

impl View for JobManager {
    type V = Seq<SnapshotView>;

    closed spec fn view(&self) -> Seq<SnapshotView> {
        self.jobs@.map_values(|j: JobSnapshot| j@)
    }
}

impl JobManager {
    /// No two jobs of the table share an id, and every completed job holds
    /// its result.
    #[verifier::type_invariant]
    closed spec fn well_formed(&self) -> bool {
        ids_unique(self@) && completed_have_results(self@)
    }

    /// An empty table.
    pub fn new() -> (r: JobManager)
        ensures
            r@ == Seq::<SnapshotView>::empty(),
            forall|id: Seq<char>| job_of(r@, id) is None,
    {
        let r = JobManager { jobs: Vec::new() };
        proof {
            assert(r@ =~= Seq::<SnapshotView>::empty());
        }
        r
    }

    /// The index of the job `id` in the table.
    fn position(&self, id: &str) -> (r: Option<usize>)
        ensures
            match r {
                Some(i) => find_job(self@, id@, 0) == Some(i as int) && i < self@.len(),
                None => find_job(self@, id@, 0) is None,
            },
    {
        let ghost v = self@;
        let mut i: usize = 0;
        while i < self.jobs.len()
            invariant
                i <= self.jobs.len(),
                v == self@,
                v.len() == self.jobs@.len(),
                forall|k: int| 0 <= k < v.len() ==> #[trigger] v[k] == self.jobs@[k]@,
                find_job(v, id@, 0) == find_job(v, id@, i as int),
            decreases self.jobs.len() - i,
        {
            if self.jobs[i].id == String::from_str(id) {
                return Some(i);
            }
            i += 1;
        }
        None
    }

    proof fn lemma_view(&self)
        ensures
            self@.len() == self.jobs@.len(),
            forall|k: int| 0 <= k < self@.len() ==> #[trigger] self@[k] == self.jobs@[k]@,
    {
    }

    /// Whether the table holds the job `id`.
    pub fn contains(&self, id: &str) -> (r: bool)
        ensures
            r == (job_of(self@, id@) is Some),
    {
        self.position(id).is_some()
    }

    /// Puts the job `id` in the table as queued, in place of any job of that id.
    pub fn enqueue(&mut self, id: &str)
        ensures
            final(self)@ == with_job(old(self)@, id@, queued(id@)),
    {
        let snap = JobSnapshot {
            id: String::from_str(id),
            state: JobState::Queued,
            message: String::from_str("Queued…"),
            result: None,
        };
        self.put(id, snap);
    }

    fn put(&mut self, id: &str, snap: JobSnapshot)
        requires
            snap@.id == id@,
            snap@.state == JobState::Completed ==> snap@.result is Some,
        ensures
            final(self)@ == with_job(old(self)@, id@, snap@),
    {
        proof {
            use_type_invariant(&*self);
            old(self).lemma_view();
            law_ids_stay_unique(old(self)@, id@, snap@);
            lemma_with_job_keeps_results(old(self)@, id@, snap@);
        }
        let place = self.position(id);
        let mut jobs: Vec<JobSnapshot> = Vec::new();
        std::mem::swap(&mut jobs, &mut self.jobs);
        let ghost before = jobs@;
        match place {
            Some(i) => {
                jobs.set(i, snap);
                assert(jobs@.map_values(|j: JobSnapshot| j@) =~= before.map_values(
                    |j: JobSnapshot| j@,
                ).update(i as int, snap@));
            },
            None => {
                jobs.push(snap);
                assert(jobs@.map_values(|j: JobSnapshot| j@) =~= before.map_values(
                    |j: JobSnapshot| j@,
                ).push(snap@));
            },
        }
        self.jobs = jobs;
    }

    /// The snapshot of the job `id`, or `Job not found`.
    pub fn get(&self, id: &str) -> (r: Result<JobSnapshot, String>)
        ensures
            match r {
                Ok(s) => job_of(self@, id@) == Some(s@) && (s@.state == JobState::Completed
                    ==> s@.result is Some),
                Err(e) => job_of(self@, id@) is None && e@ == not_found_message(),
            },
    {
        proof {
            use_type_invariant(self);
            self.lemma_view();
            lemma_find_job_bounds(self@, id@, 0);
        }
        match self.position(id) {
            Some(i) => Ok(self.jobs[i].copy()),
            None => Err(String::from_str("Job not found")),
        }
    }

    /// Cancels the job `id`: a queued or running job becomes cancelled, any
    /// other is left as it is; the job's snapshot after that comes back.
    /// A job the table does not hold gives `Job not found` and no change.
    pub fn cancel(&mut self, id: &str) -> (r: Result<JobSnapshot, String>)
        ensures
            final(self)@ == cancel_in(old(self)@, id@),
            match r {
                Ok(s) => job_of(old(self)@, id@) matches Some(j) && s@ == after_cancel(j),
                Err(e) => job_of(old(self)@, id@) is None && e@ == not_found_message(),
            },
    {
        proof {
            self.lemma_view();
        }
        match self.position(id) {
            Some(i) => {
                let mut snap = self.jobs[i].copy();
                proof {
                    use_type_invariant(&*self);
                    lemma_find_job_bounds(self@, id@, 0);
                }
                if snap.state == JobState::Queued || snap.state == JobState::Running {
                    snap.state = JobState::Cancelled;
                    snap.message = String::from_str("Generation cancelled");
                }
                let back = snap.copy();
                self.put(id, snap);
                Ok(back)
            },
            None => Err(String::from_str("Job not found")),
        }
    }

    /// Records what happened to the job `id`; a job the table does not hold
    /// is left out.
    pub fn record(&mut self, id: &str, event: JobEvent)
        ensures
            final(self)@ == event_in(old(self)@, id@, event@),
    {
        proof {
            self.lemma_view();
        }
        match self.position(id) {
            Some(i) => {
                let mut snap = self.jobs[i].copy();
                proof {
                    lemma_find_job_bounds(self@, id@, 0);
                }
                apply_event(&mut snap, event);
                self.put(id, snap);
            },
            None => {},
        }
    }
}

/// Changes a snapshot as `event` says.
fn apply_event(snap: &mut JobSnapshot, event: JobEvent)
    ensures
        final(snap)@ == after_event(old(snap)@, event@),
{
    match event {
        JobEvent::Started => {
            snap.state = JobState::Running;
            snap.message = String::from_str("Running LTX…");
        },
        JobEvent::StdoutLogFailed { error } => {
            snap.state = JobState::Failed;
            snap.message = concat2("Failed to create stdout log: ", error.as_str());
        },
        JobEvent::StderrLogFailed { error } => {
            snap.state = JobState::Failed;
            snap.message = concat2("Failed to create stderr log: ", error.as_str());
        },
        JobEvent::LaunchFailed { python, error } => {
            snap.state = JobState::Failed;
            let head = concat3("Failed to launch LTX adapter with ", python.as_str(), ": ");
            snap.message = concat2(head.as_str(), error.as_str());
        },
        JobEvent::PollFailed { error } => {
            snap.state = JobState::Failed;
            snap.message = concat2("Failed while polling LTX process: ", error.as_str());
        },
        JobEvent::Exited { success, stdout, stderr, debug_path } => {
            if success {
                match parse_adapter_json(stdout.as_str()) {
                    Ok(v) => {
                        snap.state = JobState::Completed;
                        snap.message = String::from_str("Generation completed");
                        snap.result = Some(v);
                    },
                    Err(e) => {
                        snap.state = JobState::Failed;
                        let head = concat3("Invalid adapter response: ", e.as_str(), ". Raw output saved to ");
                        snap.message = concat2(head.as_str(), debug_path.as_str());
                    },
                }
            } else {
                snap.state = JobState::Failed;
                let err = trim(stderr.as_str());
                let out = trim(stdout.as_str());
                if err.as_str().unicode_len() > 0 {
                    snap.message = err;
                } else if out.as_str().unicode_len() > 0 {
                    snap.message = out;
                } else {
                    snap.message = String::from_str("LTX generation failed");
                }
            }
        },
    }
}

// ---------------------------------------------------------------------------
// Laws.
// ---------------------------------------------------------------------------

/// A job just submitted is found queued, with no result.
pub proof fn law_submitted_job_is_queued(s: Seq<SnapshotView>, id: Seq<char>)
    ensures
        job_of(with_job(s, id, queued(id)), id) == Some(queued(id)),
{
    lemma_with_job(s, id, queued(id), id);
}

/// Cancelling a job twice leaves the table as cancelling it once does.
pub proof fn law_cancel_idempotent(s: Seq<SnapshotView>, id: Seq<char>)
    ensures
        cancel_in(cancel_in(s, id), id) == cancel_in(s, id),
{
    match job_of(s, id) {
        Some(j) => {
            lemma_find_job_bounds(s, id, 0);
            let c = after_cancel(j);
            assert(c.id == id);
            lemma_with_job(s, id, c, id);
            let t = with_job(s, id, c);
            assert(after_cancel(c) == c);
            let i = find_job(s, id, 0)->Some_0;
            lemma_find_job_at(t, id, i, 0);
            assert(with_job(t, id, c) =~= t);
        },
        None => {},
    }
}

/// Cancelling never changes a job that has completed, failed or was cancelled.
pub proof fn law_cancel_keeps_finished_jobs(s: Seq<SnapshotView>, id: Seq<char>)
    requires
        job_of(s, id) matches Some(j) && !is_active(j.state),
    ensures
        cancel_in(s, id) == s,
{
    let j = job_of(s, id)->Some_0;
    lemma_find_job_bounds(s, id, 0);
    let i = find_job(s, id, 0)->Some_0;
    assert(s.update(i, j) =~= s);
}

/// What happens to one job leaves every other job as it was.
pub proof fn law_events_touch_one_job(s: Seq<SnapshotView>, id: Seq<char>, e: EventView, other: Seq<char>)
    requires
        other != id,
    ensures
        job_of(event_in(s, id, e), other) == job_of(s, other),
        job_of(cancel_in(s, id), other) == job_of(s, other),
{
    match job_of(s, id) {
        Some(j) => {
            lemma_find_job_bounds(s, id, 0);
            lemma_with_job(s, id, after_event(j, e), other);
            lemma_with_job(s, id, after_cancel(j), other);
        },
        None => {},
    }
}

/// A job whose process ends without success becomes failed, never completed,
/// and gains no result, whatever its output holds: its message is its trimmed
/// standard error, else its trimmed standard output, else
/// `LTX generation failed`.
pub proof fn law_unsuccessful_exit_fails(
    s: SnapshotView,
    stdout: Seq<char>,
    stderr: Seq<char>,
    debug_path: Seq<char>,
)
    ensures
        ({
            let r = after_event(s, EventView::Exited { success: false, stdout, stderr, debug_path });
            &&& r.state == JobState::Failed
            &&& r.result == s.result
            &&& r.id == s.id
            &&& trimmed(stderr).len() > 0 ==> r.message == trimmed(stderr)
            &&& trimmed(stderr).len() == 0 && trimmed(stdout).len() > 0 ==> r.message == trimmed(stdout)
            &&& trimmed(stderr).len() == 0 && trimmed(stdout).len() == 0 ==> r.message
                == "LTX generation failed"@
        }),
{
}

/// A job whose process ends with success is completed exactly when its
/// standard output holds the adapter's document, and then holds that document
/// as its result; otherwise it fails and keeps the result it had.
pub proof fn law_successful_exit_completes_with_document(
    s: SnapshotView,
    stdout: Seq<char>,
    stderr: Seq<char>,
    debug_path: Seq<char>,
)
    ensures
        ({
            let r = after_event(s, EventView::Exited { success: true, stdout, stderr, debug_path });
            &&& r.id == s.id
            &&& (r.state == JobState::Completed) == (adapter_document(stdout) is Ok)
            &&& adapter_document(stdout) matches Ok(v) ==> r.result == Some(v) && r.message
                == "Generation completed"@
            &&& adapter_document(stdout) is Err ==> r.state == JobState::Failed && r.result
                == s.result
        }),
{
}

/// Whether every completed job in the table holds a result.
pub open spec fn completed_have_results(s: Seq<SnapshotView>) -> bool {
    forall|k: int|
        0 <= k < s.len() ==> (#[trigger] s[k]).state == JobState::Completed ==> s[k].result is Some
}

proof fn lemma_with_job_keeps_results(s: Seq<SnapshotView>, id: Seq<char>, v: SnapshotView)
    requires
        completed_have_results(s),
        v.state == JobState::Completed ==> v.result is Some,
    ensures
        completed_have_results(with_job(s, id, v)),
{
    let t = with_job(s, id, v);
    lemma_find_job_bounds(s, id, 0);
    assert forall|k: int| 0 <= k < t.len() implies (#[trigger] t[k]).state == JobState::Completed
        ==> t[k].result is Some by {
        match find_job(s, id, 0) {
            Some(i) => {
                if k != i {
                    assert(t[k] == s[k]);
                }
            },
            None => {
                if k < s.len() {
                    assert(t[k] == s[k]);
                }
            },
        }
    }
}

/// Every completed job holds the adapter's result: submitting, cancelling
/// and recording what happened to a job all keep it so.
pub proof fn law_completed_jobs_have_results(s: Seq<SnapshotView>, id: Seq<char>, e: EventView)
    requires
        completed_have_results(s),
    ensures
        completed_have_results(with_job(s, id, queued(id))),
        completed_have_results(cancel_in(s, id)),
        completed_have_results(event_in(s, id, e)),
{
    lemma_with_job_keeps_results(s, id, queued(id));
    match job_of(s, id) {
        Some(j) => {
            lemma_find_job_bounds(s, id, 0);
            let i = find_job(s, id, 0)->Some_0;
            assert(j == s[i]);
            lemma_with_job_keeps_results(s, id, after_cancel(j));
            lemma_with_job_keeps_results(s, id, after_event(j, e));
        },
        None => {},
    }
}

/// Whether no two jobs in the table share an id.
pub open spec fn ids_unique(s: Seq<SnapshotView>) -> bool {
    forall|a: int, b: int| 0 <= a < b < s.len() ==> (#[trigger] s[a]).id != (#[trigger] s[b]).id
}

/// The table holds each job once: setting a job keeps the ids unique.
pub proof fn law_ids_stay_unique(s: Seq<SnapshotView>, id: Seq<char>, v: SnapshotView)
    requires
        ids_unique(s),
        v.id == id,
    ensures
        ids_unique(with_job(s, id, v)),
{
    lemma_find_job_bounds(s, id, 0);
    let t = with_job(s, id, v);
    assert forall|a: int, b: int| 0 <= a < b < t.len() implies (#[trigger] t[a]).id != (
    #[trigger] t[b]).id by {
        match find_job(s, id, 0) {
            Some(i) => {
                if a == i {
                    assert(t[b] == s[b]);
                    assert(s[i].id == id);
                } else if b == i {
                    assert(t[a] == s[a]);
                    assert(s[i].id == id);
                } else {
                    assert(t[a] == s[a] && t[b] == s[b]);
                }
            },
            None => {
                if b == s.len() {
                    assert(t[a] == s[a]);
                } else {
                    assert(t[a] == s[a] && t[b] == s[b]);
                }
            },
        }
    }
}

// ---------------------------------------------------------------------------
// Launching a job.
// ---------------------------------------------------------------------------

/// What `Uuid::new_v4().to_string()` yields: 36 characters, hyphens at the
/// positions 8, 13, 18 and 23.
pub open spec fn is_uuid_text(s: Seq<char>) -> bool {
    &&& s.len() == 36
    &&& s[8] == '-' && s[13] == '-' && s[18] == '-' && s[23] == '-'
}

/// `uuid::Uuid::new_v4().to_string()`: a random identifier in its hyphenated
/// lower-case form. Which identifier comes back is left open.
#[verifier::external_body]
fn random_job_id() -> (r: String)
    ensures
        is_uuid_text(r@),
{
    uuid::Uuid::new_v4().to_string()
}

/// The files that belong to one job.
#[derive(Debug, PartialEq)]
pub struct JobFiles {
    pub id: String,
    pub settings: String,
    pub stdout: String,
    pub stderr: String,
    pub debug: String,
}

/// The files of the job `id` under `output_dir`: `{id}.json`,
/// `{id}.stdout.log`, `{id}.stderr.log` and `{id}.log`.
pub fn job_files(output_dir: &str, id: &str) -> (r: JobFiles)
    ensures
        r.id@ == id@,
        r.settings@ == joined(output_dir@, id@ + ".json"@),
        r.stdout@ == joined(output_dir@, id@ + ".stdout.log"@),
        r.stderr@ == joined(output_dir@, id@ + ".stderr.log"@),
        r.debug@ == joined(output_dir@, id@ + ".log"@),
{
    let settings = concat2(id, ".json");
    let stdout = concat2(id, ".stdout.log");
    let stderr = concat2(id, ".stderr.log");
    let debug = concat2(id, ".log");
    JobFiles {
        id: String::from_str(id),
        settings: join_path(output_dir, settings.as_str()),
        stdout: join_path(output_dir, stdout.as_str()),
        stderr: join_path(output_dir, stderr.as_str()),
        debug: join_path(output_dir, debug.as_str()),
    }
}

/// A new job under `output_dir`, with a fresh random identifier.
pub fn new_job(output_dir: &str) -> (r: JobFiles)
    ensures
        is_uuid_text(r.id@),
        r.settings@ == joined(output_dir@, r.id@ + ".json"@),
        r.stdout@ == joined(output_dir@, r.id@ + ".stdout.log"@),
        r.stderr@ == joined(output_dir@, r.id@ + ".stderr.log"@),
        r.debug@ == joined(output_dir@, r.id@ + ".log"@),
{
    let id = random_job_id();
    job_files(output_dir, id.as_str())
}

/// The text of the debug log written when a job's process ends.
pub open spec fn debug_log_text(
    id: Seq<char>,
    code: Option<i32>,
    success: bool,
    stdout: Seq<char>,
    stderr: Seq<char>,
) -> Seq<char> {
    "=== LTX job "@ + id + " ===\nexit_code: "@ + match code {
        Some(c) => "Some("@ + signed_decimal(c as int) + ")"@,
        None => "None"@,
    } + "\nsuccess: "@ + (if success {
        "true"@
    } else {
        "false"@
    }) + "\n\n=== STDOUT ===\n"@ + trimmed(stdout) + "\n\n=== STDERR ===\n"@ + trimmed(stderr)
        + "\n"@
}

/// The debug log of a job whose process ended with `code`.
pub fn debug_log(id: &str, code: Option<i32>, success: bool, stdout: &str, stderr: &str) -> (r: String)
    ensures
        r@ == debug_log_text(id@, code, success, stdout@, stderr@),
{
    let mut s = concat3("=== LTX job ", id, " ===\nexit_code: ");
    match code {
        Some(c) => {
            let n = i32_to_text(c);
            s.append("Some(");
            s.append(n.as_str());
            s.append(")");
        },
        None => {
            s.append("None");
        },
    }
    s.append("\nsuccess: ");
    if success {
        s.append("true");
    } else {
        s.append("false");
    }
    s.append("\n\n=== STDOUT ===\n");
    let out = trim(stdout);
    s.append(out.as_str());
    s.append("\n\n=== STDERR ===\n");
    let err = trim(stderr);
    s.append(err.as_str());
    s.append("\n");
    proof {
        assert(s@ =~= debug_log_text(id@, code, success, stdout@, stderr@));
    }
    s
}

} // verus!
