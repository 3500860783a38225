//! The worker that runs one generation job: it creates the job's log files,
//! launches the adapter, polls it until it ends, writes the debug log and
//! records each outcome in the job table. The work itself (files, processes,
//! waiting) is done by the caller, which hands each outcome back as an event
//! and performs the action that comes back.
use vstd::prelude::*;
use crate::engine::{Invocation, engine_envs, generation_invocation, pairs, texts};
use crate::jobs::{
    EventView, JobEvent, JobFiles, JobManager, SnapshotView, after_event, debug_log,
    cancel_in, debug_log_text, event_in, is_active, job_of, law_cancel_keeps_finished_jobs,
    lemma_with_job, queued,
};

verus! {

/// How long the worker waits between two polls of a running process.
pub const POLL_INTERVAL_MS: u64 = 250;

/// Where a worker stands.
#[derive(Debug, PartialEq)]
pub enum WorkerStage {
    /// Waiting for the standard-output log file to be created.
    OpeningStdout,
    /// Waiting for the standard-error log file to be created.
    OpeningStderr,
    /// Waiting for the adapter process to be launched.
    Spawning,
    /// Waiting for the running process to end.
    Polling,
    /// The process ended; waiting for its debug log to be written.
    Logging { success: bool, stdout: String, stderr: String, log: String },
    /// Done; `cleanup` says whether the job's files are to be removed.
    Stopped { cleanup: bool },
}

/// The mathematical value of a stage.
pub enum StageView {
    OpeningStdout,
    OpeningStderr,
    Spawning,
    Polling,
    Logging { success: bool, stdout: Seq<char>, stderr: Seq<char>, log: Seq<char> },
    Stopped { cleanup: bool },
}

impl View for WorkerStage {
    type V = StageView;

    open spec fn view(&self) -> StageView {
        match self {
            WorkerStage::OpeningStdout => StageView::OpeningStdout,
            WorkerStage::OpeningStderr => StageView::OpeningStderr,
            WorkerStage::Spawning => StageView::Spawning,
            WorkerStage::Polling => StageView::Polling,
            WorkerStage::Logging { success, stdout, stderr, log } => StageView::Logging {
                success: *success,
                stdout: stdout@,
                stderr: stderr@,
                log: log@,
            },
            WorkerStage::Stopped { cleanup } => StageView::Stopped { cleanup: *cleanup },
        }
    }
}

/// What the caller saw when it carried out the worker's last action.
#[derive(Debug, PartialEq)]
pub enum WorkerEvent {
    /// The log file was created.
    LogCreated,
    /// The log file could not be created.
    LogFailed { error: String },
    /// The adapter process was launched.
    Spawned,
    /// The adapter process could not be launched.
    SpawnFailed { error: String },
    /// The process is still running.
    Running,
    /// The process is no longer held (it was cancelled and killed).
    Gone,
    /// Asking whether the process had ended failed.
    PollFailed { error: String },
    /// The process ended with `code`, and its logs hold `stdout` and `stderr`.
    Exited { success: bool, code: Option<i32>, stdout: String, stderr: String },
    /// The debug log was written (or writing it failed; either way the worker goes on).
    LogWritten,
}

/// The mathematical value of an event.
pub enum WorkerEventView {
    LogCreated,
    LogFailed { error: Seq<char> },
    Spawned,
    SpawnFailed { error: Seq<char> },
    Running,
    Gone,
    PollFailed { error: Seq<char> },
    Exited { success: bool, code: Option<i32>, stdout: Seq<char>, stderr: Seq<char> },
    LogWritten,
}

impl View for WorkerEvent {
    type V = WorkerEventView;

    open spec fn view(&self) -> WorkerEventView {
        match self {
            WorkerEvent::LogCreated => WorkerEventView::LogCreated,
            WorkerEvent::LogFailed { error } => WorkerEventView::LogFailed { error: error@ },
            WorkerEvent::Spawned => WorkerEventView::Spawned,
            WorkerEvent::SpawnFailed { error } => WorkerEventView::SpawnFailed { error: error@ },
            WorkerEvent::Running => WorkerEventView::Running,
            WorkerEvent::Gone => WorkerEventView::Gone,
            WorkerEvent::PollFailed { error } => WorkerEventView::PollFailed { error: error@ },
            WorkerEvent::Exited { success, code, stdout, stderr } => WorkerEventView::Exited {
                success: *success,
                code: *code,
                stdout: stdout@,
                stderr: stderr@,
            },
            WorkerEvent::LogWritten => WorkerEventView::LogWritten,
        }
    }
}

/// What the worker asks the caller to do next.
#[derive(Debug, PartialEq)]
pub enum WorkerAction {
    /// Create the log file at `path`, for the process's output.
    CreateLog { path: String },
    /// Launch the adapter process.
    Spawn { invocation: Invocation },
    /// Ask, after waiting `after_ms` milliseconds, whether the process has ended.
    Poll { after_ms: u64 },
    /// Write `text` to the debug log at `path`.
    WriteDebugLog { path: String, text: String },
    /// Stop; remove the job's settings and log files when `cleanup` is set.
    Stop { cleanup: bool },
}

/// The mathematical value of an action; a launch is seen as its program,
/// arguments, directory and environment.
pub enum ActionView {
    CreateLog { path: Seq<char> },
    Spawn {
        program: Seq<char>,
        args: Seq<Seq<char>>,
        cwd: Seq<char>,
        envs: Seq<(Seq<char>, Seq<char>)>,
    },
    Poll { after_ms: u64 },
    WriteDebugLog { path: Seq<char>, text: Seq<char> },
    Stop { cleanup: bool },
}

impl View for WorkerAction {
    type V = ActionView;

    open spec fn view(&self) -> ActionView {
        match self {
            WorkerAction::CreateLog { path } => ActionView::CreateLog { path: path@ },
            WorkerAction::Spawn { invocation } => ActionView::Spawn {
                program: invocation.program@,
                args: texts(invocation.args@),
                cwd: invocation.cwd@,
                envs: pairs(invocation.envs@),
            },
            WorkerAction::Poll { after_ms } => ActionView::Poll { after_ms: *after_ms },
            WorkerAction::WriteDebugLog { path, text } => ActionView::WriteDebugLog {
                path: path@,
                text: text@,
            },
            WorkerAction::Stop { cleanup } => ActionView::Stop { cleanup: *cleanup },
        }
    }
}

/// The worker of one job: what it runs, and where it stands.
#[derive(Debug, PartialEq)]
pub struct JobWorker {
    pub python: String,
    pub script: String,
    pub root: String,
    pub model_type: String,
    pub files: JobFiles,
    pub stage: WorkerStage,
}

/// The mathematical value of a worker: its job's id and files, what it
/// launches, and its stage.
pub struct WorkerView {
    pub id: Seq<char>,
    pub python: Seq<char>,
    pub script: Seq<char>,
    pub root: Seq<char>,
    pub model_type: Seq<char>,
    pub settings: Seq<char>,
    pub stdout: Seq<char>,
    pub stderr: Seq<char>,
    pub debug: Seq<char>,
    pub stage: StageView,
}

impl View for JobWorker {
    type V = WorkerView;

    open spec fn view(&self) -> WorkerView {
        WorkerView {
            id: self.files.id@,
            python: self.python@,
            script: self.script@,
            root: self.root@,
            model_type: self.model_type@,
            settings: self.files.settings@,
            stdout: self.files.stdout@,
            stderr: self.files.stderr@,
            debug: self.files.debug@,
            stage: self.stage@,
        }
    }
}

// ---------------------------------------------------------------------------
// The rules.
// ---------------------------------------------------------------------------

/// The launch of the adapter: `python script --root root generate --model
/// model_type --settings settings`, in `root`, with the engine's environment.
pub open spec fn launch_of(w: WorkerView) -> ActionView {
    ActionView::Spawn {
        program: w.python,
        args: seq![
            w.script,
            "--root"@,
            w.root,
            "generate"@,
            "--model"@,
            w.model_type,
            "--settings"@,
            w.settings,
        ],
        cwd: w.root,
        envs: engine_envs(w.root),
    }
}

/// What the worker waits on in its stage.
pub open spec fn waiting_on(w: WorkerView) -> ActionView {
    match w.stage {
        StageView::OpeningStdout => ActionView::CreateLog { path: w.stdout },
        StageView::OpeningStderr => ActionView::CreateLog { path: w.stderr },
        StageView::Spawning => launch_of(w),
        StageView::Polling => ActionView::Poll { after_ms: POLL_INTERVAL_MS },
        StageView::Logging { log, .. } => ActionView::WriteDebugLog { path: w.debug, text: log },
        StageView::Stopped { cleanup } => ActionView::Stop { cleanup },
    }
}

/// The worker `w` moved to `stage`.
pub open spec fn with_stage(w: WorkerView, stage: StageView) -> WorkerView {
    WorkerView { stage, ..w }
}

/// The worker just started on a job.
pub open spec fn begun(
    files_id: Seq<char>,
    python: Seq<char>,
    script: Seq<char>,
    root: Seq<char>,
    model_type: Seq<char>,
    settings: Seq<char>,
    stdout: Seq<char>,
    stderr: Seq<char>,
    debug: Seq<char>,
) -> WorkerView {
    WorkerView {
        id: files_id,
        python,
        script,
        root,
        model_type,
        settings,
        stdout,
        stderr,
        debug,
        stage: StageView::OpeningStdout,
    }
}

/// One step of the worker: the worker after `e`, the action it asks for, and
/// what it records of its job, if anything. An event that the stage does not
/// wait on changes nothing, and the stage's request is made again.
pub open spec fn worker_step(w: WorkerView, e: WorkerEventView) -> (WorkerView, ActionView, Option<EventView>) {
    let unchanged = (w, waiting_on(w), None::<EventView>);
    match w.stage {
        StageView::OpeningStdout => match e {
            WorkerEventView::LogCreated => (
                with_stage(w, StageView::OpeningStderr),
                ActionView::CreateLog { path: w.stderr },
                None,
            ),
            WorkerEventView::LogFailed { error } => (
                with_stage(w, StageView::Stopped { cleanup: false }),
                ActionView::Stop { cleanup: false },
                Some(EventView::StdoutLogFailed { error }),
            ),
            _ => unchanged,
        },
        StageView::OpeningStderr => match e {
            WorkerEventView::LogCreated => (with_stage(w, StageView::Spawning), launch_of(w), None),
            WorkerEventView::LogFailed { error } => (
                with_stage(w, StageView::Stopped { cleanup: false }),
                ActionView::Stop { cleanup: false },
                Some(EventView::StderrLogFailed { error }),
            ),
            _ => unchanged,
        },
        StageView::Spawning => match e {
            WorkerEventView::Spawned => (
                with_stage(w, StageView::Polling),
                ActionView::Poll { after_ms: 0 },
                None,
            ),
            WorkerEventView::SpawnFailed { error } => (
                with_stage(w, StageView::Stopped { cleanup: true }),
                ActionView::Stop { cleanup: true },
                Some(EventView::LaunchFailed { python: w.python, error }),
            ),
            _ => unchanged,
        },
        StageView::Polling => match e {
            WorkerEventView::Running => (w, ActionView::Poll { after_ms: POLL_INTERVAL_MS }, None),
            WorkerEventView::Gone => (w, ActionView::Poll { after_ms: POLL_INTERVAL_MS }, None),
            WorkerEventView::PollFailed { error } => (
                w,
                ActionView::Poll { after_ms: POLL_INTERVAL_MS },
                Some(EventView::PollFailed { error }),
            ),
            WorkerEventView::Exited { success, code, stdout, stderr } => {
                let log = debug_log_text(w.id, code, success, stdout, stderr);
                (
                    with_stage(w, StageView::Logging { success, stdout, stderr, log }),
                    ActionView::WriteDebugLog { path: w.debug, text: log },
                    None,
                )
            },
            _ => unchanged,
        },
        StageView::Logging { success, stdout, stderr, log } => match e {
            WorkerEventView::LogWritten => (
                with_stage(w, StageView::Stopped { cleanup: true }),
                ActionView::Stop { cleanup: true },
                Some(EventView::Exited { success, stdout, stderr, debug_path: w.debug }),
            ),
            _ => unchanged,
        },
        StageView::Stopped { .. } => unchanged,
    }
}

/// The job table once `r`, if anything, is recorded for the job `id`.
pub open spec fn recorded(s: Seq<SnapshotView>, id: Seq<char>, r: Option<EventView>) -> Seq<SnapshotView> {
    match r {
        Some(e) => event_in(s, id, e),
        None => s,
    }
}

impl JobWorker {
    /// Starts the worker of the job whose files are `files`: the job is
    /// recorded as running, and the standard-output log is asked for first.
    pub fn start(
        table: &mut JobManager,
        files: JobFiles,
        python: String,
        script: String,
        root: String,
        model_type: String,
    ) -> (r: (JobWorker, WorkerAction))
        ensures
            r.0@ == begun(
                files.id@,
                python@,
                script@,
                root@,
                model_type@,
                files.settings@,
                files.stdout@,
                files.stderr@,
                files.debug@,
            ),
            r.1@ == (ActionView::CreateLog { path: files.stdout@ }),
            final(table)@ == event_in(old(table)@, files.id@, EventView::Started),
    {
        table.record(files.id.as_str(), JobEvent::Started);
        let action = WorkerAction::CreateLog { path: files.stdout.clone() };
        let worker = JobWorker { python, script, root, model_type, files, stage: WorkerStage::OpeningStdout };
        (worker, action)
    }

    fn launch(&self) -> (a: WorkerAction)
        ensures
            a@ == launch_of(self@),
    {
        let invocation = generation_invocation(
            self.python.as_str(),
            self.script.as_str(),
            self.root.as_str(),
            self.model_type.as_str(),
            self.files.settings.as_str(),
        );
        WorkerAction::Spawn { invocation }
    }

    /// What the worker waits on in its stage.
    pub fn request(&self) -> (a: WorkerAction)
        ensures
            a@ == waiting_on(self@),
    {
        match &self.stage {
            WorkerStage::OpeningStdout => WorkerAction::CreateLog { path: self.files.stdout.clone() },
            WorkerStage::OpeningStderr => WorkerAction::CreateLog { path: self.files.stderr.clone() },
            WorkerStage::Spawning => self.launch(),
            WorkerStage::Polling => WorkerAction::Poll { after_ms: POLL_INTERVAL_MS },
            WorkerStage::Logging { log, .. } => WorkerAction::WriteDebugLog {
                path: self.files.debug.clone(),
                text: log.clone(),
            },
            WorkerStage::Stopped { cleanup } => WorkerAction::Stop { cleanup: *cleanup },
        }
    }

    /// Takes what came of the last action: moves the worker on, records in
    /// `table` what the job's snapshot must show of it, and says what to do next.
    pub fn step(&mut self, table: &mut JobManager, event: WorkerEvent) -> (a: WorkerAction)
        ensures
            final(self)@ == worker_step(old(self)@, event@).0,
            a@ == worker_step(old(self)@, event@).1,
            final(table)@ == recorded(old(table)@, old(self)@.id, worker_step(old(self)@, event@).2),
    {
        let mut stage = WorkerStage::Polling;
        std::mem::swap(&mut stage, &mut self.stage);
        match (stage, event) {
            (WorkerStage::OpeningStdout, WorkerEvent::LogCreated) => {
                self.stage = WorkerStage::OpeningStderr;
                WorkerAction::CreateLog { path: self.files.stderr.clone() }
            },
            (WorkerStage::OpeningStdout, WorkerEvent::LogFailed { error }) => {
                table.record(self.files.id.as_str(), JobEvent::StdoutLogFailed { error });
                self.stage = WorkerStage::Stopped { cleanup: false };
                WorkerAction::Stop { cleanup: false }
            },
            (WorkerStage::OpeningStderr, WorkerEvent::LogCreated) => {
                self.stage = WorkerStage::Spawning;
                self.launch()
            },
            (WorkerStage::OpeningStderr, WorkerEvent::LogFailed { error }) => {
                table.record(self.files.id.as_str(), JobEvent::StderrLogFailed { error });
                self.stage = WorkerStage::Stopped { cleanup: false };
                WorkerAction::Stop { cleanup: false }
            },
            (WorkerStage::Spawning, WorkerEvent::Spawned) => {
                self.stage = WorkerStage::Polling;
                WorkerAction::Poll { after_ms: 0 }
            },
            (WorkerStage::Spawning, WorkerEvent::SpawnFailed { error }) => {
                let python = self.python.clone();
                table.record(self.files.id.as_str(), JobEvent::LaunchFailed { python, error });
                self.stage = WorkerStage::Stopped { cleanup: true };
                WorkerAction::Stop { cleanup: true }
            },
            (WorkerStage::Polling, WorkerEvent::Running) => {
                WorkerAction::Poll { after_ms: POLL_INTERVAL_MS }
            },
            (WorkerStage::Polling, WorkerEvent::Gone) => {
                WorkerAction::Poll { after_ms: POLL_INTERVAL_MS }
            },
            (WorkerStage::Polling, WorkerEvent::PollFailed { error }) => {
                table.record(self.files.id.as_str(), JobEvent::PollFailed { error });
                WorkerAction::Poll { after_ms: POLL_INTERVAL_MS }
            },
            (WorkerStage::Polling, WorkerEvent::Exited { success, code, stdout, stderr }) => {
                let log = debug_log(self.files.id.as_str(), code, success, stdout.as_str(), stderr.as_str());
                let text = log.clone();
                self.stage = WorkerStage::Logging { success, stdout, stderr, log };
                WorkerAction::WriteDebugLog { path: self.files.debug.clone(), text }
            },
            (WorkerStage::Logging { success, stdout, stderr, .. }, WorkerEvent::LogWritten) => {
                let debug_path = self.files.debug.clone();
                table.record(self.files.id.as_str(), JobEvent::Exited { success, stdout, stderr, debug_path });
                self.stage = WorkerStage::Stopped { cleanup: true };
                WorkerAction::Stop { cleanup: true }
            },
            (stage, _) => {
                self.stage = stage;
                self.request()
            },
        }
    }
}

// ---------------------------------------------------------------------------
// Runs of the worker, and its laws.
// ---------------------------------------------------------------------------

/// What a step recorded, as a sequence of none or one event.
pub open spec fn option_seq(r: Option<EventView>) -> Seq<EventView> {
    match r {
        Some(e) => seq![e],
        None => Seq::empty(),
    }
}

/// The worker after the events `evs`, one step each, and what it recorded of
/// its job, in order.
pub open spec fn worker_run(w: WorkerView, evs: Seq<WorkerEventView>) -> (WorkerView, Seq<EventView>)
    decreases evs.len(),
{
    if evs.len() == 0 {
        (w, Seq::empty())
    } else {
        let next = worker_step(w, evs[0]);
        let rest = worker_run(next.0, evs.drop_first());
        (rest.0, option_seq(next.2) + rest.1)
    }
}

/// The job table once each of `recs` is recorded for the job `id`, in order.
pub open spec fn record_all(s: Seq<SnapshotView>, id: Seq<char>, recs: Seq<EventView>) -> Seq<SnapshotView>
    decreases recs.len(),
{
    if recs.len() == 0 {
        s
    } else {
        record_all(event_in(s, id, recs[0]), id, recs.drop_first())
    }
}

/// What a poll of a process that has not ended can answer.
pub open spec fn is_poll_answer(e: WorkerEventView) -> bool {
    e is Running || e is Gone || e is PollFailed
}

proof fn lemma_run_first(w: WorkerView, e: WorkerEventView, rest: Seq<WorkerEventView>)
    ensures
        worker_run(w, seq![e] + rest) == (
        worker_run(worker_step(w, e).0, rest).0,
        option_seq(worker_step(w, e).2) + worker_run(worker_step(w, e).0, rest).1),
{
    assert((seq![e] + rest)[0] == e);
    assert((seq![e] + rest).drop_first() =~= rest);
}

proof fn lemma_run_concat(w: WorkerView, a: Seq<WorkerEventView>, b: Seq<WorkerEventView>)
    ensures
        worker_run(w, a + b) == (
        worker_run(worker_run(w, a).0, b).0,
        worker_run(w, a).1 + worker_run(worker_run(w, a).0, b).1),
    decreases a.len(),
{
    if a.len() == 0 {
        assert(a + b =~= b);
        assert(Seq::<EventView>::empty() + worker_run(w, b).1 =~= worker_run(w, b).1);
    } else {
        let next = worker_step(w, a[0]);
        assert((a + b)[0] == a[0]);
        assert((a + b).drop_first() =~= a.drop_first() + b);
        lemma_run_concat(next.0, a.drop_first(), b);
        let first = worker_run(next.0, a.drop_first());
        let second = worker_run(first.0, b);
        assert(option_seq(next.2) + (first.1 + second.1) =~= (option_seq(next.2) + first.1)
            + second.1);
    }
}

proof fn lemma_record_all_concat(s: Seq<SnapshotView>, id: Seq<char>, r1: Seq<EventView>, r2: Seq<EventView>)
    ensures
        record_all(s, id, r1 + r2) == record_all(record_all(s, id, r1), id, r2),
    decreases r1.len(),
{
    if r1.len() == 0 {
        assert(r1 + r2 =~= r2);
    } else {
        assert((r1 + r2)[0] == r1[0]);
        assert((r1 + r2).drop_first() =~= r1.drop_first() + r2);
        lemma_record_all_concat(event_in(s, id, r1[0]), id, r1.drop_first(), r2);
    }
}

/// A stopped worker stays stopped: whatever comes after, it asks for nothing
/// but to stop, and records nothing more of its job.
pub proof fn law_stopped_worker_is_final(w: WorkerView, evs: Seq<WorkerEventView>)
    requires
        w.stage is Stopped,
    ensures
        worker_run(w, evs) == (w, Seq::<EventView>::empty()),
        forall|e: WorkerEventView|
            #[trigger] worker_step(w, e) == (w, ActionView::Stop { cleanup: w.stage->cleanup }, None::<EventView>),
    decreases evs.len(),
{
    if evs.len() > 0 {
        law_stopped_worker_is_final(w, evs.drop_first());
        assert(Seq::<EventView>::empty() + Seq::<EventView>::empty() =~= Seq::<EventView>::empty());
    }
}

/// Once the process of a polled job ends, the worker asks for the debug log
/// to be written, then records the exit once, with the process's outputs,
/// and stops: nothing that comes after adds another record.
pub proof fn law_exit_recorded_once(
    w: WorkerView,
    success: bool,
    code: Option<i32>,
    stdout: Seq<char>,
    stderr: Seq<char>,
    later: Seq<WorkerEventView>,
)
    requires
        w.stage == StageView::Polling,
    ensures
        worker_step(w, WorkerEventView::Exited { success, code, stdout, stderr }).1 == (ActionView::WriteDebugLog {
            path: w.debug,
            text: debug_log_text(w.id, code, success, stdout, stderr),
        }),
        worker_step(w, WorkerEventView::Exited { success, code, stdout, stderr }).2 is None,
        worker_step(
            worker_step(w, WorkerEventView::Exited { success, code, stdout, stderr }).0,
            WorkerEventView::LogWritten,
        ).1 == (ActionView::Stop { cleanup: true }),
        worker_run(
            w,
            seq![WorkerEventView::Exited { success, code, stdout, stderr }, WorkerEventView::LogWritten]
                + later,
        ) == (with_stage(w, StageView::Stopped { cleanup: true }), seq![
            EventView::Exited { success, stdout, stderr, debug_path: w.debug },
        ]),
{
    let e1 = WorkerEventView::Exited { success, code, stdout, stderr };
    let e2 = WorkerEventView::LogWritten;
    let s1 = worker_step(w, e1);
    let s2 = worker_step(s1.0, e2);
    let done = with_stage(w, StageView::Stopped { cleanup: true });
    assert(s2.0 == done);
    law_stopped_worker_is_final(done, later);
    lemma_run_first(s1.0, e2, later);
    assert(seq![e1, e2] + later =~= seq![e1] + (seq![e2] + later));
    lemma_run_first(w, e1, seq![e2] + later);
    let exit = EventView::Exited { success, stdout, stderr, debug_path: w.debug };
    assert(Seq::<EventView>::empty() + (seq![exit] + Seq::<EventView>::empty()) =~= seq![exit]);
}

proof fn lemma_run_to_polling(w: WorkerView)
    requires
        w.stage == StageView::OpeningStdout,
    ensures
        worker_run(
            w,
            seq![WorkerEventView::LogCreated, WorkerEventView::LogCreated, WorkerEventView::Spawned],
        ) == (with_stage(w, StageView::Polling), Seq::<EventView>::empty()),
{
    let c = WorkerEventView::LogCreated;
    let sp = WorkerEventView::Spawned;
    let w1 = with_stage(w, StageView::OpeningStderr);
    let w2 = with_stage(w, StageView::Spawning);
    let w3 = with_stage(w, StageView::Polling);
    let none = Seq::<EventView>::empty();
    assert(seq![sp] =~= seq![sp] + Seq::<WorkerEventView>::empty());
    lemma_run_first(w2, sp, Seq::<WorkerEventView>::empty());
    assert(worker_run(w3, Seq::<WorkerEventView>::empty()) == (w3, none));
    assert(none + none =~= none);
    assert(seq![c, sp] =~= seq![c] + seq![sp]);
    lemma_run_first(w1, c, seq![sp]);
    assert(seq![c, c, sp] =~= seq![c] + seq![c, sp]);
    lemma_run_first(w, c, seq![c, sp]);
}

proof fn lemma_polls(w: WorkerView, polls: Seq<WorkerEventView>)
    requires
        w.stage == StageView::Polling,
        forall|i: int| 0 <= i < polls.len() ==> is_poll_answer(#[trigger] polls[i]),
    ensures
        worker_run(w, polls).0 == w,
        forall|k: int|
            0 <= k < worker_run(w, polls).1.len() ==> (#[trigger] worker_run(w, polls).1[k]) is PollFailed,
    decreases polls.len(),
{
    if polls.len() > 0 {
        let rest = polls.drop_first();
        assert forall|i: int| 0 <= i < rest.len() implies is_poll_answer(#[trigger] rest[i]) by {
            assert(rest[i] == polls[i + 1]);
        }
        assert(is_poll_answer(polls[0]));
        lemma_polls(w, rest);
    }
}

proof fn lemma_poll_failures(t: Seq<SnapshotView>, id: Seq<char>, recs: Seq<EventView>, x: SnapshotView)
    requires
        job_of(t, id) == Some(x),
        x.id == id,
        x.result is None,
        forall|k: int| 0 <= k < recs.len() ==> (#[trigger] recs[k]) is PollFailed,
    ensures
        job_of(record_all(t, id, recs), id) matches Some(y) && y.id == id && y.result is None,
    decreases recs.len(),
{
    if recs.len() > 0 {
        let x1 = after_event(x, recs[0]);
        lemma_with_job(t, id, x1, id);
        let rest = recs.drop_first();
        assert forall|k: int| 0 <= k < rest.len() implies (#[trigger] rest[k]) is PollFailed by {
            assert(rest[k] == recs[k + 1]);
        }
        lemma_poll_failures(event_in(t, id, recs[0]), id, rest, x1);
    }
}

/// A submitted job that nobody cancels ends with what its process gave, and
/// keeps it. However many polls found the process running, gone or
/// unreadable before it ended, once it exits the job holds the outcome of that
/// exit alone (its result, or the failure message), the worker stops, the
/// exit is the last thing recorded and is recorded once, and nothing after it
/// (not even a cancel) changes the job.
pub proof fn law_uncancelled_job_ends_with_its_outcome(
    s: Seq<SnapshotView>,
    w: WorkerView,
    polls: Seq<WorkerEventView>,
    success: bool,
    code: Option<i32>,
    stdout: Seq<char>,
    stderr: Seq<char>,
    later: Seq<WorkerEventView>,
)
    requires
        w.stage == StageView::OpeningStdout,
        job_of(s, w.id) == Some(queued(w.id)),
        forall|i: int| 0 <= i < polls.len() ==> is_poll_answer(#[trigger] polls[i]),
    ensures
        ({
            let evs = seq![
                WorkerEventView::LogCreated,
                WorkerEventView::LogCreated,
                WorkerEventView::Spawned,
            ] + (polls + (seq![
                WorkerEventView::Exited { success, code, stdout, stderr },
                WorkerEventView::LogWritten,
            ] + later));
            let run = worker_run(w, evs);
            let exit = EventView::Exited { success, stdout, stderr, debug_path: w.debug };
            let outcome = after_event(queued(w.id), exit);
            let table = record_all(event_in(s, w.id, EventView::Started), w.id, run.1);
            &&& run.0.stage == StageView::Stopped { cleanup: true }
            &&& run.1.len() > 0
            &&& run.1.last() == exit
            &&& forall|k: int| 0 <= k < run.1.len() - 1 ==> (#[trigger] run.1[k]) is PollFailed
            &&& job_of(table, w.id) == Some(outcome)
            &&& !is_active(outcome.state)
            &&& cancel_in(table, w.id) == table
        }),
{
    let pre = seq![WorkerEventView::LogCreated, WorkerEventView::LogCreated, WorkerEventView::Spawned];
    let tail = seq![
        WorkerEventView::Exited { success, code, stdout, stderr },
        WorkerEventView::LogWritten,
    ] + later;
    let exit = EventView::Exited { success, stdout, stderr, debug_path: w.debug };
    let wp = with_stage(w, StageView::Polling);
    lemma_run_to_polling(w);
    lemma_run_concat(w, pre, polls + tail);
    lemma_polls(wp, polls);
    lemma_run_concat(wp, polls, tail);
    law_exit_recorded_once(wp, success, code, stdout, stderr, later);
    let pr = worker_run(wp, polls).1;
    let run = worker_run(w, pre + (polls + tail));
    assert(run.1 =~= pr + seq![exit]);
    assert(run.1.last() == exit);
    assert forall|k: int| 0 <= k < run.1.len() - 1 implies (#[trigger] run.1[k]) is PollFailed by {
        assert(run.1[k] == pr[k]);
    }
    let id = w.id;
    let t0 = event_in(s, id, EventView::Started);
    let x = after_event(queued(id), EventView::Started);
    lemma_with_job(s, id, x, id);
    lemma_poll_failures(t0, id, pr, x);
    lemma_record_all_concat(t0, id, pr, seq![exit]);
    let t1 = record_all(t0, id, pr);
    let y = job_of(t1, id)->Some_0;
    lemma_with_job(t1, id, after_event(y, exit), id);
    assert(seq![exit].drop_first() =~= Seq::<EventView>::empty());
    assert(record_all(event_in(t1, id, exit), id, Seq::<EventView>::empty()) == event_in(t1, id, exit));
    assert(seq![exit][0] == exit);
    let table = record_all(t1, id, seq![exit]);
    assert(table == event_in(t1, id, exit));
    let outcome = after_event(queued(id), exit);
    assert(after_event(y, exit) == outcome);
    law_cancel_keeps_finished_jobs(table, id);
}

} // verus!
