//! First-run startup: install the runtime when it is missing, check the
//! system, start the engine, and report each step. The user only has to
//! download supported models; everything else is the studio's to do.
use vstd::prelude::*;
use crate::runtime::RuntimeStatus;
use crate::system_check::{CheckItem, SystemCheck};
use crate::text::{concat2, lowercased, same_text, to_lowercase};

verus! {

/// One reported step of the startup.
#[derive(Debug, PartialEq)]
pub struct StartupStep {
    pub id: String,
    pub status: String,
    pub detail: String,
}

/// The startup's report: whether the studio is ready, and its steps.
#[derive(Debug, PartialEq)]
pub struct StartupReport {
    pub ready: bool,
    pub steps: Vec<StartupStep>,
}

pub open spec fn step_view(s: StartupStep) -> (Seq<char>, Seq<char>, Seq<char>) {
    (s.id@, s.status@, s.detail@)
}

pub open spec fn steps_view(s: Seq<StartupStep>) -> Seq<(Seq<char>, Seq<char>, Seq<char>)> {
    s.map_values(|x: StartupStep| step_view(x))
}

/// A step with the given texts.
pub fn step(id: &str, status: &str, detail: String) -> (r: StartupStep)
    ensures
        step_view(r) == (id@, status@, detail@),
{
    StartupStep { id: String::from_str(id), status: String::from_str(status), detail }
}

fn copy_steps(steps: &Vec<StartupStep>) -> (r: Vec<StartupStep>)
    ensures
        steps_view(r@) == steps_view(steps@),
{
    let mut out: Vec<StartupStep> = Vec::new();
    let mut i: usize = 0;
    while i < steps.len()
        invariant
            i <= steps.len(),
            steps_view(out@) == steps_view(steps@.take(i as int)),
        decreases steps.len() - i,
    {
        let s = &steps[i];
        assert(steps@.take(i + 1) =~= steps@.take(i as int).push(steps@[i as int]));
        let ghost before = out@;
        let id = s.id.clone();
        let status = s.status.clone();
        let detail = s.detail.clone();
        let n = StartupStep { id, status, detail };
        assert(step_view(n) == step_view(steps@[i as int]));
        out.push(n);
        assert(out@ == before.push(n));
        assert(steps_view(out@) =~= steps_view(before).push(step_view(n)));
        assert(steps_view(out@) =~= steps_view(steps@.take(i + 1)));
        i += 1;
    }
    assert(steps@.take(steps.len() as int) =~= steps@);
    out
}

/// Where the startup stands.
#[derive(Clone, Copy, PartialEq, Eq, Structural)]
pub enum StartupStage {
    Installing,
    Checking,
    Starting,
    Done { ready: bool },
}

/// The outside work the startup asks for.
#[derive(Debug, PartialEq)]
pub enum StartupAction {
    /// Install the runtime; answer `Installed`.
    Install,
    /// Run the system check; answer `Checked`.
    CheckSystem,
    /// Start the engine; answer `EngineStarted`.
    StartEngine,
    /// The startup is over with this report.
    Finish { report: StartupReport },
}

pub enum StartupActionView {
    Install,
    CheckSystem,
    StartEngine,
    Finish { ready: bool, steps: Seq<(Seq<char>, Seq<char>, Seq<char>)> },
}

impl View for StartupAction {
    type V = StartupActionView;

    open spec fn view(&self) -> StartupActionView {
        match self {
            StartupAction::Install => StartupActionView::Install,
            StartupAction::CheckSystem => StartupActionView::CheckSystem,
            StartupAction::StartEngine => StartupActionView::StartEngine,
            StartupAction::Finish { report } => StartupActionView::Finish {
                ready: report.ready,
                steps: steps_view(report.steps@),
            },
        }
    }
}

/// The outcome of the work asked for.
#[derive(Debug, PartialEq)]
pub enum StartupEvent {
    Installed { result: Result<RuntimeStatus, String> },
    Checked { check: SystemCheck },
    EngineStarted { result: Result<String, String> },
}

/// A startup in progress: the steps reported so far and its stage.
pub struct Startup {
    pub steps: Vec<StartupStep>,
    pub stage: StartupStage,
}

pub struct StartupView {
    pub steps: Seq<(Seq<char>, Seq<char>, Seq<char>)>,
    pub stage: StartupStage,
}

impl View for Startup {
    type V = StartupView;

    open spec fn view(&self) -> StartupView {
        StartupView { steps: steps_view(self.steps@), stage: self.stage }
    }
}

/// What a startup in state `v` asks for.
pub open spec fn startup_action(v: StartupView) -> StartupActionView {
    match v.stage {
        StartupStage::Installing => StartupActionView::Install,
        StartupStage::Checking => StartupActionView::CheckSystem,
        StartupStage::Starting => StartupActionView::StartEngine,
        StartupStage::Done { ready } => StartupActionView::Finish { ready, steps: v.steps },
    }
}

/// The steps that the required items of a system check add: one per
/// required item, named by the item's name in lower case.
pub open spec fn required_steps(items: Seq<CheckItem>) -> Seq<(Seq<char>, Seq<char>, Seq<char>)>
    decreases items.len(),
{
    if items.len() == 0 {
        Seq::empty()
    } else {
        let prev = required_steps(items.drop_last());
        let it = items.last();
        if it.required {
            prev.push((lowercased(it.name@), it.status@, it.detail@))
        } else {
            prev
        }
    }
}

/// Whether some step is the engine, ready.
pub open spec fn engine_ready(steps: Seq<(Seq<char>, Seq<char>, Seq<char>)>) -> bool {
    exists|k: int| 0 <= k < steps.len() && (#[trigger] steps[k]).0 == "engine"@ && steps[k].1 == "ready"@
}

pub open spec fn system_step() -> (Seq<char>, Seq<char>, Seq<char>) {
    ("system"@, "ready"@, "Studio-managed runtime check passed"@)
}

/// The startup as it begins, from the runtime's status.
pub open spec fn startup_begin(runtime: RuntimeStatus) -> StartupView {
    if runtime.ready {
        StartupView {
            steps: seq![("runtime"@, "ready"@, "Studio runtime ready at "@ + runtime.runtime_dir@)],
            stage: StartupStage::Checking,
        }
    } else {
        StartupView {
            steps: seq![("runtime"@, "installing"@, "Installing Wan2GP into "@ + runtime.runtime_dir@)],
            stage: StartupStage::Installing,
        }
    }
}

/// The startup once the work it asked for ended with `e`. An outcome of
/// other work than was asked for leaves it where it is.
pub open spec fn startup_step(v: StartupView, e: StartupEvent) -> StartupView {
    match (v.stage, e) {
        (StartupStage::Installing, StartupEvent::Installed { result }) => match result {
            Ok(st) => StartupView {
                steps: v.steps.push(
                    ("runtime"@, "ready"@, "Installed Wan2GP and managed Python at "@ + st.runtime_dir@),
                ),
                stage: StartupStage::Checking,
            },
            Err(detail) => StartupView {
                steps: v.steps.push(("runtime"@, "failed"@, detail@)),
                stage: StartupStage::Done { ready: false },
            },
        },
        (StartupStage::Checking, StartupEvent::Checked { check }) => StartupView {
            steps: v.steps + required_steps(check.items@),
            stage: if check.ready {
                StartupStage::Starting
            } else {
                StartupStage::Done { ready: false }
            },
        },
        (StartupStage::Starting, StartupEvent::EngineStarted { result }) => {
            let with_engine = v.steps.push(
                match result {
                    Ok(d) => ("engine"@, "ready"@, d@),
                    Err(d) => ("engine"@, "failed"@, d@),
                },
            );
            StartupView {
                steps: with_engine.push(system_step()),
                stage: StartupStage::Done { ready: engine_ready(with_engine) },
            }
        },
        _ => v,
    }
}

impl Startup {
    /// The action that the startup asks for now.
    pub fn action(&self) -> (r: StartupAction)
        ensures
            r@ == startup_action(self@),
    {
        match self.stage {
            StartupStage::Installing => StartupAction::Install,
            StartupStage::Checking => StartupAction::CheckSystem,
            StartupStage::Starting => StartupAction::StartEngine,
            StartupStage::Done { ready } => StartupAction::Finish {
                report: StartupReport { ready, steps: copy_steps(&self.steps) },
            },
        }
    }

    /// Takes the outcome of the work asked for, moves on, and gives the next
    /// work to do.
    pub fn advance(&mut self, event: StartupEvent) -> (r: StartupAction)
        ensures
            final(self)@ == startup_step(old(self)@, event),
            r@ == startup_action(final(self)@),
    {
        let ghost ev = event;
        match (self.stage, event) {
            (StartupStage::Installing, StartupEvent::Installed { result }) => match result {
                Ok(st) => {
                    let d = concat2("Installed Wan2GP and managed Python at ", st.runtime_dir.as_str());
                    let n = step("runtime", "ready", d);
                    self.steps.push(n);
                    self.stage = StartupStage::Checking;
                    assert(self@.steps =~= startup_step(old(self)@, ev).steps);
                    assert(self@ == startup_step(old(self)@, ev));
                },
                Err(detail) => {
                    let n = step("runtime", "failed", detail);
                    self.steps.push(n);
                    self.stage = StartupStage::Done { ready: false };
                    assert(self@.steps =~= startup_step(old(self)@, ev).steps);
                    assert(self@ == startup_step(old(self)@, ev));
                },
            },
            (StartupStage::Checking, StartupEvent::Checked { check }) => {
                self.push_required(&check.items);
                if check.ready {
                    self.stage = StartupStage::Starting;
                } else {
                    self.stage = StartupStage::Done { ready: false };
                }
                assert(self@ == startup_step(old(self)@, ev));
            },
            (StartupStage::Starting, StartupEvent::EngineStarted { result }) => {
                let ghost rv = result;
                match result {
                    Ok(d) => self.steps.push(step("engine", "ready", d)),
                    Err(d) => self.steps.push(step("engine", "failed", d)),
                }
                assert(steps_view(self.steps@) =~= old(self)@.steps.push(
                    match rv {
                        Ok(d) => ("engine"@, "ready"@, d@),
                        Err(d) => ("engine"@, "failed"@, d@),
                    },
                ));
                let ok = engine_is_ready(&self.steps);
                self.steps.push(
                    step("system", "ready", String::from_str("Studio-managed runtime check passed")),
                );
                self.stage = StartupStage::Done { ready: ok };
                assert(self@.steps =~= startup_step(old(self)@, ev).steps);
                assert(self@ == startup_step(old(self)@, ev));
            },
            _ => {
                assert(self@ == startup_step(old(self)@, ev));
            },
        }
        assert(self@ == startup_step(old(self)@, ev));
        self.action()
    }

    fn push_required(&mut self, items: &Vec<CheckItem>)
        ensures
            final(self)@ == (StartupView {
                steps: old(self)@.steps + required_steps(items@),
                stage: old(self).stage,
            }),
    {
        let mut i: usize = 0;
        while i < items.len()
            invariant
                i <= items.len(),
                self@.steps == old(self)@.steps + required_steps(items@.take(i as int)),
                self.stage == old(self).stage,
            decreases items.len() - i,
        {
            assert(items@.take(i + 1).drop_last() =~= items@.take(i as int));
            let it = &items[i];
            assert(items@.take(i + 1).last() == items@[i as int]);
            if it.required {
                let id = to_lowercase(it.name.as_str());
                let n = StartupStep { id, status: it.status.clone(), detail: it.detail.clone() };
                let ghost sb = self.steps@;
                self.steps.push(n);
                assert(self.steps@ == sb.push(n));
                assert(steps_view(self.steps@) =~= steps_view(sb).push(step_view(n)));
                assert(required_steps(items@.take(i + 1)) =~= required_steps(items@.take(i as int)).push(step_view(n)));
            } else {
                assert(required_steps(items@.take(i + 1)) =~= required_steps(items@.take(i as int)));
            }
            assert(self@.steps =~= old(self)@.steps + required_steps(items@.take(i + 1)));
            i += 1;
        }
        assert(items@.take(items.len() as int) =~= items@);
    }
}

fn engine_is_ready(steps: &Vec<StartupStep>) -> (r: bool)
    ensures
        r == engine_ready(steps_view(steps@)),
{
    let ghost sv = steps_view(steps@);
    let mut i: usize = 0;
    while i < steps.len()
        invariant
            i <= steps.len(),
            sv == steps_view(steps@),
            forall|k: int| 0 <= k < i ==> !((#[trigger] sv[k]).0 == "engine"@ && sv[k].1 == "ready"@),
        decreases steps.len() - i,
    {
        assert(sv[i as int] == step_view(steps@[i as int]));
        if same_text(steps[i].id.as_str(), "engine") && same_text(steps[i].status.as_str(), "ready") {
            return true;
        }
        i += 1;
    }
    false
}

/// Begins the startup from the runtime's status: a ready runtime goes on to
/// the system check, a missing one is installed first.
pub fn run(runtime: &RuntimeStatus) -> (r: (Startup, StartupAction))
    ensures
        r.0@ == startup_begin(*runtime),
        r.1@ == startup_action(r.0@),
{
    let mut steps: Vec<StartupStep> = Vec::new();
    let stage = if runtime.ready {
        steps.push(
            step("runtime", "ready", concat2("Studio runtime ready at ", runtime.runtime_dir.as_str())),
        );
        StartupStage::Checking
    } else {
        steps.push(
            step(
                "runtime",
                "installing",
                concat2("Installing Wan2GP into ", runtime.runtime_dir.as_str()),
            ),
        );
        StartupStage::Installing
    };
    let s = Startup { steps, stage };
    assert(s@.steps =~= startup_begin(*runtime).steps);
    let a = s.action();
    (s, a)
}

// ---------------------------------------------------------------------------
// Laws of the startup.
// ---------------------------------------------------------------------------

/// A finished startup stays finished, with the same report.
pub proof fn law_finished_startup_is_final(v: StartupView, e: StartupEvent)
    requires
        v.stage is Done,
    ensures
        startup_step(v, e) == v,
{
}

/// The startup reports the studio ready only when a step reports the engine
/// ready.
pub proof fn law_ready_needs_engine(v: StartupView, e: StartupEvent)
    requires
        !(v.stage is Done),
        startup_step(v, e).stage == (StartupStage::Done { ready: true }),
    ensures
        engine_ready(startup_step(v, e).steps),
{
    let w = startup_step(v, e);
    match (v.stage, e) {
        (StartupStage::Starting, StartupEvent::EngineStarted { result }) => {
            let with_engine = v.steps.push(
                match result {
                    Ok(d) => ("engine"@, "ready"@, d@),
                    Err(d) => ("engine"@, "failed"@, d@),
                },
            );
            let k = choose|k: int|
                0 <= k < with_engine.len() && (#[trigger] with_engine[k]).0 == "engine"@
                    && with_engine[k].1 == "ready"@;
            assert(w.steps[k] == with_engine[k]);
        },
        _ => {},
    }
}

/// Once the startup waits on the engine, and no step so far reports the
/// engine ready, it reports the studio ready exactly when the engine started.
pub proof fn law_ready_iff_engine_started(v: StartupView, result: Result<String, String>)
    requires
        v.stage == StartupStage::Starting,
        !engine_ready(v.steps),
    ensures
        startup_step(v, StartupEvent::EngineStarted { result }).stage == (StartupStage::Done {
            ready: result is Ok,
        }),
{
    let last = match result {
        Ok(d) => ("engine"@, "ready"@, d@),
        Err(d) => ("engine"@, "failed"@, d@),
    };
    let with_engine = v.steps.push(last);
    if result is Ok {
        assert(with_engine[v.steps.len() as int] == last);
    } else {
        reveal_strlit("failed");
        reveal_strlit("ready");
        assert("failed"@[0] != "ready"@[0]);
        if engine_ready(with_engine) {
            let k = choose|k: int|
                0 <= k < with_engine.len() && (#[trigger] with_engine[k]).0 == "engine"@
                    && with_engine[k].1 == "ready"@;
            if k < v.steps.len() {
                assert(with_engine[k] == v.steps[k]);
            }
        }
    }
}

/// A failed installation ends the startup at once, not ready, its last step
/// reporting the failure.
pub proof fn law_failed_install_stops(v: StartupView, detail: String)
    requires
        v.stage is Installing,
    ensures
        startup_step(v, StartupEvent::Installed { result: Err(detail) }).stage == (StartupStage::Done {
            ready: false,
        }),
        startup_step(v, StartupEvent::Installed { result: Err(detail) }).steps.last() == (
            "runtime"@,
            "failed"@,
            detail@,
        ),
{
}

} // verus!
