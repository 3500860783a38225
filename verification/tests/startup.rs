use creator_studio::runtime::status;
use creator_studio::startup::{run, StartupAction, StartupEvent, StartupReport, StartupStep};
use creator_studio::system_check::{CheckItem, SystemCheck};

fn s(id: &str, status: &str, detail: &str) -> StartupStep {
    StartupStep { id: id.to_string(), status: status.to_string(), detail: detail.to_string() }
}

fn item(name: &str, status: &str, required: bool) -> CheckItem {
    CheckItem { name: name.to_string(), status: status.to_string(), detail: format!("{name} detail"), required }
}

#[test]
fn ready_runtime_starts_engine() {
    let (mut st, a) = run(&status("rt", None, None, true));
    assert_eq!(a, StartupAction::CheckSystem);
    let check = SystemCheck {
        ready: true,
        items: vec![item("Python", "ready", true), item("uv", "missing", false), item("Wan2GP", "ready", true)],
    };
    let a = st.advance(StartupEvent::Checked { check });
    assert_eq!(a, StartupAction::StartEngine);
    let a = st.advance(StartupEvent::EngineStarted { result: Ok("up".to_string()) });
    assert_eq!(
        a,
        StartupAction::Finish {
            report: StartupReport {
                ready: true,
                steps: vec![
                    s("runtime", "ready", "Studio runtime ready at rt"),
                    s("python", "ready", "Python detail"),
                    s("wan2gp", "ready", "Wan2GP detail"),
                    s("engine", "ready", "up"),
                    s("system", "ready", "Studio-managed runtime check passed"),
                ],
            },
        }
    );
}

#[test]
fn failed_install_stops() {
    let (mut st, a) = run(&status("rt", None, None, false));
    assert_eq!(a, StartupAction::Install);
    let a = st.advance(StartupEvent::Installed { result: Err("no network".to_string()) });
    assert_eq!(
        a,
        StartupAction::Finish {
            report: StartupReport {
                ready: false,
                steps: vec![s("runtime", "installing", "Installing Wan2GP into rt"), s("runtime", "failed", "no network")],
            },
        }
    );
}

#[test]
fn unready_check_stops_and_engine_failure_is_not_ready() {
    let (mut st, _) = run(&status("rt", None, None, false));
    let a = st.advance(StartupEvent::Installed { result: Ok(status("rt2", None, None, true)) });
    assert_eq!(a, StartupAction::CheckSystem);
    let check = SystemCheck { ready: false, items: vec![item("Python", "missing", true)] };
    match st.advance(StartupEvent::Checked { check }) {
        StartupAction::Finish { report } => {
            assert!(!report.ready);
            assert_eq!(report.steps[1], s("runtime", "ready", "Installed Wan2GP and managed Python at rt2"));
            assert_eq!(report.steps[2], s("python", "missing", "Python detail"));
        }
        other => panic!("{:?}", other),
    }
    let (mut st, _) = run(&status("rt", None, None, true));
    st.advance(StartupEvent::Checked { check: SystemCheck { ready: true, items: vec![] } });
    match st.advance(StartupEvent::EngineStarted { result: Err("adapter broke".to_string()) }) {
        StartupAction::Finish { report } => {
            assert!(!report.ready);
            assert_eq!(report.steps[1], s("engine", "failed", "adapter broke"));
            assert_eq!(report.steps[2], s("system", "ready", "Studio-managed runtime check passed"));
        }
        other => panic!("{:?}", other),
    }
}

#[test]
fn mismatched_event_changes_nothing() {
    let (mut st, a) = run(&status("rt", None, None, true));
    let b = st.advance(StartupEvent::EngineStarted { result: Ok("x".to_string()) });
    assert_eq!(a, b);
}

#[test]
fn finished_startup_stays_finished() {
    let (mut st, _) = run(&status("rt", None, None, false));
    let done = st.advance(StartupEvent::Installed { result: Err("x".to_string()) });
    let again = st.advance(StartupEvent::EngineStarted { result: Ok("late".to_string()) });
    assert_eq!(done, again);
}
