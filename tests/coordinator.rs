use venus::message::{ConfigMsg, Coordinator, Effect, RestartOutcome};
use venus::supervisor::{classify_output, version_from_output, CoreMessage, VCore};
use venus::ui::{CoreStatus, RUAEvents, UI};

/// Runs queued messages one at a time against a supervisor, recording the
/// order of kills, spawns and reports.
fn run(queue: Vec<ConfigMsg>, coord: &mut Coordinator, core: &mut VCore, log: &mut Vec<String>) {
    let mut next_pid = 100;
    for msg in queue {
        for effect in coord.handle(msg) {
            match effect {
                Effect::Restart => {
                    let outcome = match core.restart() {
                        Some(respawn) => {
                            log.push(format!("kill {}", respawn.kill));
                            next_pid += 1;
                            core.spawned(next_pid);
                            log.push(format!("spawn {next_pid} {}", respawn.path));
                            RestartOutcome::Respawned
                        }
                        None => {
                            log.push("no process".to_string());
                            RestartOutcome::NoProcess
                        }
                    };
                    for e in coord.restart_finished(outcome) {
                        log.push(format!("{e:?}"));
                    }
                }
                other => log.push(format!("{other:?}")),
            }
        }
    }
}

#[test]
fn back_to_back_restarts_complete_in_order() {
    let mut core = VCore::build();
    let path = core.init("/res".to_string());
    assert_eq!(path, "/res");
    core.spawned(7);
    let mut coord = Coordinator::new(UI::default(), false);
    let mut log = Vec::new();
    run(vec![ConfigMsg::RestartCore, ConfigMsg::RestartCore], &mut coord, &mut core, &mut log);
    let report = [
        format!("{:?}", Effect::Emit(RUAEvents::UpdateUI)),
        format!("{:?}", Effect::Emit(RUAEvents::UpdateCoreConfig)),
        format!("{:?}", Effect::Emit(RUAEvents::UpdateRuaConfig)),
    ];
    let mut expected = vec![report[0].clone(), "kill 7".to_string(), "spawn 101 /res".to_string()];
    expected.extend(report.iter().cloned());
    expected.extend([report[0].clone(), "kill 101".to_string(), "spawn 102 /res".to_string()]);
    expected.extend(report.iter().cloned());
    assert_eq!(log, expected);
    assert_eq!(coord.ui.core_status, CoreStatus::Started);
    assert_eq!(core.child, Some(102));
}

#[test]
fn restart_without_process_changes_nothing() {
    let mut core = VCore::build();
    core.init("/res".to_string());
    assert_eq!(core.restart(), None);
    assert_eq!(core.child, None);
    assert!(!core.shutdown);
    assert_eq!(core.asset_path, "/res");
}

#[test]
fn termination_is_reported_only_when_unexpected() {
    let mut core = VCore::build();
    core.init("/res".to_string());
    core.spawned(3);
    assert_eq!(core.on_terminated(), Some(ConfigMsg::CoreStatus(CoreStatus::Stopped)));
    let respawn = core.restart().unwrap();
    assert_eq!(core.on_terminated(), None);
    core.spawned(respawn.kill + 1);
    assert_eq!(core.on_terminated(), Some(ConfigMsg::CoreStatus(CoreStatus::Stopped)));
    core.init("/res".to_string());
    assert!(core.on_terminated().is_some());
    assert_eq!(core.exit(), Some(4));
    assert_eq!(core.on_terminated(), None);
}

#[test]
fn failed_restart_leaves_core_stopped() {
    let mut coord = Coordinator::new(UI::default(), false);
    coord.handle(ConfigMsg::CoreStatus(CoreStatus::Started));
    let effects = coord.handle(ConfigMsg::RestartCore);
    assert_eq!(effects, vec![Effect::Emit(RUAEvents::UpdateUI), Effect::Restart]);
    assert_eq!(coord.ui.core_status, CoreStatus::Restarting);
    coord.restart_finished(RestartOutcome::Failed);
    assert_eq!(coord.ui.core_status, CoreStatus::Stopped);
}

#[test]
fn log_lines_follow_the_logging_flag() {
    let mut coord = Coordinator::new(UI::default(), false);
    assert!(coord.handle(ConfigMsg::EmitLog("x".to_string())).is_empty());
    coord.set_logging(true);
    assert_eq!(coord.handle(ConfigMsg::EmitLog("x".to_string())), vec![Effect::EmitLog("x".to_string())]);
    assert_eq!(
        coord.handle(ConfigMsg::EmitConfig),
        vec![Effect::Emit(RUAEvents::UpdateRuaConfig), Effect::Emit(RUAEvents::UpdateCoreConfig)]
    );
}

#[test]
fn speed_tests_are_queued_one_per_node() {
    let mut coord = Coordinator::new(UI::default(), false);
    let ids = vec!["b".to_string(), "a".to_string()];
    assert_eq!(
        coord.handle(ConfigMsg::SpeedTest(ids)),
        vec![Effect::SpeedTest("b".to_string()), Effect::SpeedTest("a".to_string())]
    );
}

#[test]
fn names_of_states_and_events() {
    assert_eq!(CoreStatus::Restarting.as_str(), "Restarting");
    assert_eq!(RUAEvents::UpdateUI.as_str(), "rua://update-ui");
    assert_eq!(RUAEvents::EmitLog.as_str(), "rua://emit-log");
    assert_eq!(UI::default().core_status, CoreStatus::Stopped);
    assert_eq!(classify_output("v2ray 5.1 started"), Some(CoreMessage::Started));
    assert_eq!(classify_output("listening"), None);
}

#[test]
fn engine_version_is_second_field() {
    assert_eq!(version_from_output("V2Ray 5.4.1 (V2Fly, a community-driven edition of V2Ray.)"), "5.4.1");
    assert_eq!(version_from_output("V2Ray 5.4.1"), "5.4.1");
    assert_eq!(version_from_output("V2Ray"), "0.0");
    assert_eq!(version_from_output("a  b"), "");
}

#[test]
fn restart_with_no_process_keeps_status() {
    for status in [CoreStatus::Stopped, CoreStatus::Started] {
        let mut core = VCore::build();
        let mut ui = UI::default();
        ui.core_status = status;
        let mut coord = Coordinator::new(ui, false);
        let mut log = Vec::new();
        run(vec![ConfigMsg::RestartCore], &mut coord, &mut core, &mut log);
        assert_eq!(coord.ui.core_status, status);
        assert!(log.contains(&"no process".to_string()));
        assert_eq!(core.child, None);
    }
}
