use vmflow::compilers::{CompilerConfig, CompilerRegistry};
use vmflow::config::{GameConfiguration, Preset, SelectedCompiler, VmfMap};
use vmflow::pipeline::{MapPipeline, PipelineAction, PipelinePhase};
use vmflow::placeholders::PlatformPolicy;
use vmflow::session::{BatchRun, CompilationSession, CompilationSessionSettings};
use vmflow::step::{plan_step, settings_fit_registry, StepWork};
use vmflow::types::{BackendError, CoreEvent, ExitState};

fn tool(name: &str, builtin: bool) -> CompilerConfig {
    CompilerConfig {
        name: name.to_string(),
        is_builtin: builtin,
        description: String::new(),
        parameters: Vec::new(),
        base_arguments: Some("$mapFile".to_string()),
        working_dir: None,
        custom_path: None,
    }
}

fn registry() -> CompilerRegistry {
    CompilerRegistry::new(vec![tool("A", false), tool("B", false), tool("SHUTDOWN", true)])
}

fn game(paths: &[&str]) -> GameConfiguration {
    GameConfiguration {
        name: "Game".to_string(),
        game_dir: "/games/hl2".to_string(),
        bin_dir: "/games/bin".to_string(),
        output_dir: "/games/out".to_string(),
        steam_app_id: Some(220),
        custom_apps_paths: paths.iter().map(|p| p.to_string()).collect(),
    }
}

fn stage(idx: usize, activated: bool) -> SelectedCompiler {
    let mut s = SelectedCompiler::from_idx(idx);
    s.activated = activated;
    s
}

fn map(name: &str, idx: usize, activated: bool) -> VmfMap {
    VmfMap {
        name: name.to_string(),
        path: format!("/home/user/maps/{}.vmf", name),
        activated,
        order_idx: idx,
    }
}

fn session(apps: Vec<SelectedCompiler>, paths: &[&str], limit: usize) -> CompilationSession {
    CompilationSession::new(Preset { name: "P".to_string(), apps }, game(paths), limit)
}

fn count_started(events: &[CoreEvent]) -> usize {
    events.iter().filter(|e| matches!(e, CoreEvent::StepStarted(..))).count()
}

fn step_failed() -> BackendError {
    BackendError::StepFailed("A".to_string(), ExitState { code: Some(1) })
}

#[test]
fn one_active_step_of_two() {
    let reg = registry();
    let s = session(vec![stage(0, true), stage(1, false)], &["/bin/a", "/bin/b", ""], 1);
    let (mut run, started) = s.start_batch(vec![map("test", 0, true)], &reg, PlatformPolicy::Windows);
    assert!(matches!(started, CoreEvent::BatchStarted));
    let mut events = Vec::new();
    let (slot, t) = run.admit_next(false).unwrap();
    assert_eq!(slot, 0);
    events.extend(t.events);
    match t.action {
        PipelineAction::Perform(StepWork::Process(inv)) => {
            assert_eq!(inv.executable, "/bin/a");
            assert_eq!(inv.arguments, vec!["/home/user/maps/test.vmf"]);
            assert_eq!(inv.work_dir, "/games/bin");
        }
        other => panic!("unexpected action {:?}", other),
    }
    assert!(run.admit_next(false).is_none());
    let t = run.report(0, Ok(()), false);
    events.extend(t.events);
    assert!(matches!(t.action, PipelineAction::Done(Ok(()))));
    assert!(run.is_settled(false));
    assert_eq!(count_started(&events), 1);
    assert!(matches!(&events[1], CoreEvent::StepStarted(0, m, st) if m == "test" && st == "A"));
    assert!(matches!(&events[2], CoreEvent::StepFinished(0, _, st) if st == "A"));
    assert!(matches!(events.last(), Some(CoreEvent::MapFinished(0, _, Ok(())))));
    let (end, result) = run.finish(false);
    assert!(matches!(end[0], CoreEvent::BatchCompleted(Ok(()))));
    assert!(matches!(result.as_deref(), Ok([Ok(())])));
}

#[test]
fn empty_path_is_command_not_found() {
    let reg = registry();
    let settings = CompilationSessionSettings {
        preset: Preset { name: "P".to_string(), apps: vec![stage(1, true)] },
        game_config: game(&["/bin/a", "", ""]),
    };
    let r = plan_step(&map("m", 0, true), &settings.preset.apps[0], &settings, &reg, PlatformPolicy::Windows);
    match r {
        Err(BackendError::CommandNotFound(m)) => assert_eq!(m, "Path for B not installed"),
        _ => panic!("expected CommandNotFound"),
    }
    let s = session(vec![stage(1, true)], &["/bin/a", "", ""], 1);
    let (mut run, _) = s.start_batch(vec![map("m", 0, true)], &reg, PlatformPolicy::Windows);
    let (_, t) = run.admit_next(false).unwrap();
    assert!(matches!(t.action, PipelineAction::Done(Err(BackendError::CommandNotFound(_)))));
    assert_eq!(count_started(&t.events), 0);
    assert!(run.is_settled(false));
}

#[test]
fn compatibility_layer_rewrites_exe() {
    let reg = registry();
    let settings = CompilationSessionSettings {
        preset: Preset { name: "P".to_string(), apps: vec![stage(0, true)] },
        game_config: game(&["/tools/vbsp.exe", "", ""]),
    };
    let m = map("test", 0, true);
    match plan_step(&m, &settings.preset.apps[0], &settings, &reg, PlatformPolicy::UnixLike) {
        Ok(StepWork::Process(inv)) => {
            assert_eq!(inv.executable, "wine");
            assert_eq!(inv.arguments, vec!["/tools/vbsp.exe", "Z:/home/user/maps/test.vmf"]);
        }
        _ => panic!("expected a process"),
    }
    match plan_step(&m, &settings.preset.apps[0], &settings, &reg, PlatformPolicy::Windows) {
        Ok(StepWork::Process(inv)) => {
            assert_eq!(inv.executable, "/tools/vbsp.exe");
            assert_eq!(inv.arguments, vec!["/home/user/maps/test.vmf"]);
        }
        _ => panic!("expected a process"),
    }
}

#[test]
fn builtin_stage_needs_no_path() {
    let reg = registry();
    let settings = CompilationSessionSettings {
        preset: Preset { name: "P".to_string(), apps: vec![stage(2, true)] },
        game_config: game(&["", "", ""]),
    };
    match plan_step(&map("m", 0, true), &settings.preset.apps[0], &settings, &reg, PlatformPolicy::UnixLike) {
        Ok(StepWork::Builtin(n)) => assert_eq!(n, "SHUTDOWN"),
        _ => panic!("expected a built-in"),
    }
}

#[test]
fn settings_must_fit_registry() {
    let reg = registry();
    let good = CompilationSessionSettings {
        preset: Preset { name: "P".to_string(), apps: vec![stage(2, true)] },
        game_config: game(&["", "", ""]),
    };
    assert!(settings_fit_registry(&good, &reg));
    let short = CompilationSessionSettings {
        preset: Preset { name: "P".to_string(), apps: vec![stage(2, true)] },
        game_config: game(&["", ""]),
    };
    assert!(!settings_fit_registry(&short, &reg));
    let unknown = CompilationSessionSettings {
        preset: Preset { name: "P".to_string(), apps: vec![stage(3, true)] },
        game_config: game(&["", "", "", ""]),
    };
    assert!(!settings_fit_registry(&unknown, &reg));
}

#[test]
fn cancel_before_any_map_starts() {
    let reg = registry();
    let mut s = session(vec![stage(0, true)], &["/bin/a", "/bin/b", ""], 2);
    let e = s.cancel_batch();
    assert!(matches!(e, CoreEvent::CancellationRequested));
    assert!(s.cancel_requested);
    s.cancel_batch();
    assert!(s.cancel_requested);
    let (mut run, _) = s.start_batch(vec![map("a", 0, true), map("b", 1, true)], &reg, PlatformPolicy::Windows);
    assert!(run.admit_next(true).is_none());
    assert!(run.is_settled(true));
    let (end, result) = run.finish(true);
    assert_eq!(end.len(), 1);
    assert!(matches!(end[0], CoreEvent::BatchCancelled));
    assert!(matches!(result, Err(BackendError::Cancelled)));
}

#[test]
fn cancel_mid_run_stops_between_steps() {
    let reg = registry();
    let s = session(vec![stage(0, true), stage(1, true)], &["/bin/a", "/bin/b", ""], 1);
    let (mut run, _) = s.start_batch(vec![map("a", 0, true), map("b", 1, true)], &reg, PlatformPolicy::Windows);
    let (slot, _) = run.admit_next(false).unwrap();
    // the first step finishes after cancellation was requested
    let t = run.report(slot, Ok(()), true);
    assert_eq!(count_started(&t.events), 0);
    assert!(matches!(t.events[0], CoreEvent::StepFinished(..)));
    assert!(matches!(t.events[1], CoreEvent::MapFinished(0, _, Ok(()))));
    assert!(matches!(t.action, PipelineAction::Done(Ok(()))));
    assert_eq!(run.maps[0].phase, PipelinePhase::CancelledEarly);
    // the second map is never admitted
    assert!(run.admit_next(true).is_none());
    assert_eq!(run.maps[1].phase, PipelinePhase::NotStarted);
    assert!(run.is_settled(true));
    assert!(!run.is_settled(false));
    let (end, result) = run.finish(true);
    assert!(matches!(end[0], CoreEvent::BatchCancelled));
    assert!(matches!(result, Err(BackendError::Cancelled)));
}

#[test]
fn runner_cancellation_ends_the_map() {
    let reg = registry();
    let s = session(vec![stage(0, true), stage(1, true)], &["/bin/a", "/bin/b", ""], 1);
    let (mut run, _) = s.start_batch(vec![map("a", 0, true)], &reg, PlatformPolicy::Windows);
    run.admit_next(false).unwrap();
    let t = run.report(0, Err(BackendError::Cancelled), true);
    assert!(matches!(t.action, PipelineAction::Done(Err(BackendError::Cancelled))));
    assert_eq!(run.maps[0].phase, PipelinePhase::Finished);
}

#[test]
fn failed_map_leaves_siblings_alone() {
    let reg = registry();
    let s = session(vec![stage(0, true), stage(1, true)], &["/bin/a", "/bin/b", ""], 2);
    let (mut run, _) = s.start_batch(vec![map("a", 0, true), map("b", 1, true)], &reg, PlatformPolicy::Windows);
    run.admit_next(false).unwrap();
    run.admit_next(false).unwrap();
    let t = run.report(0, Err(step_failed()), false);
    assert!(matches!(t.events[0], CoreEvent::MapFinished(0, _, Err(BackendError::StepFailed(..)))));
    assert_eq!(run.maps[1].phase, PipelinePhase::Running);
    let t = run.report(1, Ok(()), false);
    assert!(matches!(t.events[1], CoreEvent::StepStarted(1, _, _)));
    let t = run.report(1, Ok(()), false);
    assert!(matches!(t.action, PipelineAction::Done(Ok(()))));
    assert!(run.is_settled(false));
    let (end, result) = run.finish(false);
    assert!(matches!(end[0], CoreEvent::BatchCompleted(Ok(()))));
    let results = result.unwrap();
    assert_eq!(results.len(), 2);
    assert!(matches!(&results[0], Err(BackendError::StepFailed(n, ExitState { code: Some(1) })) if n == "A"));
    assert!(results[1].is_ok());
}

#[test]
fn live_maps_never_exceed_limit() {
    let reg = registry();
    let maps: Vec<VmfMap> = (0..5).map(|i| map(&format!("m{}", i), i, i != 3)).collect();
    let s = session(vec![stage(0, true)], &["/bin/a", "/bin/b", ""], 2);
    let (mut run, _) = s.start_batch(maps, &reg, PlatformPolicy::Windows);
    assert_eq!(run.maps.len(), 4);
    assert_eq!(run.maps[3].map_id, 4);
    let mut slots = Vec::new();
    while let Some((slot, _)) = run.admit_next(false) {
        slots.push(slot);
        assert!(run.live <= 2);
    }
    assert_eq!(slots, vec![0, 1]);
    let mut done = 0;
    while let Some(slot) = slots.pop() {
        run.report(slot, Ok(()), false);
        done += 1;
        while let Some((s2, _)) = run.admit_next(false) {
            slots.push(s2);
            assert!(run.live <= 2);
        }
    }
    assert_eq!(done, 4);
    assert!(run.is_settled(false));
}

#[test]
fn zero_limit_admits_one_at_a_time() {
    let reg = registry();
    let s = session(vec![stage(0, true)], &["/bin/a", "/bin/b", ""], 0);
    let (mut run, _) = s.start_batch(vec![map("a", 0, true), map("b", 1, true)], &reg, PlatformPolicy::Windows);
    assert_eq!(run.limit, 1);
    assert!(run.admit_next(false).is_some());
    assert!(run.admit_next(false).is_none());
}

#[test]
fn pipeline_with_no_active_stage_finishes_at_once() {
    let reg = registry();
    let settings = CompilationSessionSettings {
        preset: Preset { name: "P".to_string(), apps: vec![stage(0, false)] },
        game_config: game(&["/bin/a", "", ""]),
    };
    let mut p = MapPipeline::new(&map("m", 7, true), &settings, &reg, PlatformPolicy::Windows);
    let t = p.start(true);
    assert!(matches!(t.events[0], CoreEvent::MapStarted(7, _)));
    assert!(matches!(t.events[1], CoreEvent::MapFinished(7, _, Ok(()))));
    assert_eq!(p.phase, PipelinePhase::Finished);
    let empty = BatchRun::new(&Vec::new(), &settings, &reg, PlatformPolicy::Windows, 3);
    assert!(empty.is_settled(false));
    let (_, result) = empty.finish(false);
    assert!(result.unwrap().is_empty());
}

#[test]
fn stages_run_in_preset_order() {
    let reg = registry();
    let s = session(vec![stage(0, true), stage(1, false), stage(0, true), stage(1, true)], &["/bin/a", "", ""], 1);
    let (mut run, _) = s.start_batch(vec![map("a", 0, true)], &reg, PlatformPolicy::Windows);
    run.admit_next(false).unwrap();
    assert_eq!(run.maps[0].current, 0);
    let t = run.report(0, Ok(()), false);
    assert_eq!(run.maps[0].current, 2);
    assert!(matches!(&t.events[1], CoreEvent::StepStarted(0, _, st) if st == "A"));
    // the last stage has no executable: the map ends before starting it
    let t = run.report(0, Ok(()), false);
    assert_eq!(count_started(&t.events), 0);
    assert!(matches!(&t.events[1], CoreEvent::MapFinished(0, _, Err(BackendError::CommandNotFound(m))) if m == "Path for B not installed"));
    assert_eq!(run.maps[0].phase, PipelinePhase::Finished);
    assert!(run.is_settled(false));
}
