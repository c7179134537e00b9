use vmflow::app::{PresetEditorWindow, VmFlowApp};
use vmflow::compilers::{CompilerConfig, CompilerRegistry};
use vmflow::config::{GameConfiguration, Preset, SelectedCompiler, VmfMap};
use vmflow::placeholders::{resolve_placeholders, resolve_token, PlatformPolicy};
use vmflow::session::CompilationSessionSettings;
use vmflow::settings::{AppSettings, Settings, Themes};
use vmflow::text::{ends_with, format_duration, split_words, str_eq};
use vmflow::types::CoreEvent;

fn game() -> GameConfiguration {
    GameConfiguration {
        name: "Half-Life 2".to_string(),
        game_dir: "/games/hl2".to_string(),
        bin_dir: "/games/bin".to_string(),
        output_dir: "/games/out".to_string(),
        steam_app_id: None,
        custom_apps_paths: vec!["/t/vbsp.exe".to_string(), "/t/vvis.exe".to_string(), "/t/vrad.exe".to_string()],
    }
}

fn map_at(path: &str) -> VmfMap {
    VmfMap { name: "test.vmf".to_string(), path: path.to_string(), activated: true, order_idx: 0 }
}

fn registry() -> CompilerRegistry {
    CompilerRegistry::new(vec![CompilerConfig {
        name: "VBSP".to_string(),
        is_builtin: false,
        description: String::new(),
        parameters: Vec::new(),
        base_arguments: None,
        working_dir: None,
        custom_path: None,
    }])
}

#[test]
fn map_file_under_compatibility_layer() {
    let settings = CompilationSessionSettings { preset: Preset { name: String::new(), apps: Vec::new() }, game_config: game() };
    let m = map_at("/home/user/maps/test.vmf");
    let mut arg = "$mapFile".to_string();
    resolve_placeholders(&mut arg, &m, &settings, PlatformPolicy::UnixLike);
    assert_eq!(arg, "Z:/home/user/maps/test.vmf");
    let mut native = "$mapFile".to_string();
    resolve_placeholders(&mut native, &m, &settings, PlatformPolicy::Windows);
    assert_eq!(native, "/home/user/maps/test.vmf");
}

#[test]
fn other_placeholders() {
    let g = game();
    let m = map_at("/m.vmf");
    let u = PlatformPolicy::UnixLike;
    assert_eq!(resolve_token("$gameDir", &m, &g, u), "Z:/games/hl2");
    assert_eq!(resolve_token("$gameDir", &m, &g, PlatformPolicy::Unsupported), "/games/hl2");
    assert_eq!(resolve_token("$binFolder", &m, &g, u), "/games/bin");
    assert_eq!(resolve_token("$outputDir", &m, &g, u), "/games/out");
    assert_eq!(resolve_token("$vbsp", &m, &g, u), "/t/vbsp.exe");
    assert_eq!(resolve_token("$vvis", &m, &g, u), "/t/vvis.exe");
    assert_eq!(resolve_token("$vrad", &m, &g, u), "/t/vrad.exe");
    // the table has no slot for this tool: the token stays
    assert_eq!(resolve_token("$bspZip", &m, &g, u), "$bspZip");
    assert_eq!(resolve_token("-fast", &m, &g, u), "-fast");
    assert_eq!(resolve_token("", &m, &g, u), "");
}

#[test]
fn words_split_at_white_space() {
    assert_eq!(split_words("  -a \t-b\n c  "), vec!["-a", "-b", "c"]);
    assert!(split_words("").is_empty());
    assert!(split_words(" \u{3000}\t").is_empty());
    assert_eq!(split_words("one"), vec!["one"]);
    assert_eq!(split_words("x\u{a0}y"), vec!["x", "y"]);
}

#[test]
fn string_helpers() {
    assert!(str_eq("abc", "abc"));
    assert!(!str_eq("abc", "abd"));
    assert!(!str_eq("ab", "abc"));
    assert!(ends_with("vbsp.exe", ".exe"));
    assert!(!ends_with("vbsp", ".exe"));
    assert!(!ends_with("exe", ".exe"));
}

#[test]
fn durations() {
    assert_eq!(format_duration(0), "00:00:00");
    assert_eq!(format_duration(3661), "01:01:01");
    assert_eq!(format_duration(59), "00:00:59");
    assert_eq!(format_duration(86399), "23:59:59");
    assert_eq!(format_duration(360000), "100:00:00");
}

#[test]
fn theme_labels() {
    assert_eq!(Themes::Latte.as_str(), "Latte (Light)");
    assert_eq!(Themes::DefaultDark.as_str(), "Default (Dark)");
    assert_eq!(Themes::ChamberRust.as_str(), "Chamber Rust");
    assert_eq!(Themes::default(), Themes::DefaultDark);
}

#[test]
fn settings_selection() {
    let mut s: Settings = AppSettings::default();
    assert!(s.current_preset().is_none());
    assert_eq!(s.current_preset_name(), "None");
    assert_eq!(s.current_game_name(), "None");
    assert!(s.current_game_mut().is_none());
    s.add_preset(Preset { name: "Fast".to_string(), apps: Vec::new() });
    s.add_game(game());
    assert_eq!(s.current_preset_name(), "Fast");
    assert_eq!(s.current_game_name(), "Half-Life 2");
    s.current_preset_mut().unwrap().name = "Final".to_string();
    assert_eq!(s.current_preset().unwrap().name, "Final");
    s.current_game_mut().unwrap().bin_dir = "/bin2".to_string();
    assert_eq!(s.current_game().unwrap().bin_dir, "/bin2");
    s.current_game_index = 4;
    assert!(s.current_game().is_none());
}

#[test]
fn map_list() {
    let mut app = VmFlowApp::default();
    app.add_map("/maps/a.vmf");
    app.add_map("/maps/b.txt");
    app.add_map("/maps/noext");
    app.add_map("/maps//a.vmf");
    app.add_map("/maps/c.vmf");
    assert_eq!(app.maps.len(), 2);
    assert_eq!(app.maps[0].name, "a.vmf");
    assert_eq!(app.maps[1].name, "c.vmf");
    assert_eq!(app.maps[1].order_idx, 1);
    assert!(app.maps[1].activated);
    app.remove_map(0);
    assert_eq!(app.maps.len(), 1);
    assert_eq!(app.maps[0].path, "/maps/c.vmf");
}

#[test]
fn start_and_cancel_compile() {
    let reg = registry();
    let mut app = VmFlowApp::default();
    assert!(app.start_compile(&reg, PlatformPolicy::Windows).is_none());
    assert!(app.cancel_compile().is_none());
    app.settings.add_preset(Preset { name: "P".to_string(), apps: vec![SelectedCompiler::from_idx(0)] });
    app.settings.add_game(game());
    app.add_map("/maps/a.vmf");
    let (mut run, e) = app.start_compile(&reg, PlatformPolicy::Windows).unwrap();
    assert!(matches!(e, CoreEvent::BatchStarted));
    assert_eq!(run.limit, 1);
    assert_eq!(run.maps.len(), 1);
    assert!(run.admit_next(false).is_some());
    assert!(matches!(app.cancel_compile(), Some(CoreEvent::CancellationRequested)));
    assert!(app.compile_session.as_ref().unwrap().cancel_requested);
    // a stage that names no registry entry cannot start
    app.settings.current_preset_mut().unwrap().apps.push(SelectedCompiler::from_idx(5));
    assert!(app.start_compile(&reg, PlatformPolicy::Windows).is_none());
}

#[test]
fn removing_the_selected_stage() {
    let mut settings = AppSettings::default();
    let mut window = PresetEditorWindow::default();
    assert!(!window.remove_selected_app(&mut settings));
    settings.add_preset(Preset {
        name: "P".to_string(),
        apps: vec![SelectedCompiler::from_idx(0), SelectedCompiler::from_idx(1), SelectedCompiler::from_idx(2)],
    });
    window.selected_app = 2;
    assert!(window.remove_selected_app(&mut settings));
    assert_eq!(window.selected_app, 1);
    assert_eq!(settings.compile_presets[0].apps.len(), 2);
    window.selected_app = 0;
    assert!(window.remove_selected_app(&mut settings));
    assert_eq!(window.selected_app, 0);
    assert_eq!(settings.compile_presets[0].apps[0].compiler_idx, 1);
    assert!(window.remove_selected_app(&mut settings));
    assert!(settings.compile_presets[0].apps.is_empty());
    assert_eq!(window.selected_app, 0);
    assert!(!window.remove_selected_app(&mut settings));
}

#[test]
fn new_game_configuration_has_a_slot_per_tool() {
    let g = GameConfiguration::new(&registry());
    assert_eq!(g.custom_apps_paths, vec![String::new()]);
    assert!(g.name.is_empty() && g.steam_app_id.is_none());
}
