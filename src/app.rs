use vstd::prelude::*;

use crate::compilers::CompilerRegistry;
use crate::config::VmfMap;
use crate::placeholders::PlatformPolicy;
use crate::session::{
    activated_count, activated_only, BatchRun, CompilationSession, CompilationSessionSettings,
};
use crate::pipeline::PipelinePhase;
use crate::settings::{same_compiler, same_game, same_preset, AppSettings};
use crate::step::{settings_fit, settings_fit_registry};
use crate::text::str_eq;
use crate::types::CoreEvent;

verus! {

/// The extension of a path's final component, as `Path::extension` gives it.
pub uninterp spec fn extension_of(p: Seq<char>) -> Option<Seq<char>>;

/// The final component of a path, as `Path::file_name` gives it.
pub uninterp spec fn file_name_of(p: Seq<char>) -> Option<Seq<char>>;

/// Whether two paths have the same components, as `Path`'s `==` decides.
pub uninterp spec fn paths_equal(a: Seq<char>, b: Seq<char>) -> bool;

/// Relies on `std::path::Path::extension`: the text after the last dot of the final component.
#[verifier::external_body]
fn path_extension(path: &str) -> (r: Option<String>)
    ensures
        match extension_of(path@) {
            Some(e) => r matches Some(s) && s@ == e,
            None => r is None,
        },
{
    match std::path::Path::new(path).extension() {
        Some(e) => match e.to_str() {
            Some(t) => Some(t.to_owned()),
            None => None,
        },
        None => None,
    }
}

/// Relies on `std::path::Path::file_name`: the final component, unless it is `..`.
#[verifier::external_body]
fn path_file_name(path: &str) -> (r: Option<String>)
    ensures
        match file_name_of(path@) {
            Some(n) => r matches Some(s) && s@ == n,
            None => r is None,
        },
{
    match std::path::Path::new(path).file_name() {
        Some(n) => Some(n.to_string_lossy().into_owned()),
        None => None,
    }
}

/// Relies on `PartialEq` for `std::path::Path`: paths compare by their components.
#[verifier::external_body]
fn same_path(a: &str, b: &str) -> (r: bool)
    ensures
        r == paths_equal(a@, b@),
{
    std::path::Path::new(a) == std::path::Path::new(b)
}

/// Whether a file at `path` joins the map list: a `.vmf` file with a file name, at a path that
/// no listed map has.
pub open spec fn accepts_map(maps: Seq<VmfMap>, path: Seq<char>) -> bool {
    &&& extension_of(path) == Some("vmf"@)
    &&& file_name_of(path) is Some
    &&& forall|k: int| 0 <= k < maps.len() ==> !paths_equal(#[trigger] maps[k].path@, path)
}

/// The state of the settings window.
#[derive(Clone, Debug)]
pub struct SettingsWindow {
    pub is_open: bool,
    pub is_game_editor_open: bool,
    pub additional_should_toggle: bool,
    pub additional_collapsing_is_open: bool,
    pub editor_selected_game: usize,
    pub editor_renaming: bool,
}

impl Default for SettingsWindow {
    fn default() -> (r: SettingsWindow)
        ensures
            !r.is_open,
            !r.is_game_editor_open,
            !r.additional_should_toggle,
            !r.additional_collapsing_is_open,
            r.editor_selected_game == 0,
            !r.editor_renaming,
    {
        SettingsWindow {
            is_open: false,
            is_game_editor_open: false,
            additional_should_toggle: false,
            additional_collapsing_is_open: false,
            editor_selected_game: 0,
            editor_renaming: false,
        }
    }
}

/// The state of the preset editor window.
#[derive(Clone, Debug)]
pub struct PresetEditorWindow {
    pub is_open: bool,
    /// The stage selected in the process list.
    pub selected_app: usize,
    pub is_create_new_open: bool,
    pub process_chooser_is_open: bool,
    pub process_selected_row: usize,
    pub parameter_chooser_is_open: bool,
    pub parameter_selected_row: usize,
}

impl Default for PresetEditorWindow {
    fn default() -> (r: PresetEditorWindow)
        ensures
            !r.is_open,
            r.selected_app == 0,
            !r.is_create_new_open,
            !r.process_chooser_is_open,
            r.process_selected_row == 0,
            !r.parameter_chooser_is_open,
            r.parameter_selected_row == 0,
    {
        PresetEditorWindow {
            is_open: false,
            selected_app: 0,
            is_create_new_open: false,
            process_chooser_is_open: false,
            process_selected_row: 0,
            parameter_chooser_is_open: false,
            parameter_selected_row: 0,
        }
    }
}

impl PresetEditorWindow {
    /// Removes the selected stage from the current preset and keeps the selection on a stage
    /// that exists. Does nothing, and returns false, when there is no current preset or the
    /// selection is past its end.
    pub fn remove_selected_app(&mut self, settings: &mut AppSettings) -> (r: bool)
        ensures
            ({
                let idx = old(settings).current_preset_index as int;
                let sel = old(self).selected_app as int;
                r == (idx < old(settings).compile_presets@.len() && sel
                    < old(settings).compile_presets@[idx].apps@.len())
            }),
            r ==> ({
                let idx = old(settings).current_preset_index as int;
                let sel = old(self).selected_app as int;
                let before = old(settings).compile_presets@[idx];
                let after = final(settings).compile_presets@[idx];
                let n = after.apps@.len();
                &&& final(settings).compile_presets@.len() == old(settings).compile_presets@.len()
                &&& forall|k: int|
                    0 <= k < old(settings).compile_presets@.len() && k != idx
                        ==> #[trigger] final(settings).compile_presets@[k]
                        == old(settings).compile_presets@[k]
                &&& after.name == before.name
                &&& after.apps@ == before.apps@.remove(sel)
                &&& final(self).selected_app == if sel >= n && n > 0 {
                    (n - 1) as usize
                } else {
                    sel as usize
                }
            }),
            !r ==> final(settings).compile_presets@ == old(settings).compile_presets@
                && final(self).selected_app == old(self).selected_app,
            final(settings).games@ == old(settings).games@,
            final(settings).current_preset_index == old(settings).current_preset_index,
            final(settings).current_game_index == old(settings).current_game_index,
            final(settings).theme == old(settings).theme,
    {
        let idx = settings.current_preset_index;
        if idx >= settings.compile_presets.len() {
            return false;
        }
        let sel = self.selected_app;
        if sel >= settings.compile_presets[idx].apps.len() {
            return false;
        }
        let ghost old_presets = settings.compile_presets@;
        settings.compile_presets[idx].apps.remove(sel);
        let n = settings.compile_presets[idx].apps.len();
        if sel >= n && n > 0 {
            self.selected_app = n - 1;
        }
        proof {
            assert forall|k: int|
                0 <= k < old_presets.len() && k != idx implies #[trigger] settings.compile_presets@[k]
                == old_presets[k] by {}
        }
        true
    }
}

/// The application: settings, the map list and the running session, if any.
pub struct VmFlowApp {
    pub settings: AppSettings,
    pub maps: Vec<VmfMap>,
    pub compile_session: Option<CompilationSession>,
    pub settings_window: SettingsWindow,
    pub presets_window: PresetEditorWindow,
}

impl Default for VmFlowApp {
    fn default() -> (r: VmFlowApp)
        ensures
            r.settings.compile_presets@.len() == 0,
            r.settings.games@.len() == 0,
            r.maps@.len() == 0,
            r.compile_session is None,
    {
        VmFlowApp {
            settings: AppSettings::default(),
            maps: Vec::new(),
            compile_session: None,
            settings_window: SettingsWindow::default(),
            presets_window: PresetEditorWindow::default(),
        }
    }
}

/// The settings that a compile started now would run with.
pub open spec fn current_session_settings(s: AppSettings) -> CompilationSessionSettings {
    CompilationSessionSettings {
        preset: s.compile_presets@[s.current_preset_index as int],
        game_config: s.games@[s.current_game_index as int],
    }
}

/// Whether a compile can start: a current preset and game exist and fit the registry.
pub open spec fn can_start(s: AppSettings, reg: Seq<crate::compilers::CompilerConfig>) -> bool {
    &&& s.current_preset_index < s.compile_presets@.len()
    &&& s.current_game_index < s.games@.len()
    &&& settings_fit(current_session_settings(s), reg)
}

/// Settings that agree field by field fit a registry alike.
proof fn lemma_fit_same(
    a: CompilationSessionSettings,
    b: CompilationSessionSettings,
    reg: Seq<crate::compilers::CompilerConfig>,
)
    requires
        same_preset(a.preset, b.preset),
        same_game(a.game_config, b.game_config),
    ensures
        settings_fit(a, reg) == settings_fit(b, reg),
{
    assert forall|k: int| 0 <= k < a.preset.apps@.len() implies (#[trigger] a.preset.apps@[k]).compiler_idx
        == b.preset.apps@[k].compiler_idx by {
        assert(same_compiler(a.preset.apps@[k], b.preset.apps@[k]));
    }
    if settings_fit(b, reg) {
        assert forall|k: int| 0 <= k < a.preset.apps@.len() implies ({
            let idx = #[trigger] a.preset.apps@[k].compiler_idx;
            &&& idx < reg.len()
            &&& idx < a.game_config.custom_apps_paths@.len()
        }) by {
            assert(b.preset.apps@[k].compiler_idx == a.preset.apps@[k].compiler_idx);
        }
    }
    if settings_fit(a, reg) {
        assert forall|k: int| 0 <= k < b.preset.apps@.len() implies ({
            let idx = #[trigger] b.preset.apps@[k].compiler_idx;
            &&& idx < reg.len()
            &&& idx < b.game_config.custom_apps_paths@.len()
        }) by {
            assert(b.preset.apps@[k].compiler_idx == a.preset.apps@[k].compiler_idx);
        }
    }
}

impl VmFlowApp {
    /// Starts compiling the listed maps with the current preset and game, one map at a time.
    /// Returns the new run and its `BatchStarted` event, or `None` when no compile can start.
    pub fn start_compile(&mut self, registry: &CompilerRegistry, policy: PlatformPolicy) -> (r:
        Option<(BatchRun, CoreEvent)>)
        ensures
            r is Some == can_start(old(self).settings, registry@),
            final(self).settings == old(self).settings,
            final(self).maps == old(self).maps,
            r is None ==> final(self).compile_session == old(self).compile_session,
            r matches Some((run, e)) ==> ({
                let cur = current_session_settings(old(self).settings);
                &&& (final(self).compile_session matches Some(s) && same_preset(
                    s.settings.preset,
                    cur.preset,
                ) && same_game(s.settings.game_config, cur.game_config) && s.max_threads == 1
                    && !s.cancel_requested)
                &&& run.wf()
                &&& run@.admitted == 0
                &&& run@.live == 0
                &&& run@.limit == 1
                &&& run@.maps.len() == activated_count(old(self).maps@)
                &&& forall|k: int|
                    0 <= k < run@.maps.len() ==> {
                        let p = #[trigger] run@.maps[k];
                        let m = activated_only(old(self).maps@)[k];
                        &&& p.phase == PipelinePhase::NotStarted
                        &&& p.map_id == m.order_idx
                        &&& p.map_name == m.name
                    }
                &&& e is BatchStarted
            }),
    {
        let preset = match self.settings.current_preset() {
            Some(p) => p.duplicate(),
            None => return None,
        };
        let game = match self.settings.current_game() {
            Some(g) => g.duplicate(),
            None => return None,
        };
        let session = CompilationSession::new(preset, game, 1);
        let ghost cur = current_session_settings(self.settings);
        proof {
            lemma_fit_same(session.settings, cur, registry@);
        }
        if !settings_fit_registry(&session.settings, registry) {
            return None;
        }
        let mut maps: Vec<VmfMap> = Vec::new();
        let n = self.maps.len();
        let mut i: usize = 0;
        while i < n
            invariant
                n == self.maps@.len(),
                i <= n,
                maps@ == self.maps@.take(i as int),
            decreases n - i,
        {
            maps.push(self.maps[i].duplicate());
            assert(maps@ =~= self.maps@.take(i + 1));
            i = i + 1;
        }
        assert(self.maps@.take(n as int) =~= self.maps@);
        let started = session.start_batch(maps, registry, policy);
        self.compile_session = Some(session);
        Some(started)
    }

    /// Requests cancellation of the running session, if there is one.
    pub fn cancel_compile(&mut self) -> (r: Option<CoreEvent>)
        ensures
            old(self).compile_session is None ==> r is None && final(self).compile_session is None,
            old(self).compile_session matches Some(s) ==> (r matches Some(e)
                && e is CancellationRequested),
            old(self).compile_session matches Some(s) ==> (final(self).compile_session matches Some(
                t,
            ) && t.cancel_requested && t.settings == s.settings && t.max_threads == s.max_threads),
            final(self).settings == old(self).settings,
            final(self).maps == old(self).maps,
    {
        match &mut self.compile_session {
            Some(session) => Some(session.cancel_batch()),
            None => None,
        }
    }

    /// Adds the file at `path` as an activated map at the end of the list when it is a `.vmf`
    /// file not listed yet; the map is named after the file.
    pub fn add_map(&mut self, path: &str)
        ensures
            accepts_map(old(self).maps@, path@) ==> ({
                let m = final(self).maps@.last();
                &&& final(self).maps@.len() == old(self).maps@.len() + 1
                &&& final(self).maps@.drop_last() == old(self).maps@
                &&& Some(m.name@) == file_name_of(path@)
                &&& m.path@ == path@
                &&& m.activated
                &&& m.order_idx == old(self).maps@.len()
            }),
            !accepts_map(old(self).maps@, path@) ==> final(self).maps@ == old(self).maps@,
            final(self).settings == old(self).settings,
            final(self).compile_session == old(self).compile_session,
    {
        let ext = match path_extension(path) {
            Some(e) => e,
            None => return ,
        };
        let n = self.maps.len();
        let mut i: usize = 0;
        while i < n
            invariant
                n == self.maps@.len(),
                i <= n,
                forall|k: int| 0 <= k < i ==> !paths_equal(#[trigger] self.maps@[k].path@, path@),
            decreases n - i,
        {
            if same_path(self.maps[i].path.as_str(), path) {
                return ;
            }
            i = i + 1;
        }
        if !str_eq(ext.as_str(), "vmf") {
            return ;
        }
        let name = match path_file_name(path) {
            Some(f) => f,
            None => return ,
        };
        let map = VmfMap { name, path: path.to_owned(), activated: true, order_idx: n };
        self.maps.push(map);
        assert(self.maps@.drop_last() =~= old(self).maps@);
    }

    /// Removes the map at `index`.
    pub fn remove_map(&mut self, index: usize)
        requires
            index < old(self).maps@.len(),
        ensures
            final(self).maps@ == old(self).maps@.remove(index as int),
            final(self).settings == old(self).settings,
            final(self).compile_session == old(self).compile_session,
    {
        self.maps.remove(index);
    }
}

} // verus!
