use vstd::prelude::*;

use crate::config::{GameConfiguration, ParameterOverride, Preset, SelectedCompiler};

verus! {

/// The colour themes the interface offers.
#[derive(Clone, Copy, Debug, PartialEq, Eq, Structural)]
pub enum Themes {
    Latte,
    Frappe,
    Macchiato,
    Mocha,
    BluePortal,
    OrangePortal,
    ChamberRust,
    DefaultDark,
    DefaultLight,
}

impl Default for Themes {
    fn default() -> (r: Themes)
        ensures
            r == Themes::DefaultDark,
    {
        Themes::DefaultDark
    }
}

/// The display name of each theme.
pub open spec fn theme_label(t: Themes) -> Seq<char> {
    match t {
        Themes::Latte => "Latte (Light)"@,
        Themes::Frappe => "Frappe"@,
        Themes::Macchiato => "Macchiato"@,
        Themes::Mocha => "Mocha"@,
        Themes::DefaultDark => "Default (Dark)"@,
        Themes::DefaultLight => "Default (Light)"@,
        Themes::BluePortal => "Blue Portal"@,
        Themes::OrangePortal => "Orange Portal"@,
        Themes::ChamberRust => "Chamber Rust"@,
    }
}

impl Themes {
    /// The name shown for this theme.
    pub fn as_str(self) -> (r: &'static str)
        ensures
            r@ == theme_label(self),
    {
        match self {
            Themes::Latte => "Latte (Light)",
            Themes::Frappe => "Frappe",
            Themes::Macchiato => "Macchiato",
            Themes::Mocha => "Mocha",
            Themes::DefaultDark => "Default (Dark)",
            Themes::DefaultLight => "Default (Light)",
            Themes::BluePortal => "Blue Portal",
            Themes::OrangePortal => "Orange Portal",
            Themes::ChamberRust => "Chamber Rust",
        }
    }
}

/// Whether two stages agree field by field.
pub open spec fn same_compiler(a: SelectedCompiler, b: SelectedCompiler) -> bool {
    &&& a.compiler_idx == b.compiler_idx
    &&& a.activated == b.activated
    &&& a.parameters@ == b.parameters@
}

/// Whether two presets agree field by field.
pub open spec fn same_preset(a: Preset, b: Preset) -> bool {
    &&& a.name == b.name
    &&& a.apps@.len() == b.apps@.len()
    &&& forall|k: int| 0 <= k < a.apps@.len() ==> same_compiler(#[trigger] a.apps@[k], b.apps@[k])
}

/// Whether two game configurations agree field by field.
pub open spec fn same_game(a: GameConfiguration, b: GameConfiguration) -> bool {
    &&& a.name == b.name
    &&& a.game_dir == b.game_dir
    &&& a.bin_dir == b.bin_dir
    &&& a.output_dir == b.output_dir
    &&& a.steam_app_id == b.steam_app_id
    &&& a.custom_apps_paths@ == b.custom_apps_paths@
}

impl SelectedCompiler {
    /// A copy of this stage.
    pub fn duplicate(&self) -> (r: SelectedCompiler)
        ensures
            same_compiler(r, *self),
    {
        let mut parameters: Vec<ParameterOverride> = Vec::new();
        let n = self.parameters.len();
        let mut i: usize = 0;
        while i < n
            invariant
                n == self.parameters@.len(),
                i <= n,
                parameters@ == self.parameters@.take(i as int),
            decreases n - i,
        {
            parameters.push(self.parameters[i].duplicate());
            assert(parameters@ =~= self.parameters@.take(i + 1));
            i = i + 1;
        }
        assert(self.parameters@.take(n as int) =~= self.parameters@);
        SelectedCompiler { compiler_idx: self.compiler_idx, activated: self.activated, parameters }
    }
}

impl Preset {
    /// A copy of this preset.
    pub fn duplicate(&self) -> (r: Preset)
        ensures
            same_preset(r, *self),
    {
        let mut apps: Vec<SelectedCompiler> = Vec::new();
        let n = self.apps.len();
        let mut i: usize = 0;
        while i < n
            invariant
                n == self.apps@.len(),
                i <= n,
                apps@.len() == i,
                forall|k: int| 0 <= k < i ==> same_compiler(#[trigger] apps@[k], self.apps@[k]),
            decreases n - i,
        {
            apps.push(self.apps[i].duplicate());
            i = i + 1;
        }
        Preset { name: self.name.clone(), apps }
    }
}

impl GameConfiguration {
    /// A copy of this configuration.
    pub fn duplicate(&self) -> (r: GameConfiguration)
        ensures
            same_game(r, *self),
    {
        GameConfiguration {
            name: self.name.clone(),
            game_dir: self.game_dir.clone(),
            bin_dir: self.bin_dir.clone(),
            output_dir: self.output_dir.clone(),
            steam_app_id: self.steam_app_id,
            custom_apps_paths: crate::step::copy_strings(&self.custom_apps_paths),
        }
    }
}

/// The user's presets and game configurations, with the current choice of each.
#[derive(Clone, Debug)]
pub struct AppSettings {
    pub compile_presets: Vec<Preset>,
    pub games: Vec<GameConfiguration>,
    pub current_preset_index: usize,
    pub current_game_index: usize,
    pub theme: Themes,
}

/// Another name for the application settings.
pub type Settings = AppSettings;

impl Default for AppSettings {
    fn default() -> (r: AppSettings)
        ensures
            r.compile_presets@.len() == 0,
            r.games@.len() == 0,
            r.current_preset_index == 0,
            r.current_game_index == 0,
            r.theme == Themes::DefaultDark,
    {
        AppSettings {
            compile_presets: Vec::new(),
            games: Vec::new(),
            current_preset_index: 0,
            current_game_index: 0,
            theme: Themes::DefaultDark,
        }
    }
}

impl AppSettings {
    /// Appends a preset.
    pub fn add_preset(&mut self, preset: Preset)
        ensures
            final(self).compile_presets@ == old(self).compile_presets@.push(preset),
            final(self).games@ == old(self).games@,
            final(self).current_preset_index == old(self).current_preset_index,
            final(self).current_game_index == old(self).current_game_index,
            final(self).theme == old(self).theme,
    {
        self.compile_presets.push(preset);
    }

    /// Appends a game configuration.
    pub fn add_game(&mut self, config: GameConfiguration)
        ensures
            final(self).games@ == old(self).games@.push(config),
            final(self).compile_presets@ == old(self).compile_presets@,
            final(self).current_preset_index == old(self).current_preset_index,
            final(self).current_game_index == old(self).current_game_index,
            final(self).theme == old(self).theme,
    {
        self.games.push(config);
    }

    /// The preset at the current index, if there is one.
    pub fn current_preset(&self) -> (r: Option<&Preset>)
        ensures
            self.current_preset_index < self.compile_presets@.len() ==> r == Some(
                &self.compile_presets@[self.current_preset_index as int],
            ),
            self.current_preset_index >= self.compile_presets@.len() ==> r is None,
    {
        if self.current_preset_index < self.compile_presets.len() {
            Some(&self.compile_presets[self.current_preset_index])
        } else {
            None
        }
    }

    /// The current preset's name, or `None`.
    pub fn current_preset_name(&self) -> (r: &str)
        ensures
            self.current_preset_index < self.compile_presets@.len() ==> r@
                == self.compile_presets@[self.current_preset_index as int].name@,
            self.current_preset_index >= self.compile_presets@.len() ==> r@ == "None"@,
    {
        match self.current_preset() {
            Some(p) => p.name.as_str(),
            None => "None",
        }
    }

    /// The preset at the current index, for changing it.
    pub fn current_preset_mut(&mut self) -> (r: Option<&mut Preset>)
        ensures
            old(self).current_preset_index < old(self).compile_presets@.len() ==> (r matches Some(
                p,
            ) && *p == old(self).compile_presets@[old(self).current_preset_index as int]
                && final(self).compile_presets@ == old(self).compile_presets@.update(
                old(self).current_preset_index as int,
                *final(p),
            )),
            old(self).current_preset_index >= old(self).compile_presets@.len() ==> (r is None
                && final(self).compile_presets@ == old(self).compile_presets@),
            final(self).games@ == old(self).games@,
            final(self).current_preset_index == old(self).current_preset_index,
            final(self).current_game_index == old(self).current_game_index,
            final(self).theme == old(self).theme,
    {
        if self.current_preset_index < self.compile_presets.len() {
            Some(&mut self.compile_presets[self.current_preset_index])
        } else {
            None
        }
    }

    /// The game configuration at the current index, if there is one.
    pub fn current_game(&self) -> (r: Option<&GameConfiguration>)
        ensures
            self.current_game_index < self.games@.len() ==> r == Some(
                &self.games@[self.current_game_index as int],
            ),
            self.current_game_index >= self.games@.len() ==> r is None,
    {
        if self.current_game_index < self.games.len() {
            Some(&self.games[self.current_game_index])
        } else {
            None
        }
    }

    /// The current game configuration's name, or `None`.
    pub fn current_game_name(&self) -> (r: &str)
        ensures
            self.current_game_index < self.games@.len() ==> r@
                == self.games@[self.current_game_index as int].name@,
            self.current_game_index >= self.games@.len() ==> r@ == "None"@,
    {
        match self.current_game() {
            Some(g) => g.name.as_str(),
            None => "None",
        }
    }

    /// The game configuration at the current index, for changing it.
    pub fn current_game_mut(&mut self) -> (r: Option<&mut GameConfiguration>)
        ensures
            old(self).current_game_index < old(self).games@.len() ==> (r matches Some(g) && *g
                == old(self).games@[old(self).current_game_index as int] && final(self).games@
                == old(self).games@.update(old(self).current_game_index as int, *final(g))),
            old(self).current_game_index >= old(self).games@.len() ==> (r is None
                && final(self).games@ == old(self).games@),
            final(self).compile_presets@ == old(self).compile_presets@,
            final(self).current_preset_index == old(self).current_preset_index,
            final(self).current_game_index == old(self).current_game_index,
            final(self).theme == old(self).theme,
    {
        if self.current_game_index < self.games.len() {
            Some(&mut self.games[self.current_game_index])
        } else {
            None
        }
    }
}

} // verus!
