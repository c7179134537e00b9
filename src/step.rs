use vstd::prelude::*;

use crate::compilers::{CompilerConfig, CompilerRegistry};
use crate::config::{base_words, overrides_tokens, SelectedCompiler, VmfMap};
use crate::placeholders::{resolve_placeholders, resolved_token, PlatformPolicy};
use crate::session::CompilationSessionSettings;
use crate::text::{concat, ends_with, views_of};
use crate::types::BackendError;

verus! {

/// One external process to run: executable, arguments and working directory.
#[derive(Clone, Debug)]
pub struct Invocation {
    pub executable: String,
    pub arguments: Vec<String>,
    pub work_dir: String,
}

/// An invocation as character sequences.
pub struct InvocationView {
    pub executable: Seq<char>,
    pub arguments: Seq<Seq<char>>,
    pub work_dir: Seq<char>,
}

impl View for Invocation {
    type V = InvocationView;

    open spec fn view(&self) -> InvocationView {
        InvocationView {
            executable: self.executable@,
            arguments: views_of(self.arguments@),
            work_dir: self.work_dir@,
        }
    }
}

/// A copy of a vector of strings.
pub fn copy_strings(v: &Vec<String>) -> (r: Vec<String>)
    ensures
        r@ == v@,
{
    let mut out: Vec<String> = Vec::new();
    let n = v.len();
    let mut i: usize = 0;
    while i < n
        invariant
            n == v@.len(),
            i <= n,
            out@ == v@.take(i as int),
        decreases n - i,
    {
        out.push(v[i].clone());
        assert(out@ =~= v@.take(i + 1));
        i = i + 1;
    }
    assert(v@.take(n as int) =~= v@);
    out
}

impl Invocation {
    /// A copy of this invocation.
    pub fn duplicate(&self) -> (r: Invocation)
        ensures
            r@ == self@,
    {
        let arguments = copy_strings(&self.arguments);
        Invocation {
            executable: self.executable.clone(),
            arguments,
            work_dir: self.work_dir.clone(),
        }
    }
}

/// The work of one step: a built-in action by name, or an external process.
#[derive(Clone, Debug)]
pub enum StepWork {
    Builtin(String),
    Process(Invocation),
}

/// Step work as character sequences.
pub enum StepWorkView {
    Builtin(Seq<char>),
    Process(InvocationView),
}

impl View for StepWork {
    type V = StepWorkView;

    open spec fn view(&self) -> StepWorkView {
        match self {
            StepWork::Builtin(n) => StepWorkView::Builtin(n@),
            StepWork::Process(inv) => StepWorkView::Process(inv@),
        }
    }
}

impl StepWork {
    /// A copy of this work.
    pub fn duplicate(&self) -> (r: StepWork)
        ensures
            r@ == self@,
    {
        match self {
            StepWork::Builtin(n) => StepWork::Builtin(n.clone()),
            StepWork::Process(inv) => StepWork::Process(inv.duplicate()),
        }
    }
}

/// Whether every stage of the preset names a registry entry and a slot of the path table.
pub open spec fn settings_fit(settings: CompilationSessionSettings, reg: Seq<CompilerConfig>) -> bool {
    forall|k: int|
        0 <= k < settings.preset.apps@.len() ==> {
            let idx = #[trigger] settings.preset.apps@[k].compiler_idx;
            &&& idx < reg.len()
            &&& idx < settings.game_config.custom_apps_paths@.len()
        }
}

/// Whether every stage of the preset names a registry entry and a slot of the path table.
pub fn settings_fit_registry(settings: &CompilationSessionSettings, registry: &CompilerRegistry) -> (r:
    bool)
    ensures
        r == settings_fit(*settings, registry@),
{
    let n = settings.preset.apps.len();
    let mut i: usize = 0;
    while i < n
        invariant
            n == settings.preset.apps@.len(),
            i <= n,
            forall|k: int|
                0 <= k < i ==> {
                    let idx = #[trigger] settings.preset.apps@[k].compiler_idx;
                    &&& idx < registry@.len()
                    &&& idx < settings.game_config.custom_apps_paths@.len()
                },
        decreases n - i,
    {
        let idx = settings.preset.apps[i].compiler_idx;
        if idx >= registry.configs.len() || idx >= settings.game_config.custom_apps_paths.len() {
            return false;
        }
        i = i + 1;
    }
    true
}

/// The invocation of a non-built-in stage with a configured executable: placeholders resolved
/// in the working directory and in every argument token, and `.exe` files run through `wine`
/// under the compatibility-layer policy.
pub open spec fn invocation_spec(
    map: VmfMap,
    app: SelectedCompiler,
    settings: CompilationSessionSettings,
    reg: Seq<CompilerConfig>,
    policy: PlatformPolicy,
) -> InvocationView {
    let game = settings.game_config;
    let c = reg[app.compiler_idx as int];
    let exe = game.custom_apps_paths@[app.compiler_idx as int]@;
    let wd_template = match c.working_dir {
        Some(w) => w@,
        None => "$binFolder"@,
    };
    let wd = resolved_token(wd_template, map.path@, game, policy);
    let args = (overrides_tokens(app.parameters@, reg) + base_words(c.base_arguments)).map_values(
        |t: Seq<char>| resolved_token(t, map.path@, game, policy),
    );
    if policy == PlatformPolicy::UnixLike && ".exe"@.len() <= exe.len() && exe.subrange(
        exe.len() - ".exe"@.len(),
        exe.len() as int,
    ) == ".exe"@ {
        InvocationView { executable: "wine"@, arguments: seq![exe] + args, work_dir: wd }
    } else {
        InvocationView { executable: exe, arguments: args, work_dir: wd }
    }
}

/// What the step executor decides for an activated stage.
pub open spec fn planned(
    r: Result<StepWork, BackendError>,
    map: VmfMap,
    app: SelectedCompiler,
    settings: CompilationSessionSettings,
    reg: Seq<CompilerConfig>,
    policy: PlatformPolicy,
) -> bool {
    let c = reg[app.compiler_idx as int];
    if c.is_builtin {
        r matches Ok(StepWork::Builtin(n)) && n == c.name
    } else if settings.game_config.custom_apps_paths@[app.compiler_idx as int]@.len() == 0 {
        r matches Err(BackendError::CommandNotFound(m)) && m@ == "Path for "@ + c.name@
            + " not installed"@
    } else {
        r matches Ok(StepWork::Process(inv)) && inv@ == invocation_spec(
            map,
            app,
            settings,
            reg,
            policy,
        )
    }
}

/// Decides how one stage runs for one map: a built-in action, an external process with its
/// placeholders resolved, or `CommandNotFound` when no executable path is configured.
///
/// Under the compatibility-layer policy a `.exe` executable is run as the first argument of
/// `wine`.
pub fn plan_step(
    map_info: &VmfMap,
    app: &SelectedCompiler,
    settings: &CompilationSessionSettings,
    registry: &CompilerRegistry,
    policy: PlatformPolicy,
) -> (r: Result<StepWork, BackendError>)
    requires
        app.compiler_idx < registry@.len(),
        app.compiler_idx < settings.game_config.custom_apps_paths@.len(),
    ensures
        planned(r, *map_info, *app, *settings, registry@, policy),
{
    let config = &registry.configs[app.compiler_idx];
    if config.is_builtin {
        return Ok(StepWork::Builtin(config.name.clone()));
    }
    let path = &settings.game_config.custom_apps_paths[app.compiler_idx];
    if path.as_str().unicode_len() == 0 {
        let head = concat("Path for ", config.name.as_str());
        return Err(BackendError::CommandNotFound(concat(head.as_str(), " not installed")));
    }
    let mut work_dir = match &config.working_dir {
        Some(w) => w.clone(),
        None => "$binFolder".to_owned(),
    };
    resolve_placeholders(&mut work_dir, map_info, settings, policy);
    let raw = app.get_command_params(registry);
    let ghost game = settings.game_config;
    let ghost tokens = overrides_tokens(app.parameters@, registry@) + base_words(
        config.base_arguments,
    );
    let n = raw.len();
    let mut args: Vec<String> = Vec::new();
    let mut i: usize = 0;
    while i < n
        invariant
            n == raw@.len(),
            views_of(raw@) == tokens,
            i <= n,
            views_of(args@) == tokens.take(i as int).map_values(
                |t: Seq<char>| resolved_token(t, map_info.path@, game, policy),
            ),
            game == settings.game_config,
        decreases n - i,
    {
        let mut a = raw[i].clone();
        assert(a@ == tokens[i as int]);
        resolve_placeholders(&mut a, map_info, settings, policy);
        let ghost before = args@;
        args.push(a);
        assert(views_of(args@) =~= views_of(before).push(a@));
        assert(views_of(args@) =~= tokens.take(i + 1).map_values(
            |t: Seq<char>| resolved_token(t, map_info.path@, game, policy),
        ));
        i = i + 1;
    }
    assert(tokens.take(n as int) =~= tokens);
    let exe = path.clone();
    if policy == PlatformPolicy::UnixLike && ends_with(exe.as_str(), ".exe") {
        let ghost rest = args@;
        args.insert(0, exe);
        assert(views_of(args@) =~= seq![path@] + views_of(rest));
        Ok(StepWork::Process(Invocation { executable: "wine".to_owned(), arguments: args, work_dir }))
    } else {
        Ok(StepWork::Process(Invocation { executable: exe, arguments: args, work_dir }))
    }
}

} // verus!
