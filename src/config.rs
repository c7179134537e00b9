use vstd::prelude::*;

use crate::compilers::{
    find_compiler_idx, first_named, get_compiler, get_parameter, parameter_spec, CompilerConfig,
    CompilerRegistry, Parameter, ParameterType,
};
use crate::text::{concat, split_words, views_of, words_of};

verus! {

/// One input file of a batch.
#[derive(Clone, Debug)]
pub struct VmfMap {
    pub name: String,
    pub path: String,
    pub activated: bool,
    pub order_idx: usize,
}

impl VmfMap {
    /// A copy of this entry.
    pub fn duplicate(&self) -> (r: VmfMap)
        ensures
            r == *self,
    {
        VmfMap {
            name: self.name.clone(),
            path: self.path.clone(),
            activated: self.activated,
            order_idx: self.order_idx,
        }
    }
}

/// Per-game settings: directories and the executable path of each compiler, by registry index.
#[derive(Clone, Debug)]
pub struct GameConfiguration {
    pub name: String,
    pub game_dir: String,
    pub bin_dir: String,
    pub output_dir: String,
    pub steam_app_id: Option<u32>,
    pub custom_apps_paths: Vec<String>,
}

impl GameConfiguration {
    /// An unnamed configuration with empty directories and one empty path per registry entry.
    pub fn new(registry: &CompilerRegistry) -> (r: GameConfiguration)
        ensures
            r.name@.len() == 0,
            r.game_dir@.len() == 0,
            r.bin_dir@.len() == 0,
            r.output_dir@.len() == 0,
            r.steam_app_id is None,
            r.custom_apps_paths@.len() == registry@.len(),
            forall|i: int|
                0 <= i < r.custom_apps_paths@.len() ==> #[trigger] r.custom_apps_paths@[i]@.len()
                    == 0,
    {
        let n = registry.configs.len();
        let mut paths: Vec<String> = Vec::new();
        let mut i: usize = 0;
        while i < n
            invariant
                i <= n,
                paths@.len() == i,
                forall|k: int| 0 <= k < paths@.len() ==> #[trigger] paths@[k]@.len() == 0,
            decreases n - i,
        {
            paths.push(String::new());
            i = i + 1;
        }
        GameConfiguration {
            name: String::new(),
            game_dir: String::new(),
            bin_dir: String::new(),
            output_dir: String::new(),
            steam_app_id: None,
            custom_apps_paths: paths,
        }
    }
}

/// The tokens that a valued parameter with argument token `arg` and value `value` contributes.
pub open spec fn valued_tokens(arg: Seq<char>, value: Seq<char>) -> Seq<Seq<char>> {
    if arg.len() == 0 && value.len() == 0 {
        Seq::empty()
    } else if arg.len() == 0 {
        seq![value]
    } else if value.len() > 0 {
        seq![arg, value]
    } else {
        seq![arg]
    }
}

/// The value an override stands for: its own, else the descriptor's default, else empty.
pub open spec fn effective_value(value: Option<String>, p: Parameter) -> Seq<char> {
    match value {
        Some(v) => v@,
        None => match p.default_value {
            Some(d) => d@,
            None => Seq::empty(),
        },
    }
}

/// The command-line tokens of one parameter override.
pub open spec fn command_parts_spec(ov: ParameterOverride, reg: Seq<CompilerConfig>) -> Seq<
    Seq<char>,
> {
    if !ov.activated {
        Seq::empty()
    } else {
        match parameter_spec(reg, ov.compiler_idx as int, ov.parameter_idx as int) {
            None => Seq::empty(),
            Some(p) => if p.value_type == ParameterType::Flag {
                seq![p.argument@]
            } else {
                valued_tokens(p.argument@, effective_value(ov.value, p))
            },
        }
    }
}

/// The tokens of a sequence of overrides, in order.
pub open spec fn overrides_tokens(ps: Seq<ParameterOverride>, reg: Seq<CompilerConfig>) -> Seq<
    Seq<char>,
>
    decreases ps.len(),
{
    if ps.len() == 0 {
        Seq::empty()
    } else {
        overrides_tokens(ps.drop_last(), reg) + command_parts_spec(ps.last(), reg)
    }
}

/// The words of an optional base-argument string.
pub open spec fn base_words(base: Option<String>) -> Seq<Seq<char>> {
    match base {
        Some(b) => words_of(b@),
        None => Seq::empty(),
    }
}

/// The single text argument of one override in the space-joined form, if it has one.
pub open spec fn command_arg_spec(ov: ParameterOverride, reg: Seq<CompilerConfig>) -> Option<
    Seq<char>,
> {
    if !ov.activated {
        None
    } else {
        match parameter_spec(reg, ov.compiler_idx as int, ov.parameter_idx as int) {
            None => None,
            Some(p) => if p.value_type == ParameterType::Flag {
                if p.argument@.len() > 0 {
                    Some(p.argument@)
                } else {
                    None
                }
            } else {
                match ov.value {
                    Some(v) => Some(p.argument@ + seq![' '] + v@),
                    None => match p.default_value {
                        Some(d) => Some(p.argument@ + seq![' '] + d@),
                        None => None,
                    },
                }
            },
        }
    }
}

/// The text that `parameters_string` appends for a sequence of overrides.
pub open spec fn overrides_text(ps: Seq<ParameterOverride>, reg: Seq<CompilerConfig>) -> Seq<char>
    decreases ps.len(),
{
    if ps.len() == 0 {
        Seq::empty()
    } else {
        overrides_text(ps.drop_last(), reg) + match command_arg_spec(ps.last(), reg) {
            Some(a) => seq![' '] + a,
            None => Seq::empty(),
        }
    }
}

/// A user override of one parameter of one compiler, by registry indices.
#[derive(Clone, Debug)]
pub struct ParameterOverride {
    pub compiler_idx: usize,
    pub parameter_idx: usize,
    pub value: Option<String>,
    pub activated: bool,
}

impl ParameterOverride {
    /// An activated override with no value of its own.
    pub fn new(compiler_idx: usize, parameter_idx: usize) -> (r: ParameterOverride)
        ensures
            r.compiler_idx == compiler_idx,
            r.parameter_idx == parameter_idx,
            r.value is None,
            r.activated,
    {
        ParameterOverride { compiler_idx, parameter_idx, value: None, activated: true }
    }

    /// A copy of this override.
    pub fn duplicate(&self) -> (r: ParameterOverride)
        ensures
            r == *self,
    {
        ParameterOverride {
            compiler_idx: self.compiler_idx,
            parameter_idx: self.parameter_idx,
            value: match &self.value {
                Some(v) => Some(v.clone()),
                None => None,
            },
            activated: self.activated,
        }
    }

    /// The parameter descriptor this override refers to.
    pub fn parameter<'a>(&self, registry: &'a CompilerRegistry) -> (r: Option<&'a Parameter>)
        ensures
            match parameter_spec(registry@, self.compiler_idx as int, self.parameter_idx as int) {
                Some(p) => r == Some(&p),
                None => r is None,
            },
    {
        get_parameter(registry, self.compiler_idx, self.parameter_idx)
    }

    /// The parameter's name, or `unknown`.
    pub fn name<'a>(&self, registry: &'a CompilerRegistry) -> (r: &'a str)
        ensures
            match parameter_spec(registry@, self.compiler_idx as int, self.parameter_idx as int) {
                Some(p) => r@ == p.name@,
                None => r@ == "unknown"@,
            },
    {
        match self.parameter(registry) {
            Some(p) => p.name.as_str(),
            None => "unknown",
        }
    }

    /// The parameter's argument token, or the empty string.
    pub fn argument<'a>(&self, registry: &'a CompilerRegistry) -> (r: &'a str)
        ensures
            match parameter_spec(registry@, self.compiler_idx as int, self.parameter_idx as int) {
                Some(p) => r@ == p.argument@,
                None => r@ == ""@,
            },
    {
        match self.parameter(registry) {
            Some(p) => p.argument.as_str(),
            None => "",
        }
    }

    /// The parameter's value kind, `Flag` when the descriptor is missing.
    pub fn value_type(&self, registry: &CompilerRegistry) -> (r: ParameterType)
        ensures
            match parameter_spec(registry@, self.compiler_idx as int, self.parameter_idx as int) {
                Some(p) => r == p.value_type,
                None => r == ParameterType::Flag,
            },
    {
        match self.parameter(registry) {
            Some(p) => p.value_type,
            None => ParameterType::Flag,
        }
    }

    /// The parameter's description, or the empty string.
    pub fn description<'a>(&self, registry: &'a CompilerRegistry) -> (r: &'a str)
        ensures
            match parameter_spec(registry@, self.compiler_idx as int, self.parameter_idx as int) {
                Some(p) => r@ == p.description@,
                None => r@ == ""@,
            },
    {
        match self.parameter(registry) {
            Some(p) => p.description.as_str(),
            None => "",
        }
    }

    /// The descriptor's default value, if it has one.
    pub fn default_value<'a>(&self, registry: &'a CompilerRegistry) -> (r: Option<&'a str>)
        ensures
            match parameter_spec(registry@, self.compiler_idx as int, self.parameter_idx as int) {
                Some(p) => match p.default_value {
                    Some(d) => r matches Some(s) && s@ == d@,
                    None => r is None,
                },
                None => r is None,
            },
    {
        match self.parameter(registry) {
            Some(p) => match &p.default_value {
                Some(d) => Some(d.as_str()),
                None => None,
            },
            None => None,
        }
    }

    /// The override as one space-joined argument text, if it contributes one.
    pub fn to_command_arg(&self, registry: &CompilerRegistry) -> (r: Option<String>)
        ensures
            match command_arg_spec(*self, registry@) {
                Some(a) => r matches Some(s) && s@ == a,
                None => r is None,
            },
    {
        if !self.activated {
            return None;
        }
        match self.parameter(registry) {
            None => None,
            Some(param) => {
                if param.value_type == ParameterType::Flag {
                    if param.argument.as_str().unicode_len() > 0 {
                        Some(param.argument.clone())
                    } else {
                        None
                    }
                } else {
                    let value = match &self.value {
                        Some(v) => Some(v),
                        None => match &param.default_value {
                            Some(d) => Some(d),
                            None => None,
                        },
                    };
                    match value {
                        Some(v) => {
                            let head = concat(param.argument.as_str(), " ");
                            proof {
                                reveal_strlit(" ");
                            }
                            Some(concat(head.as_str(), v.as_str()))
                        },
                        None => None,
                    }
                }
            },
        }
    }

    /// The command-line tokens of this override, or `None` when it contributes none.
    ///
    /// An override that is not activated contributes nothing. A flag contributes exactly its
    /// argument token. A valued parameter contributes `[argument, value]`, `[value]` when the
    /// argument token is empty, `[argument]` when the value is empty, and nothing when both are.
    pub fn get_command_parts(&self, registry: &CompilerRegistry) -> (r: Option<Vec<String>>)
        ensures
            !self.activated ==> r is None,
            self.activated ==> match parameter_spec(
                registry@,
                self.compiler_idx as int,
                self.parameter_idx as int,
            ) {
                None => r is None,
                Some(p) => {
                    let v = effective_value(self.value, p);
                    if p.value_type == ParameterType::Flag {
                        (r matches Some(t) && views_of(t@) == seq![p.argument@])
                    } else if p.argument@.len() == 0 && v.len() == 0 {
                        r is None
                    } else if p.argument@.len() == 0 {
                        (r matches Some(t) && views_of(t@) == seq![v])
                    } else if v.len() > 0 {
                        (r matches Some(t) && views_of(t@) == seq![p.argument@, v])
                    } else {
                        (r matches Some(t) && views_of(t@) == seq![p.argument@])
                    }
                },
            },
            command_parts_spec(*self, registry@).len() == 0 ==> r is None,
            command_parts_spec(*self, registry@).len() > 0 ==> (r matches Some(v) && views_of(v@)
                == command_parts_spec(*self, registry@)),
    {
        if !self.activated {
            return None;
        }
        match self.parameter(registry) {
            None => None,
            Some(param) => {
                let mut parts: Vec<String> = Vec::new();
                if param.value_type == ParameterType::Flag {
                    parts.push(param.argument.clone());
                } else {
                    let value_str = match &self.value {
                        Some(v) => v.clone(),
                        None => match &param.default_value {
                            Some(d) => d.clone(),
                            None => String::new(),
                        },
                    };
                    let arg_empty = param.argument.as_str().unicode_len() == 0;
                    let value_empty = value_str.as_str().unicode_len() == 0;
                    if arg_empty && value_empty {
                    } else if arg_empty {
                        parts.push(value_str);
                    } else if !value_empty {
                        parts.push(param.argument.clone());
                        parts.push(value_str);
                    } else {
                        parts.push(param.argument.clone());
                    }
                }
                assert(views_of(parts@) =~= command_parts_spec(*self, registry@));
                if parts.len() == 0 {
                    None
                } else {
                    Some(parts)
                }
            },
        }
    }
}

/// One stage of a preset: a compiler by registry index, with its parameter overrides.
#[derive(Clone, Debug)]
pub struct SelectedCompiler {
    pub compiler_idx: usize,
    pub activated: bool,
    pub parameters: Vec<ParameterOverride>,
}

impl SelectedCompiler {
    /// An activated stage for the first compiler named `name`, or for index 0 when none is.
    pub fn new(registry: &CompilerRegistry, name: &str) -> (r: SelectedCompiler)
        ensures
            r.compiler_idx as int == match first_named(registry@, name@) {
                Some(i) => i,
                None => 0,
            },
            r.activated,
            r.parameters@.len() == 0,
    {
        let compiler_idx = match find_compiler_idx(registry, name) {
            Some(i) => i,
            None => 0,
        };
        SelectedCompiler { compiler_idx, activated: true, parameters: Vec::new() }
    }

    /// An activated stage for the compiler at `idx`.
    pub fn from_idx(idx: usize) -> (r: SelectedCompiler)
        ensures
            r.compiler_idx == idx,
            r.activated,
            r.parameters@.len() == 0,
    {
        SelectedCompiler { compiler_idx: idx, activated: true, parameters: Vec::new() }
    }

    /// The descriptor of this stage's compiler.
    pub fn config<'a>(&self, registry: &'a CompilerRegistry) -> (r: &'a CompilerConfig)
        requires
            self.compiler_idx < registry@.len(),
        ensures
            *r == registry@[self.compiler_idx as int],
    {
        &registry.configs[self.compiler_idx]
    }

    /// The compiler's name, or `unknown`.
    pub fn name<'a>(&self, registry: &'a CompilerRegistry) -> (r: &'a str)
        ensures
            self.compiler_idx < registry@.len() ==> r@ == registry@[self.compiler_idx as int].name@,
            self.compiler_idx >= registry@.len() ==> r@ == "unknown"@,
    {
        match get_compiler(registry, self.compiler_idx) {
            Some(c) => c.name.as_str(),
            None => "unknown",
        }
    }

    /// Adds an activated override for parameter `parameter_idx` and returns its position.
    ///
    /// A flag starts with no value; any other kind starts with the descriptor's default value,
    /// or with the empty string.
    pub fn add_parameter(&mut self, registry: &CompilerRegistry, parameter_idx: usize) -> (r: usize)
        requires
            parameter_spec(registry@, old(self).compiler_idx as int, parameter_idx as int) is Some,
            old(self).parameters@.len() < usize::MAX,
        ensures
            r == old(self).parameters@.len(),
            final(self).compiler_idx == old(self).compiler_idx,
            final(self).activated == old(self).activated,
            final(self).parameters@.len() == old(self).parameters@.len() + 1,
            final(self).parameters@.take(r as int) == old(self).parameters@,
            ({
                let p = parameter_spec(registry@, old(self).compiler_idx as int, parameter_idx as int)->0;
                let ov = final(self).parameters@[r as int];
                &&& ov.compiler_idx == old(self).compiler_idx
                &&& ov.parameter_idx == parameter_idx
                &&& ov.activated
                &&& p.value_type == ParameterType::Flag ==> ov.value is None
                &&& p.value_type != ParameterType::Flag ==> (ov.value matches Some(v) && v@ == match p.default_value {
                    Some(d) => d@,
                    None => Seq::empty(),
                })
            }),
    {
        let parm = get_parameter(registry, self.compiler_idx, parameter_idx).unwrap();
        let value = if parm.value_type == ParameterType::Flag {
            None
        } else {
            match &parm.default_value {
                Some(d) => Some(d.clone()),
                None => Some(String::new()),
            }
        };
        let at = self.parameters.len();
        self.parameters.push(
            ParameterOverride {
                compiler_idx: self.compiler_idx,
                parameter_idx,
                value,
                activated: true,
            },
        );
        assert(self.parameters@.take(at as int) =~= old(self).parameters@);
        at
    }

    /// The argument tokens of this stage: those of each override in order, then the words of the
    /// compiler's base arguments.
    pub fn get_command_params(&self, registry: &CompilerRegistry) -> (r: Vec<String>)
        requires
            self.compiler_idx < registry@.len(),
        ensures
            views_of(r@) == overrides_tokens(self.parameters@, registry@) + base_words(
                registry@[self.compiler_idx as int].base_arguments,
            ),
    {
        let mut out: Vec<String> = Vec::new();
        let n = self.parameters.len();
        let mut i: usize = 0;
        while i < n
            invariant
                n == self.parameters@.len(),
                i <= n,
                views_of(out@) == overrides_tokens(self.parameters@.take(i as int), registry@),
            decreases n - i,
        {
            let ghost before = out@;
            proof {
                assert(self.parameters@.take(i + 1).drop_last() =~= self.parameters@.take(i as int));
            }
            match self.parameters[i].get_command_parts(registry) {
                Some(parts) => {
                    let m = parts.len();
                    let mut k: usize = 0;
                    while k < m
                        invariant
                            m == parts@.len(),
                            k <= m,
                            views_of(out@) == views_of(before) + views_of(parts@.take(k as int)),
                        decreases m - k,
                    {
                        let ghost prev = out@;
                        out.push(parts[k].clone());
                        assert(views_of(out@) =~= views_of(prev).push(parts@[k as int]@));
                        assert(views_of(parts@.take(k + 1)) =~= views_of(parts@.take(k as int)).push(
                            parts@[k as int]@,
                        ));
                        assert(views_of(out@) =~= views_of(before) + views_of(
                            parts@.take(k + 1),
                        ));
                        k = k + 1;
                    }
                    assert(parts@.take(m as int) =~= parts@);
                },
                None => {
                    assert(views_of(out@) =~= views_of(before) + Seq::empty());
                },
            }
            i = i + 1;
        }
        assert(self.parameters@.take(n as int) =~= self.parameters@);
        let ghost front = out@;
        let config = &registry.configs[self.compiler_idx];
        match &config.base_arguments {
            Some(base) => {
                let words = split_words(base.as_str());
                let m = words.len();
                let mut k: usize = 0;
                while k < m
                    invariant
                        m == words@.len(),
                        k <= m,
                        views_of(out@) == views_of(front) + views_of(words@.take(k as int)),
                    decreases m - k,
                {
                    let ghost prev = out@;
                    out.push(words[k].clone());
                    assert(views_of(out@) =~= views_of(prev).push(words@[k as int]@));
                    assert(views_of(words@.take(k + 1)) =~= views_of(words@.take(k as int)).push(
                        words@[k as int]@,
                    ));
                    assert(views_of(out@) =~= views_of(front) + views_of(words@.take(k + 1)));
                    k = k + 1;
                }
                assert(words@.take(m as int) =~= words@);
            },
            None => {
                assert(views_of(out@) =~= views_of(front) + Seq::empty());
            },
        }
        out
    }

    /// Appends ` <argument text>` to `buf` for each override that has an argument text.
    pub fn parameters_string(&self, registry: &CompilerRegistry, buf: &mut String)
        ensures
            final(buf)@ == old(buf)@ + overrides_text(self.parameters@, registry@),
    {
        let n = self.parameters.len();
        let mut i: usize = 0;
        while i < n
            invariant
                n == self.parameters@.len(),
                i <= n,
                buf@ == old(buf)@ + overrides_text(self.parameters@.take(i as int), registry@),
            decreases n - i,
        {
            proof {
                assert(self.parameters@.take(i + 1).drop_last() =~= self.parameters@.take(i as int));
            }
            match self.parameters[i].to_command_arg(registry) {
                Some(arg) => {
                    buf.append(" ");
                    buf.append(arg.as_str());
                    proof {
                        reveal_strlit(" ");
                    }
                },
                None => {},
            }
            assert(buf@ =~= old(buf)@ + overrides_text(self.parameters@.take(i + 1), registry@));
            i = i + 1;
        }
        assert(self.parameters@.take(n as int) =~= self.parameters@);
    }
}

/// A named, ordered list of compiler stages, applied to every map of a batch.
#[derive(Clone, Debug)]
pub struct Preset {
    pub name: String,
    pub apps: Vec<SelectedCompiler>,
}

impl Preset {
    /// Appends a stage for the first compiler named `name` (index 0 when none is).
    pub fn add_app(&mut self, registry: &CompilerRegistry, name: &str)
        ensures
            final(self).name == old(self).name,
            final(self).apps@.len() == old(self).apps@.len() + 1,
            final(self).apps@.drop_last() == old(self).apps@,
            final(self).apps@.last().compiler_idx as int == match first_named(registry@, name@) {
                Some(i) => i,
                None => 0,
            },
            final(self).apps@.last().activated,
            final(self).apps@.last().parameters@.len() == 0,
    {
        let app = SelectedCompiler::new(registry, name);
        self.apps.push(app);
        assert(self.apps@.drop_last() =~= old(self).apps@);
    }

    /// Appends a stage for the compiler at `idx`.
    pub fn add_app_from_idx(&mut self, idx: usize)
        ensures
            final(self).name == old(self).name,
            final(self).apps@.len() == old(self).apps@.len() + 1,
            final(self).apps@.drop_last() == old(self).apps@,
            final(self).apps@.last().compiler_idx == idx,
            final(self).apps@.last().activated,
            final(self).apps@.last().parameters@.len() == 0,
    {
        self.apps.push(SelectedCompiler::from_idx(idx));
        assert(self.apps@.drop_last() =~= old(self).apps@);
    }
}

} // verus!
