use vstd::prelude::*;

use crate::text::str_eq;

verus! {

/// The kind of value that a compiler parameter takes.
#[derive(Clone, Copy, Debug, PartialEq, Eq, Structural)]
pub enum ParameterType {
    /// A switch with no value of its own.
    Flag,
    Integer,
    Float,
    Path,
    String,
}

impl Default for ParameterType {
    fn default() -> (r: ParameterType)
        ensures
            r == ParameterType::Flag,
    {
        ParameterType::Flag
    }
}

/// One command-line parameter that a compiler tool understands.
#[derive(Clone, Debug)]
pub struct Parameter {
    pub name: String,
    /// The token written on the command line, such as `-fast`; may be empty.
    pub argument: String,
    pub value_type: ParameterType,
    pub default_value: Option<String>,
    pub description: String,
}

/// The descriptor of one compiler tool of the registry.
#[derive(Clone, Debug)]
pub struct CompilerConfig {
    pub name: String,
    /// Handled inside this program rather than by an external process.
    pub is_builtin: bool,
    pub description: String,
    pub parameters: Vec<Parameter>,
    /// Fixed arguments appended to every invocation, separated by white space.
    pub base_arguments: Option<String>,
    /// Working directory template; `$binFolder` when absent.
    pub working_dir: Option<String>,
    pub custom_path: Option<String>,
}

/// The catalog of compiler descriptors, built once and read only afterwards.
/// Indices into it are stable for its lifetime.
#[derive(Clone, Debug)]
pub struct CompilerRegistry {
    pub configs: Vec<CompilerConfig>,
}

impl View for CompilerRegistry {
    type V = Seq<CompilerConfig>;

    open spec fn view(&self) -> Seq<CompilerConfig> {
        self.configs@
    }
}

impl CompilerRegistry {
    /// A registry of `configs`, indexed in their order.
    pub fn new(configs: Vec<CompilerConfig>) -> (r: CompilerRegistry)
        ensures
            r@ == configs@,
    {
        CompilerRegistry { configs }
    }
}

/// The parameter descriptor at `param_idx` of the compiler at `compiler_idx`, if both exist.
pub open spec fn parameter_spec(reg: Seq<CompilerConfig>, compiler_idx: int, param_idx: int) -> Option<
    Parameter,
> {
    if 0 <= compiler_idx < reg.len() && 0 <= param_idx < reg[compiler_idx].parameters@.len() {
        Some(reg[compiler_idx].parameters@[param_idx])
    } else {
        None
    }
}

/// The first index whose compiler is named `name`, if any.
pub open spec fn first_named(reg: Seq<CompilerConfig>, name: Seq<char>) -> Option<int> {
    if exists|i: int| 0 <= i < reg.len() && #[trigger] reg[i].name@ == name {
        Some(
            choose|i: int|
                0 <= i < reg.len() && #[trigger] reg[i].name@ == name && forall|j: int|
                    0 <= j < i ==> #[trigger] reg[j].name@ != name,
        )
    } else {
        None
    }
}

/// Every descriptor of the registry, in registry order.
pub fn all_configs(registry: &CompilerRegistry) -> (r: &[CompilerConfig])
    ensures
        r@ == registry@,
{
    registry.configs.as_slice()
}

/// The compiler descriptor at index `idx`, if the registry has one there.
pub fn get_compiler(registry: &CompilerRegistry, idx: usize) -> (r: Option<&CompilerConfig>)
    ensures
        idx < registry@.len() ==> r == Some(&registry@[idx as int]),
        idx >= registry@.len() ==> r is None,
{
    if idx < registry.configs.len() {
        Some(&registry.configs[idx])
    } else {
        None
    }
}

/// The index of the first compiler named `name`.
pub fn find_compiler_idx(registry: &CompilerRegistry, name: &str) -> (r: Option<usize>)
    ensures
        match r {
            Some(i) => {
                &&& i < registry@.len()
                &&& registry@[i as int].name@ == name@
                &&& forall|j: int| 0 <= j < i ==> #[trigger] registry@[j].name@ != name@
            },
            None => forall|j: int| 0 <= j < registry@.len() ==> #[trigger] registry@[j].name@ != name@,
        },
        r matches Some(i) ==> first_named(registry@, name@) == Some(i as int),
        r is None ==> first_named(registry@, name@) is None,
{
    let n = registry.configs.len();
    let mut i: usize = 0;
    while i < n
        invariant
            n == registry@.len(),
            i <= n,
            forall|j: int| 0 <= j < i ==> #[trigger] registry@[j].name@ != name@,
        decreases n - i,
    {
        if str_eq(registry.configs[i].name.as_str(), name) {
            proof {
                let reg = registry@;
                let k = i as int;
                assert(reg[k].name@ == name@);
                let c = choose|c: int|
                    0 <= c < reg.len() && #[trigger] reg[c].name@ == name@ && forall|j: int|
                        0 <= j < c ==> #[trigger] reg[j].name@ != name@;
                assert(c == k) by {
                    if c < k {
                    } else if c > k {
                        assert(reg[k].name@ != name@);
                    }
                }
            }
            return Some(i);
        }
        i = i + 1;
    }
    None
}

/// The compiler descriptor of the first compiler named `name`.
pub fn get_compiler_by_name<'a>(registry: &'a CompilerRegistry, name: &str) -> (r: Option<
    &'a CompilerConfig,
>)
    ensures
        match first_named(registry@, name@) {
            Some(i) => r == Some(&registry@[i]),
            None => r is None,
        },
{
    match find_compiler_idx(registry, name) {
        Some(i) => Some(&registry.configs[i]),
        None => None,
    }
}

/// The parameter descriptor at `param_idx` of the compiler at `compiler_idx`.
pub fn get_parameter(registry: &CompilerRegistry, compiler_idx: usize, param_idx: usize) -> (r:
    Option<&Parameter>)
    ensures
        match parameter_spec(registry@, compiler_idx as int, param_idx as int) {
            Some(p) => r == Some(&p),
            None => r is None,
        },
{
    if compiler_idx < registry.configs.len() && param_idx
        < registry.configs[compiler_idx].parameters.len() {
        Some(&registry.configs[compiler_idx].parameters[param_idx])
    } else {
        None
    }
}

/// How many compiler descriptors the registry holds.
pub fn total_definitions(registry: &CompilerRegistry) -> (r: usize)
    ensures
        r == registry@.len(),
{
    registry.configs.len()
}

} // verus!
