use vstd::prelude::*;

use crate::config::{GameConfiguration, VmfMap};
use crate::session::CompilationSessionSettings;
use crate::text::{concat, str_eq};

verus! {

/// How the host runs the compiler tools.
#[derive(Clone, Copy, Debug, PartialEq, Eq, Structural)]
pub enum PlatformPolicy {
    /// The tools run natively.
    Windows,
    /// The tools are Windows binaries run under a compatibility layer that maps the host root
    /// to drive `Z:`.
    UnixLike,
    /// A host with no supported way to run the tools or to shut down.
    Unsupported,
}

/// What is put in front of a host path handed to a tool as an argument.
pub open spec fn path_prefix(policy: PlatformPolicy) -> Seq<char> {
    if policy == PlatformPolicy::UnixLike {
        "Z:"@
    } else {
        Seq::empty()
    }
}

/// The index into the per-compiler path table that a tool-path token names.
pub open spec fn tool_path_index(arg: Seq<char>) -> Option<int> {
    if arg == "$vbsp"@ {
        Some(0)
    } else if arg == "$vvis"@ {
        Some(1)
    } else if arg == "$vrad"@ {
        Some(2)
    } else if arg == "$bspZip"@ {
        Some(3)
    } else {
        None
    }
}

/// The resolution of one token; a token that is not a placeholder stays as it is.
pub open spec fn resolved_token(
    arg: Seq<char>,
    map_path: Seq<char>,
    game: GameConfiguration,
    policy: PlatformPolicy,
) -> Seq<char> {
    if arg == "$gameDir"@ {
        path_prefix(policy) + game.game_dir@
    } else if arg == "$mapFile"@ {
        path_prefix(policy) + map_path
    } else if arg == "$binFolder"@ {
        game.bin_dir@
    } else if arg == "$outputDir"@ {
        game.output_dir@
    } else {
        match tool_path_index(arg) {
            Some(i) => if i < game.custom_apps_paths@.len() {
                game.custom_apps_paths@[i]@
            } else {
                arg
            },
            None => arg,
        }
    }
}

fn prefixed(policy: PlatformPolicy, path: &str) -> (r: String)
    ensures
        r@ == path_prefix(policy) + path@,
{
    if policy == PlatformPolicy::UnixLike {
        concat("Z:", path)
    } else {
        let r = path.to_owned();
        assert(r@ =~= path_prefix(policy) + path@);
        r
    }
}

fn tool_path_slot(arg: &str) -> (r: Option<usize>)
    ensures
        match tool_path_index(arg@) {
            Some(i) => r == Some(i as usize),
            None => r is None,
        },
{
    if str_eq(arg, "$vbsp") {
        Some(0)
    } else if str_eq(arg, "$vvis") {
        Some(1)
    } else if str_eq(arg, "$vrad") {
        Some(2)
    } else if str_eq(arg, "$bspZip") {
        Some(3)
    } else {
        None
    }
}

/// The resolution of `arg` for `map` under `game` and `policy`.
pub fn resolve_token(arg: &str, map: &VmfMap, game: &GameConfiguration, policy: PlatformPolicy) -> (r:
    String)
    ensures
        r@ == resolved_token(arg@, map.path@, *game, policy),
{
    if str_eq(arg, "$gameDir") {
        prefixed(policy, game.game_dir.as_str())
    } else if str_eq(arg, "$mapFile") {
        prefixed(policy, map.path.as_str())
    } else if str_eq(arg, "$binFolder") {
        game.bin_dir.clone()
    } else if str_eq(arg, "$outputDir") {
        game.output_dir.clone()
    } else {
        match tool_path_slot(arg) {
            Some(i) => if i < game.custom_apps_paths.len() {
                game.custom_apps_paths[i].clone()
            } else {
                arg.to_owned()
            },
            None => arg.to_owned(),
        }
    }
}

/// Replaces a placeholder token in place by what it stands for; other tokens stay unchanged.
pub fn resolve_placeholders(
    arg: &mut String,
    map_info: &VmfMap,
    settings: &CompilationSessionSettings,
    policy: PlatformPolicy,
)
    ensures
        final(arg)@ == resolved_token(old(arg)@, map_info.path@, settings.game_config, policy),
{
    let r = resolve_token(arg.as_str(), map_info, &settings.game_config, policy);
    *arg = r;
}

} // verus!
