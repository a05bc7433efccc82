//! The root resolver: the absolute directory (or, for the index document,
//! the file) that an asset class's files live under, for a runtime mode.

use vstd::prelude::*;
use crate::config::RuntimeMode;
use crate::routes::AssetClass;
use crate::strutil::{spec_join, join_path};

verus! {

/// The fixed sub-path of each asset class under its resolved base.
pub open spec fn class_sub_path(class: AssetClass) -> Seq<char> {
    match class {
        AssetClass::Image => "static/open/img"@,
        AssetClass::Stylesheet => "static/open/css"@,
        AssetClass::Script => "static/open/scripts"@,
        AssetClass::Font => "static/fonts"@,
        AssetClass::Index => "static/open/index.html"@,
    }
}

/// The sub-path of one asset class.
pub fn sub_path(class: AssetClass) -> (r: &'static str)
    ensures
        r@ == class_sub_path(class),
{
    match class {
        AssetClass::Image => "static/open/img",
        AssetClass::Stylesheet => "static/open/css",
        AssetClass::Script => "static/open/scripts",
        AssetClass::Font => "static/fonts",
        AssetClass::Index => "static/open/index.html",
    }
}

/// The resolved root for a class and mode. In Development the base is the
/// working directory's `resources` tree, so assets can be edited live; in
/// Production it is the directory holding the executable, next to which
/// the assets were copied at packaging time.
pub open spec fn spec_resolve(
    class: AssetClass,
    mode: RuntimeMode,
    cwd: Seq<char>,
    exe_dir: Seq<char>,
) -> Seq<char> {
    match mode {
        RuntimeMode::Development => spec_join(spec_join(cwd, "resources"@), class_sub_path(class)),
        RuntimeMode::Production => spec_join(exe_dir, class_sub_path(class)),
    }
}

/// Resolves the root for one class and mode from the two base directories
/// captured once at startup. Pure string construction; no I/O.
pub fn resolve(class: AssetClass, mode: RuntimeMode, cwd: &str, exe_dir: &str) -> (r: String)
    ensures
        r@ == spec_resolve(class, mode, cwd@, exe_dir@),
{
    match mode {
        RuntimeMode::Development => {
            let base = join_path(cwd, "resources");
            join_path(base.as_str(), sub_path(class))
        },
        RuntimeMode::Production => join_path(exe_dir, sub_path(class)),
    }
}

/// Every resolved root is non-empty and mode-consistent: a Development
/// root extends the working directory, a Production root extends the
/// executable's directory.
pub proof fn lemma_resolve_mode_consistent(
    class: AssetClass,
    mode: RuntimeMode,
    cwd: Seq<char>,
    exe_dir: Seq<char>,
)
    ensures
        spec_resolve(class, mode, cwd, exe_dir).len() > 0,
        mode == RuntimeMode::Development ==> cwd.is_prefix_of(
            spec_resolve(class, mode, cwd, exe_dir),
        ),
        mode == RuntimeMode::Production ==> exe_dir.is_prefix_of(
            spec_resolve(class, mode, cwd, exe_dir),
        ),
{
    reveal_strlit("/");
    let r = spec_resolve(class, mode, cwd, exe_dir);
    match mode {
        RuntimeMode::Development => {
            assert(cwd =~= r.subrange(0, cwd.len() as int));
        },
        RuntimeMode::Production => {
            assert(exe_dir =~= r.subrange(0, exe_dir.len() as int));
        },
    }
}

/// Root resolution is a function of the class and mode alone (for fixed
/// base directories): two resolutions of the same pair give the identical
/// root string.
pub proof fn lemma_resolve_idempotent(
    class: AssetClass,
    mode: RuntimeMode,
    cwd: Seq<char>,
    exe_dir: Seq<char>,
    first: Seq<char>,
    second: Seq<char>,
)
    requires
        first == spec_resolve(class, mode, cwd, exe_dir),
        second == spec_resolve(class, mode, cwd, exe_dir),
    ensures
        first == second,
{
}

} // verus!
