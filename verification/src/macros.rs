//! Resolving a macro name to the script file that should run.
//!
//! The runtime probes the macro directory and reports what exists; the
//! resolution order over those findings is decided here: a TypeScript
//! file wins over a JavaScript file, and both win over a directory with
//! an index script (TypeScript index first).

use vstd::prelude::*;

verus! {

/// What the runtime found when probing the macro directory for one name.
#[derive(Clone, Copy, Debug, PartialEq, Eq, Structural)]
pub struct MacroDirProbe {
    /// `<name>.ts` is a file.
    pub ts_file: bool,
    /// `<name>.js` is a file.
    pub js_file: bool,
    /// `<name>/` is a directory.
    pub dir_exists: bool,
    /// `<name>/index.ts` exists.
    pub index_ts: bool,
    /// `<name>/index.js` exists.
    pub index_js: bool,
}

/// Which script file a macro name resolves to.
#[derive(Clone, Copy, Debug, PartialEq, Eq, Structural)]
pub enum MacroInvocation {
    TsFile,
    JsFile,
    FolderIndexTs,
    FolderIndexJs,
}

/// The resolution a probe leads to, in precedence order.
pub open spec fn resolve_spec(p: MacroDirProbe) -> Option<MacroInvocation> {
    if p.ts_file {
        Some(MacroInvocation::TsFile)
    } else if p.js_file {
        Some(MacroInvocation::JsFile)
    } else if p.dir_exists && p.index_ts {
        Some(MacroInvocation::FolderIndexTs)
    } else if p.dir_exists && p.index_js {
        Some(MacroInvocation::FolderIndexJs)
    } else {
        None
    }
}

/// Pick the script a macro name runs: the standalone TypeScript file, then
/// the standalone JavaScript file, then the directory's index scripts.
/// `None` when nothing suitable exists.
pub fn resolve_macro_invocation(probe: &MacroDirProbe) -> (r: Option<MacroInvocation>)
    ensures
        r == resolve_spec(*probe),
{
    if probe.ts_file {
        Some(MacroInvocation::TsFile)
    } else if probe.js_file {
        Some(MacroInvocation::JsFile)
    } else if probe.dir_exists && probe.index_ts {
        Some(MacroInvocation::FolderIndexTs)
    } else if probe.dir_exists && probe.index_js {
        Some(MacroInvocation::FolderIndexJs)
    } else {
        None
    }
}

} // verus!
