//! Engine lifecycle and bootstrap: the context features scripts need, the
//! build identifier handed to the engine, the bindings every global
//! environment receives, and the source text that is evaluated.

use vstd::prelude::*;
use crate::bridge::{BindingView, HostFunction, NativeRegistry};
use crate::error_info::{Diagnostic, DiagnosticView};
use crate::exception::{report_outcome, report_pending_exception, ExceptionSlot, HostFailure};

verus! {

/// Context-level features enabled once, before any script runs.
#[derive(PartialEq, Eq, Structural, Clone, Copy, Debug)]
pub struct ContextFeatures {
    /// Binary-module (WebAssembly) execution.
    pub wasm: bool,
    /// Its baseline compilation tier.
    pub wasm_baseline: bool,
    /// Its optimizing compilation tier.
    pub wasm_ion: bool,
}

/// The features that scripts of this host rely on: binary modules with both
/// compilation tiers.
pub fn required_features() -> (r: ContextFeatures)
    ensures
        r == (ContextFeatures { wasm: true, wasm_baseline: true, wasm_ion: true }),
{
    ContextFeatures { wasm: true, wasm_baseline: true, wasm_ion: true }
}

/// The build identifier the engine keys its caches with: `SP` and a NUL,
/// the same on every run.
pub fn build_id() -> (r: Vec<u8>)
    ensures
        r@ == seq![0x53u8, 0x50u8, 0u8],
{
    let mut id: Vec<u8> = Vec::new();
    id.push(0x53u8);
    id.push(0x50u8);
    id.push(0u8);
    id
}

/// The bindings every global environment receives, in order: `puts` and
/// `readWasm`.
pub open spec fn host_binding_views() -> Seq<BindingView> {
    seq![
        BindingView { name: "puts"@, arity: 0, function: HostFunction::Puts },
        BindingView { name: "readWasm"@, arity: 0, function: HostFunction::ReadWasm },
    ]
}

/// The table of host functions to install into a fresh global environment.
pub fn host_bindings() -> (r: NativeRegistry)
    ensures
        r.wf(),
        r@ == host_binding_views(),
{
    proof {
        reveal_strlit("puts");
        reveal_strlit("readWasm");
    }
    let mut reg = NativeRegistry::new();
    let _ = reg.register("puts", 0, HostFunction::Puts);
    assert("puts"@ != "readWasm"@) by {
        assert("puts"@.len() != "readWasm"@.len());
    }
    let _ = reg.register("readWasm", 0, HostFunction::ReadWasm);
    assert(reg@ =~= host_binding_views());
    reg
}

/// The preamble before the binding of the module's binary file name.
pub open spec fn preamble_head() -> Seq<char> {
    "\nvar Module = {'printErr': puts, 'print': puts};\nModule['wasmBinary'] = readWasm('"@
}

/// The preamble after the module's binary file name.
pub open spec fn preamble_tail() -> Seq<char> {
    "');\n"@
}

/// The text evaluated for a host script: a preamble that routes the module's
/// output hooks to `puts` and loads its binary from `wasm_file` with
/// `readWasm`, followed by the script itself.
pub open spec fn bootstrap_source(wasm_file: Seq<char>, script: Seq<char>) -> Seq<char> {
    preamble_head() + wasm_file + preamble_tail() + script
}

/// Composes the single source text that is evaluated for `script`. The file
/// name is placed between single quotes as it stands.
pub fn compose_script(wasm_file: &str, script: &str) -> (r: String)
    ensures
        r@ == bootstrap_source(wasm_file@, script@),
{
    let mut s = String::from_str(
        "\nvar Module = {'printErr': puts, 'print': puts};\nModule['wasmBinary'] = readWasm('",
    );
    s.append(wasm_file);
    s.append("');\n");
    s.append(script);
    s
}

/// How a run of the host script ends.
pub enum RunEnd {
    /// The script ran to completion, or failed without a pending exception
    /// (the engine reported that failure itself).
    Completed,
    /// The script failed with an uncaught exception, reported by this line.
    Reported(Diagnostic),
    /// The failure could not be described; the run aborts.
    Aborted(HostFailure),
}

/// The mathematical value of a `RunEnd`.
pub enum RunEndView {
    Completed,
    Reported(DiagnosticView),
    Aborted(HostFailure),
}

impl View for RunEnd {
    type V = RunEndView;

    open spec fn view(&self) -> RunEndView {
        match self {
            RunEnd::Completed => RunEndView::Completed,
            RunEnd::Reported(d) => RunEndView::Reported(d@),
            RunEnd::Aborted(f) => RunEndView::Aborted(*f),
        }
    }
}

/// How a run ends, given whether evaluation succeeded and what the
/// pending-exception slot held afterwards.
pub open spec fn run_end(evaluated: bool, s: ExceptionSlot) -> RunEndView {
    if evaluated {
        RunEndView::Completed
    } else {
        match report_outcome(s) {
            Ok(Some(d)) => RunEndView::Reported(d),
            Ok(None) => RunEndView::Completed,
            Err(f) => RunEndView::Aborted(f),
        }
    }
}

/// Decides how a run ends once the combined script has been evaluated. After
/// a failed evaluation the pending exception is translated before anything
/// else, and the slot is left clear.
pub fn finish_run(evaluated: bool, slot: &mut ExceptionSlot) -> (r: RunEnd)
    ensures
        r@ == run_end(evaluated, *old(slot)),
        !evaluated ==> final(slot).pending is None,
        evaluated ==> *final(slot) == *old(slot),
{
    if evaluated {
        return RunEnd::Completed;
    }
    match report_pending_exception(slot) {
        Ok(Some(d)) => RunEnd::Reported(d),
        Ok(None) => RunEnd::Completed,
        Err(f) => RunEnd::Aborted(f),
    }
}

} // verus!
