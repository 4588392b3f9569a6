//! The native-function bridge: the host functions that scripts can call, the
//! table of bindings installed into a global environment, and what each
//! binding computes from the values the engine hands it.

use vstd::prelude::*;
use vstd::utf8::{decode_utf8, valid_utf8};
use crate::exception::{HostFailure, IoFailure};
use crate::text::decode_strict;

verus! {

/// A host-implemented function that scripts can call.
#[derive(PartialEq, Eq, Structural, Clone, Copy, Debug)]
pub enum HostFunction {
    /// Writes the string form of its argument as one line of output.
    Puts,
    /// Returns the contents of the named file as a binary buffer.
    ReadWasm,
}

/// A host function installed under a name, with the arity the engine reports
/// for it.
pub struct NativeBinding {
    pub name: String,
    pub arity: u32,
    pub function: HostFunction,
}

/// The mathematical value of a `NativeBinding`.
pub struct BindingView {
    pub name: Seq<char>,
    pub arity: u32,
    pub function: HostFunction,
}

impl View for NativeBinding {
    type V = BindingView;

    open spec fn view(&self) -> BindingView {
        BindingView { name: self.name@, arity: self.arity, function: self.function }
    }
}

/// Why a binding could not be installed.
#[derive(PartialEq, Eq, Structural, Clone, Copy, Debug)]
pub enum ConfigError {
    /// A binding of that name is already installed in the environment.
    DuplicateName,
}

/// The bindings installed into one global environment, in the order they
/// were registered. No two share a name.
pub struct NativeRegistry {
    bindings: Vec<NativeBinding>,
}

/// Whether some binding in `s` is named `name`.
pub open spec fn has_name(s: Seq<BindingView>, name: Seq<char>) -> bool {
    exists|i: int| 0 <= i < s.len() && s[i].name == name
}

/// No two bindings in `s` share a name.
pub open spec fn names_unique(s: Seq<BindingView>) -> bool {
    forall|i: int, j: int| 0 <= i < s.len() && 0 <= j < s.len() && i != j ==> s[i].name != s[j].name
}

/// Registering `b` into bindings `s`: refused, with `s` unchanged, when its
/// name is taken; else `b` is added after the others.
pub open spec fn register_outcome(s: Seq<BindingView>, b: BindingView) -> (
    Result<(), ConfigError>,
    Seq<BindingView>,
) {
    if has_name(s, b.name) {
        (Err(ConfigError::DuplicateName), s)
    } else {
        (Ok(()), s.push(b))
    }
}

/// Registering two bindings under one name: the second is refused with a
/// configuration error and leaves the environment as the first left it, so
/// the first binding stays in place.
pub proof fn lemma_duplicate_registration_refused(
    s: Seq<BindingView>,
    first: BindingView,
    second: BindingView,
)
    requires
        first.name == second.name,
    ensures
        ({
            let (r1, s1) = register_outcome(s, first);
            let (r2, s2) = register_outcome(s1, second);
            &&& r2 == Err::<(), ConfigError>(ConfigError::DuplicateName)
            &&& s2 == s1
            &&& r1 is Ok ==> s2.last() == first
        }),
{
    let (r1, s1) = register_outcome(s, first);
    if !has_name(s, first.name) {
        assert(s1[s.len() as int].name == second.name);
    }
}

impl View for NativeRegistry {
    type V = Seq<BindingView>;

    closed spec fn view(&self) -> Seq<BindingView> {
        self.bindings@.map_values(|b: NativeBinding| b@)
    }
}

impl NativeRegistry {
    /// No two installed bindings share a name.
    pub open spec fn wf(&self) -> bool {
        names_unique(self@)
    }

    /// An environment with nothing installed.
    pub fn new() -> (r: NativeRegistry)
        ensures
            r.wf(),
            r@ == Seq::<BindingView>::empty(),
    {
        let r = NativeRegistry { bindings: Vec::new() };
        assert(r@ =~= Seq::<BindingView>::empty());
        r
    }

    /// The number of installed bindings.
    pub fn len(&self) -> (r: usize)
        ensures
            r == self@.len(),
    {
        self.bindings.len()
    }

    /// The binding registered `i`-th.
    pub fn get(&self, i: usize) -> (r: &NativeBinding)
        requires
            i < self@.len(),
        ensures
            r@ == self@[i as int],
    {
        &self.bindings[i]
    }

    /// Whether a binding named `name` is installed.
    pub fn contains(&self, name: &str) -> (r: bool)
        ensures
            r == has_name(self@, name@),
    {
        let n = String::from_str(name);
        let mut i: usize = 0;
        while i < self.bindings.len()
            invariant
                i <= self.bindings@.len(),
                n@ == name@,
                forall|j: int| 0 <= j < i ==> self@[j].name != name@,
            decreases self.bindings@.len() - i,
        {
            if self.bindings[i].name == n {
                assert(self@[i as int].name == name@);
                return true;
            }
            i = i + 1;
        }
        false
    }

    /// Installs `function` under `name`. A name already installed is refused,
    /// and the environment is left as it was.
    pub fn register(&mut self, name: &str, arity: u32, function: HostFunction) -> (r: Result<
        (),
        ConfigError,
    >)
        requires
            old(self).wf(),
        ensures
            final(self).wf(),
            (r, final(self)@) == register_outcome(
                old(self)@,
                BindingView { name: name@, arity, function },
            ),
    {
        if self.contains(name) {
            return Err(ConfigError::DuplicateName);
        }
        let binding = NativeBinding { name: String::from_str(name), arity, function };
        self.bindings.push(binding);
        proof {
            let old_view = old(self)@;
            let b = BindingView { name: name@, arity, function };
            assert(self@ =~= old_view.push(b));
            assert forall|i: int, j: int|
                0 <= i < self@.len() && 0 <= j < self@.len() && i != j implies self@[i].name
                != self@[j].name by {
                if i == old_view.len() as int {
                    assert(old_view[j].name != name@);
                } else if j == old_view.len() as int {
                    assert(old_view[i].name != name@);
                }
            }
        }
        Ok(())
    }
}

/// The text an engine string stands for; text that is not valid UTF-8 breaks
/// an engine invariant and is fatal.
pub open spec fn engine_text(encoded: Seq<u8>) -> Result<Seq<char>, HostFailure> {
    if valid_utf8(encoded) {
        Ok(decode_utf8(encoded))
    } else {
        Err(HostFailure::Encoding)
    }
}

/// The view of a text result.
pub open spec fn string_result_view(r: Result<String, HostFailure>) -> Result<Seq<char>, HostFailure> {
    match r {
        Ok(s) => Ok(s@),
        Err(e) => Err(e),
    }
}

/// Host text for a string the engine encoded as UTF-8.
pub fn host_text(encoded: &[u8]) -> (r: Result<String, HostFailure>)
    ensures
        string_result_view(r) == engine_text(encoded@),
{
    match decode_strict(encoded) {
        Some(s) => Ok(s),
        None => Err(HostFailure::Encoding),
    }
}

/// What `puts` writes for an argument whose string form the engine encoded
/// as `encoded`: that text and one newline.
pub open spec fn puts_output(encoded: Seq<u8>) -> Result<Seq<char>, HostFailure> {
    match engine_text(encoded) {
        Ok(t) => Ok(t.push('\n')),
        Err(e) => Err(e),
    }
}

/// The line that `puts` writes for an argument whose string form the engine
/// encoded as `encoded`.
pub fn puts_line(encoded: &[u8]) -> (r: Result<String, HostFailure>)
    ensures
        string_result_view(r) == puts_output(encoded@),
{
    let mut line = host_text(encoded)?;
    line.append("\n");
    proof {
        reveal_strlit("\n");
    }
    assert(line@ =~= decode_utf8(encoded@).push('\n'));
    Ok(line)
}

/// The file that `readWasm` reads, named by its first argument's string form.
pub fn wasm_filename(encoded: &[u8]) -> (r: Result<String, HostFailure>)
    ensures
        string_result_view(r) == engine_text(encoded@),
{
    host_text(encoded)
}

/// What `readWasm` hands the script for the outcome of reading its file: the
/// bytes exactly as read, or the I/O failure that aborts the run.
pub fn wasm_buffer(loaded: Result<Vec<u8>, IoFailure>) -> (r: Result<Vec<u8>, HostFailure>)
    ensures
        match loaded {
            Ok(bytes) => r matches Ok(buf) && buf@ == bytes@,
            Err(e) => r == Err::<Vec<u8>, HostFailure>(HostFailure::Io(e)),
        },
{
    match loaded {
        Ok(bytes) => Ok(bytes),
        Err(e) => Err(HostFailure::Io(e)),
    }
}

} // verus!

verus! {

/// `puts` on a value whose string form holds no newline writes exactly one
/// line: that string form, then a newline, and nothing after it.
pub proof fn lemma_puts_writes_one_line(encoded: Seq<u8>)
    requires
        valid_utf8(encoded),
        !decode_utf8(encoded).contains('\n'),
    ensures
        puts_output(encoded) matches Ok(out) && {
            &&& out.len() == decode_utf8(encoded).len() + 1
            &&& out.take(out.len() - 1) == decode_utf8(encoded)
            &&& out.last() == '\n'
            &&& forall|i: int| 0 <= i < out.len() - 1 ==> out[i] != '\n'
        },
{
    let t = decode_utf8(encoded);
    let out = t.push('\n');
    assert(out.take(out.len() - 1) =~= t);
    assert forall|i: int| 0 <= i < out.len() - 1 implies out[i] != '\n' by {
        assert(out[i] == t[i]);
        if t[i] == '\n' {
            assert(t.contains('\n'));
        }
    }
}

} // verus!
