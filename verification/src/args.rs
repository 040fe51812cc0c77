//! Process arguments: role detection and marshalling toward the engine.
//!
//! The engine's multi-process model re-executes the host binary with a role
//! marker argument (one containing `--type`); a process whose arguments carry
//! that marker is a helper subprocess and must hand control to the engine's
//! subprocess executor before anything else. Arguments crossing the
//! foreign-function boundary travel as null-terminated strings, so an argument
//! with an embedded null byte cannot be represented and marshalling fails.
//!
//! Arguments are handled here as byte strings; the unverified shell around the
//! library snapshots the process argument list and hands the bytes in.

use vstd::prelude::*;

verus! {

/// The needle stands at position `i` of the haystack.
pub open spec fn matches_at(hay: Seq<u8>, needle: Seq<u8>, i: int) -> bool {
    0 <= i && i + needle.len() <= hay.len() && hay.subrange(i, i + needle.len()) == needle
}

/// The needle stands somewhere in the haystack.
pub open spec fn contains_bytes(hay: Seq<u8>, needle: Seq<u8>) -> bool {
    exists|i: int| matches_at(hay, needle, i)
}

/// The role marker the engine gives its helper processes: the bytes of
/// `--type`.
pub open spec fn subprocess_marker() -> Seq<u8> {
    seq![45u8, 45u8, 116u8, 121u8, 112u8, 101u8]
}

/// Some argument carries the helper-role marker.
pub open spec fn subprocess_args(args: Seq<Vec<u8>>) -> bool {
    exists|i: int| 0 <= i < args.len() && contains_bytes(args[i]@, subprocess_marker())
}

/// The byte string holds an embedded null, which a null-terminated copy
/// cannot represent.
pub open spec fn has_nul(s: Seq<u8>) -> bool {
    exists|i: int| 0 <= i < s.len() && s[i] == 0u8
}

/// Whether the needle stands at position `i` of the haystack.
fn match_at(hay: &Vec<u8>, needle: &Vec<u8>, i: usize) -> (r: bool)
    requires
        i + needle.len() <= hay.len(),
    ensures
        r == matches_at(hay@, needle@, i as int),
{
    let n = needle.len();
    let mut k: usize = 0;
    while k < n
        invariant
            i + n <= hay.len(),
            n == needle.len(),
            k <= n,
            forall|t: int| 0 <= t < k ==> hay@[i + t] == needle@[t],
        decreases n - k,
    {
        if hay[i + k] != needle[k] {
            proof {
                assert(!matches_at(hay@, needle@, i as int)) by {
                    if matches_at(hay@, needle@, i as int) {
                        assert(hay@.subrange(i as int, i + needle@.len())[k as int]
                            == needle@[k as int]);
                    }
                }
            }
            return false;
        }
        k += 1;
    }
    proof {
        assert(hay@.subrange(i as int, i + needle@.len()) =~= needle@);
    }
    true
}

/// Whether the needle stands somewhere in the haystack.
pub fn bytes_contain(hay: &Vec<u8>, needle: &Vec<u8>) -> (r: bool)
    ensures
        r == contains_bytes(hay@, needle@),
{
    let n = needle.len();
    let h = hay.len();
    if n == 0 {
        proof {
            assert(matches_at(hay@, needle@, 0)) by {
                assert(hay@.subrange(0, 0) =~= needle@);
            }
        }
        return true;
    }
    if n > h {
        proof {
            assert forall|j: int| !matches_at(hay@, needle@, j) by {}
        }
        return false;
    }
    let mut i: usize = 0;
    while i <= h - n
        invariant
            1 <= n <= h,
            h == hay.len(),
            n == needle.len(),
            i <= h - n + 1,
            forall|j: int| 0 <= j < i ==> !matches_at(hay@, needle@, j),
        decreases h - n + 1 - i,
    {
        if match_at(hay, needle, i) {
            return true;
        }
        i += 1;
    }
    proof {
        assert forall|j: int| !matches_at(hay@, needle@, j) by {}
    }
    false
}

/// The helper-role marker as an owned byte string.
fn subprocess_marker_bytes() -> (m: Vec<u8>)
    ensures
        m@ == subprocess_marker(),
{
    let mut m: Vec<u8> = Vec::new();
    m.push(45u8);
    m.push(45u8);
    m.push(116u8);
    m.push(121u8);
    m.push(112u8);
    m.push(101u8);
    proof {
        assert(m@ =~= subprocess_marker());
    }
    m
}

/// Whether the process these arguments belong to was launched by the engine as
/// a helper subprocess.
///
/// The check follows the engine's convention: a process given an argument
/// carrying the `--type` role selector is a helper, unless the host itself
/// uses such an argument.
pub fn is_subprocess(args: &Vec<Vec<u8>>) -> (r: bool)
    ensures
        r == subprocess_args(args@),
{
    let marker = subprocess_marker_bytes();
    let mut i: usize = 0;
    while i < args.len()
        invariant
            marker@ == subprocess_marker(),
            i <= args.len(),
            forall|j: int| 0 <= j < i ==> !contains_bytes(args@[j]@, subprocess_marker()),
        decreases args.len() - i,
    {
        if bytes_contain(&args[i], &marker) {
            return true;
        }
        i += 1;
    }
    false
}

/// The first action of a host process.
#[derive(Debug, Clone, Copy, PartialEq, Eq, Structural)]
pub enum EntryAction {
    /// Hand control to the engine's subprocess executor, which does not
    /// return on success.
    ExecuteSubprocess,
    /// Proceed as the browser (main) process.
    RunHost,
}

/// The prescribed first action for a process with these arguments.
pub open spec fn entry_action_spec(args: Seq<Vec<u8>>) -> EntryAction {
    if subprocess_args(args) {
        EntryAction::ExecuteSubprocess
    } else {
        EntryAction::RunHost
    }
}

/// Decide the first action of a host process from its argument list.
pub fn entry_action(args: &Vec<Vec<u8>>) -> (r: EntryAction)
    ensures
        r == entry_action_spec(args@),
{
    if is_subprocess(args) {
        EntryAction::ExecuteSubprocess
    } else {
        EntryAction::RunHost
    }
}

/// A process recognized as an engine helper hands control to the subprocess
/// executor as its first action, so in a host that follows the prescription
/// no runtime or surface construction is ever reached in such a process.
pub proof fn lemma_subprocess_short_circuit(args: Seq<Vec<u8>>)
    requires
        subprocess_args(args),
    ensures
        entry_action_spec(args) == EntryAction::ExecuteSubprocess,
{
}

/// A failure to marshal arguments for the foreign-function boundary.
#[derive(Debug, Clone, Copy, PartialEq, Eq, Structural)]
pub enum MarshalError {
    /// An argument holds an embedded null byte, which the engine's
    /// null-terminated argument model cannot represent.
    EmbeddedNul,
}

/// Whether the byte string holds an embedded null.
fn has_embedded_nul(arg: &Vec<u8>) -> (r: bool)
    ensures
        r == has_nul(arg@),
{
    let mut i: usize = 0;
    while i < arg.len()
        invariant
            i <= arg.len(),
            forall|j: int| 0 <= j < i ==> arg@[j] != 0u8,
        decreases arg.len() - i,
    {
        if arg[i] == 0u8 {
            return true;
        }
        i += 1;
    }
    false
}

/// A snapshot of the process argument list, checked once to be representable
/// as the engine's null-terminated `argc`/`argv` shape and owned for the
/// duration of the calls that read it.
pub struct ArgSnapshot {
    args: Vec<Vec<u8>>,
}

impl ArgSnapshot {
    /// The arguments held by the snapshot.
    pub closed spec fn args(&self) -> Seq<Vec<u8>> {
        self.args@
    }

    /// Every held argument is representable as a null-terminated string.
    pub open spec fn wf(&self) -> bool {
        forall|i: int| 0 <= i < self.args().len() ==> !has_nul(#[trigger] self.args()[i]@)
    }

    /// Snapshot an argument list.
    ///
    /// Fails, and is to be treated as a fatal startup error, exactly when some
    /// argument holds an embedded null byte.
    pub fn new(args: Vec<Vec<u8>>) -> (r: Result<Self, MarshalError>)
        ensures
            r is Ok <==> (forall|i: int| 0 <= i < args@.len() ==> !has_nul(#[trigger] args@[i]@)),
            r matches Ok(s) ==> s.args() == args@ && s.wf(),
            r is Err ==> r == Result::<Self, MarshalError>::Err(MarshalError::EmbeddedNul),
    {
        let mut i: usize = 0;
        while i < args.len()
            invariant
                i <= args.len(),
                forall|j: int| 0 <= j < i ==> !has_nul(#[trigger] args@[j]@),
            decreases args.len() - i,
        {
            if has_embedded_nul(&args[i]) {
                return Err(MarshalError::EmbeddedNul);
            }
            i += 1;
        }
        Ok(ArgSnapshot { args })
    }

    /// The argument count handed to the engine as `argc`.
    pub fn len(&self) -> (r: usize)
        ensures
            r == self.args().len(),
    {
        self.args.len()
    }
}

/// What the subprocess executor's entry guard decides.
#[derive(Debug, Clone, Copy, PartialEq, Eq, Structural)]
pub enum SubprocessDecision {
    /// Hand the marshalled arguments to the engine's subprocess executor.
    ExecuteEngine,
    /// A cooperative task scheduler is driving this thread; handing it to the
    /// engine's blocking executor would be fatal, so refuse.
    RefuseScheduler,
}

/// The guard's decision as a function of whether a cooperative scheduler is
/// active on the calling thread.
pub open spec fn subprocess_decision_spec(scheduler_active: bool) -> SubprocessDecision {
    if scheduler_active {
        SubprocessDecision::RefuseScheduler
    } else {
        SubprocessDecision::ExecuteEngine
    }
}

/// Decide whether the subprocess executor may be entered, given whether a
/// cooperative scheduler is active on the calling thread.
pub fn subprocess_decision(scheduler_active: bool) -> (r: SubprocessDecision)
    ensures
        r == subprocess_decision_spec(scheduler_active),
{
    if scheduler_active {
        SubprocessDecision::RefuseScheduler
    } else {
        SubprocessDecision::ExecuteEngine
    }
}

/// Relies on `tokio::runtime::Handle::try_current`: it returns `Ok` exactly
/// when the calling thread is inside a tokio runtime context. Whether that
/// holds depends on the environment at the time of the call, so nothing is
/// promised of the result.
#[verifier::external_body]
fn scheduler_active() -> bool {
    tokio::runtime::Handle::try_current().is_ok()
}

/// The entry guard of the subprocess executor: probe the calling thread for a
/// cooperative scheduler and decide whether the engine's blocking subprocess
/// executor may be entered. The decision for each probe outcome is fixed by
/// [`subprocess_decision`]; the probe itself depends on the environment, so
/// nothing more can be promised here.
pub fn guard_subprocess_execution() -> SubprocessDecision {
    let active = scheduler_active();
    subprocess_decision(active)
}

} // verus!
