//! The lifecycle of a module handle as a sequence of decisions: move the
//! artifact to a private path, wait a bounded time for it to become visible,
//! load it; call into it; unload it and remove its file. The outside work of
//! each step (renaming, checking, sleeping, loading) is done by the caller,
//! which hands back what happened.
use vstd::prelude::*;
use crate::artifact_path::{
    directory_of, extension_of, is_hyphenated_form, private_path, sibling_of,
};

verus! {

/// How many times a missing private file is checked again before loading is
/// tried regardless.
pub const VISIBILITY_RETRIES: usize = 3;

/// The pause before each new check, in milliseconds.
pub const RETRY_DELAY_MILLIS: u64 = 500;

/// Where an acquisition stands.
#[derive(Clone, Copy, Debug, PartialEq, Eq, Structural)]
pub enum AcquirePhase {
    Renaming,
    Checking { retries_left: usize },
    Sleeping { retries_left: usize },
    Loading,
    /// The load failed: the private file is being removed.
    Discarding,
    Loaded,
    Failed,
}

/// What the caller observed after carrying out the last step.
#[derive(Clone, Copy, Debug, PartialEq, Eq, Structural)]
pub enum AcquireEvent {
    RenameDone { ok: bool },
    ExistsChecked { present: bool },
    Slept,
    LoadDone { ok: bool },
    /// The private file was removed, or removing it failed.
    Removed,
}

/// The outside work the caller is asked to do next.
#[derive(Clone, Debug)]
pub enum AcquireStep {
    /// Move the artifact at `from` to `to`.
    Rename { from: String, to: String },
    /// Report whether a file exists at `path`.
    CheckExists { path: String },
    /// Pause for `millis` milliseconds.
    Sleep { millis: u64 },
    /// Load the module at `path`.
    Load { path: String },
    /// Remove the file at `path`, once and best-effort: a module that did not
    /// load leaves no private file behind.
    Remove { path: String },
    /// The module at `path` is loaded: wrap it in a handle.
    Ready { path: String },
    /// Give up: no handle is made.
    Abandon,
}

/// The phase that follows `p` on event `e`. An event that does not fit the
/// phase leaves it as it is; `Loaded` and `Failed` are final. A failed rename
/// fails at once; a failed load first removes the private file.
pub open spec fn next_phase(p: AcquirePhase, e: AcquireEvent) -> AcquirePhase {
    match (p, e) {
        (AcquirePhase::Renaming, AcquireEvent::RenameDone { ok }) => if ok {
            AcquirePhase::Checking { retries_left: VISIBILITY_RETRIES }
        } else {
            AcquirePhase::Failed
        },
        (AcquirePhase::Checking { retries_left }, AcquireEvent::ExistsChecked { present }) => if present
            || retries_left == 0 {
            AcquirePhase::Loading
        } else {
            AcquirePhase::Sleeping { retries_left }
        },
        (AcquirePhase::Sleeping { retries_left }, AcquireEvent::Slept) => AcquirePhase::Checking {
            retries_left: if retries_left > 0 { (retries_left - 1) as usize } else { 0 },
        },
        (AcquirePhase::Loading, AcquireEvent::LoadDone { ok }) => if ok {
            AcquirePhase::Loaded
        } else {
            AcquirePhase::Discarding
        },
        (AcquirePhase::Discarding, AcquireEvent::Removed) => AcquirePhase::Failed,
        _ => p,
    }
}

/// The phase reached from `p` after the events `es`, in order.
pub open spec fn run_phase(p: AcquirePhase, es: Seq<AcquireEvent>) -> AcquirePhase
    decreases es.len(),
{
    if es.len() == 0 {
        p
    } else {
        run_phase(next_phase(p, es[0]), es.drop_first())
    }
}

/// `s` is the step that phase `p` asks for, for an artifact moved from
/// `artifact` to `private`.
pub open spec fn is_step_for(
    s: AcquireStep,
    p: AcquirePhase,
    artifact: Seq<char>,
    private: Seq<char>,
) -> bool {
    match p {
        AcquirePhase::Renaming => match s {
            AcquireStep::Rename { from, to } => from@ == artifact && to@ == private,
            _ => false,
        },
        AcquirePhase::Checking { .. } => match s {
            AcquireStep::CheckExists { path } => path@ == private,
            _ => false,
        },
        AcquirePhase::Sleeping { .. } => match s {
            AcquireStep::Sleep { millis } => millis == RETRY_DELAY_MILLIS,
            _ => false,
        },
        AcquirePhase::Loading => match s {
            AcquireStep::Load { path } => path@ == private,
            _ => false,
        },
        AcquirePhase::Discarding => match s {
            AcquireStep::Remove { path } => path@ == private,
            _ => false,
        },
        AcquirePhase::Loaded => match s {
            AcquireStep::Ready { path } => path@ == private,
            _ => false,
        },
        AcquirePhase::Failed => s is Abandon,
    }
}

/// One acquisition of a module: the artifact's path, the private path it is
/// moved to, and the phase reached.
pub struct Acquisition {
    artifact: String,
    private: String,
    phase: AcquirePhase,
}

impl Acquisition {
    pub closed spec fn artifact_spec(&self) -> Seq<char> {
        self.artifact@
    }

    pub closed spec fn private_spec(&self) -> Seq<char> {
        self.private@
    }

    pub closed spec fn phase_spec(&self) -> AcquirePhase {
        self.phase
    }

    /// Starts moving the artifact at `artifact` to `private`.
    pub fn start(artifact: &str, private: String) -> (r: (Acquisition, AcquireStep))
        ensures
            r.0.artifact_spec() == artifact@,
            r.0.private_spec() == private@,
            r.0.phase_spec() == AcquirePhase::Renaming,
            is_step_for(r.1, AcquirePhase::Renaming, artifact@, private@),
    {
        let step = AcquireStep::Rename { from: artifact.to_owned(), to: private.clone() };
        (Acquisition { artifact: artifact.to_owned(), private, phase: AcquirePhase::Renaming }, step)
    }

    /// Starts acquiring the artifact at `artifact`, to be moved to the
    /// sibling path whose stem is the hyphenated form of `u`, a freshly drawn
    /// unique identifier.
    pub fn begin(artifact: &str, u: &uuid::Uuid) -> (r: (Acquisition, AcquireStep))
        ensures
            r.0.artifact_spec() == artifact@,
            r.0.phase_spec() == AcquirePhase::Renaming,
            is_step_for(r.1, AcquirePhase::Renaming, artifact@, r.0.private_spec()),
            exists|id: Seq<char>|
                is_hyphenated_form(id) && r.0.private_spec() == sibling_of(artifact@, id),
            directory_of(r.0.private_spec()) == directory_of(artifact@),
            extension_of(r.0.private_spec()) == extension_of(artifact@),
    {
        let private = private_path(artifact, u);
        Acquisition::start(artifact, private)
    }

    /// Takes in what the last step brought and says what to do next.
    pub fn advance(&mut self, e: AcquireEvent) -> (r: AcquireStep)
        ensures
            final(self).artifact_spec() == old(self).artifact_spec(),
            final(self).private_spec() == old(self).private_spec(),
            final(self).phase_spec() == next_phase(old(self).phase_spec(), e),
            is_step_for(
                r,
                final(self).phase_spec(),
                final(self).artifact_spec(),
                final(self).private_spec(),
            ),
    {
        let next = match (self.phase, e) {
            (AcquirePhase::Renaming, AcquireEvent::RenameDone { ok }) => if ok {
                AcquirePhase::Checking { retries_left: VISIBILITY_RETRIES }
            } else {
                AcquirePhase::Failed
            },
            (AcquirePhase::Checking { retries_left }, AcquireEvent::ExistsChecked { present }) => {
                if present || retries_left == 0 {
                    AcquirePhase::Loading
                } else {
                    AcquirePhase::Sleeping { retries_left }
                }
            },
            (AcquirePhase::Sleeping { retries_left }, AcquireEvent::Slept) => {
                AcquirePhase::Checking {
                    retries_left: if retries_left > 0 { retries_left - 1 } else { 0 },
                }
            },
            (AcquirePhase::Loading, AcquireEvent::LoadDone { ok }) => if ok {
                AcquirePhase::Loaded
            } else {
                AcquirePhase::Discarding
            },
            (AcquirePhase::Discarding, AcquireEvent::Removed) => AcquirePhase::Failed,
            _ => self.phase,
        };
        self.phase = next;
        self.current_step()
    }

    /// The step the current phase asks for.
    pub fn current_step(&self) -> (r: AcquireStep)
        ensures
            is_step_for(r, self.phase_spec(), self.artifact_spec(), self.private_spec()),
    {
        match self.phase {
            AcquirePhase::Renaming => AcquireStep::Rename {
                from: self.artifact.clone(),
                to: self.private.clone(),
            },
            AcquirePhase::Checking { .. } => AcquireStep::CheckExists { path: self.private.clone() },
            AcquirePhase::Sleeping { .. } => AcquireStep::Sleep { millis: RETRY_DELAY_MILLIS },
            AcquirePhase::Loading => AcquireStep::Load { path: self.private.clone() },
            AcquirePhase::Discarding => AcquireStep::Remove { path: self.private.clone() },
            AcquirePhase::Loaded => AcquireStep::Ready { path: self.private.clone() },
            AcquirePhase::Failed => AcquireStep::Abandon,
        }
    }

    pub fn phase(&self) -> (r: AcquirePhase)
        ensures
            r == self.phase_spec(),
    {
        self.phase
    }

    pub fn private_path(&self) -> (r: &str)
        ensures
            r@ == self.private_spec(),
    {
        self.private.as_str()
    }
}

/// Why a call into a module did not happen.
#[derive(Clone, Debug, PartialEq, Eq)]
pub enum CallError {
    /// No module is loaded.
    LibraryUnavailable,
    /// The module exports no function of that name.
    SymbolNotFound { name: String },
}

/// The text that describes a call failure.
pub open spec fn call_error_text(e: CallError) -> Seq<char> {
    match e {
        CallError::LibraryUnavailable => "Library Unavailable"@,
        CallError::SymbolNotFound { name } => "Couldn't load function "@ + name@,
    }
}

impl CallError {
    pub fn message(&self) -> (r: String)
        ensures
            r@ == call_error_text(*self),
    {
        match self {
            CallError::LibraryUnavailable => String::from_str("Library Unavailable"),
            CallError::SymbolNotFound { name } => {
                let mut m = String::from_str("Couldn't load function ");
                m.append(name.as_str());
                m
            },
        }
    }
}

/// Whether a call of the function `name` may go ahead, given whether a module
/// is loaded and, if so, whether it exports `name`.
pub fn call_outcome(loaded: bool, symbol_found: bool, name: &str) -> (r: Result<(), CallError>)
    ensures
        !loaded ==> r == Err::<(), CallError>(CallError::LibraryUnavailable),
        loaded && !symbol_found ==> (match r {
            Err(CallError::SymbolNotFound { name: n }) => n@ == name@,
            _ => false,
        }),
        loaded && symbol_found ==> r is Ok,
{
    if !loaded {
        Err(CallError::LibraryUnavailable)
    } else if !symbol_found {
        Err(CallError::SymbolNotFound { name: name.to_owned() })
    } else {
        Ok(())
    }
}

/// What releasing the last owner of a handle does, in order.
#[derive(Clone, Debug)]
pub enum TeardownStep {
    /// Drop the loaded module, unloading its code.
    Unload,
    /// Remove the private file, once and best-effort.
    RemoveFile { path: String },
}

/// The teardown of a handle whose private file is `private`: the module is
/// unloaded first, then its file removed.
pub fn teardown_steps(private: &str) -> (r: Vec<TeardownStep>)
    ensures
        r@.len() == 2,
        r@[0] is Unload,
        match r@[1] {
            TeardownStep::RemoveFile { path } => path@ == private@,
            _ => false,
        },
{
    let mut v: Vec<TeardownStep> = Vec::new();
    v.push(TeardownStep::Unload);
    v.push(TeardownStep::RemoveFile { path: private.to_owned() });
    v
}

/// `Failed` and `Loaded` are final: no later event moves an acquisition out
/// of them.
pub proof fn lemma_outcome_is_final(p: AcquirePhase, es: Seq<AcquireEvent>)
    requires
        p == AcquirePhase::Failed || p == AcquirePhase::Loaded,
    ensures
        run_phase(p, es) == p,
    decreases es.len(),
{
    if es.len() > 0 {
        lemma_outcome_is_final(p, es.drop_first());
    }
}

/// A rename that fails ends the acquisition: whatever is reported afterwards,
/// no load is ever asked for and no handle is made.
pub proof fn lemma_failed_rename_never_loads(es: Seq<AcquireEvent>)
    ensures
        run_phase(AcquirePhase::Renaming, seq![AcquireEvent::RenameDone { ok: false }] + es)
            == AcquirePhase::Failed,
{
    let all = seq![AcquireEvent::RenameDone { ok: false }] + es;
    assert(all.drop_first() =~= es);
    lemma_outcome_is_final(AcquirePhase::Failed, es);
}

/// The reports of a file that never appears, starting at a check with `n`
/// retries left: a miss, then a pause and a miss for each retry.
pub open spec fn never_visible(n: nat) -> Seq<AcquireEvent>
    decreases n,
{
    if n == 0 {
        seq![AcquireEvent::ExistsChecked { present: false }]
    } else {
        seq![AcquireEvent::ExistsChecked { present: false }, AcquireEvent::Slept]
            + never_visible((n - 1) as nat)
    }
}

/// The wait for the private file is bounded: where it never appears, loading
/// is tried after `n` pauses all the same.
pub proof fn lemma_wait_is_bounded(n: usize)
    ensures
        run_phase(AcquirePhase::Checking { retries_left: n }, never_visible(n as nat))
            == AcquirePhase::Loading,
    decreases n,
{
    let es = never_visible(n as nat);
    if n == 0 {
        assert(es[0] == AcquireEvent::ExistsChecked { present: false });
        assert(run_phase(AcquirePhase::Loading, es.drop_first()) == AcquirePhase::Loading);
    } else {
        let rest = never_visible((n - 1) as nat);
        assert(es[0] == AcquireEvent::ExistsChecked { present: false });
        assert(es.drop_first().drop_first() =~= rest);
        let es1 = es.drop_first();
        assert(es1[0] == AcquireEvent::Slept);
        assert(run_phase(AcquirePhase::Checking { retries_left: n }, es) == run_phase(
            AcquirePhase::Sleeping { retries_left: n },
            es1,
        ));
        assert(run_phase(AcquirePhase::Sleeping { retries_left: n }, es1) == run_phase(
            AcquirePhase::Checking { retries_left: (n - 1) as usize },
            rest,
        ));
        lemma_wait_is_bounded((n - 1) as usize);
    }
}

/// After a successful rename, a file that never appears is checked
/// `VISIBILITY_RETRIES + 1` times and then loaded regardless.
pub proof fn lemma_rename_then_load_regardless()
    ensures
        run_phase(
            AcquirePhase::Renaming,
            seq![AcquireEvent::RenameDone { ok: true }] + never_visible(VISIBILITY_RETRIES as nat),
        ) == AcquirePhase::Loading,
{
    let es = never_visible(VISIBILITY_RETRIES as nat);
    assert((seq![AcquireEvent::RenameDone { ok: true }] + es).drop_first() =~= es);
    lemma_wait_is_bounded(VISIBILITY_RETRIES);
}

} // verus!
