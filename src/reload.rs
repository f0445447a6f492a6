//! The reload cycle: acquire the new module, capture every registered piece
//! of state from the old one, install the new module and restore the state
//! into it, then announce the load. A failure before installation leaves the
//! previous module active.
use vstd::prelude::*;
use crate::capability::CapabilityRegistry;
use crate::message::DylibRunnerOutput;

verus! {

/// Where a reload cycle stands.
#[derive(Clone, Copy, Debug, PartialEq, Eq, Structural)]
pub enum ReloadPhase {
    Idle,
    Acquiring { build_id: u32 },
    CapturingState { build_id: u32 },
    Installing { build_id: u32 },
    Notifying { build_id: u32 },
}

/// Bytes captured under `name`, to be restored into the new module.
#[derive(Clone, Debug)]
pub struct RestoreCall {
    pub name: String,
    pub bytes: Vec<u8>,
}

/// The registered names whose restore did not succeed, among the first `i`;
/// a name with no reported outcome counts as not restored.
pub open spec fn failed_names(names: Seq<Seq<char>>, ok: Seq<bool>, i: nat) -> Seq<Seq<char>>
    decreases i,
{
    if i == 0 {
        Seq::empty()
    } else {
        let k = (i - 1) as int;
        let before = failed_names(names, ok, (i - 1) as nat);
        if k < ok.len() && ok[k] {
            before
        } else {
            before.push(names[k])
        }
    }
}

/// The bytes of a capture, empty where it failed.
pub open spec fn captured_bytes(c: Option<Vec<u8>>) -> Seq<u8> {
    match c {
        Some(b) => b@,
        None => Seq::empty(),
    }
}

/// The driver of reload cycles for one host.
pub struct Reloader {
    registry: CapabilityRegistry,
    phase: ReloadPhase,
    active_build: Option<u32>,
}

impl Reloader {
    pub closed spec fn phase_spec(&self) -> ReloadPhase {
        self.phase
    }

    /// The build whose module is active, if one has been installed.
    pub closed spec fn active_spec(&self) -> Option<u32> {
        self.active_build
    }

    /// The registered capability names, in registration order.
    pub closed spec fn names(&self) -> Seq<Seq<char>> {
        self.registry@
    }

    pub closed spec fn wf(&self) -> bool {
        self.registry.wf()
    }

    /// A driver with no module installed yet, over the capabilities of
    /// `registry`.
    pub fn new(registry: CapabilityRegistry) -> (r: Reloader)
        requires
            registry.wf(),
        ensures
            r.wf(),
            r.phase_spec() == ReloadPhase::Idle,
            r.active_spec() is None,
            r.names() == registry@,
    {
        Reloader { registry, phase: ReloadPhase::Idle, active_build: None }
    }

    /// Starts a cycle for build `build_id`; only an idle driver starts one.
    pub fn begin(&mut self, build_id: u32) -> (r: bool)
        ensures
            final(self).wf() == old(self).wf(),
            final(self).names() == old(self).names(),
            final(self).active_spec() == old(self).active_spec(),
            r == (old(self).phase_spec() == ReloadPhase::Idle),
            r ==> final(self).phase_spec() == (ReloadPhase::Acquiring { build_id }),
            !r ==> final(self).phase_spec() == old(self).phase_spec(),
    {
        if self.phase == ReloadPhase::Idle {
            self.phase = ReloadPhase::Acquiring { build_id };
            true
        } else {
            false
        }
    }

    /// Takes in the outcome of acquiring the new module. On success the state
    /// is to be captured next (the result is true); on failure the driver is
    /// idle again and the active module is untouched.
    pub fn acquire_finished(&mut self, ok: bool) -> (r: bool)
        ensures
            final(self).wf() == old(self).wf(),
            final(self).names() == old(self).names(),
            final(self).active_spec() == old(self).active_spec(),
            match old(self).phase_spec() {
                ReloadPhase::Acquiring { build_id } => r == ok && final(self).phase_spec() == (
                if ok {
                    ReloadPhase::CapturingState { build_id }
                } else {
                    ReloadPhase::Idle
                }),
                _ => !r && final(self).phase_spec() == old(self).phase_spec(),
            },
    {
        match self.phase {
            ReloadPhase::Acquiring { build_id } => {
                if ok {
                    self.phase = ReloadPhase::CapturingState { build_id };
                } else {
                    self.phase = ReloadPhase::Idle;
                }
                ok
            },
            _ => false,
        }
    }

    /// Takes in what was captured from each registered capability, in
    /// registration order (`None` where a capture failed). Where every
    /// capture succeeded, the new module is to be installed and each
    /// capability restored from exactly the bytes captured under its own
    /// name; otherwise the cycle is abandoned and the old module stays.
    pub fn state_captured(&mut self, captured: Vec<Option<Vec<u8>>>) -> (r: Option<
        Vec<RestoreCall>,
    >)
        requires
            old(self).wf(),
        ensures
            final(self).wf(),
            final(self).names() == old(self).names(),
            final(self).active_spec() == old(self).active_spec(),
            match old(self).phase_spec() {
                ReloadPhase::CapturingState { build_id } => {
                    let complete = captured@.len() == old(self).names().len() && forall|i: int|
                        0 <= i < captured@.len() ==> #[trigger] captured@[i] is Some;
                    if complete {
                        final(self).phase_spec() == (ReloadPhase::Installing { build_id })
                            && match r {
                            Some(calls) => calls@.len() == captured@.len() && forall|i: int|
                                0 <= i < calls@.len() ==> #[trigger] calls@[i].name@ == old(
                                    self,
                                ).names()[i] && calls@[i].bytes@ == captured_bytes(captured@[i]),
                            None => false,
                        }
                    } else {
                        final(self).phase_spec() == ReloadPhase::Idle && r is None
                    }
                },
                _ => r is None && final(self).phase_spec() == old(self).phase_spec(),
            },
    {
        let build_id = match self.phase {
            ReloadPhase::CapturingState { build_id } => build_id,
            _ => {
                return None;
            },
        };
        let n = self.registry.len();
        if captured.len() != n {
            self.phase = ReloadPhase::Idle;
            return None;
        }
        let mut calls: Vec<RestoreCall> = Vec::new();
        let mut i: usize = 0;
        while i < n
            invariant
                n == captured@.len(),
                n == self.registry@.len(),
                self.registry == old(self).registry,
                self.registry.wf(),
                self.active_build == old(self).active_build,
                self.phase == old(self).phase,
                old(self).phase == (ReloadPhase::CapturingState { build_id }),
                i <= n,
                calls@.len() == i,
                forall|k: int|
                    0 <= k < i ==> #[trigger] calls@[k].name@ == self.registry@[k]
                        && calls@[k].bytes@ == captured_bytes(captured@[k]),
                forall|k: int| 0 <= k < i ==> #[trigger] captured@[k] is Some,
            decreases n - i,
        {
            match &captured[i] {
                Some(bytes) => {
                    let name = self.registry.name_at(i).to_owned();
                    let copy = bytes.clone();
                    assert(copy@ =~= bytes@);
                    calls.push(RestoreCall { name, bytes: copy });
                },
                None => {
                    assert(!(captured@[i as int] is Some));
                    self.phase = ReloadPhase::Idle;
                    return None;
                },
            }
            i = i + 1;
        }
        self.phase = ReloadPhase::Installing { build_id };
        Some(calls)
    }

    /// Takes in, in registration order, whether each restore succeeded. The
    /// new module is now the active one; the announcement comes next. The
    /// result names the capabilities that were not restored, so that a
    /// partial restore is reported rather than lost.
    pub fn installed(&mut self, restored: Vec<bool>) -> (r: Option<Vec<String>>)
        requires
            old(self).wf(),
        ensures
            final(self).wf(),
            final(self).names() == old(self).names(),
            match old(self).phase_spec() {
                ReloadPhase::Installing { build_id } => final(self).phase_spec() == (
                ReloadPhase::Notifying { build_id }) && final(self).active_spec() == Some(
                    build_id,
                ) && match r {
                    Some(failed) => failed@.map_values(|s: String| s@) == failed_names(
                        old(self).names(),
                        restored@,
                        old(self).names().len(),
                    ),
                    None => false,
                },
                _ => r is None && final(self).phase_spec() == old(self).phase_spec()
                    && final(self).active_spec() == old(self).active_spec(),
            },
    {
        let build_id = match self.phase {
            ReloadPhase::Installing { build_id } => build_id,
            _ => {
                return None;
            },
        };
        let n = self.registry.len();
        let mut failed: Vec<String> = Vec::new();
        let mut i: usize = 0;
        while i < n
            invariant
                n == self.registry@.len(),
                self.registry == old(self).registry,
                self.active_build == old(self).active_build,
                self.phase == old(self).phase,
                i <= n,
                failed@.map_values(|s: String| s@) == failed_names(
                    self.registry@,
                    restored@,
                    i as nat,
                ),
            decreases n - i,
        {
            let ok = i < restored.len() && restored[i];
            if !ok {
                let name = self.registry.name_at(i).to_owned();
                failed.push(name);
            }
            assert(failed@.map_values(|s: String| s@) =~= failed_names(
                self.registry@,
                restored@,
                (i + 1) as nat,
            ));
            i = i + 1;
        }
        self.active_build = Some(build_id);
        self.phase = ReloadPhase::Notifying { build_id };
        Some(failed)
    }

    /// Announces the load that was just installed and returns to idle.
    pub fn notify(&mut self) -> (r: Option<DylibRunnerOutput>)
        ensures
            final(self).wf() == old(self).wf(),
            final(self).names() == old(self).names(),
            final(self).active_spec() == old(self).active_spec(),
            match old(self).phase_spec() {
                ReloadPhase::Notifying { build_id } => final(self).phase_spec()
                    == ReloadPhase::Idle && r == Some(DylibRunnerOutput::LoadedLib { build_id }),
                _ => r is None && final(self).phase_spec() == old(self).phase_spec(),
            },
    {
        match self.phase {
            ReloadPhase::Notifying { build_id } => {
                self.phase = ReloadPhase::Idle;
                Some(DylibRunnerOutput::LoadedLib { build_id })
            },
            _ => None,
        }
    }

    pub fn phase(&self) -> (r: ReloadPhase)
        ensures
            r == self.phase_spec(),
    {
        self.phase
    }

    pub fn active_build(&self) -> (r: Option<u32>)
        ensures
            r == self.active_spec(),
    {
        self.active_build
    }
}

} // verus!
