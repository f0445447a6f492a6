//! State that survives a reload: a registry of named capabilities, and a
//! capability that captures a small enumerated state as one tag byte.
use vstd::prelude::*;

verus! {

/// Why a capability could not be registered, captured or restored.
#[derive(Clone, Debug, PartialEq, Eq)]
pub enum CapabilityError {
    /// A capability of this name is registered already.
    DuplicateName { name: String },
    /// The bytes do not decode to a value.
    MalformedPayload,
    /// A value could not be captured as bytes.
    CaptureFailed,
}

/// The names under which capabilities are registered, in registration order.
/// No name occurs twice.
pub struct CapabilityRegistry {
    names: Vec<String>,
}

pub open spec fn distinct_names(s: Seq<Seq<char>>) -> bool {
    forall|i: int, j: int| 0 <= i < s.len() && 0 <= j < s.len() && i != j ==> s[i] != s[j]
}

impl CapabilityRegistry {
    /// The registered names, in registration order.
    pub closed spec fn view(&self) -> Seq<Seq<char>> {
        self.names@.map_values(|n: String| n@)
    }

    pub open spec fn wf(&self) -> bool {
        distinct_names(self@)
    }

    pub fn new() -> (r: CapabilityRegistry)
        ensures
            r@ == Seq::<Seq<char>>::empty(),
            r.wf(),
    {
        let r = CapabilityRegistry { names: Vec::new() };
        assert(r@ =~= Seq::<Seq<char>>::empty());
        r
    }

    pub fn len(&self) -> (r: usize)
        ensures
            r == self@.len(),
    {
        self.names.len()
    }

    /// Whether `name` is registered.
    pub fn contains(&self, name: &str) -> (r: bool)
        ensures
            r == self@.contains(name@),
    {
        let key = name.to_owned();
        let mut i: usize = 0;
        while i < self.names.len()
            invariant
                i <= self.names@.len(),
                key@ == name@,
                forall|k: int| 0 <= k < i ==> self@[k] != name@,
            decreases self.names@.len() - i,
        {
            if self.names[i] == key {
                assert(self@[i as int] == name@);
                return true;
            }
            i = i + 1;
        }
        proof {
            if self@.contains(name@) {
                let k = choose|k: int| 0 <= k < self@.len() && self@[k] == name@;
                assert(self@[k] != name@);
            }
        }
        false
    }

    /// Registers a capability under `name`; a name registered already is a
    /// configuration error and leaves the registry as it was.
    pub fn register(&mut self, name: &str) -> (r: Result<(), CapabilityError>)
        requires
            old(self).wf(),
        ensures
            final(self).wf(),
            old(self)@.contains(name@) ==> final(self)@ == old(self)@ && (match r {
                Err(CapabilityError::DuplicateName { name: n }) => n@ == name@,
                _ => false,
            }),
            !old(self)@.contains(name@) ==> r is Ok && final(self)@ == old(self)@.push(name@),
    {
        if self.contains(name) {
            return Err(CapabilityError::DuplicateName { name: name.to_owned() });
        }
        self.names.push(name.to_owned());
        assert(self@ =~= old(self)@.push(name@));
        Ok(())
    }

    /// The name registered at `i`.
    pub fn name_at(&self, i: usize) -> (r: &str)
        requires
            i < self@.len(),
        ensures
            r@ == self@[i as int],
    {
        self.names[i].as_str()
    }
}

/// A piece of application state that survives a reload: captured as bytes
/// from the outgoing module and restored into the incoming one. Every impl
/// proves that what it captures restores to the same value.
pub trait ReplacableType: Sized {
    /// The bytes a value is captured as.
    spec fn captured_as(&self) -> Seq<u8>;

    /// The value a payload restores to; `None` where it is malformed.
    spec fn restored_from(b: Seq<u8>) -> Option<Self>;

    /// Restoring what was captured gives back the value.
    proof fn lemma_round_trip(v: &Self)
        ensures
            Self::restored_from(v.captured_as()) == Some(*v),
    ;

    /// The stable name the capability is registered under.
    fn get_type_name() -> &'static str;

    /// Captures the value.
    fn to_vec(&self) -> (r: Result<Vec<u8>, CapabilityError>)
        ensures
            match r {
                Ok(b) => b@ == self.captured_as(),
                Err(e) => e is CaptureFailed,
            },
    ;

    /// Restores a value; a payload that does not decode is malformed. Only
    /// the payload is read, so a failure changes nothing.
    fn from_slice(val: &[u8]) -> (r: Result<Self, CapabilityError>)
        ensures
            match Self::restored_from(val@) {
                Some(v) => r == Ok::<Self, CapabilityError>(v),
                None => r == Err::<Self, CapabilityError>(CapabilityError::MalformedPayload),
            },
    ;
}

/// For every capability and every value of it, a successful capture restores
/// to that same value.
pub proof fn lemma_capture_restore<T: ReplacableType>(v: T)
    ensures
        T::restored_from(v.captured_as()) == Some(v),
{
    T::lemma_round_trip(&v);
}

/// A small enumerated state, captured as a single tag byte.
#[derive(Clone, Copy, Debug, PartialEq, Eq, Structural)]
pub enum PhaseState {
    Initial,
    Another,
    Third,
}

/// The tag byte of each variant.
pub open spec fn phase_tag(p: PhaseState) -> u8 {
    match p {
        PhaseState::Initial => 0,
        PhaseState::Another => 1,
        PhaseState::Third => 2,
    }
}

/// What a payload decodes to: exactly one byte, a known tag.
pub open spec fn phase_decode(b: Seq<u8>) -> Option<PhaseState> {
    if b.len() != 1 {
        None
    } else if b[0] == 0 {
        Some(PhaseState::Initial)
    } else if b[0] == 1 {
        Some(PhaseState::Another)
    } else if b[0] == 2 {
        Some(PhaseState::Third)
    } else {
        None
    }
}

impl ReplacableType for PhaseState {
    open spec fn captured_as(&self) -> Seq<u8> {
        seq![phase_tag(*self)]
    }

    open spec fn restored_from(b: Seq<u8>) -> Option<PhaseState> {
        phase_decode(b)
    }

    proof fn lemma_round_trip(v: &PhaseState) {
    }

    fn get_type_name() -> (r: &'static str) {
        "PhaseState"
    }

    fn to_vec(&self) -> (r: Result<Vec<u8>, CapabilityError>)
        ensures
            r is Ok,
    {
        let tag: u8 = match self {
            PhaseState::Initial => 0,
            PhaseState::Another => 1,
            PhaseState::Third => 2,
        };
        let mut v: Vec<u8> = Vec::new();
        v.push(tag);
        assert(v@ =~= seq![tag]);
        Ok(v)
    }

    fn from_slice(val: &[u8]) -> (r: Result<PhaseState, CapabilityError>) {
        if val.len() != 1 {
            return Err(CapabilityError::MalformedPayload);
        }
        let b = val[0];
        if b == 0 {
            Ok(PhaseState::Initial)
        } else if b == 1 {
            Ok(PhaseState::Another)
        } else if b == 2 {
            Ok(PhaseState::Third)
        } else {
            Err(CapabilityError::MalformedPayload)
        }
    }
}

/// A truncated payload, a payload with trailing bytes and one with an unknown
/// tag are all malformed.
pub proof fn lemma_phase_rejects_garbage(b: Seq<u8>)
    requires
        b.len() == 0 || b.len() > 1 || b[0] > 2,
    ensures
        phase_decode(b) is None,
{
}

} // verus!
