//! A single-assignment slot for runtime-specific per-round state.
//!
//! The state is stored under a caller-chosen kind, and every retrieval
//! names the kind it expects, so that a mismatch is reported as an error
//! instead of yielding data of another shape.
use vstd::prelude::*;

verus! {

/// Why an access to the runtime slot failed.
#[derive(Clone, Copy, Debug, PartialEq, Eq)]
pub enum RuntimeError {
    /// No runtime state is installed.
    NotInstalled,
    /// Runtime state is already installed; a slot takes one value per round.
    AlreadyInstalled { installed: u64 },
    /// The installed state is of another kind than the one asked for.
    TypeMismatch { expected: u64, installed: u64 },
}

/// Runtime-specific state: a kind and the state itself.
pub struct RuntimeState {
    pub kind: u64,
    pub data: Vec<u8>,
}

/// Holds at most one runtime-specific state; empty by default.
pub struct RuntimeSlot {
    state: Option<RuntimeState>,
}

/// What a slot holds: nothing, or a kind and its data.
pub type SlotView = Option<(u64, Seq<u8>)>;

/// The slot after an attempt to install `data` of kind `kind`.
pub open spec fn installed(slot: SlotView, kind: u64, data: Seq<u8>) -> SlotView {
    match slot {
        None => Some((kind, data)),
        Some(_) => slot,
    }
}

/// What retrieving state of kind `kind` from the slot gives.
pub open spec fn retrieved(slot: SlotView, kind: u64) -> Result<Seq<u8>, RuntimeError> {
    match slot {
        None => Err(RuntimeError::NotInstalled),
        Some((k, d)) => if k == kind {
            Ok(d)
        } else {
            Err(RuntimeError::TypeMismatch { expected: kind, installed: k })
        },
    }
}

impl View for RuntimeSlot {
    type V = SlotView;

    closed spec fn view(&self) -> SlotView {
        match self.state {
            None => None,
            Some(s) => Some((s.kind, s.data@)),
        }
    }
}

impl RuntimeSlot {
    /// A slot with no runtime state installed.
    pub fn empty() -> (r: RuntimeSlot)
        ensures
            r@ == None::<(u64, Seq<u8>)>,
    {
        RuntimeSlot { state: None }
    }

    /// Whether no runtime state is installed.
    pub fn is_empty(&self) -> (r: bool)
        ensures
            r == (self@ == None::<(u64, Seq<u8>)>),
    {
        self.state.is_none()
    }

    /// The kind of the installed state, if any.
    pub fn kind(&self) -> (r: Option<u64>)
        ensures
            r == match self@ {
                None => None,
                Some((k, _)) => Some(k),
            },
    {
        match &self.state {
            None => None,
            Some(s) => Some(s.kind),
        }
    }

    /// Installs `data` as state of kind `kind`. Fails, leaving the slot
    /// unchanged, where state is already installed.
    pub fn install(&mut self, kind: u64, data: Vec<u8>) -> (r: Result<(), RuntimeError>)
        ensures
            final(self)@ == installed(old(self)@, kind, data@),
            match old(self)@ {
                None => r == Ok::<(), RuntimeError>(()),
                Some((k, _)) => r == Err::<(), RuntimeError>(RuntimeError::AlreadyInstalled { installed: k }),
            },
    {
        match &self.state {
            Some(s) => Err(RuntimeError::AlreadyInstalled { installed: s.kind }),
            None => {
                self.state = Some(RuntimeState { kind, data });
                Ok(())
            },
        }
    }

    /// The installed state, which must be of kind `kind`.
    pub fn get(&self, kind: u64) -> (r: Result<&Vec<u8>, RuntimeError>)
        ensures
            match r {
                Ok(d) => retrieved(self@, kind) == Ok::<Seq<u8>, RuntimeError>(d@),
                Err(e) => retrieved(self@, kind) == Err::<Seq<u8>, RuntimeError>(e),
            },
    {
        match &self.state {
            None => Err(RuntimeError::NotInstalled),
            Some(s) => if s.kind == kind {
                Ok(&s.data)
            } else {
                Err(RuntimeError::TypeMismatch { expected: kind, installed: s.kind })
            },
        }
    }

    /// Removes and returns the installed state, which must be of kind `kind`;
    /// on failure the slot is unchanged.
    pub fn take(&mut self, kind: u64) -> (r: Result<Vec<u8>, RuntimeError>)
        ensures
            match r {
                Ok(d) => retrieved(old(self)@, kind) == Ok::<Seq<u8>, RuntimeError>(d@)
                    && final(self)@ == None::<(u64, Seq<u8>)>,
                Err(e) => retrieved(old(self)@, kind) == Err::<Seq<u8>, RuntimeError>(e)
                    && final(self)@ == old(self)@,
            },
    {
        let matches_kind = match &self.state {
            None => false,
            Some(s) => s.kind == kind,
        };
        if matches_kind {
            let mut state: Option<RuntimeState> = None;
            std::mem::swap(&mut state, &mut self.state);
            match state {
                Some(s) => Ok(s.data),
                None => Err(RuntimeError::NotInstalled),
            }
        } else {
            match &self.state {
                None => Err(RuntimeError::NotInstalled),
                Some(s) => Err(RuntimeError::TypeMismatch { expected: kind, installed: s.kind }),
            }
        }
    }
}

/// Retrieving state of a kind other than the one installed fails with a
/// type mismatch that names both kinds, and never yields the installed data.
pub proof fn lemma_mismatched_kind_fails(kind: u64, data: Seq<u8>, other: u64)
    requires
        other != kind,
    ensures
        retrieved(installed(None, kind, data), other) == Err::<Seq<u8>, RuntimeError>(
            RuntimeError::TypeMismatch { expected: other, installed: kind },
        ),
        retrieved(installed(None, kind, data), kind) == Ok::<Seq<u8>, RuntimeError>(data),
{
}

/// Once state is installed, a second install leaves it as it was.
pub proof fn lemma_single_assignment(slot: SlotView, k1: u64, d1: Seq<u8>, k2: u64, d2: Seq<u8>)
    ensures
        installed(installed(slot, k1, d1), k2, d2) == installed(slot, k1, d1),
{
}

} // verus!
