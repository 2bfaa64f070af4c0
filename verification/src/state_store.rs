//! Persistence of the pod state.
//!
//! A state is persisted as one document in a canonical slot (the state
//! file), written through a two-phase protocol: the document is first
//! written whole to a temporary sibling slot, then moved into the
//! canonical slot in one step.  `MemStateStore` is the in-memory model of
//! the two slots with the protocol's steps as verified operations; the
//! file-backed store mirrors these steps onto the file system, with the
//! rename supplying the one-step move.  `load` reads the canonical slot
//! alone, so a save interrupted between the two phases leaves what `load`
//! returns untouched.
//!
//! `JsonFileStateStore` holds the canonical path and derives the
//! temporary sibling path for the file-backed protocol.

use crate::runpod_state::{RunPodState, StateView};
use crate::state_codec::{
    decode_state, encode_state, lemma_state_round_trip, spec_decode_state, spec_encode_state,
    validate_state, wf_state, StateDocError,
};
use vstd::prelude::*;
use vstd::string::*;

verus! {

/// Errors for state store operations.
#[derive(Debug)]
pub enum StateStoreError {
    /// An input/output failure, with the underlying message.
    Io(String),
    /// The stored or offered document was rejected.
    Doc(StateDocError),
}

/// Mathematical view of the two storage slots.
#[verifier::ext_equal]
pub ghost struct StoreView {
    /// Contents of the canonical slot, if present.
    pub canonical: Option<Seq<char>>,
    /// Contents of the temporary slot, if present.
    pub temp: Option<Seq<char>>,
}

/// What `load` returns for given canonical contents: absence is not an
/// error, and a present document is decoded and validated.
pub open spec fn spec_load_contents(contents: Option<Seq<char>>) -> Result<
    Option<StateView>,
    StateDocError,
> {
    match contents {
        None => Ok(None),
        Some(t) => match spec_decode_state(t) {
            Ok(v) => Ok(Some(v)),
            Err(e) => Err(e),
        },
    }
}

/// What `load` returns for given slots.  Only the canonical slot is ever
/// read.
pub open spec fn spec_store_load(sv: StoreView) -> Result<Option<StateView>, StateDocError> {
    spec_load_contents(sv.canonical)
}

/// A place that durably holds one state document.  `contents` is the
/// document the canonical slot currently holds; `load` and `save` are
/// bound to it, so every implementation persists exactly the codec's
/// document, validated the same way.
pub trait StateStore {
    /// The document text the canonical slot currently holds, if any.
    spec fn contents(&self) -> Option<Seq<char>>;

    /// Load the state: `None` if no record exists yet, an error if the
    /// record cannot be trusted.
    fn load(&self) -> (r: Result<Option<RunPodState>, StateStoreError>)
        ensures
            match r {
                Ok(opt) => match opt {
                    Some(st) => spec_load_contents(self.contents()) == Ok::<
                        Option<StateView>,
                        StateDocError,
                    >(Some(st@)),
                    None => spec_load_contents(self.contents()) == Ok::<
                        Option<StateView>,
                        StateDocError,
                    >(None),
                },
                Err(e) => {
                    &&& e matches StateStoreError::Doc(doc_err)
                    &&& spec_load_contents(self.contents()) == Err::<
                        Option<StateView>,
                        StateDocError,
                    >(doc_err)
                },
            },
    ;

    /// Save the state: validate it, then make the canonical slot hold
    /// exactly its document; on a validation error change nothing.
    fn save(&mut self, state: &RunPodState) -> (r: Result<(), StateStoreError>)
        ensures
            match r {
                Ok(()) => wf_state(state@) && final(self).contents() == Some(
                    spec_encode_state(state@),
                ),
                Err(e) => !wf_state(state@) && (e matches StateStoreError::Doc(_))
                    && final(self).contents() == old(self).contents(),
            },
    ;
}

/// The slots after the first phase of saving `v`: the document sits in
/// the temporary slot, the canonical slot is untouched.
pub open spec fn staged_store(pre: StoreView, v: StateView) -> StoreView {
    StoreView { canonical: pre.canonical, temp: Some(spec_encode_state(v)) }
}

/// The slots after the second phase: the document has moved into the
/// canonical slot.
pub open spec fn committed_store(pre: StoreView, v: StateView) -> StoreView {
    StoreView { canonical: Some(spec_encode_state(v)), temp: None }
}

/// Crash safety of the two-phase save: interrupted between the write of
/// the temporary slot and the move, `load` still returns exactly what it
/// returned before the save began; after the move, it returns the saved
/// state.  No intermediate point shows `load` anything else.
pub proof fn lemma_crash_safe_save(pre: StoreView, v: StateView)
    requires
        wf_state(v),
    ensures
        spec_store_load(staged_store(pre, v)) == spec_store_load(pre),
        spec_store_load(committed_store(pre, v)) == Ok::<Option<StateView>, StateDocError>(
            Some(v),
        ),
{
    lemma_state_round_trip(v);
}

/// In-memory store: the two slots held as plain values.  It runs the
/// same two-phase protocol as the file-backed store, step for step.
pub struct MemStateStore {
    /// Contents of the canonical slot, if present.
    pub canonical: Option<String>,
    /// Contents of the temporary slot, if present.
    pub temp: Option<String>,
}

impl View for MemStateStore {
    type V = StoreView;

    open spec fn view(&self) -> StoreView {
        StoreView {
            canonical: match self.canonical {
                Some(t) => Some(t@),
                None => None,
            },
            temp: match self.temp {
                Some(t) => Some(t@),
                None => None,
            },
        }
    }
}

impl MemStateStore {
    /// A store with both slots empty: no record yet.
    pub fn new() -> (r: Self)
        ensures
            r@ == (StoreView { canonical: None, temp: None }),
    {
        MemStateStore { canonical: None, temp: None }
    }

    /// First phase of a save: validate the state and write its document
    /// whole into the temporary slot.  The canonical slot is untouched.
    pub fn stage(&mut self, st: &RunPodState) -> (r: Result<(), StateStoreError>)
        ensures
            match r {
                Ok(()) => wf_state(st@) && final(self)@ == staged_store(old(self)@, st@),
                Err(e) => !wf_state(st@) && (e matches StateStoreError::Doc(_))
                    && final(self)@ == old(self)@,
            },
    {
        match validate_state(st) {
            Err(e) => Err(StateStoreError::Doc(e)),
            Ok(()) => {
                self.temp = Some(encode_state(st));
                Ok(())
            },
        }
    }

    /// Second phase of a save: move the temporary slot's contents into
    /// the canonical slot in one step.
    pub fn commit(&mut self)
        requires
            old(self)@.temp is Some,
        ensures
            final(self)@ == (StoreView { canonical: old(self)@.temp, temp: None }),
    {
        self.canonical = self.temp.take();
    }

}

impl StateStore for MemStateStore {
    open spec fn contents(&self) -> Option<Seq<char>> {
        self@.canonical
    }

    fn load(&self) -> (r: Result<Option<RunPodState>, StateStoreError>) {
        match &self.canonical {
            None => Ok(None),
            Some(text) => match decode_state(text.as_str()) {
                Ok(st) => Ok(Some(st)),
                Err(e) => Err(StateStoreError::Doc(e)),
            },
        }
    }

    /// Save a state: validate, stage, then commit.  On success the
    /// canonical slot holds exactly the state's document, so `load`
    /// returns the state back; on a validation error nothing changes.
    fn save(&mut self, state: &RunPodState) -> (r: Result<(), StateStoreError>)
        ensures
            match r {
                Ok(()) => final(self)@ == committed_store(old(self)@, state@),
                Err(_) => final(self)@ == old(self)@,
            },
    {
        match self.stage(state) {
            Err(e) => Err(e),
            Ok(()) => {
                self.commit();
                Ok(())
            },
        }
    }
}

/// File-backed store: holds the canonical path; the file operations
/// themselves live with the caller, which mirrors `MemStateStore`'s
/// two-phase protocol onto the file system.
#[derive(Debug)]
pub struct JsonFileStateStore {
    path: String,
}

impl View for JsonFileStateStore {
    type V = Seq<char>;

    closed spec fn view(&self) -> Seq<char> {
        self.path@
    }
}

impl JsonFileStateStore {
    /// A store over the given file path.
    pub fn new(path: String) -> (r: Self)
        ensures
            r@ == path@,
    {
        JsonFileStateStore { path }
    }

    /// The canonical state file path.
    pub fn path(&self) -> (r: &str)
        ensures
            r@ == self@,
    {
        self.path.as_str()
    }

    /// The temporary sibling path used by the two-phase write.
    pub fn temp_path(&self) -> (r: String)
        ensures
            r@ == self@ + ".tmp"@,
    {
        let mut out = self.path.clone();
        out.append(".tmp");
        out
    }
}

} // verus!
