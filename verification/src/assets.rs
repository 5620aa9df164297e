//! Asset handles as the host issues them, and the sets in which the render
//! hook keeps them alive.

use std::collections::HashMap;
use vstd::prelude::*;

verus! {

/// The identifier under which the host knows an asset. The host derives it
/// from the asset's path; nothing here can compute it.
pub type HandleId = u64;

/// What the host reports about an asset.
#[derive(Clone, Copy, Debug, PartialEq, Eq, Structural)]
pub enum LoadState {
    NotLoaded,
    Loading,
    Loaded,
    Failed,
}

/// A path taken from a batch together with the handle the host resolved it to.
#[derive(Clone, Debug)]
pub struct AssetRef {
    pub path: String,
    pub handle: HandleId,
}

/// Whether an asset in `state` has to be requested from the host. Loads that
/// are in flight, done or failed are not requested again.
pub open spec fn spec_load_needed(state: LoadState) -> bool {
    state is NotLoaded
}

#[verifier::when_used_as_spec(spec_load_needed)]
pub fn load_needed(state: LoadState) -> (needed: bool)
    ensures
        needed == spec_load_needed(state),
{
    match state {
        LoadState::NotLoaded => true,
        _ => false,
    }
}

/// How many load requests are issued when the same asset is resolved once
/// against each of `states` in turn.
pub open spec fn load_requests(states: Seq<LoadState>) -> nat
    decreases states.len(),
{
    if states.len() == 0 {
        0
    } else {
        load_requests(states.drop_last()) + if spec_load_needed(states.last()) {
            1nat
        } else {
            0nat
        }
    }
}

/// The host takes note of a request: once an asset was seen as not loaded, and
/// so requested, no later observation finds it not loaded.
pub open spec fn requests_are_registered(states: Seq<LoadState>) -> bool {
    forall|i: int, j: int|
        #![trigger states[i], states[j]]
        0 <= i < j < states.len() && states[i] is NotLoaded ==> !(states[j] is NotLoaded)
}

/// No request is issued while the asset is never seen as not loaded.
pub proof fn lemma_no_request_unless_not_loaded(states: Seq<LoadState>)
    requires
        forall|i: int| 0 <= i < states.len() ==> !(#[trigger] states[i] is NotLoaded),
    ensures
        load_requests(states) == 0,
    decreases states.len(),
{
    if states.len() > 0 {
        lemma_no_request_unless_not_loaded(states.drop_last());
    }
}

/// Resolving an asset any number of times issues at most one load request, as
/// long as the host registers the request.
pub proof fn lemma_load_requested_at_most_once(states: Seq<LoadState>)
    requires
        requests_are_registered(states),
    ensures
        load_requests(states) <= 1,
    decreases states.len(),
{
    if states.len() > 0 {
        let init = states.drop_last();
        assert(requests_are_registered(init)) by {
            assert forall|i: int, j: int|
                #![trigger init[i], init[j]]
                0 <= i < j < init.len() && init[i] is NotLoaded implies !(init[j] is NotLoaded) by {
                assert(init[i] == states[i]);
                assert(init[j] == states[j]);
            }
        }
        lemma_load_requested_at_most_once(init);
        if states.last() is NotLoaded {
            assert forall|i: int| 0 <= i < init.len() implies !(#[trigger] init[i] is NotLoaded) by {
                if init[i] is NotLoaded {
                    assert(states[i] is NotLoaded);
                    assert(!(states[states.len() - 1] is NotLoaded));
                }
            }
            lemma_no_request_unless_not_loaded(init);
        }
    }
}

/// Resolving an asset `n` times while its load state stays `state` issues at
/// most one load request, unless the state stays "not loaded" over several
/// calls: there each call asks again.
pub proof fn lemma_repeated_resolve(state: LoadState, n: nat)
    requires
        n <= 1 || !(state is NotLoaded),
    ensures
        load_requests(Seq::new(n, |i: int| state)) <= 1,
{
    let states = Seq::new(n, |i: int| state);
    assert(requests_are_registered(states));
    lemma_load_requested_at_most_once(states);
}

/// Handles held so that the host does not unload what the UI may reference
/// again. At most one handle is kept per identifier, and none is ever given
/// up.
#[verifier::reject_recursive_types(H)]
pub struct RetentionSet<H> {
    handles: HashMap<HandleId, H>,
}

impl<H> View for RetentionSet<H> {
    type V = Map<HandleId, H>;

    closed spec fn view(&self) -> Map<HandleId, H> {
        self.handles@
    }
}

impl<H> RetentionSet<H> {
    /// The identifiers of the retained handles.
    pub open spec fn ids(&self) -> Set<HandleId> {
        self@.dom()
    }

    /// Every handle of `earlier` is still held in `self`, unchanged.
    pub open spec fn extends(&self, earlier: &RetentionSet<H>) -> bool {
        forall|id: HandleId| #[trigger]
            earlier@.contains_key(id) ==> self@.contains_key(id) && self@[id] == earlier@[id]
    }

    /// A set that retains nothing.
    pub fn new() -> (set: RetentionSet<H>)
        ensures
            set@ == Map::<HandleId, H>::empty(),
    {
        RetentionSet { handles: HashMap::new() }
    }

    /// Retains `handle` under `id`. Where a handle is already held under that
    /// identifier it stays and the new one is dropped. Returns whether the
    /// handle was added.
    pub fn insert(&mut self, id: HandleId, handle: H) -> (added: bool)
        ensures
            added == !old(self)@.contains_key(id),
            final(self)@ == if old(self)@.contains_key(id) {
                old(self)@
            } else {
                old(self)@.insert(id, handle)
            },
            final(self).extends(old(self)),
            final(self)@.contains_key(id),
    {
        broadcast use vstd::std_specs::hash::group_hash_axioms;

        if self.handles.contains_key(&id) {
            false
        } else {
            self.handles.insert(id, handle);
            true
        }
    }

    /// Whether a handle is retained under `id`.
    pub fn contains(&self, id: HandleId) -> (held: bool)
        ensures
            held == self@.contains_key(id),
    {
        broadcast use vstd::std_specs::hash::group_hash_axioms;

        self.handles.contains_key(&id)
    }

    /// The handle retained under `id`.
    pub fn get(&self, id: HandleId) -> (handle: Option<&H>)
        ensures
            match handle {
                Some(h) => self@.contains_key(id) && *h == self@[id],
                None => !self@.contains_key(id),
            },
    {
        broadcast use vstd::std_specs::hash::group_hash_axioms;

        self.handles.get(&id)
    }

    /// How many handles are retained.
    pub fn len(&self) -> (n: usize)
        ensures
            n == self@.len(),
    {
        broadcast use vstd::std_specs::hash::group_hash_axioms;

        self.handles.len()
    }
}

} // verus!
