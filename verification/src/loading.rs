//! The asset-loading state machine.
//!
//! The program starts in a setup phase, polls the loader once per frame for
//! the aggregate state of all sprite handles, and moves to the finished
//! phase exactly when every handle has loaded.

use vstd::prelude::*;

verus! {

/// Phase of the program: still gathering assets, or ready to build the scene.
#[derive(Clone, Copy, Debug, PartialEq, Eq, Hash, Structural)]
pub enum AppState {
    Setup,
    Finished,
}

/// Load progress of a single asset handle, as the loader reports it.
#[derive(Clone, Copy, Debug, PartialEq, Eq, Structural)]
pub enum LoadState {
    NotLoaded,
    Loading,
    Loaded,
    Failed,
}

pub open spec fn any_failed(states: Seq<LoadState>) -> bool {
    exists|i: int| 0 <= i < states.len() && states[i] is Failed
}

pub open spec fn any_not_loaded(states: Seq<LoadState>) -> bool {
    exists|i: int| 0 <= i < states.len() && states[i] is NotLoaded
}

pub open spec fn any_loading(states: Seq<LoadState>) -> bool {
    exists|i: int| 0 <= i < states.len() && states[i] is Loading
}

pub open spec fn all_loaded(states: Seq<LoadState>) -> bool {
    forall|i: int| 0 <= i < states.len() ==> states[i] is Loaded
}

/// Aggregate load state of a group of handles: a failure anywhere fails the
/// group, an unstarted handle leaves it not loaded, one in flight leaves it
/// loading, and the group is loaded exactly when every handle is.
pub fn group_load_state(states: &Vec<LoadState>) -> (group: LoadState)
    ensures
        group is Failed <==> any_failed(states@),
        group is NotLoaded <==> !any_failed(states@) && any_not_loaded(states@),
        group is Loading <==> !any_failed(states@) && !any_not_loaded(states@) && any_loading(states@),
        group is Loaded <==> all_loaded(states@),
{
    let mut saw_not_loaded = false;
    let mut saw_loading = false;
    let mut i: usize = 0;
    while i < states.len()
        invariant
            i <= states.len(),
            forall|j: int| 0 <= j < i ==> !((#[trigger] states@[j]) is Failed),
            saw_not_loaded <==> exists|j: int| 0 <= j < i && (#[trigger] states@[j]) is NotLoaded,
            saw_loading <==> exists|j: int| 0 <= j < i && (#[trigger] states@[j]) is Loading,
        decreases states.len() - i,
    {
        match states[i] {
            LoadState::Failed => {
                return LoadState::Failed;
            },
            LoadState::NotLoaded => {
                saw_not_loaded = true;
            },
            LoadState::Loading => {
                saw_loading = true;
            },
            LoadState::Loaded => {},
        }
        i = i + 1;
    }
    if saw_not_loaded {
        LoadState::NotLoaded
    } else if saw_loading {
        LoadState::Loading
    } else {
        LoadState::Loaded
    }
}

/// One polling step of the setup phase: the program leaves `Setup` for
/// `Finished` exactly when the whole texture group has loaded, and once
/// finished it stays finished.
pub fn check_textures(state: AppState, textures: LoadState) -> (next: AppState)
    ensures
        next == (if state is Setup && textures is Loaded {
            AppState::Finished
        } else {
            state
        }),
{
    if state == AppState::Setup && textures == LoadState::Loaded {
        AppState::Finished
    } else {
        state
    }
}

} // verus!
