use vstd::prelude::*;

verus! {

/// The phase of a run: waiting for externally loaded assets, or stepping.
#[derive(Debug, Clone, Copy, Eq, PartialEq, Hash, Structural)]
pub enum AppState {
    Loading,
    InGame,
}

/// What the host reports about the assets a run waits for.
#[derive(Debug, Clone, Copy, Eq, PartialEq, Structural)]
pub enum LoadStatus {
    Pending,
    Loaded,
    Failed,
}

impl AppState {
    /// The phase after a load check: loading ends once every asset has
    /// loaded; a pending or failed load keeps waiting.
    pub open spec fn after_load_check_spec(self, status: LoadStatus) -> AppState {
        if self is Loading && status is Loaded {
            AppState::InGame
        } else {
            self
        }
    }

    pub fn after_load_check(self, status: LoadStatus) -> (r: AppState)
        ensures
            r == self.after_load_check_spec(status),
    {
        match (self, status) {
            (AppState::Loading, LoadStatus::Loaded) => AppState::InGame,
            _ => self,
        }
    }

    /// Simulation steps run only once loading is over.
    pub fn is_running(self) -> (r: bool)
        ensures
            r == (self is InGame),
    {
        match self {
            AppState::InGame => true,
            AppState::Loading => false,
        }
    }
}

} // verus!
