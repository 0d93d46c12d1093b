use vstd::prelude::*;

verus! {

/// The activation state around the training loop: the start menu, the loop
/// running, or the pause menu.
#[derive(PartialEq, Eq, Structural, Clone, Copy, Debug, Hash)]
pub enum AppState {
    Inicio,
    JuegoActivo,
    Pausa,
}

impl AppState {
    /// The state a process starts in.
    pub fn initial() -> (r: AppState)
        ensures
            r == AppState::Inicio,
    {
        AppState::Inicio
    }

    /// Whether the training loop runs in this state.
    pub fn is_active(&self) -> (r: bool)
        ensures
            r == (*self == AppState::JuegoActivo),
    {
        match self {
            AppState::JuegoActivo => true,
            _ => false,
        }
    }

    /// Whether a menu is shown in this state; it is set up on entering the
    /// state and cleared on leaving it.
    pub fn has_menu(&self) -> (r: bool)
        ensures
            r == (*self != AppState::JuegoActivo),
    {
        !self.is_active()
    }

    /// The state after one tick in which `enter` and `pause` tell whether the
    /// start key and the pause key went down: the start key leaves the start
    /// menu, the pause key toggles between running and paused, and nothing else
    /// changes the state.
    pub open spec fn next_spec(self, enter: bool, pause: bool) -> AppState {
        match self {
            AppState::Inicio => if enter {
                AppState::JuegoActivo
            } else {
                AppState::Inicio
            },
            AppState::JuegoActivo => if pause {
                AppState::Pausa
            } else {
                AppState::JuegoActivo
            },
            AppState::Pausa => if pause {
                AppState::JuegoActivo
            } else {
                AppState::Pausa
            },
        }
    }

    pub fn next(&self, enter: bool, pause: bool) -> (r: AppState)
        ensures
            r == self.next_spec(enter, pause),
    {
        match self {
            AppState::Inicio => if enter {
                AppState::JuegoActivo
            } else {
                AppState::Inicio
            },
            AppState::JuegoActivo => if pause {
                AppState::Pausa
            } else {
                AppState::JuegoActivo
            },
            AppState::Pausa => if pause {
                AppState::JuegoActivo
            } else {
                AppState::Pausa
            },
        }
    }
}

} // verus!
