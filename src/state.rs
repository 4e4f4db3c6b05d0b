//! The application's top-level mode.

use vstd::prelude::*;

verus! {

/// Which part of the application runs: the game, the start menu, or the
/// game-over screen.
#[derive(Clone, Copy, Eq, PartialEq, Debug, Hash, Structural)]
pub enum AppState {
    Game,
    Menu,
    GameOver,
}

/// Whether the command line asks to skip the start menu.
pub open spec fn asks_to_skip_menu(args: Seq<String>) -> bool {
    exists|i: int| 0 <= i < args.len() && (#[trigger] args[i])@ == "--skip-menu"@
}

impl AppState {
    /// The mode the application starts in: `Game` when one of the
    /// command-line arguments is `--skip-menu`, else `Menu`.
    pub fn from_args(args: &Vec<String>) -> (r: AppState)
        ensures
            r == if asks_to_skip_menu(args@) {
                AppState::Game
            } else {
                AppState::Menu
            },
    {
        let flag = String::from_str("--skip-menu");
        let mut k: usize = 0;
        while k < args.len()
            invariant
                k <= args@.len(),
                flag@ == "--skip-menu"@,
                forall|i: int| 0 <= i < k ==> (#[trigger] args@[i])@ != "--skip-menu"@,
            decreases args@.len() - k,
        {
            if args[k] == flag {
                return AppState::Game;
            }
            k = k + 1;
        }
        AppState::Menu
    }
}

} // verus!
