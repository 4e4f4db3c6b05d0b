use hub_game::state::AppState;

fn args(list: &[&str]) -> Vec<String> {
    list.iter().map(|s| s.to_string()).collect()
}

#[test]
fn skip_menu_flag_starts_the_game() {
    assert_eq!(AppState::from_args(&args(&["game", "--skip-menu"])), AppState::Game);
    assert_eq!(AppState::from_args(&args(&["--skip-menu", "x"])), AppState::Game);
}

#[test]
fn menu_is_the_default_start() {
    assert_eq!(AppState::from_args(&args(&[])), AppState::Menu);
    assert_eq!(AppState::from_args(&args(&["game", "--skip-menus", "skip-menu"])), AppState::Menu);
}
