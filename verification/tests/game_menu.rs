use slots_from_hell::game_menu::{
    button_system, countdown, display_quality_options, game, initial_settings, main_menu_buttons,
    menu_action, menu_setup, pause, pause_menu_buttons, player_input, setting_button,
    settings_menu_buttons, volume_options, ButtonColor, DisplayQuality, GameState, InGame,
    Interaction, MenuButtonAction, MenuRequests, MenuState, Volume,
};

#[test]
fn states_start_on_the_splash_screen_without_menu() {
    assert_eq!(GameState::default(), GameState::Splash);
    assert_eq!(MenuState::default(), MenuState::Disabled);
    assert_eq!(initial_settings(), (DisplayQuality::Medium, Volume(7), InGame(false)));
}

#[test]
fn timers_move_the_game_on() {
    assert_eq!(countdown(false), None);
    assert_eq!(countdown(true), Some(GameState::Menu));
    assert_eq!(game(false), None);
    assert_eq!(game(true), Some(GameState::Playing));
    assert_eq!(menu_setup(), MenuState::Main);
}

#[test]
fn escape_pauses_the_game() {
    assert_eq!(player_input(true), Some((GameState::Pause, MenuState::Pause)));
    assert_eq!(player_input(false), None);
    assert_eq!(pause(true, InGame(true)), Some(GameState::Pause));
    assert_eq!(pause(true, InGame(false)), None);
    assert_eq!(pause(false, InGame(true)), None);
}

#[test]
fn each_pressed_button_does_its_action() {
    let cases = [
        (MenuButtonAction::Play, Some(GameState::Game), Some(MenuState::Disabled), false),
        (MenuButtonAction::Continue, Some(GameState::Game), Some(MenuState::Disabled), false),
        (MenuButtonAction::Settings, None, Some(MenuState::Settings), false),
        (MenuButtonAction::SettingsDisplay, None, Some(MenuState::SettingsDisplay), false),
        (MenuButtonAction::SettingsSound, None, Some(MenuState::SettingsSound), false),
        (MenuButtonAction::BackToMainMenu, None, Some(MenuState::Main), false),
        (MenuButtonAction::BackToSettings, None, Some(MenuState::Settings), false),
        (MenuButtonAction::Quit, None, None, true),
    ];
    for (action, game, menu, quit) in cases {
        assert_eq!(menu_action(&vec![(Interaction::Pressed, action)]), MenuRequests { game, menu, quit });
    }
}

#[test]
fn hovered_or_idle_buttons_do_nothing() {
    let changes = vec![(Interaction::Hovered, MenuButtonAction::Quit), (Interaction::Idle, MenuButtonAction::Play)];
    assert_eq!(menu_action(&changes), MenuRequests { game: None, menu: None, quit: false });
    assert_eq!(menu_action(&vec![]), MenuRequests { game: None, menu: None, quit: false });
}

#[test]
fn the_last_pressed_button_wins_and_quit_stays() {
    let changes = vec![
        (Interaction::Pressed, MenuButtonAction::Play),
        (Interaction::Pressed, MenuButtonAction::Quit),
        (Interaction::Pressed, MenuButtonAction::Settings),
        (Interaction::Hovered, MenuButtonAction::BackToMainMenu),
    ];
    assert_eq!(
        menu_action(&changes),
        MenuRequests { game: Some(GameState::Game), menu: Some(MenuState::Settings), quit: true }
    );
}

#[test]
fn buttons_are_coloured_by_interaction_and_selection() {
    assert_eq!(button_system(Interaction::Pressed, false), ButtonColor::Pressed);
    assert_eq!(button_system(Interaction::Pressed, true), ButtonColor::Pressed);
    assert_eq!(button_system(Interaction::Idle, true), ButtonColor::Pressed);
    assert_eq!(button_system(Interaction::Hovered, true), ButtonColor::HoveredPressed);
    assert_eq!(button_system(Interaction::Hovered, false), ButtonColor::Hovered);
    assert_eq!(button_system(Interaction::Idle, false), ButtonColor::Normal);
}

#[test]
fn pressing_another_quality_selects_it() {
    let changes = vec![(Interaction::Pressed, DisplayQuality::High, 30u64)];
    let change = setting_button(DisplayQuality::Medium, 20, &changes);
    assert_eq!(change.setting, DisplayQuality::High);
    assert_eq!(change.deselect, Some(20));
    assert_eq!(change.select, vec![30]);
}

#[test]
fn pressing_the_current_setting_changes_nothing() {
    let changes = vec![(Interaction::Pressed, Volume(7), 7u64), (Interaction::Hovered, Volume(3), 3u64)];
    let change = setting_button(Volume(7), 7, &changes);
    assert_eq!(change.setting, Volume(7));
    assert_eq!(change.deselect, None);
    assert!(change.select.is_empty());
}

#[test]
fn several_presses_end_on_the_last_one() {
    let changes = vec![
        (Interaction::Pressed, Volume(2), 2u64),
        (Interaction::Pressed, Volume(2), 2u64),
        (Interaction::Pressed, Volume(9), 9u64),
    ];
    let change = setting_button(Volume(7), 7, &changes);
    assert_eq!(change.setting, Volume(9));
    assert_eq!(change.deselect, Some(7));
    assert_eq!(change.select, vec![2, 9]);
}

#[test]
fn menus_list_their_options() {
    assert_eq!(
        display_quality_options(DisplayQuality::Medium),
        vec![(DisplayQuality::Low, false), (DisplayQuality::Medium, true), (DisplayQuality::High, false)]
    );
    let volumes = volume_options(Volume(7));
    assert_eq!(volumes.len(), 10);
    for (i, (v, selected)) in volumes.iter().enumerate() {
        assert_eq!(v.0 as usize, i);
        assert_eq!(*selected, i == 7);
    }
    let labels = |b: Vec<(MenuButtonAction, String)>| b.into_iter().map(|(a, l)| (a, l)).collect::<Vec<_>>();
    assert_eq!(
        labels(main_menu_buttons()),
        vec![
            (MenuButtonAction::Play, "New Game".to_string()),
            (MenuButtonAction::Settings, "Settings".to_string()),
            (MenuButtonAction::Quit, "Quit".to_string()),
        ]
    );
    assert_eq!(pause_menu_buttons()[0], (MenuButtonAction::Continue, "Continue".to_string()));
    assert_eq!(
        settings_menu_buttons(),
        vec![
            (MenuButtonAction::SettingsDisplay, "Display".to_string()),
            (MenuButtonAction::SettingsSound, "Sound".to_string()),
            (MenuButtonAction::BackToMainMenu, "Back".to_string()),
        ]
    );
}
