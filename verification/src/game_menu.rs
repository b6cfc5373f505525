//! The game's screens as state machines: the game state (splash, menu, game, playing,
//! pause), the menu state, what each menu button does, how buttons are coloured, and how a
//! setting is chosen from a row of buttons.
use vstd::prelude::*;

verus! {

/// The current game state.
#[derive(Clone, Copy, Debug, PartialEq, Eq, Structural, Hash)]
pub enum GameState {
    /// Default `start screen` game state.
    Splash,
    /// Currently in the `main menu`.
    Menu,
    /// `Game` screen.
    Game,
    /// Currently `playing`.
    Playing,
    /// Actively `paused the game`.
    Pause,
}

impl Default for GameState {
    /// The game starts on the splash screen.
    fn default() -> (s: GameState)
        ensures
            s == GameState::Splash,
    {
        GameState::Splash
    }
}

/// The current menu state.
#[derive(Clone, Copy, Debug, PartialEq, Eq, Structural, Hash)]
pub enum MenuState {
    /// Main menu.
    Main,
    /// Pause menu.
    Pause,
    /// Settings menu.
    Settings,
    /// Settings display menu.
    SettingsDisplay,
    /// Settings sound menu.
    SettingsSound,
    /// No menu: default state.
    Disabled,
}

impl Default for MenuState {
    /// No menu is shown at first.
    fn default() -> (s: MenuState)
        ensures
            s == MenuState::Disabled,
    {
        MenuState::Disabled
    }
}

/// The display quality setting.
#[derive(Clone, Copy, Debug, PartialEq, Eq, Structural, Hash)]
pub enum DisplayQuality {
    Low,
    Medium,
    High,
}

/// The sound volume setting, from 0 to 9.
#[derive(Clone, Copy, Debug, PartialEq, Eq, Structural, Hash)]
pub struct Volume(pub u32);

/// Whether the player is in game.
#[derive(Clone, Copy, Debug, PartialEq, Eq, Structural)]
pub struct InGame(
    /// Boolean to check whether the `Player` is in game or not.
    pub bool,
);

/// The settings that the game starts with: medium quality, volume 7, not in game.
pub fn initial_settings() -> (s: (DisplayQuality, Volume, InGame))
    ensures
        s == (DisplayQuality::Medium, Volume(7), InGame(false)),
{
    (DisplayQuality::Medium, Volume(7), InGame(false))
}

/// The actions the menu buttons do.
#[derive(Clone, Copy, Debug, PartialEq, Eq, Structural)]
pub enum MenuButtonAction {
    /// `Play` the game.
    Play,
    /// `Continue` the game.
    Continue,
    /// Go into the `settings` menu.
    Settings,
    /// Go into the `settings display options` menu.
    SettingsDisplay,
    /// Go into the `settings sound options` menu.
    SettingsSound,
    /// Go from the `settings menu` back to the `main menu`.
    BackToMainMenu,
    /// Go from the `settings display` or `settings sound` options back to the `settings menu`.
    BackToSettings,
    /// `Quit` the game.
    Quit,
}

/// How the pointer is interacting with a button.
#[derive(Clone, Copy, Debug, PartialEq, Eq, Structural)]
pub enum Interaction {
    Pressed,
    Hovered,
    Idle,
}

/// The colour a button is drawn with.
#[derive(Clone, Copy, Debug, PartialEq, Eq, Structural)]
pub enum ButtonColor {
    Normal,
    Hovered,
    HoveredPressed,
    Pressed,
}

// ---------------------------------------------------------------------------------------------
// Game state transitions
// ---------------------------------------------------------------------------------------------

/// On the splash screen: once its timer has run out, go to the menu.
pub fn countdown(timer_finished: bool) -> (next: Option<GameState>)
    ensures
        next == (if timer_finished { Some(GameState::Menu) } else { None::<GameState> }),
{
    if timer_finished { Some(GameState::Menu) } else { None }
}

/// On the game screen: once its timer has run out, start playing.
pub fn game(timer_finished: bool) -> (next: Option<GameState>)
    ensures
        next == (if timer_finished { Some(GameState::Playing) } else { None::<GameState> }),
{
    if timer_finished { Some(GameState::Playing) } else { None }
}

/// On entering the menu: show the main menu.
pub fn menu_setup() -> (next: MenuState)
    ensures
        next == MenuState::Main,
{
    MenuState::Main
}

/// While playing: Escape pauses the game and opens the pause menu.
pub fn player_input(escape_pressed: bool) -> (next: Option<(GameState, MenuState)>)
    ensures
        next == (if escape_pressed { Some((GameState::Pause, MenuState::Pause)) } else { None::<(GameState, MenuState)> }),
{
    if escape_pressed { Some((GameState::Pause, MenuState::Pause)) } else { None }
}

/// While playing: Escape pauses the game, when the player is in game.
pub fn pause(escape_pressed: bool, in_game: InGame) -> (next: Option<GameState>)
    ensures
        next == (if escape_pressed && in_game.0 { Some(GameState::Pause) } else { None::<GameState> }),
{
    if escape_pressed && in_game.0 { Some(GameState::Pause) } else { None }
}

// ---------------------------------------------------------------------------------------------
// Menu buttons
// ---------------------------------------------------------------------------------------------

/// What the menu asks for after one frame: the next game state and next menu state to switch
/// to, when one was set, and whether to quit.
#[derive(Clone, Copy, Debug, PartialEq, Eq, Structural)]
pub struct MenuRequests {
    pub game: Option<GameState>,
    pub menu: Option<MenuState>,
    pub quit: bool,
}

/// What one pressed button asks for.
pub open spec fn action_effect(action: MenuButtonAction) -> MenuRequests {
    match action {
        MenuButtonAction::Quit => MenuRequests { game: None, menu: None, quit: true },
        MenuButtonAction::Play => MenuRequests { game: Some(GameState::Game), menu: Some(MenuState::Disabled), quit: false },
        MenuButtonAction::Continue => MenuRequests { game: Some(GameState::Game), menu: Some(MenuState::Disabled), quit: false },
        MenuButtonAction::Settings => MenuRequests { game: None, menu: Some(MenuState::Settings), quit: false },
        MenuButtonAction::SettingsDisplay => MenuRequests { game: None, menu: Some(MenuState::SettingsDisplay), quit: false },
        MenuButtonAction::SettingsSound => MenuRequests { game: None, menu: Some(MenuState::SettingsSound), quit: false },
        MenuButtonAction::BackToMainMenu => MenuRequests { game: None, menu: Some(MenuState::Main), quit: false },
        MenuButtonAction::BackToSettings => MenuRequests { game: None, menu: Some(MenuState::Settings), quit: false },
    }
}

/// Requests `later` made after `earlier`: a state set later replaces one set earlier, and a
/// quit stays asked for.
pub open spec fn followed_by(earlier: MenuRequests, later: MenuRequests) -> MenuRequests {
    MenuRequests {
        game: if later.game is Some { later.game } else { earlier.game },
        menu: if later.menu is Some { later.menu } else { earlier.menu },
        quit: earlier.quit || later.quit,
    }
}

/// Nothing asked for.
pub open spec fn no_requests() -> MenuRequests {
    MenuRequests { game: None, menu: None, quit: false }
}

/// What the buttons whose interaction changed in one frame ask for, taken in order; only
/// pressed buttons act.
pub open spec fn frame_requests(changes: Seq<(Interaction, MenuButtonAction)>) -> MenuRequests
    decreases changes.len(),
{
    if changes.len() == 0 {
        no_requests()
    } else {
        let earlier = frame_requests(changes.drop_last());
        if changes.last().0 == Interaction::Pressed {
            followed_by(earlier, action_effect(changes.last().1))
        } else {
            earlier
        }
    }
}

fn effect_of(action: MenuButtonAction) -> (r: MenuRequests)
    ensures
        r == action_effect(action),
{
    match action {
        MenuButtonAction::Quit => MenuRequests { game: None, menu: None, quit: true },
        MenuButtonAction::Play => MenuRequests { game: Some(GameState::Game), menu: Some(MenuState::Disabled), quit: false },
        MenuButtonAction::Continue => MenuRequests { game: Some(GameState::Game), menu: Some(MenuState::Disabled), quit: false },
        MenuButtonAction::Settings => MenuRequests { game: None, menu: Some(MenuState::Settings), quit: false },
        MenuButtonAction::SettingsDisplay => MenuRequests { game: None, menu: Some(MenuState::SettingsDisplay), quit: false },
        MenuButtonAction::SettingsSound => MenuRequests { game: None, menu: Some(MenuState::SettingsSound), quit: false },
        MenuButtonAction::BackToMainMenu => MenuRequests { game: None, menu: Some(MenuState::Main), quit: false },
        MenuButtonAction::BackToSettings => MenuRequests { game: None, menu: Some(MenuState::Settings), quit: false },
    }
}

/// Handles the menu buttons whose interaction changed this frame, in order: each pressed
/// button sets the next game state and menu state it stands for, a later setting replacing an
/// earlier one, and Quit asks to leave the game.
pub fn menu_action(changes: &Vec<(Interaction, MenuButtonAction)>) -> (requests: MenuRequests)
    ensures
        requests == frame_requests(changes@),
{
    let mut requests = MenuRequests { game: None, menu: None, quit: false };
    let mut i: usize = 0;
    while i < changes.len()
        invariant
            0 <= i <= changes@.len(),
            requests == frame_requests(changes@.take(i as int)),
        decreases changes@.len() - i,
    {
        let (interaction, action) = changes[i];
        proof {
            assert(changes@.take(i + 1).drop_last() =~= changes@.take(i as int));
        }
        if interaction == Interaction::Pressed {
            let effect = effect_of(action);
            requests = MenuRequests {
                game: if effect.game.is_some() { effect.game } else { requests.game },
                menu: if effect.menu.is_some() { effect.menu } else { requests.menu },
                quit: requests.quit || effect.quit,
            };
        }
        i = i + 1;
    }
    assert(changes@.take(changes@.len() as int) =~= changes@);
    requests
}

/// Applies a frame's requests to the current game and menu states.
pub open spec fn apply_requests(state: (GameState, MenuState), r: MenuRequests) -> (GameState, MenuState) {
    (
        match r.game { Some(g) => g, None => state.0 },
        match r.menu { Some(m) => m, None => state.1 },
    )
}

/// In a frame where no button is pressed, the menu asks for nothing.
pub proof fn lemma_no_press_no_request(changes: Seq<(Interaction, MenuButtonAction)>)
    requires
        forall|i: int| 0 <= i < changes.len() ==> #[trigger] changes[i].0 != Interaction::Pressed,
    ensures
        frame_requests(changes) == no_requests(),
    decreases changes.len(),
{
    if changes.len() > 0 {
        lemma_no_press_no_request(changes.drop_last());
    }
}

/// Of the buttons pressed in one frame, the last one that sets the menu state decides it.
pub proof fn lemma_last_press_decides_menu(changes: Seq<(Interaction, MenuButtonAction)>, action: MenuButtonAction)
    requires
        action != MenuButtonAction::Quit,
    ensures
        frame_requests(changes.push((Interaction::Pressed, action))).menu == action_effect(action).menu,
{
    assert(changes.push((Interaction::Pressed, action)).drop_last() =~= changes);
}

/// Going into the display or sound options and pressing Back returns to the settings menu,
/// from whatever state the game was in.
pub proof fn lemma_settings_round_trip(state: (GameState, MenuState), into: MenuButtonAction)
    requires
        into == MenuButtonAction::SettingsDisplay || into == MenuButtonAction::SettingsSound,
    ensures
        apply_requests(
            apply_requests(state, frame_requests(seq![(Interaction::Pressed, into)])),
            frame_requests(seq![(Interaction::Pressed, MenuButtonAction::BackToSettings)]),
        ) == (state.0, MenuState::Settings),
{
    reveal_with_fuel(frame_requests, 2);
}

/// Play and Continue both start the game screen and close the menu.
pub proof fn lemma_play_and_continue_start_game(state: (GameState, MenuState), action: MenuButtonAction)
    requires
        action == MenuButtonAction::Play || action == MenuButtonAction::Continue,
    ensures
        apply_requests(state, frame_requests(seq![(Interaction::Pressed, action)])) == (GameState::Game, MenuState::Disabled),
        !frame_requests(seq![(Interaction::Pressed, action)]).quit,
{
    reveal_with_fuel(frame_requests, 2);
}

/// The colour of a button: pressed, or idle but the selected option, shows as pressed; a
/// hovered button is lighter, with a green tint when it is the selected option.
pub fn button_system(interaction: Interaction, selected: bool) -> (color: ButtonColor)
    ensures
        color == (match (interaction, selected) {
            (Interaction::Pressed, _) => ButtonColor::Pressed,
            (Interaction::Idle, true) => ButtonColor::Pressed,
            (Interaction::Hovered, true) => ButtonColor::HoveredPressed,
            (Interaction::Hovered, false) => ButtonColor::Hovered,
            (Interaction::Idle, false) => ButtonColor::Normal,
        }),
{
    match (interaction, selected) {
        (Interaction::Pressed, _) | (Interaction::Idle, true) => ButtonColor::Pressed,
        (Interaction::Hovered, true) => ButtonColor::HoveredPressed,
        (Interaction::Hovered, false) => ButtonColor::Hovered,
        (Interaction::Idle, false) => ButtonColor::Normal,
    }
}

// ---------------------------------------------------------------------------------------------
// Setting buttons
// ---------------------------------------------------------------------------------------------

/// A value that a row of setting buttons chooses between.
pub trait SettingValue: Copy {
    /// Whether two values are the same.
    fn same(&self, other: &Self) -> (r: bool)
        ensures
            r == (*self == *other),
    ;
}

impl SettingValue for DisplayQuality {
    fn same(&self, other: &Self) -> (r: bool) {
        *self == *other
    }
}

impl SettingValue for Volume {
    fn same(&self, other: &Self) -> (r: bool) {
        self.0 == other.0
    }
}

/// The setting after the button changes of a frame, taken in order: a pressed button whose
/// value differs from the current setting makes its value the setting.
pub open spec fn chosen_setting<T>(setting: T, changes: Seq<(Interaction, T, u64)>) -> T
    decreases changes.len(),
{
    if changes.len() == 0 {
        setting
    } else {
        let before = chosen_setting(setting, changes.drop_last());
        let (interaction, value, _) = changes.last();
        if interaction == Interaction::Pressed && before != value { value } else { before }
    }
}

/// The buttons that become the selected option in a frame, in order: each pressed button
/// whose value differed from the setting at that point.
pub open spec fn newly_selected<T>(setting: T, changes: Seq<(Interaction, T, u64)>) -> Seq<u64>
    decreases changes.len(),
{
    if changes.len() == 0 {
        Seq::empty()
    } else {
        let before = chosen_setting(setting, changes.drop_last());
        let earlier = newly_selected(setting, changes.drop_last());
        let (interaction, value, button) = changes.last();
        if interaction == Interaction::Pressed && before != value { earlier.push(button) } else { earlier }
    }
}

/// The value of the last pressed button among the changes, if any was pressed.
pub open spec fn last_pressed<T>(changes: Seq<(Interaction, T, u64)>) -> Option<T>
    decreases changes.len(),
{
    if changes.len() == 0 {
        None
    } else if changes.last().0 == Interaction::Pressed {
        Some(changes.last().1)
    } else {
        last_pressed(changes.drop_last())
    }
}

/// What a row of setting buttons does in one frame.
pub struct SettingChange<T> {
    /// The setting afterwards.
    pub setting: T,
    /// The button that was the selected option and is reset to the normal colour and
    /// unmarked, when any button was newly selected.
    pub deselect: Option<u64>,
    /// The buttons marked as the selected option, in order.
    pub select: Vec<u64>,
}

/// Handles the setting buttons whose interaction changed this frame (interaction, the value
/// the button stands for, the button), in order: a pressed button whose value differs from the
/// setting resets the colour of the previously selected button and unmarks it, marks itself as
/// the selected option, and makes its value the setting.
pub fn setting_button<T: SettingValue>(setting: T, selected: u64, changes: &Vec<(Interaction, T, u64)>) -> (change: SettingChange<T>)
    ensures
        change.setting == chosen_setting(setting, changes@),
        change.select@ == newly_selected(setting, changes@),
        change.deselect == (if change.select@.len() > 0 { Some(selected) } else { None::<u64> }),
{
    let mut current = setting;
    let mut select: Vec<u64> = Vec::new();
    let mut i: usize = 0;
    while i < changes.len()
        invariant
            0 <= i <= changes@.len(),
            current == chosen_setting(setting, changes@.take(i as int)),
            select@ == newly_selected(setting, changes@.take(i as int)),
        decreases changes@.len() - i,
    {
        let (interaction, value, button) = changes[i];
        proof {
            assert(changes@.take(i + 1).drop_last() =~= changes@.take(i as int));
        }
        if interaction == Interaction::Pressed && !current.same(&value) {
            select.push(button);
            current = value;
        }
        i = i + 1;
    }
    assert(changes@.take(changes@.len() as int) =~= changes@);
    let deselect = if select.len() > 0 { Some(selected) } else { None };
    SettingChange { setting: current, deselect, select }
}

/// After a frame, the setting is the value of the last pressed button, or the old setting
/// when no button was pressed; pressing the button of the current setting changes nothing.
pub proof fn lemma_setting_is_last_pressed<T>(setting: T, changes: Seq<(Interaction, T, u64)>)
    ensures
        chosen_setting(setting, changes) == (match last_pressed(changes) {
            Some(v) => v,
            None => setting,
        }),
    decreases changes.len(),
{
    if changes.len() > 0 {
        lemma_setting_is_last_pressed(setting, changes.drop_last());
    }
}

/// Pressing the button of the setting already chosen selects nothing new.
pub proof fn lemma_pressing_current_setting_is_idle<T>(setting: T, button: u64)
    ensures
        chosen_setting(setting, seq![(Interaction::Pressed, setting, button)]) == setting,
        newly_selected(setting, seq![(Interaction::Pressed, setting, button)]).len() == 0,
{
    reveal_with_fuel(chosen_setting, 2);
    reveal_with_fuel(newly_selected, 2);
}

/// The buttons marked as the selected option after a frame, from the buttons marked before,
/// the button that was the selected option and the buttons newly selected in the frame: when
/// any button was newly selected, the previous one is unmarked and the new ones are marked.
pub open spec fn marks_after(marked: Set<u64>, selected: u64, newly: Seq<u64>) -> Set<u64> {
    if newly.len() > 0 { marked.remove(selected).union(newly.to_set()) } else { marked }
}

/// At most one of the changes of a frame is a press.
pub open spec fn at_most_one_press<T>(changes: Seq<(Interaction, T, u64)>) -> bool {
    forall|i: int, j: int|
        0 <= i < changes.len() && 0 <= j < changes.len() && (#[trigger] changes[i]).0 == Interaction::Pressed
            && (#[trigger] changes[j]).0 == Interaction::Pressed ==> i == j
}

/// Changes without a press, after others, change neither the setting nor the selection.
proof fn lemma_unpressed_suffix<T>(setting: T, a: Seq<(Interaction, T, u64)>, b: Seq<(Interaction, T, u64)>)
    requires
        forall|i: int| 0 <= i < b.len() ==> (#[trigger] b[i]).0 != Interaction::Pressed,
    ensures
        chosen_setting(setting, a + b) == chosen_setting(setting, a),
        newly_selected(setting, a + b) == newly_selected(setting, a),
    decreases b.len(),
{
    if b.len() > 0 {
        assert((a + b).drop_last() =~= a + b.drop_last());
        assert((a + b).last() == b.last());
        lemma_unpressed_suffix(setting, a, b.drop_last());
    } else {
        assert(a + b =~= a);
    }
}

/// A row of setting buttons keeps exactly one button marked as the selected option, and that
/// button stands for the setting: if before a frame only the button `selected` is marked and it
/// stands for `setting`, and at most one button is pressed in the frame, then afterwards
/// exactly one button is marked, and it is either still `selected` with the setting unchanged,
/// or the pressed button, whose value is the new setting.
pub proof fn lemma_one_selected_option_kept<T>(setting: T, selected: u64, changes: Seq<(Interaction, T, u64)>)
    requires
        at_most_one_press(changes),
    ensures
        ({
            let value = chosen_setting(setting, changes);
            let marks = marks_after(set![selected], selected, newly_selected(setting, changes));
            (marks == set![selected] && value == setting) || exists|k: int|
                0 <= k < changes.len() && (#[trigger] changes[k]).0 == Interaction::Pressed && changes[k].1 == value
                    && marks == set![changes[k].2]
        }),
{
    let empty = Seq::<(Interaction, T, u64)>::empty();
    assert(chosen_setting(setting, empty) == setting);
    assert(newly_selected(setting, empty) =~= Seq::<u64>::empty());
    if exists|k: int| 0 <= k < changes.len() && (#[trigger] changes[k]).0 == Interaction::Pressed {
        let k = choose|k: int| 0 <= k < changes.len() && (#[trigger] changes[k]).0 == Interaction::Pressed;
        let a = changes.take(k);
        let x = changes[k];
        let b = changes.skip(k + 1);
        assert forall|i: int| 0 <= i < a.len() implies (#[trigger] a[i]).0 != Interaction::Pressed by {
            assert(a[i] == changes[i]);
        }
        assert forall|i: int| 0 <= i < b.len() implies (#[trigger] b[i]).0 != Interaction::Pressed by {
            assert(b[i] == changes[i + k + 1]);
        }
        lemma_unpressed_suffix(setting, empty, a);
        assert(empty + a =~= a);
        assert(a.push(x).drop_last() =~= a);
        assert(changes =~= a.push(x) + b);
        lemma_unpressed_suffix(setting, a.push(x), b);
        let marks = marks_after(set![selected], selected, newly_selected(setting, changes));
        if x.1 != setting {
            assert(newly_selected(setting, changes) =~= seq![x.2]);
            assert(seq![x.2].to_set() =~= set![x.2]) by {
                assert(seq![x.2][0] == x.2);
            }
            assert(marks =~= set![x.2]);
            assert(changes[k] == x);
        } else {
            assert(newly_selected(setting, changes) =~= Seq::<u64>::empty());
        }
    } else {
        assert forall|i: int| 0 <= i < changes.len() implies (#[trigger] changes[i]).0 != Interaction::Pressed by {}
        lemma_unpressed_suffix(setting, empty, changes);
        assert(empty + changes =~= changes);
    }
}

// ---------------------------------------------------------------------------------------------
// What the menus show
// ---------------------------------------------------------------------------------------------

/// The display quality buttons, in order, each with whether it is the selected option.
pub fn display_quality_options(current: DisplayQuality) -> (options: Vec<(DisplayQuality, bool)>)
    ensures
        options@ == seq![
            (DisplayQuality::Low, current == DisplayQuality::Low),
            (DisplayQuality::Medium, current == DisplayQuality::Medium),
            (DisplayQuality::High, current == DisplayQuality::High),
        ],
{
    let mut options: Vec<(DisplayQuality, bool)> = Vec::new();
    options.push((DisplayQuality::Low, current == DisplayQuality::Low));
    options.push((DisplayQuality::Medium, current == DisplayQuality::Medium));
    options.push((DisplayQuality::High, current == DisplayQuality::High));
    assert(options@ =~= seq![
        (DisplayQuality::Low, current == DisplayQuality::Low),
        (DisplayQuality::Medium, current == DisplayQuality::Medium),
        (DisplayQuality::High, current == DisplayQuality::High),
    ]);
    options
}

/// The volume buttons, for the volumes 0 to 9 in order, each with whether it is the
/// selected option.
pub fn volume_options(current: Volume) -> (options: Vec<(Volume, bool)>)
    ensures
        options@.len() == 10,
        forall|i: int| 0 <= i < 10 ==> #[trigger] options@[i] == (Volume(i as u32), current.0 == i),
{
    let mut options: Vec<(Volume, bool)> = Vec::new();
    let mut v: u32 = 0;
    while v <= 9
        invariant
            v <= 10,
            options@.len() == v,
            forall|i: int| 0 <= i < v ==> #[trigger] options@[i] == (Volume(i as u32), current.0 == i),
        decreases 10 - v,
    {
        options.push((Volume(v), current.0 == v));
        v = v + 1;
    }
    options
}

/// A menu button: what it does and its label.
pub type MenuButton = (MenuButtonAction, String);

/// The label of a menu button.
pub open spec fn button_view(b: MenuButton) -> (MenuButtonAction, Seq<char>) {
    (b.0, b.1@)
}

fn menu_button(action: MenuButtonAction, label: &str) -> (b: MenuButton)
    ensures
        button_view(b) == (action, label@),
{
    (action, label.to_owned())
}

/// The buttons of the main menu, top to bottom.
pub fn main_menu_buttons() -> (buttons: Vec<MenuButton>)
    ensures
        buttons@.map_values(|b: MenuButton| button_view(b)) == seq![
            (MenuButtonAction::Play, "New Game"@),
            (MenuButtonAction::Settings, "Settings"@),
            (MenuButtonAction::Quit, "Quit"@),
        ],
{
    let mut buttons: Vec<MenuButton> = Vec::new();
    buttons.push(menu_button(MenuButtonAction::Play, "New Game"));
    buttons.push(menu_button(MenuButtonAction::Settings, "Settings"));
    buttons.push(menu_button(MenuButtonAction::Quit, "Quit"));
    assert(buttons@.map_values(|b: MenuButton| button_view(b)) =~= seq![
        (MenuButtonAction::Play, "New Game"@),
        (MenuButtonAction::Settings, "Settings"@),
        (MenuButtonAction::Quit, "Quit"@),
    ]);
    buttons
}

/// The buttons of the pause menu, top to bottom.
pub fn pause_menu_buttons() -> (buttons: Vec<MenuButton>)
    ensures
        buttons@.map_values(|b: MenuButton| button_view(b)) == seq![
            (MenuButtonAction::Continue, "Continue"@),
            (MenuButtonAction::Settings, "Settings"@),
            (MenuButtonAction::Quit, "Quit"@),
        ],
{
    let mut buttons: Vec<MenuButton> = Vec::new();
    buttons.push(menu_button(MenuButtonAction::Continue, "Continue"));
    buttons.push(menu_button(MenuButtonAction::Settings, "Settings"));
    buttons.push(menu_button(MenuButtonAction::Quit, "Quit"));
    assert(buttons@.map_values(|b: MenuButton| button_view(b)) =~= seq![
        (MenuButtonAction::Continue, "Continue"@),
        (MenuButtonAction::Settings, "Settings"@),
        (MenuButtonAction::Quit, "Quit"@),
    ]);
    buttons
}

/// The buttons of the settings menu, top to bottom.
pub fn settings_menu_buttons() -> (buttons: Vec<MenuButton>)
    ensures
        buttons@.map_values(|b: MenuButton| button_view(b)) == seq![
            (MenuButtonAction::SettingsDisplay, "Display"@),
            (MenuButtonAction::SettingsSound, "Sound"@),
            (MenuButtonAction::BackToMainMenu, "Back"@),
        ],
{
    let mut buttons: Vec<MenuButton> = Vec::new();
    buttons.push(menu_button(MenuButtonAction::SettingsDisplay, "Display"));
    buttons.push(menu_button(MenuButtonAction::SettingsSound, "Sound"));
    buttons.push(menu_button(MenuButtonAction::BackToMainMenu, "Back"));
    assert(buttons@.map_values(|b: MenuButton| button_view(b)) =~= seq![
        (MenuButtonAction::SettingsDisplay, "Display"@),
        (MenuButtonAction::SettingsSound, "Sound"@),
        (MenuButtonAction::BackToMainMenu, "Back"@),
    ]);
    buttons
}

} // verus!
