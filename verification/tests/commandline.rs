use layer_console::commandline::{
    command_args, launch_command, start_window, update_window, Options, Settings,
};
use layer_console::config::{Config, KeyboardMode, Position};
use layer_console::placement;
use layer_console::placement::{Edge, Transition};
use layer_console::window;
use layer_console::window::{Action, LayerConsoleWindow, Page};

fn strings(items: &[&str]) -> Vec<String> {
    items.iter().map(|s| s.to_string()).collect()
}

fn anchors(top: bool, bottom: bool, left: bool, right: bool) -> Vec<Action> {
    vec![
        Action::SetAnchor { edge: Edge::Top, anchored: top },
        Action::SetAnchor { edge: Edge::Bottom, anchored: bottom },
        Action::SetAnchor { edge: Edge::Left, anchored: left },
        Action::SetAnchor { edge: Edge::Right, anchored: right },
    ]
}

fn no_settings() -> Settings {
    Settings {
        working_directory: None,
        rows: None,
        columns: None,
        font: None,
        position: None,
        keyboard_mode: None,
        shell: None,
    }
}

#[test]
fn invocation_without_arguments_asks_for_nothing() {
    let options = Options::default();
    assert!(!options.command);
    assert_eq!(options.position(), None);
    assert_eq!(options.keyboard_mode(), None);
    assert_eq!(options.rows(), None);
    assert_eq!(options.columns(), None);
    assert_eq!(options.font, None);
    assert_eq!(options.working_directory, None);
}

#[test]
fn position_flags_go_top_bottom_left_right() {
    let mut options = Options::default();
    options.right = true;
    assert_eq!(options.position(), Some(Position::Right));
    options.left = true;
    assert_eq!(options.position(), Some(Position::Left));
    options.bottom = true;
    assert_eq!(options.position(), Some(Position::Bottom));
    options.top = true;
    assert_eq!(options.position(), Some(Position::Top));
}

#[test]
fn exclusive_flag_goes_before_on_demand() {
    let mut options = Options::default();
    options.on_demand = true;
    assert_eq!(options.keyboard_mode(), Some(KeyboardMode::OnDemand));
    options.exclusive = true;
    assert_eq!(options.keyboard_mode(), Some(KeyboardMode::Exclusive));
    options.on_demand = false;
    assert_eq!(options.keyboard_mode(), Some(KeyboardMode::Exclusive));
}

#[test]
fn rows_and_columns_are_widened() {
    let mut options = Options::default();
    options.rows = Some(i32::MAX);
    options.columns = Some(i32::MIN);
    assert_eq!(options.rows(), Some(2147483647));
    assert_eq!(options.columns(), Some(-2147483648));
}

#[test]
fn command_line_wins_over_the_file() {
    let mut options = Options::default();
    options.working_directory = Some("/cli".to_string());
    options.rows = Some(10);
    options.columns = Some(20);
    options.font = Some("Cli 9".to_string());
    options.left = true;
    options.on_demand = true;
    let config = Config {
        shell: Some("/bin/zsh".to_string()),
        working_directory: Some("/file".to_string()),
        rows: Some(30),
        columns: Some(40),
        font: Some("File 12".to_string()),
        position: Some(Position::Bottom),
        keyboard_mode: Some(KeyboardMode::Exclusive),
    };
    assert_eq!(
        options.merge(config),
        Settings {
            working_directory: Some("/cli".to_string()),
            rows: Some(10),
            columns: Some(20),
            font: Some("Cli 9".to_string()),
            position: Some(Position::Left),
            keyboard_mode: Some(KeyboardMode::OnDemand),
            shell: Some("/bin/zsh".to_string()),
        }
    );
}

#[test]
fn file_fills_in_what_the_command_line_leaves_open() {
    let mut options = Options::default();
    options.rows = Some(10);
    let config = Config {
        shell: None,
        working_directory: Some("/file".to_string()),
        rows: Some(30),
        columns: Some(40),
        font: Some("File 12".to_string()),
        position: Some(Position::Bottom),
        keyboard_mode: Some(KeyboardMode::Exclusive),
    };
    assert_eq!(
        options.merge(config),
        Settings {
            working_directory: Some("/file".to_string()),
            rows: Some(10),
            columns: Some(40),
            font: Some("File 12".to_string()),
            position: Some(Position::Bottom),
            keyboard_mode: Some(KeyboardMode::Exclusive),
            shell: None,
        }
    );
    assert_eq!(Options::default().merge(Config::default()), no_settings());
}

#[test]
fn command_is_what_follows_the_program_name() {
    assert_eq!(
        command_args(&strings(&["layer-console", "-e", "htop", "-d", "5"])),
        strings(&["-e", "htop", "-d", "5"])
    );
    assert_eq!(command_args(&strings(&["layer-console"])), strings(&[]));
    assert_eq!(command_args(&strings(&[])), strings(&[]));
}

#[test]
fn first_separator_is_removed_from_the_command() {
    assert_eq!(
        command_args(&strings(&["layer-console", "--", "vim", "notes"])),
        strings(&["vim", "notes"])
    );
    assert_eq!(
        command_args(&strings(&["layer-console", "-e", "--", "git", "log", "--", "src"])),
        strings(&["-e", "git", "log", "--", "src"])
    );
    assert_eq!(
        command_args(&strings(&["layer-console", "top", "--"])),
        strings(&["top"])
    );
    assert_eq!(
        command_args(&strings(&["layer-console", "--", "--"])),
        strings(&["--"])
    );
}

#[test]
fn separator_in_place_of_the_program_name_stays_out_of_it() {
    assert_eq!(command_args(&strings(&["--", "a", "--", "b"])), strings(&["a", "b"]));
    assert_eq!(command_args(&strings(&["--"])), strings(&[]));
    assert_eq!(command_args(&strings(&["x", "---", "-"])), strings(&["---", "-"]));
}

#[test]
fn new_window_runs_the_command_or_the_shell() {
    let arguments = strings(&["layer-console", "-e", "--", "htop"]);
    let mut options = Options::default();
    assert_eq!(
        launch_command(&options, &arguments, "/bin/bash".to_string()),
        strings(&["/bin/bash"])
    );
    options.command = true;
    assert_eq!(
        launch_command(&options, &arguments, "/bin/bash".to_string()),
        strings(&["-e", "htop"])
    );
}

#[test]
fn further_invocation_without_options_only_toggles() {
    let mut window = LayerConsoleWindow::new();
    window.set_terminal_size(Some(100), Some(25), 1, 1);
    assert_eq!(
        update_window(&mut window, &Options::default(), false, 100, 25),
        vec![Action::Present]
    );
    assert_eq!(
        update_window(&mut window, &Options::default(), true, 100, 25),
        vec![
            Action::SetTransition(Transition::SlideUp),
            Action::ShowPage(Page::Empty)
        ]
    );
    assert_eq!(window.position(), placement::Position::Top);
    assert_eq!((window.columns(), window.rows()), (100, 25));
}

#[test]
fn further_invocation_applies_its_options_before_the_toggle() {
    let mut window = LayerConsoleWindow::new();
    let mut options = Options::default();
    options.font = Some("Mono 10".to_string());
    options.bottom = true;
    options.exclusive = true;
    options.columns = Some(132);
    let mut expected = vec![Action::SetFont("Mono 10".to_string())];
    expected.extend(anchors(false, true, false, false));
    expected.push(Action::SetCssClass(placement::Position::Bottom));
    expected.push(Action::SetKeyboardMode(window::KeyboardMode::Exclusive));
    expected.push(Action::SetSize { columns: 132, rows: 25 });
    expected.push(Action::SetTransition(Transition::SlideDown));
    expected.push(Action::ShowPage(Page::Empty));
    assert_eq!(update_window(&mut window, &options, true, 100, 25), expected);
    assert_eq!(window.position(), placement::Position::Bottom);
    assert_eq!((window.columns(), window.rows()), (132, 25));
}

#[test]
fn further_invocation_with_rows_alone_keeps_the_columns() {
    let mut window = LayerConsoleWindow::new();
    let mut options = Options::default();
    options.rows = Some(40);
    options.top = true;
    assert_eq!(
        update_window(&mut window, &options, false, 90, 20),
        vec![Action::SetSize { columns: 90, rows: 40 }, Action::Present]
    );
    assert_eq!((window.columns(), window.rows()), (90, 40));
}

#[test]
fn new_window_without_settings_gets_size_command_and_presentation() {
    let mut window = LayerConsoleWindow::new();
    assert_eq!(
        start_window(&mut window, no_settings(), strings(&["/bin/sh"]), 100, 25),
        vec![
            Action::SetSize { columns: 100, rows: 25 },
            Action::Spawn { working_directory: None, args: strings(&["/bin/sh"]) },
            Action::Present,
        ]
    );
    assert_eq!((window.columns(), window.rows()), (100, 25));
    assert_eq!(window.position(), placement::Position::Top);
    assert_eq!(window.working_directory(), None);
}

#[test]
fn new_window_is_set_up_with_all_settings_in_order() {
    let mut window = LayerConsoleWindow::new();
    let settings = Settings {
        working_directory: Some("/srv/www".to_string()),
        rows: Some(12),
        columns: None,
        font: Some("Terminus 14".to_string()),
        position: Some(Position::Right),
        keyboard_mode: Some(KeyboardMode::OnDemand),
        shell: Some("/bin/zsh".to_string()),
    };
    let mut expected = vec![
        Action::SetSize { columns: 100, rows: 12 },
        Action::SetFont("Terminus 14".to_string()),
    ];
    expected.extend(anchors(false, false, false, true));
    expected.push(Action::SetCssClass(placement::Position::Right));
    expected.push(Action::SetKeyboardMode(window::KeyboardMode::OnDemand));
    expected.push(Action::Spawn {
        working_directory: Some("/srv/www".to_string()),
        args: strings(&["/bin/zsh"]),
    });
    expected.push(Action::Present);
    assert_eq!(
        start_window(&mut window, settings, strings(&["/bin/zsh"]), 100, 25),
        expected
    );
    assert_eq!(window.working_directory(), Some("/srv/www".to_string()));
    assert_eq!(window.position(), placement::Position::Right);
    assert_eq!((window.columns(), window.rows()), (100, 12));
}

#[test]
fn new_window_asked_to_stay_at_the_top_moves_nothing() {
    let mut window = LayerConsoleWindow::new();
    let mut settings = no_settings();
    settings.position = Some(Position::Top);
    assert_eq!(
        start_window(&mut window, settings, strings(&["sh"]), 80, 24),
        vec![
            Action::SetSize { columns: 80, rows: 24 },
            Action::Spawn { working_directory: None, args: strings(&["sh"]) },
            Action::Present,
        ]
    );
}
