//! What an invocation asks for: the options of the command line, how they
//! combine with the configuration file, and the steps that bring a window
//! into the requested state.

use crate::config;
use crate::config::Config;
use crate::placement;
use crate::window::{
    lemma_steps_concat, lemma_steps_push, position_steps, steps, text_of, texts_of,
    toggle_steps, Action, LayerConsoleWindow, Step, WindowState,
};
use vstd::prelude::*;

verus! {

/// The options of one invocation, as the option parser found them.
#[derive(Clone, Debug, PartialEq, Eq)]
pub struct Options {
    /// `--command`: run the remaining arguments in place of the shell.
    pub command: bool,
    /// `--working-directory`.
    pub working_directory: Option<String>,
    /// `--rows`.
    pub rows: Option<i32>,
    /// `--columns`.
    pub columns: Option<i32>,
    /// `--font`.
    pub font: Option<String>,
    /// `--top`.
    pub top: bool,
    /// `--bottom`.
    pub bottom: bool,
    /// `--left`.
    pub left: bool,
    /// `--right`.
    pub right: bool,
    /// `--exclusive`.
    pub exclusive: bool,
    /// `--on-demand`.
    pub on_demand: bool,
}

impl Options {
    /// The options of an invocation without arguments.
    pub open spec fn unset() -> Options {
        Options {
            command: false,
            working_directory: None,
            rows: None,
            columns: None,
            font: None,
            top: false,
            bottom: false,
            left: false,
            right: false,
            exclusive: false,
            on_demand: false,
        }
    }
}

impl Default for Options {
    fn default() -> (options: Options)
        ensures
            options == Options::unset(),
    {
        Options {
            command: false,
            working_directory: None,
            rows: None,
            columns: None,
            font: None,
            top: false,
            bottom: false,
            left: false,
            right: false,
            exclusive: false,
            on_demand: false,
        }
    }
}

/// What a new window is set up with, once the command line and the
/// configuration file are combined.
#[derive(Clone, Debug, PartialEq, Eq)]
pub struct Settings {
    pub working_directory: Option<String>,
    pub rows: Option<i64>,
    pub columns: Option<i64>,
    pub font: Option<String>,
    pub position: Option<config::Position>,
    pub keyboard_mode: Option<config::KeyboardMode>,
    /// The shell that the configuration file names.
    pub shell: Option<String>,
}

/// The value that wins where two sources may set it: the one given last, on
/// the command line, and the one from the file only where that is missing.
pub open spec fn overriding<T>(given: Option<T>, configured: Option<T>) -> Option<T> {
    if given is Some {
        given
    } else {
        configured
    }
}

/// A 32-bit option value as a 64-bit one.
pub open spec fn widened(value: Option<i32>) -> Option<i64> {
    match value {
        Some(n) => Some(n as i64),
        None => None,
    }
}

impl Options {
    /// The position that the flags ask for. Where several are given, top
    /// goes before bottom, bottom before left, and left before right.
    pub open spec fn requested_position(self) -> Option<config::Position> {
        if self.top {
            Some(config::Position::Top)
        } else if self.bottom {
            Some(config::Position::Bottom)
        } else if self.left {
            Some(config::Position::Left)
        } else if self.right {
            Some(config::Position::Right)
        } else {
            None
        }
    }

    /// The keyboard mode that the flags ask for. Exclusive goes before
    /// on-demand.
    pub open spec fn requested_keyboard_mode(self) -> Option<config::KeyboardMode> {
        if self.exclusive {
            Some(config::KeyboardMode::Exclusive)
        } else if self.on_demand {
            Some(config::KeyboardMode::OnDemand)
        } else {
            None
        }
    }

    /// The settings that result where `configured` is what the file holds.
    pub open spec fn combined(self, configured: Config) -> Settings {
        Settings {
            working_directory: overriding(self.working_directory, configured.working_directory),
            rows: overriding(widened(self.rows), configured.rows),
            columns: overriding(widened(self.columns), configured.columns),
            font: overriding(self.font, configured.font),
            position: overriding(self.requested_position(), configured.position),
            keyboard_mode: overriding(self.requested_keyboard_mode(), configured.keyboard_mode),
            shell: configured.shell,
        }
    }

    /// The position that the flags ask for, if any.
    pub fn position(&self) -> (position: Option<config::Position>)
        ensures
            position == self.requested_position(),
    {
        if self.top {
            Some(config::Position::Top)
        } else if self.bottom {
            Some(config::Position::Bottom)
        } else if self.left {
            Some(config::Position::Left)
        } else if self.right {
            Some(config::Position::Right)
        } else {
            None
        }
    }

    /// The keyboard mode that the flags ask for, if any.
    pub fn keyboard_mode(&self) -> (mode: Option<config::KeyboardMode>)
        ensures
            mode == self.requested_keyboard_mode(),
    {
        if self.exclusive {
            Some(config::KeyboardMode::Exclusive)
        } else if self.on_demand {
            Some(config::KeyboardMode::OnDemand)
        } else {
            None
        }
    }

    /// `--rows`, widened.
    pub fn rows(&self) -> (rows: Option<i64>)
        ensures
            rows == widened(self.rows),
    {
        match self.rows {
            Some(n) => Some(n as i64),
            None => None,
        }
    }

    /// `--columns`, widened.
    pub fn columns(&self) -> (columns: Option<i64>)
        ensures
            columns == widened(self.columns),
    {
        match self.columns {
            Some(n) => Some(n as i64),
            None => None,
        }
    }

    /// Combines the command line with the configuration file. What the
    /// command line gives wins; the file fills in the rest.
    pub fn merge(&self, configured: Config) -> (settings: Settings)
        ensures
            settings == self.combined(configured),
    {
        let working_directory = match &self.working_directory {
            Some(directory) => Some(directory.clone()),
            None => configured.working_directory,
        };
        let font = match &self.font {
            Some(font) => Some(font.clone()),
            None => configured.font,
        };
        let rows = match self.rows() {
            Some(n) => Some(n),
            None => configured.rows,
        };
        let columns = match self.columns() {
            Some(n) => Some(n),
            None => configured.columns,
        };
        let position = match self.position() {
            Some(position) => Some(position),
            None => configured.position,
        };
        let keyboard_mode = match self.keyboard_mode() {
            Some(mode) => Some(mode),
            None => configured.keyboard_mode,
        };
        Settings {
            working_directory,
            rows,
            columns,
            font,
            position,
            keyboard_mode,
            shell: configured.shell,
        }
    }
}

/// Whether `index` is the place of the first `--` among `args`.
pub open spec fn is_first_separator(args: Seq<Seq<char>>, index: int) -> bool {
    &&& 0 <= index < args.len()
    &&& args[index] == "--"@
    &&& forall|j: int| 0 <= j < index ==> args[j] != "--"@
}

/// `args` without the first `--` among them.
pub open spec fn without_first_separator(args: Seq<Seq<char>>) -> Seq<Seq<char>> {
    if exists|i: int| is_first_separator(args, i) {
        args.remove(choose|i: int| is_first_separator(args, i))
    } else {
        args
    }
}

/// The command that the arguments of an invocation spell out: all of them but
/// the program's name, which comes first, and the first `--`.
pub open spec fn command_of(arguments: Seq<Seq<char>>) -> Seq<Seq<char>> {
    if arguments.len() > 0 {
        without_first_separator(arguments.skip(1))
    } else {
        arguments
    }
}

/// Without a `--` after the program's name, the command is all that follows
/// the name.
pub proof fn lemma_command_without_separator(arguments: Seq<Seq<char>>)
    requires
        arguments.len() > 0,
        forall|i: int| 1 <= i < arguments.len() ==> arguments[i] != "--"@,
    ensures
        command_of(arguments) == arguments.skip(1),
{
    let rest = arguments.skip(1);
    assert forall|i: int| !is_first_separator(rest, i) by {
        if 0 <= i < rest.len() {
            assert(rest[i] == arguments[i + 1]);
        }
    }
}

/// Where the first `--` after the program's name is the argument at `index`,
/// the command is all that follows the name but that argument. A later `--`
/// stays.
pub proof fn lemma_command_with_separator(arguments: Seq<Seq<char>>, index: int)
    requires
        1 <= index < arguments.len(),
        arguments[index] == "--"@,
        forall|i: int| 1 <= i < index ==> arguments[i] != "--"@,
    ensures
        command_of(arguments) == arguments.skip(1).remove(index - 1),
{
    let rest = arguments.skip(1);
    assert(is_first_separator(rest, index - 1)) by {
        assert(rest[index - 1] == arguments[index]);
        assert forall|j: int| 0 <= j < index - 1 implies rest[j] != "--"@ by {
            assert(rest[j] == arguments[j + 1]);
        }
    }
    let chosen = choose|k: int| is_first_separator(rest, k);
    assert(chosen == index - 1) by {
        if chosen < index - 1 {
            assert(rest[chosen] != "--"@);
        }
        if index - 1 < chosen {
            assert(rest[index - 1] != "--"@);
        }
    }
}

/// The command to run in the terminal, taken from the arguments of the
/// invocation.
pub fn command_args(arguments: &Vec<String>) -> (command: Vec<String>)
    ensures
        texts_of(command@) == command_of(texts_of(arguments@)),
{
    let separator = "--".to_owned();
    let mut command: Vec<String> = Vec::new();
    if arguments.len() == 0 {
        proof {
            assert(texts_of(command@) =~= texts_of(arguments@));
        }
        return command;
    }
    let ghost rest = texts_of(arguments@).skip(1);
    let ghost mut first: int = -1;
    let mut removed = false;
    let mut i: usize = 1;
    while i < arguments.len()
        invariant
            1 <= i <= arguments.len(),
            separator@ == "--"@,
            rest == texts_of(arguments@).skip(1),
            !removed ==> texts_of(command@) == rest.take(i - 1),
            !removed ==> forall|j: int| 0 <= j < i - 1 ==> rest[j] != "--"@,
            removed ==> is_first_separator(rest, first) && first < i - 1,
            removed ==> texts_of(command@) == rest.take(i - 1).remove(first),
        decreases arguments.len() - i,
    {
        let ghost before = command@;
        assert(rest[i - 1] == arguments@[i as int]@);
        if !removed && arguments[i].eq(&separator) {
            removed = true;
            proof {
                first = i - 1;
                assert(rest.take(i as int).remove(first) =~= rest.take(i - 1));
            }
        } else {
            command.push(arguments[i].clone());
            proof {
                assert(texts_of(command@) =~= texts_of(before).push(arguments@[i as int]@));
                if removed {
                    assert(rest.take(i as int).remove(first) =~= rest.take(i - 1).remove(
                        first,
                    ).push(rest[i - 1]));
                } else {
                    assert(rest.take(i as int) =~= rest.take(i - 1).push(rest[i - 1]));
                }
            }
        }
        i += 1;
    }
    proof {
        let all = texts_of(arguments@);
        assert(rest.take(i - 1) =~= rest);
        if removed {
            assert(all[first + 1] == rest[first]);
            assert forall|j: int| 1 <= j < first + 1 implies all[j] != "--"@ by {
                assert(all[j] == rest[j - 1]);
            }
            lemma_command_with_separator(all, first + 1);
        } else {
            assert forall|j: int| 1 <= j < all.len() implies all[j] != "--"@ by {
                assert(all[j] == rest[j - 1]);
            }
            lemma_command_without_separator(all);
        }
    }
    command
}

/// The command that a new window runs: the one on the command line where
/// `--command` is given, else the shell alone.
pub fn launch_command(options: &Options, arguments: &Vec<String>, shell: String) -> (command: Vec<
    String,
>)
    ensures
        texts_of(command@) == if options.command {
            command_of(texts_of(arguments@))
        } else {
            seq![shell@]
        },
{
    if options.command {
        command_args(arguments)
    } else {
        let mut command = Vec::new();
        command.push(shell);
        proof {
            assert(texts_of(command@) =~= seq![shell@]);
        }
        command
    }
}

/// The request for a font, where one is asked for.
pub open spec fn font_steps(font: Option<String>) -> Seq<Step> {
    match font {
        Some(font) => seq![Step::SetFont(font@)],
        None => seq![],
    }
}

/// The requests that move the console from `current`, where a position is
/// asked for.
pub open spec fn placement_steps(
    current: placement::Position,
    position: Option<config::Position>,
) -> Seq<Step> {
    match position {
        Some(position) => position_steps(current, position.placement()),
        None => seq![],
    }
}

/// The request for a keyboard mode, where one is asked for.
pub open spec fn keyboard_steps(mode: Option<config::KeyboardMode>) -> Seq<Step> {
    match mode {
        Some(mode) => seq![Step::SetKeyboardMode(mode.mode())],
        None => seq![],
    }
}

/// The request for the terminal size where `columns` and `rows` are asked for
/// and the terminal now has `current_columns` and `current_rows`.
pub open spec fn size_step(
    columns: Option<i64>,
    rows: Option<i64>,
    current_columns: i64,
    current_rows: i64,
) -> Step {
    Step::SetSize {
        columns: columns.unwrap_or(current_columns),
        rows: rows.unwrap_or(current_rows),
    }
}

/// The position of a window at `current` once `position` was asked for.
pub open spec fn placed(
    current: placement::Position,
    position: Option<config::Position>,
) -> placement::Position {
    match position {
        Some(position) => position.placement(),
        None => current,
    }
}

impl Options {
    /// Whether the options ask for a terminal size.
    pub open spec fn resizes(self) -> bool {
        self.columns is Some || self.rows is Some
    }

    /// The state in which these options leave a window that exists already.
    pub open spec fn updated(
        self,
        state: WindowState,
        current_columns: i64,
        current_rows: i64,
    ) -> WindowState {
        WindowState {
            position: placed(state.position, self.requested_position()),
            columns: if self.resizes() {
                widened(self.columns).unwrap_or(current_columns)
            } else {
                state.columns
            },
            rows: if self.resizes() {
                widened(self.rows).unwrap_or(current_rows)
            } else {
                state.rows
            },
            ..state
        }
    }

    /// What these options ask of a window that exists already: the font,
    /// the position and the keyboard mode as far as they are given, the size
    /// where a dimension is given, and then a toggle.
    pub open spec fn update_steps(
        self,
        state: WindowState,
        visible: bool,
        current_columns: i64,
        current_rows: i64,
    ) -> Seq<Step> {
        font_steps(self.font) + placement_steps(state.position, self.requested_position())
            + keyboard_steps(self.requested_keyboard_mode()) + (if self.resizes() {
            seq![
                size_step(
                    widened(self.columns),
                    widened(self.rows),
                    current_columns,
                    current_rows,
                ),
            ]
        } else {
            seq![]
        }) + toggle_steps(placed(state.position, self.requested_position()), visible)
    }
}

impl Settings {
    /// The state in which these settings leave a new window.
    pub open spec fn started(
        self,
        state: WindowState,
        current_columns: i64,
        current_rows: i64,
    ) -> WindowState {
        WindowState {
            working_directory: text_of(self.working_directory),
            position: placed(state.position, self.position),
            columns: self.columns.unwrap_or(current_columns),
            rows: self.rows.unwrap_or(current_rows),
            ..state
        }
    }

    /// What these settings ask of a new window: the size, then the font, the
    /// position and the keyboard mode as far as they are set, then the
    /// command in the working directory, and the window on screen.
    pub open spec fn start_steps(
        self,
        state: WindowState,
        command: Seq<Seq<char>>,
        current_columns: i64,
        current_rows: i64,
    ) -> Seq<Step> {
        seq![size_step(self.columns, self.rows, current_columns, current_rows)] + font_steps(
            self.font,
        ) + placement_steps(state.position, self.position) + keyboard_steps(self.keyboard_mode)
            + seq![
            Step::Spawn { working_directory: text_of(self.working_directory), args: command },
            Step::Present,
        ]
    }
}

/// Adds the request for `font`, where one is asked for.
fn request_font(actions: &mut Vec<Action>, window: &LayerConsoleWindow, font: &Option<String>)
    ensures
        steps(final(actions)@) == steps(old(actions)@) + font_steps(*font),
{
    if let Some(font) = font {
        let action = window.set_font(font.as_str());
        proof {
            lemma_steps_push(actions@, action);
        }
        actions.push(action);
    }
    assert(steps(actions@) =~= steps(old(actions)@) + font_steps(*font));
}

/// Moves the window to `position` and adds the requests for it, where one is
/// asked for.
fn request_position(
    actions: &mut Vec<Action>,
    window: &mut LayerConsoleWindow,
    position: Option<config::Position>,
)
    ensures
        final(window)@ == (WindowState {
            position: placed(old(window)@.position, position),
            ..old(window)@
        }),
        steps(final(actions)@) == steps(old(actions)@) + placement_steps(
            old(window)@.position,
            position,
        ),
{
    if let Some(position) = position {
        let mut moves = window.set_position(position.as_position());
        proof {
            lemma_steps_concat(actions@, moves@);
        }
        actions.append(&mut moves);
    }
    assert(steps(actions@) =~= steps(old(actions)@) + placement_steps(
        old(window)@.position,
        position,
    ));
}

/// Adds the request for `mode`, where one is asked for.
fn request_keyboard_mode(actions: &mut Vec<Action>, mode: Option<config::KeyboardMode>)
    ensures
        steps(final(actions)@) == steps(old(actions)@) + keyboard_steps(mode),
{
    if let Some(mode) = mode {
        let action = Action::SetKeyboardMode(mode.as_keyboard_mode());
        proof {
            lemma_steps_push(actions@, action);
        }
        actions.push(action);
    }
    assert(steps(actions@) =~= steps(old(actions)@) + keyboard_steps(mode));
}

/// Resizes the terminal and adds the request for it.
fn request_size(
    actions: &mut Vec<Action>,
    window: &mut LayerConsoleWindow,
    columns: Option<i64>,
    rows: Option<i64>,
    current_columns: i64,
    current_rows: i64,
)
    ensures
        final(window)@ == (WindowState {
            columns: columns.unwrap_or(current_columns),
            rows: rows.unwrap_or(current_rows),
            ..old(window)@
        }),
        steps(final(actions)@) == steps(old(actions)@) + seq![
            size_step(columns, rows, current_columns, current_rows),
        ],
{
    let action = window.set_terminal_size(columns, rows, current_columns, current_rows);
    proof {
        lemma_steps_push(actions@, action);
    }
    actions.push(action);
    assert(steps(actions@) =~= steps(old(actions)@) + seq![
        size_step(columns, rows, current_columns, current_rows),
    ]);
}

/// Applies the options of a further invocation to the window that exists
/// already, and toggles it.
///
/// `visible` says whether the window is on screen; `current_columns` and
/// `current_rows` are the size that the terminal has now.
pub fn update_window(
    window: &mut LayerConsoleWindow,
    options: &Options,
    visible: bool,
    current_columns: i64,
    current_rows: i64,
) -> (actions: Vec<Action>)
    ensures
        final(window)@ == options.updated(old(window)@, current_columns, current_rows),
        steps(actions@) == options.update_steps(
            old(window)@,
            visible,
            current_columns,
            current_rows,
        ),
{
    let mut actions: Vec<Action> = Vec::new();
    assert(steps(actions@) =~= Seq::<Step>::empty());
    request_font(&mut actions, window, &options.font);
    request_position(&mut actions, window, options.position());
    request_keyboard_mode(&mut actions, options.keyboard_mode());
    if options.columns.is_some() || options.rows.is_some() {
        request_size(
            &mut actions,
            window,
            options.columns(),
            options.rows(),
            current_columns,
            current_rows,
        );
    }
    let mut toggles = window.toggle(visible);
    proof {
        lemma_steps_concat(actions@, toggles@);
    }
    actions.append(&mut toggles);
    proof {
        assert(steps(actions@) =~= options.update_steps(
            old(window)@,
            visible,
            current_columns,
            current_rows,
        ));
    }
    actions
}

/// Sets up a new window with `settings` and starts `command` in it.
///
/// `current_columns` and `current_rows` are the size that the terminal has
/// now; a dimension that the settings leave open stays as it is.
pub fn start_window(
    window: &mut LayerConsoleWindow,
    settings: Settings,
    command: Vec<String>,
    current_columns: i64,
    current_rows: i64,
) -> (actions: Vec<Action>)
    ensures
        final(window)@ == settings.started(old(window)@, current_columns, current_rows),
        steps(actions@) == settings.start_steps(
            old(window)@,
            texts_of(command@),
            current_columns,
            current_rows,
        ),
{
    let mut actions: Vec<Action> = Vec::new();
    assert(steps(actions@) =~= Seq::<Step>::empty());
    window.set_working_directory(settings.working_directory);
    request_size(
        &mut actions,
        window,
        settings.columns,
        settings.rows,
        current_columns,
        current_rows,
    );
    request_font(&mut actions, window, &settings.font);
    request_position(&mut actions, window, settings.position);
    request_keyboard_mode(&mut actions, settings.keyboard_mode);
    let ghost before = actions@;
    let spawn = window.spawn(command);
    actions.push(spawn);
    actions.push(Action::Present);
    proof {
        lemma_steps_push(before, spawn);
        lemma_steps_push(before.push(spawn), Action::Present);
        assert(steps(actions@) =~= settings.start_steps(
            old(window)@,
            texts_of(command@),
            current_columns,
            current_rows,
        ));
    }
    actions
}

} // verus!
