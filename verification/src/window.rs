//! The console window as a state machine.
//!
//! A [`LayerConsoleWindow`] holds what the window remembers between events.
//! Every operation updates that state and answers with the [`Action`]s that
//! the toolkit has to carry out, in order.

use crate::placement::{Edge, Position, Transition};
use std::collections::HashSet;
use vstd::prelude::*;

verus! {

broadcast use vstd::std_specs::hash::group_hash_axioms;

/// Font of a freshly constructed terminal.
pub const DEFAULT_FONT: &'static str = "Monospace 13";

/// Height of a freshly constructed terminal, in character cells.
pub const DEFAULT_ROWS: i64 = 25;

/// Width of a freshly constructed terminal, in character cells.
pub const DEFAULT_COLUMNS: i64 = 100;

/// How the layer surface takes keyboard focus: for itself alone, or like an
/// ordinary window, when the user turns to it.
#[derive(Clone, Copy, Debug, PartialEq, Eq, Structural, Hash)]
pub enum KeyboardMode {
    Exclusive,
    OnDemand,
}

/// The two pages of the window: an empty one and the terminal. Sliding from
/// one to the other is what shows and hides the console.
#[derive(Clone, Copy, Debug, PartialEq, Eq, Structural, Hash)]
pub enum Page {
    Empty,
    Terminal,
}

impl Page {
    /// The name under which the window knows the page.
    pub open spec fn page_name(self) -> Seq<char> {
        match self {
            Page::Empty => "empty"@,
            Page::Terminal => "terminal"@,
        }
    }

    /// The name under which the window knows the page.
    pub fn name(&self) -> (name: &'static str)
        ensures
            name@ == self.page_name(),
    {
        match self {
            Page::Empty => "empty",
            Page::Terminal => "terminal",
        }
    }

    /// The page of this name, if there is one.
    pub fn from_name(name: &str) -> (page: Option<Page>)
        ensures
            page == if name@ == Page::Empty.page_name() {
                Some(Page::Empty)
            } else if name@ == Page::Terminal.page_name() {
                Some(Page::Terminal)
            } else {
                None
            },
    {
        let name = name.to_owned();
        if name.eq(&Page::Empty.name().to_owned()) {
            Some(Page::Empty)
        } else if name.eq(&Page::Terminal.name().to_owned()) {
            Some(Page::Terminal)
        } else {
            None
        }
    }
}

/// One request to the toolkit.
#[derive(Clone, Debug, PartialEq, Eq)]
pub enum Action {
    /// Attach the surface to `edge`, or detach it.
    SetAnchor { edge: Edge, anchored: bool },
    /// Replace the terminal's style classes by the class of this position.
    SetCssClass(Position),
    /// Change how the surface takes keyboard focus.
    SetKeyboardMode(KeyboardMode),
    /// Resize the terminal to this many character cells.
    SetSize { columns: i64, rows: i64 },
    /// Change the terminal font to the one this description names.
    SetFont(String),
    /// Choose the animation of the next page change.
    SetTransition(Transition),
    /// Make this page the visible one.
    ShowPage(Page),
    /// Start a process in the terminal.
    Spawn { working_directory: Option<String>, args: Vec<String> },
    /// Map the window and give it focus.
    Present,
}

/// Mathematical model of an [`Action`]: text is a sequence of characters.
pub ghost enum Step {
    SetAnchor { edge: Edge, anchored: bool },
    SetCssClass(Position),
    SetKeyboardMode(KeyboardMode),
    SetSize { columns: i64, rows: i64 },
    SetFont(Seq<char>),
    SetTransition(Transition),
    ShowPage(Page),
    Spawn { working_directory: Option<Seq<char>>, args: Seq<Seq<char>> },
    Present,
}

/// The characters of an optional string.
pub open spec fn text_of(text: Option<String>) -> Option<Seq<char>> {
    match text {
        Some(s) => Some(s@),
        None => None,
    }
}

/// The characters of each string of a list.
pub open spec fn texts_of(list: Seq<String>) -> Seq<Seq<char>> {
    list.map_values(|s: String| s@)
}

impl View for Action {
    type V = Step;

    open spec fn view(&self) -> Step {
        match *self {
            Action::SetAnchor { edge, anchored } => Step::SetAnchor { edge, anchored },
            Action::SetCssClass(position) => Step::SetCssClass(position),
            Action::SetKeyboardMode(mode) => Step::SetKeyboardMode(mode),
            Action::SetSize { columns, rows } => Step::SetSize { columns, rows },
            Action::SetFont(font) => Step::SetFont(font@),
            Action::SetTransition(transition) => Step::SetTransition(transition),
            Action::ShowPage(page) => Step::ShowPage(page),
            Action::Spawn { working_directory, args } => Step::Spawn {
                working_directory: text_of(working_directory),
                args: texts_of(args@),
            },
            Action::Present => Step::Present,
        }
    }
}

/// The models of a list of actions, in the same order.
pub open spec fn steps(actions: Seq<Action>) -> Seq<Step> {
    actions.map_values(|a: Action| a@)
}

/// Anchors the surface to the edge of `position` and to no other.
pub open spec fn anchor_steps(position: Position) -> Seq<Step> {
    seq![
        Step::SetAnchor { edge: Edge::Top, anchored: position.edge() == Edge::Top },
        Step::SetAnchor { edge: Edge::Bottom, anchored: position.edge() == Edge::Bottom },
        Step::SetAnchor { edge: Edge::Left, anchored: position.edge() == Edge::Left },
        Step::SetAnchor { edge: Edge::Right, anchored: position.edge() == Edge::Right },
    ]
}

/// Anchors the surface to all four edges, so that it fills the screen.
pub open spec fn fill_steps() -> Seq<Step> {
    seq![
        Step::SetAnchor { edge: Edge::Top, anchored: true },
        Step::SetAnchor { edge: Edge::Bottom, anchored: true },
        Step::SetAnchor { edge: Edge::Left, anchored: true },
        Step::SetAnchor { edge: Edge::Right, anchored: true },
    ]
}

/// Moving the console to `position`: nothing if it is there already, else
/// new anchors and a new style class.
pub open spec fn position_steps(current: Position, position: Position) -> Seq<Step> {
    if current == position {
        seq![]
    } else {
        anchor_steps(position).push(Step::SetCssClass(position))
    }
}

/// Slides the console away if it is visible, and maps the window if not.
pub open spec fn toggle_steps(position: Position, visible: bool) -> Seq<Step> {
    if visible {
        seq![
            Step::SetTransition(Transition::moving_toward(position.edge())),
            Step::ShowPage(Page::Empty),
        ]
    } else {
        seq![Step::Present]
    }
}

/// Slides the terminal in from the anchored edge.
pub open spec fn reveal_steps(position: Position) -> Seq<Step> {
    seq![
        Step::SetTransition(Transition::moving_toward(position.edge().opposite())),
        Step::ShowPage(Page::Terminal),
    ]
}

/// The anchor requests address each edge once, in the order top, bottom,
/// left, right; they attach the edge of the position and detach the others.
pub proof fn lemma_anchor_steps_attach_one_edge(position: Position)
    ensures
        anchor_steps(position).len() == 4,
        anchor_steps(position)[0] is SetAnchor && anchor_steps(position)[0]->edge == Edge::Top,
        anchor_steps(position)[1] is SetAnchor && anchor_steps(position)[1]->edge == Edge::Bottom,
        anchor_steps(position)[2] is SetAnchor && anchor_steps(position)[2]->edge == Edge::Left,
        anchor_steps(position)[3] is SetAnchor && anchor_steps(position)[3]->edge == Edge::Right,
        forall|i: int|
            0 <= i < 4 ==> ((#[trigger] anchor_steps(position)[i])->anchored <==> anchor_steps(
                position,
            )[i]->edge == position.edge()),
{
}

/// Appending one action appends its model.
pub proof fn lemma_steps_push(actions: Seq<Action>, action: Action)
    ensures
        steps(actions.push(action)) == steps(actions).push(action@),
{
    assert(steps(actions.push(action)) =~= steps(actions).push(action@));
}

/// The models of a concatenation are the concatenation of the models.
pub proof fn lemma_steps_concat(first: Seq<Action>, second: Seq<Action>)
    ensures
        steps(first + second) == steps(first) + steps(second),
{
    assert(steps(first + second) =~= steps(first) + steps(second));
}

/// What a console window remembers between events.
#[derive(Debug)]
pub struct LayerConsoleWindow {
    working_directory: Option<String>,
    position: Position,
    columns: i64,
    rows: i64,
    is_fullscreen: bool,
    match_ids: HashSet<i32>,
}

/// Mathematical model of a [`LayerConsoleWindow`].
pub ghost struct WindowState {
    /// Directory in which processes are started; `None` for the caller's own.
    pub working_directory: Option<Seq<char>>,
    /// Edge that the console is attached to.
    pub position: Position,
    /// Terminal width to go back to when full-screen mode ends.
    pub columns: i64,
    /// Terminal height to go back to when full-screen mode ends.
    pub rows: i64,
    /// Whether the window fills the screen.
    pub is_fullscreen: bool,
    /// Tags of the link patterns registered with the terminal.
    pub match_ids: Set<i32>,
}

impl WindowState {
    /// A window that has just been created.
    pub open spec fn initial() -> WindowState {
        WindowState {
            working_directory: None,
            position: Position::Top,
            columns: 0,
            rows: 0,
            is_fullscreen: false,
            match_ids: Set::empty(),
        }
    }

    /// The address under the pointer: an explicit hyperlink if there is one,
    /// else the text that matched, provided that a registered link pattern
    /// matched it.
    pub open spec fn url_at(
        self,
        hyperlink: Option<String>,
        matched: Option<String>,
        match_id: i32,
    ) -> Option<String> {
        if hyperlink is Some {
            hyperlink
        } else if matched is Some && self.match_ids.contains(match_id) {
            matched
        } else {
            None
        }
    }
}

/// What construction asks of the toolkit: the anchors and the style class of
/// the top position, exclusive keyboard focus, and the default size and font.
pub open spec fn construction_steps() -> Seq<Step> {
    anchor_steps(Position::Top) + seq![
        Step::SetCssClass(Position::Top),
        Step::SetKeyboardMode(KeyboardMode::Exclusive),
        Step::SetSize { columns: DEFAULT_COLUMNS, rows: DEFAULT_ROWS },
        Step::SetFont(DEFAULT_FONT@),
    ]
}

/// Whether a press may open a link: a single press with Control held.
pub open spec fn opens_links(n_press: i32, control_held: bool) -> bool {
    n_press <= 1 && control_held
}

/// The answer to a press on the terminal.
#[derive(Clone, Debug, PartialEq, Eq)]
pub enum Click {
    /// The press is not for the console: let others handle it.
    Denied,
    /// The press is claimed, and this address is to be opened.
    Open(String),
}

impl View for LayerConsoleWindow {
    type V = WindowState;

    closed spec fn view(&self) -> WindowState {
        WindowState {
            working_directory: text_of(self.working_directory),
            position: self.position,
            columns: self.columns,
            rows: self.rows,
            is_fullscreen: self.is_fullscreen,
            match_ids: self.match_ids@,
        }
    }
}

impl LayerConsoleWindow {
    /// A new window: at the top, not full-screen, with no working directory
    /// and no link pattern.
    pub fn new() -> (window: LayerConsoleWindow)
        ensures
            window@ == WindowState::initial(),
    {
        LayerConsoleWindow {
            working_directory: None,
            position: Position::Top,
            columns: 0,
            rows: 0,
            is_fullscreen: false,
            match_ids: HashSet::new(),
        }
    }

    /// The first requests of a new window.
    pub fn constructed(&self) -> (actions: Vec<Action>)
        ensures
            steps(actions@) == construction_steps(),
    {
        let mut actions = anchor_actions(Position::Top);
        actions.push(Action::SetCssClass(Position::Top));
        actions.push(Action::SetKeyboardMode(KeyboardMode::Exclusive));
        actions.push(Action::SetSize { columns: DEFAULT_COLUMNS, rows: DEFAULT_ROWS });
        actions.push(Action::SetFont(DEFAULT_FONT.to_owned()));
        proof {
            assert(steps(actions@) =~= construction_steps());
        }
        actions
    }

    /// The edge that the console is attached to.
    pub fn position(&self) -> (position: Position)
        ensures
            position == self@.position,
    {
        self.position
    }

    /// The terminal width that full-screen mode goes back to.
    pub fn columns(&self) -> (columns: i64)
        ensures
            columns == self@.columns,
    {
        self.columns
    }

    /// The terminal height that full-screen mode goes back to.
    pub fn rows(&self) -> (rows: i64)
        ensures
            rows == self@.rows,
    {
        self.rows
    }

    /// Whether the window fills the screen.
    pub fn is_fullscreen(&self) -> (fullscreen: bool)
        ensures
            fullscreen == self@.is_fullscreen,
    {
        self.is_fullscreen
    }

    /// The directory in which processes are started.
    pub fn working_directory(&self) -> (directory: Option<String>)
        ensures
            text_of(directory) == self@.working_directory,
    {
        match &self.working_directory {
            Some(directory) => Some(directory.clone()),
            None => None,
        }
    }

    /// Sets the directory in which processes are started.
    pub fn set_working_directory(&mut self, directory: Option<String>)
        ensures
            final(self)@ == (WindowState {
                working_directory: text_of(directory),
                ..old(self)@
            }),
    {
        self.working_directory = directory;
    }

    /// Moves the console to `position`. Where it is there already nothing is
    /// asked of the toolkit.
    pub fn set_position(&mut self, position: Position) -> (actions: Vec<Action>)
        ensures
            final(self)@ == (WindowState { position, ..old(self)@ }),
            steps(actions@) == position_steps(old(self)@.position, position),
    {
        if self.position == position {
            return Vec::new();
        }
        self.position = position;
        let mut actions = self.set_anchors();
        actions.push(self.set_css_class());
        proof {
            assert(steps(actions@) =~= position_steps(old(self)@.position, position));
        }
        actions
    }

    /// The request to change the terminal font.
    pub fn set_font(&self, font: &str) -> (action: Action)
        ensures
            action@ == Step::SetFont(font@),
    {
        Action::SetFont(font.to_owned())
    }

    /// The request that gives the terminal the style class of the position.
    pub fn set_css_class(&self) -> (action: Action)
        ensures
            action@ == Step::SetCssClass(self@.position),
    {
        Action::SetCssClass(self.position)
    }

    /// Resizes the terminal and remembers the size. A dimension that is not
    /// given stays as the terminal has it now.
    pub fn set_terminal_size(
        &mut self,
        columns: Option<i64>,
        rows: Option<i64>,
        current_columns: i64,
        current_rows: i64,
    ) -> (action: Action)
        ensures
            final(self)@ == (WindowState {
                columns: columns.unwrap_or(current_columns),
                rows: rows.unwrap_or(current_rows),
                ..old(self)@
            }),
            action@ == (Step::SetSize {
                columns: columns.unwrap_or(current_columns),
                rows: rows.unwrap_or(current_rows),
            }),
    {
        let columns = columns.unwrap_or(current_columns);
        let rows = rows.unwrap_or(current_rows);
        self.columns = columns;
        self.rows = rows;
        Action::SetSize { columns, rows }
    }

    /// Switches full-screen mode. Entering it anchors the window to all four
    /// edges; leaving it restores the anchors of the position and the
    /// remembered terminal size.
    pub fn fullscreen(&mut self) -> (actions: Vec<Action>)
        ensures
            final(self)@ == (WindowState {
                is_fullscreen: !old(self)@.is_fullscreen,
                ..old(self)@
            }),
            steps(actions@) == if old(self)@.is_fullscreen {
                anchor_steps(old(self)@.position).push(
                    Step::SetSize { columns: old(self)@.columns, rows: old(self)@.rows },
                )
            } else {
                fill_steps()
            },
    {
        if self.is_fullscreen {
            let mut actions = self.set_anchors();
            actions.push(Action::SetSize { columns: self.columns, rows: self.rows });
            self.is_fullscreen = false;
            proof {
                assert(steps(actions@) =~= anchor_steps(old(self)@.position).push(
                    Step::SetSize { columns: old(self)@.columns, rows: old(self)@.rows },
                ));
            }
            actions
        } else {
            let mut actions = Vec::new();
            actions.push(Action::SetAnchor { edge: Edge::Top, anchored: true });
            actions.push(Action::SetAnchor { edge: Edge::Bottom, anchored: true });
            actions.push(Action::SetAnchor { edge: Edge::Left, anchored: true });
            actions.push(Action::SetAnchor { edge: Edge::Right, anchored: true });
            self.is_fullscreen = true;
            proof {
                assert(steps(actions@) =~= fill_steps());
            }
            actions
        }
    }

    /// The request to start `args` in the terminal, in the window's working
    /// directory.
    pub fn spawn(&self, args: Vec<String>) -> (action: Action)
        ensures
            action@ == (Step::Spawn {
                working_directory: self@.working_directory,
                args: texts_of(args@),
            }),
    {
        Action::Spawn { working_directory: self.working_directory(), args }
    }

    /// The requests that attach the surface to the edge of the position and
    /// detach it from the other three.
    pub fn set_anchors(&self) -> (actions: Vec<Action>)
        ensures
            steps(actions@) == anchor_steps(self@.position),
    {
        anchor_actions(self.position)
    }

    /// Hides a visible console by sliding it back to its edge; maps the
    /// window where it is not visible.
    pub fn toggle(&self, visible: bool) -> (actions: Vec<Action>)
        ensures
            steps(actions@) == toggle_steps(self@.position, visible),
    {
        let mut actions = Vec::new();
        if visible {
            actions.push(Action::SetTransition(self.position.hide_transition()));
            actions.push(Action::ShowPage(Page::Empty));
        } else {
            actions.push(Action::Present);
        }
        proof {
            assert(steps(actions@) =~= toggle_steps(self@.position, visible));
        }
        actions
    }

    /// The requests that answer the window being mapped: the terminal slides
    /// in from the edge.
    pub fn shown(&self) -> (actions: Vec<Action>)
        ensures
            steps(actions@) == reveal_steps(self@.position),
    {
        let mut actions = Vec::new();
        actions.push(Action::SetTransition(self.position.show_transition()));
        actions.push(Action::ShowPage(Page::Terminal));
        proof {
            assert(steps(actions@) =~= reveal_steps(self@.position));
        }
        actions
    }

    /// Remembers the tag under which the terminal registered a link pattern.
    pub fn add_match(&mut self, id: i32)
        ensures
            final(self)@ == (WindowState {
                match_ids: old(self)@.match_ids.insert(id),
                ..old(self)@
            }),
    {
        self.match_ids.insert(id);
    }

    /// The address under the pointer, if any. `hyperlink` is the explicit
    /// hyperlink of the cell; `matched` and `match_id` are the text of the
    /// cell's pattern match and the tag of the pattern.
    pub fn get_url(&self, hyperlink: Option<String>, matched: Option<String>, match_id: i32) -> (url:
        Option<String>)
        ensures
            url == self@.url_at(hyperlink, matched, match_id),
    {
        if hyperlink.is_some() {
            hyperlink
        } else if matched.is_some() && self.match_ids.contains(&match_id) {
            matched
        } else {
            None
        }
    }

    /// Answers a press on the terminal. Only a single press with Control held
    /// on an address is claimed.
    pub fn pressed(
        &self,
        n_press: i32,
        control_held: bool,
        hyperlink: Option<String>,
        matched: Option<String>,
        match_id: i32,
    ) -> (click: Click)
        ensures
            click == if opens_links(n_press, control_held) {
                match self@.url_at(hyperlink, matched, match_id) {
                    Some(url) => Click::Open(url),
                    None => Click::Denied,
                }
            } else {
                Click::Denied
            },
    {
        if n_press > 1 {
            return Click::Denied;
        }
        if !control_held {
            return Click::Denied;
        }
        match self.get_url(hyperlink, matched, match_id) {
            Some(url) => Click::Open(url),
            None => Click::Denied,
        }
    }
}

impl Default for LayerConsoleWindow {
    fn default() -> (window: LayerConsoleWindow)
        ensures
            window@ == WindowState::initial(),
    {
        LayerConsoleWindow::new()
    }
}

/// Whether the window is to be unmapped after a page change: when no
/// transition runs any more and the empty page is the visible one.
pub fn hides_after_transition(running: bool, visible_page: Option<Page>) -> (hide: bool)
    ensures
        hide == (!running && visible_page == Some(Page::Empty)),
{
    !running && match visible_page {
        Some(Page::Empty) => true,
        _ => false,
    }
}

/// The requests that anchor the surface at `position`.
fn anchor_actions(position: Position) -> (actions: Vec<Action>)
    ensures
        steps(actions@) == anchor_steps(position),
{
    let edge = position.to_edge();
    let mut actions = Vec::new();
    actions.push(Action::SetAnchor { edge: Edge::Top, anchored: edge == Edge::Top });
    actions.push(Action::SetAnchor { edge: Edge::Bottom, anchored: edge == Edge::Bottom });
    actions.push(Action::SetAnchor { edge: Edge::Left, anchored: edge == Edge::Left });
    actions.push(Action::SetAnchor { edge: Edge::Right, anchored: edge == Edge::Right });
    proof {
        assert(steps(actions@) =~= anchor_steps(position));
    }
    actions
}

} // verus!
