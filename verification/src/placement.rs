//! Where the console sits on the screen and how it slides in and out.

use vstd::prelude::*;

verus! {

/// A side of the output that a layer surface can be anchored to.
#[derive(Clone, Copy, Debug, PartialEq, Eq, Structural, Hash)]
pub enum Edge {
    Top,
    Bottom,
    Left,
    Right,
}

/// The screen edge that the console is attached to.
#[derive(Clone, Copy, Debug, PartialEq, Eq, Structural, Hash)]
pub enum Position {
    Top,
    Bottom,
    Left,
    Right,
}

/// The direction in which the visible page of the window slides.
#[derive(Clone, Copy, Debug, PartialEq, Eq, Structural, Hash)]
pub enum Transition {
    SlideUp,
    SlideDown,
    SlideLeft,
    SlideRight,
}

impl Edge {
    /// The edge on the other side of the screen.
    pub open spec fn opposite(self) -> Edge {
        match self {
            Edge::Top => Edge::Bottom,
            Edge::Bottom => Edge::Top,
            Edge::Left => Edge::Right,
            Edge::Right => Edge::Left,
        }
    }
}

impl Transition {
    /// The edge that the page moves towards.
    pub open spec fn toward(self) -> Edge {
        match self {
            Transition::SlideUp => Edge::Top,
            Transition::SlideDown => Edge::Bottom,
            Transition::SlideLeft => Edge::Left,
            Transition::SlideRight => Edge::Right,
        }
    }

    /// The unique transition that moves towards `edge`.
    pub open spec fn moving_toward(edge: Edge) -> Transition {
        match edge {
            Edge::Top => Transition::SlideUp,
            Edge::Bottom => Transition::SlideDown,
            Edge::Left => Transition::SlideLeft,
            Edge::Right => Transition::SlideRight,
        }
    }
}

impl Position {
    /// The edge with the same name as the position.
    pub open spec fn edge(self) -> Edge {
        match self {
            Position::Top => Edge::Top,
            Position::Bottom => Edge::Bottom,
            Position::Left => Edge::Left,
            Position::Right => Edge::Right,
        }
    }

    /// The style class that marks the terminal as attached to this position.
    pub open spec fn class_name(self) -> Seq<char> {
        match self {
            Position::Top => "top"@,
            Position::Bottom => "bottom"@,
            Position::Left => "left"@,
            Position::Right => "right"@,
        }
    }

    /// The edge that the console is anchored to.
    pub fn to_edge(&self) -> (edge: Edge)
        ensures
            edge == self.edge(),
    {
        match self {
            Position::Top => Edge::Top,
            Position::Bottom => Edge::Bottom,
            Position::Left => Edge::Left,
            Position::Right => Edge::Right,
        }
    }

    /// The name of the style class for this position.
    pub fn css_class(&self) -> (name: &'static str)
        ensures
            name@ == self.class_name(),
    {
        match self {
            Position::Top => "top",
            Position::Bottom => "bottom",
            Position::Left => "left",
            Position::Right => "right",
        }
    }

    /// The transition that reveals the console: it slides away from the
    /// anchored edge, into the screen.
    pub fn show_transition(&self) -> (transition: Transition)
        ensures
            transition == Transition::moving_toward(self.edge().opposite()),
    {
        match self {
            Position::Top => Transition::SlideDown,
            Position::Bottom => Transition::SlideUp,
            Position::Left => Transition::SlideRight,
            Position::Right => Transition::SlideLeft,
        }
    }

    /// The transition that hides the console: it slides back towards the
    /// anchored edge.
    pub fn hide_transition(&self) -> (transition: Transition)
        ensures
            transition == Transition::moving_toward(self.edge()),
    {
        match self {
            Position::Top => Transition::SlideUp,
            Position::Bottom => Transition::SlideDown,
            Position::Left => Transition::SlideLeft,
            Position::Right => Transition::SlideRight,
        }
    }
}

impl Default for Position {
    /// The console drops down from the top unless told otherwise.
    fn default() -> (position: Position)
        ensures
            position == Position::Top,
    {
        Position::Top
    }
}

} // verus!
