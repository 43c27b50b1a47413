//! What the user asks for, derived from the parsed input.

use vstd::prelude::*;
use crate::parts::{CommandParts, PartsModel};

verus! {

/// What is required, based on the last event (which may not be visible, like esc).
#[derive(Debug, Clone, PartialEq, Eq)]
pub enum Action {
    /// Up (negative) or down (positive) in the list.
    MoveSelection(i32),
    /// In number of pages, not lines.
    ScrollPage(i32),
    /// Open the selected line.
    OpenSelection,
    /// Alternate open of the selected line.
    AltOpenSelection,
    /// Verb invocation being typed: the text after the separator.
    VerbEdit(String),
    /// Verb invocation after the user hit enter.
    Verb(String),
    /// A fuzzy pattern being edited.
    FuzzyPatternEdit(String),
    /// A regex being edited: core and flags.
    RegexEdit(String, String),
    /// Back to the last application state, or clear the pattern.
    Back,
    /// Go to the next matching entry.
    Next,
    Refresh,
    /// Go to the help state.
    Help,
    Quit,
    /// Usually a mouse click.
    Click(u16, u16),
    /// Always comes after a simple click at the same position.
    DoubleClick(u16, u16),
    /// Nothing parsed yet.
    Unparsed,
}

/// An action, with character sequences in place of strings.
pub enum ActionModel {
    MoveSelection(int),
    ScrollPage(int),
    OpenSelection,
    AltOpenSelection,
    VerbEdit(Seq<char>),
    Verb(Seq<char>),
    FuzzyPatternEdit(Seq<char>),
    RegexEdit(Seq<char>, Seq<char>),
    Back,
    Next,
    Refresh,
    Help,
    Quit,
    Click(u16, u16),
    DoubleClick(u16, u16),
    Unparsed,
}

impl View for Action {
    type V = ActionModel;

    open spec fn view(&self) -> ActionModel {
        match self {
            Action::MoveSelection(d) => ActionModel::MoveSelection(*d as int),
            Action::ScrollPage(d) => ActionModel::ScrollPage(*d as int),
            Action::OpenSelection => ActionModel::OpenSelection,
            Action::AltOpenSelection => ActionModel::AltOpenSelection,
            Action::VerbEdit(v) => ActionModel::VerbEdit(v@),
            Action::Verb(v) => ActionModel::Verb(v@),
            Action::FuzzyPatternEdit(p) => ActionModel::FuzzyPatternEdit(p@),
            Action::RegexEdit(p, f) => ActionModel::RegexEdit(p@, f@),
            Action::Back => ActionModel::Back,
            Action::Next => ActionModel::Next,
            Action::Refresh => ActionModel::Refresh,
            Action::Help => ActionModel::Help,
            Action::Quit => ActionModel::Quit,
            Action::Click(x, y) => ActionModel::Click(*x, *y),
            Action::DoubleClick(x, y) => ActionModel::DoubleClick(*x, *y),
            Action::Unparsed => ActionModel::Unparsed,
        }
    }
}

/// The action asked for by a parsed input, by priority: a verb invocation,
/// then a finished input (open the selection), then the pattern.
pub open spec fn action_of(cp: PartsModel, finished: bool) -> ActionModel {
    match cp.verb_invocation {
        Some(v) => if finished {
            ActionModel::Verb(v)
        } else {
            ActionModel::VerbEdit(v)
        },
        None => if finished {
            ActionModel::OpenSelection
        } else {
            match (cp.pattern, cp.regex_flags) {
                (Some(p), Some(f)) => ActionModel::RegexEdit(p, f),
                (Some(p), None) => ActionModel::FuzzyPatternEdit(p),
                (None, _) => ActionModel::FuzzyPatternEdit(Seq::empty()),
            }
        },
    }
}

impl Action {
    pub fn from(cp: &CommandParts, finished: bool) -> (r: Action)
        ensures
            r@ == action_of(cp@, finished),
    {
        if let Some(verb_invocation) = &cp.verb_invocation {
            if finished {
                Action::Verb(verb_invocation.clone())
            } else {
                Action::VerbEdit(verb_invocation.clone())
            }
        } else if finished {
            Action::OpenSelection
        } else if let Some(pattern) = &cp.pattern {
            if let Some(regex_flags) = &cp.regex_flags {
                Action::RegexEdit(pattern.clone(), regex_flags.clone())
            } else {
                Action::FuzzyPatternEdit(pattern.clone())
            }
        } else {
            Action::FuzzyPatternEdit(String::new())
        }
    }
}

} // verus!
