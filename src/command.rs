//! A command is the parsed representation of what the user types in the
//! input. It is independent of the state of the application: verbs are not
//! checked at this point.

use vstd::prelude::*;
use crate::action::{action_of, Action, ActionModel};
use crate::event::{Event, KeyEvent};
use crate::parts::{decompose, empty_parts, CommandParts};
use crate::text::{chars_of, pop_char, push_char};

verus! {

/// The action of a text being typed, not yet validated with enter.
pub open spec fn typed(raw: Seq<char>) -> ActionModel {
    action_of(decompose(raw), false)
}

/// Whether a `?` typed on `raw` opens the help instead of being typed: at the
/// very start of the input, or once a verb invocation has begun.
pub open spec fn asks_help(raw: Seq<char>) -> bool {
    raw.len() == 0 || decompose(raw).verb_invocation is Some
}

/// The raw text and the action after a key press, from the raw text and the
/// action before it. Keys that mean nothing here leave both as they were.
pub open spec fn after_key(raw: Seq<char>, prev: ActionModel, key: KeyEvent) -> (Seq<char>, ActionModel) {
    match key {
        KeyEvent::Char(c) => if c == '\t' {
            (raw, ActionModel::Next)
        } else if c == '\n' {
            (raw, action_of(decompose(raw), true))
        } else if c == '?' && asks_help(raw) {
            (raw, ActionModel::Help)
        } else {
            (raw.push(c), typed(raw.push(c)))
        },
        KeyEvent::Alt(c) => if c == '\r' || c == '\n' {
            (raw, ActionModel::AltOpenSelection)
        } else {
            (raw, prev)
        },
        KeyEvent::Ctrl(c) => if c == 'q' {
            (raw, ActionModel::Quit)
        } else if c == 'u' {
            (raw, ActionModel::ScrollPage(-1))
        } else if c == 'd' {
            (raw, ActionModel::ScrollPage(1))
        } else {
            (raw, prev)
        },
        KeyEvent::Up => (raw, ActionModel::MoveSelection(-1)),
        KeyEvent::Down => (raw, ActionModel::MoveSelection(1)),
        KeyEvent::F(n) => if n == 5 {
            (raw, ActionModel::Refresh)
        } else {
            (raw, prev)
        },
        KeyEvent::PageUp => (raw, ActionModel::ScrollPage(-1)),
        KeyEvent::PageDown => (raw, ActionModel::ScrollPage(1)),
        KeyEvent::Esc => (raw, ActionModel::Back),
        KeyEvent::Backspace => if raw.len() == 0 {
            (raw, ActionModel::Back)
        } else {
            (raw.drop_last(), typed(raw.drop_last()))
        },
        _ => (raw, prev),
    }
}

/// The raw text and the action after an event. Clicks leave the text alone.
pub open spec fn after_event(raw: Seq<char>, prev: ActionModel, event: Event) -> (Seq<char>, ActionModel) {
    match event {
        Event::Click(x, y) => (raw, ActionModel::Click(x, y)),
        Event::DoubleClick(x, y) => (raw, ActionModel::DoubleClick(x, y)),
        Event::Key(key) => after_key(raw, prev, key),
    }
}

/// Typing a character that is added to the input, then erasing it with
/// backspace, gives back the input as it was and the action of that input
/// being typed, whatever the action was before: the action depends on the
/// current text, not on how it was reached.
pub proof fn lemma_type_then_erase(raw: Seq<char>, prev: ActionModel, c: char)
    requires
        c != '\t',
        c != '\n',
        !(c == '?' && asks_help(raw)),
    ensures
        ({
            let (r1, a1) = after_key(raw, prev, KeyEvent::Char(c));
            let (r2, a2) = after_key(r1, a1, KeyEvent::Backspace);
            &&& r1 == raw.push(c)
            &&& a1 == typed(raw.push(c))
            &&& r2 == raw
            &&& a2 == typed(raw)
        }),
{
    assert(raw.push(c).drop_last() =~= raw);
}

/// Every edit of the text, by a typed character or by backspace on a
/// non-empty input, leaves the action of the new text being typed.
pub proof fn lemma_edit_rederives(raw: Seq<char>, prev: ActionModel, key: KeyEvent)
    requires
        after_key(raw, prev, key).0 != raw,
    ensures
        after_key(raw, prev, key).1 == typed(after_key(raw, prev, key).0),
{
}

#[derive(Debug, Clone)]
pub struct Command {
    /// What is visible in the input.
    pub raw: String,
    /// The parsed parts of the visible input, kept in step with `raw`.
    pub parts: CommandParts,
    /// What is required, based on the last event (which may not be visible, like esc).
    pub action: Action,
}

impl Command {
    /// The parsed parts agree with the visible input.
    pub open spec fn wf(&self) -> bool {
        self.parts@ == decompose(self.raw@)
    }

    pub fn new() -> (r: Command)
        ensures
            r.wf(),
            r.raw@ == Seq::<char>::empty(),
            r.action@ == ActionModel::Unparsed,
    {
        let r = Command { raw: String::new(), parts: CommandParts::new(), action: Action::Unparsed };
        assert(decompose(r.raw@) == empty_parts());
        r
    }

    /// Builds a command from a whole string, such as one given on the command
    /// line or read from a file, not typed key by key. A `:` anywhere, even
    /// at the end, means that the command is to be executed, as if the user
    /// had hit enter.
    pub fn from(raw: String) -> (r: Command)
        ensures
            r.wf(),
            r.raw@ == raw@,
            r.action@ == action_of(decompose(raw@), raw@.contains(':')),
    {
        let parts = CommandParts::from(raw.as_str());
        let finished = has_colon(raw.as_str());
        let action = Action::from(&parts, finished);
        Command { raw, parts, action }
    }

    /// Takes one event into account: the raw text and the action become what
    /// `after_event` says.
    pub fn add_event(&mut self, event: Event)
        requires
            old(self).wf(),
        ensures
            final(self).wf(),
            (final(self).raw@, final(self).action@) == after_event(old(self).raw@, old(self).action@, event),
    {
        match event {
            Event::Click(x, y) => {
                self.action = Action::Click(x, y);
            },
            Event::DoubleClick(x, y) => {
                self.action = Action::DoubleClick(x, y);
            },
            Event::Key(key) => {
                self.add_key(key);
            },
        }
    }

    /// Reparses the raw text after an edit and derives the action of a text
    /// being typed.
    fn reparse(&mut self)
        ensures
            final(self).wf(),
            final(self).raw == old(self).raw,
            final(self).action@ == typed(old(self).raw@),
    {
        self.parts = CommandParts::from(self.raw.as_str());
        self.action = Action::from(&self.parts, false);
    }

    fn add_key(&mut self, key: KeyEvent)
        requires
            old(self).wf(),
        ensures
            final(self).wf(),
            (final(self).raw@, final(self).action@) == after_key(old(self).raw@, old(self).action@, key),
    {
        match key {
            KeyEvent::Char('\t') => {
                self.action = Action::Next;
            },
            KeyEvent::Char('\n') => {
                self.action = Action::from(&self.parts, true);
            },
            KeyEvent::Alt('\r') | KeyEvent::Alt('\n') => {
                self.action = Action::AltOpenSelection;
            },
            KeyEvent::Ctrl('q') => {
                self.action = Action::Quit;
            },
            KeyEvent::Up => {
                self.action = Action::MoveSelection(-1);
            },
            KeyEvent::Down => {
                self.action = Action::MoveSelection(1);
            },
            KeyEvent::F(5) => {
                self.action = Action::Refresh;
            },
            KeyEvent::PageUp | KeyEvent::Ctrl('u') => {
                self.action = Action::ScrollPage(-1);
            },
            KeyEvent::PageDown | KeyEvent::Ctrl('d') => {
                self.action = Action::ScrollPage(1);
            },
            KeyEvent::Char(c) if c == '?' && (self.raw.as_str().is_empty()
                || self.parts.verb_invocation.is_some()) => {
                // a '?' opens the help when it's the first char or when it's
                // part of the verb invocation
                self.action = Action::Help;
            },
            KeyEvent::Char(c) => {
                push_char(&mut self.raw, c);
                self.reparse();
            },
            KeyEvent::Esc => {
                self.action = Action::Back;
            },
            KeyEvent::Backspace => {
                if self.raw.as_str().is_empty() {
                    self.action = Action::Back;
                } else {
                    pop_char(&mut self.raw);
                    self.reparse();
                }
            },
            _ => {},
        }
    }
}

/// Whether the text holds a `:`.
fn has_colon(s: &str) -> (r: bool)
    ensures
        r == s@.contains(':'),
{
    let cs = chars_of(s);
    let mut i: usize = 0;
    while i < cs.len()
        invariant
            i <= cs@.len(),
            cs@ == s@,
            forall|j: int| 0 <= j < i ==> cs@[j] != ':',
        decreases cs@.len() - i,
    {
        if cs[i] == ':' {
            return true;
        }
        i = i + 1;
    }
    false
}

} // verus!
