use broot_command::{Action, Command, CommandParts, Event, KeyEvent};

fn s(v: &str) -> String {
    v.to_string()
}

fn typed(keys: &[KeyEvent]) -> Command {
    let mut cmd = Command::new();
    for k in keys {
        cmd.add_event(Event::Key(*k));
    }
    cmd
}

fn type_str(cmd: &mut Command, text: &str) {
    for c in text.chars() {
        cmd.add_event(Event::Key(KeyEvent::Char(c)));
    }
}

#[test]
fn decompose_empty_text() {
    let cp = CommandParts::from("");
    assert_eq!(cp.pattern, None);
    assert_eq!(cp.regex_flags, None);
    assert_eq!(cp.verb_invocation, None);
    assert_eq!(Action::from(&cp, false), Action::FuzzyPatternEdit(s("")));
    assert_eq!(Action::from(&cp, true), Action::OpenSelection);
}

#[test]
fn decompose_plain_pattern() {
    let cp = CommandParts::from("foo");
    assert_eq!(cp.pattern, Some(s("foo")));
    assert_eq!(cp.regex_flags, None);
    assert_eq!(cp.verb_invocation, None);
    assert_eq!(Action::from(&cp, false), Action::FuzzyPatternEdit(s("foo")));
}

#[test]
fn decompose_pattern_with_flags() {
    let cp = CommandParts::from("foo/i");
    assert_eq!(cp.pattern, Some(s("foo")));
    assert_eq!(cp.regex_flags, Some(s("i")));
    assert_eq!(cp.verb_invocation, None);
    assert_eq!(Action::from(&cp, false), Action::RegexEdit(s("foo"), s("i")));
}

#[test]
fn decompose_leading_slash_and_flags() {
    let cp = CommandParts::from("/re/gi");
    assert_eq!(cp.pattern, Some(s("re")));
    assert_eq!(cp.regex_flags, Some(s("gi")));
    assert_eq!(Action::from(&cp, false), Action::RegexEdit(s("re"), s("gi")));
}

#[test]
fn decompose_leading_slash_without_flags() {
    let cp = CommandParts::from("/re");
    assert_eq!(cp.pattern, Some(s("re")));
    assert_eq!(cp.regex_flags, Some(s("")));
    assert_eq!(Action::from(&cp, false), Action::RegexEdit(s("re"), s("")));
}

#[test]
fn decompose_lone_slash_has_no_flags() {
    let cp = CommandParts::from("/");
    assert_eq!(cp.pattern, None);
    assert_eq!(cp.regex_flags, None);
    assert_eq!(cp.verb_invocation, None);
}

#[test]
fn decompose_pattern_and_verb() {
    let cp = CommandParts::from("abc:verb arg");
    assert_eq!(cp.pattern, Some(s("abc")));
    assert_eq!(cp.regex_flags, None);
    assert_eq!(cp.verb_invocation, Some(s("verb arg")));
}

#[test]
fn batch_command_with_verb_is_finished() {
    let cmd = Command::from(s("abc:verb arg"));
    assert_eq!(cmd.raw, "abc:verb arg");
    assert_eq!(cmd.action, Action::Verb(s("verb arg")));
}

#[test]
fn batch_command_verb_alone() {
    let cp = CommandParts::from(":q");
    assert_eq!(cp.pattern, None);
    assert_eq!(cp.verb_invocation, Some(s("q")));
    let cmd = Command::from(s(":q"));
    assert_eq!(cmd.action, Action::Verb(s("q")));
}

#[test]
fn batch_command_without_colon_is_not_finished() {
    assert_eq!(Command::from(s("foo")).action, Action::FuzzyPatternEdit(s("foo")));
    assert_eq!(Command::from(s("foo/i")).action, Action::RegexEdit(s("foo"), s("i")));
    assert_eq!(Command::from(s("foo bar")).action, Action::VerbEdit(s("bar")));
}

#[test]
fn batch_command_trailing_colon_opens_selection() {
    let cmd = Command::from(s("foo:"));
    assert_eq!(cmd.action, Action::Verb(s("")));
    let cmd = Command::from(s(":"));
    assert_eq!(cmd.action, Action::Verb(s("")));
}

#[test]
fn white_space_separates_the_verb() {
    let cp = CommandParts::from("abc  \t def ghi");
    assert_eq!(cp.pattern, Some(s("abc")));
    assert_eq!(cp.verb_invocation, Some(s("def ghi")));
    // an ideographic space is white space too
    let cp = CommandParts::from("abc\u{3000}x");
    assert_eq!(cp.pattern, Some(s("abc")));
    assert_eq!(cp.verb_invocation, Some(s("x")));
}

#[test]
fn flags_are_word_characters() {
    let cp = CommandParts::from("a/é_9");
    assert_eq!(cp.pattern, Some(s("a")));
    assert_eq!(cp.regex_flags, Some(s("é_9")));
    let cp = CommandParts::from("a/i:cd");
    assert_eq!(cp.regex_flags, Some(s("i")));
    assert_eq!(cp.verb_invocation, Some(s("cd")));
}

#[test]
fn text_outside_the_grammar_has_no_part() {
    let cp = CommandParts::from("ab/c-d");
    assert_eq!(cp.pattern, None);
    assert_eq!(cp.regex_flags, None);
    assert_eq!(cp.verb_invocation, None);
    assert_eq!(Action::from(&cp, false), Action::FuzzyPatternEdit(s("")));
    let cp = CommandParts::from("a/b/c");
    assert_eq!(cp.pattern, None);
}

#[test]
fn verb_invocation_keeps_everything_after_the_separator() {
    let cp = CommandParts::from("ab x\ny/z:w");
    assert_eq!(cp.pattern, Some(s("ab")));
    assert_eq!(cp.verb_invocation, Some(s("x\ny/z:w")));
}

#[test]
fn typing_and_erasing_a_regex_suffix() {
    let mut cmd = Command::new();
    assert_eq!(cmd.action, Action::Unparsed);
    cmd.add_event(Event::Key(KeyEvent::Char('a')));
    assert_eq!(cmd.action, Action::FuzzyPatternEdit(s("a")));
    cmd.add_event(Event::Key(KeyEvent::Char('/')));
    assert_eq!(cmd.action, Action::RegexEdit(s("a"), s("")));
    cmd.add_event(Event::Key(KeyEvent::Backspace));
    assert_eq!(cmd.action, Action::FuzzyPatternEdit(s("a")));
    assert_eq!(cmd.raw, "a");
}

#[test]
fn backspace_on_empty_input_goes_back() {
    let cmd = typed(&[KeyEvent::Backspace]);
    assert_eq!(cmd.action, Action::Back);
    assert_eq!(cmd.raw, "");
}

#[test]
fn question_mark_first_opens_help() {
    let cmd = typed(&[KeyEvent::Char('?')]);
    assert_eq!(cmd.action, Action::Help);
    assert_eq!(cmd.raw, "");
}

#[test]
fn question_mark_in_pattern_is_typed() {
    let mut cmd = Command::new();
    type_str(&mut cmd, "ab?");
    assert_eq!(cmd.action, Action::FuzzyPatternEdit(s("ab?")));
    assert_eq!(cmd.raw, "ab?");
}

#[test]
fn question_mark_in_verb_opens_help() {
    let mut cmd = Command::new();
    type_str(&mut cmd, "ab:cp");
    assert_eq!(cmd.action, Action::VerbEdit(s("cp")));
    cmd.add_event(Event::Key(KeyEvent::Char('?')));
    assert_eq!(cmd.action, Action::Help);
    assert_eq!(cmd.raw, "ab:cp");
}

#[test]
fn enter_finishes_the_input() {
    let mut cmd = Command::new();
    type_str(&mut cmd, "ab cd");
    assert_eq!(cmd.action, Action::VerbEdit(s("cd")));
    cmd.add_event(Event::Key(KeyEvent::Char('\n')));
    assert_eq!(cmd.action, Action::Verb(s("cd")));
    assert_eq!(cmd.raw, "ab cd");
    let mut cmd = Command::new();
    type_str(&mut cmd, "ab");
    cmd.add_event(Event::Key(KeyEvent::Char('\n')));
    assert_eq!(cmd.action, Action::OpenSelection);
}

#[test]
fn control_keys_map_to_actions() {
    let cases = [
        (KeyEvent::Char('\t'), Action::Next),
        (KeyEvent::Alt('\r'), Action::AltOpenSelection),
        (KeyEvent::Alt('\n'), Action::AltOpenSelection),
        (KeyEvent::Ctrl('q'), Action::Quit),
        (KeyEvent::Up, Action::MoveSelection(-1)),
        (KeyEvent::Down, Action::MoveSelection(1)),
        (KeyEvent::F(5), Action::Refresh),
        (KeyEvent::PageUp, Action::ScrollPage(-1)),
        (KeyEvent::Ctrl('u'), Action::ScrollPage(-1)),
        (KeyEvent::PageDown, Action::ScrollPage(1)),
        (KeyEvent::Ctrl('d'), Action::ScrollPage(1)),
        (KeyEvent::Esc, Action::Back),
    ];
    for (key, action) in cases {
        let mut cmd = Command::new();
        type_str(&mut cmd, "xy");
        cmd.add_event(Event::Key(key));
        assert_eq!(cmd.action, action);
        assert_eq!(cmd.raw, "xy");
    }
}

#[test]
fn other_keys_change_nothing() {
    for key in [KeyEvent::Left, KeyEvent::F(4), KeyEvent::Ctrl('x'), KeyEvent::Alt('a'), KeyEvent::Null] {
        let mut cmd = Command::new();
        type_str(&mut cmd, "x/i");
        cmd.add_event(Event::Key(key));
        assert_eq!(cmd.action, Action::RegexEdit(s("x"), s("i")));
        assert_eq!(cmd.raw, "x/i");
    }
}

#[test]
fn clicks_leave_the_text() {
    let mut cmd = Command::new();
    type_str(&mut cmd, "ab");
    cmd.add_event(Event::Click(3, 4));
    assert_eq!(cmd.action, Action::Click(3, 4));
    cmd.add_event(Event::DoubleClick(3, 4));
    assert_eq!(cmd.action, Action::DoubleClick(3, 4));
    assert_eq!(cmd.raw, "ab");
    cmd.add_event(Event::Key(KeyEvent::Char('c')));
    assert_eq!(cmd.action, Action::FuzzyPatternEdit(s("abc")));
}

#[test]
fn backspace_removes_one_character() {
    let mut cmd = Command::new();
    type_str(&mut cmd, "ab:é");
    cmd.add_event(Event::Key(KeyEvent::Backspace));
    assert_eq!(cmd.raw, "ab:");
    assert_eq!(cmd.action, Action::VerbEdit(s("")));
    cmd.add_event(Event::Key(KeyEvent::Backspace));
    assert_eq!(cmd.raw, "ab");
    assert_eq!(cmd.action, Action::FuzzyPatternEdit(s("ab")));
}
