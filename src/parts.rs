//! The grammar of a command line: an optional pattern, optional regex flags
//! and an optional verb invocation.
//!
//! ```text
//! ^ /? pattern? (/ flags)? ([\s:]+ invocation)? $
//! ```
//!
//! The pattern is a run of characters that are neither white space, `/` nor
//! `:`; the flags are word characters; the invocation is whatever follows the
//! separator run.

use vstd::prelude::*;
use crate::text::{chars_of, is_white_space, is_word_char, white_space, word_char};

verus! {

/// The three runs of characters the grammar distinguishes.
pub enum CharClass {
    Pattern,
    Flag,
    Separator,
}

/// Whether a character belongs to class `k`, given whether it is white
/// space and whether it is a word character.
pub open spec fn in_class(k: CharClass, c: char, space: bool, word: bool) -> bool {
    match k {
        CharClass::Pattern => !space && c != '/' && c != ':',
        CharClass::Flag => word,
        CharClass::Separator => space || c == ':',
    }
}

/// Which characters of a text are white space, position by position.
pub open spec fn spaces_of(s: Seq<char>) -> Seq<bool> {
    Seq::new(s.len(), |i: int| is_white_space(s[i]))
}

/// Which characters of a text are word characters, position by position.
pub open spec fn words_of(s: Seq<char>) -> Seq<bool> {
    Seq::new(s.len(), |i: int| is_word_char(s[i]))
}

/// The end of the longest run of characters of class `k` starting at `i`,
/// where `sp` and `wd` classify the characters of `s`.
pub open spec fn run_end(s: Seq<char>, sp: Seq<bool>, wd: Seq<bool>, i: int, k: CharClass) -> int
    decreases s.len() - i,
{
    if 0 <= i < s.len() && in_class(k, s[i], sp[i], wd[i]) {
        run_end(s, sp, wd, i + 1, k)
    } else {
        i
    }
}

/// The decomposition of a command line, over character sequences.
pub struct PartsModel {
    pub pattern: Option<Seq<char>>,
    pub regex_flags: Option<Seq<char>>,
    pub verb_invocation: Option<Seq<char>>,
}

pub open spec fn empty_parts() -> PartsModel {
    PartsModel { pattern: None, regex_flags: None, verb_invocation: None }
}

/// What the grammar makes of `s`, where `sp` and `wd` tell which of its
/// characters are white space and which are word characters. A text that the
/// grammar does not cover (a flag run followed by something else than a
/// separator, say `a/b-c`) has no part at all.
pub open spec fn decompose_classified(s: Seq<char>, sp: Seq<bool>, wd: Seq<bool>) -> PartsModel {
    let slash_before = s.len() > 0 && s[0] == '/';
    let pat_start: int = if slash_before { 1 } else { 0 };
    let pat_end = run_end(s, sp, wd, pat_start, CharClass::Pattern);
    let has_flags = pat_end < s.len() && s[pat_end] == '/';
    let flags_end = if has_flags { run_end(s, sp, wd, pat_end + 1, CharClass::Flag) } else { pat_end };
    let has_verb = flags_end < s.len() && in_class(CharClass::Separator, s[flags_end], sp[flags_end], wd[flags_end]);
    let verb_start = run_end(s, sp, wd, flags_end, CharClass::Separator);
    if flags_end < s.len() && !has_verb {
        empty_parts()
    } else {
        PartsModel {
            pattern: if pat_end > pat_start { Some(s.subrange(pat_start, pat_end)) } else { None },
            regex_flags: if pat_end > pat_start && has_flags {
                Some(s.subrange(pat_end + 1, flags_end))
            } else if pat_end > pat_start && slash_before {
                Some(Seq::empty())
            } else {
                None
            },
            verb_invocation: if has_verb { Some(s.subrange(verb_start, s.len() as int)) } else { None },
        }
    }
}

/// What the grammar makes of `s`.
pub open spec fn decompose(s: Seq<char>) -> PartsModel {
    decompose_classified(s, spaces_of(s), words_of(s))
}

/// Regex flags never come without a pattern, and the empty text has no part.
pub proof fn lemma_flags_need_pattern(s: Seq<char>)
    ensures
        decompose(s).regex_flags is Some ==> decompose(s).pattern is Some,
        decompose(Seq::empty()) == empty_parts(),
{
}

pub open spec fn opt_view(o: Option<String>) -> Option<Seq<char>> {
    match o {
        Some(s) => Some(s@),
        None => None,
    }
}

/// The parsed parts of the visible input.
#[derive(Debug, Clone)]
pub struct CommandParts {
    /// Either a fuzzy pattern or the core of a regex.
    pub pattern: Option<String>,
    /// `Some("")` when a regex was asked for with no flag.
    pub regex_flags: Option<String>,
    /// `Some("")` when the separator was typed and nothing after it.
    pub verb_invocation: Option<String>,
}

impl View for CommandParts {
    type V = PartsModel;

    open spec fn view(&self) -> PartsModel {
        PartsModel {
            pattern: opt_view(self.pattern),
            regex_flags: opt_view(self.regex_flags),
            verb_invocation: opt_view(self.verb_invocation),
        }
    }
}

fn class_has(k: &CharClass, c: char, space: bool, word: bool) -> (r: bool)
    ensures
        r == in_class(*k, c, space, word),
{
    match k {
        CharClass::Pattern => !space && c != '/' && c != ':',
        CharClass::Flag => word,
        CharClass::Separator => space || c == ':',
    }
}

fn scan_run(cs: &Vec<char>, sp: &Vec<bool>, wd: &Vec<bool>, start: usize, k: CharClass) -> (r: usize)
    requires
        start <= cs@.len(),
        sp@.len() == cs@.len(),
        wd@.len() == cs@.len(),
    ensures
        r == run_end(cs@, sp@, wd@, start as int, k),
        start <= r <= cs@.len(),
{
    let mut i = start;
    while i < cs.len() && class_has(&k, cs[i], sp[i], wd[i])
        invariant
            start <= i <= cs@.len(),
            sp@.len() == cs@.len(),
            wd@.len() == cs@.len(),
            run_end(cs@, sp@, wd@, i as int, k) == run_end(cs@, sp@, wd@, start as int, k),
        decreases cs@.len() - i,
    {
        i = i + 1;
    }
    i
}

fn substring(s: &str, from: usize, to: usize) -> (r: String)
    requires
        from <= to <= s@.len(),
    ensures
        r@ == s@.subrange(from as int, to as int),
{
    s.substring_char(from, to).to_owned()
}

impl CommandParts {
    pub fn new() -> (r: CommandParts)
        ensures
            r@ == empty_parts(),
    {
        CommandParts { pattern: None, regex_flags: None, verb_invocation: None }
    }

    /// Decomposes a command line. Total: every text gives a value.
    pub fn from(raw: &str) -> (r: CommandParts)
        ensures
            r@ == decompose(raw@),
    {
        let cs = chars_of(raw);
        let mut spaces: Vec<bool> = Vec::new();
        let mut words: Vec<bool> = Vec::new();
        let mut i: usize = 0;
        while i < cs.len()
            invariant
                i <= cs@.len(),
                cs@ == raw@,
                spaces@ == spaces_of(raw@).take(i as int),
                words@ == words_of(raw@).take(i as int),
            decreases cs@.len() - i,
        {
            spaces.push(white_space(cs[i]));
            words.push(word_char(cs[i]));
            i = i + 1;
            assert(spaces@ =~= spaces_of(raw@).take(i as int));
            assert(words@ =~= words_of(raw@).take(i as int));
        }
        assert(spaces@ =~= spaces_of(raw@));
        assert(words@ =~= words_of(raw@));
        CommandParts::from_classified(raw, &spaces, &words)
    }

    /// Decomposes a command line whose characters are classified by
    /// `spaces` (white space) and `words` (word characters), position by
    /// position.
    pub fn from_classified(raw: &str, spaces: &Vec<bool>, words: &Vec<bool>) -> (r: CommandParts)
        requires
            spaces@.len() == raw@.len(),
            words@.len() == raw@.len(),
        ensures
            r@ == decompose_classified(raw@, spaces@, words@),
    {
        let cs = chars_of(raw);
        let n = cs.len();
        let slash_before = n > 0 && cs[0] == '/';
        let pat_start: usize = if slash_before { 1 } else { 0 };
        let pat_end = scan_run(&cs, spaces, words, pat_start, CharClass::Pattern);
        let has_flags = pat_end < n && cs[pat_end] == '/';
        let flags_end = if has_flags { scan_run(&cs, spaces, words, pat_end + 1, CharClass::Flag) } else { pat_end };
        let has_verb = flags_end < n && class_has(&CharClass::Separator, cs[flags_end], spaces[flags_end], words[flags_end]);
        if flags_end < n && !has_verb {
            return CommandParts::new();
        }
        let mut cp = CommandParts::new();
        if pat_end > pat_start {
            cp.pattern = Some(substring(raw, pat_start, pat_end));
            if has_flags {
                cp.regex_flags = Some(substring(raw, pat_end + 1, flags_end));
            } else if slash_before {
                cp.regex_flags = Some(String::new());
            }
        }
        if has_verb {
            let verb_start = scan_run(&cs, spaces, words, flags_end, CharClass::Separator);
            cp.verb_invocation = Some(substring(raw, verb_start, n));
        }
        cp
    }
}

} // verus!
