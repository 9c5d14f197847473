//! The session state of the interpreter: the last input line, its tokens, and
//! the current directory.
use vstd::prelude::*;
use crate::path::AbsPath;
use crate::text::{chars_of, is_space, non_empty, scan, space_sep, split_words, string_of, suffix, views, words};

verus! {

/// What a session holds, as mathematical values.
pub struct SessionView {
    pub raw: Seq<char>,
    pub tokens: Seq<Seq<char>>,
    pub chars: Seq<char>,
    pub cur: Seq<Seq<char>>,
}

/// `s` without its leading space characters (only `' '`, not other whitespace).
pub open spec fn strip_spaces(s: Seq<char>) -> Seq<char>
    decreases s.len(),
{
    if s.len() > 0 && s[0] == ' ' {
        strip_spaces(s.skip(1))
    } else {
        s
    }
}

/// The session after `line` was read: the line without leading spaces, its
/// words and its characters replace the previous ones; the current directory
/// stays.
pub open spec fn preprocess_spec(s: SessionView, line: Seq<char>) -> SessionView {
    SessionView {
        raw: strip_spaces(line),
        tokens: words(strip_spaces(line)),
        chars: strip_spaces(line),
        cur: s.cur,
    }
}

/// The interpreter's session state.
#[derive(Debug, Clone)]
pub struct CMD {
    raw_command: String,
    tokens: Vec<String>,
    chars: Vec<char>,
    current_dir_path: AbsPath,
}

impl View for CMD {
    type V = SessionView;

    closed spec fn view(&self) -> SessionView {
        SessionView {
            raw: self.raw_command@,
            tokens: views(self.tokens@),
            chars: self.chars@,
            cur: self.current_dir_path@,
        }
    }
}

/// Text made of whitespace only is read with nothing closed and nothing open.
proof fn lemma_scan_blank(s: Seq<char>)
    requires
        forall|i: int| 0 <= i < s.len() ==> is_space(#[trigger] s[i]),
    ensures
        scan(s, space_sep(), non_empty()) == (Seq::<Seq<char>>::empty(), Seq::<char>::empty()),
    decreases s.len(),
{
    if s.len() > 0 {
        assert forall|i: int| 0 <= i < s.drop_last().len() implies is_space(
            #[trigger] s.drop_last()[i],
        ) by {
            assert(s.drop_last()[i] == s[i]);
        }
        lemma_scan_blank(s.drop_last());
        assert(is_space(s[s.len() - 1]));
    }
}

/// Text made of whitespace only has no words.
pub proof fn lemma_blank_has_no_words(s: Seq<char>)
    requires
        forall|i: int| 0 <= i < s.len() ==> is_space(#[trigger] s[i]),
    ensures
        words(s) == Seq::<Seq<char>>::empty(),
{
    lemma_scan_blank(s);
}

/// Removing leading spaces keeps a suffix of the text.
pub proof fn lemma_strip_is_suffix(s: Seq<char>)
    ensures
        exists|k: int| 0 <= k <= s.len() && strip_spaces(s) == s.skip(k),
    decreases s.len(),
{
    if s.len() > 0 && s[0] == ' ' {
        lemma_strip_is_suffix(s.skip(1));
        let k = choose|k: int|
            0 <= k <= s.skip(1).len() && strip_spaces(s.skip(1)) == s.skip(1).skip(k);
        assert(s.skip(1).skip(k) =~= s.skip(k + 1));
    } else {
        assert(s.skip(0) =~= s);
    }
}

/// Removes the leading spaces of `cs`.
pub fn strip_leading_spaces(cs: &[char]) -> (r: Vec<char>)
    ensures
        r@ == strip_spaces(cs@),
{
    let mut i: usize = 0;
    assert(cs@.skip(0) =~= cs@);
    while i < cs.len() && cs[i] == ' '
        invariant
            i <= cs@.len(),
            strip_spaces(cs@.skip(i as int)) == strip_spaces(cs@),
        decreases cs@.len() - i,
    {
        assert(cs@.skip(i as int).skip(1) =~= cs@.skip(i + 1));
        i = i + 1;
    }
    let r = suffix(cs, i);
    assert(strip_spaces(cs@.skip(i as int)) == cs@.skip(i as int));
    r
}

impl CMD {
    /// A fresh session in `cur`, with no input read yet.
    pub fn new(cur: AbsPath) -> (r: CMD)
        ensures
            r@.raw.len() == 0,
            r@.chars.len() == 0,
            r@.tokens.len() == 0,
            r@.cur == cur@,
    {
        let r = CMD {
            raw_command: String::new(),
            tokens: Vec::new(),
            chars: Vec::new(),
            current_dir_path: cur,
        };
        assert(views(r.tokens@) =~= Seq::<Seq<char>>::empty());
        r
    }

    /// Whether the session's parts agree: the characters are the raw line
    /// and the tokens are its words.
    pub open spec fn wf(&self) -> bool {
        &&& self@.chars == self@.raw
        &&& self@.tokens == words(self@.raw)
    }

    /// Takes in one input line: leading spaces are dropped, then the line is
    /// split at runs of whitespace.
    pub fn preprocess(&mut self, line: &str)
        ensures
            final(self)@ == preprocess_spec(old(self)@, line@),
            final(self).wf(),
    {
        let all = chars_of(line);
        let cs = strip_leading_spaces(all.as_slice());
        self.raw_command = string_of(cs.as_slice());
        self.tokens = split_words(cs.as_slice());
        self.chars = cs;
    }

    /// Whether the last line held no token.
    pub fn empty(&self) -> (r: bool)
        ensures
            r == (self@.tokens.len() == 0),
    {
        self.tokens.len() == 0
    }

    /// The command name: the first token.
    pub fn get_first_token(&self) -> (r: &str)
        requires
            self@.tokens.len() > 0,
        ensures
            r@ == self@.tokens[0],
    {
        self.tokens[0].as_str()
    }

    /// The number of tokens.
    pub fn get_tokens_length(&self) -> (r: usize)
        ensures
            r == self@.tokens.len(),
    {
        self.tokens.len()
    }

    /// The characters of the last line, leading spaces removed.
    pub fn get_chars(&self) -> (r: &Vec<char>)
        ensures
            r@ == self@.chars,
    {
        &self.chars
    }

    /// The last line, leading spaces removed.
    pub fn get_raw_command(&self) -> (r: &str)
        ensures
            r@ == self@.raw,
    {
        self.raw_command.as_str()
    }

    /// The token at `idx`.
    pub fn get_token(&self, idx: usize) -> (r: &str)
        requires
            idx < self@.tokens.len(),
        ensures
            r@ == self@.tokens[idx as int],
    {
        self.tokens[idx].as_str()
    }

    /// The current directory.
    pub fn get_current_dir_path(&self) -> (r: &AbsPath)
        ensures
            r@ == self@.cur,
    {
        &self.current_dir_path
    }

    /// Moves the session to `path`; nothing else changes.
    pub fn set_current_dir_path(&mut self, path: AbsPath)
        ensures
            final(self)@ == (SessionView { cur: path@, ..old(self)@ }),
    {
        self.current_dir_path = path;
    }
}

} // verus!
