use vstd::prelude::*;

use crate::lexer::token::Token;
use crate::strutil::chars_of;
use crate::strutil::string_from_chars;

pub mod token;

verus! {

/// A character the lexer treats as blank space between tokens: the
/// Unicode white-space class, written out code point by code point.
pub open spec fn is_space_char(c: char) -> bool {
    (9 <= c as u32 && c as u32 <= 13) || c as u32 == 32 || c as u32 == 0x85 || c as u32 == 0xA0
        || c as u32 == 0x1680 || (0x2000 <= c as u32 && c as u32 <= 0x200A) || c as u32 == 0x2028
        || c as u32 == 0x2029 || c as u32 == 0x202F || c as u32 == 0x205F || c as u32 == 0x3000
}

/// Whether `c` belongs to the identifier class: Unicode alphanumeric, as
/// std's `char::is_alphanumeric` decides it. That class runs over
/// thousands of ranges, so it is named rather than written out.
pub uninterp spec fn is_alnum_char(c: char) -> bool;

/// Tests a character for the identifier class.
///
/// Relies on std's `char::is_alphanumeric`: a fixed classification and a
/// function of the character alone.
#[verifier::external_body]
fn is_alnum(c: char) -> (r: bool)
    ensures
        r == is_alnum_char(c),
{
    c.is_alphanumeric()
}

/// The first index at or after `i` that does not hold blank space
/// (the length of `s` if every later character is blank).
pub open spec fn skip_ws_idx(s: Seq<char>, i: int) -> int
    decreases s.len() - i,
{
    if 0 <= i < s.len() && is_space_char(s[i]) {
        skip_ws_idx(s, i + 1)
    } else {
        i
    }
}

/// The first index at or after `i` that holds blank space
/// (the length of `s` if none does): where a bare word read at `i` ends.
pub open spec fn word_end(s: Seq<char>, i: int) -> int
    decreases s.len() - i,
{
    if 0 <= i < s.len() && !is_space_char(s[i]) {
        word_end(s, i + 1)
    } else {
        i
    }
}

/// Where an identifier (a run of alphanumeric characters) read at `i` ends.
pub open spec fn ident_end(s: Seq<char>, i: int) -> int
    decreases s.len() - i,
{
    if 0 <= i < s.len() && is_alnum_char(s[i]) {
        ident_end(s, i + 1)
    } else {
        i
    }
}

/// Every character a word covers is non-blank, and a word never runs
/// past the end of the input.
pub proof fn lemma_word_run(s: Seq<char>, i: int)
    requires
        0 <= i <= s.len(),
    ensures
        forall|k: int| i <= k < word_end(s, i) ==> !is_space_char(s[k]),
    decreases s.len() - i,
{
    if i < s.len() && !is_space_char(s[i]) {
        lemma_word_run(s, i + 1);
    }
}

/// Every character skipped as blank space is blank.
pub proof fn lemma_skip_ws_run(s: Seq<char>, i: int)
    requires
        0 <= i <= s.len(),
    ensures
        forall|k: int| i <= k < skip_ws_idx(s, i) ==> is_space_char(s[k]),
    decreases s.len() - i,
{
    if i < s.len() && is_space_char(s[i]) {
        lemma_skip_ws_run(s, i + 1);
    }
}

/// A word never runs past the end of the input.
pub proof fn lemma_word_end_bounds(s: Seq<char>, i: int)
    requires
        0 <= i <= s.len(),
    ensures
        i <= word_end(s, i) <= s.len(),
    decreases s.len() - i,
{
    if i < s.len() && !is_space_char(s[i]) {
        lemma_word_end_bounds(s, i + 1);
    }
}

/// The character at index `j`, or the NUL character beyond the end:
/// what `peek_char` sees.
pub open spec fn peek_at(s: Seq<char>, j: int) -> char {
    if 0 <= j < s.len() {
        s[j]
    } else {
        '\0'
    }
}

/// The last index consumed by the token that starts at `j`
/// (`j` itself for a one-character operator).
pub open spec fn lex_end(s: Seq<char>, j: int) -> int {
    let c = s[j];
    if c == '&' || c == '<' {
        j
    } else if c == '>' {
        if peek_at(s, j + 1) == '|' || peek_at(s, j + 1) == '>' {
            j + 1
        } else {
            j
        }
    } else if c == '2' && peek_at(s, j + 1) == '>' {
        if peek_at(s, j + 2) == '|' || peek_at(s, j + 2) == '>' {
            j + 2
        } else {
            j + 1
        }
    } else {
        word_end(s, j)
    }
}

/// Whether `t` is the token that starts at index `j` of `s`
/// (`j` must point at a non-blank character).
pub open spec fn lexed_token_at(t: Token, s: Seq<char>, j: int) -> bool {
    let c = s[j];
    if c == '&' {
        t == Token::And
    } else if c == '<' {
        t == Token::Langle
    } else if c == '>' {
        if peek_at(s, j + 1) == '|' {
            t == Token::RangleF
        } else if peek_at(s, j + 1) == '>' {
            t == Token::DoubleRangle
        } else {
            t == Token::Rangle
        }
    } else if c == '2' && peek_at(s, j + 1) == '>' {
        if peek_at(s, j + 2) == '|' {
            t == Token::Rangle2F
        } else if peek_at(s, j + 2) == '>' {
            t == Token::DoubleRangle2
        } else {
            t == Token::Rangle2
        }
    } else {
        t matches Token::String(w) && w@ == s.subrange(j, word_end(s, j))
    }
}

/// A hand-written scanner over a command line. `position` points at the
/// character under examination (`ch`), `read_position` one past it.
pub struct Lexer {
    pub input: Vec<char>,
    pub position: usize,
    pub read_position: usize,
    pub ch: Option<char>,
}

impl Lexer {
    /// The scanner's structural invariant: `read_position` trails `position`
    /// by one and `ch` caches the character under `position`.
    pub open spec fn wf(self) -> bool {
        &&& self.input@.len() + 2 < usize::MAX
        &&& self.read_position == self.position + 1
        &&& self.position <= self.input@.len() + 1
        &&& self.ch == (if self.position < self.input@.len() {
            Some(self.input@[self.position as int])
        } else {
            None::<char>
        })
    }

    pub fn new(input: String) -> (l: Lexer)
        requires
            input@.len() + 2 < usize::MAX,
        ensures
            l.wf(),
            l.input@ == input@,
            l.position == 0,
    {
        let mut l = Lexer {
            input: chars_of(input.as_str()),
            position: 0,
            read_position: 0,
            ch: None,
        };
        l.read_char();
        l
    }

    /// Advances by one character; past the end, `ch` stays `None`.
    pub fn read_char(&mut self)
        requires
            old(self).read_position <= old(self).input@.len() + 1,
            old(self).input@.len() + 2 < usize::MAX,
        ensures
            final(self).input@ == old(self).input@,
            final(self).position == old(self).read_position,
            final(self).read_position == old(self).read_position + 1,
            final(self).ch == (if final(self).position < old(self).input@.len() {
                Some(old(self).input@[final(self).position as int])
            } else {
                None::<char>
            }),
    {
        if self.read_position >= self.input.len() {
            self.ch = None;
        } else {
            self.ch = Some(self.input[self.read_position]);
        }
        self.position = self.read_position;
        self.read_position += 1;
    }

    /// Moves `position` to the next non-blank character.
    pub fn skip_whitespace(&mut self)
        requires
            old(self).wf(),
        ensures
            final(self).wf(),
            final(self).input@ == old(self).input@,
            final(self).position as int == skip_ws_idx(old(self).input@, old(self).position as int),
            forall|k: int|
                old(self).position <= k < final(self).position ==> is_space_char(
                    old(self).input@[k],
                ),
    {
        proof {
            if old(self).position <= old(self).input@.len() {
                lemma_skip_ws_run(old(self).input@, old(self).position as int);
            }
        }
        loop
            invariant
                self.wf(),
                self.input@ == old(self).input@,
                skip_ws_idx(self.input@, self.position as int) == skip_ws_idx(
                    old(self).input@,
                    old(self).position as int,
                ),
                forall|k: int|
                    old(self).position <= k < skip_ws_idx(
                        old(self).input@,
                        old(self).position as int,
                    ) ==> is_space_char(old(self).input@[k]),
            decreases self.input@.len() + 1 - self.position,
        {
            let c = match self.ch {
                Some(c) => c,
                None => {
                    return ;
                },
            };
            if !is_space(c) {
                return ;
            }
            self.read_char();
        }
    }

    /// Reads a run of alphanumeric characters starting at `position`.
    pub fn read_identifier(&mut self) -> (r: String)
        requires
            old(self).wf(),
            old(self).position <= old(self).input@.len(),
        ensures
            final(self).wf(),
            final(self).input@ == old(self).input@,
            final(self).position as int == ident_end(old(self).input@, old(self).position as int),
            r@ == old(self).input@.subrange(
                old(self).position as int,
                final(self).position as int,
            ),
    {
        let start = self.position;
        loop
            invariant
                self.wf(),
                self.input@ == old(self).input@,
                start <= self.position <= self.input@.len(),
                ident_end(self.input@, self.position as int) == ident_end(
                    old(self).input@,
                    old(self).position as int,
                ),
            ensures
                self.wf(),
                self.input@ == old(self).input@,
                start <= self.position <= self.input@.len(),
                self.position as int == ident_end(old(self).input@, old(self).position as int),
            decreases self.input@.len() - self.position,
        {
            let c = match self.ch {
                Some(c) => c,
                None => {
                    break ;
                },
            };
            if !is_alnum(c) {
                break ;
            }
            self.read_char();
        }
        string_from_chars(&self.input, start, self.position)
    }

    /// Reads a bare word: everything up to the next blank character.
    pub fn read_string(&mut self) -> (r: String)
        requires
            old(self).wf(),
            old(self).position <= old(self).input@.len(),
        ensures
            final(self).wf(),
            final(self).input@ == old(self).input@,
            final(self).position as int == word_end(old(self).input@, old(self).position as int),
            r@ == old(self).input@.subrange(
                old(self).position as int,
                final(self).position as int,
            ),
            forall|k: int|
                old(self).position <= k < final(self).position ==> !is_space_char(
                    old(self).input@[k],
                ),
    {
        proof {
            lemma_word_run(old(self).input@, old(self).position as int);
        }
        let start = self.position;
        loop
            invariant
                self.wf(),
                self.input@ == old(self).input@,
                start <= self.position <= self.input@.len(),
                word_end(self.input@, self.position as int) == word_end(
                    old(self).input@,
                    old(self).position as int,
                ),
            ensures
                self.wf(),
                self.input@ == old(self).input@,
                start <= self.position <= self.input@.len(),
                self.position as int == word_end(old(self).input@, old(self).position as int),
            decreases self.input@.len() - self.position,
        {
            let c = match self.ch {
                Some(c) => c,
                None => {
                    break ;
                },
            };
            if is_space(c) {
                break ;
            }
            self.read_char();
        }
        string_from_chars(&self.input, start, self.position)
    }

    /// Disambiguates `>`, `>|` and `>>` after a `>` was seen.
    fn match_rangle(&mut self) -> (t: Token)
        requires
            old(self).wf(),
            old(self).position < old(self).input@.len(),
            old(self).input@[old(self).position as int] == '>',
        ensures
            final(self).wf(),
            final(self).input@ == old(self).input@,
            lexed_token_at(t, old(self).input@, old(self).position as int),
            final(self).position as int == lex_end(old(self).input@, old(self).position as int),
    {
        match self.peek_char() {
            '|' => {
                self.read_char();
                Token::RangleF
            },
            '>' => {
                self.read_char();
                Token::DoubleRangle
            },
            _ => Token::Rangle,
        }
    }

    /// Disambiguates `2>`, `2>|`, `2>>` and a plain word after a `2` was seen.
    fn match_rangle2(&mut self) -> (t: Token)
        requires
            old(self).wf(),
            old(self).position < old(self).input@.len(),
            old(self).input@[old(self).position as int] == '2',
        ensures
            final(self).wf(),
            final(self).input@ == old(self).input@,
            lexed_token_at(t, old(self).input@, old(self).position as int),
            final(self).position as int == lex_end(old(self).input@, old(self).position as int),
    {
        match self.peek_char() {
            '>' => {
                self.read_char();
                match self.peek_char() {
                    '|' => {
                        self.read_char();
                        Token::Rangle2F
                    },
                    '>' => {
                        self.read_char();
                        Token::DoubleRangle2
                    },
                    _ => Token::Rangle2,
                }
            },
            _ => Token::String(self.read_string()),
        }
    }

    /// Produces the next token, or `None` at the end of the input.
    pub fn next_token(&mut self) -> (r: Option<Token>)
        requires
            old(self).wf(),
        ensures
            final(self).wf(),
            final(self).input@ == old(self).input@,
            ({
                let s = old(self).input@;
                let j = skip_ws_idx(s, old(self).position as int);
                if j >= s.len() {
                    r is None && final(self).position == j
                } else {
                    &&& r matches Some(t) && lexed_token_at(t, s, j)
                    &&& final(self).position as int == lex_end(s, j) + 1
                }
            }),
    {
        self.skip_whitespace();
        let c = match self.ch {
            Some(c) => c,
            None => {
                return None;
            },
        };
        let tok = match c {
            '&' => Token::And,
            '<' => Token::Langle,
            '>' => self.match_rangle(),
            '2' => self.match_rangle2(),
            _ => Token::String(self.read_string()),
        };
        proof {
            lemma_word_end_bounds(
                old(self).input@,
                skip_ws_idx(old(self).input@, old(self).position as int),
            );
        }
        self.read_char();
        Some(tok)
    }

    /// The character after the one under examination, or NUL past the end.
    fn peek_char(&self) -> (r: char)
        ensures
            r == peek_at(self.input@, self.read_position as int),
    {
        if self.read_position >= self.input.len() {
            '\0'
        } else {
            self.input[self.read_position]
        }
    }
}

/// Executable form of `is_space_char`.
pub fn is_space(c: char) -> (r: bool)
    ensures
        r == is_space_char(c),
{
    let u = c as u32;
    (9 <= u && u <= 13) || u == 32 || u == 0x85 || u == 0xA0 || u == 0x1680 || (0x2000 <= u && u
        <= 0x200A) || u == 0x2028 || u == 0x2029 || u == 0x202F || u == 0x205F || u == 0x3000
}

} // verus!
