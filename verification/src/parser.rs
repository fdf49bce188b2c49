use vstd::prelude::*;

use crate::lexer::is_space;
use crate::lexer::is_space_char;
use crate::lexer::skip_ws_idx;
use crate::parser::ast::Command;
use crate::parser::ast::Redirection;
use crate::parser::ast::Redirectee;
use crate::parser::ast::redir_perm_of;
use crate::parser::ast::redir_type_of;
use crate::parser::token::Token;
use crate::strutil::chars_of;
use crate::strutil::string_from_chars;

pub mod ast;
pub mod token;

verus! {

/// A character that ends a bare word and forms an operator of its own.
pub open spec fn special_char(c: char) -> bool {
    c == '&' || c == '<' || c == '>'
}

/// Executable form of `special_char`.
fn is_special(c: char) -> (r: bool)
    ensures
        r == special_char(c),
{
    c == '&' || c == '<' || c == '>'
}

/// Where a bare word starting at `i` ends: at the first blank or special
/// character, or at the end of the input.
pub open spec fn token_word_end(s: Seq<char>, i: int) -> int
    decreases s.len() - i,
{
    if 0 <= i < s.len() && !is_space_char(s[i]) && !special_char(s[i]) {
        token_word_end(s, i + 1)
    } else {
        i
    }
}

/// A bare word never runs past the end of the input.
proof fn lemma_token_word_end_bounds(s: Seq<char>, i: int)
    requires
        0 <= i <= s.len(),
    ensures
        i <= token_word_end(s, i) <= s.len(),
    decreases s.len() - i,
{
    if i < s.len() && !is_space_char(s[i]) && !special_char(s[i]) {
        lemma_token_word_end_bounds(s, i + 1);
    }
}

/// The character at index `j`, or NUL beyond the end.
pub open spec fn char_at(s: Seq<char>, j: int) -> char {
    if 0 <= j < s.len() {
        s[j]
    } else {
        '\0'
    }
}

/// Whether `t` is the token that starts at index `j` of `s`
/// (`j` must point at a non-blank character).
pub open spec fn token_at(t: Token, s: Seq<char>, j: int) -> bool {
    let c = s[j];
    if c == '&' {
        t == Token::And
    } else if c == '<' {
        t == Token::Langle
    } else if c == '>' {
        if char_at(s, j + 1) == '|' {
            t == Token::RangleF
        } else if char_at(s, j + 1) == '>' {
            t == Token::DoubleRangle
        } else {
            t == Token::Rangle
        }
    } else if c == '2' && char_at(s, j + 1) == '>' {
        if char_at(s, j + 2) == '|' {
            t == Token::Rangle2F
        } else if char_at(s, j + 2) == '>' {
            t == Token::DoubleRangle2
        } else {
            t == Token::Rangle2
        }
    } else {
        t matches Token::String(w) && w@ == s.subrange(j, token_word_end(s, j))
    }
}

/// The index just past the token that starts at index `j` of `s`.
pub open spec fn token_end(s: Seq<char>, j: int) -> int {
    let c = s[j];
    if c == '&' || c == '<' {
        j + 1
    } else if c == '>' {
        if char_at(s, j + 1) == '|' || char_at(s, j + 1) == '>' {
            j + 2
        } else {
            j + 1
        }
    } else if c == '2' && char_at(s, j + 1) == '>' {
        if char_at(s, j + 2) == '|' || char_at(s, j + 2) == '>' {
            j + 3
        } else {
            j + 2
        }
    } else {
        token_word_end(s, j)
    }
}

/// Whether `ts` is exactly the token sequence read from `s` starting at
/// index `i`.
pub open spec fn scan_matches(ts: Seq<Token>, s: Seq<char>, i: int) -> bool
    decreases ts.len(),
{
    let j = skip_ws_idx(s, i);
    if ts.len() == 0 {
        j >= s.len()
    } else {
        &&& j < s.len()
        &&& token_at(ts[0], s, j)
        &&& scan_matches(ts.drop_first(), s, token_end(s, j))
    }
}

/// Whether the tokens after the command name, from index `i` on, form a
/// well-shaped tail: words and redirections in any order, and at most one
/// background marker, standing last.
pub open spec fn tail_ok(ts: Seq<Token>, i: int) -> bool
    decreases ts.len() - i,
{
    if i >= ts.len() {
        true
    } else {
        match ts[i] {
            Token::String(_) => tail_ok(ts, i + 1),
            Token::And => i == ts.len() - 1,
            _ => i + 1 < ts.len() && ts[i + 1] is String && tail_ok(ts, i + 2),
        }
    }
}

/// Whether `args`, `redirs` and `background` are exactly what the token tail
/// from index `i` on describes, in order.
pub open spec fn items_match(
    ts: Seq<Token>,
    i: int,
    args: Seq<String>,
    redirs: Seq<Redirection>,
    background: bool,
) -> bool
    decreases ts.len() - i,
{
    if i >= ts.len() {
        args.len() == 0 && redirs.len() == 0 && !background
    } else {
        match ts[i] {
            Token::String(w) => {
                &&& args.len() >= 1
                &&& args[0]@ == w@
                &&& items_match(ts, i + 1, args.drop_first(), redirs, background)
            },
            Token::And => {
                &&& i == ts.len() - 1
                &&& args.len() == 0
                &&& redirs.len() == 0
                &&& background
            },
            op => {
                &&& i + 1 < ts.len()
                &&& ts[i + 1] matches Token::String(target)
                &&& redirs.len() >= 1
                &&& redirs[0].redirectee matches Redirectee::FileName(p) && p@ == target@
                &&& redir_type_of(op) == Some(redirs[0].type_)
                &&& redir_perm_of(op) == Some(redirs[0].permissions)
                &&& items_match(ts, i + 2, args, redirs.drop_first(), background)
            },
        }
    }
}

/// Whether the token sequence forms a command at all: a leading word,
/// then a well-shaped tail.
pub open spec fn command_parses(ts: Seq<Token>) -> bool {
    ts.len() >= 1 && ts[0] is String && tail_ok(ts, 1)
}

/// Whether `cmd` is exactly the command the token sequence describes.
pub open spec fn command_matches(ts: Seq<Token>, cmd: Command) -> bool {
    &&& ts.len() >= 1
    &&& ts[0] matches Token::String(n) && cmd.name@ == n@
    &&& items_match(ts, 1, cmd.args@, cmd.redirections@, cmd.background)
}

/// Two tokens carry the same text: equal word views, or the very same
/// operator.
pub open spec fn token_view_eq(a: Token, b: Token) -> bool {
    match (a, b) {
        (Token::String(w1), Token::String(w2)) => w1@ == w2@,
        _ => a == b,
    }
}

/// Two token sequences carry the same text, position by position.
pub open spec fn tokens_view_eq(ts1: Seq<Token>, ts2: Seq<Token>) -> bool {
    ts1.len() == ts2.len() && forall|i: int|
        0 <= i < ts1.len() ==> token_view_eq(ts1[i], ts2[i])
}

/// Scanning is deterministic: any two token sequences read from the same
/// input carry the same text. With this, the parse contract's witness
/// sequence is the only one there is, up to word views.
pub proof fn lemma_scan_deterministic(ts1: Seq<Token>, ts2: Seq<Token>, s: Seq<char>, i: int)
    requires
        scan_matches(ts1, s, i),
        scan_matches(ts2, s, i),
    ensures
        tokens_view_eq(ts1, ts2),
    decreases ts1.len(),
{
    let j = skip_ws_idx(s, i);
    if ts1.len() == 0 || ts2.len() == 0 {
        assert(ts1.len() == 0 && ts2.len() == 0);
    } else {
        assert(token_view_eq(ts1[0], ts2[0]));
        lemma_scan_deterministic(ts1.drop_first(), ts2.drop_first(), s, token_end(s, j));
        assert forall|k: int| 0 <= k < ts1.len() implies token_view_eq(ts1[k], ts2[k]) by {
            if k > 0 {
                assert(ts1.drop_first()[k - 1] == ts1[k]);
                assert(ts2.drop_first()[k - 1] == ts2[k]);
            }
        }
    }
}

/// The command-line grammar. The only entry point is [`ShellParser::parse`]
/// (or the free function [`parse_command`]).
pub struct ShellParser;

impl ShellParser {
    /// Parses one command line; see [`parse_command`].
    pub fn parse(input: &str) -> (r: Result<Command, String>)
        ensures
            exists|ts: Seq<Token>|
                {
                    &&& scan_matches(ts, input@, 0)
                    &&& (r is Ok <==> command_parses(ts))
                    &&& (r matches Ok(cmd) ==> command_matches(ts, cmd))
                },
    {
        let chars = chars_of(input);
        let tokens = scan_tokens(&chars, 0);
        let ghost ts = tokens@;
        let r = build_command(tokens);
        proof {
            assert(scan_matches(ts, input@, 0));
        }
        r
    }
}

/// Parses one command line into a [`Command`]: a command name, then words,
/// redirections (an operator followed by a file name) and, last if at all,
/// the background marker `&`. Returns an error for an empty line or a
/// malformed tail.
pub fn parse_command(input: &str) -> (r: Result<Command, String>)
    ensures
        exists|ts: Seq<Token>|
            {
                &&& scan_matches(ts, input@, 0)
                &&& (r is Ok <==> command_parses(ts))
                &&& (r matches Ok(cmd) ==> command_matches(ts, cmd))
            },
{
    ShellParser::parse(input)
}

/// Reads the tokens of `chars` from index `i` on.
fn scan_tokens(chars: &Vec<char>, i: usize) -> (r: Vec<Token>)
    requires
        i <= chars@.len(),
    ensures
        scan_matches(r@, chars@, i as int),
    decreases chars@.len() - i,
{
    let n = chars.len();
    let mut j = i;
    loop
        invariant
            i <= j <= n,
            n == chars@.len(),
            skip_ws_idx(chars@, j as int) == skip_ws_idx(chars@, i as int),
        ensures
            i <= j <= n,
            n == chars@.len(),
            j as int == skip_ws_idx(chars@, i as int),
            j == n || !is_space_char(chars@[j as int]),
        decreases n - j,
    {
        if j >= n {
            break ;
        }
        if !is_space(chars[j]) {
            break ;
        }
        j += 1;
    }
    if j >= n {
        let r: Vec<Token> = Vec::new();
        return r;
    }
    let c = chars[j];
    let t: Token;
    let next: usize;
    if c == '&' {
        t = Token::And;
        next = j + 1;
    } else if c == '<' {
        t = Token::Langle;
        next = j + 1;
    } else if c == '>' {
        if j + 1 < n && chars[j + 1] == '|' {
            t = Token::RangleF;
            next = j + 2;
        } else if j + 1 < n && chars[j + 1] == '>' {
            t = Token::DoubleRangle;
            next = j + 2;
        } else {
            t = Token::Rangle;
            next = j + 1;
        }
    } else if c == '2' && j + 1 < n && chars[j + 1] == '>' {
        if j + 2 < n && chars[j + 2] == '|' {
            t = Token::Rangle2F;
            next = j + 3;
        } else if j + 2 < n && chars[j + 2] == '>' {
            t = Token::DoubleRangle2;
            next = j + 3;
        } else {
            t = Token::Rangle2;
            next = j + 2;
        }
    } else {
        let mut k = j;
        loop
            invariant
                j <= k <= n,
                n == chars@.len(),
                token_word_end(chars@, k as int) == token_word_end(chars@, j as int),
            ensures
                j <= k <= n,
                k as int == token_word_end(chars@, j as int),
            decreases n - k,
        {
            if k >= n {
                break ;
            }
            let c2 = chars[k];
            if is_space(c2) || is_special(c2) {
                break ;
            }
            k += 1;
        }
        proof {
            lemma_token_word_end_bounds(chars@, j + 1);
            assert(token_word_end(chars@, j as int) == token_word_end(chars@, j + 1));
        }
        t = Token::String(string_from_chars(chars, j, k));
        next = k;
    }
    let ghost tok = t;
    let mut rest = scan_tokens(chars, next);
    let ghost rest0 = rest@;
    rest.insert(0, t);
    proof {
        assert(rest@.drop_first() =~= rest0);
        assert(next as int == token_end(chars@, j as int));
        assert(token_at(tok, chars@, j as int));
    }
    rest
}

/// Builds a [`Command`] from a scanned token sequence.
fn build_command(tokens: Vec<Token>) -> (r: Result<Command, String>)
    ensures
        r is Ok <==> command_parses(tokens@),
        r matches Ok(cmd) ==> command_matches(tokens@, cmd),
{
    if tokens.len() == 0 {
        return Err(String::from_str("empty command"));
    }
    let name = match &tokens[0] {
        Token::String(s) => s.clone(),
        _ => {
            return Err(String::from_str("expected a command name"));
        },
    };
    match parse_items(&tokens, 1) {
        Ok((args, redirections, background)) => Ok(
            Command { name, args, redirections, background },
        ),
        Err(e) => Err(e),
    }
}

/// Parses the tail after the command name: words, redirections and the
/// trailing background marker.
fn parse_items(tokens: &Vec<Token>, i: usize) -> (r: Result<
    (Vec<String>, Vec<Redirection>, bool),
    String,
>)
    requires
        i <= tokens@.len(),
    ensures
        r is Ok <==> tail_ok(tokens@, i as int),
        r matches Ok(t3) ==> items_match(tokens@, i as int, t3.0@, t3.1@, t3.2),
    decreases tokens@.len() - i,
{
    if i >= tokens.len() {
        let empty_args: Vec<String> = Vec::new();
        let empty_redirs: Vec<Redirection> = Vec::new();
        return Ok((empty_args, empty_redirs, false));
    }
    match &tokens[i] {
        Token::String(w) => {
            match parse_items(tokens, i + 1) {
                Ok((mut args, redirs, background)) => {
                    let ghost args0 = args@;
                    args.insert(0, w.clone());
                    proof {
                        assert(args@.drop_first() =~= args0);
                    }
                    Ok((args, redirs, background))
                },
                Err(e) => Err(e),
            }
        },
        Token::And => {
            if i + 1 == tokens.len() {
                let empty_args: Vec<String> = Vec::new();
                let empty_redirs: Vec<Redirection> = Vec::new();
                Ok((empty_args, empty_redirs, true))
            } else {
                Err(String::from_str("the background marker must stand last"))
            }
        },
        op => {
            if i + 1 < tokens.len() {
                match &tokens[i + 1] {
                    Token::String(target) => {
                        let rd = match Redirection::from_token(op, target.clone()) {
                            Ok(rd) => rd,
                            Err(e) => {
                                return Err(e);
                            },
                        };
                        match parse_items(tokens, i + 2) {
                            Ok((args, mut redirs, background)) => {
                                let ghost redirs0 = redirs@;
                                redirs.insert(0, rd);
                                proof {
                                    assert(redirs@.drop_first() =~= redirs0);
                                }
                                Ok((args, redirs, background))
                            },
                            Err(e) => Err(e),
                        }
                    },
                    _ => Err(String::from_str("expected a redirection target")),
                }
            } else {
                Err(String::from_str("expected a redirection target"))
            }
        },
    }
}

} // verus!
