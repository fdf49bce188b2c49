use vstd::prelude::*;

use crate::parser::token::Token;
use crate::strutil::push_char;

verus! {

/// Where a redirection sends or takes its data: a file named on the command
/// line, or an already-open file descriptor.
#[derive(Debug, PartialEq, Eq, Clone)]
pub enum Redirectee {
    FileName(String),
    FileDescriptor(i32),
}

/// The standard stream a redirection rebinds.
#[derive(Debug, PartialEq, Eq, Structural, Clone, Copy)]
pub enum RedirectionType {
    Stdin,
    Stdout,
    Stderr,
}

/// How the target file is opened: truncated (the forced `>|` form), appended
/// to (`>>`), or with the default semantics of the bare operator.
#[derive(Debug, PartialEq, Eq, Structural, Clone, Copy)]
pub enum RedirectionPermission {
    Truncate,
    Append,
    Standard,
}

/// The stream a redirection operator token addresses:
/// `<` is stdin; `>`, `>|`, `>>` are stdout; `2>`, `2>|`, `2>>` are stderr.
pub open spec fn redir_type_of(t: Token) -> Option<RedirectionType> {
    match t {
        Token::Langle => Some(RedirectionType::Stdin),
        Token::Rangle | Token::RangleF | Token::DoubleRangle => Some(RedirectionType::Stdout),
        Token::Rangle2 | Token::Rangle2F | Token::DoubleRangle2 => Some(RedirectionType::Stderr),
        _ => None,
    }
}

/// The open mode a redirection operator token carries:
/// `>|` and `2>|` force truncation, `>>` and `2>>` append,
/// `<`, `>` and `2>` use the stream's default.
pub open spec fn redir_perm_of(t: Token) -> Option<RedirectionPermission> {
    match t {
        Token::Langle | Token::Rangle | Token::Rangle2 => Some(RedirectionPermission::Standard),
        Token::RangleF | Token::Rangle2F => Some(RedirectionPermission::Truncate),
        Token::DoubleRangle | Token::DoubleRangle2 => Some(RedirectionPermission::Append),
        _ => None,
    }
}

impl RedirectionType {
    /// The stream addressed by a redirection operator token.
    pub fn from_token(t: &Token) -> (r: Result<RedirectionType, String>)
        ensures
            r is Ok <==> redir_type_of(*t) is Some,
            r matches Ok(ty) ==> redir_type_of(*t) == Some(ty),
            r matches Err(m) ==> m@ == "Invalid redirection marker"@,
    {
        match t {
            Token::Langle => Ok(RedirectionType::Stdin),
            Token::Rangle => Ok(RedirectionType::Stdout),
            Token::RangleF => Ok(RedirectionType::Stdout),
            Token::DoubleRangle => Ok(RedirectionType::Stdout),
            Token::Rangle2 => Ok(RedirectionType::Stderr),
            Token::Rangle2F => Ok(RedirectionType::Stderr),
            Token::DoubleRangle2 => Ok(RedirectionType::Stderr),
            _ => Err(String::from_str("Invalid redirection marker")),
        }
    }
}

impl RedirectionPermission {
    /// The open mode carried by a redirection operator token.
    pub fn from_token(t: &Token) -> (r: Result<RedirectionPermission, String>)
        ensures
            r is Ok <==> redir_perm_of(*t) is Some,
            r matches Ok(p) ==> redir_perm_of(*t) == Some(p),
            r matches Err(m) ==> m@ == "Invalid redirection marker"@,
    {
        match t {
            Token::Langle => Ok(RedirectionPermission::Standard),
            Token::Rangle => Ok(RedirectionPermission::Standard),
            Token::Rangle2 => Ok(RedirectionPermission::Standard),
            Token::RangleF => Ok(RedirectionPermission::Truncate),
            Token::Rangle2F => Ok(RedirectionPermission::Truncate),
            Token::DoubleRangle => Ok(RedirectionPermission::Append),
            Token::DoubleRangle2 => Ok(RedirectionPermission::Append),
            _ => Err(String::from_str("Invalid redirection marker")),
        }
    }
}

/// One redirection of a command: a target, the stream it rebinds, and the
/// open mode.
#[derive(Debug, PartialEq, Eq, Clone)]
pub struct Redirection {
    pub redirectee: Redirectee,
    pub type_: RedirectionType,
    pub permissions: RedirectionPermission,
}

impl Redirection {
    pub fn new(redirectee: Redirectee, type_: RedirectionType, permissions: RedirectionPermission) -> (r:
        Redirection)
        ensures
            r.redirectee == redirectee,
            r.type_ == type_,
            r.permissions == permissions,
    {
        Redirection { redirectee, type_, permissions }
    }

    /// The redirection named by an operator token and the file name after it.
    pub fn from_token(token: &Token, target: String) -> (r: Result<Redirection, String>)
        ensures
            r is Ok <==> redir_type_of(*token) is Some,
            r matches Ok(rd) ==> {
                &&& redir_type_of(*token) == Some(rd.type_)
                &&& redir_perm_of(*token) == Some(rd.permissions)
                &&& rd.redirectee == Redirectee::FileName(target)
            },
            r matches Err(m) ==> m@ == "Invalid redirection marker"@,
    {
        let type_ = match RedirectionType::from_token(token) {
            Ok(ty) => ty,
            Err(e) => {
                return Err(e);
            },
        };
        let permissions = match RedirectionPermission::from_token(token) {
            Ok(p) => p,
            Err(e) => {
                return Err(e);
            },
        };
        Ok(Redirection { type_, permissions, redirectee: Redirectee::FileName(target) })
    }
}

/// A parsed command line: the program name, its arguments, the redirections
/// in the order written, and whether it runs in the background.
#[derive(Debug, PartialEq, Eq)]
pub struct Command {
    pub name: String,
    pub args: Vec<String>,
    pub redirections: Vec<Redirection>,
    pub background: bool,
}

/// The arguments as displayed: each followed by one space.
pub open spec fn args_text(args: Seq<String>) -> Seq<char>
    decreases args.len(),
{
    if args.len() == 0 {
        Seq::empty()
    } else {
        args_text(args.drop_last()) + args.last()@ + seq![' ']
    }
}

/// A command line as displayed: the name and every argument, each followed
/// by one space; redirections and the background marker are not shown.
pub open spec fn rendered(c: Command) -> Seq<char> {
    c.name@ + seq![' '] + args_text(c.args@)
}

impl Command {
    pub fn new(name: String, args: Vec<String>, redirections: Vec<Redirection>, background: bool) -> (r:
        Command)
        ensures
            r.name == name,
            r.args == args,
            r.redirections == redirections,
            r.background == background,
    {
        Command { name, args, redirections, background }
    }

    /// The display form of the command, used as a job's name.
    pub fn render(&self) -> (r: String)
        ensures
            r@ == rendered(*self),
    {
        let mut s = self.name.clone();
        push_char(&mut s, ' ');
        let mut i: usize = 0;
        while i < self.args.len()
            invariant
                i <= self.args@.len(),
                s@ == self.name@ + seq![' '] + args_text(self.args@.subrange(0, i as int)),
            decreases self.args@.len() - i,
        {
            s.append(self.args[i].as_str());
            push_char(&mut s, ' ');
            i += 1;
            proof {
                let pre = self.args@.subrange(0, i as int);
                assert(pre.drop_last() =~= self.args@.subrange(0, i - 1));
                assert(s@ =~= self.name@ + seq![' '] + args_text(pre));
            }
        }
        proof {
            assert(self.args@.subrange(0, self.args@.len() as int) =~= self.args@);
        }
        s
    }
}

} // verus!
