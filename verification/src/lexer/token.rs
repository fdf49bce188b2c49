use vstd::prelude::*;

verus! {

/// One lexical token of a command line: a bare word, one of the seven
/// redirection operators, or the background marker `&`.
#[derive(Debug, PartialEq, Eq, Clone)]
pub enum Token {
    String(String),
    /// `<`
    Langle,
    /// `>`
    Rangle,
    /// `>|`
    RangleF,
    /// `>>`
    DoubleRangle,
    /// `2>`
    Rangle2,
    /// `2>|`
    Rangle2F,
    /// `2>>`
    DoubleRangle2,
    /// `&`
    And,
}

impl Token {
    /// The source text this token was read from (for a word, the word itself).
    pub fn text(&self) -> (r: String)
        ensures
            r@ == match self {
                Token::String(s) => s@,
                Token::Langle => "<"@,
                Token::Rangle => ">"@,
                Token::RangleF => ">|"@,
                Token::DoubleRangle => ">>"@,
                Token::Rangle2 => "2>"@,
                Token::Rangle2F => "2>|"@,
                Token::DoubleRangle2 => "2>>"@,
                Token::And => "&"@,
            },
    {
        match self {
            Token::String(s) => s.clone(),
            Token::Langle => String::from_str("<"),
            Token::Rangle => String::from_str(">"),
            Token::RangleF => String::from_str(">|"),
            Token::DoubleRangle => String::from_str(">>"),
            Token::Rangle2 => String::from_str("2>"),
            Token::Rangle2F => String::from_str("2>|"),
            Token::DoubleRangle2 => String::from_str("2>>"),
            Token::And => String::from_str("&"),
        }
    }
}

} // verus!
