use vstd::prelude::*;

verus! {

/// One token of a command line as the parser sees it: a bare word,
/// a redirection operator, or the background marker `&`.
#[derive(Debug, PartialEq, Eq, Clone)]
pub enum Token {
    String(String),
    /// `<`
    Langle,
    /// `>`
    Rangle,
    /// `>|`
    RangleF,
    /// `>>`
    DoubleRangle,
    /// `2>`
    Rangle2,
    /// `2>|`
    Rangle2F,
    /// `2>>`
    DoubleRangle2,
    /// `&`
    And,
}

} // verus!
