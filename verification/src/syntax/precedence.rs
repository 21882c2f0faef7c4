//! Binding powers of operators for the Pratt expression parser.
use vstd::prelude::*;
use crate::tokens::token::Token;
use crate::tokens::token_kind::TokenKind;

verus! {

/// Left and right binding power of an operator: a higher power binds
/// tighter, and `left > right` makes an operator left-associative.
#[derive(Debug, Clone, Copy, PartialEq, Eq, Structural)]
pub struct Precedence {
    pub left: u8,
    pub right: u8,
}

/// The binding powers of an infix or postfix operator token; other tokens
/// have none (`0, 0`). Assignments bind loosest; calls, indexing, member
/// access and postfix steps bind tightest.
pub open spec fn infix_power(kind: TokenKind) -> (u8, u8) {
    match kind {
        TokenKind::Equal | TokenKind::PlusEqual | TokenKind::MinusEqual | TokenKind::AndEqual | TokenKind::OrEqual
        | TokenKind::PercentEqual | TokenKind::XorEqual | TokenKind::StarEqual | TokenKind::SlashEqual
        | TokenKind::ShiftLeftEqual | TokenKind::ShiftRightEqual => (2, 1),
        TokenKind::OrOr => (4, 3),
        TokenKind::AndAnd => (6, 5),
        TokenKind::EqualEqual | TokenKind::NotEqual => (8, 7),
        TokenKind::Less | TokenKind::LessEqual | TokenKind::Greater | TokenKind::GreaterEqual => (10, 9),
        TokenKind::Or => (12, 11),
        TokenKind::Xor => (14, 13),
        TokenKind::And => (16, 15),
        TokenKind::ShiftLeft | TokenKind::ShiftRight => (18, 17),
        TokenKind::Plus | TokenKind::Minus => (20, 19),
        TokenKind::Star | TokenKind::Slash | TokenKind::Percent => (22, 21),
        TokenKind::OpenParen | TokenKind::OpenBracket | TokenKind::Dot | TokenKind::PlusPlus
        | TokenKind::MinusMinus => (27, 26),
        _ => (0, 0),
    }
}

/// The binding power of a prefix operator token: `!`, `-`, `~`, `++` and
/// `--` bind tighter than every infix operator; other tokens have none.
pub open spec fn prefix_power(kind: TokenKind) -> (u8, u8) {
    match kind {
        TokenKind::Not | TokenKind::Minus | TokenKind::BitwiseNot | TokenKind::PlusPlus | TokenKind::MinusMinus => (
            24,
            23,
        ),
        _ => (0, 0),
    }
}

impl Precedence {
    /// The binding powers of an infix or postfix operator token.
    pub fn binding_power(token: &Token) -> (r: Self)
        ensures
            (r.left, r.right) == infix_power(token.kind),
    {
        match token.kind {
            TokenKind::Equal | TokenKind::PlusEqual | TokenKind::MinusEqual | TokenKind::AndEqual
            | TokenKind::OrEqual | TokenKind::PercentEqual | TokenKind::XorEqual | TokenKind::StarEqual
            | TokenKind::SlashEqual | TokenKind::ShiftLeftEqual | TokenKind::ShiftRightEqual => Self::new(2, 1),
            TokenKind::OrOr => Self::new(4, 3),
            TokenKind::AndAnd => Self::new(6, 5),
            TokenKind::EqualEqual | TokenKind::NotEqual => Self::new(8, 7),
            TokenKind::Less | TokenKind::LessEqual | TokenKind::Greater | TokenKind::GreaterEqual => Self::new(10, 9),
            TokenKind::Or => Self::new(12, 11),
            TokenKind::Xor => Self::new(14, 13),
            TokenKind::And => Self::new(16, 15),
            TokenKind::ShiftLeft | TokenKind::ShiftRight => Self::new(18, 17),
            TokenKind::Plus | TokenKind::Minus => Self::new(20, 19),
            TokenKind::Star | TokenKind::Slash | TokenKind::Percent => Self::new(22, 21),
            TokenKind::OpenParen | TokenKind::OpenBracket | TokenKind::Dot | TokenKind::PlusPlus
            | TokenKind::MinusMinus => Self::new(27, 26),
            _ => Self::new(0, 0),
        }
    }

    /// The binding power of a prefix operator token.
    pub fn unary_binding_power(token: &Token) -> (r: Self)
        ensures
            (r.left, r.right) == prefix_power(token.kind),
    {
        match token.kind {
            TokenKind::Not | TokenKind::Minus | TokenKind::BitwiseNot | TokenKind::PlusPlus
            | TokenKind::MinusMinus => Self::new(24, 23),
            _ => Self::new(0, 0),
        }
    }

    fn new(left: u8, right: u8) -> (r: Self)
        ensures
            r.left == left && r.right == right,
    {
        Self { left, right }
    }
}

/// Every operator's left power is one more than its right power; prefix
/// operators bind tighter than every binary operator and looser than the
/// postfix ones.
pub proof fn law_binding_powers_ordered(kind: TokenKind)
    ensures
        infix_power(kind).0 >= infix_power(kind).1,
        infix_power(kind).0 > 0 ==> infix_power(kind).0 == infix_power(kind).1 + 1,
        infix_power(kind).0 > 0 && infix_power(kind).0 != 27 ==> infix_power(kind).0 < prefix_power(
            TokenKind::Minus,
        ).1,
        prefix_power(TokenKind::Minus).0 < infix_power(TokenKind::PlusPlus).1,
{
}

/// The documented order of the binary operator levels, loosest first:
/// assignments, `||`, `&&`, equality, comparison, `|`, `^`, `&`, shifts,
/// additive, multiplicative; then prefix operators, then calls, indexing,
/// member access and postfix steps. Every operator of a level binds tighter
/// than every operator of the level before: its right power is above the
/// left power of the looser one, so `a || b && c` groups as `a || (b && c)`.
/// Operators of one level share their powers and group to the left.
pub proof fn law_operator_levels()
    ensures
        infix_power(TokenKind::OrOr).1 > infix_power(TokenKind::Equal).0,
        infix_power(TokenKind::AndAnd).1 > infix_power(TokenKind::OrOr).0,
        infix_power(TokenKind::EqualEqual).1 > infix_power(TokenKind::AndAnd).0,
        infix_power(TokenKind::Less).1 > infix_power(TokenKind::EqualEqual).0,
        infix_power(TokenKind::Or).1 > infix_power(TokenKind::Less).0,
        infix_power(TokenKind::Xor).1 > infix_power(TokenKind::Or).0,
        infix_power(TokenKind::And).1 > infix_power(TokenKind::Xor).0,
        infix_power(TokenKind::ShiftLeft).1 > infix_power(TokenKind::And).0,
        infix_power(TokenKind::Plus).1 > infix_power(TokenKind::ShiftLeft).0,
        infix_power(TokenKind::Star).1 > infix_power(TokenKind::Plus).0,
        prefix_power(TokenKind::Not).1 > infix_power(TokenKind::Star).0,
        infix_power(TokenKind::OpenParen).1 > prefix_power(TokenKind::Not).0,
        infix_power(TokenKind::NotEqual) == infix_power(TokenKind::EqualEqual),
        infix_power(TokenKind::LessEqual) == infix_power(TokenKind::Less),
        infix_power(TokenKind::Greater) == infix_power(TokenKind::Less),
        infix_power(TokenKind::GreaterEqual) == infix_power(TokenKind::Less),
        infix_power(TokenKind::ShiftRight) == infix_power(TokenKind::ShiftLeft),
        infix_power(TokenKind::Minus) == infix_power(TokenKind::Plus),
        infix_power(TokenKind::Slash) == infix_power(TokenKind::Star),
        infix_power(TokenKind::Percent) == infix_power(TokenKind::Star),
        infix_power(TokenKind::PlusEqual) == infix_power(TokenKind::Equal),
        infix_power(TokenKind::OpenBracket) == infix_power(TokenKind::OpenParen),
        infix_power(TokenKind::Dot) == infix_power(TokenKind::OpenParen),
        infix_power(TokenKind::PlusPlus) == infix_power(TokenKind::OpenParen),
        prefix_power(TokenKind::Minus) == prefix_power(TokenKind::Not),
        prefix_power(TokenKind::BitwiseNot) == prefix_power(TokenKind::Not),
        infix_power(TokenKind::Plus).0 > infix_power(TokenKind::Plus).1,
        infix_power(TokenKind::Equal).0 > 0,
        infix_power(TokenKind::Semicolon) == (0u8, 0u8),
{
}

} // verus!
