use vstd::prelude::*;
use crate::error::error_code::ErrorCode;
use crate::error::errors::{CompileError, CompileErrorView, ErrorPhase};
use crate::tokens::token_debug::token_debug_text;
use crate::tokens::token::Token;
use crate::tokens::token_kind::TokenKind;

verus! {

/// Binary operators supported in syntax expressions.
#[derive(Debug, Clone, Copy, PartialEq, Eq, Structural, Hash)]
pub enum BinaryOp {
    /// Addition operator (+).
    Add,

    /// Addition assignment operator (+=).
    AddEqual,

    /// Subtraction operator (-).
    Subtract,

    /// Subtraction assignment operator (-=).
    SubtractEqual,

    /// Multiplication operator (*).
    Multiply,

    /// Multiplication assignment operator (*=).
    MultiplyEqual,

    /// Division operator (/).
    Divide,

    /// Division assignment operator (/=).
    DivideEqual,

    /// Modulo operator (%).
    Modulo,

    /// Modulo assignment operator (%=).
    ModuloEqual,

    /// Equality comparison operator (==).
    Equal,

    /// Inequality comparison operator (!=).
    NotEqual,

    /// Less-than comparison operator (<).
    Less,

    /// Less-than-or-equal comparison operator (<=).
    LessEqual,

    /// Greater-than comparison operator (>).
    Greater,

    /// Greater-than-or-equal comparison operator (>=).
    GreaterEqual,

    /// Logical AND operator (&&).
    And,

    /// Logical OR operator (||).
    Or,

    /// Bitwise AND operator (&).
    BitwiseAnd,

    /// Bitwise AND assignment operator (&=).
    BitwiseAndEqual,

    /// Bitwise OR operator (|).
    BitwiseOr,

    /// Bitwise OR assignment operator (|=).
    BitwiseOrEqual,

    /// Bitwise XOR operator (^).
    BitwiseXor,

    /// Bitwise XOR assignment operator (^=).
    BitwiseXorEqual,

    /// Shift left operator (<<).
    ShiftLeft,

    /// Shift left assignment operator (<<=).
    ShiftLeftEqual,

    /// Shift right operator (>>).
    ShiftRight,

    /// Shift right assignment operator (>>=).
    ShiftRightEqual,
}

/// The name of the operator, as it is printed in diagnostics.
pub open spec fn binary_op_name(op: BinaryOp) -> Seq<char> {
    match op {
        BinaryOp::Add => "Add"@,
        BinaryOp::AddEqual => "AddEqual"@,
        BinaryOp::Subtract => "Subtract"@,
        BinaryOp::SubtractEqual => "SubtractEqual"@,
        BinaryOp::Multiply => "Multiply"@,
        BinaryOp::MultiplyEqual => "MultiplyEqual"@,
        BinaryOp::Divide => "Divide"@,
        BinaryOp::DivideEqual => "DivideEqual"@,
        BinaryOp::Modulo => "Modulo"@,
        BinaryOp::ModuloEqual => "ModuloEqual"@,
        BinaryOp::Equal => "Equal"@,
        BinaryOp::NotEqual => "NotEqual"@,
        BinaryOp::Less => "Less"@,
        BinaryOp::LessEqual => "LessEqual"@,
        BinaryOp::Greater => "Greater"@,
        BinaryOp::GreaterEqual => "GreaterEqual"@,
        BinaryOp::And => "And"@,
        BinaryOp::Or => "Or"@,
        BinaryOp::BitwiseAnd => "BitwiseAnd"@,
        BinaryOp::BitwiseAndEqual => "BitwiseAndEqual"@,
        BinaryOp::BitwiseOr => "BitwiseOr"@,
        BinaryOp::BitwiseOrEqual => "BitwiseOrEqual"@,
        BinaryOp::BitwiseXor => "BitwiseXor"@,
        BinaryOp::BitwiseXorEqual => "BitwiseXorEqual"@,
        BinaryOp::ShiftLeft => "ShiftLeft"@,
        BinaryOp::ShiftLeftEqual => "ShiftLeftEqual"@,
        BinaryOp::ShiftRight => "ShiftRight"@,
        BinaryOp::ShiftRightEqual => "ShiftRightEqual"@,
    }
}

/// The operator that a token denotes, if it denotes one.
pub open spec fn token_binary_op(kind: TokenKind) -> Option<BinaryOp> {
    match kind {
        TokenKind::Plus => Some(BinaryOp::Add),
        TokenKind::PlusEqual => Some(BinaryOp::AddEqual),
        TokenKind::Minus => Some(BinaryOp::Subtract),
        TokenKind::MinusEqual => Some(BinaryOp::SubtractEqual),
        TokenKind::Star => Some(BinaryOp::Multiply),
        TokenKind::StarEqual => Some(BinaryOp::MultiplyEqual),
        TokenKind::Slash => Some(BinaryOp::Divide),
        TokenKind::SlashEqual => Some(BinaryOp::DivideEqual),
        TokenKind::Percent => Some(BinaryOp::Modulo),
        TokenKind::PercentEqual => Some(BinaryOp::ModuloEqual),
        TokenKind::EqualEqual => Some(BinaryOp::Equal),
        TokenKind::NotEqual => Some(BinaryOp::NotEqual),
        TokenKind::Less => Some(BinaryOp::Less),
        TokenKind::LessEqual => Some(BinaryOp::LessEqual),
        TokenKind::Greater => Some(BinaryOp::Greater),
        TokenKind::GreaterEqual => Some(BinaryOp::GreaterEqual),
        TokenKind::AndAnd => Some(BinaryOp::And),
        TokenKind::OrOr => Some(BinaryOp::Or),
        TokenKind::And => Some(BinaryOp::BitwiseAnd),
        TokenKind::AndEqual => Some(BinaryOp::BitwiseAndEqual),
        TokenKind::Or => Some(BinaryOp::BitwiseOr),
        TokenKind::OrEqual => Some(BinaryOp::BitwiseOrEqual),
        TokenKind::Xor => Some(BinaryOp::BitwiseXor),
        TokenKind::XorEqual => Some(BinaryOp::BitwiseXorEqual),
        TokenKind::ShiftLeft => Some(BinaryOp::ShiftLeft),
        TokenKind::ShiftLeftEqual => Some(BinaryOp::ShiftLeftEqual),
        TokenKind::ShiftRight => Some(BinaryOp::ShiftRight),
        TokenKind::ShiftRightEqual => Some(BinaryOp::ShiftRightEqual),
        _ => None,
    }
}

impl BinaryOp {
    /// The name of the operator, as it is printed in diagnostics.
    pub fn name(&self) -> (s: &'static str)
        ensures
            s@ == binary_op_name(*self),
    {
        match self {
            BinaryOp::Add => "Add",
            BinaryOp::AddEqual => "AddEqual",
            BinaryOp::Subtract => "Subtract",
            BinaryOp::SubtractEqual => "SubtractEqual",
            BinaryOp::Multiply => "Multiply",
            BinaryOp::MultiplyEqual => "MultiplyEqual",
            BinaryOp::Divide => "Divide",
            BinaryOp::DivideEqual => "DivideEqual",
            BinaryOp::Modulo => "Modulo",
            BinaryOp::ModuloEqual => "ModuloEqual",
            BinaryOp::Equal => "Equal",
            BinaryOp::NotEqual => "NotEqual",
            BinaryOp::Less => "Less",
            BinaryOp::LessEqual => "LessEqual",
            BinaryOp::Greater => "Greater",
            BinaryOp::GreaterEqual => "GreaterEqual",
            BinaryOp::And => "And",
            BinaryOp::Or => "Or",
            BinaryOp::BitwiseAnd => "BitwiseAnd",
            BinaryOp::BitwiseAndEqual => "BitwiseAndEqual",
            BinaryOp::BitwiseOr => "BitwiseOr",
            BinaryOp::BitwiseOrEqual => "BitwiseOrEqual",
            BinaryOp::BitwiseXor => "BitwiseXor",
            BinaryOp::BitwiseXorEqual => "BitwiseXorEqual",
            BinaryOp::ShiftLeft => "ShiftLeft",
            BinaryOp::ShiftLeftEqual => "ShiftLeftEqual",
            BinaryOp::ShiftRight => "ShiftRight",
            BinaryOp::ShiftRightEqual => "ShiftRightEqual",
        }
    }

    /// Converts a token into its binary operator; any other token is a syntax
    /// error `E1005` at the token's span, without help text.
    pub fn get_op(token: &Token) -> (res: Result<Self, CompileError>)
        ensures
            token_binary_op(token.kind) matches Some(op) ==> res == Ok::<Self, CompileError>(op),
            token_binary_op(token.kind) is None ==> (res matches Err(e) && e@ == CompileErrorView::Located {
                phase: ErrorPhase::Syntax,
                code: Some(ErrorCode::E1005),
                message: "Invalid binary operator: "@ + token_debug_text(token.kind),
                span: token.span@,
                help: None,
            }),
    {
        Ok(match token.kind {
            TokenKind::Plus => BinaryOp::Add,
            TokenKind::PlusEqual => BinaryOp::AddEqual,
            TokenKind::Minus => BinaryOp::Subtract,
            TokenKind::MinusEqual => BinaryOp::SubtractEqual,
            TokenKind::Star => BinaryOp::Multiply,
            TokenKind::StarEqual => BinaryOp::MultiplyEqual,
            TokenKind::Slash => BinaryOp::Divide,
            TokenKind::SlashEqual => BinaryOp::DivideEqual,
            TokenKind::Percent => BinaryOp::Modulo,
            TokenKind::PercentEqual => BinaryOp::ModuloEqual,
            TokenKind::EqualEqual => BinaryOp::Equal,
            TokenKind::NotEqual => BinaryOp::NotEqual,
            TokenKind::Less => BinaryOp::Less,
            TokenKind::LessEqual => BinaryOp::LessEqual,
            TokenKind::Greater => BinaryOp::Greater,
            TokenKind::GreaterEqual => BinaryOp::GreaterEqual,
            TokenKind::AndAnd => BinaryOp::And,
            TokenKind::OrOr => BinaryOp::Or,
            TokenKind::And => BinaryOp::BitwiseAnd,
            TokenKind::AndEqual => BinaryOp::BitwiseAndEqual,
            TokenKind::Or => BinaryOp::BitwiseOr,
            TokenKind::OrEqual => BinaryOp::BitwiseOrEqual,
            TokenKind::Xor => BinaryOp::BitwiseXor,
            TokenKind::XorEqual => BinaryOp::BitwiseXorEqual,
            TokenKind::ShiftLeft => BinaryOp::ShiftLeft,
            TokenKind::ShiftLeftEqual => BinaryOp::ShiftLeftEqual,
            TokenKind::ShiftRight => BinaryOp::ShiftRight,
            TokenKind::ShiftRightEqual => BinaryOp::ShiftRightEqual,
            _ => {
                let mut message = String::from_str("Invalid binary operator: ");
                let kind_text = token.kind.debug_text();
                message.append(kind_text.as_str());
                return Err(CompileError::SyntaxError {
                    code: Some(ErrorCode::E1005),
                    message,
                    span: token.span.clone(),
                    help: None,
                });
            },
        })
    }
}

} // verus!
