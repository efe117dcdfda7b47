//! Indices of the types that need no declaration, in the order in which the
//! type pool starts with them, and the questions an index alone answers.

use vstd::prelude::*;

use crate::types::TypeIndex;

verus! {

/// The poison type: reported once, it agrees with every other type.
pub const ERROR: TypeIndex = 0;

/// A type that is still to be inferred.
pub const INFER: TypeIndex = 1;

pub const UNIT: TypeIndex = 2;

/// The type of an expression that does not finish.
pub const NEVER: TypeIndex = 3;

/// The type of an integer literal before its width is known.
pub const INTEGER: TypeIndex = 4;

/// The type of a float literal before its width is known.
pub const FLOAT: TypeIndex = 5;

pub const U8: TypeIndex = 6;

pub const I8: TypeIndex = 7;

pub const U16: TypeIndex = 8;

pub const I16: TypeIndex = 9;

pub const U32: TypeIndex = 10;

pub const I32: TypeIndex = 11;

pub const U64: TypeIndex = 12;

pub const I64: TypeIndex = 13;

pub const F32: TypeIndex = 14;

pub const F64: TypeIndex = 15;

pub const BOOL: TypeIndex = 16;

pub const CHAR: TypeIndex = 17;

/// The number of types the pool starts with.
pub const PRIMITIVE_COUNT: usize = 18;

/// Whether `ty` is a literal's type, which the context has yet to pin down.
#[verifier::allow_in_spec]
pub fn is_comptime_number(ty: TypeIndex) -> (result: bool)
    returns
        ty == INTEGER || ty == FLOAT,
{
    ty == INTEGER || ty == FLOAT
}

/// Whether `ty` is an integer type of a fixed width.
#[verifier::allow_in_spec]
pub fn is_integer(ty: TypeIndex) -> (result: bool)
    returns
        U8 <= ty && ty <= I64,
{
    U8 <= ty && ty <= I64
}

/// Whether `ty` is an integer or float type of a fixed width.
#[verifier::allow_in_spec]
pub fn is_numeric(ty: TypeIndex) -> (result: bool)
    returns
        U8 <= ty && ty <= F64,
{
    U8 <= ty && ty <= F64
}

/// Whether `ty` is a number, `bool` or `char`.
#[verifier::allow_in_spec]
pub fn is_primitive(ty: TypeIndex) -> (result: bool)
    returns
        U8 <= ty && ty <= CHAR,
{
    U8 <= ty && ty <= CHAR
}

/// `ty`, or `default` where `ty` is still to be inferred.
#[verifier::allow_in_spec]
pub fn infer_or(ty: TypeIndex, default: TypeIndex) -> (result: TypeIndex)
    returns
        if ty == INFER {
            default
        } else {
            ty
        },
{
    if ty == INFER {
        default
    } else {
        ty
    }
}

} // verus!
