//! The diagnostics of the type checker.
//!
//! One function per diagnostic: it fixes the code, the message, the labelled
//! places and the notes.

use vstd::prelude::*;

use crate::ast::{BinaryOp, UnaryOp};
use crate::diagnostics::{text, with_piece, Diagnostic, DiagnosticCode, Label, Message, Piece};
use crate::list;
use crate::list::{cons, List};
use crate::span::{FileId, SourceSpan, Spanned, Symbol};
use crate::tir::{IntegerRange, SymbolNamespace};
use crate::types::TypeIndex;

verus! {

#[verifier::allow_in_spec]
pub fn report_not_a_field(member: Symbol, ty: TypeIndex, span: SourceSpan) -> (result: Diagnostic)
    returns
        Diagnostic::error()
            .with_code(DiagnosticCode::NotAField)
            .with_message(with_piece("cannot access `", Piece::Name(member), text("` as a field")))
            .with_label(span.primary_label().with_message(text("not a field")))
            .with_note(with_piece("use `", Piece::Type(ty), with_piece("::", Piece::Name(member), text("` to access it instead")))),
{
    Diagnostic::error()
        .with_code(DiagnosticCode::NotAField)
        .with_message(with_piece("cannot access `", Piece::Name(member), text("` as a field")))
        .with_label(span.primary_label().with_message(text("not a field")))
        .with_note(with_piece("use `", Piece::Type(ty), with_piece("::", Piece::Name(member), text("` to access it instead"))))
}

#[verifier::allow_in_spec]
pub fn report_not_generic(span: SourceSpan) -> (result: Diagnostic)
    returns
        Diagnostic::error()
            .with_code(DiagnosticCode::TypeArgCountMismatch)
            .with_message(text("function is not generic"))
            .with_label(span.primary_label().with_message(text("type arguments provided but this function has no type parameters"))),
{
    Diagnostic::error()
        .with_code(DiagnosticCode::TypeArgCountMismatch)
        .with_message(text("function is not generic"))
        .with_label(span.primary_label().with_message(text("type arguments provided but this function has no type parameters")))
}

#[verifier::allow_in_spec]
pub fn report_no_member_type(name: Symbol, ty: TypeIndex, span: SourceSpan) -> (result: Diagnostic)
    returns
        Diagnostic::error()
            .with_code(DiagnosticCode::UndeclaredType)
            .with_message(with_piece("no type named `", Piece::Name(name), with_piece("` found for type `", Piece::Type(ty), text("`"))))
            .with_label(span.primary_label()),
{
    Diagnostic::error()
        .with_code(DiagnosticCode::UndeclaredType)
        .with_message(with_piece("no type named `", Piece::Name(name), with_piece("` found for type `", Piece::Type(ty), text("`"))))
        .with_label(span.primary_label())
}

#[verifier::allow_in_spec]
pub fn report_no_member(name: Symbol, ty: TypeIndex, span: SourceSpan) -> (result: Diagnostic)
    returns
        Diagnostic::error()
            .with_code(DiagnosticCode::UndeclaredIdentifier)
            .with_message(with_piece("no associated item named `", Piece::Name(name), with_piece("` found for type `", Piece::Type(ty), text("`"))))
            .with_label(span.primary_label()),
{
    Diagnostic::error()
        .with_code(DiagnosticCode::UndeclaredIdentifier)
        .with_message(with_piece("no associated item named `", Piece::Name(name), with_piece("` found for type `", Piece::Type(ty), text("`"))))
        .with_label(span.primary_label())
}

#[verifier::allow_in_spec]
pub fn report_ambiguous_member(name: Symbol, span: SourceSpan) -> (result: Diagnostic)
    returns
        Diagnostic::error()
            .with_code(DiagnosticCode::AmbiguousTraitMember)
            .with_message(text("multiple applicable items in scope"))
            .with_label(span.primary_label().with_message(with_piece("multiple `", Piece::Name(name), text("` found")))),
{
    Diagnostic::error()
        .with_code(DiagnosticCode::AmbiguousTraitMember)
        .with_message(text("multiple applicable items in scope"))
        .with_label(span.primary_label().with_message(with_piece("multiple `", Piece::Name(name), text("` found"))))
}

#[verifier::allow_in_spec]
pub fn report_duplicate_member(name: Symbol, span: SourceSpan) -> (result: Diagnostic)
    returns
        Diagnostic::error()
            .with_code(DiagnosticCode::DuplicateDefinition)
            .with_message(with_piece("the name `", Piece::Name(name), text("` is defined multiple times")))
            .with_label(span.primary_label().with_message(with_piece("multiple `", Piece::Name(name), text("` found")))),
{
    Diagnostic::error()
        .with_code(DiagnosticCode::DuplicateDefinition)
        .with_message(with_piece("the name `", Piece::Name(name), text("` is defined multiple times")))
        .with_label(span.primary_label().with_message(with_piece("multiple `", Piece::Name(name), text("` found"))))
}

#[verifier::allow_in_spec]
pub fn report_unary_operator_cannot_be_applied(operator: Spanned<UnaryOp>, operand: Spanned<TypeIndex>, file_id: FileId) -> (result: Diagnostic)
    returns
        Diagnostic::error()
            .with_code(DiagnosticCode::UnaryOperatorCannotBeApplied)
            .with_message(with_piece("operator `", Piece::Text(operator.inner.as_text()), with_piece("` cannot be applied to type `", Piece::Type(operand.inner), text("`"))))
            .with_label(Label::primary(file_id, operand.span))
            .with_label(Label::secondary(file_id, operator.span)),
{
    Diagnostic::error()
        .with_code(DiagnosticCode::UnaryOperatorCannotBeApplied)
        .with_message(with_piece("operator `", Piece::Text(operator.inner.as_text()), with_piece("` cannot be applied to type `", Piece::Type(operand.inner), text("`"))))
        .with_label(Label::primary(file_id, operand.span))
        .with_label(Label::secondary(file_id, operator.span))
}

#[verifier::allow_in_spec]
pub fn report_missing_enum_repr(span: SourceSpan) -> (result: Diagnostic)
    returns
        Diagnostic::error()
            .with_code(DiagnosticCode::MissingEnumRepr)
            .with_message(text("enum requires a repr type"))
            .with_label(span.primary_label().with_message(text("add `: <type>` here"))),
{
    Diagnostic::error()
        .with_code(DiagnosticCode::MissingEnumRepr)
        .with_message(text("enum requires a repr type"))
        .with_label(span.primary_label().with_message(text("add `: <type>` here")))
}

#[verifier::allow_in_spec]
pub fn report_enum_repr_not_integer(ty: TypeIndex, span: SourceSpan) -> (result: Diagnostic)
    returns
        Diagnostic::error()
            .with_code(DiagnosticCode::EnumReprNotInteger)
            .with_message(text("enum repr type must be an integer type"))
            .with_label(span.primary_label().with_message(with_piece("`", Piece::Type(ty), text("` is not an integer type")))),
{
    Diagnostic::error()
        .with_code(DiagnosticCode::EnumReprNotInteger)
        .with_message(text("enum repr type must be an integer type"))
        .with_label(span.primary_label().with_message(with_piece("`", Piece::Type(ty), text("` is not an integer type"))))
}

#[verifier::allow_in_spec]
pub fn report_not_const_evaluatable(span: SourceSpan) -> (result: Diagnostic)
    returns
        Diagnostic::error()
            .with_code(DiagnosticCode::NotConstEvaluatable)
            .with_message(text("expression cannot be evaluated as a compile-time constant"))
            .with_label(span.primary_label()),
{
    Diagnostic::error()
        .with_code(DiagnosticCode::NotConstEvaluatable)
        .with_message(text("expression cannot be evaluated as a compile-time constant"))
        .with_label(span.primary_label())
}

#[verifier::allow_in_spec]
pub fn report_missing_function_body(span: SourceSpan) -> (result: Diagnostic)
    returns
        Diagnostic::error()
            .with_code(DiagnosticCode::MissingFunctionBody)
            .with_message(text("free function without a body"))
            .with_label(span.primary_label())
            .with_note(text("provide a definition for the function: `{ <body> }`")),
{
    Diagnostic::error()
        .with_code(DiagnosticCode::MissingFunctionBody)
        .with_message(text("free function without a body"))
        .with_label(span.primary_label())
        .with_note(text("provide a definition for the function: `{ <body> }`"))
}

#[verifier::allow_in_spec]
pub fn report_invalid_memory_kind(span: SourceSpan) -> (result: Diagnostic)
    returns
        Diagnostic::error()
            .with_code(DiagnosticCode::InvalidMemoryKind)
            .with_message(text("invalid memory kind"))
            .with_label(span.primary_label())
            .with_note(text("expected `Memory where { Size = u32 }` or `Memory where { Size = u64 }`")),
{
    Diagnostic::error()
        .with_code(DiagnosticCode::InvalidMemoryKind)
        .with_message(text("invalid memory kind"))
        .with_label(span.primary_label())
        .with_note(text("expected `Memory where { Size = u32 }` or `Memory where { Size = u64 }`"))
}

#[verifier::allow_in_spec]
pub fn report_duplicate_parameter(name: Symbol, first_definition: SourceSpan, second_definition: SourceSpan) -> (result: Diagnostic)
    returns
        Diagnostic::error()
            .with_code(DiagnosticCode::DuplicateDefinition)
            .with_message(with_piece("identifier `", Piece::Name(name), text("` is bound more than once in this parameter list")))
            .with_label(second_definition.primary_label())
            .with_label(first_definition.secondary_label().with_message(with_piece("first use of `", Piece::Name(name), text("` as parameter")))),
{
    Diagnostic::error()
        .with_code(DiagnosticCode::DuplicateDefinition)
        .with_message(with_piece("identifier `", Piece::Name(name), text("` is bound more than once in this parameter list")))
        .with_label(second_definition.primary_label())
        .with_label(first_definition.secondary_label().with_message(with_piece("first use of `", Piece::Name(name), text("` as parameter"))))
}

#[verifier::allow_in_spec]
pub fn report_non_constant_global_initializer(span: SourceSpan) -> (result: Diagnostic)
    returns
        Diagnostic::error()
            .with_code(DiagnosticCode::NonConstantGlobalInitializer)
            .with_message(text("immutable global initializer must be an integer or float literal"))
            .with_label(span.primary_label().with_message(text("add `mut` to use a computed initializer"))),
{
    Diagnostic::error()
        .with_code(DiagnosticCode::NonConstantGlobalInitializer)
        .with_message(text("immutable global initializer must be an integer or float literal"))
        .with_label(span.primary_label().with_message(text("add `mut` to use a computed initializer")))
}

#[verifier::allow_in_spec]
pub fn report_empty_char_literal(span: SourceSpan) -> (result: Diagnostic)
    returns
        Diagnostic::error()
            .with_code(DiagnosticCode::InvalidLiteral)
            .with_message(text("empty character literal"))
            .with_label(span.primary_label()),
{
    Diagnostic::error()
        .with_code(DiagnosticCode::InvalidLiteral)
        .with_message(text("empty character literal"))
        .with_label(span.primary_label())
}

#[verifier::allow_in_spec]
pub fn report_char_literal_too_long(span: SourceSpan) -> (result: Diagnostic)
    returns
        Diagnostic::error()
            .with_code(DiagnosticCode::InvalidLiteral)
            .with_message(text("character literal may only contain one codepoint"))
            .with_label(span.primary_label())
            .with_note(text("if you meant to write a string literal, use double quotes: `\"`, `\"`")),
{
    Diagnostic::error()
        .with_code(DiagnosticCode::InvalidLiteral)
        .with_message(text("character literal may only contain one codepoint"))
        .with_label(span.primary_label())
        .with_note(text("if you meant to write a string literal, use double quotes: `\"`, `\"`"))
}

#[verifier::allow_in_spec]
pub fn report_missing_else_block(then_ty: TypeIndex, then_span: SourceSpan) -> (result: Diagnostic)
    returns
        Diagnostic::error()
            .with_code(DiagnosticCode::MissingElseBlock)
            .with_message(text("`if` may be missing an `else` clause"))
            .with_label(then_span.primary_label().with_message(with_piece("expected `()`, found `", Piece::Type(then_ty), text("`"))))
            .with_note(text("`if` expressions without `else` evaluate to `()`"))
            .with_note(text("consider adding an `else` block that evaluates to the expected type")),
{
    Diagnostic::error()
        .with_code(DiagnosticCode::MissingElseBlock)
        .with_message(text("`if` may be missing an `else` clause"))
        .with_label(then_span.primary_label().with_message(with_piece("expected `()`, found `", Piece::Type(then_ty), text("`"))))
        .with_note(text("`if` expressions without `else` evaluate to `()`"))
        .with_note(text("consider adding an `else` block that evaluates to the expected type"))
}

#[verifier::allow_in_spec]
pub fn report_type_mistmatch(expected_type: TypeIndex, actual_type: TypeIndex, span: SourceSpan) -> (result: Diagnostic)
    returns
        Diagnostic::error()
            .with_code(DiagnosticCode::TypeMistmatch)
            .with_message(text("type mismatch"))
            .with_label(span.primary_label().with_message(with_piece("expected `", Piece::Type(expected_type), with_piece("`, found `", Piece::Type(actual_type), text("`"))))),
{
    Diagnostic::error()
        .with_code(DiagnosticCode::TypeMistmatch)
        .with_message(text("type mismatch"))
        .with_label(span.primary_label().with_message(with_piece("expected `", Piece::Type(expected_type), with_piece("`, found `", Piece::Type(actual_type), text("`")))))
}

#[verifier::allow_in_spec]
pub fn report_type_annotation_required(span: SourceSpan) -> (result: Diagnostic)
    returns
        Diagnostic::error()
            .with_code(DiagnosticCode::TypeAnnotationRequired)
            .with_message(text("type annotation required"))
            .with_label(span.primary_label()),
{
    Diagnostic::error()
        .with_code(DiagnosticCode::TypeAnnotationRequired)
        .with_message(text("type annotation required"))
        .with_label(span.primary_label())
}

#[verifier::allow_in_spec]
pub fn report_unused_variable(span: SourceSpan) -> (result: Diagnostic)
    returns
        Diagnostic::warning()
            .with_code(DiagnosticCode::UnusedVariable)
            .with_message(text("unused variable"))
            .with_label(span.primary_label()),
{
    Diagnostic::warning()
        .with_code(DiagnosticCode::UnusedVariable)
        .with_message(text("unused variable"))
        .with_label(span.primary_label())
}

#[verifier::allow_in_spec]
pub fn report_unnecessary_mutability(span: SourceSpan) -> (result: Diagnostic)
    returns
        Diagnostic::warning()
            .with_code(DiagnosticCode::UnnecessaryMutability)
            .with_message(text("unnecessary mutability"))
            .with_label(span.primary_label()),
{
    Diagnostic::warning()
        .with_code(DiagnosticCode::UnnecessaryMutability)
        .with_message(text("unnecessary mutability"))
        .with_label(span.primary_label())
}

#[verifier::allow_in_spec]
pub fn report_unused_label(span: SourceSpan) -> (result: Diagnostic)
    returns
        Diagnostic::warning()
            .with_code(DiagnosticCode::UnusedLabel)
            .with_message(text("unused label"))
            .with_label(span.primary_label()),
{
    Diagnostic::warning()
        .with_code(DiagnosticCode::UnusedLabel)
        .with_message(text("unused label"))
        .with_label(span.primary_label())
}

#[verifier::allow_in_spec]
pub fn report_unreachable_code(span: SourceSpan) -> (result: Diagnostic)
    returns
        Diagnostic::warning()
            .with_code(DiagnosticCode::UnreachableCode)
            .with_message(text("unreachable code"))
            .with_label(span.primary_label().with_message(text("this code will never be executed"))),
{
    Diagnostic::warning()
        .with_code(DiagnosticCode::UnreachableCode)
        .with_message(text("unreachable code"))
        .with_label(span.primary_label().with_message(text("this code will never be executed")))
}

#[verifier::allow_in_spec]
pub fn report_unused_value(span: SourceSpan) -> (result: Diagnostic)
    returns
        Diagnostic::error()
            .with_code(DiagnosticCode::UnusedValue)
            .with_message(text("value must be used"))
            .with_label(span.primary_label().with_message(text("value never used")))
            .with_note(text("if you don't need the value, consider dropping it with assignment to `_`")),
{
    Diagnostic::error()
        .with_code(DiagnosticCode::UnusedValue)
        .with_message(text("value must be used"))
        .with_label(span.primary_label().with_message(text("value never used")))
        .with_note(text("if you don't need the value, consider dropping it with assignment to `_`"))
}

#[verifier::allow_in_spec]
pub fn report_integer_literal_out_of_range(ty: TypeIndex, value: i64, span: SourceSpan) -> (result: Diagnostic)
    returns
        Diagnostic::error()
            .with_code(DiagnosticCode::IntegerLiteralOutOfRange)
            .with_message(with_piece("literal `", Piece::Int(value), with_piece("` out of range for `", Piece::Type(ty), text("`"))))
            .with_label(span.primary_label()),
{
    Diagnostic::error()
        .with_code(DiagnosticCode::IntegerLiteralOutOfRange)
        .with_message(with_piece("literal `", Piece::Int(value), with_piece("` out of range for `", Piece::Type(ty), text("`"))))
        .with_label(span.primary_label())
}

#[verifier::allow_in_spec]
pub fn report_unable_to_coerce(target_type: TypeIndex, span: SourceSpan) -> (result: Diagnostic)
    returns
        Diagnostic::error()
            .with_code(DiagnosticCode::UnableToCoerce)
            .with_message(with_piece("unable to coerce to type `", Piece::Type(target_type), text("`")))
            .with_label(span.primary_label()),
{
    Diagnostic::error()
        .with_code(DiagnosticCode::UnableToCoerce)
        .with_message(with_piece("unable to coerce to type `", Piece::Type(target_type), text("`")))
        .with_label(span.primary_label())
}

#[verifier::allow_in_spec]
pub fn report_integer_literal_out_of_typeset_range(value: i64, typeset_name: Symbol, range: IntegerRange, span: SourceSpan) -> (result: Diagnostic)
    returns
        Diagnostic::error()
            .with_code(DiagnosticCode::TypesetBoundViolation)
            .with_message(with_piece("integer literal `", Piece::Int(value), with_piece("` is out of the safe range for typeset `", Piece::Name(typeset_name), text("`"))))
            .with_label(span.primary_label().with_message(with_piece("safe range for `", Piece::Name(typeset_name), with_piece("` is `", Piece::Int(range.min), with_piece("..=", Piece::Limit(range.max), text("`")))))),
{
    Diagnostic::error()
        .with_code(DiagnosticCode::TypesetBoundViolation)
        .with_message(with_piece("integer literal `", Piece::Int(value), with_piece("` is out of the safe range for typeset `", Piece::Name(typeset_name), text("`"))))
        .with_label(span.primary_label().with_message(with_piece("safe range for `", Piece::Name(typeset_name), with_piece("` is `", Piece::Int(range.min), with_piece("..=", Piece::Limit(range.max), text("`"))))))
}

#[verifier::allow_in_spec]
pub fn report_integer_literal_for_float_type(span: SourceSpan) -> (result: Diagnostic)
    returns
        Diagnostic::error()
            .with_code(DiagnosticCode::LiteralTypeMismatch)
            .with_message(text("cannot use an integer literal for a float type"))
            .with_label(span.primary_label())
            .with_note(text("consider adding a decimal point, e.g. `1.0` instead of `1`")),
{
    Diagnostic::error()
        .with_code(DiagnosticCode::LiteralTypeMismatch)
        .with_message(text("cannot use an integer literal for a float type"))
        .with_label(span.primary_label())
        .with_note(text("consider adding a decimal point, e.g. `1.0` instead of `1`"))
}

#[verifier::allow_in_spec]
pub fn report_invalid_self_type(ty: TypeIndex, span: SourceSpan) -> (result: Diagnostic)
    returns
        Diagnostic::error()
            .with_code(DiagnosticCode::InvalidSelfType)
            .with_message(with_piece("invalid `self` parameter type: `", Piece::Type(ty), text("`")))
            .with_label(span.primary_label().with_message(text("type of `self` must be `Self` or a type that dereferences to it")))
            .with_note(text("consider changing to `Self` or `*Self`")),
{
    Diagnostic::error()
        .with_code(DiagnosticCode::InvalidSelfType)
        .with_message(with_piece("invalid `self` parameter type: `", Piece::Type(ty), text("`")))
        .with_label(span.primary_label().with_message(text("type of `self` must be `Self` or a type that dereferences to it")))
        .with_note(text("consider changing to `Self` or `*Self`"))
}

#[verifier::allow_in_spec]
pub fn report_method_not_found(method: Symbol, ty: TypeIndex, span: SourceSpan) -> (result: Diagnostic)
    returns
        Diagnostic::error()
            .with_code(DiagnosticCode::MethodNotFound)
            .with_message(with_piece("no method `", Piece::Name(method), with_piece("` found for type `", Piece::Type(ty), text("`"))))
            .with_label(span.primary_label()),
{
    Diagnostic::error()
        .with_code(DiagnosticCode::MethodNotFound)
        .with_message(with_piece("no method `", Piece::Name(method), with_piece("` found for type `", Piece::Type(ty), text("`"))))
        .with_label(span.primary_label())
}

#[verifier::allow_in_spec]
pub fn report_not_a_method(method: Symbol, ty: TypeIndex, span: SourceSpan) -> (result: Diagnostic)
    returns
        Diagnostic::error()
            .with_code(DiagnosticCode::NotAMethod)
            .with_message(with_piece("`", Piece::Name(method), with_piece("` is not a method on type `", Piece::Type(ty), text("`"))))
            .with_label(span.primary_label())
            .with_note(text("use `::` to access associated items")),
{
    Diagnostic::error()
        .with_code(DiagnosticCode::NotAMethod)
        .with_message(with_piece("`", Piece::Name(method), with_piece("` is not a method on type `", Piece::Type(ty), text("`"))))
        .with_label(span.primary_label())
        .with_note(text("use `::` to access associated items"))
}

#[verifier::allow_in_spec]
pub fn report_undeclared_identifier(span: SourceSpan) -> (result: Diagnostic)
    returns
        Diagnostic::error()
            .with_code(DiagnosticCode::UndeclaredIdentifier)
            .with_message(text("undeclared identifier"))
            .with_label(span.primary_label()),
{
    Diagnostic::error()
        .with_code(DiagnosticCode::UndeclaredIdentifier)
        .with_message(text("undeclared identifier"))
        .with_label(span.primary_label())
}

#[verifier::allow_in_spec]
pub fn report_namespace_used_as_value(span: SourceSpan) -> (result: Diagnostic)
    returns
        Diagnostic::error()
            .with_code(DiagnosticCode::NamespaceUsedAsValue)
            .with_message(text("expected a value, found a namespace"))
            .with_label(span.primary_label())
            .with_note(text("use `::` to access members of this namespace")),
{
    Diagnostic::error()
        .with_code(DiagnosticCode::NamespaceUsedAsValue)
        .with_message(text("expected a value, found a namespace"))
        .with_label(span.primary_label())
        .with_note(text("use `::` to access members of this namespace"))
}

#[verifier::allow_in_spec]
pub fn report_infer_in_signature(span: SourceSpan) -> (result: Diagnostic)
    returns
        Diagnostic::error()
            .with_code(DiagnosticCode::InferInSignature)
            .with_message(text("`_` is not allowed within types on item signatures"))
            .with_label(span.primary_label().with_message(text("type must be specified explicitly"))),
{
    Diagnostic::error()
        .with_code(DiagnosticCode::InferInSignature)
        .with_message(text("`_` is not allowed within types on item signatures"))
        .with_label(span.primary_label().with_message(text("type must be specified explicitly")))
}

#[verifier::allow_in_spec]
pub fn report_undeclared_type(span: SourceSpan) -> (result: Diagnostic)
    returns
        Diagnostic::error()
            .with_code(DiagnosticCode::UndeclaredType)
            .with_message(text("undeclared type"))
            .with_label(span.primary_label()),
{
    Diagnostic::error()
        .with_code(DiagnosticCode::UndeclaredType)
        .with_message(text("undeclared type"))
        .with_label(span.primary_label())
}

#[verifier::allow_in_spec]
pub fn report_bare_assoc_type(name: Symbol, span: SourceSpan) -> (result: Diagnostic)
    returns
        Diagnostic::error()
            .with_code(DiagnosticCode::UndeclaredType)
            .with_message(with_piece("cannot find type `", Piece::Name(name), text("` in this scope")))
            .with_label(span.primary_label())
            .with_note(with_piece("you might have meant to use the associated type: `Self::", Piece::Name(name), text("`"))),
{
    Diagnostic::error()
        .with_code(DiagnosticCode::UndeclaredType)
        .with_message(with_piece("cannot find type `", Piece::Name(name), text("` in this scope")))
        .with_label(span.primary_label())
        .with_note(with_piece("you might have meant to use the associated type: `Self::", Piece::Name(name), text("`")))
}

#[verifier::allow_in_spec]
pub fn report_binary_operator_cannot_be_applied(operator: Spanned<BinaryOp>, operand: Spanned<TypeIndex>, file_id: FileId) -> (result: Diagnostic)
    returns
        Diagnostic::error()
            .with_code(DiagnosticCode::BinaryOperatorCannotBeApplied)
            .with_message(with_piece("operator `", Piece::Text(operator.inner.as_text()), with_piece("` cannot be applied to type `", Piece::Type(operand.inner), text("`"))))
            .with_label(Label::primary(file_id, operand.span))
            .with_label(Label::secondary(file_id, operator.span)),
{
    Diagnostic::error()
        .with_code(DiagnosticCode::BinaryOperatorCannotBeApplied)
        .with_message(with_piece("operator `", Piece::Text(operator.inner.as_text()), with_piece("` cannot be applied to type `", Piece::Type(operand.inner), text("`"))))
        .with_label(Label::primary(file_id, operand.span))
        .with_label(Label::secondary(file_id, operator.span))
}

#[verifier::allow_in_spec]
pub fn report_undeclared_label(label_name: Symbol, span: SourceSpan) -> (result: Diagnostic)
    returns
        Diagnostic::error()
            .with_code(DiagnosticCode::UndeclaredLabel)
            .with_message(with_piece("use of undeclared label `", Piece::Name(label_name), text("`")))
            .with_label(span.primary_label().with_message(text("undeclared label"))),
{
    Diagnostic::error()
        .with_code(DiagnosticCode::UndeclaredLabel)
        .with_message(with_piece("use of undeclared label `", Piece::Name(label_name), text("`")))
        .with_label(span.primary_label().with_message(text("undeclared label")))
}

#[verifier::allow_in_spec]
pub fn report_break_outside_of_loop(span: SourceSpan) -> (result: Diagnostic)
    returns
        Diagnostic::error()
            .with_code(DiagnosticCode::BreakOutsideOfLoop)
            .with_message(text("`break` outside of a loop or labeled block"))
            .with_label(span.primary_label())
            .with_note(text("cannot `break` outside of a loop or labeled block")),
{
    Diagnostic::error()
        .with_code(DiagnosticCode::BreakOutsideOfLoop)
        .with_message(text("`break` outside of a loop or labeled block"))
        .with_label(span.primary_label())
        .with_note(text("cannot `break` outside of a loop or labeled block"))
}

#[verifier::allow_in_spec]
pub fn report_continue_outside_of_loop(span: SourceSpan) -> (result: Diagnostic)
    returns
        Diagnostic::error()
            .with_code(DiagnosticCode::ContinueOutsideOfLoop)
            .with_message(text("`continue` outside of a loop"))
            .with_label(span.primary_label().with_message(text("cannot `continue` outside of a loop"))),
{
    Diagnostic::error()
        .with_code(DiagnosticCode::ContinueOutsideOfLoop)
        .with_message(text("`continue` outside of a loop"))
        .with_label(span.primary_label().with_message(text("cannot `continue` outside of a loop")))
}

#[verifier::allow_in_spec]
pub fn report_cannot_mutate_immutable(span: SourceSpan) -> (result: Diagnostic)
    returns
        Diagnostic::error()
            .with_code(DiagnosticCode::CannotMutateImmutable)
            .with_message(text("cannot mutate immutable binding"))
            .with_label(span.primary_label()),
{
    Diagnostic::error()
        .with_code(DiagnosticCode::CannotMutateImmutable)
        .with_message(text("cannot mutate immutable binding"))
        .with_label(span.primary_label())
}

#[verifier::allow_in_spec]
pub fn report_cannot_store_through_immutable_pointer(span: SourceSpan) -> (result: Diagnostic)
    returns
        Diagnostic::error()
            .with_code(DiagnosticCode::CannotMutateImmutable)
            .with_message(text("cannot write through an immutable pointer"))
            .with_label(span.primary_label())
            .with_note(text("consider changing the pointer type to `*mut T`")),
{
    Diagnostic::error()
        .with_code(DiagnosticCode::CannotMutateImmutable)
        .with_message(text("cannot write through an immutable pointer"))
        .with_label(span.primary_label())
        .with_note(text("consider changing the pointer type to `*mut T`"))
}

#[verifier::allow_in_spec]
pub fn report_cannot_deref_non_pointer(ty: TypeIndex, span: SourceSpan) -> (result: Diagnostic)
    returns
        Diagnostic::error()
            .with_code(DiagnosticCode::CannotDerefNonPointer)
            .with_message(text("dereference of non-pointer type"))
            .with_label(span.primary_label().with_message(with_piece("type `", Piece::Type(ty), text("` is not a pointer")))),
{
    Diagnostic::error()
        .with_code(DiagnosticCode::CannotDerefNonPointer)
        .with_message(text("dereference of non-pointer type"))
        .with_label(span.primary_label().with_message(with_piece("type `", Piece::Type(ty), text("` is not a pointer"))))
}

#[verifier::allow_in_spec]
pub fn report_cannot_take_address_of_value(span: SourceSpan) -> (result: Diagnostic)
    returns
        Diagnostic::error()
            .with_code(DiagnosticCode::InvalidAssignmentTarget)
            .with_message(text("cannot take address of a temporary or stack value"))
            .with_label(span.primary_label().with_message(text("this expression is a value, not a location in memory")))
            .with_note(text("`.&` is only valid on places reachable through a pointer, e.g. `ptr.*` or `ptr.*.field`")),
{
    Diagnostic::error()
        .with_code(DiagnosticCode::InvalidAssignmentTarget)
        .with_message(text("cannot take address of a temporary or stack value"))
        .with_label(span.primary_label().with_message(text("this expression is a value, not a location in memory")))
        .with_note(text("`.&` is only valid on places reachable through a pointer, e.g. `ptr.*` or `ptr.*.field`"))
}

#[verifier::allow_in_spec]
pub fn report_cannot_take_mutable_address_of_immutable(span: SourceSpan) -> (result: Diagnostic)
    returns
        Diagnostic::error()
            .with_code(DiagnosticCode::CannotMutateImmutable)
            .with_message(text("cannot take a mutable address of an immutable place"))
            .with_label(span.primary_label())
            .with_note(text("the pointer chain leading here is immutable; use `*mut T` to allow mutable access")),
{
    Diagnostic::error()
        .with_code(DiagnosticCode::CannotMutateImmutable)
        .with_message(text("cannot take a mutable address of an immutable place"))
        .with_label(span.primary_label())
        .with_note(text("the pointer chain leading here is immutable; use `*mut T` to allow mutable access"))
}

#[verifier::allow_in_spec]
pub fn report_no_memory_for_pointer(span: SourceSpan) -> (result: Diagnostic)
    returns
        Diagnostic::error()
            .with_code(DiagnosticCode::NoMemoryForPointer)
            .with_message(text("pointer dereference requires a linear memory"))
            .with_label(span.primary_label())
            .with_note(text("declare a memory in this module: `memory <name>: Memory where { Size = u32 };`")),
{
    Diagnostic::error()
        .with_code(DiagnosticCode::NoMemoryForPointer)
        .with_message(text("pointer dereference requires a linear memory"))
        .with_label(span.primary_label())
        .with_note(text("declare a memory in this module: `memory <name>: Memory where { Size = u32 };`"))
}

#[verifier::allow_in_spec]
pub fn report_ambiguous_pointer_memory(span: SourceSpan) -> (result: Diagnostic)
    returns
        Diagnostic::error()
            .with_code(DiagnosticCode::AmbiguousPointerMemory)
            .with_message(text("pointer dereference is ambiguous: multiple memories defined"))
            .with_label(span.primary_label())
            .with_note(text("specify which memory with `<memory_name>::*T` syntax")),
{
    Diagnostic::error()
        .with_code(DiagnosticCode::AmbiguousPointerMemory)
        .with_message(text("pointer dereference is ambiguous: multiple memories defined"))
        .with_label(span.primary_label())
        .with_note(text("specify which memory with `<memory_name>::*T` syntax"))
}

#[verifier::allow_in_spec]
pub fn report_index_on_non_indexable(ty: TypeIndex, span: SourceSpan) -> (result: Diagnostic)
    returns
        Diagnostic::error()
            .with_code(DiagnosticCode::IndexOnNonIndexable)
            .with_message(with_piece("cannot index into a value of type `", Piece::Type(ty), text("`")))
            .with_label(span.primary_label())
            .with_note(text("indexing is only supported on array `&[T; N]` and slice `&[T]` types")),
{
    Diagnostic::error()
        .with_code(DiagnosticCode::IndexOnNonIndexable)
        .with_message(with_piece("cannot index into a value of type `", Piece::Type(ty), text("`")))
        .with_label(span.primary_label())
        .with_note(text("indexing is only supported on array `&[T; N]` and slice `&[T]` types"))
}

#[verifier::allow_in_spec]
pub fn report_array_size_mismatch(expected: u32, actual: usize, span: SourceSpan) -> (result: Diagnostic)
    returns
        Diagnostic::error()
            .with_code(DiagnosticCode::ArraySizeMismatch)
            .with_message(with_piece("array literal has ", Piece::Count(actual), with_piece(" element(s) but the type expects ", Piece::Count(expected as usize), List::Nil)))
            .with_label(span.primary_label()),
{
    Diagnostic::error()
        .with_code(DiagnosticCode::ArraySizeMismatch)
        .with_message(with_piece("array literal has ", Piece::Count(actual), with_piece(" element(s) but the type expects ", Piece::Count(expected as usize), List::Nil)))
        .with_label(span.primary_label())
}

#[verifier::allow_in_spec]
pub fn report_array_repeat_count_not_const(span: SourceSpan) -> (result: Diagnostic)
    returns
        Diagnostic::error()
            .with_code(DiagnosticCode::ArrayRepeatCountNotConst)
            .with_message(text("array repeat count must be a compile-time integer constant"))
            .with_label(span.primary_label()),
{
    Diagnostic::error()
        .with_code(DiagnosticCode::ArrayRepeatCountNotConst)
        .with_message(text("array repeat count must be a compile-time integer constant"))
        .with_label(span.primary_label())
}

#[verifier::allow_in_spec]
pub fn report_array_element_not_const(span: SourceSpan) -> (result: Diagnostic)
    returns
        Diagnostic::error()
            .with_code(DiagnosticCode::ArrayElementNotConst)
            .with_message(text("array literal elements must be compile-time constants"))
            .with_label(span.primary_label())
            .with_note(text("only integer and float literals are allowed in array literals")),
{
    Diagnostic::error()
        .with_code(DiagnosticCode::ArrayElementNotConst)
        .with_message(text("array literal elements must be compile-time constants"))
        .with_label(span.primary_label())
        .with_note(text("only integer and float literals are allowed in array literals"))
}

#[verifier::allow_in_spec]
pub fn report_array_element_not_numeric(span: SourceSpan) -> (result: Diagnostic)
    returns
        Diagnostic::error()
            .with_message(text("array element type must be a numeric type"))
            .with_label(span.primary_label()),
{
    Diagnostic::error()
        .with_message(text("array element type must be a numeric type"))
        .with_label(span.primary_label())
}

#[verifier::allow_in_spec]
pub fn report_invalid_assignment_target(span: SourceSpan) -> (result: Diagnostic)
    returns
        Diagnostic::error()
            .with_code(DiagnosticCode::InvalidAssignmentTarget)
            .with_message(text("invalid assignment target"))
            .with_label(span.primary_label().with_message(text("cannot assign to this expression")))
            .with_note(text("assignment only allowed to a variable or `_`")),
{
    Diagnostic::error()
        .with_code(DiagnosticCode::InvalidAssignmentTarget)
        .with_message(text("invalid assignment target"))
        .with_label(span.primary_label().with_message(text("cannot assign to this expression")))
        .with_note(text("assignment only allowed to a variable or `_`"))
}

#[verifier::allow_in_spec]
pub fn report_duplicate_export(name: Symbol, first_export: SourceSpan, second_export: SourceSpan) -> (result: Diagnostic)
    returns
        Diagnostic::error()
            .with_code(DiagnosticCode::DuplicateExport)
            .with_message(with_piece("the name `", Piece::Name(name), text("` is exported multiple times")))
            .with_label(second_export.primary_label())
            .with_label(first_export.secondary_label().with_message(with_piece("previous export of `", Piece::Name(name), text("` here"))))
            .with_note(with_piece("`", Piece::Name(name), text("` can only be exported once from this module"))),
{
    Diagnostic::error()
        .with_code(DiagnosticCode::DuplicateExport)
        .with_message(with_piece("the name `", Piece::Name(name), text("` is exported multiple times")))
        .with_label(second_export.primary_label())
        .with_label(first_export.secondary_label().with_message(with_piece("previous export of `", Piece::Name(name), text("` here"))))
        .with_note(with_piece("`", Piece::Name(name), text("` can only be exported once from this module")))
}

#[verifier::allow_in_spec]
pub fn report_comparison_type_annotation_required(left: SourceSpan, right: SourceSpan) -> (result: Diagnostic)
    returns
        Diagnostic::error()
            .with_code(DiagnosticCode::ComparisonTypeAnnotationRequired)
            .with_message(text("type annotation required"))
            .with_label(left.primary_label())
            .with_label(right.primary_label())
            .with_note(text("at least one side of the comparison must have a known type")),
{
    Diagnostic::error()
        .with_code(DiagnosticCode::ComparisonTypeAnnotationRequired)
        .with_message(text("type annotation required"))
        .with_label(left.primary_label())
        .with_label(right.primary_label())
        .with_note(text("at least one side of the comparison must have a known type"))
}

#[verifier::allow_in_spec]
pub fn report_cannot_export_item(name: Symbol, span: SourceSpan) -> (result: Diagnostic)
    returns
        Diagnostic::error()
            .with_code(DiagnosticCode::CannotExportItem)
            .with_message(with_piece("cannot export `", Piece::Name(name), text("`")))
            .with_label(span.primary_label())
            .with_note(text("only functions, global variables, and memories can be exported")),
{
    Diagnostic::error()
        .with_code(DiagnosticCode::CannotExportItem)
        .with_message(with_piece("cannot export `", Piece::Name(name), text("`")))
        .with_label(span.primary_label())
        .with_note(text("only functions, global variables, and memories can be exported"))
}

#[verifier::allow_in_spec]
pub fn report_cannot_export_generic_function(name: Symbol, span: SourceSpan) -> (result: Diagnostic)
    returns
        Diagnostic::error()
            .with_code(DiagnosticCode::CannotExportItem)
            .with_message(with_piece("cannot export generic function `", Piece::Name(name), text("`")))
            .with_label(span.primary_label())
            .with_note(text("exported functions must be non-generic; call the generic function from a concrete wrapper instead")),
{
    Diagnostic::error()
        .with_code(DiagnosticCode::CannotExportItem)
        .with_message(with_piece("cannot export generic function `", Piece::Name(name), text("`")))
        .with_label(span.primary_label())
        .with_note(text("exported functions must be non-generic; call the generic function from a concrete wrapper instead"))
}

#[verifier::allow_in_spec]
pub fn report_cyclic_type_dependency(span: SourceSpan) -> (result: Diagnostic)
    returns
        Diagnostic::error()
            .with_code(DiagnosticCode::CyclicTypeDependency)
            .with_message(text("cyclic type dependency"))
            .with_label(span.primary_label())
            .with_note(text("types cannot have infinite size; consider using a pointer to break the cycle")),
{
    Diagnostic::error()
        .with_code(DiagnosticCode::CyclicTypeDependency)
        .with_message(text("cyclic type dependency"))
        .with_label(span.primary_label())
        .with_note(text("types cannot have infinite size; consider using a pointer to break the cycle"))
}

#[verifier::allow_in_spec]
pub fn report_recursive_type(name: Symbol, struct_span: SourceSpan, field_span: SourceSpan) -> (result: Diagnostic)
    returns
        Diagnostic::error()
            .with_code(DiagnosticCode::CyclicTypeDependency)
            .with_message(with_piece("recursive type `", Piece::Name(name), text("` has infinite size")))
            .with_label(struct_span.primary_label())
            .with_label(field_span.secondary_label().with_message(text("recursive without indirection")))
            .with_note(text("insert some indirection (e.g. a pointer) to break the cycle")),
{
    Diagnostic::error()
        .with_code(DiagnosticCode::CyclicTypeDependency)
        .with_message(with_piece("recursive type `", Piece::Name(name), text("` has infinite size")))
        .with_label(struct_span.primary_label())
        .with_label(field_span.secondary_label().with_message(text("recursive without indirection")))
        .with_note(text("insert some indirection (e.g. a pointer) to break the cycle"))
}

#[verifier::allow_in_spec]
pub fn report_missing_import_alias(span: SourceSpan) -> (result: Diagnostic)
    returns
        Diagnostic::error()
            .with_code(DiagnosticCode::MissingImportAlias)
            .with_message(text("import requires an `as` alias"))
            .with_label(span.primary_label().with_message(text("expected `as <name>` here"))),
{
    Diagnostic::error()
        .with_code(DiagnosticCode::MissingImportAlias)
        .with_message(text("import requires an `as` alias"))
        .with_label(span.primary_label().with_message(text("expected `as <name>` here")))
}

#[verifier::allow_in_spec]
pub fn report_duplicate_struct_field(name: Symbol, first_span: SourceSpan, second_span: SourceSpan) -> (result: Diagnostic)
    returns
        Diagnostic::error()
            .with_code(DiagnosticCode::DuplicateStructField)
            .with_message(with_piece("field `", Piece::Name(name), text("` is already declared")))
            .with_label(second_span.primary_label())
            .with_label(first_span.secondary_label().with_message(with_piece("`", Piece::Name(name), text("` first declared here")))),
{
    Diagnostic::error()
        .with_code(DiagnosticCode::DuplicateStructField)
        .with_message(with_piece("field `", Piece::Name(name), text("` is already declared")))
        .with_label(second_span.primary_label())
        .with_label(first_span.secondary_label().with_message(with_piece("`", Piece::Name(name), text("` first declared here"))))
}

#[verifier::allow_in_spec]
pub fn report_not_a_struct_type(name: Symbol, span: SourceSpan) -> (result: Diagnostic)
    returns
        Diagnostic::error()
            .with_code(DiagnosticCode::TypeMistmatch)
            .with_message(with_piece("expected struct, found `", Piece::Name(name), text("`")))
            .with_label(span.primary_label()),
{
    Diagnostic::error()
        .with_code(DiagnosticCode::TypeMistmatch)
        .with_message(with_piece("expected struct, found `", Piece::Name(name), text("`")))
        .with_label(span.primary_label())
}

#[verifier::allow_in_spec]
pub fn report_unknown_struct_field(struct_name: Symbol, field_name: Symbol, span: SourceSpan) -> (result: Diagnostic)
    returns
        Diagnostic::error()
            .with_code(DiagnosticCode::UnknownStructField)
            .with_message(with_piece("no such field `", Piece::Name(field_name), with_piece("` in struct `", Piece::Name(struct_name), text("`"))))
            .with_label(span.primary_label()),
{
    Diagnostic::error()
        .with_code(DiagnosticCode::UnknownStructField)
        .with_message(with_piece("no such field `", Piece::Name(field_name), with_piece("` in struct `", Piece::Name(struct_name), text("`"))))
        .with_label(span.primary_label())
}

#[verifier::allow_in_spec]
pub fn report_private_field(struct_name: Symbol, field_name: Symbol, span: SourceSpan, declaration: SourceSpan) -> (result: Diagnostic)
    returns
        Diagnostic::error()
            .with_code(DiagnosticCode::PrivateField)
            .with_message(with_piece("field `", Piece::Name(field_name), with_piece("` of struct `", Piece::Name(struct_name), text("` is private"))))
            .with_label(span.primary_label())
            .with_label(declaration.secondary_label().with_message(text("declared here without `pub`"))),
{
    Diagnostic::error()
        .with_code(DiagnosticCode::PrivateField)
        .with_message(with_piece("field `", Piece::Name(field_name), with_piece("` of struct `", Piece::Name(struct_name), text("` is private"))))
        .with_label(span.primary_label())
        .with_label(declaration.secondary_label().with_message(text("declared here without `pub`")))
}

#[verifier::allow_in_spec]
pub fn report_duplicate_struct_field_init(field_name: Symbol, first_span: SourceSpan, second_span: SourceSpan) -> (result: Diagnostic)
    returns
        Diagnostic::error()
            .with_code(DiagnosticCode::DuplicateStructFieldInit)
            .with_message(with_piece("field `", Piece::Name(field_name), text("` specified more than once")))
            .with_label(second_span.primary_label())
            .with_label(first_span.secondary_label().with_message(text("first use of this field"))),
{
    Diagnostic::error()
        .with_code(DiagnosticCode::DuplicateStructFieldInit)
        .with_message(with_piece("field `", Piece::Name(field_name), text("` specified more than once")))
        .with_label(second_span.primary_label())
        .with_label(first_span.secondary_label().with_message(text("first use of this field")))
}

#[verifier::allow_in_spec]
pub fn report_associated_type_in_inherent_impl(span: SourceSpan) -> (result: Diagnostic)
    returns
        Diagnostic::error()
            .with_code(DiagnosticCode::AssociatedTypeInInherentImpl)
            .with_message(text("associated types are not allowed in inherent impl blocks"))
            .with_label(span.primary_label())
            .with_note(text("associated types can only be defined in `impl Trait for Type` blocks")),
{
    Diagnostic::error()
        .with_code(DiagnosticCode::AssociatedTypeInInherentImpl)
        .with_message(text("associated types are not allowed in inherent impl blocks"))
        .with_label(span.primary_label())
        .with_note(text("associated types can only be defined in `impl Trait for Type` blocks"))
}

#[verifier::allow_in_spec]
pub fn report_constant_in_generic_impl(span: SourceSpan) -> (result: Diagnostic)
    returns
        Diagnostic::error()
            .with_message(text("constants in generic impl blocks are not supported yet"))
            .with_label(span.primary_label()),
{
    Diagnostic::error()
        .with_message(text("constants in generic impl blocks are not supported yet"))
        .with_label(span.primary_label())
}

#[verifier::allow_in_spec]
pub fn report_invalid_cast(from_type: TypeIndex, to_type: TypeIndex, span: SourceSpan) -> (result: Diagnostic)
    returns
        Diagnostic::error()
            .with_code(DiagnosticCode::InvalidCast)
            .with_message(with_piece("cannot cast `", Piece::Type(from_type), with_piece("` to `", Piece::Type(to_type), text("`"))))
            .with_label(span.primary_label()),
{
    Diagnostic::error()
        .with_code(DiagnosticCode::InvalidCast)
        .with_message(with_piece("cannot cast `", Piece::Type(from_type), with_piece("` to `", Piece::Type(to_type), text("`"))))
        .with_label(span.primary_label())
}

#[verifier::allow_in_spec]
pub fn report_invalid_match_scrutinee_type(ty: TypeIndex, span: SourceSpan) -> (result: Diagnostic)
    returns
        Diagnostic::error()
            .with_code(DiagnosticCode::InvalidMatchScrutineeType)
            .with_message(text("invalid `match` scrutinee type"))
            .with_label(span.primary_label().with_message(with_piece("cannot match on `", Piece::Type(ty), text("`"))))
            .with_note(text("`match` scrutinees must be an enum, integer, `char`, or `bool`")),
{
    Diagnostic::error()
        .with_code(DiagnosticCode::InvalidMatchScrutineeType)
        .with_message(text("invalid `match` scrutinee type"))
        .with_label(span.primary_label().with_message(with_piece("cannot match on `", Piece::Type(ty), text("`"))))
        .with_note(text("`match` scrutinees must be an enum, integer, `char`, or `bool`"))
}

#[verifier::allow_in_spec]
pub fn report_invalid_pattern(span: SourceSpan) -> (result: Diagnostic)
    returns
        Diagnostic::error()
            .with_code(DiagnosticCode::InvalidPattern)
            .with_message(text("invalid pattern"))
            .with_label(span.primary_label())
            .with_note(text("patterns are: an integer/char/bool literal, `EnumName::Variant`, or `_`")),
{
    Diagnostic::error()
        .with_code(DiagnosticCode::InvalidPattern)
        .with_message(text("invalid pattern"))
        .with_label(span.primary_label())
        .with_note(text("patterns are: an integer/char/bool literal, `EnumName::Variant`, or `_`"))
}

#[verifier::allow_in_spec]
pub fn report_non_exhaustive_match_no_wildcard(span: SourceSpan) -> (result: Diagnostic)
    returns
        Diagnostic::error()
            .with_code(DiagnosticCode::NonExhaustiveMatch)
            .with_message(text("non-exhaustive `match`: this type's values cannot be fully enumerated"))
            .with_label(span.primary_label())
            .with_note(text("add a wildcard arm `_ -> { ... }` to handle any other value")),
{
    Diagnostic::error()
        .with_code(DiagnosticCode::NonExhaustiveMatch)
        .with_message(text("non-exhaustive `match`: this type's values cannot be fully enumerated"))
        .with_label(span.primary_label())
        .with_note(text("add a wildcard arm `_ -> { ... }` to handle any other value"))
}

#[verifier::allow_in_spec]
pub fn report_unreachable_match_arm(span: SourceSpan) -> (result: Diagnostic)
    returns
        Diagnostic::warning()
            .with_code(DiagnosticCode::UnreachableMatchArm)
            .with_message(text("unreachable match arm"))
            .with_label(span.primary_label().with_message(text("this pattern is already covered by an earlier arm"))),
{
    Diagnostic::warning()
        .with_code(DiagnosticCode::UnreachableMatchArm)
        .with_message(text("unreachable match arm"))
        .with_label(span.primary_label().with_message(text("this pattern is already covered by an earlier arm")))
}

#[verifier::allow_in_spec]
pub fn report_tuple_pattern_arity(wanted: usize, ty: TypeIndex, found: usize, span: SourceSpan) -> (result: Diagnostic)
    returns
        Diagnostic::error()
            .with_code(DiagnosticCode::TypeMistmatch)
            .with_message(text("tuple pattern does not match the value"))
            .with_label(span.primary_label().with_message(with_piece("expected a ", Piece::Count(wanted), with_piece("-element tuple, found `", Piece::Type(ty), with_piece("` with ", Piece::Count(found), text(" elements")))))),
{
    Diagnostic::error()
        .with_code(DiagnosticCode::TypeMistmatch)
        .with_message(text("tuple pattern does not match the value"))
        .with_label(span.primary_label().with_message(with_piece("expected a ", Piece::Count(wanted), with_piece("-element tuple, found `", Piece::Type(ty), with_piece("` with ", Piece::Count(found), text(" elements"))))))
}

#[verifier::allow_in_spec]
pub fn report_tuple_pattern_mismatch(ty: TypeIndex, span: SourceSpan) -> (result: Diagnostic)
    returns
        Diagnostic::error()
            .with_code(DiagnosticCode::TypeMistmatch)
            .with_message(text("tuple pattern does not match the value"))
            .with_label(span.primary_label().with_message(with_piece("expected a tuple, found `", Piece::Type(ty), text("`")))),
{
    Diagnostic::error()
        .with_code(DiagnosticCode::TypeMistmatch)
        .with_message(text("tuple pattern does not match the value"))
        .with_label(span.primary_label().with_message(with_piece("expected a tuple, found `", Piece::Type(ty), text("`"))))
}

#[verifier::allow_in_spec]
pub fn report_struct_pattern_other(ty: TypeIndex, span: SourceSpan) -> (result: Diagnostic)
    returns
        Diagnostic::error()
            .with_code(DiagnosticCode::TypeMistmatch)
            .with_message(text("struct pattern does not match the value"))
            .with_label(span.primary_label().with_message(with_piece("value is `", Piece::Type(ty), text("`")))),
{
    Diagnostic::error()
        .with_code(DiagnosticCode::TypeMistmatch)
        .with_message(text("struct pattern does not match the value"))
        .with_label(span.primary_label().with_message(with_piece("value is `", Piece::Type(ty), text("`"))))
}

#[verifier::allow_in_spec]
pub fn report_struct_pattern_mismatch(ty: TypeIndex, span: SourceSpan) -> (result: Diagnostic)
    returns
        Diagnostic::error()
            .with_code(DiagnosticCode::TypeMistmatch)
            .with_message(text("struct pattern does not match the value"))
            .with_label(span.primary_label().with_message(with_piece("expected a struct, found `", Piece::Type(ty), text("`")))),
{
    Diagnostic::error()
        .with_code(DiagnosticCode::TypeMistmatch)
        .with_message(text("struct pattern does not match the value"))
        .with_label(span.primary_label().with_message(with_piece("expected a struct, found `", Piece::Type(ty), text("`"))))
}

#[verifier::allow_in_spec]
pub fn report_cannot_infer_type_param(name: Symbol, span: SourceSpan) -> (result: Diagnostic)
    returns
        Diagnostic::error()
            .with_code(DiagnosticCode::TypeAnnotationRequired)
            .with_message(with_piece("cannot infer type for type parameter `", Piece::Name(name), text("`")))
            .with_label(span.primary_label().with_message(text("type annotation required"))),
{
    Diagnostic::error()
        .with_code(DiagnosticCode::TypeAnnotationRequired)
        .with_message(with_piece("cannot infer type for type parameter `", Piece::Name(name), text("`")))
        .with_label(span.primary_label().with_message(text("type annotation required")))
}

#[verifier::allow_in_spec]
pub fn report_trait_bound_violation(ty: TypeIndex, trait_name: Symbol, at: SourceSpan, required_at: SourceSpan, required_in: Symbol) -> (result: Diagnostic)
    returns
        Diagnostic::error()
            .with_code(DiagnosticCode::TraitBoundViolation)
            .with_message(with_piece("the trait bound `", Piece::Type(ty), with_piece(": ", Piece::Name(trait_name), text("` is not satisfied"))))
            .with_label(at.primary_label().with_message(with_piece("the trait `", Piece::Name(trait_name), with_piece("` is not implemented for `", Piece::Type(ty), text("`")))))
            .with_label(required_at.secondary_label().with_message(with_piece("required by a bound in `", Piece::Name(required_in), text("`")))),
{
    Diagnostic::error()
        .with_code(DiagnosticCode::TraitBoundViolation)
        .with_message(with_piece("the trait bound `", Piece::Type(ty), with_piece(": ", Piece::Name(trait_name), text("` is not satisfied"))))
        .with_label(at.primary_label().with_message(with_piece("the trait `", Piece::Name(trait_name), with_piece("` is not implemented for `", Piece::Type(ty), text("`")))))
        .with_label(required_at.secondary_label().with_message(with_piece("required by a bound in `", Piece::Name(required_in), text("`"))))
}

#[verifier::allow_in_spec]
pub fn report_not_in_typeset(ty: TypeIndex, set_name: Symbol, param_name: Symbol, span: SourceSpan) -> (result: Diagnostic)
    returns
        Diagnostic::error()
            .with_code(DiagnosticCode::TypesetBoundViolation)
            .with_message(with_piece("type `", Piece::Type(ty), with_piece("` is not a member of typeset `", Piece::Name(set_name), text("`"))))
            .with_label(span.primary_label().with_message(with_piece("`", Piece::Name(param_name), with_piece("` requires a type from `", Piece::Name(set_name), text("`"))))),
{
    Diagnostic::error()
        .with_code(DiagnosticCode::TypesetBoundViolation)
        .with_message(with_piece("type `", Piece::Type(ty), with_piece("` is not a member of typeset `", Piece::Name(set_name), text("`"))))
        .with_label(span.primary_label().with_message(with_piece("`", Piece::Name(param_name), with_piece("` requires a type from `", Piece::Name(set_name), text("`")))))
}

#[verifier::allow_in_spec]
pub fn report_assoc_trait_violation(concrete: TypeIndex, trait_name: Symbol, assoc_name: Symbol, at: SourceSpan, required_at: SourceSpan, required_in: Symbol) -> (result: Diagnostic)
    returns
        Diagnostic::error()
            .with_code(DiagnosticCode::TraitBoundViolation)
            .with_message(with_piece("the trait bound `", Piece::Type(concrete), with_piece(": ", Piece::Name(trait_name), text("` is not satisfied"))))
            .with_label(at.primary_label().with_message(with_piece("associated type `", Piece::Name(assoc_name), with_piece("` is `", Piece::Type(concrete), with_piece("`, which does not implement `", Piece::Name(trait_name), text("`"))))))
            .with_label(required_at.secondary_label().with_message(with_piece("required by a `where` clause on `", Piece::Name(required_in), text("`")))),
{
    Diagnostic::error()
        .with_code(DiagnosticCode::TraitBoundViolation)
        .with_message(with_piece("the trait bound `", Piece::Type(concrete), with_piece(": ", Piece::Name(trait_name), text("` is not satisfied"))))
        .with_label(at.primary_label().with_message(with_piece("associated type `", Piece::Name(assoc_name), with_piece("` is `", Piece::Type(concrete), with_piece("`, which does not implement `", Piece::Name(trait_name), text("`"))))))
        .with_label(required_at.secondary_label().with_message(with_piece("required by a `where` clause on `", Piece::Name(required_in), text("`"))))
}

#[verifier::allow_in_spec]
pub fn report_assoc_typeset_violation(concrete: TypeIndex, set_name: Symbol, assoc_name: Symbol, at: SourceSpan, required_at: SourceSpan, required_in: Symbol) -> (result: Diagnostic)
    returns
        Diagnostic::error()
            .with_code(DiagnosticCode::TypesetBoundViolation)
            .with_message(with_piece("associated type `", Piece::Name(assoc_name), with_piece("` (`", Piece::Type(concrete), with_piece("`) is not a member of typeset `", Piece::Name(set_name), text("`")))))
            .with_label(at.primary_label().with_message(with_piece("`", Piece::Name(assoc_name), with_piece("` requires a type from `", Piece::Name(set_name), text("`")))))
            .with_label(required_at.secondary_label().with_message(with_piece("required by a `where` clause on `", Piece::Name(required_in), text("`")))),
{
    Diagnostic::error()
        .with_code(DiagnosticCode::TypesetBoundViolation)
        .with_message(with_piece("associated type `", Piece::Name(assoc_name), with_piece("` (`", Piece::Type(concrete), with_piece("`) is not a member of typeset `", Piece::Name(set_name), text("`")))))
        .with_label(at.primary_label().with_message(with_piece("`", Piece::Name(assoc_name), with_piece("` requires a type from `", Piece::Name(set_name), text("`")))))
        .with_label(required_at.secondary_label().with_message(with_piece("required by a `where` clause on `", Piece::Name(required_in), text("`"))))
}

#[verifier::allow_in_spec]
pub fn report_call_requires_function(ty: TypeIndex, span: SourceSpan) -> (result: Diagnostic)
    returns
        Diagnostic::error()
            .with_code(DiagnosticCode::CannotCallExpression)
            .with_message(text("call expression requires function"))
            .with_label(span.primary_label().with_message(with_piece("expected function, found `", Piece::Type(ty), text("`")))),
{
    Diagnostic::error()
        .with_code(DiagnosticCode::CannotCallExpression)
        .with_message(text("call expression requires function"))
        .with_label(span.primary_label().with_message(with_piece("expected function, found `", Piece::Type(ty), text("`"))))
}

#[verifier::allow_in_spec]
pub fn report_type_arg_count(name: Symbol, expected: usize, found: usize, span: SourceSpan) -> (result: Diagnostic)
    returns
        Diagnostic::error()
            .with_code(DiagnosticCode::TypeArgCountMismatch)
            .with_message(with_piece("`", Piece::Name(name), with_piece("` expects ", Piece::Count(expected), with_piece(" type argument", Piece::Text(if expected == 1 { "" } else { "s" }), with_piece(", found ", Piece::Count(found), List::Nil)))))
            .with_label(span.primary_label()),
{
    Diagnostic::error()
        .with_code(DiagnosticCode::TypeArgCountMismatch)
        .with_message(with_piece("`", Piece::Name(name), with_piece("` expects ", Piece::Count(expected), with_piece(" type argument", Piece::Text(if expected == 1 { "" } else { "s" }), with_piece(", found ", Piece::Count(found), List::Nil)))))
        .with_label(span.primary_label())
}

#[verifier::allow_in_spec]
pub fn report_wrong_type_arg_count(expected: usize, found: usize, span: SourceSpan) -> (result: Diagnostic)
    returns
        Diagnostic::error()
            .with_code(DiagnosticCode::TypeArgCountMismatch)
            .with_message(with_piece("expected ", Piece::Count(expected), with_piece(" type argument", Piece::Text(if expected == 1 { "" } else { "s" }), with_piece(", found ", Piece::Count(found), List::Nil))))
            .with_label(span.primary_label().with_message(text("wrong number of type arguments"))),
{
    Diagnostic::error()
        .with_code(DiagnosticCode::TypeArgCountMismatch)
        .with_message(with_piece("expected ", Piece::Count(expected), with_piece(" type argument", Piece::Text(if expected == 1 { "" } else { "s" }), with_piece(", found ", Piece::Count(found), List::Nil))))
        .with_label(span.primary_label().with_message(text("wrong number of type arguments")))
}

#[verifier::allow_in_spec]
pub fn report_no_generic_arguments(count: usize, span: SourceSpan) -> (result: Diagnostic)
    returns
        Diagnostic::error()
            .with_code(DiagnosticCode::TypeArgCountMismatch)
            .with_message(with_piece("method takes 0 generic arguments but ", Piece::Count(count), with_piece(" generic argument", Piece::Text(if count == 1 { "" } else { "s" }), with_piece(" ", Piece::Text(if count == 1 { "was" } else { "were" }), text(" supplied")))))
            .with_label(span.primary_label().with_message(text("expected 0 generic arguments")))
            .with_note(text("remove the unnecessary generics")),
{
    Diagnostic::error()
        .with_code(DiagnosticCode::TypeArgCountMismatch)
        .with_message(with_piece("method takes 0 generic arguments but ", Piece::Count(count), with_piece(" generic argument", Piece::Text(if count == 1 { "" } else { "s" }), with_piece(" ", Piece::Text(if count == 1 { "was" } else { "were" }), text(" supplied")))))
        .with_label(span.primary_label().with_message(text("expected 0 generic arguments")))
        .with_note(text("remove the unnecessary generics"))
}

#[verifier::allow_in_spec]
pub fn report_type_args_not_supported(span: SourceSpan) -> (result: Diagnostic)
    returns
        Diagnostic::error()
            .with_message(text("type arguments are not supported here"))
            .with_label(span.primary_label()),
{
    Diagnostic::error()
        .with_message(text("type arguments are not supported here"))
        .with_label(span.primary_label())
}

#[verifier::allow_in_spec]
pub fn report_trait_as_type(span: SourceSpan) -> (result: Diagnostic)
    returns
        Diagnostic::error()
            .with_code(DiagnosticCode::ExpectedTrait)
            .with_message(text("cannot use a trait or typeset as a type; use it as a bound: `<T: TraitName>`"))
            .with_label(span.primary_label()),
{
    Diagnostic::error()
        .with_code(DiagnosticCode::ExpectedTrait)
        .with_message(text("cannot use a trait or typeset as a type; use it as a bound: `<T: TraitName>`"))
        .with_label(span.primary_label())
}

#[verifier::allow_in_spec]
pub fn report_not_a_memory(ty: TypeIndex, span: SourceSpan) -> (result: Diagnostic)
    returns
        Diagnostic::error()
            .with_message(with_piece("`", Piece::Type(ty), text("` is not a memory declaration")))
            .with_label(span.primary_label()),
{
    Diagnostic::error()
        .with_message(with_piece("`", Piece::Type(ty), text("` is not a memory declaration")))
        .with_label(span.primary_label())
}

#[verifier::allow_in_spec]
pub fn report_memory_prefix(span: SourceSpan) -> (result: Diagnostic)
    returns
        Diagnostic::error()
            .with_message(text("memory namespace can only prefix pointer, slice, or array types"))
            .with_label(span.primary_label()),
{
    Diagnostic::error()
        .with_message(text("memory namespace can only prefix pointer, slice, or array types"))
        .with_label(span.primary_label())
}

#[verifier::allow_in_spec]
pub fn report_unknown_bound(name: Symbol, span: SourceSpan) -> (result: Diagnostic)
    returns
        Diagnostic::error()
            .with_code(DiagnosticCode::UndeclaredType)
            .with_message(with_piece("cannot find trait or typeset `", Piece::Name(name), text("` in this scope")))
            .with_label(span.primary_label()),
{
    Diagnostic::error()
        .with_code(DiagnosticCode::UndeclaredType)
        .with_message(with_piece("cannot find trait or typeset `", Piece::Name(name), text("` in this scope")))
        .with_label(span.primary_label())
}

#[verifier::allow_in_spec]
pub fn report_expected_bound(span: SourceSpan) -> (result: Diagnostic)
    returns
        Diagnostic::error()
            .with_code(DiagnosticCode::ExpectedTrait)
            .with_message(text("expected a trait or typeset name as a bound"))
            .with_label(span.primary_label()),
{
    Diagnostic::error()
        .with_code(DiagnosticCode::ExpectedTrait)
        .with_message(text("expected a trait or typeset name as a bound"))
        .with_label(span.primary_label())
}

#[verifier::allow_in_spec]
pub fn report_expected_module(span: SourceSpan) -> (result: Diagnostic)
    returns
        Diagnostic::error()
            .with_message(text("expected a module namespace before a bound name"))
            .with_label(span.primary_label()),
{
    Diagnostic::error()
        .with_message(text("expected a module namespace before a bound name"))
        .with_label(span.primary_label())
}

#[verifier::allow_in_spec]
pub fn report_expected_single_trait(span: SourceSpan) -> (result: Diagnostic)
    returns
        Diagnostic::error()
            .with_message(text("expected a single trait bound here"))
            .with_label(span.primary_label()),
{
    Diagnostic::error()
        .with_message(text("expected a single trait bound here"))
        .with_label(span.primary_label())
}

#[verifier::allow_in_spec]
pub fn report_typeset_bindings(span: SourceSpan) -> (result: Diagnostic)
    returns
        Diagnostic::error()
            .with_message(text("typesets cannot have associated type bindings"))
            .with_label(span.primary_label()),
{
    Diagnostic::error()
        .with_message(text("typesets cannot have associated type bindings"))
        .with_label(span.primary_label())
}

#[verifier::allow_in_spec]
pub fn report_multiple_typesets(span: SourceSpan) -> (result: Diagnostic)
    returns
        Diagnostic::error()
            .with_code(DiagnosticCode::MultipleTypesetBounds)
            .with_message(text("at most one typeset bound is allowed"))
            .with_label(span.primary_label()),
{
    Diagnostic::error()
        .with_code(DiagnosticCode::MultipleTypesetBounds)
        .with_message(text("at most one typeset bound is allowed"))
        .with_label(span.primary_label())
}

#[verifier::allow_in_spec]
pub fn report_supertrait_typeset(span: SourceSpan) -> (result: Diagnostic)
    returns
        Diagnostic::error()
            .with_code(DiagnosticCode::ExpectedTrait)
            .with_message(text("expected a trait name, not a typeset"))
            .with_label(span.primary_label()),
{
    Diagnostic::error()
        .with_code(DiagnosticCode::ExpectedTrait)
        .with_message(text("expected a trait name, not a typeset"))
        .with_label(span.primary_label())
}

#[verifier::allow_in_spec]
pub fn report_expected_trait_name(span: SourceSpan) -> (result: Diagnostic)
    returns
        Diagnostic::error()
            .with_code(DiagnosticCode::ExpectedTrait)
            .with_message(text("expected a trait name"))
            .with_label(span.primary_label()),
{
    Diagnostic::error()
        .with_code(DiagnosticCode::ExpectedTrait)
        .with_message(text("expected a trait name"))
        .with_label(span.primary_label())
}

#[verifier::allow_in_spec]
pub fn report_typeset_member_not_integer(ty: TypeIndex, span: SourceSpan) -> (result: Diagnostic)
    returns
        Diagnostic::error()
            .with_code(DiagnosticCode::TypesetMemberNotInteger)
            .with_message(text("typeset member must be an integer type"))
            .with_label(span.primary_label().with_message(with_piece("`", Piece::Type(ty), text("` is not an integer type")))),
{
    Diagnostic::error()
        .with_code(DiagnosticCode::TypesetMemberNotInteger)
        .with_message(text("typeset member must be an integer type"))
        .with_label(span.primary_label().with_message(with_piece("`", Piece::Type(ty), text("` is not an integer type"))))
}

#[verifier::allow_in_spec]
pub fn report_invalid_impl_target(ty: TypeIndex, span: SourceSpan) -> (result: Diagnostic)
    returns
        Diagnostic::error()
            .with_code(DiagnosticCode::InvalidImplTarget)
            .with_message(with_piece("cannot define an `impl` block for `", Piece::Type(ty), text("`")))
            .with_label(span.primary_label()),
{
    Diagnostic::error()
        .with_code(DiagnosticCode::InvalidImplTarget)
        .with_message(with_piece("cannot define an `impl` block for `", Piece::Type(ty), text("`")))
        .with_label(span.primary_label())
}

#[verifier::allow_in_spec]
pub fn report_cannot_implement(trait_name: Symbol, ty: TypeIndex, span: SourceSpan) -> (result: Diagnostic)
    returns
        Diagnostic::error()
            .with_code(DiagnosticCode::InvalidImplTarget)
            .with_message(with_piece("cannot implement `", Piece::Name(trait_name), with_piece("` for `", Piece::Type(ty), text("`"))))
            .with_label(span.primary_label()),
{
    Diagnostic::error()
        .with_code(DiagnosticCode::InvalidImplTarget)
        .with_message(with_piece("cannot implement `", Piece::Name(trait_name), with_piece("` for `", Piece::Type(ty), text("`"))))
        .with_label(span.primary_label())
}

#[verifier::allow_in_spec]
pub fn report_duplicate_trait_impl(trait_name: Symbol, new_impl: SourceSpan, existing_impl: SourceSpan) -> (result: Diagnostic)
    returns
        Diagnostic::error()
            .with_code(DiagnosticCode::DuplicateTraitImpl)
            .with_message(with_piece("`", Piece::Name(trait_name), text("` is already implemented for this type constructor")))
            .with_label(new_impl.primary_label().with_message(with_piece("duplicate implementation of `", Piece::Name(trait_name), text("`"))))
            .with_label(existing_impl.secondary_label().with_message(text("first implementation here"))),
{
    Diagnostic::error()
        .with_code(DiagnosticCode::DuplicateTraitImpl)
        .with_message(with_piece("`", Piece::Name(trait_name), text("` is already implemented for this type constructor")))
        .with_label(new_impl.primary_label().with_message(with_piece("duplicate implementation of `", Piece::Name(trait_name), text("`"))))
        .with_label(existing_impl.secondary_label().with_message(text("first implementation here")))
}

#[verifier::allow_in_spec]
pub fn report_assoc_type_must_implement(assoc_name: Symbol, bound_name: Symbol, ty: TypeIndex, span: SourceSpan) -> (result: Diagnostic)
    returns
        Diagnostic::error()
            .with_code(DiagnosticCode::TypeMistmatch)
            .with_message(with_piece("associated type `", Piece::Name(assoc_name), with_piece("` must implement `", Piece::Name(bound_name), text("`"))))
            .with_label(span.primary_label())
            .with_note(with_piece("`", Piece::Type(ty), with_piece("` does not implement `", Piece::Name(bound_name), text("`")))),
{
    Diagnostic::error()
        .with_code(DiagnosticCode::TypeMistmatch)
        .with_message(with_piece("associated type `", Piece::Name(assoc_name), with_piece("` must implement `", Piece::Name(bound_name), text("`"))))
        .with_label(span.primary_label())
        .with_note(with_piece("`", Piece::Type(ty), with_piece("` does not implement `", Piece::Name(bound_name), text("`"))))
}

#[verifier::allow_in_spec]
pub fn report_assoc_type_not_in_typeset(assoc_name: Symbol, set_name: Symbol, ty: TypeIndex, span: SourceSpan) -> (result: Diagnostic)
    returns
        Diagnostic::error()
            .with_code(DiagnosticCode::TypesetBoundViolation)
            .with_message(with_piece("associated type `", Piece::Name(assoc_name), with_piece("` must be a member of typeset `", Piece::Name(set_name), text("`"))))
            .with_label(span.primary_label())
            .with_note(with_piece("`", Piece::Type(ty), with_piece("` is not a member of typeset `", Piece::Name(set_name), text("`")))),
{
    Diagnostic::error()
        .with_code(DiagnosticCode::TypesetBoundViolation)
        .with_message(with_piece("associated type `", Piece::Name(assoc_name), with_piece("` must be a member of typeset `", Piece::Name(set_name), text("`"))))
        .with_label(span.primary_label())
        .with_note(with_piece("`", Piece::Type(ty), with_piece("` is not a member of typeset `", Piece::Name(set_name), text("`"))))
}

#[verifier::allow_in_spec]
pub fn report_missing_trait_item(kind: &'static str, item_name: Symbol, trait_name: Symbol, span: SourceSpan) -> (result: Diagnostic)
    returns
        Diagnostic::error()
            .with_code(DiagnosticCode::MissingTraitImplItem)
            .with_message(with_piece("missing ", Piece::Text(kind), with_piece(" `", Piece::Name(item_name), with_piece("` required by `", Piece::Name(trait_name), text("`")))))
            .with_label(span.primary_label()),
{
    Diagnostic::error()
        .with_code(DiagnosticCode::MissingTraitImplItem)
        .with_message(with_piece("missing ", Piece::Text(kind), with_piece(" `", Piece::Name(item_name), with_piece("` required by `", Piece::Name(trait_name), text("`")))))
        .with_label(span.primary_label())
}

#[verifier::allow_in_spec]
pub fn report_missing_supertrait(trait_name: Symbol, supertrait_name: Symbol, span: SourceSpan) -> (result: Diagnostic)
    returns
        Diagnostic::error()
            .with_code(DiagnosticCode::MissingSupertraitImpl)
            .with_message(with_piece("cannot implement `", Piece::Name(trait_name), with_piece("` without implementing supertrait `", Piece::Name(supertrait_name), text("`"))))
            .with_label(span.primary_label()),
{
    Diagnostic::error()
        .with_code(DiagnosticCode::MissingSupertraitImpl)
        .with_message(with_piece("cannot implement `", Piece::Name(trait_name), with_piece("` without implementing supertrait `", Piece::Name(supertrait_name), text("`"))))
        .with_label(span.primary_label())
}

#[verifier::allow_in_spec]
pub fn report_unused_function(name: Symbol, span: SourceSpan) -> (result: Diagnostic)
    returns
        Diagnostic::warning()
            .with_code(DiagnosticCode::UnusedItem)
            .with_message(with_piece("function `", Piece::Name(name), text("` is never used")))
            .with_label(span.primary_label()),
{
    Diagnostic::warning()
        .with_code(DiagnosticCode::UnusedItem)
        .with_message(with_piece("function `", Piece::Name(name), text("` is never used")))
        .with_label(span.primary_label())
}

#[verifier::allow_in_spec]
pub fn report_unused_global(name: Symbol, span: SourceSpan) -> (result: Diagnostic)
    returns
        Diagnostic::warning()
            .with_code(DiagnosticCode::UnusedItem)
            .with_message(with_piece("global variable `", Piece::Name(name), text("` is never used")))
            .with_label(span.primary_label()),
{
    Diagnostic::warning()
        .with_code(DiagnosticCode::UnusedItem)
        .with_message(with_piece("global variable `", Piece::Name(name), text("` is never used")))
        .with_label(span.primary_label())
}

#[verifier::allow_in_spec]
pub fn report_unused_const(name: Symbol, span: SourceSpan) -> (result: Diagnostic)
    returns
        Diagnostic::warning()
            .with_code(DiagnosticCode::UnusedItem)
            .with_message(with_piece("const `", Piece::Name(name), text("` is never used")))
            .with_label(span.primary_label()),
{
    Diagnostic::warning()
        .with_code(DiagnosticCode::UnusedItem)
        .with_message(with_piece("const `", Piece::Name(name), text("` is never used")))
        .with_label(span.primary_label())
}

#[verifier::allow_in_spec]
pub fn report_unused_struct(name: Symbol, span: SourceSpan) -> (result: Diagnostic)
    returns
        Diagnostic::warning()
            .with_code(DiagnosticCode::UnusedItem)
            .with_message(with_piece("struct `", Piece::Name(name), text("` is never used")))
            .with_label(span.primary_label()),
{
    Diagnostic::warning()
        .with_code(DiagnosticCode::UnusedItem)
        .with_message(with_piece("struct `", Piece::Name(name), text("` is never used")))
        .with_label(span.primary_label())
}

#[verifier::allow_in_spec]
pub fn report_unused_enum(name: Symbol, span: SourceSpan) -> (result: Diagnostic)
    returns
        Diagnostic::warning()
            .with_code(DiagnosticCode::UnusedItem)
            .with_message(with_piece("enum `", Piece::Name(name), text("` is never used")))
            .with_label(span.primary_label()),
{
    Diagnostic::warning()
        .with_code(DiagnosticCode::UnusedItem)
        .with_message(with_piece("enum `", Piece::Name(name), text("` is never used")))
        .with_label(span.primary_label())
}

#[verifier::allow_in_spec]
pub fn report_unused_type_param(name: Symbol, span: SourceSpan) -> (result: Diagnostic)
    returns
        Diagnostic::warning()
            .with_code(DiagnosticCode::UnusedTypeParam)
            .with_message(with_piece("type parameter `", Piece::Name(name), text("` is never used")))
            .with_label(span.primary_label())
            .with_note(text("consider removing this type parameter or using it in signature")),
{
    Diagnostic::warning()
        .with_code(DiagnosticCode::UnusedTypeParam)
        .with_message(with_piece("type parameter `", Piece::Name(name), text("` is never used")))
        .with_label(span.primary_label())
        .with_note(text("consider removing this type parameter or using it in signature"))
}

#[verifier::allow_in_spec]
pub fn report_unread_field(name: Symbol, span: SourceSpan) -> (result: Diagnostic)
    returns
        Diagnostic::warning()
            .with_code(DiagnosticCode::UnusedStructField)
            .with_message(with_piece("field `", Piece::Name(name), text("` is never read")))
            .with_label(span.primary_label()),
{
    Diagnostic::warning()
        .with_code(DiagnosticCode::UnusedStructField)
        .with_message(with_piece("field `", Piece::Name(name), text("` is never read")))
        .with_label(span.primary_label())
}

#[verifier::allow_in_spec]
pub fn report_expected_trait_bound(file_id: FileId, name: Spanned<Symbol>, noun: &'static str) -> (result: Diagnostic)
    returns
        Diagnostic::error()
            .with_code(DiagnosticCode::ExpectedTraitBound)
            .with_message(with_piece("expected trait, found ", Piece::Text(noun), with_piece(" `", Piece::Name(name.inner), text("`"))))
            .with_label(Label::primary(file_id, name.span).with_message(text("not a trait"))),
{
    Diagnostic::error()
        .with_code(DiagnosticCode::ExpectedTraitBound)
        .with_message(with_piece("expected trait, found ", Piece::Text(noun), with_piece(" `", Piece::Name(name.inner), text("`"))))
        .with_label(Label::primary(file_id, name.span).with_message(text("not a trait")))
}

#[verifier::allow_in_spec]
pub fn report_duplicate_assoc_type_binding(file_id: FileId, name: Spanned<Symbol>) -> (result: Diagnostic)
    returns
        Diagnostic::error()
            .with_code(DiagnosticCode::DuplicateAssocTypeBinding)
            .with_message(with_piece("associated type `", Piece::Name(name.inner), text("` is bound more than once in this `where` clause")))
            .with_label(Label::primary(file_id, name.span).with_message(text("duplicate binding"))),
{
    Diagnostic::error()
        .with_code(DiagnosticCode::DuplicateAssocTypeBinding)
        .with_message(with_piece("associated type `", Piece::Name(name.inner), text("` is bound more than once in this `where` clause")))
        .with_label(Label::primary(file_id, name.span).with_message(text("duplicate binding")))
}

#[verifier::allow_in_spec]
pub fn report_conflicting_assoc_type_binding(subject: Symbol, trait_name: Symbol, assoc_name: Symbol, second_value: SourceSpan, first_value: SourceSpan, merge_point: SourceSpan) -> (result: Diagnostic)
    returns
        Diagnostic::error()
            .with_code(DiagnosticCode::DuplicateAssocTypeBinding)
            .with_message(with_piece("`", Piece::Name(subject), with_piece("` requires conflicting bindings for `", Piece::Name(trait_name), with_piece("::", Piece::Name(assoc_name), text("`")))))
            .with_label(second_value.primary_label().with_message(text("conflicting value bound here")))
            .with_label(first_value.secondary_label().with_message(text("first bound to this value here")))
            .with_label(merge_point.secondary_label().with_message(text("bounds merged here"))),
{
    Diagnostic::error()
        .with_code(DiagnosticCode::DuplicateAssocTypeBinding)
        .with_message(with_piece("`", Piece::Name(subject), with_piece("` requires conflicting bindings for `", Piece::Name(trait_name), with_piece("::", Piece::Name(assoc_name), text("`")))))
        .with_label(second_value.primary_label().with_message(text("conflicting value bound here")))
        .with_label(first_value.secondary_label().with_message(text("first bound to this value here")))
        .with_label(merge_point.secondary_label().with_message(text("bounds merged here")))
}

#[verifier::allow_in_spec]
pub fn report_not_an_associated_type(file_id: FileId, name: Spanned<Symbol>, trait_name: Symbol) -> (result: Diagnostic)
    returns
        Diagnostic::error()
            .with_code(DiagnosticCode::NotATraitMember)
            .with_message(with_piece("`", Piece::Name(name.inner), with_piece("` is not an associated type of trait `", Piece::Name(trait_name), text("`"))))
            .with_label(Label::primary(file_id, name.span)),
{
    Diagnostic::error()
        .with_code(DiagnosticCode::NotATraitMember)
        .with_message(with_piece("`", Piece::Name(name.inner), with_piece("` is not an associated type of trait `", Piece::Name(trait_name), text("`"))))
        .with_label(Label::primary(file_id, name.span))
}

#[verifier::allow_in_spec]
pub fn report_duplicate_definition(
    name: Symbol,
    namespace: SymbolNamespace,
    first_definition: SourceSpan,
    second_definition: SourceSpan,
) -> (result: Diagnostic)
    returns
        Diagnostic::error().with_code(DiagnosticCode::DuplicateDefinition).with_message(
            with_piece("the name `", Piece::Name(name), text("` is defined multiple times")),
        ).with_label(second_definition.primary_label()).with_label(
            first_definition.primary_label().with_message(
                with_piece(
                    "previous definition of the ",
                    Piece::Name(name),
                    with_piece(
                        " `",
                        Piece::Text(
                            match namespace {
                                SymbolNamespace::Type => "type",
                                SymbolNamespace::Value => "value",
                            },
                        ),
                        text("` here"),
                    ),
                ),
            ),
        ),
{
    Diagnostic::error().with_code(DiagnosticCode::DuplicateDefinition).with_message(
        with_piece("the name `", Piece::Name(name), text("` is defined multiple times")),
    ).with_label(second_definition.primary_label()).with_label(
        first_definition.primary_label().with_message(
            with_piece(
                "previous definition of the ",
                Piece::Name(name),
                with_piece(
                    " `",
                    Piece::Text(
                        match namespace {
                            SymbolNamespace::Type => "type",
                            SymbolNamespace::Value => "value",
                        },
                    ),
                    text("` here"),
                ),
            ),
        ),
    )
}

/// The message that names two types with the words that an operator calls
/// for; assignments name the right side first.
#[verifier::allow_in_spec]
pub fn mismatch_message(operator: BinaryOp, left: TypeIndex, right: TypeIndex) -> (result: Message)
    returns
        (match operator {
            BinaryOp::Add => two_types("cannot add `", left, "` to `", right),
            BinaryOp::Sub => two_types("cannot subtract `", left, "` from `", right),
            BinaryOp::Assign => two_types("cannot assign `", right, "` to `", left),
            BinaryOp::Mul => two_types("cannot multiply `", left, "` by `", right),
            BinaryOp::Div => two_types("cannot divide `", left, "` by `", right),
            BinaryOp::Rem => two_types(
                "cannot calculate the remainder of `",
                left,
                "` by `",
                right,
            ),
            BinaryOp::Eq | BinaryOp::NotEq | BinaryOp::Less | BinaryOp::LessEq
            | BinaryOp::Greater | BinaryOp::GreaterEq => two_types(
                "cannot compare `",
                left,
                "` to `",
                right,
            ),
            BinaryOp::MulAssign => two_types("cannot multiply-assign `", right, "` to `", left),
            BinaryOp::DivAssign => two_types("cannot divide-assign `", right, "` by `", left),
            BinaryOp::RemAssign => two_types("cannot remainder-assign `", right, "` by `", left),
            BinaryOp::AddAssign => two_types("cannot add-assign `", right, "` to `", left),
            BinaryOp::SubAssign => two_types("cannot subtract-assign `", right, "` from `", left),
            _ => two_types("cannot perform operation on `", left, "` and `", right),
        }),
{
    match operator {
        BinaryOp::Add => two_types("cannot add `", left, "` to `", right),
        BinaryOp::Sub => two_types("cannot subtract `", left, "` from `", right),
        BinaryOp::Assign => two_types("cannot assign `", right, "` to `", left),
        BinaryOp::Mul => two_types("cannot multiply `", left, "` by `", right),
        BinaryOp::Div => two_types("cannot divide `", left, "` by `", right),
        BinaryOp::Rem => two_types("cannot calculate the remainder of `", left, "` by `", right),
        BinaryOp::Eq
        | BinaryOp::NotEq
        | BinaryOp::Less
        | BinaryOp::LessEq
        | BinaryOp::Greater
        | BinaryOp::GreaterEq => two_types("cannot compare `", left, "` to `", right),
        BinaryOp::MulAssign => two_types("cannot multiply-assign `", right, "` to `", left),
        BinaryOp::DivAssign => two_types("cannot divide-assign `", right, "` by `", left),
        BinaryOp::RemAssign => two_types("cannot remainder-assign `", right, "` by `", left),
        BinaryOp::AddAssign => two_types("cannot add-assign `", right, "` to `", left),
        BinaryOp::SubAssign => two_types("cannot subtract-assign `", right, "` from `", left),
        _ => two_types("cannot perform operation on `", left, "` and `", right),
    }
}

#[verifier::allow_in_spec]
pub fn two_types(
    before: &'static str,
    first: TypeIndex,
    between: &'static str,
    second: TypeIndex,
) -> (result: Message)
    returns
        with_piece(before, Piece::Type(first), with_piece(between, Piece::Type(second), text("`"))),
{
    with_piece(before, Piece::Type(first), with_piece(between, Piece::Type(second), text("`")))
}

#[verifier::allow_in_spec]
pub fn report_binary_expression_mistmatch(
    operator: BinaryOp,
    left: Spanned<TypeIndex>,
    right: Spanned<TypeIndex>,
    file_id: FileId,
) -> (result: Diagnostic)
    returns
        Diagnostic::error().with_message(
            mismatch_message(operator, left.inner, right.inner),
        ).with_label(
            Label::secondary(file_id, left.span).with_message(
                with_piece("`", Piece::Type(left.inner), text("`")),
            ),
        ).with_label(
            Label::primary(file_id, right.span).with_message(
                with_piece("`", Piece::Type(right.inner), text("`")),
            ),
        ),
{
    Diagnostic::error().with_message(
        mismatch_message(operator, left.inner, right.inner),
    ).with_label(
        Label::secondary(file_id, left.span).with_message(
            with_piece("`", Piece::Type(left.inner), text("`")),
        ),
    ).with_label(
        Label::primary(file_id, right.span).with_message(
            with_piece("`", Piece::Type(right.inner), text("`")),
        ),
    )
}

/// The names in quotes, separated by commas, followed by `rest`.
pub open spec fn quoted_names(names: List<Spanned<Symbol>>, rest: Message) -> Message
    decreases names,
{
    match names {
        List::Nil => rest,
        List::Cons(name, tail) => match *tail {
            List::Nil => with_piece("`", Piece::Name(name.inner), cons(Piece::Text("`"), rest)),
            List::Cons(..) => with_piece(
                "`",
                Piece::Name(name.inner),
                cons(Piece::Text("`, "), quoted_names(*tail, rest)),
            ),
        },
    }
}

/// The names in quotes, separated by commas, followed by `rest`.
pub fn quote_names(names: &List<Spanned<Symbol>>, rest: Message) -> (result: Message)
    ensures
        result == quoted_names(*names, rest),
    decreases names,
{
    match names {
        List::Nil => rest,
        List::Cons(name, tail) => {
            if tail.is_empty() {
                with_piece("`", Piece::Name(name.inner), cons(Piece::Text("`"), rest))
            } else {
                let more = quote_names(tail, rest);
                with_piece("`", Piece::Name(name.inner), cons(Piece::Text("`, "), more))
            }
        },
    }
}

/// The list without its last element, and that element.
pub open spec fn without_last(names: List<Spanned<Symbol>>) -> (
    List<Spanned<Symbol>>,
    Option<Spanned<Symbol>>,
)
    decreases names,
{
    match names {
        List::Nil => (List::Nil, None),
        List::Cons(name, tail) => match *tail {
            List::Nil => (List::Nil, Some(*name)),
            List::Cons(..) => {
                let (rest, last) = without_last(*tail);
                (cons(*name, rest), last)
            },
        },
    }
}

/// The list without its last element, and that element.
pub fn split_last(names: &List<Spanned<Symbol>>) -> (result: (
    List<Spanned<Symbol>>,
    Option<Spanned<Symbol>>,
))
    ensures
        result == without_last(*names),
    decreases names,
{
    match names {
        List::Nil => (List::Nil, None),
        List::Cons(name, tail) => {
            if tail.is_empty() {
                (List::Nil, Some(**name))
            } else {
                let (rest, last) = split_last(tail);
                (cons(**name, rest), last)
            }
        },
    }
}

/// One to five names in words; nothing for another number of names.
pub open spec fn named_in_words(
    names: List<Spanned<Symbol>>,
    one: &'static str,
    several: &'static str,
    end: &'static str,
    several_end: &'static str,
) -> Option<Message> {
    match without_last(names) {
        (List::Nil, Some(only)) => Some(with_piece(one, Piece::Name(only.inner), text(end))),
        (List::Cons(first, rest), Some(last)) => match *rest {
            List::Nil => Some(
                with_piece(
                    several,
                    Piece::Text("`"),
                    cons(
                        Piece::Name(first.inner),
                        with_piece("` and `", Piece::Name(last.inner), text(several_end)),
                    ),
                ),
            ),
            List::Cons(..) => if names.count() <= 5 {
                Some(
                    cons(
                        Piece::Text(several),
                        quoted_names(
                            without_last(names).0,
                            with_piece(", and `", Piece::Name(last.inner), text(several_end)),
                        ),
                    ),
                )
            } else {
                None
            },
        },
        _ => None,
    }
}

/// One to five names in words; nothing for another number of names.
pub fn name_in_words(
    names: &List<Spanned<Symbol>>,
    one: &'static str,
    several: &'static str,
    end: &'static str,
    several_end: &'static str,
) -> (result: Option<Message>)
    ensures
        result == named_in_words(*names, one, several, end, several_end),
{
    let count: usize = names.len();
    let (before, last) = split_last(names);
    match last {
        None => {
            proof {
                lemma_without_last(*names);
            }
            None
        },
        Some(last) => {
            match &before {
                List::Nil => Some(with_piece(one, Piece::Name(last.inner), text(end))),
                List::Cons(first, rest) => {
                    if rest.is_empty() {
                        Some(
                            with_piece(
                                several,
                                Piece::Text("`"),
                                cons(
                                    Piece::Name(first.inner),
                                    with_piece(
                                        "` and `",
                                        Piece::Name(last.inner),
                                        text(several_end),
                                    ),
                                ),
                            ),
                        )
                    } else if count <= 5 {
                        Some(
                            cons(
                                Piece::Text(several),
                                quote_names(
                                    &before,
                                    with_piece(
                                        ", and `",
                                        Piece::Name(last.inner),
                                        text(several_end),
                                    ),
                                ),
                            ),
                        )
                    } else {
                        None
                    }
                },
            }
        },
    }
}

proof fn lemma_without_last(names: List<Spanned<Symbol>>)
    ensures
        without_last(names).1 is None ==> names == List::<Spanned<Symbol>>::Nil,
    decreases names,
{
    match names {
        List::Nil => {},
        List::Cons(_, tail) => {
            lemma_without_last(*tail);
        },
    }
}

/// Which variants of an enum a `match` leaves out.
pub open spec fn non_exhaustive_match(missing: List<Spanned<Symbol>>, span: SourceSpan) -> Diagnostic {
    Diagnostic::error().with_code(DiagnosticCode::NonExhaustiveMatch).with_message(
        match named_in_words(
            missing,
            "non-exhaustive `match`: variant `",
            "non-exhaustive `match`: variants ",
            "` not covered",
            "` not covered",
        ) {
            Some(message) => message,
            None => text("non-exhaustive `match`: multiple variants not covered"),
        },
    ).with_label(span.primary_label()).with_note(
        text("add a wildcard arm `_ -> { ... }` or cover every variant"),
    )
}

pub fn report_non_exhaustive_match(missing: &List<Spanned<Symbol>>, span: SourceSpan) -> (result:
    Diagnostic)
    ensures
        result == non_exhaustive_match(*missing, span),
{
    let message = match name_in_words(
        missing,
        "non-exhaustive `match`: variant `",
        "non-exhaustive `match`: variants ",
        "` not covered",
        "` not covered",
    ) {
        Some(message) => message,
        None => text("non-exhaustive `match`: multiple variants not covered"),
    };
    Diagnostic::error().with_code(DiagnosticCode::NonExhaustiveMatch).with_message(
        message,
    ).with_label(span.primary_label()).with_note(
        text("add a wildcard arm `_ -> { ... }` or cover every variant"),
    )
}

/// A diagnostic with a secondary label at each of the names.
pub open spec fn labelled_names(
    diagnostic: Diagnostic,
    names: List<Spanned<Symbol>>,
    file_id: FileId,
) -> Diagnostic
    decreases names,
{
    match names {
        List::Nil => diagnostic,
        List::Cons(name, tail) => labelled_names(
            diagnostic.with_label(Label::secondary(file_id, name.span)),
            *tail,
            file_id,
        ),
    }
}

/// A diagnostic with a secondary label at each of the names.
pub fn label_names(diagnostic: Diagnostic, names: &List<Spanned<Symbol>>, file_id: FileId) -> (result:
    Diagnostic)
    ensures
        result == labelled_names(diagnostic, *names, file_id),
    decreases names,
{
    match names {
        List::Nil => diagnostic,
        List::Cons(name, tail) => label_names(
            diagnostic.with_label(Label::secondary(file_id, name.span)),
            tail,
            file_id,
        ),
    }
}

/// Which variants of an enum nothing constructs.
pub open spec fn unused_enum_variants(file_id: FileId, unused: List<Spanned<Symbol>>) -> Diagnostic {
    labelled_names(
        Diagnostic::warning().with_code(DiagnosticCode::UnusedEnumVariant).with_message(
            match named_in_words(
                unused,
                "variant `",
                "variants ",
                "` is never constructed",
                "` are never constructed",
            ) {
                Some(message) => message,
                None => text("multiple variants are never constructed"),
            },
        ),
        unused,
        file_id,
    )
}

pub fn report_unused_enum_variants(file_id: FileId, unused: &List<Spanned<Symbol>>) -> (result:
    Diagnostic)
    ensures
        result == unused_enum_variants(file_id, *unused),
{
    let message = match name_in_words(
        unused,
        "variant `",
        "variants ",
        "` is never constructed",
        "` are never constructed",
    ) {
        Some(message) => message,
        None => text("multiple variants are never constructed"),
    };
    label_names(
        Diagnostic::warning().with_code(DiagnosticCode::UnusedEnumVariant).with_message(message),
        unused,
        file_id,
    )
}

/// Which fields an initializer of a struct leaves out.
pub open spec fn missing_struct_fields(
    struct_name: Symbol,
    missing: List<Spanned<Symbol>>,
    at: SourceSpan,
) -> Diagnostic {
    Diagnostic::error().with_code(DiagnosticCode::MissingStructFields).with_message(
        cons(
            Piece::Text("missing fields "),
            quoted_names(
                missing,
                with_piece(" in initializer of `", Piece::Name(struct_name), text("`")),
            ),
        ),
    ).with_label(at.primary_label())
}

pub fn report_missing_struct_fields(
    struct_name: Symbol,
    missing: &List<Spanned<Symbol>>,
    at: SourceSpan,
) -> (result: Diagnostic)
    ensures
        result == missing_struct_fields(struct_name, *missing, at),
{
    Diagnostic::error().with_code(DiagnosticCode::MissingStructFields).with_message(
        cons(
            Piece::Text("missing fields "),
            quote_names(
                missing,
                with_piece(" in initializer of `", Piece::Name(struct_name), text("`")),
            ),
        ),
    ).with_label(at.primary_label())
}

/// Which fields a struct pattern leaves out.
pub open spec fn missing_pattern_fields(
    struct_name: Symbol,
    missing: List<Spanned<Symbol>>,
    at: SourceSpan,
) -> Diagnostic {
    Diagnostic::error().with_code(DiagnosticCode::MissingStructFields).with_message(
        cons(
            Piece::Text("missing fields "),
            quoted_names(
                missing,
                with_piece(" in pattern for `", Piece::Name(struct_name), text("`")),
            ),
        ),
    ).with_note(
        text("add the remaining fields, or end the pattern with `..` to ignore them"),
    ).with_label(at.primary_label())
}

pub fn report_missing_pattern_fields(
    struct_name: Symbol,
    missing: &List<Spanned<Symbol>>,
    at: SourceSpan,
) -> (result: Diagnostic)
    ensures
        result == missing_pattern_fields(struct_name, *missing, at),
{
    Diagnostic::error().with_code(DiagnosticCode::MissingStructFields).with_message(
        cons(
            Piece::Text("missing fields "),
            quote_names(
                missing,
                with_piece(" in pattern for `", Piece::Name(struct_name), text("`")),
            ),
        ),
    ).with_note(
        text("add the remaining fields, or end the pattern with `..` to ignore them"),
    ).with_label(at.primary_label())
}

/// A diagnostic with a secondary label for the value at each of the places.
pub open spec fn labelled_values(
    diagnostic: Diagnostic,
    value: i64,
    places: List<SourceSpan>,
) -> Diagnostic
    decreases places,
{
    match places {
        List::Nil => diagnostic,
        List::Cons(place, tail) => labelled_values(
            diagnostic.with_label(
                place.secondary_label().with_message(
                    with_piece("value `", Piece::Int(value), text("` assigned here")),
                ),
            ),
            value,
            *tail,
        ),
    }
}

/// A diagnostic with a secondary label for the value at each of the places.
pub fn label_values(diagnostic: Diagnostic, value: i64, places: &List<SourceSpan>) -> (result:
    Diagnostic)
    ensures
        result == labelled_values(diagnostic, value, *places),
    decreases places,
{
    match places {
        List::Nil => diagnostic,
        List::Cons(place, tail) => label_values(
            diagnostic.with_label(
                place.secondary_label().with_message(
                    with_piece("value `", Piece::Int(value), text("` assigned here")),
                ),
            ),
            value,
            tail,
        ),
    }
}

/// That variants of an enum share a value: one diagnostic for the value, with
/// a label at every variant that has it.
pub open spec fn enum_duplicate_value(
    enum_name: SourceSpan,
    value: i64,
    variants: List<SourceSpan>,
) -> Diagnostic {
    labelled_values(
        Diagnostic::error().with_code(DiagnosticCode::EnumDuplicateValue).with_message(
            with_piece(
                "multiple variants of this enum have the same value `",
                Piece::Int(value),
                text("`"),
            ),
        ).with_label(enum_name.primary_label()),
        value,
        variants,
    )
}

pub fn report_enum_duplicate_value(
    enum_name: SourceSpan,
    value: i64,
    variants: &List<SourceSpan>,
) -> (result: Diagnostic)
    ensures
        result == enum_duplicate_value(enum_name, value, *variants),
{
    label_values(
        Diagnostic::error().with_code(DiagnosticCode::EnumDuplicateValue).with_message(
            with_piece(
                "multiple variants of this enum have the same value `",
                Piece::Int(value),
                text("`"),
            ),
        ).with_label(enum_name.primary_label()),
        value,
        variants,
    )
}

/// The types, separated by quotes and commas, followed by `rest`.
pub open spec fn quoted_types(types: List<TypeIndex>, rest: Message) -> Message
    decreases types,
{
    match types {
        List::Nil => rest,
        List::Cons(ty, tail) => match *tail {
            List::Nil => cons(Piece::Type(*ty), rest),
            List::Cons(..) => cons(
                Piece::Type(*ty),
                cons(Piece::Text("`, `"), quoted_types(*tail, rest)),
            ),
        },
    }
}

/// The types, separated by quotes and commas, followed by `rest`.
pub fn quote_types(types: &List<TypeIndex>, rest: Message) -> (result: Message)
    ensures
        result == quoted_types(*types, rest),
    decreases types,
{
    match types {
        List::Nil => rest,
        List::Cons(ty, tail) => {
            if tail.is_empty() {
                cons(Piece::Type(**ty), rest)
            } else {
                let more = quote_types(tail, rest);
                cons(Piece::Type(**ty), cons(Piece::Text("`, `"), more))
            }
        },
    }
}

/// The types from a position on.
pub open spec fn types_from(types: List<TypeIndex>, start: usize) -> List<TypeIndex>
    decreases types,
{
    match types {
        List::Nil => List::Nil,
        List::Cons(_, tail) => if start == 0 {
            types
        } else {
            types_from(*tail, (start - 1) as usize)
        },
    }
}

/// The types from a position on.
pub fn drop_types(types: &List<TypeIndex>, start: usize) -> (result: List<TypeIndex>)
    ensures
        result == types_from(*types, start),
    decreases types,
{
    match types {
        List::Nil => List::Nil,
        List::Cons(_, tail) => if start == 0 {
            types.duplicate()
        } else {
            drop_types(tail, start - 1)
        },
    }
}

/// That a call has too few or too many arguments, with a note that says which
/// are missing or how many are too many.
pub open spec fn argument_count_mismatch(
    actual_count: usize,
    params: List<TypeIndex>,
    call_span: SourceSpan,
    is_method: bool,
) -> Diagnostic {
    let expected = list::clamp(params.count());
    let diagnostic = Diagnostic::error().with_code(
        DiagnosticCode::ArgumentCountMismatch,
    ).with_message(
        with_piece(
            "this ",
            Piece::Text(
                if is_method {
                    "method"
                } else {
                    "function"
                },
            ),
            with_piece(
                " takes ",
                Piece::Count(expected),
                with_piece(
                    " ",
                    Piece::Text(
                        if expected == 1 {
                            "argument"
                        } else {
                            "arguments"
                        },
                    ),
                    with_piece(
                        " but ",
                        Piece::Count(actual_count),
                        with_piece(
                            " ",
                            Piece::Text(
                                if actual_count == 1 {
                                    "argument was"
                                } else {
                                    "arguments were"
                                },
                            ),
                            text(" supplied"),
                        ),
                    ),
                ),
            ),
        ),
    ).with_label(call_span.primary_label());
    if actual_count < expected {
        let missing = types_from(params, actual_count);
        if expected - actual_count == 1 {
            diagnostic.with_note(
                with_piece(
                    "argument #",
                    Piece::Count((actual_count + 1) as usize),
                    cons(Piece::Text(" of type `"), quoted_types(missing, text("` is missing"))),
                ),
            )
        } else {
            diagnostic.with_note(
                cons(
                    Piece::Count((expected - actual_count) as usize),
                    cons(
                        Piece::Text(" arguments of type `"),
                        quoted_types(missing, text("` are missing")),
                    ),
                ),
            )
        }
    } else if actual_count - expected == 1 {
        diagnostic.with_note(
            with_piece("unexpected argument #", Piece::Count(actual_count), List::Nil),
        )
    } else {
        diagnostic.with_note(
            cons(
                Piece::Count((actual_count - expected) as usize),
                text(" unexpected arguments"),
            ),
        )
    }
}

pub fn report_argument_count_mismatch(
    actual_count: usize,
    params: &List<TypeIndex>,
    call_span: SourceSpan,
    is_method: bool,
) -> (result: Diagnostic)
    ensures
        result == argument_count_mismatch(actual_count, *params, call_span, is_method),
{
    let expected: usize = params.len();
    let diagnostic = Diagnostic::error().with_code(
        DiagnosticCode::ArgumentCountMismatch,
    ).with_message(
        with_piece(
            "this ",
            Piece::Text(
                if is_method {
                    "method"
                } else {
                    "function"
                },
            ),
            with_piece(
                " takes ",
                Piece::Count(expected),
                with_piece(
                    " ",
                    Piece::Text(
                        if expected == 1 {
                            "argument"
                        } else {
                            "arguments"
                        },
                    ),
                    with_piece(
                        " but ",
                        Piece::Count(actual_count),
                        with_piece(
                            " ",
                            Piece::Text(
                                if actual_count == 1 {
                                    "argument was"
                                } else {
                                    "arguments were"
                                },
                            ),
                            text(" supplied"),
                        ),
                    ),
                ),
            ),
        ),
    ).with_label(call_span.primary_label());
    if actual_count < expected {
        let missing = drop_types(params, actual_count);
        if expected - actual_count == 1 {
            diagnostic.with_note(
                with_piece(
                    "argument #",
                    Piece::Count(actual_count + 1),
                    cons(Piece::Text(" of type `"), quote_types(&missing, text("` is missing"))),
                ),
            )
        } else {
            diagnostic.with_note(
                cons(
                    Piece::Count(expected - actual_count),
                    cons(
                        Piece::Text(" arguments of type `"),
                        quote_types(&missing, text("` are missing")),
                    ),
                ),
            )
        }
    } else if actual_count - expected == 1 {
        diagnostic.with_note(
            with_piece("unexpected argument #", Piece::Count(actual_count), List::Nil),
        )
    } else {
        diagnostic.with_note(
            cons(Piece::Count(actual_count - expected), text(" unexpected arguments")),
        )
    }
}

} // verus!
