//! The checks on parts of a body that are built already: blocks, locals,
//! matches, fields, elements and indices.

use vstd::prelude::*;

use crate::ast;
use crate::ast::{PathSegment, Statement, StatementKind};
use crate::diagnostics::text;
use crate::interner;
use crate::list::{cons, List};
use crate::literal;
use crate::literal::{parse_char_literal, CharLiteralError};
use crate::lookup;
use crate::lookup::{find_field, ResolvedMember};
use crate::members;
use crate::members::{total_type_param_count, MemberLookup};
use crate::names::poisoned;
use crate::relate::MAX_DEPTH;
use crate::reports;
use crate::reports::{
    report_array_element_not_const, report_array_element_not_numeric, report_array_size_mismatch,
    report_break_outside_of_loop, report_call_requires_function, report_cannot_deref_non_pointer,
    report_cannot_store_through_immutable_pointer, report_cannot_take_address_of_value,
    report_cannot_take_mutable_address_of_immutable, report_char_literal_too_long,
    report_continue_outside_of_loop, report_empty_char_literal, report_index_on_non_indexable,
    report_invalid_cast, report_invalid_pattern, report_missing_else_block,
    report_missing_struct_fields, report_non_exhaustive_match,
    report_non_exhaustive_match_no_wildcard, report_not_a_field, report_private_field,
    report_type_annotation_required,
    report_type_mistmatch, report_undeclared_identifier, report_undeclared_label,
    report_unnecessary_mutability, report_unreachable_code, report_unreachable_match_arm,
    report_unused_label, report_unused_value, report_unused_variable, report_wrong_type_arg_count,
};
use crate::resolve;
use crate::resolve::join_spans;
use crate::scope::{next_index, ExprContext};
use crate::shape::{poisoned_as, typed};
use crate::span::{DefId, FileId, SourceSpan, Spanned, Symbol, TextSpan};
use crate::state;
use crate::state::{vec_at, Builder, State};
use crate::tir::{
    AccessContext, AccessKind, AccessTarget, BlockKind, BlockScope, ConstValue, EnumVariant,
    ExprKind, Expression, LabelInfo, Local, LocalAccess, MatchArm, Pattern, Place, PlaceKind,
    ResolveContext, StackFrame, StructField, SymbolKind, SymbolNamespace,
};
use crate::ty;
use crate::types::{FunctionSignature, Type, TypeIndex};

verus! {

/// A field of a struct, with its type for the struct's type arguments.
#[derive(Clone, Copy, Debug, PartialEq, Eq, Structural)]
pub struct ResolvedField {
    pub index: usize,
    pub ty: TypeIndex,
}

/// Whether a field is read or given its first value.
#[derive(Clone, Copy, Debug, PartialEq, Eq, Structural)]
pub enum FieldAccessKind {
    Read,
    Init,
}

/// The expression that reads a field of an object.
#[verifier::allow_in_spec]
pub fn field_expression(object: Expression, field: ResolvedField, span: TextSpan) -> (result: Expression)
    returns
        (match object.kind {
            ExprKind::Load { place } => Expression {
                kind: ExprKind::Load {
                    place: Box::new(
                        Place {
                            kind: PlaceKind::Field { object: place, field_index: field.index },
                            ty: field.ty,
                            memory: place.memory,
                            mutable: place.mutable,
                            span,
                        },
                    ),
                },
                ty: field.ty,
                span,
            },
            _ => Expression {
                kind: ExprKind::FieldAccess { object: Box::new(object), field_index: field.index },
                ty: field.ty,
                span,
            },
        }),
{
    let Expression { kind, ty, span: object_span } = object;
    match kind {
        ExprKind::Load { place } => {
            let memory: TypeIndex = place.memory;
            let mutable: bool = place.mutable;
            Expression {
                kind: ExprKind::Load {
                    place: Box::new(
                        Place {
                            kind: PlaceKind::Field { object: place, field_index: field.index },
                            ty: field.ty,
                            memory,
                            mutable,
                            span,
                        },
                    ),
                },
                ty: field.ty,
                span,
            }
        },
        kind => Expression {
            kind: ExprKind::FieldAccess {
                object: Box::new(Expression { kind, ty, span: object_span }),
                field_index: field.index,
            },
            ty: field.ty,
            span,
        },
    }
}

/// The expression that loads a value from a place in memory.
#[verifier::allow_in_spec]
pub fn load_expression(
    kind: PlaceKind,
    ty: TypeIndex,
    memory: TypeIndex,
    mutable: bool,
    span: TextSpan,
) -> (result: Expression)
    returns
        (Expression {
            kind: ExprKind::Load { place: Box::new(Place { kind, ty, memory, mutable, span }) },
            ty,
            span,
        }),
{
    Expression {
        kind: ExprKind::Load { place: Box::new(Place { kind, ty, memory, mutable, span }) },
        ty,
        span,
    }
}

/// An expression inside a box.
#[verifier::allow_in_spec]
pub fn boxed(value: Option<Expression>) -> (result: Option<Box<Expression>>)
    returns
        (match value {
            Some(value) => Some(Box::new(value)),
            None => None,
        }),
{
    match value {
        Some(value) => Some(Box::new(value)),
        None => None,
    }
}

/// The expression, or a poisoned one in place of one that failed.
#[verifier::allow_in_spec]
pub fn or_poisoned(value: Option<Expression>, span: TextSpan) -> (result: Expression)
    returns
        (match value {
            Some(value) => value,
            None => poisoned(span),
        }),
{
    match value {
        Some(value) => value,
        None => poisoned(span),
    }
}

/// A number of elements as the size of an array.
#[verifier::allow_in_spec]
pub fn array_size(count: usize) -> (result: u32)
    returns
        (#[verifier::truncate]
        (count as u32)),
{
    #[verifier::truncate]
    (count as u32)
}

/// The value of a repeat count as the size of an array.
#[verifier::allow_in_spec]
pub fn repeat_size(count: i64) -> (result: u32)
    returns
        (#[verifier::truncate]
        (count as u32)),
{
    #[verifier::truncate]
    (count as u32)
}

/// The character that a character literal stands for.
#[verifier::allow_in_spec]
pub fn char_value(raw: &String) -> (result: Result<char, CharLiteralError>)
    returns
        literal::char_literal_value(raw@),
{
    parse_char_literal(raw.as_str())
}

/// An `if` of that type.
#[verifier::allow_in_spec]
pub fn if_expression(
    condition: Expression,
    then_block: Expression,
    else_block: Option<Expression>,
    ty: TypeIndex,
    span: TextSpan,
) -> (result: Expression)
    returns
        (Expression {
            kind: ExprKind::IfElse {
                condition: Box::new(condition),
                then_block: Box::new(then_block),
                else_block: boxed(else_block),
            },
            ty,
            span,
        }),
{
    Expression {
        kind: ExprKind::IfElse {
            condition: Box::new(condition),
            then_block: Box::new(then_block),
            else_block: boxed(else_block),
        },
        ty,
        span,
    }
}

/// What is expected of an array literal.
#[derive(Clone, Copy, Debug, PartialEq, Eq, Structural)]
pub struct ExpectedArray {
    pub of: TypeIndex,
    pub size: Option<u32>,
    pub memory: Option<TypeIndex>,
    pub mutable: bool,
}

/// The value of a block: its last statement, where that is an expression
/// without a semicolon.
pub open spec fn result_of_block(statements: &List<Statement>) -> Option<TextSpan>
    decreases statements,
{
    match statements {
        List::Nil => None,
        List::Cons(statement, rest) => {
            if !rest.is_empty() {
                result_of_block(rest)
            } else {
                result_of_statement(statement)
            }
        },
    }
}

/// The value of a block: its last statement, where that is an expression
/// without a semicolon.
pub fn block_result(statements: &List<Statement>) -> (result: Option<TextSpan>)
    ensures
        result == result_of_block(statements),
    decreases statements,
{
    match statements {
        List::Nil => None,
        List::Cons(statement, rest) => {
            if !rest.is_empty() {
                return block_result(rest);
            }
            statement_result(statement)
        },
    }
}

/// The place of the value that a last statement is, if it is one.
pub open spec fn result_of_statement(statement: &Statement) -> Option<TextSpan> {
    match &statement.kind {
        StatementKind::Expression(value) => {
            if statement.separated {
                None
            } else {
                Some(value.span)
            }
        },
        StatementKind::LocalDefinition { .. } => None,
    }
}

/// The place of the value that a last statement is, if it is one.
pub fn statement_result(statement: &Statement) -> (result: Option<TextSpan>)
    ensures
        result == result_of_statement(statement),
{
    match &statement.kind {
        StatementKind::Expression(value) => {
            if statement.separated {
                None
            } else {
                Some(value.span)
            }
        },
        StatementKind::LocalDefinition { .. } => None,
    }
}

/// The place of the statement at a position; that of its value for the
/// block's value.
pub open spec fn span_of_statement(
    statements: &List<Statement>,
    number: usize,
) -> Option<TextSpan>
    decreases statements,
{
    match statements {
        List::Nil => None,
        List::Cons(statement, rest) => {
            if number > 0 {
                span_of_statement(rest, (number - 1) as usize)
            } else {
                if rest.is_empty() {
                    match result_of_statement(statement) {
                        Some(span) => Some(span),
                        None => Some(statement.span),
                    }
                } else {
                    Some(statement.span)
                }
            }
        },
    }
}

/// The place of the statement at a position; that of its value for the
/// block's value.
pub fn statement_span(statements: &List<Statement>, number: usize) -> (result: Option<TextSpan>)
    ensures
        result == span_of_statement(statements, number),
    decreases statements,
{
    match statements {
        List::Nil => None,
        List::Cons(statement, rest) => {
            if number > 0 {
                return statement_span(rest, number - 1);
            }
            if rest.is_empty() {
                match statement_result(statement) {
                    Some(span) => Some(span),
                    None => Some(statement.span),
                }
            } else {
                Some(statement.span)
            }
        },
    }
}

/// The place of the last statement, or of the block's value.
pub open spec fn span_of_last_statement(statements: &List<Statement>) -> Option<TextSpan>
    decreases statements,
{
    match statements {
        List::Nil => None,
        List::Cons(statement, rest) => {
            if !rest.is_empty() {
                span_of_last_statement(rest)
            } else {
                match result_of_statement(statement) {
                    Some(span) => Some(span),
                    None => Some(statement.span),
                }
            }
        },
    }
}

/// The place of the last statement, or of the block's value.
pub fn last_statement_span(statements: &List<Statement>) -> (result: Option<TextSpan>)
    ensures
        result == span_of_last_statement(statements),
    decreases statements,
{
    match statements {
        List::Nil => None,
        List::Cons(statement, rest) => {
            if !rest.is_empty() {
                return last_statement_span(rest);
            }
            match statement_result(statement) {
                Some(span) => Some(span),
                None => Some(statement.span),
            }
        },
    }
}

/// Whether an expression ends in a block, so that it needs no semicolon to
/// end a statement.
pub open spec fn ends_in_block(expr: &ast::Expression) -> bool {
    match expr {
        ast::Expression::Block { .. }
        | ast::Expression::IfElse { .. }
        | ast::Expression::Match { .. }
        | ast::Expression::Loop { .. }
        | ast::Expression::Label { .. } => {
            true
        },
        _ => false,
    }
}

/// Whether an expression ends in a block, so that it needs no semicolon to
/// end a statement.
pub fn is_block_like(expr: &ast::Expression) -> (result: bool)
    ensures
        result == ends_in_block(expr),
{
    match expr {
        ast::Expression::Block { .. }
        | ast::Expression::IfElse { .. }
        | ast::Expression::Match { .. }
        | ast::Expression::Loop { .. }
        | ast::Expression::Label { .. } => {
            true
        },
        _ => false,
    }
}

/// The fields that have no mention.
pub open spec fn unmentioned_fields(
    fields: &List<StructField>,
    mentions: &List<Option<TextSpan>>,
) -> List<Spanned<Symbol>>
    decreases fields,
{
    match (fields, mentions) {
        (List::Cons(field, fields_rest), List::Cons(mention, mentions_rest)) => {
            let others = unmentioned_fields(fields_rest, mentions_rest);
            if mention.is_none() {
                cons(field.name, others)
            } else {
                others
            }
        },
        _ => List::Nil,
    }
}

/// The fields that have no mention.
pub fn missing_fields(
    fields: &List<StructField>,
    mentions: &List<Option<TextSpan>>,
) -> (result: List<Spanned<Symbol>>)
    ensures
        result == unmentioned_fields(fields, mentions),
    decreases fields,
{
    match (fields, mentions) {
        (List::Cons(field, fields_rest), List::Cons(mention, mentions_rest)) => {
            let others = missing_fields(fields_rest, mentions_rest);
            if mention.is_none() {
                cons(field.name, others)
            } else {
                others
            }
        },
        _ => List::Nil,
    }
}

/// Where a field was mentioned first.
pub open spec fn mention_at(mentions: &List<Option<TextSpan>>, index: usize) -> Option<TextSpan> {
    match mentions.get(index) {
        Some(mention) => *mention,
        None => None,
    }
}

/// Where a field was mentioned first.
pub fn first_mention(
    mentions: &List<Option<TextSpan>>,
    index: usize,
) -> (result: Option<TextSpan>)
    ensures
        result == mention_at(mentions, index),
{
    match mentions.get(index) {
        Some(mention) => *mention,
        None => None,
    }
}

/// The empty places for the values of a number of fields.
pub open spec fn empty_field_slots(count: usize) -> List<Option<Expression>>
    decreases count,
{
    if count == 0 {
        List::Nil
    } else {
        cons(None, empty_field_slots((count - 1) as usize))
    }
}

/// The empty places for the values of a number of fields.
pub fn empty_slots(count: usize) -> (result: List<Option<Expression>>)
    ensures
        result == empty_field_slots(count),
    decreases count,
{
    if count == 0 {
        List::Nil
    } else {
        cons(None, empty_slots(count - 1))
    }
}

/// The values of all fields, if each has one.
pub open spec fn filled_field_slots(slots: List<Option<Expression>>) -> Option<List<Expression>>
    decreases slots,
{
    match slots {
        List::Nil => Some(List::Nil),
        List::Cons(slot, rest) => {
            match (*slot, filled_field_slots(*rest)) {
                (Some(value), Some(others)) => Some(cons(value, others)),
                _ => None,
            }
        },
    }
}

/// The values of all fields, if each has one.
pub fn filled_slots(slots: List<Option<Expression>>) -> (result: Option<List<Expression>>)
    ensures
        result == filled_field_slots(slots),
    decreases slots,
{
    match slots {
        List::Nil => Some(List::Nil),
        List::Cons(slot, rest) => match (*slot, filled_slots(*rest)) {
            (Some(value), Some(others)) => Some(cons(value, others)),
            _ => None,
        },
    }
}

/// Whether one of the types is not left to inference.
pub open spec fn has_known(types: &List<TypeIndex>) -> bool
    decreases types,
{
    match types {
        List::Nil => false,
        List::Cons(head, rest) => **head != ty::INFER || has_known(rest),
    }
}

/// Whether one of the types is not left to inference.
pub fn any_known(types: &List<TypeIndex>) -> (result: bool)
    ensures
        result == has_known(types),
    decreases types,
{
    match types {
        List::Nil => false,
        List::Cons(head, rest) => **head != ty::INFER || any_known(rest),
    }
}

/// The types of expressions.
pub open spec fn types_of_expressions(expressions: &List<Expression>) -> List<TypeIndex>
    decreases expressions,
{
    match expressions {
        List::Nil => List::Nil,
        List::Cons(head, rest) => cons(head.ty, types_of_expressions(rest)),
    }
}

/// The types of expressions.
pub fn expression_types(expressions: &List<Expression>) -> (result: List<TypeIndex>)
    ensures
        result == types_of_expressions(expressions),
    decreases expressions,
{
    match expressions {
        List::Nil => List::Nil,
        List::Cons(head, rest) => cons(head.ty, expression_types(rest)),
    }
}

/// The element at a position of a list of types; the type to infer where
/// there is none.
pub open spec fn type_at_or_infer(types: &Option<List<TypeIndex>>, index: usize) -> TypeIndex {
    match types {
        Some(types) => {
            match types.get(index) {
                Some(element) => *element,
                None => ty::INFER,
            }
        },
        None => ty::INFER,
    }
}

/// The element at a position of a list of types; the type to infer where
/// there is none.
pub fn expected_element(types: &Option<List<TypeIndex>>, index: usize) -> (result: TypeIndex)
    ensures
        result == type_at_or_infer(types, index),
{
    match types {
        Some(types) => match types.get(index) {
            Some(element) => *element,
            None => ty::INFER,
        },
        None => ty::INFER,
    }
}

/// Whether an expression is a number literal.
pub open spec fn number_literal(expr: &Expression) -> bool {
    match &expr.kind {
        ExprKind::Int { .. } | ExprKind::Float { .. } => true,
        _ => false,
    }
}

/// Whether an expression is a number literal.
pub fn is_number_literal(expr: &Expression) -> (result: bool)
    ensures
        result == number_literal(expr),
{
    match &expr.kind {
        ExprKind::Int { .. } | ExprKind::Float { .. } => true,
        _ => false,
    }
}

/// The pattern of an enum's variant.
pub open spec fn pattern_of_variant(built: &Expression, scrutinee: TypeIndex) -> Option<Pattern> {
    match &built.kind {
        ExprKind::NamespaceAccess { namespace: _, member } => {
            match &member.kind {
                ExprKind::EnumVariant { enum_index, variant_index } => {
                    if built.ty == scrutinee {
                        Some(
                            Pattern::EnumVariant {
                                enum_index: *enum_index,
                                variant_index: *variant_index,
                            },
                        )
                    } else {
                        None
                    }
                },
                _ => None,
            }
        },
        _ => None,
    }
}

/// The pattern of an enum's variant.
pub fn variant_pattern(built: &Expression, scrutinee: TypeIndex) -> (result: Option<Pattern>)
    ensures
        result == pattern_of_variant(built, scrutinee),
{
    match &built.kind {
        ExprKind::NamespaceAccess { namespace: _, member } => match &member.kind {
            ExprKind::EnumVariant { enum_index, variant_index } => {
                if built.ty == scrutinee {
                    Some(
                        Pattern::EnumVariant {
                            enum_index: *enum_index,
                            variant_index: *variant_index,
                        },
                    )
                } else {
                    None
                }
            },
            _ => None,
        },
        _ => None,
    }
}

/// The pattern of a constant that has the type of the value.
pub open spec fn pattern_of_constant(
    value: Option<ConstValue>,
    scrutinee: TypeIndex,
) -> Option<Pattern> {
    match value {
        Some(ConstValue::Int(value)) => {
            if ty::is_integer(scrutinee) {
                Some(Pattern::Int(value))
            } else {
                None
            }
        },
        Some(ConstValue::Bool(value)) => {
            if scrutinee == ty::BOOL {
                Some(Pattern::Bool(value))
            } else {
                None
            }
        },
        Some(ConstValue::Char(value)) => {
            if scrutinee == ty::CHAR {
                Some(Pattern::Char(value))
            } else {
                None
            }
        },
        _ => None,
    }
}

/// The pattern of a constant that has the type of the value.
pub fn constant_pattern(
    value: Option<ConstValue>,
    scrutinee: TypeIndex,
) -> (result: Option<Pattern>)
    ensures
        result == pattern_of_constant(value, scrutinee),
{
    match value {
        Some(ConstValue::Int(value)) => if ty::is_integer(scrutinee) {
            Some(Pattern::Int(value))
        } else {
            None
        },
        Some(ConstValue::Bool(value)) => if scrutinee == ty::BOOL {
            Some(Pattern::Bool(value))
        } else {
            None
        },
        Some(ConstValue::Char(value)) => if scrutinee == ty::CHAR {
            Some(Pattern::Char(value))
        } else {
            None
        },
        _ => None,
    }
}

/// Whether a pattern is among others.
pub open spec fn lists_pattern(patterns: &List<Pattern>, pattern: Pattern) -> bool
    decreases patterns,
{
    match patterns {
        List::Nil => false,
        List::Cons(head, rest) => **head == pattern || lists_pattern(rest, pattern),
    }
}

/// Whether a pattern is among others.
pub fn contains_pattern(patterns: &List<Pattern>, pattern: Pattern) -> (result: bool)
    ensures
        result == lists_pattern(patterns, pattern),
    decreases patterns,
{
    match patterns {
        List::Nil => false,
        List::Cons(head, rest) => **head == pattern || contains_pattern(rest, pattern),
    }
}

/// The type of the first arm that is no number literal; the given one where
/// all are.
pub open spec fn first_typed(arms: &List<MatchArm>, otherwise: TypeIndex) -> TypeIndex
    decreases arms,
{
    match arms {
        List::Nil => otherwise,
        List::Cons(arm, rest) => {
            if ty::is_comptime_number(arm.body.ty) {
                first_typed(rest, otherwise)
            } else {
                arm.body.ty
            }
        },
    }
}

/// The type of the first arm that is no number literal; the given one where
/// all are.
pub fn first_typed_arm(arms: &List<MatchArm>, otherwise: TypeIndex) -> (result: TypeIndex)
    ensures
        result == first_typed(arms, otherwise),
    decreases arms,
{
    match arms {
        List::Nil => otherwise,
        List::Cons(arm, rest) => {
            if ty::is_comptime_number(arm.body.ty) {
                first_typed_arm(rest, otherwise)
            } else {
                arm.body.ty
            }
        },
    }
}

/// The type of the first arm.
pub open spec fn first_type(arms: &List<MatchArm>) -> TypeIndex {
    match arms {
        List::Nil => ty::ERROR,
        List::Cons(arm, _) => arm.body.ty,
    }
}

/// The type of the first arm.
pub fn first_arm_type(arms: &List<MatchArm>) -> (result: TypeIndex)
    ensures
        result == first_type(arms),
{
    match arms {
        List::Nil => ty::ERROR,
        List::Cons(arm, _) => arm.body.ty,
    }
}

/// Whether one of the arms has a pattern.
pub open spec fn arms_cover(arms: &List<MatchArm>, pattern: Pattern) -> bool
    decreases arms,
{
    match arms {
        List::Nil => false,
        List::Cons(arm, rest) => arm.pattern == pattern || arms_cover(rest, pattern),
    }
}

/// Whether one of the arms has a pattern.
pub fn covers(arms: &List<MatchArm>, pattern: Pattern) -> (result: bool)
    ensures
        result == arms_cover(arms, pattern),
    decreases arms,
{
    match arms {
        List::Nil => false,
        List::Cons(arm, rest) => arm.pattern == pattern || covers(rest, pattern),
    }
}

/// The variants from a position on that no arm covers.
pub open spec fn uncovered_variants(
    variants: &List<EnumVariant>,
    arms: &List<MatchArm>,
    enum_index: usize,
    index: usize,
) -> List<Spanned<Symbol>>
    decreases variants,
{
    match variants {
        List::Nil => List::Nil,
        List::Cons(variant, rest) => {
            let others = uncovered_variants(rest, arms, enum_index, next_index(index));
            if arms_cover(arms, Pattern::EnumVariant { enum_index, variant_index: index }) {
                others
            } else {
                cons(variant.name, others)
            }
        },
    }
}

/// The variants from a position on that no arm covers.
pub fn missing_variants(
    variants: &List<EnumVariant>,
    arms: &List<MatchArm>,
    enum_index: usize,
    index: usize,
) -> (result: List<Spanned<Symbol>>)
    ensures
        result == uncovered_variants(variants, arms, enum_index, index),
    decreases variants,
{
    match variants {
        List::Nil => List::Nil,
        List::Cons(variant, rest) => {
            let others = missing_variants(rest, arms, enum_index, next_index(index));
            if covers(arms, Pattern::EnumVariant { enum_index, variant_index: index }) {
                others
            } else {
                cons(variant.name, others)
            }
        },
    }
}

/// The function that a callee names directly.
pub open spec fn named_function(callee: &Expression) -> Option<DefId> {
    match &callee.kind {
        ExprKind::Function { id } => Some(*id),
        ExprKind::NamespaceAccess { namespace: _, member } => {
            match &member.kind {
                ExprKind::Function { id } => Some(*id),
                _ => None,
            }
        },
        _ => None,
    }
}

/// The function that a callee names directly.
pub fn direct_callee(callee: &Expression) -> (result: Option<DefId>)
    ensures
        result == named_function(callee),
{
    match &callee.kind {
        ExprKind::Function { id } => Some(*id),
        ExprKind::NamespaceAccess { namespace: _, member } => match &member.kind {
            ExprKind::Function { id } => Some(*id),
            _ => None,
        },
        _ => None,
    }
}

/// The expression that accesses a member of a namespace.
pub open spec fn namespace_access(
    namespace: Spanned<TypeIndex>,
    kind: ExprKind,
    ty: TypeIndex,
    member_span: TextSpan,
    span: TextSpan,
) -> Expression {
    Expression {
        kind: ExprKind::NamespaceAccess {
            namespace,
            member: Box::new(Expression { kind, ty, span: member_span }),
        },
        ty,
        span,
    }
}

/// The expression that accesses a member of a namespace.
pub fn namespace_expression(
    namespace: Spanned<TypeIndex>,
    kind: ExprKind,
    ty: TypeIndex,
    member_span: TextSpan,
    span: TextSpan,
) -> (result: Expression)
    ensures
        result == namespace_access(namespace, kind, ty, member_span, span),
{
    Expression {
        kind: ExprKind::NamespaceAccess {
            namespace,
            member: Box::new(Expression { kind, ty, span: member_span }),
        },
        ty,
        span,
    }
}

/// Whether a local was written to.
pub open spec fn was_written(accesses: &List<LocalAccess>) -> bool
    decreases accesses,
{
    match accesses {
        List::Nil => false,
        List::Cons(access, rest) => access.kind != AccessKind::Read || was_written(rest),
    }
}

/// Whether a local was written to.
pub fn is_written(accesses: &List<LocalAccess>) -> (result: bool)
    ensures
        result == was_written(accesses),
    decreases accesses,
{
    match accesses {
        List::Nil => false,
        List::Cons(access, rest) => access.kind != AccessKind::Read || is_written(rest),
    }
}

/// Whether a scope is that of a loop.
pub open spec fn loop_scope(ctx: &ExprContext, index: usize) -> bool {
    match ctx.stack.scopes.get(index) {
        Some(scope) => scope.kind == BlockKind::Loop,
        None => false,
    }
}

/// Whether a scope is that of a loop.
pub fn is_loop_scope(ctx: &ExprContext, index: usize) -> (result: bool)
    ensures
        result == loop_scope(ctx, index),
{
    match ctx.stack.scopes.get(index) {
        Some(scope) => scope.kind == BlockKind::Loop,
        None => false,
    }
}

/// The last name of a path.
pub open spec fn last_segment_name(path: &List<PathSegment>, name: Symbol) -> Symbol
    decreases path,
{
    match path {
        List::Nil => name,
        List::Cons(segment, rest) => last_segment_name(rest, segment.ident.inner),
    }
}

/// The last name of a path.
pub fn last_name(path: &List<PathSegment>, name: Symbol) -> (result: Symbol)
    ensures
        result == last_segment_name(path, name),
    decreases path,
{
    match path {
        List::Nil => name,
        List::Cons(segment, rest) => last_name(rest, segment.ident.inner),
    }
}

/// Whether type arguments are written after the last name of a path.
pub open spec fn last_segment_applied(path: &List<PathSegment>) -> bool
    decreases path,
{
    match path {
        List::Nil => false,
        List::Cons(segment, rest) => {
            if rest.is_empty() {
                !segment.type_args.is_empty()
            } else {
                last_segment_applied(rest)
            }
        },
    }
}

/// Whether type arguments are written after the last name of a path.
pub fn last_has_args(path: &List<PathSegment>) -> (result: bool)
    ensures
        result == last_segment_applied(path),
    decreases path,
{
    match path {
        List::Nil => false,
        List::Cons(segment, rest) => if rest.is_empty() {
            !segment.type_args.is_empty()
        } else {
            last_has_args(rest)
        },
    }
}

/// The values of all fields; none at all where one is missing.
pub open spec fn all_field_values(slots: List<Option<Expression>>) -> List<Expression> {
    match filled_field_slots(slots) {
        Some(values) => values,
        None => List::Nil,
    }
}

/// The values of all fields; none at all where one is missing.
pub fn field_values(slots: List<Option<Expression>>) -> (result: List<Expression>)
    ensures
        result == all_field_values(slots),
{
    match filled_slots(slots) {
        Some(values) => values,
        None => List::Nil,
    }
}

/// The value of a repeat count, which must be an integer literal.
pub open spec fn literal_count(count: &Expression) -> Option<i64> {
    match &count.kind {
        ExprKind::Int { value } => Some(*value),
        _ => None,
    }
}

/// The value of a repeat count, which must be an integer literal.
pub fn repeat_count(count: &Expression) -> (result: Option<i64>)
    ensures
        result == literal_count(count),
{
    match &count.kind {
        ExprKind::Int { value } => Some(*value),
        _ => None,
    }
}

/// The first type of a list.
pub open spec fn first_of_types(params: &List<TypeIndex>) -> Option<TypeIndex> {
    match params {
        List::Nil => None,
        List::Cons(first, _) => Some(**first),
    }
}

/// The first type of a list.
pub fn first_param(params: &List<TypeIndex>) -> (result: Option<TypeIndex>)
    ensures
        result == first_of_types(params),
{
    match params {
        List::Nil => None,
        List::Cons(first, _) => Some(**first),
    }
}

/// A list of types without its first.
pub open spec fn rest_of_types(params: &List<TypeIndex>) -> List<TypeIndex> {
    match params {
        List::Nil => List::Nil,
        List::Cons(_, rest) => **rest,
    }
}

/// A list of types without its first.
pub fn other_params(params: &List<TypeIndex>) -> (result: List<TypeIndex>)
    ensures
        result == rest_of_types(params),
{
    match params {
        List::Nil => List::Nil,
        List::Cons(_, rest) => rest.duplicate(),
    }
}

impl<'ast> State<'ast> {
    /// Reports the statements of a block after one that does not finish.
    #[verifier::opaque]
    pub open spec fn report_unreachable_statements(
        self,
        file_id: FileId,
        statements: &List<Statement>,
        built: usize,
    ) -> State<'ast> {
        match (span_of_statement(statements, built), span_of_last_statement(statements)) {
            (Some(first), Some(last)) => {
                self.report(
                    report_unreachable_code(
                        SourceSpan::new(file_id, resolve::span_between(first, last)),
                    ),
                )
            },
            _ => self,
        }
    }

    /// Reports a type that does not go where another is expected.
    pub open spec fn check_coercible(
        self,
        actual: TypeIndex,
        expected: TypeIndex,
        span: SourceSpan,
    ) -> (State<'ast>, bool) {
        let (s, fits) = self.coercible(actual, expected);
        let s = if !fits {
            s.report(report_type_mistmatch(expected, actual, span))
        } else {
            s
        };
        (s, fits)
    }

    /// The type that a value leaves a block with: what the block's values have
    /// settled before, otherwise what is expected of it, otherwise the value's
    /// own. `None` where the first value of a block is not of the expected type.
    #[verifier::opaque]
    pub open spec fn infer_block_type(
        self,
        inferred: TypeIndex,
        expected: TypeIndex,
        value: TypeIndex,
        span: SourceSpan,
    ) -> (State<'ast>, Option<TypeIndex>) {
        if ty::is_comptime_number(value) {
            let target: TypeIndex = ty::infer_or(inferred, expected);
            (self, Some(ty::infer_or(target, value)))
        } else {
            if inferred != ty::INFER {
                let (s, _fits) = self.check_coercible(value, inferred, span);
                (s, Some(inferred))
            } else {
                if expected != ty::INFER {
                    let (s, fits) = self.check_coercible(value, expected, span);
                    if !fits {
                        (s, None)
                    } else {
                        (s, Some(value))
                    }
                } else {
                    (self, Some(value))
                }
            }
        }
    }

    /// The type of a local that is defined with a value: the annotated one, or
    /// that of the value where there is no annotation. A number literal takes the
    /// annotated type.
    #[verifier::opaque]
    pub open spec fn resolve_local_type(
        self,
        ctx: ExprContext,
        pattern_span: TextSpan,
        value: Expression,
        expected: TypeIndex,
    ) -> (State<'ast>, ExprContext, (TypeIndex, Expression)) {
        let span = ctx.resolve_context.at(value.span);
        let value_ty: TypeIndex = value.ty;
        if expected == ty::INFER {
            if self.has_comptime_number(value_ty) || self.has_infer(value_ty) {
                let s = self.report(
                    report_type_annotation_required(ctx.resolve_context.at(pattern_span)),
                );
                (s, ctx, (ty::ERROR, value))
            } else {
                (self, ctx, (value_ty, value))
            }
        } else {
            if value_ty == ty::ERROR {
                (self, ctx, (expected, value))
            } else {
                if ty::is_comptime_number(value_ty) {
                    let (s, ctx, (value, fits)) = self.coerce_untyped_expr(ctx, value, expected);
                    if fits {
                        (s, ctx, (expected, value))
                    } else {
                        (s, ctx, (ty::ERROR, value))
                    }
                } else {
                    if self.has_infer(expected) {
                        if self.satisfies(value_ty, expected) {
                            (self, ctx, (value_ty, value))
                        } else {
                            let s = self.report(report_type_mistmatch(expected, value_ty, span));
                            (s, ctx, (expected, value))
                        }
                    } else {
                        let (s, _fits) = self.check_coercible(value_ty, expected, span);
                        (s, ctx, (expected, value))
                    }
                }
            }
        }
    }

    /// Whether and where a field is declared public.
    pub open spec fn field_visibility(self, struct_index: usize, index: usize) -> Option<TextSpan> {
        match state::seq_ref(self.structs, struct_index) {
            Some(item) => match item.fields.get(index) {
                Some(field) => field.pub_span,
                None => None,
            },
            None => None,
        }
    }

    /// Reports a field that is not accessible from where it is used.
    #[verifier::opaque]
    pub open spec fn check_field_access(
        self,
        context: ResolveContext,
        struct_index: usize,
        index: usize,
        span: TextSpan,
    ) -> State<'ast> {
        match state::seq_ref(self.structs, struct_index) {
            Some(item) => match item.fields.get(index) {
                Some(field) => if self.is_accessible_from(
                    context.namespace,
                    item.namespace,
                    self.field_visibility(struct_index, index),
                ) {
                    self
                } else {
                    self.report(
                        report_private_field(
                            item.name.inner,
                            field.name.inner,
                            context.at(span),
                            SourceSpan::new(item.file_id, field.name.span),
                        ),
                    )
                },
                None => self,
            },
            None => self,
        }
    }

    /// The field of a struct of that name, with its use recorded. A field that
    /// is not accessible is reported, and is found all the same.
    #[verifier::opaque]
    pub open spec fn resolve_struct_field(
        self,
        context: ResolveContext,
        struct_index: usize,
        args: &List<TypeIndex>,
        name: Spanned<Symbol>,
        kind: FieldAccessKind,
    ) -> (State<'ast>, Option<ResolvedField>) {
        match self.declared_field(struct_index, name.inner) {
            Some((index, raw_ty)) => {
                let target = match kind {
                    FieldAccessKind::Read => AccessTarget::FieldRead(struct_index, index),
                    FieldAccessKind::Init => AccessTarget::FieldInit(struct_index, index),
                };
                let s = self.access(target, context.at(name.span));
                let s = s.check_field_access(context, struct_index, index, name.span);
                if args.is_empty() {
                    (s, Some(ResolvedField { index, ty: raw_ty }))
                } else {
                    let (s, ty) = s.substituted(raw_ty, *args, MAX_DEPTH);
                    (s, Some(ResolvedField { index, ty }))
                }
            },
            None => (self, None),
        }
    }

    /// The position and the declared type of the field of that name.
    pub open spec fn declared_field(
        self,
        struct_index: usize,
        name: Symbol,
    ) -> Option<(usize, TypeIndex)> {
        match state::seq_ref(self.structs, struct_index) {
            Some(item) => {
                match lookup::field_position(&item.fields, name, 0) {
                    Some(index) => {
                        match item.fields.get(index) {
                            Some(field) => {
                                Some((index, field.ty.inner))
                            },
                            None => None,
                        }
                    },
                    None => None,
                }
            },
            None => None,
        }
    }

    /// The name and the number of fields of a struct.
    pub open spec fn struct_shape(self, struct_index: usize) -> (Symbol, usize, usize) {
        match state::seq_ref(self.structs, struct_index) {
            Some(item) => (item.name.inner, item.fields.len(), item.type_params.len()),
            None => (0, 0, 0),
        }
    }

    /// The fields of a struct that have no mention.
    pub open spec fn missing_struct_fields(
        self,
        struct_index: usize,
        mentions: &List<Option<TextSpan>>,
    ) -> List<Spanned<Symbol>> {
        match state::seq_ref(self.structs, struct_index) {
            Some(item) => unmentioned_fields(&item.fields, mentions),
            None => List::Nil,
        }
    }

    /// The type arguments that a struct literal has: those of its path, where
    /// that tells any, otherwise those of the expected type.
    pub open spec fn struct_init_args(
        self,
        struct_ty: TypeIndex,
        explicit: bool,
        params: usize,
        struct_index: usize,
        expected: TypeIndex,
    ) -> List<TypeIndex> {
        let own = match self.ty(struct_ty) {
            Type::Struct { struct_index: _, args } => args,
            _ => List::Nil,
        };
        if explicit {
            own
        } else {
            if params == 0 {
                List::Nil
            } else {
                if own.len() == params && has_known(&own) {
                    own
                } else {
                    match self.ty(expected) {
                        Type::Struct { struct_index: other, args } => {
                            if other == struct_index && args.len() == params {
                                args
                            } else {
                                List::Nil
                            }
                        },
                        _ => List::Nil,
                    }
                }
            }
        }
    }

    /// A number literal with the type that is expected of it; any other value as
    /// it is. `None` where the literal does not fit that type.
    #[verifier::opaque]
    pub open spec fn settle_literal(
        self,
        ctx: ExprContext,
        value: Expression,
        expected: TypeIndex,
    ) -> (State<'ast>, ExprContext, Option<Expression>) {
        if !ty::is_comptime_number(value.ty) {
            (self, ctx, Some(value))
        } else {
            let (s, ctx, (settled_value, fits)) = self.coerce_untyped_expr(ctx, value, expected);
            if fits {
                (s, ctx, Some(settled_value))
            } else {
                (s, ctx, None)
            }
        }
    }

    /// An element of an array literal: a number literal of a number type. What is
    /// wrong is reported; the result is `None` then.
    #[verifier::opaque]
    pub open spec fn check_array_element(
        self,
        ctx: ExprContext,
        element: Expression,
        expected: TypeIndex,
    ) -> (State<'ast>, ExprContext, Option<Expression>) {
        let span = ctx.resolve_context.at(element.span);
        if ty::is_comptime_number(element.ty) && expected == ty::INFER {
            let s = self.report(report_type_annotation_required(span));
            (s, ctx, None)
        } else {
            let (s, ctx, element) = self.settle_literal(ctx, element, expected);
            match element {
                Some(element) => {
                    if !ty::is_numeric(element.ty) {
                        let s = s.report(report_array_element_not_numeric(span));
                        (s, ctx, None)
                    } else {
                        if !number_literal(&element) {
                            let s = s.report(report_array_element_not_const(span));
                            (s, ctx, None)
                        } else {
                            (s, ctx, Some(element))
                        }
                    }
                },
                None => (s, ctx, None),
            }
        }
    }

    /// Whether all elements have one type; the first that has another is
    /// reported.
    pub open spec fn check_same_type(
        self,
        file_id: FileId,
        elements: &List<Expression>,
        expected: TypeIndex,
    ) -> (State<'ast>, bool)
        decreases elements,
    {
        match elements {
            List::Nil => (self, true),
            List::Cons(element, rest) => {
                if element.ty != expected {
                    let s = self.report(
                        report_type_mistmatch(
                            expected,
                            element.ty,
                            SourceSpan::new(file_id, element.span),
                        ),
                    );
                    (s, false)
                } else {
                    self.check_same_type(file_id, rest, expected)
                }
            },
        }
    }

    /// The element type, the memory and the right to write of what is indexed.
    /// What cannot be indexed is reported, unless it was reported before.
    #[verifier::opaque]
    pub open spec fn resolve_indexable(
        self,
        object: TypeIndex,
        span: SourceSpan,
    ) -> (State<'ast>, Option<(TypeIndex, TypeIndex, bool)>) {
        match self.ty(object) {
            Type::Array { of, size: _, memory, mutable } => (self, Some((of, memory, mutable))),
            Type::Slice { of, memory, mutable } => (self, Some((of, memory, mutable))),
            Type::Error => (self, None),
            _ => {
                let s = self.report(report_index_on_non_indexable(object, span));
                (s, None)
            },
        }
    }

    /// Reports a write through something that gives no right to write.
    pub open spec fn check_writable(
        self,
        access_kind: AccessKind,
        mutable: bool,
        span: SourceSpan,
    ) -> State<'ast> {
        if access_kind != AccessKind::Read && !mutable {
            self.report(report_cannot_store_through_immutable_pointer(span))
        } else {
            self
        }
    }

    /// Whether a type can be matched on: an enum, an integer type, `bool` or
    /// `char`.
    pub open spec fn is_matchable(self, index: TypeIndex) -> bool {
        match self.ty(index) {
            Type::Enum { .. } => true,
            _ => index == ty::BOOL || index == ty::CHAR || ty::is_integer(index),
        }
    }

    /// The pattern that an expression on the left of an arm is, for a value of
    /// the given type. What is no pattern is reported.
    #[verifier::opaque]
    pub open spec fn pattern_of_expression(
        self,
        ctx: ExprContext,
        built: Expression,
        scrutinee: TypeIndex,
        span: TextSpan,
    ) -> (State<'ast>, ExprContext, Option<Pattern>) {
        let is_enum = match self.ty(scrutinee) {
            Type::Enum { .. } => true,
            _ => false,
        };
        if is_enum {
            let pattern = pattern_of_variant(&built, scrutinee);
            let s = if pattern.is_none() {
                self.report(report_invalid_pattern(ctx.resolve_context.at(span)))
            } else {
                self
            };
            (s, ctx, pattern)
        } else {
            let (s, ctx, built) = self.settle_literal(ctx, built, scrutinee);
            match built {
                Some(built) => {
                    let pattern = pattern_of_constant(s.eval_const_expr(&built), scrutinee);
                    let s = if pattern.is_none() {
                        s.report(report_invalid_pattern(ctx.resolve_context.at(span)))
                    } else {
                        s
                    };
                    (s, ctx, pattern)
                },
                None => (s, ctx, None),
            }
        }
    }

    /// Reports each arm that no value reaches: one after a wildcard, or one whose
    /// pattern an earlier arm has.
    pub open spec fn report_unreachable_arms(
        self,
        file_id: FileId,
        arms: &List<MatchArm>,
        seen: &List<Pattern>,
    ) -> State<'ast>
        decreases arms,
    {
        match arms {
            List::Nil => self,
            List::Cons(arm, rest) => {
                let s = if lists_pattern(seen, Pattern::Wildcard) || lists_pattern(seen, arm.pattern) {
                    self.report(
                        report_unreachable_match_arm(SourceSpan::new(file_id, arm.pattern_span)),
                    )
                } else {
                    self
                };
                s.report_unreachable_arms(file_id, rest, &cons(arm.pattern, *seen))
            },
        }
    }

    /// The value of an arm: a number literal takes the type of the other arms.
    pub open spec fn settle_arm(
        self,
        ctx: ExprContext,
        body: Expression,
        target: TypeIndex,
    ) -> (State<'ast>, ExprContext, Option<Expression>) {
        if ty::is_comptime_number(target) {
            (self, ctx, Some(body))
        } else {
            self.settle_literal(ctx, body, target)
        }
    }

    /// Brings the arms of a match to one type: number literals take the target's,
    /// and the others must agree.
    pub open spec fn unify_arms(
        self,
        ctx: ExprContext,
        arms: List<MatchArm>,
        target: TypeIndex,
        so_far: TypeIndex,
    ) -> (State<'ast>, ExprContext, Option<(List<MatchArm>, TypeIndex)>)
        decreases arms,
    {
        match arms {
            List::Nil => (self, ctx, Some((List::Nil, so_far))),
            List::Cons(arm, rest) => {
                let arm = *arm;
                let pattern = arm.pattern;
                let pattern_span = arm.pattern_span;
                let (s, ctx, body) = self.settle_arm(ctx, arm.body, target);
                match body {
                    Some(body) => {
                        let (s, unified) = s.unified(so_far, body.ty);
                        match unified {
                            Some(agreed) => {
                                let (s, ctx, others) = s.unify_arms(ctx, *rest, target, agreed);
                                match others {
                                    Some((others, ty)) => {
                                        (
                                            s,
                                            ctx,
                                            Some(
                                                (
                                                    cons(
                                                        MatchArm { pattern, pattern_span, body },
                                                        others,
                                                    ),
                                                    ty,
                                                ),
                                            ),
                                        )
                                    },
                                    None => (s, ctx, None),
                                }
                            },
                            None => {
                                let s = s.report(
                                    report_type_mistmatch(
                                        so_far,
                                        body.ty,
                                        ctx.resolve_context.at(body.span),
                                    ),
                                );
                                (s, ctx, None)
                            },
                        }
                    },
                    None => (s, ctx, None),
                }
            },
        }
    }

    /// Whether the arms of a match cover every value: with a wildcard, or with
    /// every variant of the enum. Where they do not, that is reported.
    #[verifier::opaque]
    pub open spec fn check_match_exhaustiveness(
        self,
        file_id: FileId,
        scrutinee: TypeIndex,
        arms: &List<MatchArm>,
        match_span: TextSpan,
    ) -> (State<'ast>, bool) {
        if arms_cover(arms, Pattern::Wildcard) {
            (self, true)
        } else {
            match self.ty(scrutinee) {
                Type::Enum { enum_index } => {
                    let missing = match state::seq_ref(self.enums, enum_index) {
                        Some(item) => uncovered_variants(&item.variants, arms, enum_index, 0),
                        None => List::Nil,
                    };
                    if missing.is_empty() {
                        (self, true)
                    } else {
                        let s = self.report(
                            reports::non_exhaustive_match(
                                missing,
                                SourceSpan::new(file_id, match_span),
                            ),
                        );
                        (s, false)
                    }
                },
                _ => {
                    let s = self.report(
                        report_non_exhaustive_match_no_wildcard(
                            SourceSpan::new(file_id, match_span),
                        ),
                    );
                    (s, false)
                },
            }
        }
    }

    /// The parameters and the result of what is called, if it is a function.
    pub open spec fn callee_signature(self, callee: TypeIndex) -> Option<FunctionSignature> {
        match self.ty(callee) {
            Type::Function { signature } => Some(signature),
            Type::FunctionItem { id, type_args: _ } => {
                match self.ty(self.signature_of(id)) {
                    Type::Function { signature } => Some(signature),
                    _ => None,
                }
            },
            _ => None,
        }
    }

    /// The generic function that a callee names directly: its index, its id, and
    /// the arguments for its type parameters as far as they are written.
    pub open spec fn generic_callee(
        self,
        callee: &Expression,
    ) -> Option<(usize, DefId, List<TypeIndex>)> {
        match named_function(callee) {
            Some(id) => {
                match self.function_index(id) {
                    Some(func_index) => {
                        let total = match state::seq_ref(self.functions, func_index) {
                            Some(function) => members::total_params(function),
                            None => 0,
                        };
                        if total == 0 {
                            None
                        } else {
                            match self.ty(callee.ty) {
                                Type::FunctionItem { id: _, type_args } => {
                                    Some((func_index, id, type_args))
                                },
                                _ => Some((func_index, id, List::repeat(ty::INFER, total))),
                            }
                        }
                    },
                    None => None,
                }
            },
            None => None,
        }
    }

    /// The number of the function's own type parameters, and of the inherited
    /// ones before them.
    pub open spec fn own_type_params(self, func_index: usize) -> (usize, usize) {
        match state::seq_ref(self.functions, func_index) {
            Some(function) => (function.type_params.len(), function.inherited_type_param_count),
            None => (0, 0),
        }
    }

    /// The expression that a constant, global or variant of a namespace is, with
    /// its use recorded.
    #[verifier::opaque]
    pub open spec fn build_member_value(
        self,
        context: ResolveContext,
        namespace: Spanned<TypeIndex>,
        member: ResolvedMember,
        member_span: TextSpan,
        span: TextSpan,
    ) -> (State<'ast>, Option<Expression>) {
        match member {
            ResolvedMember::Const { const_index } => {
                let s = self.access(AccessTarget::Const(const_index), context.at(member_span));
                match state::seq_ref(s.constants, const_index) {
                    Some(constant) => {
                        (
                            s,
                            Some(
                                namespace_access(
                                    namespace,
                                    ExprKind::Const { id: constant.id },
                                    constant.ty.inner,
                                    member_span,
                                    span,
                                ),
                            ),
                        )
                    },
                    None => (s, None),
                }
            },
            ResolvedMember::Global { global_index } => {
                let s = self.access(AccessTarget::Global(global_index), context.at(member_span));
                match state::seq_ref(s.globals, global_index) {
                    Some(global) => {
                        (
                            s,
                            Some(
                                namespace_access(
                                    namespace,
                                    ExprKind::Global { id: global.id },
                                    global.ty.inner,
                                    member_span,
                                    span,
                                ),
                            ),
                        )
                    },
                    None => (s, None),
                }
            },
            ResolvedMember::EnumVariant { enum_index, variant_index } => {
                let s = self.access(
                    AccessTarget::EnumVariant(enum_index, variant_index),
                    context.at(member_span),
                );
                (
                    s,
                    Some(
                        namespace_access(
                            namespace,
                            ExprKind::EnumVariant { enum_index, variant_index },
                            namespace.inner,
                            member_span,
                            span,
                        ),
                    ),
                )
            },
            ResolvedMember::Function { .. } => (self, None),
        }
    }

    /// The expression that reads a member of an object: a field of a struct. A
    /// field of something in memory is itself a place in memory. A member that is
    /// no field is reported.
    #[verifier::opaque]
    pub open spec fn finish_object_access(
        self,
        context: ResolveContext,
        object: Expression,
        member: Spanned<Symbol>,
        span: TextSpan,
    ) -> (State<'ast>, Option<Expression>) {
        let object_ty: TypeIndex = object.ty;
        let (s, field) = match self.ty(object_ty) {
            Type::Struct { struct_index, args } => {
                self.resolve_struct_field(
                    context,
                    struct_index,
                    &args,
                    member,
                    FieldAccessKind::Read,
                )
            },
            _ => (self, None),
        };
        match field {
            Some(field) => (s, Some(field_expression(object, field, span))),
            None => {
                let (s, lookup) = s.resolve_impl_member(
                    context,
                    object_ty,
                    member.inner,
                    member.span,
                );
                match lookup {
                    MemberLookup::Inherent { .. } | MemberLookup::Trait { .. } => {
                        let s = s.report(
                            report_not_a_field(member.inner, object_ty, context.at(member.span)),
                        );
                        (s, None)
                    },
                    MemberLookup::NotFound => {
                        let s = s.report(report_undeclared_identifier(context.at(member.span)));
                        (s, None)
                    },
                    MemberLookup::Ambiguous => (s, None),
                }
            },
        }
    }

    /// Reports the locals that are never used and those that are mutable for
    /// nothing. The receiver `self`, names that start with `_` and poisoned
    /// locals may be unused.
    pub open spec fn report_unused_locals(
        self,
        file_id: FileId,
        locals: &List<Local>,
    ) -> State<'ast>
        decreases locals,
    {
        match locals {
            List::Nil => self,
            List::Cons(local, rest) => {
                let s = if local.accesses.is_empty()
                    && local.ty != ty::ERROR
                    && !interner::is_underscored(self.texts, local.name.inner)
                    && local.name.inner != self.names.self_value {
                    self.report(
                        report_unused_variable(SourceSpan::new(file_id, local.name.span)),
                    )
                } else {
                    self
                };
                let s = match local.mut_span {
                    Some(mut_span) => {
                        if !was_written(&local.accesses) {
                            s.report(
                                report_unnecessary_mutability(SourceSpan::new(file_id, mut_span)),
                            )
                        } else {
                            s
                        }
                    },
                    None => s,
                };
                s.report_unused_locals(file_id, rest)
            },
        }
    }

    /// Reports the unused locals of each scope.
    pub open spec fn report_scope_warnings(
        self,
        file_id: FileId,
        scopes: &List<BlockScope>,
    ) -> State<'ast>
        decreases scopes,
    {
        match scopes {
            List::Nil => self,
            List::Cons(scope, rest) => {
                let s = self.report_unused_locals(file_id, &scope.locals);
                s.report_scope_warnings(file_id, rest)
            },
        }
    }

    /// Reports each label that is never used.
    pub open spec fn report_unused_labels(
        self,
        file_id: FileId,
        labels: &List<LabelInfo>,
    ) -> State<'ast>
        decreases labels,
    {
        match labels {
            List::Nil => self,
            List::Cons(label, rest) => {
                let s = if label.accesses.is_empty() {
                    self.report(
                        report_unused_label(SourceSpan::new(file_id, label.name.span)),
                    )
                } else {
                    self
                };
                s.report_unused_labels(file_id, rest)
            },
        }
    }

    /// Reports the labels and locals of a body that are there for nothing.
    pub open spec fn report_stack_warnings(
        self,
        file_id: FileId,
        stack: &StackFrame,
    ) -> State<'ast> {
        let s = self.report_unused_labels(file_id, &stack.labels);
        s.report_scope_warnings(file_id, &stack.scopes)
    }

    /// The type of a block: what was inferred for it, if that goes where a type
    /// is expected.
    pub open spec fn checked_block_type(
        self,
        inferred: TypeIndex,
        expected: TypeIndex,
        span: SourceSpan,
    ) -> (State<'ast>, TypeIndex) {
        if expected == ty::INFER {
            (self, inferred)
        } else {
            let (s, fits) = self.check_coercible(inferred, expected, span);
            if fits {
                (s, inferred)
            } else {
                (s, ty::ERROR)
            }
        }
    }

    /// The value of a block, with the type that the block has then. A block
    /// without a value is a `()`, unless a jump settled its type before.
    #[verifier::opaque]
    pub open spec fn finish_block_result(
        self,
        ctx: ExprContext,
        value: Option<Expression>,
    ) -> (State<'ast>, ExprContext, Option<Option<Expression>>) {
        let index: usize = ctx.scope_index;
        match value {
            Some(value) => {
                let (s, inferred) = self.infer_block_type(
                    ctx.inferred(index),
                    ctx.expected(index),
                    value.ty,
                    ctx.resolve_context.at(value.span),
                );
                match inferred {
                    Some(inferred) => {
                        let ctx = ctx.with_inferred(index, inferred);
                        if ty::is_comptime_number(value.ty)
                            && !ty::is_comptime_number(inferred) {
                            let (s, ctx, (value, _)) = s.coerce_untyped_expr(
                                ctx,
                                value,
                                inferred,
                            );
                            (s, ctx, Some(Some(value)))
                        } else {
                            (s, ctx, Some(Some(value)))
                        }
                    },
                    None => (s, ctx, None),
                }
            },
            None => {
                let inferred: TypeIndex = ty::infer_or(ctx.inferred(index), ty::UNIT);
                let ctx = ctx.with_inferred(index, inferred);
                (self, ctx, Some(None))
            },
        }
    }

    /// The expression of a statement. A value that nothing uses is reported, and
    /// one that never comes leaves the block.
    #[verifier::opaque]
    pub open spec fn finish_expression_statement(
        self,
        ctx: ExprContext,
        value: Expression,
    ) -> (State<'ast>, ExprContext, Option<Expression>) {
        let index: usize = ctx.scope_index;
        if value.ty == ty::UNIT || value.ty == ty::ERROR {
            (self, ctx, Some(value))
        } else {
            if value.ty == ty::NEVER {
                let ctx = if ctx.inferred(index) == ty::INFER {
                    ctx.with_inferred(index, ty::NEVER)
                } else {
                    ctx
                };
                (self, ctx, Some(value))
            } else {
                if ty::is_comptime_number(value.ty) {
                    let s = self.report(
                        report_type_annotation_required(ctx.resolve_context.at(value.span)),
                    );
                    (s, ctx, None)
                } else {
                    let s = self.report(report_unused_value(ctx.resolve_context.at(value.span)));
                    (s, ctx, Some(value))
                }
            }
        }
    }

    /// The type and the value of a local that is being defined. One whose value
    /// failed keeps the annotated type.
    pub open spec fn settle_local(
        self,
        ctx: ExprContext,
        pattern_span: TextSpan,
        value_span: TextSpan,
        built: Option<Expression>,
        expected: TypeIndex,
    ) -> (State<'ast>, ExprContext, (TypeIndex, Expression)) {
        match built {
            Some(value) => self.resolve_local_type(ctx, pattern_span, value, expected),
            None => (self, ctx, (ty::infer_or(expected, ty::ERROR), poisoned(value_span))),
        }
    }

    /// The loop, with the type of the values that it is left with; one that is
    /// never left has no value.
    #[verifier::opaque]
    pub open spec fn finish_loop(
        self,
        ctx: ExprContext,
        block: Expression,
        span: TextSpan,
    ) -> (State<'ast>, ExprContext, Option<Expression>) {
        let index: usize = ctx.scope_index;
        let inferred: TypeIndex = ctx.inferred(index);
        let expected: TypeIndex = ctx.expected(index);
        if expected != ty::INFER && inferred != ty::INFER {
            let (s, fits) = self.check_coercible(
                inferred,
                expected,
                ctx.resolve_context.at(span),
            );
            if !fits {
                (s, ctx, None)
            } else {
                (
                    s,
                    ctx,
                    Some(
                        typed(
                            ExprKind::Loop { scope_index: index, block: Box::new(block) },
                            ty::infer_or(inferred, ty::NEVER),
                            span,
                        ),
                    ),
                )
            }
        } else {
            (
                self,
                ctx,
                Some(
                    typed(
                        ExprKind::Loop { scope_index: index, block: Box::new(block) },
                        ty::infer_or(inferred, ty::NEVER),
                        span,
                    ),
                ),
            )
        }
    }

    /// The scope that a `break` or `continue` jumps to: the labelled one, or the
    /// closest loop. Where there is none, that is reported.
    #[verifier::opaque]
    pub open spec fn jump_target(
        self,
        ctx: ExprContext,
        label: Option<Spanned<Symbol>>,
        span: TextSpan,
        leaves: bool,
    ) -> (State<'ast>, ExprContext, Option<usize>) {
        match label {
            Some(label) => {
                match ctx.label_named(label.inner) {
                    Some((scope_index, label_index)) => {
                        let ctx = ctx.with_label_access(label_index, label.span);
                        (self, ctx, Some(scope_index))
                    },
                    None => {
                        let s = self.report(
                            report_undeclared_label(
                                label.inner,
                                ctx.resolve_context.at(label.span),
                            ),
                        );
                        (s, ctx, None)
                    },
                }
            },
            None => {
                match ctx.closest_loop() {
                    Some(scope_index) => (self, ctx, Some(scope_index)),
                    None => {
                        let s = if leaves {
                            self.report(
                                report_break_outside_of_loop(ctx.resolve_context.at(span)),
                            )
                        } else {
                            self.report(
                                report_continue_outside_of_loop(ctx.resolve_context.at(span)),
                            )
                        };
                        (s, ctx, None)
                    },
                }
            },
        }
    }

    /// `continue`, to the labelled loop or the closest one.
    #[verifier::opaque]
    pub open spec fn build_continue_expression(
        self,
        ctx: ExprContext,
        label: Option<Spanned<Symbol>>,
        span: TextSpan,
    ) -> (State<'ast>, ExprContext, Expression) {
        let (s, ctx, target) = self.jump_target(ctx, label, span, false);
        match target {
            Some(scope_index) => {
                (s, ctx, typed(ExprKind::Continue { scope_index }, ty::NEVER, span))
            },
            None => (s, ctx, poisoned_as(ty::NEVER, span)),
        }
    }

    /// The value that a scope is left with, with the type that the scope's values
    /// have. A number literal needs a type from somewhere.
    #[verifier::opaque]
    pub open spec fn settle_jump_value(
        self,
        ctx: ExprContext,
        scope_index: usize,
        value: Expression,
    ) -> (State<'ast>, ExprContext, Option<Expression>) {
        let span = ctx.resolve_context.at(value.span);
        let (s, inferred) = self.infer_block_type(
            ctx.inferred(scope_index),
            ctx.expected(scope_index),
            value.ty,
            span,
        );
        match inferred {
            Some(inferred) => {
                let ctx = ctx.with_inferred(scope_index, inferred);
                if ty::is_comptime_number(value.ty) && ty::is_comptime_number(inferred) {
                    let s = s.report(report_type_annotation_required(span));
                    (s, ctx, None)
                } else {
                    s.settle_literal(ctx, value, inferred)
                }
            },
            None => (s, ctx, None),
        }
    }

    /// `break` without a value.
    #[verifier::opaque]
    pub open spec fn finish_plain_break(
        self,
        ctx: ExprContext,
        scope_index: usize,
        span: TextSpan,
    ) -> (State<'ast>, ExprContext, Expression) {
        let inferred: TypeIndex = ctx.inferred(scope_index);
        let (s, ctx) = if inferred != ty::INFER {
            let (s, _fits) = self.check_coercible(
                ty::UNIT,
                inferred,
                ctx.resolve_context.at(span),
            );
            (s, ctx)
        } else {
            let ctx = ctx.with_inferred(scope_index, ty::UNIT);
            (self, ctx)
        };
        (s, ctx, typed(ExprKind::Break { scope_index, value: None }, ty::NEVER, span))
    }

    /// `return` with a value: one of the function's type.
    #[verifier::opaque]
    pub open spec fn finish_return(
        self,
        ctx: ExprContext,
        value: Expression,
        span: TextSpan,
    ) -> (State<'ast>, ExprContext, Option<Expression>) {
        let (s, ctx, value) = self.settle_jump_value(ctx, 0, value);
        match value {
            Some(value) => {
                let expected: TypeIndex = ctx.expected(0);
                if expected != ty::INFER {
                    let (s, fits) = s.check_coercible(
                        ctx.inferred(0),
                        expected,
                        ctx.resolve_context.at(value.span),
                    );
                    if !fits {
                        (s, ctx, None)
                    } else {
                        (
                            s,
                            ctx,
                            Some(
                                typed(
                                    ExprKind::Return { value: Some(Box::new(value)) },
                                    ty::NEVER,
                                    span,
                                ),
                            ),
                        )
                    }
                } else {
                    (
                        s,
                        ctx,
                        Some(
                            typed(
                                ExprKind::Return { value: Some(Box::new(value)) },
                                ty::NEVER,
                                span,
                            ),
                        ),
                    )
                }
            },
            None => (s, ctx, None),
        }
    }

    /// `return` without a value. It settles the type of the scope that it stands
    /// in; in a scope of which that type is expected it is reported.
    #[verifier::opaque]
    pub open spec fn finish_plain_return(
        self,
        ctx: ExprContext,
        span: TextSpan,
    ) -> (State<'ast>, ExprContext, Option<Expression>) {
        let index: usize = ctx.scope_index;
        let inferred: TypeIndex = ty::infer_or(ctx.inferred(index), ty::UNIT);
        let ctx = ctx.with_inferred(index, inferred);
        let expected: TypeIndex = ctx.expected(index);
        if expected != ty::INFER {
            let (s, fits) = self.coercible(inferred, expected);
            if fits {
                let s = s.report(
                    report_type_mistmatch(expected, inferred, ctx.resolve_context.at(span)),
                );
                (s, ctx, None)
            } else {
                (s, ctx, Some(typed(ExprKind::Return { value: None }, ty::NEVER, span)))
            }
        } else {
            (self, ctx, Some(typed(ExprKind::Return { value: None }, ty::NEVER, span)))
        }
    }

    /// An `if` without `else`: a `()`, whose block has no value either.
    #[verifier::opaque]
    pub open spec fn finish_if(
        self,
        context: ResolveContext,
        condition: Expression,
        then_block: Expression,
        span: TextSpan,
    ) -> (State<'ast>, Option<Expression>) {
        if then_block.ty == ty::UNIT || then_block.ty == ty::NEVER {
            (self, Some(if_expression(condition, then_block, None, ty::UNIT, span)))
        } else {
            let s = self.report(
                report_missing_else_block(then_block.ty, context.at(then_block.span)),
            );
            (s, None)
        }
    }

    /// An `if` with `else`: its two blocks have one type. A number literal takes
    /// the type of the other block.
    #[verifier::opaque]
    pub open spec fn finish_if_else(
        self,
        ctx: ExprContext,
        condition: Expression,
        then_block: Expression,
        else_block: Expression,
        span: TextSpan,
    ) -> (State<'ast>, ExprContext, Option<Expression>) {
        let then_ty: TypeIndex = then_block.ty;
        let else_ty: TypeIndex = else_block.ty;
        let (s, ctx, then_block) = self.settle_arm(ctx, then_block, else_ty);
        match then_block {
            Some(then_block) => {
                let (s, ctx, else_block) = s.settle_arm(ctx, else_block, then_ty);
                match else_block {
                    Some(else_block) => {
                        let (s, unified) = s.unified(then_block.ty, else_block.ty);
                        match unified {
                            Some(ty) => {
                                (
                                    s,
                                    ctx,
                                    Some(
                                        if_expression(
                                            condition,
                                            then_block,
                                            Some(else_block),
                                            ty,
                                            span,
                                        ),
                                    ),
                                )
                            },
                            None => {
                                let s = s.report(
                                    report_type_mistmatch(
                                        then_block.ty,
                                        else_block.ty,
                                        ctx.resolve_context.at(else_block.span),
                                    ),
                                );
                                (s, ctx, None)
                            },
                        }
                    },
                    None => (s, ctx, None),
                }
            },
            None => (s, ctx, None),
        }
    }

    /// The match, once its arms are built: they have one type and cover every
    /// value.
    #[verifier::opaque]
    pub open spec fn finish_match(
        self,
        ctx: ExprContext,
        scrutinee: Expression,
        arms: List<MatchArm>,
        span: TextSpan,
    ) -> (State<'ast>, ExprContext, Option<Expression>) {
        let file_id: FileId = ctx.resolve_context.file_id;
        let s = self.report_unreachable_arms(file_id, &arms, &List::Nil);
        let target: TypeIndex = first_typed(&arms, first_type(&arms));
        let (s, ctx, found) = s.unify_arms(ctx, arms, target, target);
        match found {
            Some((arms, ty)) => {
                let (s, exhaustive) = s.check_match_exhaustiveness(
                    file_id,
                    scrutinee.ty,
                    &arms,
                    span,
                );
                if !exhaustive {
                    (s, ctx, None)
                } else {
                    (
                        s,
                        ctx,
                        Some(
                            typed(
                                ExprKind::Match { scrutinee: Box::new(scrutinee), arms },
                                ty,
                                span,
                            ),
                        ),
                    )
                }
            },
            None => (s, ctx, None),
        }
    }

    /// The struct that a type is, with its type arguments.
    pub open spec fn struct_type(self, index: TypeIndex) -> Option<(usize, List<TypeIndex>)> {
        match self.ty(index) {
            Type::Struct { struct_index, args } => Some((struct_index, args)),
            _ => None,
        }
    }

    /// A field's value, if it goes into the field.
    #[verifier::opaque]
    pub open spec fn fit_field_value(
        self,
        ctx: ExprContext,
        value: Expression,
        expected: TypeIndex,
    ) -> (State<'ast>, ExprContext, Option<Expression>) {
        if ty::is_comptime_number(value.ty) {
            self.settle_literal(ctx, value, expected)
        } else {
            let (s, fits) = self.check_coercible(
                value.ty,
                expected,
                ctx.resolve_context.at(value.span),
            );
            if fits {
                (s, ctx, Some(value))
            } else {
                (s, ctx, None)
            }
        }
    }

    /// The struct literal, once its fields are built. Fields without a mention
    /// are reported.
    #[verifier::opaque]
    pub open spec fn finish_struct_init(
        self,
        context: ResolveContext,
        struct_index: usize,
        name: Symbol,
        args: List<TypeIndex>,
        mentions: &List<Option<TextSpan>>,
        slots: List<Option<Expression>>,
        span: TextSpan,
    ) -> (State<'ast>, Expression) {
        let missing = self.missing_struct_fields(struct_index, mentions);
        let s = if !missing.is_empty() {
            self.report(reports::missing_struct_fields(name, missing, context.at(span)))
        } else {
            self
        };
        let (s, ty) = s.intern(Type::Struct { struct_index, args });
        (
            s,
            typed(
                ExprKind::StructInit { struct_index, fields: all_field_values(slots) },
                ty,
                span,
            ),
        )
    }

    /// The types that are expected of the elements of a tuple of that size.
    pub open spec fn tuple_types(
        self,
        expected: TypeIndex,
        count: usize,
    ) -> Option<List<TypeIndex>> {
        match self.ty(expected) {
            Type::Tuple { elements } => {
                if elements.len() == count {
                    Some(elements)
                } else {
                    None
                }
            },
            _ => None,
        }
    }

    /// An element of a tuple: a number literal takes the expected type, if there
    /// is one and it fits.
    pub open spec fn settle_element(
        self,
        ctx: ExprContext,
        element: Expression,
        expected: TypeIndex,
    ) -> (State<'ast>, ExprContext, Expression) {
        if ty::is_comptime_number(element.ty) && expected != ty::INFER {
            let (s, ctx, (element, _)) = self.coerce_untyped_expr(ctx, element, expected);
            (s, ctx, element)
        } else {
            (self, ctx, element)
        }
    }

    /// The tuple of its elements; without elements where one failed.
    #[verifier::opaque]
    pub open spec fn finish_tuple(
        self,
        elements: List<Expression>,
        failed: bool,
        span: TextSpan,
    ) -> (State<'ast>, Expression) {
        let (s, ty) = self.intern(Type::Tuple { elements: types_of_expressions(&elements) });
        if failed {
            (s, typed(ExprKind::TupleInit { elements: List::Nil }, ty, span))
        } else {
            (s, typed(ExprKind::TupleInit { elements }, ty, span))
        }
    }

    /// What an expected type says of an array literal.
    pub open spec fn expected_array(self, expected: TypeIndex) -> ExpectedArray {
        match self.ty(expected) {
            Type::Array { of, size, memory, mutable } => {
                ExpectedArray { of, size: Some(size), memory: Some(memory), mutable }
            },
            _ => ExpectedArray { of: ty::INFER, size: None, memory: None, mutable: false },
        }
    }

    /// Whether an array has the expected size; another one is reported.
    #[verifier::opaque]
    pub open spec fn check_array_size(
        self,
        expected: Option<u32>,
        size: u32,
        count: usize,
        span: SourceSpan,
    ) -> (State<'ast>, bool) {
        match expected {
            Some(expected) => {
                if size != expected {
                    let s = self.report(report_array_size_mismatch(expected, count, span));
                    (s, false)
                } else {
                    (self, true)
                }
            },
            None => (self, true),
        }
    }

    /// The type of the elements of an array literal: that of the first one, which
    /// all must have, or the expected one where there are none.
    #[verifier::opaque]
    pub open spec fn element_type(
        self,
        context: ResolveContext,
        elements: &List<Expression>,
        expected: TypeIndex,
        span: TextSpan,
    ) -> (State<'ast>, Option<TypeIndex>) {
        match elements {
            List::Cons(first, rest) => {
                let (s, same) = self.check_same_type(context.file_id, rest, first.ty);
                if same {
                    (s, Some(first.ty))
                } else {
                    (s, None)
                }
            },
            List::Nil => {
                if expected != ty::INFER {
                    (self, Some(expected))
                } else {
                    let s = self.report(report_type_annotation_required(context.at(span)));
                    (s, None)
                }
            },
        }
    }

    /// An index: a value of the type of a memory's addresses. Another type is
    /// reported.
    #[verifier::opaque]
    pub open spec fn settle_index(
        self,
        ctx: ExprContext,
        index: Expression,
        index_type: TypeIndex,
    ) -> (State<'ast>, ExprContext, Option<Expression>) {
        if ty::is_comptime_number(index.ty) {
            self.settle_literal(ctx, index, index_type)
        } else {
            let s = if index.ty != index_type {
                self.report(
                    report_type_mistmatch(
                        index_type,
                        index.ty,
                        ctx.resolve_context.at(index.span),
                    ),
                )
            } else {
                self
            };
            (s, ctx, Some(index))
        }
    }

    /// A bound of a range: a value of the type of a memory's addresses. Another
    /// type is reported, and there is no range then.
    #[verifier::opaque]
    pub open spec fn settle_range_bound(
        self,
        ctx: ExprContext,
        bound: Expression,
        index_type: TypeIndex,
        span: TextSpan,
    ) -> (State<'ast>, ExprContext, Option<Expression>) {
        if ty::is_comptime_number(bound.ty) {
            self.settle_literal(ctx, bound, index_type)
        } else {
            if bound.ty != index_type {
                let s = self.report(
                    report_type_mistmatch(index_type, bound.ty, ctx.resolve_context.at(span)),
                );
                (s, ctx, None)
            } else {
                (self, ctx, Some(bound))
            }
        }
    }

    /// An argument of a call, checked against the parameter's type. What does not
    /// fit is reported, and the argument kept.
    #[verifier::opaque]
    pub open spec fn settle_argument(
        self,
        ctx: ExprContext,
        argument: Expression,
        expected: TypeIndex,
    ) -> (State<'ast>, ExprContext, Expression) {
        let span = ctx.resolve_context.at(argument.span);
        if expected == ty::INFER {
            let s = if ty::is_comptime_number(argument.ty) {
                self.report(report_type_annotation_required(span))
            } else {
                self
            };
            (s, ctx, argument)
        } else {
            if ty::is_comptime_number(argument.ty) {
                let (s, ctx, (argument, _)) = self.coerce_untyped_expr(ctx, argument, expected);
                (s, ctx, argument)
            } else {
                let (s, _fits) = self.check_coercible(argument.ty, expected, span);
                (s, ctx, argument)
            }
        }
    }

    /// The type that is expected of an argument for a parameter, for the type
    /// arguments known so far; to be inferred where they do not tell it whole.
    #[verifier::opaque]
    pub open spec fn argument_expectation(
        self,
        param: Option<TypeIndex>,
        type_args: &List<TypeIndex>,
    ) -> (State<'ast>, TypeIndex) {
        match param {
            Some(param) => {
                let (s, expected) = self.expected(param, *type_args);
                if s.has_infer(expected) {
                    (s, ty::INFER)
                } else {
                    (s, expected)
                }
            },
            None => (self, ty::INFER),
        }
    }

    /// The type arguments as far as the type of one argument tells them.
    pub open spec fn infer_from_argument(
        self,
        type_args: List<TypeIndex>,
        param: Option<TypeIndex>,
        actual: TypeIndex,
    ) -> List<TypeIndex> {
        match param {
            Some(param) => self.inferred(type_args, param, actual),
            None => type_args,
        }
    }

    /// The type arguments as far as the expected type of a call tells them.
    pub open spec fn infer_from_expected(
        self,
        type_args: List<TypeIndex>,
        call_result: TypeIndex,
        expected: TypeIndex,
    ) -> List<TypeIndex> {
        if expected == ty::INFER {
            type_args
        } else {
            self.inferred(type_args, call_result, expected)
        }
    }

    /// Reports a callee that is no function, unless it was reported before.
    #[verifier::opaque]
    pub open spec fn report_invalid_callee(
        self,
        callee: TypeIndex,
        block_like: bool,
        span: SourceSpan,
    ) -> State<'ast> {
        if callee == ty::ERROR {
            self
        } else {
            if block_like {
                self.report(
                    report_call_requires_function(callee, span).with_note(
                        text("consider using a semicolon here to finish the statement: `;`"),
                    ),
                )
            } else {
                self.report(report_call_requires_function(callee, span))
            }
        }
    }

    /// What a cast makes of a value: a number literal takes the type, and a value
    /// that is held the same way changes it. Any other cast is reported.
    #[verifier::opaque]
    pub open spec fn finish_cast(
        self,
        ctx: ExprContext,
        value: Expression,
        target: TypeIndex,
        span: TextSpan,
    ) -> (State<'ast>, ExprContext, Option<Expression>) {
        if ty::is_comptime_number(value.ty) {
            self.settle_literal(ctx, value, target)
        } else {
            if self.scalar_compatible(value.ty, target) {
                (self, ctx, Some(typed(value.kind, target, value.span)))
            } else {
                let s = self.report(
                    report_invalid_cast(value.ty, target, ctx.resolve_context.at(span)),
                );
                (s, ctx, Some(value))
            }
        }
    }

    /// The type that a cast goes to: the written one, or the expected one for
    /// `_`. `None` where there is none.
    #[verifier::opaque]
    pub open spec fn cast_target(
        self,
        written: TypeIndex,
        expected: TypeIndex,
        span: SourceSpan,
    ) -> (State<'ast>, Option<TypeIndex>) {
        if written == ty::ERROR {
            (self, None)
        } else {
            if written != ty::INFER {
                (self, Some(written))
            } else {
                if expected == ty::INFER {
                    let s = self.report(report_type_annotation_required(span));
                    (s, None)
                } else {
                    (self, Some(expected))
                }
            }
        }
    }

    /// The value that a pointer points at.
    #[verifier::opaque]
    pub open spec fn finish_deref(
        self,
        context: ResolveContext,
        access_kind: AccessKind,
        pointer: Expression,
        span: TextSpan,
    ) -> (State<'ast>, Option<Expression>) {
        match self.ty(pointer.ty) {
            Type::Pointer { to, memory, mutable } => {
                let s = self.check_writable(access_kind, mutable, context.at(span));
                (
                    s,
                    Some(
                        load_expression(
                            PlaceKind::Deref { pointer: Box::new(pointer) },
                            to,
                            memory,
                            mutable,
                            span,
                        ),
                    ),
                )
            },
            _ => {
                let s = self.report(
                    report_cannot_deref_non_pointer(pointer.ty, context.at(pointer.span)),
                );
                (s, None)
            },
        }
    }

    /// The address of a place in memory. What is in no memory has none; a mutable
    /// address of a place that cannot be written is reported.
    #[verifier::opaque]
    pub open spec fn finish_address_of(
        self,
        context: ResolveContext,
        operand: Expression,
        mutable: bool,
        span: TextSpan,
    ) -> (State<'ast>, Option<Expression>) {
        match operand.kind {
            ExprKind::Load { place } => {
                let s = if mutable && !place.mutable {
                    self.report(
                        report_cannot_take_mutable_address_of_immutable(context.at(span)),
                    )
                } else {
                    self
                };
                let (s, ty) = s.intern(
                    Type::Pointer { to: place.ty, memory: place.memory, mutable },
                );
                (s, Some(typed(ExprKind::AddressOf { place, mutable }, ty, span)))
            },
            _ => {
                let s = self.report(
                    report_cannot_take_address_of_value(context.at(operand.span)),
                );
                (s, None)
            },
        }
    }

    /// The expression that a name without `::` stands for.
    #[verifier::opaque]
    pub open spec fn build_name_expression(
        self,
        ctx: ExprContext,
        access: AccessContext,
        name: Symbol,
        span: TextSpan,
    ) -> (State<'ast>, ExprContext, Expression) {
        match self.resolve_symbol(&ctx, name) {
            Some(resolved) => self.resolved_symbol_to_expression(ctx, access, resolved, span),
            None => {
                let s = self.report(report_undeclared_identifier(ctx.resolve_context.at(span)));
                (s, ctx, poisoned_as(ty::infer_or(access.expected_type, ty::ERROR), span))
            },
        }
    }

    /// The character literal; one that is empty or too long is reported.
    #[verifier::opaque]
    pub open spec fn build_char_expression(
        self,
        context: ResolveContext,
        raw: &String,
        span: TextSpan,
    ) -> (State<'ast>, Option<Expression>) {
        match char_value(raw) {
            Ok(value) => (self, Some(typed(ExprKind::Char { value }, ty::CHAR, span))),
            Err(CharLiteralError::Empty) => {
                let s = self.report(report_empty_char_literal(context.at(span)));
                (s, None)
            },
            Err(CharLiteralError::TooLong) => {
                let s = self.report(report_char_literal_too_long(context.at(span)));
                (s, None)
            },
        }
    }

    /// A function by its name alone.
    pub open spec fn visible_function(
        self,
        namespace: Option<usize>,
        name: Symbol,
    ) -> Option<usize> {
        match self.visible_symbol(namespace, SymbolNamespace::Value, name) {
            Some(SymbolKind::Function { func_index }) => Some(func_index),
            _ => None,
        }
    }

    /// The expression that a function is, with the arguments for its type
    /// parameters and its use recorded.
    #[verifier::opaque]
    pub open spec fn function_reference(
        self,
        func_index: usize,
        type_args: List<TypeIndex>,
        used_at: SourceSpan,
        span: TextSpan,
    ) -> (State<'ast>, Expression) {
        let s = self.access(AccessTarget::Function(func_index), used_at);
        let (_, _, id) = s.function_identity(func_index);
        let (s, ty) = s.intern(Type::FunctionItem { id, type_args });
        (s, typed(ExprKind::Function { id }, ty, span))
    }

    /// Reports type arguments that are not as many as a function has parameters
    /// for, where any are written.
    pub open spec fn check_type_arg_count(
        self,
        expected: usize,
        found: usize,
        span: SourceSpan,
    ) -> State<'ast> {
        if found != 0 && found != expected {
            self.report(report_wrong_type_arg_count(expected, found, span))
        } else {
            self
        }
    }
}

impl<'ast> Builder<'ast> {
    /// Reports the statements of a block after one that does not finish.
    pub fn report_unreachable_statements(
        &mut self,
        file_id: FileId,
        statements: &List<Statement>,
        built: usize,
    )
        ensures
            final(self)@ == old(self)@.report_unreachable_statements(file_id, statements, built),
    {
        proof {
            reveal(State::report_unreachable_statements);
        }
        match (statement_span(statements, built), last_statement_span(statements)) {
            (Some(first), Some(last)) => {
                self.report(
                    report_unreachable_code(SourceSpan::new(file_id, join_spans(first, last))),
                );
            },
            _ => {},
        }
    }

    /// Reports a type that does not go where another is expected.
    pub fn check_coercible(
        &mut self,
        actual: TypeIndex,
        expected: TypeIndex,
        span: SourceSpan,
    ) -> (result: bool)
        ensures
            (final(self)@, result) == old(self)@.check_coercible(actual, expected, span),
    {
        let fits = self.coercible_to(actual, expected);
        if !fits {
            self.report(report_type_mistmatch(expected, actual, span));
        }
        fits
    }

    /// The type that a value leaves a block with: what the block's values have
    /// settled before, otherwise what is expected of it, otherwise the value's
    /// own. `None` where the first value of a block is not of the expected type.
    pub fn infer_block_type(
        &mut self,
        inferred: TypeIndex,
        expected: TypeIndex,
        value: TypeIndex,
        span: SourceSpan,
    ) -> (result: Option<TypeIndex>)
        ensures
            (final(self)@, result) == old(self)@.infer_block_type(
                inferred,
                expected,
                value,
                span,
            ),
    {
        proof {
            reveal(State::infer_block_type);
        }
        if ty::is_comptime_number(value) {
            let target: TypeIndex = ty::infer_or(inferred, expected);
            return Some(ty::infer_or(target, value));
        }
        if inferred != ty::INFER {
            let _fits = self.check_coercible(value, inferred, span);
            return Some(inferred);
        }
        if expected != ty::INFER {
            let fits = self.check_coercible(value, expected, span);
            if !fits {
                return None;
            }
        }
        Some(value)
    }

    /// The type of a local that is defined with a value: the annotated one, or
    /// that of the value where there is no annotation. A number literal takes the
    /// annotated type.
    pub fn resolve_local_type(
        &mut self,
        ctx: &mut ExprContext,
        pattern_span: TextSpan,
        value: Expression,
        expected: TypeIndex,
    ) -> (result: (TypeIndex, Expression))
        ensures
            (final(self)@, *final(ctx), result) == old(self)@.resolve_local_type(
                *old(ctx),
                pattern_span,
                value,
                expected,
            ),
    {
        proof {
            reveal(State::resolve_local_type);
        }
        let span = ctx.resolve_context.at(value.span);
        let value_ty: TypeIndex = value.ty;
        if expected == ty::INFER {
            if self.contains_comptime_number(value_ty) || self.contains_infer(value_ty) {
                self.report(
                    report_type_annotation_required(ctx.resolve_context.at(pattern_span)),
                );
                return (ty::ERROR, value);
            }
            return (value_ty, value);
        }
        if value_ty == ty::ERROR {
            return (expected, value);
        }
        if ty::is_comptime_number(value_ty) {
            let (value, fits) = self.coerce_untyped_expr(ctx, value, expected);
            if fits {
                return (expected, value);
            }
            return (ty::ERROR, value);
        }
        if self.contains_infer(expected) {
            if self.type_satisfies_annotation(value_ty, expected) {
                return (value_ty, value);
            }
            self.report(report_type_mistmatch(expected, value_ty, span));
            return (expected, value);
        }
        let _fits = self.check_coercible(value_ty, expected, span);
        (expected, value)
    }

    /// Whether and where a field is declared public.
    pub fn field_visibility(&self, struct_index: usize, index: usize) -> (result: Option<TextSpan>)
        ensures
            result == self@.field_visibility(struct_index, index),
    {
        match vec_at(&self.structs, struct_index) {
            Some(item) => match item.fields.get(index) {
                Some(field) => field.pub_span,
                None => None,
            },
            None => None,
        }
    }

    /// Reports a field that is not accessible from where it is used.
    pub fn check_field_access(
        &mut self,
        context: ResolveContext,
        struct_index: usize,
        index: usize,
        span: TextSpan,
    )
        ensures
            final(self)@ == old(self)@.check_field_access(context, struct_index, index, span),
    {
        proof {
            reveal(State::check_field_access);
        }
        let visibility = self.field_visibility(struct_index, index);
        let private = match vec_at(&self.structs, struct_index) {
            Some(item) => match item.fields.get(index) {
                Some(field) => if self.is_accessible_from(
                    context.namespace,
                    item.namespace,
                    visibility,
                ) {
                    None
                } else {
                    Some(
                        report_private_field(
                            item.name.inner,
                            field.name.inner,
                            context.at(span),
                            SourceSpan::new(item.file_id, field.name.span),
                        ),
                    )
                },
                None => None,
            },
            None => None,
        };
        match private {
            Some(diagnostic) => {
                self.report(diagnostic);
            },
            None => {},
        }
    }

    /// The field of a struct of that name, with its use recorded. A field that
    /// is not accessible is reported, and is found all the same.
    pub fn resolve_struct_field(
        &mut self,
        context: ResolveContext,
        struct_index: usize,
        args: &List<TypeIndex>,
        name: Spanned<Symbol>,
        kind: FieldAccessKind,
    ) -> (result: Option<ResolvedField>)
        ensures
            (final(self)@, result) == old(self)@.resolve_struct_field(
                context,
                struct_index,
                args,
                name,
                kind,
            ),
    {
        proof {
            reveal(State::resolve_struct_field);
        }
        let (index, raw_ty) = self.declared_field(struct_index, name.inner)?;
        let target = match kind {
            FieldAccessKind::Read => AccessTarget::FieldRead(struct_index, index),
            FieldAccessKind::Init => AccessTarget::FieldInit(struct_index, index),
        };
        self.access(target, context.at(name.span));
        self.check_field_access(context, struct_index, index, name.span);
        if args.is_empty() {
            return Some(ResolvedField { index, ty: raw_ty });
        }
        let ty: TypeIndex = self.substitute_type(raw_ty, args, MAX_DEPTH);
        Some(ResolvedField { index, ty })
    }

    /// The position and the declared type of the field of that name.
    pub fn declared_field(
        &self,
        struct_index: usize,
        name: Symbol,
    ) -> (result: Option<(usize, TypeIndex)>)
        ensures
            result == self@.declared_field(struct_index, name),
    {
        let item = vec_at(&self.structs, struct_index)?;
        let index: usize = find_field(&item.fields, name, 0)?;
        let field = item.fields.get(index)?;
        Some((index, field.ty.inner))
    }

    /// The name and the number of fields of a struct.
    pub fn struct_shape(&self, struct_index: usize) -> (result: (Symbol, usize, usize))
        ensures
            result == self@.struct_shape(struct_index),
    {
        match vec_at(&self.structs, struct_index) {
            Some(item) => (item.name.inner, item.fields.len(), item.type_params.len()),
            None => (0, 0, 0),
        }
    }

    /// The fields of a struct that have no mention.
    pub fn missing_struct_fields(
        &self,
        struct_index: usize,
        mentions: &List<Option<TextSpan>>,
    ) -> (result: List<Spanned<Symbol>>)
        ensures
            result == self@.missing_struct_fields(struct_index, mentions),
    {
        match vec_at(&self.structs, struct_index) {
            Some(item) => missing_fields(&item.fields, mentions),
            None => List::Nil,
        }
    }

    /// The type arguments that a struct literal has: those of its path, where
    /// that tells any, otherwise those of the expected type.
    pub fn struct_init_args(
        &self,
        struct_ty: TypeIndex,
        explicit: bool,
        params: usize,
        struct_index: usize,
        expected: TypeIndex,
    ) -> (result: List<TypeIndex>)
        ensures
            result == self@.struct_init_args(struct_ty, explicit, params, struct_index, expected),
    {
        let own = match self.ty(struct_ty) {
            Type::Struct { struct_index: _, args } => args,
            _ => List::Nil,
        };
        if explicit {
            return own;
        }
        if params == 0 {
            return List::Nil;
        }
        if own.len() == params && any_known(&own) {
            return own;
        }
        match self.ty(expected) {
            Type::Struct { struct_index: other, args } => {
                if other == struct_index && args.len() == params {
                    args
                } else {
                    List::Nil
                }
            },
            _ => List::Nil,
        }
    }

    /// A number literal with the type that is expected of it; any other value as
    /// it is. `None` where the literal does not fit that type.
    pub fn settle_literal(
        &mut self,
        ctx: &mut ExprContext,
        value: Expression,
        expected: TypeIndex,
    ) -> (result: Option<Expression>)
        ensures
            (final(self)@, *final(ctx), result) == old(self)@.settle_literal(
                *old(ctx),
                value,
                expected,
            ),
    {
        proof {
            reveal(State::settle_literal);
        }
        if !ty::is_comptime_number(value.ty) {
            return Some(value);
        }
        let (settled_value, fits) = self.coerce_untyped_expr(ctx, value, expected);
        if fits {
            Some(settled_value)
        } else {
            None
        }
    }

    /// An element of an array literal: a number literal of a number type. What is
    /// wrong is reported; the result is `None` then.
    pub fn check_array_element(
        &mut self,
        ctx: &mut ExprContext,
        element: Expression,
        expected: TypeIndex,
    ) -> (result: Option<Expression>)
        ensures
            (final(self)@, *final(ctx), result) == old(self)@.check_array_element(
                *old(ctx),
                element,
                expected,
            ),
    {
        proof {
            reveal(State::check_array_element);
        }
        let span = ctx.resolve_context.at(element.span);
        if ty::is_comptime_number(element.ty) && expected == ty::INFER {
            self.report(report_type_annotation_required(span));
            return None;
        }
        let element = self.settle_literal(ctx, element, expected)?;
        if !ty::is_numeric(element.ty) {
            self.report(report_array_element_not_numeric(span));
            return None;
        }
        if !is_number_literal(&element) {
            self.report(report_array_element_not_const(span));
            return None;
        }
        Some(element)
    }

    /// Whether all elements have one type; the first that has another is
    /// reported.
    pub fn check_same_type(
        &mut self,
        file_id: FileId,
        elements: &List<Expression>,
        expected: TypeIndex,
    ) -> (result: bool)
        ensures
            (final(self)@, result) == old(self)@.check_same_type(file_id, elements, expected),
        decreases elements,
    {
        match elements {
            List::Nil => true,
            List::Cons(element, rest) => {
                if element.ty != expected {
                    self.report(
                        report_type_mistmatch(
                            expected,
                            element.ty,
                            SourceSpan::new(file_id, element.span),
                        ),
                    );
                    return false;
                }
                self.check_same_type(file_id, rest, expected)
            },
        }
    }

    /// The element type, the memory and the right to write of what is indexed.
    /// What cannot be indexed is reported, unless it was reported before.
    pub fn resolve_indexable(
        &mut self,
        object: TypeIndex,
        span: SourceSpan,
    ) -> (result: Option<(TypeIndex, TypeIndex, bool)>)
        ensures
            (final(self)@, result) == old(self)@.resolve_indexable(object, span),
    {
        proof {
            reveal(State::resolve_indexable);
        }
        match self.ty(object) {
            Type::Array { of, size: _, memory, mutable } => Some((of, memory, mutable)),
            Type::Slice { of, memory, mutable } => Some((of, memory, mutable)),
            Type::Error => None,
            _ => {
                self.report(report_index_on_non_indexable(object, span));
                None
            },
        }
    }

    /// Reports a write through something that gives no right to write.
    pub fn check_writable(&mut self, access_kind: AccessKind, mutable: bool, span: SourceSpan)
        ensures
            final(self)@ == old(self)@.check_writable(access_kind, mutable, span),
    {
        if access_kind != AccessKind::Read && !mutable {
            self.report(report_cannot_store_through_immutable_pointer(span));
        }
    }

    /// Whether a type can be matched on: an enum, an integer type, `bool` or
    /// `char`.
    pub fn is_matchable(&self, index: TypeIndex) -> (result: bool)
        ensures
            result == self@.is_matchable(index),
    {
        match self.ty(index) {
            Type::Enum { .. } => true,
            _ => index == ty::BOOL || index == ty::CHAR || ty::is_integer(index),
        }
    }

    /// The pattern that an expression on the left of an arm is, for a value of
    /// the given type. What is no pattern is reported.
    pub fn pattern_of_expression(
        &mut self,
        ctx: &mut ExprContext,
        built: Expression,
        scrutinee: TypeIndex,
        span: TextSpan,
    ) -> (result: Option<Pattern>)
        ensures
            (final(self)@, *final(ctx), result) == old(self)@.pattern_of_expression(
                *old(ctx),
                built,
                scrutinee,
                span,
            ),
    {
        proof {
            reveal(State::pattern_of_expression);
        }
        let is_enum = match self.ty(scrutinee) {
            Type::Enum { .. } => true,
            _ => false,
        };
        if is_enum {
            let pattern = variant_pattern(&built, scrutinee);
            if pattern.is_none() {
                self.report(report_invalid_pattern(ctx.resolve_context.at(span)));
            }
            return pattern;
        }
        let built = self.settle_literal(ctx, built, scrutinee)?;
        let pattern = constant_pattern(self.eval_const_expr(&built), scrutinee);
        if pattern.is_none() {
            self.report(report_invalid_pattern(ctx.resolve_context.at(span)));
        }
        pattern
    }

    /// Reports each arm that no value reaches: one after a wildcard, or one whose
    /// pattern an earlier arm has.
    pub fn report_unreachable_arms(
        &mut self,
        file_id: FileId,
        arms: &List<MatchArm>,
        seen: &List<Pattern>,
    )
        ensures
            final(self)@ == old(self)@.report_unreachable_arms(file_id, arms, seen),
        decreases arms,
    {
        match arms {
            List::Nil => {},
            List::Cons(arm, rest) => {
                if contains_pattern(seen, Pattern::Wildcard)
                    || contains_pattern(seen, arm.pattern) {
                    self.report(
                        report_unreachable_match_arm(SourceSpan::new(file_id, arm.pattern_span)),
                    );
                }
                self.report_unreachable_arms(file_id, rest, &cons(arm.pattern, seen.duplicate()));
            },
        }
    }

    /// The value of an arm: a number literal takes the type of the other arms.
    pub fn settle_arm(
        &mut self,
        ctx: &mut ExprContext,
        body: Expression,
        target: TypeIndex,
    ) -> (result: Option<Expression>)
        ensures
            (final(self)@, *final(ctx), result) == old(self)@.settle_arm(*old(ctx), body, target),
    {
        if ty::is_comptime_number(target) {
            return Some(body);
        }
        self.settle_literal(ctx, body, target)
    }

    /// Brings the arms of a match to one type: number literals take the target's,
    /// and the others must agree.
    pub fn unify_arms(
        &mut self,
        ctx: &mut ExprContext,
        arms: List<MatchArm>,
        target: TypeIndex,
        so_far: TypeIndex,
    ) -> (result: Option<(List<MatchArm>, TypeIndex)>)
        ensures
            (final(self)@, *final(ctx), result) == old(self)@.unify_arms(
                *old(ctx),
                arms,
                target,
                so_far,
            ),
        decreases arms,
    {
        match arms {
            List::Nil => Some((List::Nil, so_far)),
            List::Cons(arm, rest) => {
                let arm = *arm;
                let pattern = arm.pattern;
                let pattern_span = arm.pattern_span;
                let body = self.settle_arm(ctx, arm.body, target)?;
                let unified = self.unify(so_far, body.ty);
                match unified {
                    Some(agreed) => {
                        let others = self.unify_arms(ctx, *rest, target, agreed);
                        match others {
                            Some((others, ty)) => {
                                Some((cons(MatchArm { pattern, pattern_span, body }, others), ty))
                            },
                            None => None,
                        }
                    },
                    None => {
                        self.report(
                            report_type_mistmatch(
                                so_far,
                                body.ty,
                                ctx.resolve_context.at(body.span),
                            ),
                        );
                        None
                    },
                }
            },
        }
    }

    /// Whether the arms of a match cover every value: with a wildcard, or with
    /// every variant of the enum. Where they do not, that is reported.
    pub fn check_match_exhaustiveness(
        &mut self,
        file_id: FileId,
        scrutinee: TypeIndex,
        arms: &List<MatchArm>,
        match_span: TextSpan,
    ) -> (result: bool)
        ensures
            (final(self)@, result) == old(self)@.check_match_exhaustiveness(
                file_id,
                scrutinee,
                arms,
                match_span,
            ),
    {
        proof {
            reveal(State::check_match_exhaustiveness);
        }
        if covers(arms, Pattern::Wildcard) {
            return true;
        }
        match self.ty(scrutinee) {
            Type::Enum { enum_index } => {
                let missing = match vec_at(&self.enums, enum_index) {
                    Some(item) => missing_variants(&item.variants, arms, enum_index, 0),
                    None => List::Nil,
                };
                if missing.is_empty() {
                    return true;
                }
                self.report(
                    report_non_exhaustive_match(&missing, SourceSpan::new(file_id, match_span)),
                );
                false
            },
            _ => {
                self.report(
                    report_non_exhaustive_match_no_wildcard(SourceSpan::new(file_id, match_span)),
                );
                false
            },
        }
    }

    /// The parameters and the result of what is called, if it is a function.
    pub fn callee_signature(&self, callee: TypeIndex) -> (result: Option<FunctionSignature>)
        ensures
            result == self@.callee_signature(callee),
    {
        match self.ty(callee) {
            Type::Function { signature } => Some(signature),
            Type::FunctionItem { id, type_args: _ } => match self.ty(self.signature_of(id)) {
                Type::Function { signature } => Some(signature),
                _ => None,
            },
            _ => None,
        }
    }

    /// The generic function that a callee names directly: its index, its id, and
    /// the arguments for its type parameters as far as they are written.
    pub fn generic_callee(
        &self,
        callee: &Expression,
    ) -> (result: Option<(usize, DefId, List<TypeIndex>)>)
        ensures
            result == self@.generic_callee(callee),
    {
        let id: DefId = direct_callee(callee)?;
        let func_index: usize = self.function_index(id)?;
        let total: usize = match vec_at(&self.functions, func_index) {
            Some(function) => total_type_param_count(function),
            None => 0,
        };
        if total == 0 {
            return None;
        }
        match self.ty(callee.ty) {
            Type::FunctionItem { id: _, type_args } => Some((func_index, id, type_args)),
            _ => Some((func_index, id, List::repeat(ty::INFER, total))),
        }
    }

    /// The number of the function's own type parameters, and of the inherited
    /// ones before them.
    pub fn own_type_params(&self, func_index: usize) -> (result: (usize, usize))
        ensures
            result == self@.own_type_params(func_index),
    {
        match vec_at(&self.functions, func_index) {
            Some(function) => (function.type_params.len(), function.inherited_type_param_count),
            None => (0, 0),
        }
    }

    /// The expression that a constant, global or variant of a namespace is, with
    /// its use recorded.
    pub fn build_member_value(
        &mut self,
        context: ResolveContext,
        namespace: Spanned<TypeIndex>,
        member: ResolvedMember,
        member_span: TextSpan,
        span: TextSpan,
    ) -> (result: Option<Expression>)
        ensures
            (final(self)@, result) == old(self)@.build_member_value(
                context,
                namespace,
                member,
                member_span,
                span,
            ),
    {
        proof {
            reveal(State::build_member_value);
        }
        match member {
            ResolvedMember::Const { const_index } => {
                self.access(AccessTarget::Const(const_index), context.at(member_span));
                match vec_at(&self.constants, const_index) {
                    Some(constant) => Some(
                        namespace_expression(
                            namespace,
                            ExprKind::Const { id: constant.id },
                            constant.ty.inner,
                            member_span,
                            span,
                        ),
                    ),
                    None => None,
                }
            },
            ResolvedMember::Global { global_index } => {
                self.access(AccessTarget::Global(global_index), context.at(member_span));
                match vec_at(&self.globals, global_index) {
                    Some(global) => Some(
                        namespace_expression(
                            namespace,
                            ExprKind::Global { id: global.id },
                            global.ty.inner,
                            member_span,
                            span,
                        ),
                    ),
                    None => None,
                }
            },
            ResolvedMember::EnumVariant { enum_index, variant_index } => {
                self.access(
                    AccessTarget::EnumVariant(enum_index, variant_index),
                    context.at(member_span),
                );
                Some(
                    namespace_expression(
                        namespace,
                        ExprKind::EnumVariant { enum_index, variant_index },
                        namespace.inner,
                        member_span,
                        span,
                    ),
                )
            },
            ResolvedMember::Function { .. } => None,
        }
    }

    /// The expression that reads a member of an object: a field of a struct. A
    /// field of something in memory is itself a place in memory. A member that is
    /// no field is reported.
    pub fn finish_object_access(
        &mut self,
        context: ResolveContext,
        object: Expression,
        member: Spanned<Symbol>,
        span: TextSpan,
    ) -> (result: Option<Expression>)
        ensures
            (final(self)@, result) == old(self)@.finish_object_access(
                context,
                object,
                member,
                span,
            ),
    {
        proof {
            reveal(State::finish_object_access);
        }
        let object_ty: TypeIndex = object.ty;
        let field = match self.ty(object_ty) {
            Type::Struct { struct_index, args } => self.resolve_struct_field(
                context,
                struct_index,
                &args,
                member,
                FieldAccessKind::Read,
            ),
            _ => None,
        };
        match field {
            Some(field) => Some(field_expression(object, field, span)),
            None => {
                let lookup = self.resolve_impl_member(
                    context,
                    object_ty,
                    member.inner,
                    member.span,
                );
                match lookup {
                    MemberLookup::Inherent { .. } | MemberLookup::Trait { .. } => {
                        self.report(
                            report_not_a_field(member.inner, object_ty, context.at(member.span)),
                        );
                        None
                    },
                    MemberLookup::NotFound => {
                        self.report(report_undeclared_identifier(context.at(member.span)));
                        None
                    },
                    MemberLookup::Ambiguous => None,
                }
            },
        }
    }

    /// Reports the locals that are never used and those that are mutable for
    /// nothing. The receiver `self`, names that start with `_` and poisoned
    /// locals may be unused.
    pub fn report_unused_locals(&mut self, file_id: FileId, locals: &List<Local>)
        ensures
            final(self)@ == old(self)@.report_unused_locals(file_id, locals),
        decreases locals,
    {
        match locals {
            List::Nil => {},
            List::Cons(local, rest) => {
                if local.accesses.is_empty()
                    && local.ty != ty::ERROR
                    && !self.interner.starts_with_underscore(local.name.inner)
                    && local.name.inner != self.names.self_value {
                    self.report(
                        report_unused_variable(SourceSpan::new(file_id, local.name.span)),
                    );
                }
                match local.mut_span {
                    Some(mut_span) => {
                        if !is_written(&local.accesses) {
                            self.report(
                                report_unnecessary_mutability(SourceSpan::new(file_id, mut_span)),
                            );
                        }
                    },
                    None => {},
                }
                self.report_unused_locals(file_id, rest);
            },
        }
    }

    /// Reports the unused locals of each scope.
    pub fn report_scope_warnings(&mut self, file_id: FileId, scopes: &List<BlockScope>)
        ensures
            final(self)@ == old(self)@.report_scope_warnings(file_id, scopes),
        decreases scopes,
    {
        match scopes {
            List::Nil => {},
            List::Cons(scope, rest) => {
                self.report_unused_locals(file_id, &scope.locals);
                self.report_scope_warnings(file_id, rest);
            },
        }
    }

    /// Reports each label that is never used.
    pub fn report_unused_labels(&mut self, file_id: FileId, labels: &List<LabelInfo>)
        ensures
            final(self)@ == old(self)@.report_unused_labels(file_id, labels),
        decreases labels,
    {
        match labels {
            List::Nil => {},
            List::Cons(label, rest) => {
                if label.accesses.is_empty() {
                    self.report(report_unused_label(SourceSpan::new(file_id, label.name.span)));
                }
                self.report_unused_labels(file_id, rest);
            },
        }
    }

    /// Reports the labels and locals of a body that are there for nothing.
    pub fn report_stack_warnings(&mut self, file_id: FileId, stack: &StackFrame)
        ensures
            final(self)@ == old(self)@.report_stack_warnings(file_id, stack),
    {
        self.report_unused_labels(file_id, &stack.labels);
        self.report_scope_warnings(file_id, &stack.scopes);
    }

    /// The type of a block: what was inferred for it, if that goes where a type
    /// is expected.
    pub fn checked_block_type(
        &mut self,
        inferred: TypeIndex,
        expected: TypeIndex,
        span: SourceSpan,
    ) -> (result: TypeIndex)
        ensures
            (final(self)@, result) == old(self)@.checked_block_type(inferred, expected, span),
    {
        if expected == ty::INFER {
            return inferred;
        }
        let fits = self.check_coercible(inferred, expected, span);
        if fits {
            inferred
        } else {
            ty::ERROR
        }
    }

    /// The value of a block, with the type that the block has then. A block
    /// without a value is a `()`, unless a jump settled its type before.
    pub fn finish_block_result(
        &mut self,
        ctx: &mut ExprContext,
        value: Option<Expression>,
    ) -> (result: Option<Option<Expression>>)
        ensures
            (final(self)@, *final(ctx), result) == old(self)@.finish_block_result(
                *old(ctx),
                value,
            ),
    {
        proof {
            reveal(State::finish_block_result);
        }
        let index: usize = ctx.scope_index;
        match value {
            Some(value) => {
                let inferred = self.infer_block_type(
                    ctx.inferred_type(index),
                    ctx.expected_type(index),
                    value.ty,
                    ctx.resolve_context.at(value.span),
                )?;
                ctx.set_inferred_type(index, inferred);
                if ty::is_comptime_number(value.ty) && !ty::is_comptime_number(inferred) {
                    let (value, _) = self.coerce_untyped_expr(ctx, value, inferred);
                    return Some(Some(value));
                }
                Some(Some(value))
            },
            None => {
                let inferred: TypeIndex = ty::infer_or(ctx.inferred_type(index), ty::UNIT);
                ctx.set_inferred_type(index, inferred);
                Some(None)
            },
        }
    }

    /// The expression of a statement. A value that nothing uses is reported, and
    /// one that never comes leaves the block.
    pub fn finish_expression_statement(
        &mut self,
        ctx: &mut ExprContext,
        value: Expression,
    ) -> (result: Option<Expression>)
        ensures
            (final(self)@, *final(ctx), result) == old(self)@.finish_expression_statement(
                *old(ctx),
                value,
            ),
    {
        proof {
            reveal(State::finish_expression_statement);
        }
        let index: usize = ctx.scope_index;
        if value.ty == ty::UNIT || value.ty == ty::ERROR {
            return Some(value);
        }
        if value.ty == ty::NEVER {
            if ctx.inferred_type(index) == ty::INFER {
                ctx.set_inferred_type(index, ty::NEVER);
            }
            return Some(value);
        }
        if ty::is_comptime_number(value.ty) {
            self.report(report_type_annotation_required(ctx.resolve_context.at(value.span)));
            return None;
        }
        self.report(report_unused_value(ctx.resolve_context.at(value.span)));
        Some(value)
    }

    /// The type and the value of a local that is being defined. One whose value
    /// failed keeps the annotated type.
    pub fn settle_local(
        &mut self,
        ctx: &mut ExprContext,
        pattern_span: TextSpan,
        value_span: TextSpan,
        built: Option<Expression>,
        expected: TypeIndex,
    ) -> (result: (TypeIndex, Expression))
        ensures
            (final(self)@, *final(ctx), result) == old(self)@.settle_local(
                *old(ctx),
                pattern_span,
                value_span,
                built,
                expected,
            ),
    {
        match built {
            Some(value) => self.resolve_local_type(ctx, pattern_span, value, expected),
            None => (ty::infer_or(expected, ty::ERROR), poisoned(value_span)),
        }
    }

    /// The loop, with the type of the values that it is left with; one that is
    /// never left has no value.
    pub fn finish_loop(
        &mut self,
        ctx: &mut ExprContext,
        block: Expression,
        span: TextSpan,
    ) -> (result: Option<Expression>)
        ensures
            (final(self)@, *final(ctx), result) == old(self)@.finish_loop(*old(ctx), block, span),
    {
        proof {
            reveal(State::finish_loop);
        }
        let index: usize = ctx.scope_index;
        let inferred: TypeIndex = ctx.inferred_type(index);
        let expected: TypeIndex = ctx.expected_type(index);
        if expected != ty::INFER && inferred != ty::INFER {
            let fits = self.check_coercible(inferred, expected, ctx.resolve_context.at(span));
            if !fits {
                return None;
            }
        }
        Some(
            typed(
                ExprKind::Loop { scope_index: index, block: Box::new(block) },
                ty::infer_or(inferred, ty::NEVER),
                span,
            ),
        )
    }

    /// The scope that a `break` or `continue` jumps to: the labelled one, or the
    /// closest loop. Where there is none, that is reported.
    pub fn jump_target(
        &mut self,
        ctx: &mut ExprContext,
        label: Option<Spanned<Symbol>>,
        span: TextSpan,
        leaves: bool,
    ) -> (result: Option<usize>)
        ensures
            (final(self)@, *final(ctx), result) == old(self)@.jump_target(
                *old(ctx),
                label,
                span,
                leaves,
            ),
    {
        proof {
            reveal(State::jump_target);
        }
        match label {
            Some(label) => match ctx.resolve_label(label.inner) {
                Some((scope_index, label_index)) => {
                    ctx.record_label_access(label_index, label.span);
                    Some(scope_index)
                },
                None => {
                    self.report(
                        report_undeclared_label(label.inner, ctx.resolve_context.at(label.span)),
                    );
                    None
                },
            },
            None => match ctx.get_closest_loop_block() {
                Some(scope_index) => Some(scope_index),
                None => {
                    if leaves {
                        self.report(report_break_outside_of_loop(ctx.resolve_context.at(span)));
                    } else {
                        self.report(
                            report_continue_outside_of_loop(ctx.resolve_context.at(span)),
                        );
                    }
                    None
                },
            },
        }
    }

    /// `continue`, to the labelled loop or the closest one.
    pub fn build_continue_expression(
        &mut self,
        ctx: &mut ExprContext,
        label: Option<Spanned<Symbol>>,
        span: TextSpan,
    ) -> (result: Expression)
        ensures
            (final(self)@, *final(ctx), result) == old(self)@.build_continue_expression(
                *old(ctx),
                label,
                span,
            ),
    {
        proof {
            reveal(State::build_continue_expression);
        }
        let target = self.jump_target(ctx, label, span, false);
        match target {
            Some(scope_index) => typed(ExprKind::Continue { scope_index }, ty::NEVER, span),
            None => poisoned_as(ty::NEVER, span),
        }
    }

    /// The value that a scope is left with, with the type that the scope's values
    /// have. A number literal needs a type from somewhere.
    pub fn settle_jump_value(
        &mut self,
        ctx: &mut ExprContext,
        scope_index: usize,
        value: Expression,
    ) -> (result: Option<Expression>)
        ensures
            (final(self)@, *final(ctx), result) == old(self)@.settle_jump_value(
                *old(ctx),
                scope_index,
                value,
            ),
    {
        proof {
            reveal(State::settle_jump_value);
        }
        let span = ctx.resolve_context.at(value.span);
        let inferred = self.infer_block_type(
            ctx.inferred_type(scope_index),
            ctx.expected_type(scope_index),
            value.ty,
            span,
        )?;
        ctx.set_inferred_type(scope_index, inferred);
        if ty::is_comptime_number(value.ty) && ty::is_comptime_number(inferred) {
            self.report(report_type_annotation_required(span));
            return None;
        }
        self.settle_literal(ctx, value, inferred)
    }

    /// `break` without a value.
    pub fn finish_plain_break(
        &mut self,
        ctx: &mut ExprContext,
        scope_index: usize,
        span: TextSpan,
    ) -> (result: Expression)
        ensures
            (final(self)@, *final(ctx), result) == old(self)@.finish_plain_break(
                *old(ctx),
                scope_index,
                span,
            ),
    {
        proof {
            reveal(State::finish_plain_break);
        }
        let inferred: TypeIndex = ctx.inferred_type(scope_index);
        if inferred != ty::INFER {
            let _fits = self.check_coercible(ty::UNIT, inferred, ctx.resolve_context.at(span));
        } else {
            ctx.set_inferred_type(scope_index, ty::UNIT);
        }
        typed(ExprKind::Break { scope_index, value: None }, ty::NEVER, span)
    }

    /// `return` with a value: one of the function's type.
    pub fn finish_return(
        &mut self,
        ctx: &mut ExprContext,
        value: Expression,
        span: TextSpan,
    ) -> (result: Option<Expression>)
        ensures
            (final(self)@, *final(ctx), result) == old(self)@.finish_return(
                *old(ctx),
                value,
                span,
            ),
    {
        proof {
            reveal(State::finish_return);
        }
        let value = self.settle_jump_value(ctx, 0, value)?;
        let expected: TypeIndex = ctx.expected_type(0);
        if expected != ty::INFER {
            let fits = self.check_coercible(
                ctx.inferred_type(0),
                expected,
                ctx.resolve_context.at(value.span),
            );
            if !fits {
                return None;
            }
        }
        Some(typed(ExprKind::Return { value: Some(Box::new(value)) }, ty::NEVER, span))
    }

    /// `return` without a value. It settles the type of the scope that it stands
    /// in; in a scope of which that type is expected it is reported.
    pub fn finish_plain_return(
        &mut self,
        ctx: &mut ExprContext,
        span: TextSpan,
    ) -> (result: Option<Expression>)
        ensures
            (final(self)@, *final(ctx), result) == old(self)@.finish_plain_return(
                *old(ctx),
                span,
            ),
    {
        proof {
            reveal(State::finish_plain_return);
        }
        let index: usize = ctx.scope_index;
        let inferred: TypeIndex = ty::infer_or(ctx.inferred_type(index), ty::UNIT);
        ctx.set_inferred_type(index, inferred);
        let expected: TypeIndex = ctx.expected_type(index);
        if expected != ty::INFER {
            let fits = self.coercible_to(inferred, expected);
            if fits {
                self.report(
                    report_type_mistmatch(expected, inferred, ctx.resolve_context.at(span)),
                );
                return None;
            }
        }
        Some(typed(ExprKind::Return { value: None }, ty::NEVER, span))
    }

    /// An `if` without `else`: a `()`, whose block has no value either.
    pub fn finish_if(
        &mut self,
        context: ResolveContext,
        condition: Expression,
        then_block: Expression,
        span: TextSpan,
    ) -> (result: Option<Expression>)
        ensures
            (final(self)@, result) == old(self)@.finish_if(context, condition, then_block, span),
    {
        proof {
            reveal(State::finish_if);
        }
        if then_block.ty == ty::UNIT || then_block.ty == ty::NEVER {
            return Some(if_expression(condition, then_block, None, ty::UNIT, span));
        }
        self.report(report_missing_else_block(then_block.ty, context.at(then_block.span)));
        None
    }

    /// An `if` with `else`: its two blocks have one type. A number literal takes
    /// the type of the other block.
    pub fn finish_if_else(
        &mut self,
        ctx: &mut ExprContext,
        condition: Expression,
        then_block: Expression,
        else_block: Expression,
        span: TextSpan,
    ) -> (result: Option<Expression>)
        ensures
            (final(self)@, *final(ctx), result) == old(self)@.finish_if_else(
                *old(ctx),
                condition,
                then_block,
                else_block,
                span,
            ),
    {
        proof {
            reveal(State::finish_if_else);
        }
        let then_ty: TypeIndex = then_block.ty;
        let else_ty: TypeIndex = else_block.ty;
        let then_block = self.settle_arm(ctx, then_block, else_ty)?;
        let else_block = self.settle_arm(ctx, else_block, then_ty)?;
        let unified = self.unify(then_block.ty, else_block.ty);
        match unified {
            Some(ty) => Some(if_expression(condition, then_block, Some(else_block), ty, span)),
            None => {
                self.report(
                    report_type_mistmatch(
                        then_block.ty,
                        else_block.ty,
                        ctx.resolve_context.at(else_block.span),
                    ),
                );
                None
            },
        }
    }

    /// The match, once its arms are built: they have one type and cover every
    /// value.
    pub fn finish_match(
        &mut self,
        ctx: &mut ExprContext,
        scrutinee: Expression,
        arms: List<MatchArm>,
        span: TextSpan,
    ) -> (result: Option<Expression>)
        ensures
            (final(self)@, *final(ctx), result) == old(self)@.finish_match(
                *old(ctx),
                scrutinee,
                arms,
                span,
            ),
    {
        proof {
            reveal(State::finish_match);
        }
        let file_id: FileId = ctx.resolve_context.file_id;
        self.report_unreachable_arms(file_id, &arms, &List::Nil);
        let target: TypeIndex = first_typed_arm(&arms, first_arm_type(&arms));
        let (arms, ty) = self.unify_arms(ctx, arms, target, target)?;
        let exhaustive = self.check_match_exhaustiveness(file_id, scrutinee.ty, &arms, span);
        if !exhaustive {
            return None;
        }
        Some(typed(ExprKind::Match { scrutinee: Box::new(scrutinee), arms }, ty, span))
    }

    /// The struct that a type is, with its type arguments.
    pub fn struct_type(&self, index: TypeIndex) -> (result: Option<(usize, List<TypeIndex>)>)
        ensures
            result == self@.struct_type(index),
    {
        match self.ty(index) {
            Type::Struct { struct_index, args } => Some((struct_index, args)),
            _ => None,
        }
    }

    /// A field's value, if it goes into the field.
    pub fn fit_field_value(
        &mut self,
        ctx: &mut ExprContext,
        value: Expression,
        expected: TypeIndex,
    ) -> (result: Option<Expression>)
        ensures
            (final(self)@, *final(ctx), result) == old(self)@.fit_field_value(
                *old(ctx),
                value,
                expected,
            ),
    {
        proof {
            reveal(State::fit_field_value);
        }
        if ty::is_comptime_number(value.ty) {
            return self.settle_literal(ctx, value, expected);
        }
        let fits = self.check_coercible(value.ty, expected, ctx.resolve_context.at(value.span));
        if fits {
            Some(value)
        } else {
            None
        }
    }

    /// The struct literal, once its fields are built. Fields without a mention
    /// are reported.
    pub fn finish_struct_init(
        &mut self,
        context: ResolveContext,
        struct_index: usize,
        name: Symbol,
        args: List<TypeIndex>,
        mentions: &List<Option<TextSpan>>,
        slots: List<Option<Expression>>,
        span: TextSpan,
    ) -> (result: Expression)
        ensures
            (final(self)@, result) == old(self)@.finish_struct_init(
                context,
                struct_index,
                name,
                args,
                mentions,
                slots,
                span,
            ),
    {
        proof {
            reveal(State::finish_struct_init);
        }
        let missing = self.missing_struct_fields(struct_index, mentions);
        if !missing.is_empty() {
            self.report(report_missing_struct_fields(name, &missing, context.at(span)));
        }
        let ty: TypeIndex = self.intern_type(Type::Struct { struct_index, args });
        typed(ExprKind::StructInit { struct_index, fields: field_values(slots) }, ty, span)
    }

    /// The types that are expected of the elements of a tuple of that size.
    pub fn tuple_types(
        &self,
        expected: TypeIndex,
        count: usize,
    ) -> (result: Option<List<TypeIndex>>)
        ensures
            result == self@.tuple_types(expected, count),
    {
        match self.ty(expected) {
            Type::Tuple { elements } => if elements.len() == count {
                Some(elements)
            } else {
                None
            },
            _ => None,
        }
    }

    /// An element of a tuple: a number literal takes the expected type, if there
    /// is one and it fits.
    pub fn settle_element(
        &mut self,
        ctx: &mut ExprContext,
        element: Expression,
        expected: TypeIndex,
    ) -> (result: Expression)
        ensures
            (final(self)@, *final(ctx), result) == old(self)@.settle_element(
                *old(ctx),
                element,
                expected,
            ),
    {
        if ty::is_comptime_number(element.ty) && expected != ty::INFER {
            let (element, _) = self.coerce_untyped_expr(ctx, element, expected);
            return element;
        }
        element
    }

    /// The tuple of its elements; without elements where one failed.
    pub fn finish_tuple(
        &mut self,
        elements: List<Expression>,
        failed: bool,
        span: TextSpan,
    ) -> (result: Expression)
        ensures
            (final(self)@, result) == old(self)@.finish_tuple(elements, failed, span),
    {
        proof {
            reveal(State::finish_tuple);
        }
        let ty: TypeIndex = self.intern_type(
            Type::Tuple { elements: expression_types(&elements) },
        );
        if failed {
            return typed(ExprKind::TupleInit { elements: List::Nil }, ty, span);
        }
        typed(ExprKind::TupleInit { elements }, ty, span)
    }

    /// What an expected type says of an array literal.
    pub fn expected_array(&self, expected: TypeIndex) -> (result: ExpectedArray)
        ensures
            result == self@.expected_array(expected),
    {
        match self.ty(expected) {
            Type::Array { of, size, memory, mutable } => {
                ExpectedArray { of, size: Some(size), memory: Some(memory), mutable }
            },
            _ => ExpectedArray { of: ty::INFER, size: None, memory: None, mutable: false },
        }
    }

    /// Whether an array has the expected size; another one is reported.
    pub fn check_array_size(
        &mut self,
        expected: Option<u32>,
        size: u32,
        count: usize,
        span: SourceSpan,
    ) -> (result: bool)
        ensures
            (final(self)@, result) == old(self)@.check_array_size(expected, size, count, span),
    {
        proof {
            reveal(State::check_array_size);
        }
        match expected {
            Some(expected) => {
                if size != expected {
                    self.report(report_array_size_mismatch(expected, count, span));
                    return false;
                }
                true
            },
            None => true,
        }
    }

    /// The type of the elements of an array literal: that of the first one, which
    /// all must have, or the expected one where there are none.
    pub fn element_type(
        &mut self,
        context: ResolveContext,
        elements: &List<Expression>,
        expected: TypeIndex,
        span: TextSpan,
    ) -> (result: Option<TypeIndex>)
        ensures
            (final(self)@, result) == old(self)@.element_type(context, elements, expected, span),
    {
        proof {
            reveal(State::element_type);
        }
        match elements {
            List::Cons(first, rest) => {
                let same = self.check_same_type(context.file_id, rest, first.ty);
                if same {
                    Some(first.ty)
                } else {
                    None
                }
            },
            List::Nil => {
                if expected != ty::INFER {
                    return Some(expected);
                }
                self.report(report_type_annotation_required(context.at(span)));
                None
            },
        }
    }

    /// An index: a value of the type of a memory's addresses. Another type is
    /// reported.
    pub fn settle_index(
        &mut self,
        ctx: &mut ExprContext,
        index: Expression,
        index_type: TypeIndex,
    ) -> (result: Option<Expression>)
        ensures
            (final(self)@, *final(ctx), result) == old(self)@.settle_index(
                *old(ctx),
                index,
                index_type,
            ),
    {
        proof {
            reveal(State::settle_index);
        }
        if ty::is_comptime_number(index.ty) {
            return self.settle_literal(ctx, index, index_type);
        }
        if index.ty != index_type {
            self.report(
                report_type_mistmatch(index_type, index.ty, ctx.resolve_context.at(index.span)),
            );
        }
        Some(index)
    }

    /// A bound of a range: a value of the type of a memory's addresses. Another
    /// type is reported, and there is no range then.
    pub fn settle_range_bound(
        &mut self,
        ctx: &mut ExprContext,
        bound: Expression,
        index_type: TypeIndex,
        span: TextSpan,
    ) -> (result: Option<Expression>)
        ensures
            (final(self)@, *final(ctx), result) == old(self)@.settle_range_bound(
                *old(ctx),
                bound,
                index_type,
                span,
            ),
    {
        proof {
            reveal(State::settle_range_bound);
        }
        if ty::is_comptime_number(bound.ty) {
            return self.settle_literal(ctx, bound, index_type);
        }
        if bound.ty != index_type {
            self.report(
                report_type_mistmatch(index_type, bound.ty, ctx.resolve_context.at(span)),
            );
            return None;
        }
        Some(bound)
    }

    /// An argument of a call, checked against the parameter's type. What does not
    /// fit is reported, and the argument kept.
    pub fn settle_argument(
        &mut self,
        ctx: &mut ExprContext,
        argument: Expression,
        expected: TypeIndex,
    ) -> (result: Expression)
        ensures
            (final(self)@, *final(ctx), result) == old(self)@.settle_argument(
                *old(ctx),
                argument,
                expected,
            ),
    {
        proof {
            reveal(State::settle_argument);
        }
        let span = ctx.resolve_context.at(argument.span);
        if expected == ty::INFER {
            if ty::is_comptime_number(argument.ty) {
                self.report(report_type_annotation_required(span));
            }
            return argument;
        }
        if ty::is_comptime_number(argument.ty) {
            let (argument, _) = self.coerce_untyped_expr(ctx, argument, expected);
            return argument;
        }
        let _fits = self.check_coercible(argument.ty, expected, span);
        argument
    }

    /// The type that is expected of an argument for a parameter, for the type
    /// arguments known so far; to be inferred where they do not tell it whole.
    pub fn argument_expectation(
        &mut self,
        param: Option<TypeIndex>,
        type_args: &List<TypeIndex>,
    ) -> (result: TypeIndex)
        ensures
            (final(self)@, result) == old(self)@.argument_expectation(param, type_args),
    {
        proof {
            reveal(State::argument_expectation);
        }
        match param {
            Some(param) => {
                let expected: TypeIndex = self.substitute_expected_type(param, type_args);
                if self.contains_infer(expected) {
                    ty::INFER
                } else {
                    expected
                }
            },
            None => ty::INFER,
        }
    }

    /// The type arguments as far as the type of one argument tells them.
    pub fn infer_from_argument(
        &self,
        type_args: List<TypeIndex>,
        param: Option<TypeIndex>,
        actual: TypeIndex,
    ) -> (result: List<TypeIndex>)
        ensures
            result == self@.infer_from_argument(type_args, param, actual),
    {
        match param {
            Some(param) => self.infer_type_args(type_args, param, actual),
            None => type_args,
        }
    }

    /// The type arguments as far as the expected type of a call tells them.
    pub fn infer_from_expected(
        &self,
        type_args: List<TypeIndex>,
        call_result: TypeIndex,
        expected: TypeIndex,
    ) -> (result: List<TypeIndex>)
        ensures
            result == self@.infer_from_expected(type_args, call_result, expected),
    {
        if expected == ty::INFER {
            return type_args;
        }
        self.infer_type_args(type_args, call_result, expected)
    }

    /// Reports a callee that is no function, unless it was reported before.
    pub fn report_invalid_callee(&mut self, callee: TypeIndex, block_like: bool, span: SourceSpan)
        ensures
            final(self)@ == old(self)@.report_invalid_callee(callee, block_like, span),
    {
        proof {
            reveal(State::report_invalid_callee);
        }
        if callee == ty::ERROR {
            return ;
        }
        if block_like {
            self.report(
                report_call_requires_function(callee, span).with_note(
                    text("consider using a semicolon here to finish the statement: `;`"),
                ),
            );
        } else {
            self.report(report_call_requires_function(callee, span));
        }
    }

    /// What a cast makes of a value: a number literal takes the type, and a value
    /// that is held the same way changes it. Any other cast is reported.
    pub fn finish_cast(
        &mut self,
        ctx: &mut ExprContext,
        value: Expression,
        target: TypeIndex,
        span: TextSpan,
    ) -> (result: Option<Expression>)
        ensures
            (final(self)@, *final(ctx), result) == old(self)@.finish_cast(
                *old(ctx),
                value,
                target,
                span,
            ),
    {
        proof {
            reveal(State::finish_cast);
        }
        if ty::is_comptime_number(value.ty) {
            return self.settle_literal(ctx, value, target);
        }
        if self.are_scalar_compatible(value.ty, target) {
            return Some(typed(value.kind, target, value.span));
        }
        self.report(report_invalid_cast(value.ty, target, ctx.resolve_context.at(span)));
        Some(value)
    }

    /// The type that a cast goes to: the written one, or the expected one for
    /// `_`. `None` where there is none.
    pub fn cast_target(
        &mut self,
        written: TypeIndex,
        expected: TypeIndex,
        span: SourceSpan,
    ) -> (result: Option<TypeIndex>)
        ensures
            (final(self)@, result) == old(self)@.cast_target(written, expected, span),
    {
        proof {
            reveal(State::cast_target);
        }
        if written == ty::ERROR {
            return None;
        }
        if written != ty::INFER {
            return Some(written);
        }
        if expected == ty::INFER {
            self.report(report_type_annotation_required(span));
            return None;
        }
        Some(expected)
    }

    /// The value that a pointer points at.
    pub fn finish_deref(
        &mut self,
        context: ResolveContext,
        access_kind: AccessKind,
        pointer: Expression,
        span: TextSpan,
    ) -> (result: Option<Expression>)
        ensures
            (final(self)@, result) == old(self)@.finish_deref(
                context,
                access_kind,
                pointer,
                span,
            ),
    {
        proof {
            reveal(State::finish_deref);
        }
        match self.ty(pointer.ty) {
            Type::Pointer { to, memory, mutable } => {
                self.check_writable(access_kind, mutable, context.at(span));
                Some(
                    load_expression(
                        PlaceKind::Deref { pointer: Box::new(pointer) },
                        to,
                        memory,
                        mutable,
                        span,
                    ),
                )
            },
            _ => {
                self.report(
                    report_cannot_deref_non_pointer(pointer.ty, context.at(pointer.span)),
                );
                None
            },
        }
    }

    /// The address of a place in memory. What is in no memory has none; a mutable
    /// address of a place that cannot be written is reported.
    pub fn finish_address_of(
        &mut self,
        context: ResolveContext,
        operand: Expression,
        mutable: bool,
        span: TextSpan,
    ) -> (result: Option<Expression>)
        ensures
            (final(self)@, result) == old(self)@.finish_address_of(
                context,
                operand,
                mutable,
                span,
            ),
    {
        proof {
            reveal(State::finish_address_of);
        }
        match operand.kind {
            ExprKind::Load { place } => {
                if mutable && !place.mutable {
                    self.report(
                        report_cannot_take_mutable_address_of_immutable(context.at(span)),
                    );
                }
                let ty: TypeIndex = self.intern_type(
                    Type::Pointer { to: place.ty, memory: place.memory, mutable },
                );
                Some(typed(ExprKind::AddressOf { place, mutable }, ty, span))
            },
            _ => {
                self.report(report_cannot_take_address_of_value(context.at(operand.span)));
                None
            },
        }
    }

    /// The expression that a name without `::` stands for.
    pub fn build_name_expression(
        &mut self,
        ctx: &mut ExprContext,
        access: AccessContext,
        name: Symbol,
        span: TextSpan,
    ) -> (result: Expression)
        ensures
            (final(self)@, *final(ctx), result) == old(self)@.build_name_expression(
                *old(ctx),
                access,
                name,
                span,
            ),
    {
        proof {
            reveal(State::build_name_expression);
        }
        match self.resolve_symbol(&*ctx, name) {
            Some(resolved) => self.resolved_symbol_to_expression(ctx, access, resolved, span),
            None => {
                self.report(report_undeclared_identifier(ctx.resolve_context.at(span)));
                poisoned_as(ty::infer_or(access.expected_type, ty::ERROR), span)
            },
        }
    }

    /// The character literal; one that is empty or too long is reported.
    pub fn build_char_expression(
        &mut self,
        context: ResolveContext,
        raw: &String,
        span: TextSpan,
    ) -> (result: Option<Expression>)
        ensures
            (final(self)@, result) == old(self)@.build_char_expression(context, raw, span),
    {
        proof {
            reveal(State::build_char_expression);
        }
        match char_value(raw) {
            Ok(value) => Some(typed(ExprKind::Char { value }, ty::CHAR, span)),
            Err(CharLiteralError::Empty) => {
                self.report(report_empty_char_literal(context.at(span)));
                None
            },
            Err(CharLiteralError::TooLong) => {
                self.report(report_char_literal_too_long(context.at(span)));
                None
            },
        }
    }

    /// A function by its name alone.
    pub fn visible_function(
        &self,
        namespace: Option<usize>,
        name: Symbol,
    ) -> (result: Option<usize>)
        ensures
            result == self@.visible_function(namespace, name),
    {
        match self.lookup_global_symbol(namespace, SymbolNamespace::Value, name) {
            Some(SymbolKind::Function { func_index }) => Some(func_index),
            _ => None,
        }
    }

    /// The expression that a function is, with the arguments for its type
    /// parameters and its use recorded.
    pub fn function_reference(
        &mut self,
        func_index: usize,
        type_args: List<TypeIndex>,
        used_at: SourceSpan,
        span: TextSpan,
    ) -> (result: Expression)
        ensures
            (final(self)@, result) == old(self)@.function_reference(
                func_index,
                type_args,
                used_at,
                span,
            ),
    {
        proof {
            reveal(State::function_reference);
        }
        self.access(AccessTarget::Function(func_index), used_at);
        let (_, _, id) = self.function_identity(func_index);
        let ty: TypeIndex = self.intern_type(Type::FunctionItem { id, type_args });
        typed(ExprKind::Function { id }, ty, span)
    }

    /// Reports type arguments that are not as many as a function has parameters
    /// for, where any are written.
    pub fn check_type_arg_count(&mut self, expected: usize, found: usize, span: SourceSpan)
        ensures
            final(self)@ == old(self)@.check_type_arg_count(expected, found, span),
    {
        if found != 0 && found != expected {
            self.report(report_wrong_type_arg_count(expected, found, span));
        }
    }
}

} // verus!
