//! Patterns: which names a pattern binds to which parts of a value, and what
//! is reported of one that does not match.

use vstd::prelude::*;

use crate::ast;
use crate::bindings;
use crate::failures::more_is_reported;
use crate::growth;
use crate::list::List;
use crate::rules::names::law_defined_local_reads_back;
use crate::rules::values::law_missing_fields;
use crate::scope::ExprContext;
use crate::span::{DefId, SourceSpan, Spanned, Symbol, TextSpan};
use crate::state::State;
use crate::tir::{
    ExprKind, Expression, Local, PathStep, PatternBinding, ResolveContext,
};
use crate::ty;
use crate::types::{Type, TypeIndex};

verus! {

proof fn pushed_last<T>(list: List<T>, last: T)
    ensures
        list.snoc(last).at(list.count()) == Some(last),
        list.snoc(last).count() == list.count() + 1,
        forall|i: nat| i < list.count() ==> #[trigger] list.snoc(last).at(i) == list.at(i),
    decreases list,
{
    match list {
        List::Nil => {},
        List::Cons(_, rest) => {
            pushed_last(*rest, last);
            assert forall|i: nat| i < list.count() implies #[trigger] list.snoc(last).at(i)
                == list.at(i) by {
                if i > 0 {
                    assert(list.snoc(last).at(i) == rest.snoc(last).at((i - 1) as nat));
                }
            }
        },
    }
}

/// The way to a part of a value is the way to the value and one step more.
pub proof fn law_way_to_a_part(route: List<PathStep>, aggregate_ty: TypeIndex, index: usize)
    ensures
        ({
            let longer = bindings::longer_route(&route, aggregate_ty, index);
            &&& longer.count() == route.count() + 1
            &&& longer.at(route.count()) == Some(PathStep { aggregate_ty, index })
            &&& forall|i: nat| i < route.count() ==> #[trigger] longer.at(i) == route.at(i)
        }),
{
    pushed_last(route, PathStep { aggregate_ty, index });
}

/// A name in a pattern becomes a local of the type of the part that it stands
/// for, and the last of the bindings says which local and which way.
pub proof fn law_bound_name<'ast>(
    s: State<'ast>,
    ctx: ExprContext,
    name: Spanned<Symbol>,
    mut_span: Option<TextSpan>,
    of: TypeIndex,
    route: List<PathStep>,
    bound: List<PatternBinding>,
)
    requires
        ctx.scope_at(ctx.scope_index) is Some,
        ctx.scope_at(ctx.scope_index)->0.locals.count() <= usize::MAX,
    ensures
        ({
            let (t, later, all) = s.bind_name(ctx, name, mut_span, of, &route, bound);
            &&& t == s
            &&& all.count() == bound.count() + 1
            &&& all.at(bound.count()) matches Some(last) && last.path == route && later.local_at(
                last.scope_index,
                last.local_index,
            ) == Some(Local { name, ty: of, mut_span, accesses: List::Nil })
            &&& forall|i: nat| i < bound.count() ==> #[trigger] all.at(i) == bound.at(i)
        }),
{
    reveal(State::bind_name);
    law_defined_local_reads_back(ctx, Local { name, ty: of, mut_span, accesses: List::Nil });
    pushed_last(
        bound,
        PatternBinding {
            scope_index: ctx.scope_index,
            local_index: ctx.next_local(),
            path: route,
        },
    );
}

/// `_` binds nothing, and `()` matches the unit value without binding
/// anything. A name binds the whole value.
pub proof fn law_plain_patterns<'ast>(
    s: State<'ast>,
    ctx: ExprContext,
    pattern: Spanned<ast::Pattern>,
    of: TypeIndex,
    route: List<PathStep>,
    bound: List<PatternBinding>,
    pending: spec_fn(State<'ast>, DefId) -> State<'ast>,
)
    ensures
        ({
            let found = s.collect_pattern_bindings(ctx, &pattern, of, &route, bound, pending);
            match pattern.inner {
                ast::Pattern::Wildcard => found == (s, ctx, bound),
                ast::Pattern::Binding { mut_span, name } => found == s.bind_name(
                    ctx,
                    name,
                    mut_span,
                    of,
                    &route,
                    bound,
                ),
                ast::Pattern::Tuple { elements } => of == ty::UNIT && elements is Nil ==> found == (
                    s,
                    ctx,
                    bound,
                ),
                _ => true,
            }
        }),
{
}

/// A tuple pattern for a value that is no tuple, or a tuple of another size,
/// is reported, unless the value is poisoned.
pub proof fn law_tuple_pattern_must_match<'ast>(
    s: State<'ast>,
    ctx: ExprContext,
    pattern: Spanned<ast::Pattern>,
    elements: List<Spanned<ast::Pattern>>,
    of: TypeIndex,
    route: List<PathStep>,
    bound: List<PatternBinding>,
    pending: spec_fn(State<'ast>, DefId) -> State<'ast>,
)
    requires
        growth::resolver_adds(pending),
        pattern.inner == (ast::Pattern::Tuple { elements }),
        of != ty::ERROR,
        !(of == ty::UNIT && elements is Nil),
        !(s.ty(of) matches Type::Tuple { elements: types } && types.len() == elements.len()),
    ensures
        more_is_reported(
            s,
            s.collect_pattern_bindings(ctx, &pattern, of, &route, bound, pending).0,
        ),
{
    let span = ctx.resolve_context.at(pattern.span);
    let t = match s.ty(of) {
        Type::Tuple { elements: types } => s.report(
            crate::reports::report_tuple_pattern_arity(elements.len(), of, types.len(), span),
        ),
        _ => s.report(crate::reports::report_tuple_pattern_mismatch(of, span)),
    };
    t.adds_bind_poisoned_elements(ctx, &elements, &route, bound, pending);
    reveal(State::report);
    reveal(State::only_adds);
    reveal(State::grows_to);
}

/// Each element of a tuple pattern is matched with the element of the value at
/// its position, one after the other.
pub proof fn law_elements_of_a_tuple_pattern<'ast>(
    s: State<'ast>,
    ctx: ExprContext,
    element: Spanned<ast::Pattern>,
    elements: List<Spanned<ast::Pattern>>,
    element_ty: TypeIndex,
    types: List<TypeIndex>,
    of: TypeIndex,
    index: usize,
    route: List<PathStep>,
    bound: List<PatternBinding>,
    pending: spec_fn(State<'ast>, DefId) -> State<'ast>,
)
    requires
        index < usize::MAX,
    ensures
        ({
            let (t, later, first) = s.collect_pattern_bindings(
                ctx,
                &element,
                element_ty,
                &bindings::longer_route(&route, of, index),
                bound,
                pending,
            );
            s.bind_tuple_elements(
                ctx,
                &crate::list::cons(element, elements),
                &crate::list::cons(element_ty, types),
                of,
                index,
                &route,
                bound,
                pending,
            ) == t.bind_tuple_elements(
                later,
                &elements,
                &types,
                of,
                (index + 1) as usize,
                &route,
                first,
                pending,
            )
        }),
{
    reveal_with_fuel(State::bind_tuple_elements, 2);
}

/// The struct of a struct pattern is that of the value; a pattern that names
/// another struct, or is for a value that is no struct, does not match.
pub proof fn law_struct_of_a_pattern<'ast>(s: State<'ast>, of: TypeIndex, named: Option<usize>)
    ensures
        match s.ty(of) {
            Type::Struct { struct_index, args } => if named is None || named == Some(struct_index) {
                s.matching_struct(of, named) == Some((struct_index, args))
            } else {
                s.matching_struct(of, named) is None
            },
            _ => s.matching_struct(of, named) is None,
        },
{
}

/// A struct pattern that does not match is reported, unless the value is
/// poisoned.
pub proof fn law_struct_pattern_must_match<'ast>(s: State<'ast>, of: TypeIndex, span: SourceSpan)
    ensures
        of == ty::ERROR ==> s.report_struct_pattern(of, span) == s,
        of != ty::ERROR ==> more_is_reported(s, s.report_struct_pattern(of, span)),
{
    reveal(State::report_struct_pattern);
    reveal(State::report);
}

/// A struct pattern that leaves out a field is reported, and one that mentions
/// them all is not.
pub proof fn law_fields_of_a_struct_pattern<'ast>(
    s: State<'ast>,
    struct_index: usize,
    name: Symbol,
    mentions: List<Option<TextSpan>>,
    span: SourceSpan,
)
    requires
        struct_index < s.structs.len(),
        s.structs[struct_index as int].fields.count() == mentions.count(),
    ensures
        ({
            let t = s.report_missing_pattern_names(struct_index, name, &mentions, span);
            let complete = forall|i: nat|
                (#[trigger] mentions.at(i)) matches Some(mention) ==> mention is Some;
            &&& complete ==> t == s
            &&& !complete ==> more_is_reported(s, t)
        }),
{
    reveal(State::report);
    law_missing_fields(s.structs[struct_index as int].fields, mentions);
}

/// A field is noted where it is mentioned first; a second mention is reported.
pub proof fn law_mention_of_a_field<'ast>(
    s: State<'ast>,
    context: ResolveContext,
    name: Spanned<Symbol>,
    index: usize,
    mentions: List<Option<TextSpan>>,
)
    requires
        mentions.at(index as nat) is Some,
    ensures
        ({
            let (t, noted) = s.mention_field(context, name, index, mentions);
            &&& mentions.at(index as nat)->0 is Some ==> more_is_reported(s, t) && noted == mentions
            &&& mentions.at(index as nat)->0 is None ==> t == s && noted.at(index as nat) == Some(
                Some(name.span),
            )
            &&& forall|other: nat|
                other != index ==> #[trigger] noted.at(other) == mentions.at(other)
        }),
{
    reveal(State::mention_field);
    reveal(State::report);
    set_at(mentions, index as nat, Some(name.span));
}

proof fn set_at<T>(list: List<T>, index: nat, value: T)
    ensures
        list.at(index) is Some ==> list.replaced(index, value).at(index) == Some(value),
        forall|other: nat|
            other != index ==> #[trigger] list.replaced(index, value).at(other) == list.at(other),
    decreases list,
{
    match list {
        List::Nil => {},
        List::Cons(_, rest) => {
            if index > 0 {
                set_at(*rest, (index - 1) as nat, value);
            }
            assert forall|other: nat| other != index implies #[trigger] list.replaced(
                index,
                value,
            ).at(other) == list.at(other) by {
                if other > 0 && index > 0 {
                    assert(list.replaced(index, value).at(other) == rest.replaced(
                        (index - 1) as nat,
                        value,
                    ).at((other - 1) as nat));
                }
            }
        },
    }
}

/// `let` with a name defines a local of the value's type and keeps the value.
/// The statement itself has no value, and never ends where the value never
/// comes.
pub proof fn law_defined_local<'ast>(
    s: State<'ast>,
    ctx: ExprContext,
    pattern: Spanned<ast::Pattern>,
    of: TypeIndex,
    value: Expression,
    span: TextSpan,
    pending: spec_fn(State<'ast>, DefId) -> State<'ast>,
)
    requires
        ctx.scope_at(ctx.scope_index) is Some,
        ctx.scope_at(ctx.scope_index)->0.locals.count() <= usize::MAX,
    ensures
        ({
            let (t, later, built) = s.define_locals(ctx, &pattern, of, value, span, pending);
            &&& built.ty == (if of == ty::NEVER {
                ty::NEVER
            } else {
                ty::UNIT
            })
            &&& match pattern.inner {
                ast::Pattern::Binding { mut_span, name } => {
                    &&& t == s
                    &&& built.kind matches ExprKind::LocalDeclaration {
                        name: n,
                        scope_index,
                        local_index,
                        value: kept,
                    } && n == name && *kept == value && later.local_at(scope_index, local_index)
                        == Some(Local { name, ty: of, mut_span, accesses: List::Nil })
                },
                ast::Pattern::Wildcard => {
                    &&& t == s && later == ctx
                    &&& built.kind matches ExprKind::Assign { left: _, right } && *right == value
                },
                _ => built.kind matches ExprKind::DestructureDeclaration { value: kept, bindings: _ }
                    && *kept == value,
            }
        }),
{
    match pattern.inner {
        ast::Pattern::Binding { mut_span, name } => {
            law_defined_local_reads_back(
                ctx,
                Local { name, ty: of, mut_span, accesses: List::Nil },
            );
        },
        _ => {},
    }
}

} // verus!
