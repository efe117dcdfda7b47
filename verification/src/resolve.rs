//! Types and bounds as they are written, resolved to types and bounds of the
//! program. A name whose definition is not resolved yet is resolved on
//! demand; `depth` is how many definitions may still be under way inside one
//! another.

use vstd::prelude::*;

use crate::ast;
use crate::ast::{
    BindingExpression, BoundExpression, Param, PathSegment, TypeExpression, TypeParam,
    WhereBinding,
};
use crate::list::{cons, single, List};
use crate::lookup;
use crate::lookup::{insert_binding, join_traits, TypeArgArity};
use crate::members::MemberLookup;
use crate::reports::{
    report_ambiguous_pointer_memory, report_bare_assoc_type, report_cannot_mutate_immutable,
    report_cyclic_type_dependency, report_duplicate_parameter, report_expected_bound,
    report_expected_module, report_expected_single_trait, report_infer_in_signature,
    report_invalid_self_type, report_memory_prefix, report_multiple_typesets,
    report_no_member_type, report_no_memory_for_pointer, report_not_a_memory,
    report_trait_as_type, report_type_args_not_supported, report_typeset_bindings,
    report_undeclared_type, report_unknown_bound,
};
use crate::scope::{next_index, ExprContext};
use crate::shape::{spanned, typed};
use crate::signatures;
use crate::span::{DefId, SourceSpan, Spanned, Symbol, TextSpan};
use crate::state;
use crate::state::{vec_at, Builder, State};
use crate::substitute;
use crate::substitute::find_member;
use crate::tir::{
    AccessContext, AccessKind, AccessTarget, AssocBinding, AssocBindingKind, Bounds, ExprKind,
    Expression, FunctionParam, GenericScope, Global, ImplEntry, Local, LocalAccess,
    ResolveContext, SymbolKind, SymbolNamespace, Trait, TraitBound, TypeSet,
};
use crate::ty;
use crate::types::{FunctionSignature, Type, TypeIndex, TypeParamOwner};

verus! {

/// What a bound names.
#[derive(Clone, Copy, Debug, PartialEq, Eq, Structural)]
pub enum BoundKind {
    Trait(usize),
    TypeSet(usize),
}

/// What a name without `::` stands for in an expression.
#[allow(inconsistent_fields)]
#[derive(Clone, Copy, Debug, PartialEq, Eq, Structural)]
pub enum ResolvedSymbol {
    Local { scope_index: usize, local_index: usize },
    Global(SymbolKind),
}

/// The type, or the poison type where there is none.
#[verifier::allow_in_spec]
pub fn type_or_error(found: Option<TypeIndex>) -> (result: TypeIndex)
    returns
        (match found {
            Some(index) => index,
            None => ty::ERROR,
        }),
{
    match found {
        Some(index) => index,
        None => ty::ERROR,
    }
}

/// The place of the first parameter of that name.
pub open spec fn named_param_span(params: &List<FunctionParam>, name: Symbol) -> Option<TextSpan>
    decreases params,
{
    match params {
        List::Nil => None,
        List::Cons(param, rest) => {
            if param.name.inner == name {
                Some(param.name.span)
            } else {
                named_param_span(rest, name)
            }
        },
    }
}

/// The place of the first parameter of that name.
pub fn find_named_param(params: &List<FunctionParam>, name: Symbol) -> (result: Option<TextSpan>)
    ensures
        result == named_param_span(params, name),
    decreases params,
{
    match params {
        List::Nil => None,
        List::Cons(param, rest) => {
            if param.name.inner == name {
                Some(param.name.span)
            } else {
                find_named_param(rest, name)
            }
        },
    }
}

/// The span from the start of one to the end of the other.
pub open spec fn span_between(first: TextSpan, last: TextSpan) -> TextSpan {
    TextSpan { start: first.start, end: last.end }
}

/// The span from the start of one to the end of the other.
pub fn join_spans(first: TextSpan, last: TextSpan) -> (result: TextSpan)
    ensures
        result == span_between(first, last),
{
    TextSpan { start: first.start, end: last.end }
}

/// The place of the last segment of a path; the given one where there is
/// none.
pub open spec fn last_segment_span(path: &List<PathSegment>, span: TextSpan) -> TextSpan
    decreases path,
{
    match path {
        List::Nil => span,
        List::Cons(segment, rest) => last_segment_span(rest, segment.ident.span),
    }
}

/// The place of the last segment of a path; the given one where there is
/// none.
pub fn last_span(path: &List<PathSegment>, span: TextSpan) -> (result: TextSpan)
    ensures
        result == last_segment_span(path, span),
    decreases path,
{
    match path {
        List::Nil => span,
        List::Cons(segment, rest) => last_span(rest, segment.ident.span),
    }
}

/// The traits of both bounds; the typeset of the first that has one.
pub open spec fn joined_bounds(first: Bounds, second: Bounds) -> Bounds {
    let typeset = if first.typeset.is_some() {
        first.typeset
    } else {
        second.typeset
    };
    Bounds { traits: lookup::joined_traits(first.traits, second.traits), typeset }
}

/// The traits of both bounds; the typeset of the first that has one.
pub fn join_bounds(first: Bounds, second: Bounds) -> (result: Bounds)
    ensures
        result == joined_bounds(first, second),
{
    let typeset = if first.typeset.is_some() {
        first.typeset
    } else {
        second.typeset
    };
    Bounds { traits: join_traits(first.traits, second.traits), typeset }
}

impl<'ast> State<'ast> {
    /// The ids of the members of a trait.
    pub open spec fn trait_member_ids(self, trait_index: usize) -> List<DefId> {
        match state::seq_ref(self.traits, trait_index) {
            Some(declaration) => declaration.member_ids,
            None => List::Nil,
        }
    }

    /// Resolves the signatures of several definitions in order.
    pub open spec fn ensure_all(
        self,
        ids: &List<DefId>,
        pending: spec_fn(State<'ast>, DefId) -> State<'ast>,
    ) -> State<'ast>
        decreases 1int, ids, 0int,
    {
        match ids {
            List::Nil => self,
            List::Cons(id, rest) => {
                let s = self.ensure_pending(**id, pending);
                s.ensure_all(rest, pending)
            },
        }
    }

    /// Resolves the definition that a name stands for, seen from a namespace, if
    /// it is not resolved yet.
    pub open spec fn ensure_named(
        self,
        namespace: Option<usize>,
        space: SymbolNamespace,
        name: Symbol,
        pending: spec_fn(State<'ast>, DefId) -> State<'ast>,
    ) -> State<'ast>
        decreases 1int, List::<usize>::Nil, 0int,
    {
        match self.visible_symbol(namespace, space, name) {
            Some(SymbolKind::Pending(id)) => self.ensure_pending(id, pending),
            _ => self,
        }
    }

    /// The meaning of a name seen from a namespace, once its definition is
    /// resolved. A definition that needs itself is reported; the result is `None`
    /// then.
    pub open spec fn resolve_pending_global_symbol(
        self,
        namespace: Option<usize>,
        space: SymbolNamespace,
        name: Symbol,
        span: SourceSpan,
        pending: spec_fn(State<'ast>, DefId) -> State<'ast>,
    ) -> (State<'ast>, Option<Option<SymbolKind>>)
        decreases 1int, List::<usize>::Nil, 0int,
    {
        match self.visible_symbol(namespace, space, name) {
            Some(SymbolKind::Pending(id)) => {
                if self.is_in_progress(id) {
                    let s = self.report(report_cyclic_type_dependency(span));
                    (s, None)
                } else {
                    let s = self.ensure_pending(id, pending);
                    (s, Some(s.visible_symbol(namespace, space, name)))
                }
            },
            other => (self, Some(other)),
        }
    }

    /// The meaning of a name in one namespace alone, once its definition is
    /// resolved. A definition that needs itself is reported; the result is `None`
    /// then.
    pub open spec fn resolve_pending_namespace_symbol(
        self,
        namespace_idx: usize,
        space: SymbolNamespace,
        name: Symbol,
        span: SourceSpan,
        pending: spec_fn(State<'ast>, DefId) -> State<'ast>,
    ) -> (State<'ast>, Option<Option<SymbolKind>>)
        decreases 1int, List::<usize>::Nil, 0int,
    {
        match self.direct_symbol(Some(namespace_idx), space, name) {
            Some(SymbolKind::Pending(id)) => {
                if self.is_in_progress(id) {
                    let s = self.report(report_cyclic_type_dependency(span));
                    (s, None)
                } else {
                    let s = self.ensure_pending(id, pending);
                    (s, Some(s.direct_symbol(Some(namespace_idx), space, name)))
                }
            },
            other => (self, Some(other)),
        }
    }

    /// The memory that a pointer without a memory is in: the only one of the
    /// program.
    pub open spec fn resolve_ambient_memory(
        self,
        span: SourceSpan,
        pending: spec_fn(State<'ast>, DefId) -> State<'ast>,
    ) -> (State<'ast>, Option<TypeIndex>)
        decreases 2int, List::<usize>::Nil, 0int,
    {
        if (self.memories.len() as usize) == 0 {
            let s = self.report(report_no_memory_for_pointer(span));
            (s, None)
        } else {
            if (self.memories.len() as usize) > 1 {
                let s = self.report(report_ambiguous_pointer_memory(span));
                (s, None)
            } else {
                let id = match state::seq_ref(self.memories, 0) {
                    Some(memory) => memory.id,
                    None => 0,
                };
                let s = self.ensure_pending(id, pending);
                let kind = match state::seq_ref(s.memories, 0) {
                    Some(memory) => memory.kind,
                    None => ty::ERROR,
                };
                let (s, memory) = s.intern(Type::Memory { kind, id });
                (s, Some(memory))
            }
        }
    }

    /// The type parameter that a name stands for in a scope.
    #[verifier::opaque]
    pub open spec fn resolve_scoped_param(
        self,
        context: ResolveContext,
        scope: Option<GenericScope>,
        name: Spanned<Symbol>,
    ) -> (State<'ast>, Option<TypeIndex>) {
        match scope {
            Some(scope) => {
                match self.scoped_param(scope.owner, name.inner) {
                    Some((owner, param_index)) => {
                        let s = self.type_param_access(owner, param_index, context.at(name.span));
                        let (s, param) = s.intern(Type::TypeParam { owner, param_index });
                        (s, Some(param))
                    },
                    None => (self, None),
                }
            },
            None => (self, None),
        }
    }

    /// What `Self` stands for in an impl, with the owner of the scope; nothing
    /// for another name.
    pub open spec fn self_keyword(
        self,
        scope: Option<GenericScope>,
        name: Symbol,
    ) -> Option<(TypeParamOwner, TypeIndex)> {
        match scope {
            Some(scope) => {
                match scope.self_type {
                    Some(self_type) => {
                        if name == self.names.self_type {
                            Some((scope.owner, self_type))
                        } else {
                            None
                        }
                    },
                    None => None,
                }
            },
            None => None,
        }
    }

    /// The type that a name stands for: a built-in type, a type parameter,
    /// `Self`, or what the namespace has under it. What is wrong is reported.
    pub open spec fn resolve_type_identifier(
        self,
        context: ResolveContext,
        scope: Option<GenericScope>,
        name: Spanned<Symbol>,
        arity: TypeArgArity,
        pending: spec_fn(State<'ast>, DefId) -> State<'ast>,
    ) -> (State<'ast>, Option<TypeIndex>)
        decreases 2int, List::<usize>::Nil, 0int,
    {
        match self.primitive_type(name.inner) {
            Some(primitive) => (self, Some(primitive)),
            None => {
                let (s, param) = self.resolve_scoped_param(context, scope, name);
                if param.is_some() {
                    (s, param)
                } else {
                    let span = context.at(name.span);
                    match s.self_keyword(scope, name.inner) {
                        Some((owner, self_type)) => {
                            let s = s.self_keyword_access(owner, span);
                            (s, Some(self_type))
                        },
                        None => {
                            let (s, kind) = s.resolve_pending_global_symbol(
                                context.namespace,
                                SymbolNamespace::Type,
                                name.inner,
                                span,
                                pending,
                            );
                            match kind {
                                Some(kind) => {
                                    s.type_of_symbol(context, kind, name, arity)
                                },
                                None => (s, None),
                            }
                        },
                    }
                }
            },
        }
    }

    /// The type that the meaning of a name gives.
    #[verifier::opaque]
    pub open spec fn type_of_symbol(
        self,
        context: ResolveContext,
        kind: Option<SymbolKind>,
        name: Spanned<Symbol>,
        arity: TypeArgArity,
    ) -> (State<'ast>, Option<TypeIndex>) {
        let span = context.at(name.span);
        match kind {
            Some(SymbolKind::TraitAssocType { trait_index: _, assoc_name }) => {
                let s = self.report(report_bare_assoc_type(assoc_name, span));
                (s, None)
            },
            Some(SymbolKind::Trait { .. }) | Some(SymbolKind::TypeSet { .. }) => {
                let s = self.report(report_trait_as_type(span));
                (s, None)
            },
            Some(SymbolKind::Struct { .. }) | Some(SymbolKind::TypeAlias { .. }) => {
                self.apply_named_type(context, kind, &List::Nil, name.span, arity)
            },
            Some(other) => self.plain_type_of_symbol(other, span),
            None => {
                let s = self.report(report_undeclared_type(span));
                (s, None)
            },
        }
    }

    /// The struct or alias that a name means, with type arguments.
    #[verifier::opaque]
    pub open spec fn apply_named_type(
        self,
        context: ResolveContext,
        kind: Option<SymbolKind>,
        args: &List<TypeIndex>,
        span: TextSpan,
        arity: TypeArgArity,
    ) -> (State<'ast>, Option<TypeIndex>) {
        match kind {
            Some(kind) => {
                let (s, applied) = self.resolve_generic_type_application(
                    context,
                    kind,
                    args,
                    span,
                    arity,
                );
                if applied == ty::ERROR {
                    (s, None)
                } else {
                    (s, Some(applied))
                }
            },
            None => (self, None),
        }
    }

    /// The type that a name means without type arguments.
    pub open spec fn plain_type_of_symbol(
        self,
        kind: SymbolKind,
        span: SourceSpan,
    ) -> (State<'ast>, Option<TypeIndex>) {
        let s = self.type_kind_access(kind, span);
        let (s, found) = s.kind_type(kind);
        let s = if found.is_none() {
            s.report(report_undeclared_type(span))
        } else {
            s
        };
        (s, found)
    }

    /// The associated type of a type that its bounds declare: of the first bound
    /// with a member of that name.
    pub open spec fn project_member(
        self,
        context: ResolveContext,
        traits: &List<TraitBound>,
        base: TypeIndex,
        member: Spanned<Symbol>,
        pending: spec_fn(State<'ast>, DefId) -> State<'ast>,
    ) -> (State<'ast>, Option<TypeIndex>)
        decreases 2int, traits, 0int,
    {
        match traits {
            List::Nil => (self, None),
            List::Cons(bound, rest) => {
                let ids = self.trait_member_ids(bound.trait_index);
                let s = self.ensure_all(&ids, pending);
                let is_type = match state::seq_ref(s.traits, bound.trait_index) {
                    Some(declaration) => {
                        match substitute::member_entry(declaration.members, member.inner) {
                            Some(ImplEntry::AssocType { .. }) => true,
                            _ => false,
                        }
                    },
                    None => false,
                };
                if is_type {
                    let s = s.record_assoc_type_access(
                        bound.trait_index,
                        member.inner,
                        context.at(member.span),
                    );
                    let (s, projection) = s.intern(
                        Type::AssocTypeProjection {
                            base,
                            assoc_name: member.inner,
                            trait_index: bound.trait_index,
                        },
                    );
                    (s, Some(projection))
                } else {
                    s.project_member(context, rest, base, member, pending)
                }
            },
        }
    }

    /// The type that a name after `::` stands for: a type of a module, or an
    /// associated type. What is wrong is reported.
    pub open spec fn resolve_namespace_type_member(
        self,
        context: ResolveContext,
        scope: Option<GenericScope>,
        namespace: Spanned<TypeIndex>,
        member: &PathSegment,
        arity: TypeArgArity,
        pending: spec_fn(State<'ast>, DefId) -> State<'ast>,
    ) -> (State<'ast>, Option<TypeIndex>)
        decreases 3int, member, 1int,
    {
        let name = member.ident;
        let span = context.at(name.span);
        match self.ty(namespace.inner) {
            Type::Namespace { namespace_idx } => {
                let s = self.access(
                    AccessTarget::Namespace(namespace_idx),
                    context.at(namespace.span),
                );
                let (s, kind) = s.resolve_pending_namespace_symbol(
                    namespace_idx,
                    SymbolNamespace::Type,
                    name.inner,
                    span,
                    pending,
                );
                match kind {
                    Some(kind) => {
                        match kind {
                            Some(SymbolKind::Struct { .. })
                            | Some(SymbolKind::TypeAlias { .. }) => {
                                let (s, args) = s.resolve_types(
                                    context,
                                    scope,
                                    &member.type_args,
                                    pending,
                                );
                                s.apply_named_type(context, kind, &args, name.span, arity)
                            },
                            Some(other) => s.plain_type_of_symbol(other, span),
                            None => {
                                let s = s.report(report_undeclared_type(span));
                                (s, None)
                            },
                        }
                    },
                    None => (s, None),
                }
            },
            other => {
                if !member.type_args.is_empty() {
                    let s = self.report(report_type_args_not_supported(span));
                    (s, None)
                } else {
                    match other {
                        Type::TypeParam { .. } => {
                            let bounds = self.param_bounds(namespace.inner);
                            let (s, projection) = self.project_member(
                                context,
                                &bounds.traits,
                                namespace.inner,
                                name,
                                pending,
                            );
                            let s = if projection.is_none() {
                                s.report(report_undeclared_type(span))
                            } else {
                                s
                            };
                            (s, projection)
                        },
                        Type::AssocTypeProjection { base: _, assoc_name, trait_index } => {
                            let bounds = match self.assoc_type_bounds(trait_index, assoc_name) {
                                Some(bounds) => bounds,
                                None => Bounds::none(),
                            };
                            let (s, projection) = self.project_member(
                                context,
                                &bounds.traits,
                                namespace.inner,
                                name,
                                pending,
                            );
                            let s = if projection.is_none() {
                                s.report(
                                    report_no_member_type(name.inner, namespace.inner, span),
                                )
                            } else {
                                s
                            };
                            (s, projection)
                        },
                        _ => self.resolve_impl_type_member(context, namespace.inner, name),
                    }
                }
            },
        }
    }

    /// The associated type that an impl gives a type under a name.
    #[verifier::opaque]
    pub open spec fn resolve_impl_type_member(
        self,
        context: ResolveContext,
        namespace: TypeIndex,
        name: Spanned<Symbol>,
    ) -> (State<'ast>, Option<TypeIndex>) {
        let (s, lookup) = self.resolve_impl_member(context, namespace, name.inner, name.span);
        match lookup {
            MemberLookup::Trait { entry: ImplEntry::AssocType { ty }, type_args: _, trait_index } => {
                let s = s.record_assoc_type_access(
                    trait_index,
                    name.inner,
                    context.at(name.span),
                );
                (s, Some(ty))
            },
            MemberLookup::Inherent { entry: ImplEntry::AssocType { ty }, type_args: _ } => {
                (s, Some(ty))
            },
            MemberLookup::Ambiguous => (s, None),
            _ => {
                let s = s.report(
                    report_no_member_type(name.inner, namespace, context.at(name.span)),
                );
                (s, None)
            },
        }
    }

    /// The type at the end of a path that goes on from a type.
    pub open spec fn walk_type_path(
        self,
        context: ResolveContext,
        scope: Option<GenericScope>,
        namespace: Spanned<TypeIndex>,
        path: &List<PathSegment>,
        arity: TypeArgArity,
        pending: spec_fn(State<'ast>, DefId) -> State<'ast>,
    ) -> (State<'ast>, Option<TypeIndex>)
        decreases 3int, path, 2int,
    {
        match path {
            List::Nil => (self, Some(namespace.inner)),
            List::Cons(segment, rest) => {
                let (s, member) = self.resolve_namespace_type_member(
                    context,
                    scope,
                    namespace,
                    segment,
                    arity,
                    pending,
                );
                match member {
                    Some(member) => {
                        s.walk_type_path(
                            context,
                            scope,
                            spanned(member, segment.ident.span),
                            rest,
                            arity,
                            pending,
                        )
                    },
                    None => (s, None),
                }
            },
        }
    }

    /// The type that a name with type arguments stands for.
    pub open spec fn resolve_applied_type(
        self,
        context: ResolveContext,
        scope: Option<GenericScope>,
        segment: &PathSegment,
        span: TextSpan,
        arity: TypeArgArity,
        pending: spec_fn(State<'ast>, DefId) -> State<'ast>,
    ) -> (State<'ast>, TypeIndex)
        decreases 3int, segment, 1int,
    {
        let name: Symbol = segment.ident.inner;
        let shadowed = match scope {
            Some(scope) => self.scoped_param(scope.owner, name).is_some(),
            None => false,
        };
        if shadowed {
            let s = self.report(report_type_args_not_supported(context.at(span)));
            (s, ty::ERROR)
        } else {
            let s = self.ensure_named(context.namespace, SymbolNamespace::Type, name, pending);
            match s.visible_symbol(context.namespace, SymbolNamespace::Type, name) {
                Some(kind) => {
                    let (s, args) = s.resolve_types(context, scope, &segment.type_args, pending);
                    s.resolve_generic_type_application(
                        context,
                        kind,
                        &args,
                        segment.ident.span,
                        arity,
                    )
                },
                None => {
                    let s = s.report(report_type_args_not_supported(context.at(span)));
                    (s, ty::ERROR)
                },
            }
        }
    }

    /// The type that a `::` path stands for; the poison type where it is wrong.
    pub open spec fn resolve_path_type(
        self,
        context: ResolveContext,
        scope: Option<GenericScope>,
        path: &List<PathSegment>,
        span: TextSpan,
        arity: TypeArgArity,
        pending: spec_fn(State<'ast>, DefId) -> State<'ast>,
    ) -> (State<'ast>, TypeIndex)
        decreases 3int, path, 3int,
    {
        match path {
            List::Nil => (self, ty::ERROR),
            List::Cons(first, rest) => {
                if rest.is_empty() && !first.type_args.is_empty() {
                    self.resolve_applied_type(
                        context,
                        scope,
                        first,
                        span,
                        arity,
                        pending,
                    )
                } else {
                    let (s, start) = self.resolve_type_identifier(
                        context,
                        scope,
                        first.ident,
                        arity,
                        pending,
                    );
                    match start {
                        Some(start) => {
                            let (s, found) = s.walk_type_path(
                                context,
                                scope,
                                spanned(start, first.ident.span),
                                rest,
                                arity,
                                pending,
                            );
                            (s, type_or_error(found))
                        },
                        None => (s, ty::ERROR),
                    }
                }
            },
        }
    }

    /// Resolves several types in order.
    pub open spec fn resolve_types(
        self,
        context: ResolveContext,
        scope: Option<GenericScope>,
        types: &List<Spanned<TypeExpression>>,
        pending: spec_fn(State<'ast>, DefId) -> State<'ast>,
    ) -> (State<'ast>, List<TypeIndex>)
        decreases 3int, types, 0int,
    {
        match types {
            List::Nil => (self, List::Nil),
            List::Cons(first, rest) => {
                let (s, index) = self.resolve_type(context, scope, first, pending);
                let (s, others) = s.resolve_types(context, scope, rest, pending);
                (s, cons(index, others))
            },
        }
    }

    /// The type that is written; the poison type where it is wrong, which is
    /// reported.
    pub open spec fn resolve_type(
        self,
        context: ResolveContext,
        scope: Option<GenericScope>,
        type_expr: &Spanned<TypeExpression>,
        pending: spec_fn(State<'ast>, DefId) -> State<'ast>,
    ) -> (State<'ast>, TypeIndex)
        decreases 3int, type_expr, 0int,
    {
        let span = context.at(type_expr.span);
        match &type_expr.inner {
            TypeExpression::Infer => (self, ty::INFER),
            TypeExpression::Path(path) => {
                self.resolve_path_type(
                    context,
                    scope,
                    path,
                    type_expr.span,
                    TypeArgArity::RequireExact,
                    pending,
                )
            },
            TypeExpression::Function { params, result } => {
                let (s, result) = match result {
                    Some(result) => self.resolve_type(context, scope, result, pending),
                    None => (self, ty::UNIT),
                };
                let (s, params) = s.resolve_types(context, scope, params, pending);
                s.intern(Type::Function { signature: FunctionSignature { params, result } })
            },
            TypeExpression::Pointer { mutability, inner } => {
                let (s, to) = self.resolve_type(context, scope, inner, pending);
                let (s, memory) = s.resolve_ambient_memory(span, pending);
                match memory {
                    Some(memory) => {
                        s.intern(Type::Pointer { to, memory, mutable: mutability.is_some() })
                    },
                    None => (s, ty::ERROR),
                }
            },
            TypeExpression::Slice { mutability, inner } => {
                let (s, of) = self.resolve_type(context, scope, inner, pending);
                let (s, memory) = s.resolve_ambient_memory(span, pending);
                match memory {
                    Some(memory) => {
                        s.intern(Type::Slice { of, memory, mutable: mutability.is_some() })
                    },
                    None => (s, ty::ERROR),
                }
            },
            TypeExpression::Array { size, mutability, inner } => {
                let (s, of) = self.resolve_type(context, scope, inner, pending);
                let (s, memory) = s.resolve_ambient_memory(span, pending);
                match memory {
                    Some(memory) => {
                        s.intern(
                            Type::Array {
                                of,
                                size: *size,
                                memory,
                                mutable: mutability.is_some(),
                            },
                        )
                    },
                    None => (s, ty::ERROR),
                }
            },
            TypeExpression::Tuple { elements } => {
                if elements.is_empty() {
                    (self, ty::UNIT)
                } else {
                    let (s, elements) = self.resolve_types(context, scope, elements, pending);
                    s.intern(Type::Tuple { elements })
                }
            },
            TypeExpression::MemoryTagged { memory, inner } => {
                let (s, tagged) = self.resolve_memory_path(context, scope, memory, pending);
                match tagged {
                    Some(memory) => s.resolve_tagged_type(context, scope, memory, inner, pending),
                    None => (s, ty::ERROR),
                }
            },
            TypeExpression::GenericApplication { name, args } => {
                self.resolve_application(context, scope, *name, args, pending)
            },
        }
    }

    /// The memory that a path before a pointer, slice or array names.
    pub open spec fn resolve_memory_path(
        self,
        context: ResolveContext,
        scope: Option<GenericScope>,
        path: &List<PathSegment>,
        pending: spec_fn(State<'ast>, DefId) -> State<'ast>,
    ) -> (State<'ast>, Option<TypeIndex>)
        decreases 3int, path, 3int,
    {
        match path {
            List::Nil => (self, None),
            List::Cons(first, rest) => {
                let (s, start) = self.resolve_type_identifier(
                    context,
                    scope,
                    first.ident,
                    TypeArgArity::RequireExact,
                    pending,
                );
                match start {
                    Some(start) => {
                        let (s, memory) = s.walk_type_path(
                            context,
                            scope,
                            spanned(start, first.ident.span),
                            rest,
                            TypeArgArity::RequireExact,
                            pending,
                        );
                        match memory {
                            Some(memory) => {
                                match s.ty(memory) {
                                    Type::Memory { .. }
                                    | Type::TypeParam { .. }
                                    | Type::AssocTypeProjection { .. } => {
                                        (s, Some(memory))
                                    },
                                    _ => {
                                        let span = span_between(
                                            first.ident.span,
                                            last_segment_span(path, first.ident.span),
                                        );
                                        let s = s.report(
                                            report_not_a_memory(memory, context.at(span)),
                                        );
                                        (s, None)
                                    },
                                }
                            },
                            None => (s, None),
                        }
                    },
                    None => (s, None),
                }
            },
        }
    }

    /// The pointer, slice or array type in a named memory.
    pub open spec fn resolve_tagged_type(
        self,
        context: ResolveContext,
        scope: Option<GenericScope>,
        memory: TypeIndex,
        type_expr: &Spanned<TypeExpression>,
        pending: spec_fn(State<'ast>, DefId) -> State<'ast>,
    ) -> (State<'ast>, TypeIndex)
        decreases 3int, type_expr, 1int,
    {
        match &type_expr.inner {
            TypeExpression::Pointer { mutability, inner } => {
                let (s, to) = self.resolve_type(context, scope, inner, pending);
                s.intern(Type::Pointer { to, memory, mutable: mutability.is_some() })
            },
            TypeExpression::Array { size, mutability, inner } => {
                let (s, of) = self.resolve_type(context, scope, inner, pending);
                s.intern(Type::Array { of, size: *size, memory, mutable: mutability.is_some() })
            },
            TypeExpression::Slice { mutability, inner } => {
                let (s, of) = self.resolve_type(context, scope, inner, pending);
                s.intern(Type::Slice { of, memory, mutable: mutability.is_some() })
            },
            _ => {
                let s = self.report(report_memory_prefix(context.at(type_expr.span)));
                (s, ty::ERROR)
            },
        }
    }

    /// The type `Name<T, U>`.
    pub open spec fn resolve_application(
        self,
        context: ResolveContext,
        scope: Option<GenericScope>,
        name: Spanned<Symbol>,
        args: &List<Spanned<TypeExpression>>,
        pending: spec_fn(State<'ast>, DefId) -> State<'ast>,
    ) -> (State<'ast>, TypeIndex)
        decreases 3int, args, 1int,
    {
        let s = self.ensure_named(context.namespace, SymbolNamespace::Type, name.inner, pending);
        let kind = s.visible_symbol(context.namespace, SymbolNamespace::Type, name.inner);
        let (s, args) = s.resolve_types(context, scope, args, pending);
        match kind {
            Some(SymbolKind::Struct { struct_index }) => {
                s.resolve_generic_type_application(
                    context,
                    SymbolKind::Struct { struct_index },
                    &args,
                    name.span,
                    TypeArgArity::RequireExact,
                )
            },
            Some(SymbolKind::TypeAlias { type_alias_index }) => {
                s.resolve_generic_type_application(
                    context,
                    SymbolKind::TypeAlias { type_alias_index },
                    &args,
                    name.span,
                    TypeArgArity::RequireExact,
                )
            },
            _ => {
                let (s, found) = s.resolve_type_identifier(
                    context,
                    scope,
                    name,
                    TypeArgArity::RequireExact,
                    pending,
                );
                (s, type_or_error(found))
            },
        }
    }

    /// The type that is written in a signature, where no part may be left to
    /// inference.
    pub open spec fn resolve_signature_type(
        self,
        context: ResolveContext,
        scope: Option<GenericScope>,
        type_expr: &Spanned<TypeExpression>,
        pending: spec_fn(State<'ast>, DefId) -> State<'ast>,
    ) -> (State<'ast>, TypeIndex)
        decreases 3int, type_expr, 2int,
    {
        let (s, index) = self.resolve_type(context, scope, type_expr, pending);
        let s = if s.has_infer(index) {
            s.report(report_infer_in_signature(context.at(type_expr.span)))
        } else {
            s
        };
        (s, index)
    }

    /// The bound that the meaning of a name gives, with its use recorded.
    #[verifier::opaque]
    pub open spec fn bound_of_symbol(
        self,
        kind: Option<SymbolKind>,
        name_span: SourceSpan,
        span: SourceSpan,
    ) -> (State<'ast>, Option<BoundKind>) {
        match kind {
            Some(SymbolKind::Trait { trait_index }) => {
                let s = self.access(AccessTarget::Trait(trait_index), name_span);
                (s, Some(BoundKind::Trait(trait_index)))
            },
            Some(SymbolKind::TypeSet { typeset_index }) => {
                let s = self.access(AccessTarget::TypeSet(typeset_index), name_span);
                (s, Some(BoundKind::TypeSet(typeset_index)))
            },
            _ => {
                let s = self.report(report_expected_bound(span));
                (s, None)
            },
        }
    }

    /// The trait or typeset that a name without `::` stands for.
    pub open spec fn resolve_identifier_as_bound(
        self,
        context: ResolveContext,
        name: Spanned<Symbol>,
        span: TextSpan,
        pending: spec_fn(State<'ast>, DefId) -> State<'ast>,
    ) -> (State<'ast>, Option<BoundKind>)
        decreases 2int, List::<usize>::Nil, 0int,
    {
        let (s, kind) = self.resolve_pending_global_symbol(
            context.namespace,
            SymbolNamespace::Type,
            name.inner,
            context.at(name.span),
            pending,
        );
        match kind {
            Some(kind) => {
                if kind.is_none() {
                    let s = s.report(report_unknown_bound(name.inner, context.at(span)));
                    (s, None)
                } else {
                    s.bound_of_symbol(kind, context.at(name.span), context.at(span))
                }
            },
            None => (s, None),
        }
    }

    /// The trait or typeset at the end of a path that goes on from a module.
    pub open spec fn walk_bound_path(
        self,
        context: ResolveContext,
        namespace: Spanned<TypeIndex>,
        path: &List<PathSegment>,
        pending: spec_fn(State<'ast>, DefId) -> State<'ast>,
    ) -> (State<'ast>, Option<BoundKind>)
        decreases 3int, path, 0int,
    {
        match path {
            List::Nil => (self, None),
            List::Cons(segment, rest) => {
                if !rest.is_empty() {
                    let (s, member) = self.resolve_namespace_type_member(
                        context,
                        None,
                        namespace,
                        segment,
                        TypeArgArity::RequireExact,
                        pending,
                    );
                    match member {
                        Some(member) => {
                            s.walk_bound_path(
                                context,
                                spanned(member, segment.ident.span),
                                rest,
                                pending,
                            )
                        },
                        None => (s, None),
                    }
                } else {
                    match self.ty(namespace.inner) {
                        Type::Namespace { namespace_idx } => {
                            let span = context.at(segment.ident.span);
                            let (s, kind) = self.resolve_pending_namespace_symbol(
                                namespace_idx,
                                SymbolNamespace::Type,
                                segment.ident.inner,
                                span,
                                pending,
                            );
                            match kind {
                                Some(kind) => {
                                    s.bound_of_symbol(kind, span, span)
                                },
                                None => (s, None),
                            }
                        },
                        _ => {
                            let s = self.report(
                                report_expected_module(context.at(namespace.span)),
                            );
                            (s, None)
                        },
                    }
                }
            },
        }
    }

    /// The trait or typeset that a path stands for. What is wrong is reported.
    pub open spec fn resolve_path_segments_as_bound(
        self,
        context: ResolveContext,
        path: &List<PathSegment>,
        span: TextSpan,
        pending: spec_fn(State<'ast>, DefId) -> State<'ast>,
    ) -> (State<'ast>, Option<BoundKind>)
        decreases 3int, path, 1int,
    {
        match path {
            List::Nil => (self, None),
            List::Cons(first, rest) => {
                if rest.is_empty() {
                    self.resolve_identifier_as_bound(context, first.ident, span, pending)
                } else {
                    let (s, start) = self.resolve_type_identifier(
                        context,
                        None,
                        first.ident,
                        TypeArgArity::RequireExact,
                        pending,
                    );
                    match start {
                        Some(start) => {
                            s.walk_bound_path(
                                context,
                                spanned(start, first.ident.span),
                                rest,
                                pending,
                            )
                        },
                        None => (s, None),
                    }
                }
            },
        }
    }

    /// The clauses on the associated types of a trait, ordered by name.
    pub open spec fn resolve_where_bindings(
        self,
        context: ResolveContext,
        scope: Option<GenericScope>,
        trait_index: usize,
        clauses: &List<WhereBinding>,
        resolved: List<AssocBinding>,
        pending: spec_fn(State<'ast>, DefId) -> State<'ast>,
    ) -> (State<'ast>, List<AssocBinding>)
        decreases 4int, clauses, 0int,
    {
        match clauses {
            List::Nil => (self, resolved),
            List::Cons(clause, rest) => {
                let s = self.record_assoc_type_access(
                    trait_index,
                    clause.name.inner,
                    context.at(clause.name.span),
                );
                let (s, (rhs, rhs_span)) = match &clause.rhs {
                    BindingExpression::Equals(type_expr) => {
                        let (s, index) = s.resolve_type(context, scope, type_expr, pending);
                        (s, (AssocBindingKind::Equals(index), type_expr.span))
                    },
                    BindingExpression::Bound(bound) => {
                        let (s, bounds) = s.resolve_bounds(context, scope, bound, pending);
                        (s, (AssocBindingKind::Bound(bounds), bound.span))
                    },
                };
                let binding = AssocBinding {
                    name: clause.name,
                    file_id: context.file_id,
                    rhs,
                    rhs_span,
                };
                s.resolve_where_bindings(
                    context,
                    scope,
                    trait_index,
                    rest,
                    lookup::with_binding(resolved, binding),
                    pending,
                )
            },
        }
    }

    /// The bounds of several alternatives joined by `+`. At most one may be a
    /// typeset.
    pub open spec fn resolve_bound_list(
        self,
        context: ResolveContext,
        scope: Option<GenericScope>,
        items: &List<Spanned<BoundExpression>>,
        collected: Bounds,
        pending: spec_fn(State<'ast>, DefId) -> State<'ast>,
    ) -> (State<'ast>, Bounds)
        decreases 4int, items, 0int,
    {
        match items {
            List::Nil => (self, collected),
            List::Cons(item, rest) => {
                let (s, bounds) = self.resolve_bounds(context, scope, item, pending);
                let s = if bounds.typeset.is_some() && collected.typeset.is_some() {
                    s.report(report_multiple_typesets(context.at(item.span)))
                } else {
                    s
                };
                let joined = joined_bounds(collected, bounds);
                s.resolve_bound_list(context, scope, rest, joined, pending)
            },
        }
    }

    /// The bounds that are written; no bounds where they are wrong, which is
    /// reported.
    pub open spec fn resolve_bounds(
        self,
        context: ResolveContext,
        scope: Option<GenericScope>,
        bound: &Spanned<BoundExpression>,
        pending: spec_fn(State<'ast>, DefId) -> State<'ast>,
    ) -> (State<'ast>, Bounds)
        decreases 4int, bound, 2int,
    {
        match &bound.inner {
            BoundExpression::Path(path) => {
                let (s, kind) = self.resolve_path_segments_as_bound(
                    context,
                    path,
                    bound.span,
                    pending,
                );
                match kind {
                    Some(BoundKind::Trait(trait_index)) => {
                        (
                            s,
                            Bounds {
                                traits: single(
                                    TraitBound {
                                        trait_index,
                                        span: bound.span,
                                        bindings: List::Nil,
                                    },
                                ),
                                typeset: None,
                            },
                        )
                    },
                    Some(BoundKind::TypeSet(typeset_index)) => {
                        (s, Bounds { traits: List::Nil, typeset: Some(typeset_index) })
                    },
                    None => (s, Bounds::none()),
                }
            },
            BoundExpression::WithBindings { path, bindings } => {
                match &**path {
                    BoundExpression::Path(path) => {
                        let (s, kind) = self.resolve_path_segments_as_bound(
                            context,
                            path,
                            bound.span,
                            pending,
                        );
                        match kind {
                            Some(BoundKind::Trait(trait_index)) => {
                                let (s, bindings) = s.resolve_where_bindings(
                                    context,
                                    scope,
                                    trait_index,
                                    bindings,
                                    List::Nil,
                                    pending,
                                );
                                (
                                    s,
                                    Bounds {
                                        traits: single(
                                            TraitBound {
                                                trait_index,
                                                span: bound.span,
                                                bindings,
                                            },
                                        ),
                                        typeset: None,
                                    },
                                )
                            },
                            Some(BoundKind::TypeSet(_)) => {
                                let s = s.report(report_typeset_bindings(context.at(bound.span)));
                                (s, Bounds::none())
                            },
                            None => (s, Bounds::none()),
                        }
                    },
                    _ => {
                        let s = self.report(report_expected_single_trait(context.at(bound.span)));
                        (s, Bounds::none())
                    },
                }
            },
            BoundExpression::BoundList(items) => {
                self.resolve_bound_list(context, scope, items, Bounds::none(), pending)
            },
        }
    }

    /// The bounds that may be written; none where nothing is.
    pub open spec fn resolve_optional_bounds(
        self,
        context: ResolveContext,
        scope: Option<GenericScope>,
        bound: &Option<Spanned<BoundExpression>>,
        pending: spec_fn(State<'ast>, DefId) -> State<'ast>,
    ) -> (State<'ast>, Bounds)
        decreases 5int, List::<usize>::Nil, 0int,
    {
        match bound {
            Some(bound) => self.resolve_bounds(context, scope, bound, pending),
            None => (self, Bounds::none()),
        }
    }

    /// Resolves the bounds of an owner's type parameters, from a position on.
    pub open spec fn resolve_type_param_bounds(
        self,
        context: ResolveContext,
        owner: TypeParamOwner,
        self_type: Option<TypeIndex>,
        params: &List<TypeParam>,
        index: usize,
        pending: spec_fn(State<'ast>, DefId) -> State<'ast>,
    ) -> State<'ast>
        decreases 6int, params, 0int,
    {
        match params {
            List::Nil => self,
            List::Cons(param, rest) => {
                let (s, bounds) = self.resolve_optional_bounds(
                    context,
                    Some(GenericScope { owner, self_type }),
                    &param.bounds,
                    pending,
                );
                let s = s.set_own_param_bounds(owner, index, bounds);
                s.resolve_type_param_bounds(
                    context,
                    owner,
                    self_type,
                    rest,
                    next_index(index),
                    pending,
                )
            },
        }
    }

    /// The type `Self` for a parameter named `self`.
    pub open spec fn receiver_type(
        self,
        scope: Option<GenericScope>,
        name: Symbol,
    ) -> Option<TypeIndex> {
        match scope {
            Some(scope) => {
                if name == self.names.self_value {
                    scope.self_type
                } else {
                    None
                }
            },
            None => None,
        }
    }

    /// Reports a receiver whose written type is neither `Self` nor a pointer to
    /// it.
    #[verifier::opaque]
    pub open spec fn check_receiver_type(
        self,
        self_type: Option<TypeIndex>,
        index: TypeIndex,
        span: SourceSpan,
    ) -> State<'ast> {
        match self_type {
            Some(self_type) => {
                let points_to_self = match self.ty(index) {
                    Type::Pointer { to, .. } => to == self_type,
                    _ => false,
                };
                if index != self_type && !points_to_self {
                    self.report(report_invalid_self_type(index, span))
                } else {
                    self
                }
            },
            None => self,
        }
    }

    /// The type of a parameter. A parameter `self` has the type `Self`, a
    /// pointer to it, or none written, which means `Self`.
    pub open spec fn resolve_param_type(
        self,
        context: ResolveContext,
        scope: Option<GenericScope>,
        param: &Param,
        pending: spec_fn(State<'ast>, DefId) -> State<'ast>,
    ) -> (State<'ast>, Spanned<TypeIndex>)
        decreases 5int, List::<usize>::Nil, 0int,
    {
        match &param.ty {
            Some(type_expr) => {
                let (s, index) = self.resolve_signature_type(context, scope, type_expr, pending);
                let s = s.check_receiver_type(
                    s.receiver_type(scope, param.name.inner),
                    index,
                    context.at(type_expr.span),
                );
                (s, spanned(index, type_expr.span))
            },
            None => {
                match self.receiver_type(scope, param.name.inner) {
                    Some(self_type) => (self, spanned(self_type, param.name.span)),
                    None => (self, spanned(ty::ERROR, param.name.span)),
                }
            },
        }
    }

    /// The parameters of a function. Two of the same name are reported.
    pub open spec fn resolve_params(
        self,
        context: ResolveContext,
        scope: Option<GenericScope>,
        params: &List<Param>,
        resolved: List<FunctionParam>,
        pending: spec_fn(State<'ast>, DefId) -> State<'ast>,
    ) -> (State<'ast>, List<FunctionParam>)
        decreases 6int, params, 0int,
    {
        match params {
            List::Nil => (self, resolved),
            List::Cons(param, rest) => {
                let s = match named_param_span(&resolved, param.name.inner) {
                    Some(first) => {
                        self.report(
                            report_duplicate_parameter(
                                param.name.inner,
                                context.at(first),
                                context.at(param.name.span),
                            ),
                        )
                    },
                    None => self,
                };
                let (s, ty) = s.resolve_param_type(context, scope, param, pending);
                let next = FunctionParam { mut_span: param.mut_span, name: param.name, ty };
                s.resolve_params(context, scope, rest, resolved.push(next), pending)
            },
        }
    }

    /// The parameters and the result of a function.
    pub open spec fn build_function_signature(
        self,
        context: ResolveContext,
        scope: Option<GenericScope>,
        signature: &ast::FunctionSignature,
        pending: spec_fn(State<'ast>, DefId) -> State<'ast>,
    ) -> (State<'ast>, (List<FunctionParam>, Option<Spanned<TypeIndex>>))
        decreases 7int, List::<usize>::Nil, 0int,
    {
        let (s, params) = self.resolve_params(
            context,
            scope,
            &signature.params,
            List::Nil,
            pending,
        );
        match &signature.result {
            Some(type_expr) => {
                let (s, index) = s.resolve_signature_type(context, scope, type_expr, pending);
                (s, (params, Some(spanned(index, type_expr.span))))
            },
            None => (s, (params, None)),
        }
    }

    /// What a name without `::` stands for in an expression: a local first, then
    /// what is visible from the namespace.
    pub open spec fn resolve_symbol(
        self,
        ctx: &ExprContext,
        symbol: Symbol,
    ) -> Option<ResolvedSymbol> {
        match ctx.local_named(symbol) {
            Some((scope_index, local_index)) => {
                Some(ResolvedSymbol::Local { scope_index, local_index })
            },
            None => {
                match self.visible_symbol(
                    ctx.resolve_context.namespace,
                    SymbolNamespace::Value,
                    symbol,
                ) {
                    Some(kind) => Some(ResolvedSymbol::Global(kind)),
                    None => None,
                }
            },
        }
    }

    /// The expression that a name stands for, with its use recorded. A write to
    /// something immutable is reported.
    #[verifier::opaque]
    pub open spec fn resolved_symbol_to_expression(
        self,
        ctx: ExprContext,
        access: AccessContext,
        resolved: ResolvedSymbol,
        span: TextSpan,
    ) -> (State<'ast>, ExprContext, Expression) {
        match resolved {
            ResolvedSymbol::Local { scope_index, local_index } => {
                let ctx = ctx.with_local_access(
                    scope_index,
                    local_index,
                    LocalAccess { kind: access.access_kind, span },
                );
                let (ty, mut_span) = match ctx.local_at(scope_index, local_index) {
                    Some(local) => (local.ty, local.mut_span),
                    None => (ty::ERROR, None),
                };
                let s = if access.access_kind != AccessKind::Read && mut_span.is_none() {
                    self.report(
                        report_cannot_mutate_immutable(ctx.resolve_context.at(span)),
                    )
                } else {
                    self
                };
                (s, ctx, typed(ExprKind::Local { scope_index, local_index }, ty, span))
            },
            ResolvedSymbol::Global(kind) => {
                let (s, expr) = self.global_expression(ctx.resolve_context, access, kind, span);
                (s, ctx, expr)
            },
        }
    }
}

impl<'ast> Builder<'ast> {
    /// The ids of the members of a trait.
    pub fn trait_member_ids(&self, trait_index: usize) -> (result: List<DefId>)
        ensures
            result == self@.trait_member_ids(trait_index),
    {
        match vec_at(&self.traits, trait_index) {
            Some(declaration) => declaration.member_ids.duplicate(),
            None => List::Nil,
        }
    }

    /// Resolves the signatures of several definitions in order.
    pub fn ensure_all(&mut self, ids: &List<DefId>, depth: usize)
        ensures
            final(self)@ == old(self)@.ensure_all(ids, signatures::resolver(depth)),
        decreases depth, 1int, ids, 0int,
    {
        match ids {
            List::Nil => {},
            List::Cons(id, rest) => {
                self.ensure_pending(**id, depth);
                self.ensure_all(rest, depth);
            },
        }
    }

    /// Resolves the definition that a name stands for, seen from a namespace, if
    /// it is not resolved yet.
    pub fn ensure_named(
        &mut self,
        namespace: Option<usize>,
        space: SymbolNamespace,
        name: Symbol,
        depth: usize,
    )
        ensures
            final(self)@ == old(self)@.ensure_named(
                namespace,
                space,
                name,
                signatures::resolver(depth),
            ),
        decreases depth, 1int, List::<usize>::Nil, 0int,
    {
        match self.lookup_global_symbol(namespace, space, name) {
            Some(SymbolKind::Pending(id)) => {
                self.ensure_pending(id, depth);
            },
            _ => {},
        }
    }

    /// The meaning of a name seen from a namespace, once its definition is
    /// resolved. A definition that needs itself is reported; the result is `None`
    /// then.
    pub fn resolve_pending_global_symbol(
        &mut self,
        namespace: Option<usize>,
        space: SymbolNamespace,
        name: Symbol,
        span: SourceSpan,
        depth: usize,
    ) -> (result: Option<Option<SymbolKind>>)
        ensures
            (final(self)@, result) == old(self)@.resolve_pending_global_symbol(
                namespace,
                space,
                name,
                span,
                signatures::resolver(depth),
            ),
        decreases depth, 1int, List::<usize>::Nil, 0int,
    {
        match self.lookup_global_symbol(namespace, space, name) {
            Some(SymbolKind::Pending(id)) => {
                if self.is_in_progress(id) {
                    self.report(report_cyclic_type_dependency(span));
                    return None;
                }
                self.ensure_pending(id, depth);
                Some(self.lookup_global_symbol(namespace, space, name))
            },
            other => Some(other),
        }
    }

    /// The meaning of a name in one namespace alone, once its definition is
    /// resolved. A definition that needs itself is reported; the result is `None`
    /// then.
    pub fn resolve_pending_namespace_symbol(
        &mut self,
        namespace_idx: usize,
        space: SymbolNamespace,
        name: Symbol,
        span: SourceSpan,
        depth: usize,
    ) -> (result: Option<Option<SymbolKind>>)
        ensures
            (final(self)@, result) == old(self)@.resolve_pending_namespace_symbol(
                namespace_idx,
                space,
                name,
                span,
                signatures::resolver(depth),
            ),
        decreases depth, 1int, List::<usize>::Nil, 0int,
    {
        match self.direct_scope_lookup(Some(namespace_idx), space, name) {
            Some(SymbolKind::Pending(id)) => {
                if self.is_in_progress(id) {
                    self.report(report_cyclic_type_dependency(span));
                    return None;
                }
                self.ensure_pending(id, depth);
                Some(self.direct_scope_lookup(Some(namespace_idx), space, name))
            },
            other => Some(other),
        }
    }

    /// The memory that a pointer without a memory is in: the only one of the
    /// program.
    pub fn resolve_ambient_memory(
        &mut self,
        span: SourceSpan,
        depth: usize,
    ) -> (result: Option<TypeIndex>)
        ensures
            (final(self)@, result) == old(self)@.resolve_ambient_memory(
                span,
                signatures::resolver(depth),
            ),
        decreases depth, 2int, List::<usize>::Nil, 0int,
    {
        if self.memories.len() == 0 {
            self.report(report_no_memory_for_pointer(span));
            return None;
        }
        if self.memories.len() > 1 {
            self.report(report_ambiguous_pointer_memory(span));
            return None;
        }
        let id: DefId = match vec_at(&self.memories, 0) {
            Some(memory) => memory.id,
            None => 0,
        };
        self.ensure_pending(id, depth);
        let kind: TypeIndex = match vec_at(&self.memories, 0) {
            Some(memory) => memory.kind,
            None => ty::ERROR,
        };
        let memory: TypeIndex = self.intern_type(Type::Memory { kind, id });
        Some(memory)
    }

    /// The type parameter that a name stands for in a scope.
    pub fn resolve_scoped_param(
        &mut self,
        context: ResolveContext,
        scope: Option<GenericScope>,
        name: Spanned<Symbol>,
    ) -> (result: Option<TypeIndex>)
        ensures
            (final(self)@, result) == old(self)@.resolve_scoped_param(context, scope, name),
    {
        proof {
            reveal(State::resolve_scoped_param);
        }
        match scope {
            Some(scope) => match self.identifier_type_param_index(scope.owner, name.inner) {
                Some((owner, param_index)) => {
                    self.record_type_param_access(owner, param_index, context.at(name.span));
                    let param: TypeIndex = self.intern_type(
                        Type::TypeParam { owner, param_index },
                    );
                    Some(param)
                },
                None => None,
            },
            None => None,
        }
    }

    /// What `Self` stands for in an impl, with the owner of the scope; nothing
    /// for another name.
    pub fn self_keyword(
        &self,
        scope: Option<GenericScope>,
        name: Symbol,
    ) -> (result: Option<(TypeParamOwner, TypeIndex)>)
        ensures
            result == self@.self_keyword(scope, name),
    {
        match scope {
            Some(scope) => match scope.self_type {
                Some(self_type) => if name == self.names.self_type {
                    Some((scope.owner, self_type))
                } else {
                    None
                },
                None => None,
            },
            None => None,
        }
    }

    /// The type that a name stands for: a built-in type, a type parameter,
    /// `Self`, or what the namespace has under it. What is wrong is reported.
    pub fn resolve_type_identifier(
        &mut self,
        context: ResolveContext,
        scope: Option<GenericScope>,
        name: Spanned<Symbol>,
        arity: TypeArgArity,
        depth: usize,
    ) -> (result: Option<TypeIndex>)
        ensures
            (final(self)@, result) == old(self)@.resolve_type_identifier(
                context,
                scope,
                name,
                arity,
                signatures::resolver(depth),
            ),
        decreases depth, 2int, List::<usize>::Nil, 0int,
    {
        match self.primitive_type(name.inner) {
            Some(primitive) => {
                return Some(primitive);
            },
            None => {},
        }
        let param = self.resolve_scoped_param(context, scope, name);
        if param.is_some() {
            return param;
        }
        let span = context.at(name.span);
        match self.self_keyword(scope, name.inner) {
            Some((owner, self_type)) => {
                self.record_self_keyword_access(owner, span);
                return Some(self_type);
            },
            None => {},
        }
        let kind = self.resolve_pending_global_symbol(
            context.namespace,
            SymbolNamespace::Type,
            name.inner,
            span,
            depth,
        )?;
        self.type_of_symbol(context, kind, name, arity)
    }

    /// The type that the meaning of a name gives.
    pub fn type_of_symbol(
        &mut self,
        context: ResolveContext,
        kind: Option<SymbolKind>,
        name: Spanned<Symbol>,
        arity: TypeArgArity,
    ) -> (result: Option<TypeIndex>)
        ensures
            (final(self)@, result) == old(self)@.type_of_symbol(context, kind, name, arity),
    {
        proof {
            reveal(State::type_of_symbol);
        }
        let span = context.at(name.span);
        match kind {
            Some(SymbolKind::TraitAssocType { trait_index: _, assoc_name }) => {
                self.report(report_bare_assoc_type(assoc_name, span));
                None
            },
            Some(SymbolKind::Trait { .. }) | Some(SymbolKind::TypeSet { .. }) => {
                self.report(report_trait_as_type(span));
                None
            },
            Some(SymbolKind::Struct { .. }) | Some(SymbolKind::TypeAlias { .. }) => {
                self.apply_named_type(context, kind, &List::Nil, name.span, arity)
            },
            Some(other) => self.plain_type_of_symbol(other, span),
            None => {
                self.report(report_undeclared_type(span));
                None
            },
        }
    }

    /// The struct or alias that a name means, with type arguments.
    pub fn apply_named_type(
        &mut self,
        context: ResolveContext,
        kind: Option<SymbolKind>,
        args: &List<TypeIndex>,
        span: TextSpan,
        arity: TypeArgArity,
    ) -> (result: Option<TypeIndex>)
        ensures
            (final(self)@, result) == old(self)@.apply_named_type(
                context,
                kind,
                args,
                span,
                arity,
            ),
    {
        proof {
            reveal(State::apply_named_type);
        }
        match kind {
            Some(kind) => {
                let applied: TypeIndex = self.resolve_generic_type_application(
                    context,
                    kind,
                    args,
                    span,
                    arity,
                );
                if applied == ty::ERROR {
                    None
                } else {
                    Some(applied)
                }
            },
            None => None,
        }
    }

    /// The type that a name means without type arguments.
    pub fn plain_type_of_symbol(
        &mut self,
        kind: SymbolKind,
        span: SourceSpan,
    ) -> (result: Option<TypeIndex>)
        ensures
            (final(self)@, result) == old(self)@.plain_type_of_symbol(kind, span),
    {
        self.record_type_kind_access(kind, span);
        let found = self.symbol_kind_to_type(kind);
        if found.is_none() {
            self.report(report_undeclared_type(span));
        }
        found
    }

    /// The associated type of a type that its bounds declare: of the first bound
    /// with a member of that name.
    pub fn project_member(
        &mut self,
        context: ResolveContext,
        traits: &List<TraitBound>,
        base: TypeIndex,
        member: Spanned<Symbol>,
        depth: usize,
    ) -> (result: Option<TypeIndex>)
        ensures
            (final(self)@, result) == old(self)@.project_member(
                context,
                traits,
                base,
                member,
                signatures::resolver(depth),
            ),
        decreases depth, 2int, traits, 0int,
    {
        match traits {
            List::Nil => None,
            List::Cons(bound, rest) => {
                let ids = self.trait_member_ids(bound.trait_index);
                self.ensure_all(&ids, depth);
                let is_type = match vec_at(&self.traits, bound.trait_index) {
                    Some(declaration) => match find_member(&declaration.members, member.inner) {
                        Some(ImplEntry::AssocType { .. }) => true,
                        _ => false,
                    },
                    None => false,
                };
                if is_type {
                    self.record_assoc_type_access(
                        bound.trait_index,
                        member.inner,
                        context.at(member.span),
                    );
                    let projection: TypeIndex = self.intern_type(
                        Type::AssocTypeProjection {
                            base,
                            assoc_name: member.inner,
                            trait_index: bound.trait_index,
                        },
                    );
                    return Some(projection);
                }
                self.project_member(context, rest, base, member, depth)
            },
        }
    }

    /// The type that a name after `::` stands for: a type of a module, or an
    /// associated type. What is wrong is reported.
    pub fn resolve_namespace_type_member(
        &mut self,
        context: ResolveContext,
        scope: Option<GenericScope>,
        namespace: Spanned<TypeIndex>,
        member: &PathSegment,
        arity: TypeArgArity,
        depth: usize,
    ) -> (result: Option<TypeIndex>)
        ensures
            (final(self)@, result) == old(self)@.resolve_namespace_type_member(
                context,
                scope,
                namespace,
                member,
                arity,
                signatures::resolver(depth),
            ),
        decreases depth, 3int, member, 1int,
    {
        let name = member.ident;
        let span = context.at(name.span);
        match self.ty(namespace.inner) {
            Type::Namespace { namespace_idx } => {
                self.access(AccessTarget::Namespace(namespace_idx), context.at(namespace.span));
                let kind = self.resolve_pending_namespace_symbol(
                    namespace_idx,
                    SymbolNamespace::Type,
                    name.inner,
                    span,
                    depth,
                )?;
                match kind {
                    Some(SymbolKind::Struct { .. }) | Some(SymbolKind::TypeAlias { .. }) => {
                        let args = self.resolve_types(context, scope, &member.type_args, depth);
                        self.apply_named_type(context, kind, &args, name.span, arity)
                    },
                    Some(other) => self.plain_type_of_symbol(other, span),
                    None => {
                        self.report(report_undeclared_type(span));
                        None
                    },
                }
            },
            other => {
                if !member.type_args.is_empty() {
                    self.report(report_type_args_not_supported(span));
                    return None;
                }
                match other {
                    Type::TypeParam { .. } => {
                        let bounds = self.type_param_bounds(namespace.inner);
                        let projection = self.project_member(
                            context,
                            &bounds.traits,
                            namespace.inner,
                            name,
                            depth,
                        );
                        if projection.is_none() {
                            self.report(report_undeclared_type(span));
                        }
                        projection
                    },
                    Type::AssocTypeProjection { base: _, assoc_name, trait_index } => {
                        let bounds = match self.copy_assoc_type_bounds(trait_index, assoc_name) {
                            Some(bounds) => bounds,
                            None => Bounds::none(),
                        };
                        let projection = self.project_member(
                            context,
                            &bounds.traits,
                            namespace.inner,
                            name,
                            depth,
                        );
                        if projection.is_none() {
                            self.report(report_no_member_type(name.inner, namespace.inner, span));
                        }
                        projection
                    },
                    _ => self.resolve_impl_type_member(context, namespace.inner, name),
                }
            },
        }
    }

    /// The associated type that an impl gives a type under a name.
    pub fn resolve_impl_type_member(
        &mut self,
        context: ResolveContext,
        namespace: TypeIndex,
        name: Spanned<Symbol>,
    ) -> (result: Option<TypeIndex>)
        ensures
            (final(self)@, result) == old(self)@.resolve_impl_type_member(
                context,
                namespace,
                name,
            ),
    {
        proof {
            reveal(State::resolve_impl_type_member);
        }
        let lookup = self.resolve_impl_member(context, namespace, name.inner, name.span);
        match lookup {
            MemberLookup::Trait { entry: ImplEntry::AssocType { ty }, type_args: _, trait_index } => {
                self.record_assoc_type_access(trait_index, name.inner, context.at(name.span));
                Some(ty)
            },
            MemberLookup::Inherent { entry: ImplEntry::AssocType { ty }, type_args: _ } => {
                Some(ty)
            },
            MemberLookup::Ambiguous => None,
            _ => {
                self.report(report_no_member_type(name.inner, namespace, context.at(name.span)));
                None
            },
        }
    }

    /// The type at the end of a path that goes on from a type.
    pub fn walk_type_path(
        &mut self,
        context: ResolveContext,
        scope: Option<GenericScope>,
        namespace: Spanned<TypeIndex>,
        path: &List<PathSegment>,
        arity: TypeArgArity,
        depth: usize,
    ) -> (result: Option<TypeIndex>)
        ensures
            (final(self)@, result) == old(self)@.walk_type_path(
                context,
                scope,
                namespace,
                path,
                arity,
                signatures::resolver(depth),
            ),
        decreases depth, 3int, path, 2int,
    {
        match path {
            List::Nil => Some(namespace.inner),
            List::Cons(segment, rest) => {
                let member: TypeIndex = self.resolve_namespace_type_member(
                    context,
                    scope,
                    namespace,
                    segment,
                    arity,
                    depth,
                )?;
                self.walk_type_path(
                    context,
                    scope,
                    spanned(member, segment.ident.span),
                    rest,
                    arity,
                    depth,
                )
            },
        }
    }

    /// The type that a name with type arguments stands for.
    pub fn resolve_applied_type(
        &mut self,
        context: ResolveContext,
        scope: Option<GenericScope>,
        segment: &PathSegment,
        span: TextSpan,
        arity: TypeArgArity,
        depth: usize,
    ) -> (result: TypeIndex)
        ensures
            (final(self)@, result) == old(self)@.resolve_applied_type(
                context,
                scope,
                segment,
                span,
                arity,
                signatures::resolver(depth),
            ),
        decreases depth, 3int, segment, 1int,
    {
        let name: Symbol = segment.ident.inner;
        let shadowed = match scope {
            Some(scope) => self.identifier_type_param_index(scope.owner, name).is_some(),
            None => false,
        };
        if shadowed {
            self.report(report_type_args_not_supported(context.at(span)));
            return ty::ERROR;
        }
        self.ensure_named(context.namespace, SymbolNamespace::Type, name, depth);
        let kind = match self.lookup_global_symbol(context.namespace, SymbolNamespace::Type, name) {
            Some(kind) => kind,
            None => {
                self.report(report_type_args_not_supported(context.at(span)));
                return ty::ERROR;
            },
        };
        let args = self.resolve_types(context, scope, &segment.type_args, depth);
        self.resolve_generic_type_application(context, kind, &args, segment.ident.span, arity)
    }

    /// The type that a `::` path stands for; the poison type where it is wrong.
    pub fn resolve_path_type(
        &mut self,
        context: ResolveContext,
        scope: Option<GenericScope>,
        path: &List<PathSegment>,
        span: TextSpan,
        arity: TypeArgArity,
        depth: usize,
    ) -> (result: TypeIndex)
        ensures
            (final(self)@, result) == old(self)@.resolve_path_type(
                context,
                scope,
                path,
                span,
                arity,
                signatures::resolver(depth),
            ),
        decreases depth, 3int, path, 3int,
    {
        match path {
            List::Nil => ty::ERROR,
            List::Cons(first, rest) => {
                if rest.is_empty() && !first.type_args.is_empty() {
                    let applied: TypeIndex = self.resolve_applied_type(
                        context,
                        scope,
                        first,
                        span,
                        arity,
                        depth,
                    );
                    return applied;
                }
                let start = self.resolve_type_identifier(
                    context,
                    scope,
                    first.ident,
                    arity,
                    depth,
                );
                match start {
                    Some(start) => {
                        let found = self.walk_type_path(
                            context,
                            scope,
                            spanned(start, first.ident.span),
                            rest,
                            arity,
                            depth,
                        );
                        type_or_error(found)
                    },
                    None => ty::ERROR,
                }
            },
        }
    }

    /// Resolves several types in order.
    pub fn resolve_types(
        &mut self,
        context: ResolveContext,
        scope: Option<GenericScope>,
        types: &List<Spanned<TypeExpression>>,
        depth: usize,
    ) -> (result: List<TypeIndex>)
        ensures
            (final(self)@, result) == old(self)@.resolve_types(
                context,
                scope,
                types,
                signatures::resolver(depth),
            ),
        decreases depth, 3int, types, 0int,
    {
        match types {
            List::Nil => List::Nil,
            List::Cons(first, rest) => {
                let index: TypeIndex = self.resolve_type(context, scope, first, depth);
                let others = self.resolve_types(context, scope, rest, depth);
                cons(index, others)
            },
        }
    }

    /// The type that is written; the poison type where it is wrong, which is
    /// reported.
    pub fn resolve_type(
        &mut self,
        context: ResolveContext,
        scope: Option<GenericScope>,
        type_expr: &Spanned<TypeExpression>,
        depth: usize,
    ) -> (result: TypeIndex)
        ensures
            (final(self)@, result) == old(self)@.resolve_type(
                context,
                scope,
                type_expr,
                signatures::resolver(depth),
            ),
        decreases depth, 3int, type_expr, 0int,
    {
        let span = context.at(type_expr.span);
        match &type_expr.inner {
            TypeExpression::Infer => ty::INFER,
            TypeExpression::Path(path) => self.resolve_path_type(
                context,
                scope,
                path,
                type_expr.span,
                TypeArgArity::RequireExact,
                depth,
            ),
            TypeExpression::Function { params, result } => {
                let result: TypeIndex = match result {
                    Some(result) => self.resolve_type(context, scope, result, depth),
                    None => ty::UNIT,
                };
                let params = self.resolve_types(context, scope, params, depth);
                self.intern_type(
                    Type::Function { signature: FunctionSignature { params, result } },
                )
            },
            TypeExpression::Pointer { mutability, inner } => {
                let to: TypeIndex = self.resolve_type(context, scope, inner, depth);
                let memory = self.resolve_ambient_memory(span, depth);
                match memory {
                    Some(memory) => self.intern_type(
                        Type::Pointer { to, memory, mutable: mutability.is_some() },
                    ),
                    None => ty::ERROR,
                }
            },
            TypeExpression::Slice { mutability, inner } => {
                let of: TypeIndex = self.resolve_type(context, scope, inner, depth);
                let memory = self.resolve_ambient_memory(span, depth);
                match memory {
                    Some(memory) => self.intern_type(
                        Type::Slice { of, memory, mutable: mutability.is_some() },
                    ),
                    None => ty::ERROR,
                }
            },
            TypeExpression::Array { size, mutability, inner } => {
                let of: TypeIndex = self.resolve_type(context, scope, inner, depth);
                let memory = self.resolve_ambient_memory(span, depth);
                match memory {
                    Some(memory) => self.intern_type(
                        Type::Array { of, size: *size, memory, mutable: mutability.is_some() },
                    ),
                    None => ty::ERROR,
                }
            },
            TypeExpression::Tuple { elements } => {
                if elements.is_empty() {
                    return ty::UNIT;
                }
                let elements = self.resolve_types(context, scope, elements, depth);
                self.intern_type(Type::Tuple { elements })
            },
            TypeExpression::MemoryTagged { memory, inner } => {
                let tagged = self.resolve_memory_path(context, scope, memory, depth);
                match tagged {
                    Some(memory) => {
                        self.resolve_tagged_type(context, scope, memory, inner, depth)
                    },
                    None => ty::ERROR,
                }
            },
            TypeExpression::GenericApplication { name, args } => {
                self.resolve_application(context, scope, *name, args, depth)
            },
        }
    }

    /// The memory that a path before a pointer, slice or array names.
    pub fn resolve_memory_path(
        &mut self,
        context: ResolveContext,
        scope: Option<GenericScope>,
        path: &List<PathSegment>,
        depth: usize,
    ) -> (result: Option<TypeIndex>)
        ensures
            (final(self)@, result) == old(self)@.resolve_memory_path(
                context,
                scope,
                path,
                signatures::resolver(depth),
            ),
        decreases depth, 3int, path, 3int,
    {
        match path {
            List::Nil => None,
            List::Cons(first, rest) => {
                let start: TypeIndex = self.resolve_type_identifier(
                    context,
                    scope,
                    first.ident,
                    TypeArgArity::RequireExact,
                    depth,
                )?;
                let memory: TypeIndex = self.walk_type_path(
                    context,
                    scope,
                    spanned(start, first.ident.span),
                    rest,
                    TypeArgArity::RequireExact,
                    depth,
                )?;
                match self.ty(memory) {
                    Type::Memory { .. }
                    | Type::TypeParam { .. }
                    | Type::AssocTypeProjection { .. } => {
                        Some(memory)
                    },
                    _ => {
                        let span = join_spans(
                            first.ident.span,
                            last_span(path, first.ident.span),
                        );
                        self.report(report_not_a_memory(memory, context.at(span)));
                        None
                    },
                }
            },
        }
    }

    /// The pointer, slice or array type in a named memory.
    pub fn resolve_tagged_type(
        &mut self,
        context: ResolveContext,
        scope: Option<GenericScope>,
        memory: TypeIndex,
        type_expr: &Spanned<TypeExpression>,
        depth: usize,
    ) -> (result: TypeIndex)
        ensures
            (final(self)@, result) == old(self)@.resolve_tagged_type(
                context,
                scope,
                memory,
                type_expr,
                signatures::resolver(depth),
            ),
        decreases depth, 3int, type_expr, 1int,
    {
        match &type_expr.inner {
            TypeExpression::Pointer { mutability, inner } => {
                let to: TypeIndex = self.resolve_type(context, scope, inner, depth);
                self.intern_type(Type::Pointer { to, memory, mutable: mutability.is_some() })
            },
            TypeExpression::Array { size, mutability, inner } => {
                let of: TypeIndex = self.resolve_type(context, scope, inner, depth);
                self.intern_type(
                    Type::Array { of, size: *size, memory, mutable: mutability.is_some() },
                )
            },
            TypeExpression::Slice { mutability, inner } => {
                let of: TypeIndex = self.resolve_type(context, scope, inner, depth);
                self.intern_type(Type::Slice { of, memory, mutable: mutability.is_some() })
            },
            _ => {
                self.report(report_memory_prefix(context.at(type_expr.span)));
                ty::ERROR
            },
        }
    }

    /// The type `Name<T, U>`.
    pub fn resolve_application(
        &mut self,
        context: ResolveContext,
        scope: Option<GenericScope>,
        name: Spanned<Symbol>,
        args: &List<Spanned<TypeExpression>>,
        depth: usize,
    ) -> (result: TypeIndex)
        ensures
            (final(self)@, result) == old(self)@.resolve_application(
                context,
                scope,
                name,
                args,
                signatures::resolver(depth),
            ),
        decreases depth, 3int, args, 1int,
    {
        self.ensure_named(context.namespace, SymbolNamespace::Type, name.inner, depth);
        let kind = self.lookup_global_symbol(
            context.namespace,
            SymbolNamespace::Type,
            name.inner,
        );
        let args = self.resolve_types(context, scope, args, depth);
        match kind {
            Some(SymbolKind::Struct { struct_index }) => {
                self.resolve_generic_type_application(
                    context,
                    SymbolKind::Struct { struct_index },
                    &args,
                    name.span,
                    TypeArgArity::RequireExact,
                )
            },
            Some(SymbolKind::TypeAlias { type_alias_index }) => {
                self.resolve_generic_type_application(
                    context,
                    SymbolKind::TypeAlias { type_alias_index },
                    &args,
                    name.span,
                    TypeArgArity::RequireExact,
                )
            },
            _ => {
                let found = self.resolve_type_identifier(
                    context,
                    scope,
                    name,
                    TypeArgArity::RequireExact,
                    depth,
                );
                type_or_error(found)
            },
        }
    }

    /// The type that is written in a signature, where no part may be left to
    /// inference.
    pub fn resolve_signature_type(
        &mut self,
        context: ResolveContext,
        scope: Option<GenericScope>,
        type_expr: &Spanned<TypeExpression>,
        depth: usize,
    ) -> (result: TypeIndex)
        ensures
            (final(self)@, result) == old(self)@.resolve_signature_type(
                context,
                scope,
                type_expr,
                signatures::resolver(depth),
            ),
        decreases depth, 3int, type_expr, 2int,
    {
        let index: TypeIndex = self.resolve_type(context, scope, type_expr, depth);
        if self.contains_infer(index) {
            self.report(report_infer_in_signature(context.at(type_expr.span)));
        }
        index
    }

    /// The bound that the meaning of a name gives, with its use recorded.
    pub fn bound_of_symbol(
        &mut self,
        kind: Option<SymbolKind>,
        name_span: SourceSpan,
        span: SourceSpan,
    ) -> (result: Option<BoundKind>)
        ensures
            (final(self)@, result) == old(self)@.bound_of_symbol(kind, name_span, span),
    {
        proof {
            reveal(State::bound_of_symbol);
        }
        match kind {
            Some(SymbolKind::Trait { trait_index }) => {
                self.access(AccessTarget::Trait(trait_index), name_span);
                Some(BoundKind::Trait(trait_index))
            },
            Some(SymbolKind::TypeSet { typeset_index }) => {
                self.access(AccessTarget::TypeSet(typeset_index), name_span);
                Some(BoundKind::TypeSet(typeset_index))
            },
            _ => {
                self.report(report_expected_bound(span));
                None
            },
        }
    }

    /// The trait or typeset that a name without `::` stands for.
    pub fn resolve_identifier_as_bound(
        &mut self,
        context: ResolveContext,
        name: Spanned<Symbol>,
        span: TextSpan,
        depth: usize,
    ) -> (result: Option<BoundKind>)
        ensures
            (final(self)@, result) == old(self)@.resolve_identifier_as_bound(
                context,
                name,
                span,
                signatures::resolver(depth),
            ),
        decreases depth, 2int, List::<usize>::Nil, 0int,
    {
        let kind = self.resolve_pending_global_symbol(
            context.namespace,
            SymbolNamespace::Type,
            name.inner,
            context.at(name.span),
            depth,
        )?;
        if kind.is_none() {
            self.report(report_unknown_bound(name.inner, context.at(span)));
            return None;
        }
        self.bound_of_symbol(kind, context.at(name.span), context.at(span))
    }

    /// The trait or typeset at the end of a path that goes on from a module.
    pub fn walk_bound_path(
        &mut self,
        context: ResolveContext,
        namespace: Spanned<TypeIndex>,
        path: &List<PathSegment>,
        depth: usize,
    ) -> (result: Option<BoundKind>)
        ensures
            (final(self)@, result) == old(self)@.walk_bound_path(
                context,
                namespace,
                path,
                signatures::resolver(depth),
            ),
        decreases depth, 3int, path, 0int,
    {
        match path {
            List::Nil => None,
            List::Cons(segment, rest) => {
                if !rest.is_empty() {
                    let member: TypeIndex = self.resolve_namespace_type_member(
                        context,
                        None,
                        namespace,
                        segment,
                        TypeArgArity::RequireExact,
                        depth,
                    )?;
                    return self.walk_bound_path(
                        context,
                        spanned(member, segment.ident.span),
                        rest,
                        depth,
                    );
                }
                match self.ty(namespace.inner) {
                    Type::Namespace { namespace_idx } => {
                        let span = context.at(segment.ident.span);
                        let kind = self.resolve_pending_namespace_symbol(
                            namespace_idx,
                            SymbolNamespace::Type,
                            segment.ident.inner,
                            span,
                            depth,
                        )?;
                        self.bound_of_symbol(kind, span, span)
                    },
                    _ => {
                        self.report(report_expected_module(context.at(namespace.span)));
                        None
                    },
                }
            },
        }
    }

    /// The trait or typeset that a path stands for. What is wrong is reported.
    pub fn resolve_path_segments_as_bound(
        &mut self,
        context: ResolveContext,
        path: &List<PathSegment>,
        span: TextSpan,
        depth: usize,
    ) -> (result: Option<BoundKind>)
        ensures
            (final(self)@, result) == old(self)@.resolve_path_segments_as_bound(
                context,
                path,
                span,
                signatures::resolver(depth),
            ),
        decreases depth, 3int, path, 1int,
    {
        match path {
            List::Nil => None,
            List::Cons(first, rest) => {
                if rest.is_empty() {
                    return self.resolve_identifier_as_bound(context, first.ident, span, depth);
                }
                let start: TypeIndex = self.resolve_type_identifier(
                    context,
                    None,
                    first.ident,
                    TypeArgArity::RequireExact,
                    depth,
                )?;
                self.walk_bound_path(context, spanned(start, first.ident.span), rest, depth)
            },
        }
    }

    /// The clauses on the associated types of a trait, ordered by name.
    pub fn resolve_where_bindings(
        &mut self,
        context: ResolveContext,
        scope: Option<GenericScope>,
        trait_index: usize,
        clauses: &List<WhereBinding>,
        resolved: List<AssocBinding>,
        depth: usize,
    ) -> (result: List<AssocBinding>)
        ensures
            (final(self)@, result) == old(self)@.resolve_where_bindings(
                context,
                scope,
                trait_index,
                clauses,
                resolved,
                signatures::resolver(depth),
            ),
        decreases depth, 4int, clauses, 0int,
    {
        match clauses {
            List::Nil => resolved,
            List::Cons(clause, rest) => {
                self.record_assoc_type_access(
                    trait_index,
                    clause.name.inner,
                    context.at(clause.name.span),
                );
                let (rhs, rhs_span) = match &clause.rhs {
                    BindingExpression::Equals(type_expr) => {
                        let index: TypeIndex = self.resolve_type(
                            context,
                            scope,
                            type_expr,
                            depth,
                        );
                        (AssocBindingKind::Equals(index), type_expr.span)
                    },
                    BindingExpression::Bound(bound) => {
                        let bounds = self.resolve_bounds(context, scope, bound, depth);
                        (AssocBindingKind::Bound(bounds), bound.span)
                    },
                };
                let binding = AssocBinding {
                    name: clause.name,
                    file_id: context.file_id,
                    rhs,
                    rhs_span,
                };
                self.resolve_where_bindings(
                    context,
                    scope,
                    trait_index,
                    rest,
                    insert_binding(resolved, binding),
                    depth,
                )
            },
        }
    }

    /// The bounds of several alternatives joined by `+`. At most one may be a
    /// typeset.
    pub fn resolve_bound_list(
        &mut self,
        context: ResolveContext,
        scope: Option<GenericScope>,
        items: &List<Spanned<BoundExpression>>,
        collected: Bounds,
        depth: usize,
    ) -> (result: Bounds)
        ensures
            (final(self)@, result) == old(self)@.resolve_bound_list(
                context,
                scope,
                items,
                collected,
                signatures::resolver(depth),
            ),
        decreases depth, 4int, items, 0int,
    {
        match items {
            List::Nil => collected,
            List::Cons(item, rest) => {
                let bounds = self.resolve_bounds(context, scope, item, depth);
                if bounds.typeset.is_some() && collected.typeset.is_some() {
                    self.report(report_multiple_typesets(context.at(item.span)));
                }
                let joined = join_bounds(collected, bounds);
                self.resolve_bound_list(context, scope, rest, joined, depth)
            },
        }
    }

    /// The bounds that are written; no bounds where they are wrong, which is
    /// reported.
    pub fn resolve_bounds(
        &mut self,
        context: ResolveContext,
        scope: Option<GenericScope>,
        bound: &Spanned<BoundExpression>,
        depth: usize,
    ) -> (result: Bounds)
        ensures
            (final(self)@, result) == old(self)@.resolve_bounds(
                context,
                scope,
                bound,
                signatures::resolver(depth),
            ),
        decreases depth, 4int, bound, 2int,
    {
        match &bound.inner {
            BoundExpression::Path(path) => {
                let kind = self.resolve_path_segments_as_bound(context, path, bound.span, depth);
                match kind {
                    Some(BoundKind::Trait(trait_index)) => Bounds {
                        traits: single(
                            TraitBound { trait_index, span: bound.span, bindings: List::Nil },
                        ),
                        typeset: None,
                    },
                    Some(BoundKind::TypeSet(typeset_index)) => {
                        Bounds { traits: List::Nil, typeset: Some(typeset_index) }
                    },
                    None => Bounds::none(),
                }
            },
            BoundExpression::WithBindings { path, bindings } => {
                let kind = match &**path {
                    BoundExpression::Path(path) => {
                        self.resolve_path_segments_as_bound(context, path, bound.span, depth)
                    },
                    _ => {
                        self.report(report_expected_single_trait(context.at(bound.span)));
                        return Bounds::none();
                    },
                };
                match kind {
                    Some(BoundKind::Trait(trait_index)) => {
                        let bindings = self.resolve_where_bindings(
                            context,
                            scope,
                            trait_index,
                            bindings,
                            List::Nil,
                            depth,
                        );
                        Bounds {
                            traits: single(
                                TraitBound { trait_index, span: bound.span, bindings },
                            ),
                            typeset: None,
                        }
                    },
                    Some(BoundKind::TypeSet(_)) => {
                        self.report(report_typeset_bindings(context.at(bound.span)));
                        Bounds::none()
                    },
                    None => Bounds::none(),
                }
            },
            BoundExpression::BoundList(items) => {
                self.resolve_bound_list(context, scope, items, Bounds::none(), depth)
            },
        }
    }

    /// The bounds that may be written; none where nothing is.
    pub fn resolve_optional_bounds(
        &mut self,
        context: ResolveContext,
        scope: Option<GenericScope>,
        bound: &Option<Spanned<BoundExpression>>,
        depth: usize,
    ) -> (result: Bounds)
        ensures
            (final(self)@, result) == old(self)@.resolve_optional_bounds(
                context,
                scope,
                bound,
                signatures::resolver(depth),
            ),
        decreases depth, 5int, List::<usize>::Nil, 0int,
    {
        match bound {
            Some(bound) => self.resolve_bounds(context, scope, bound, depth),
            None => Bounds::none(),
        }
    }

    /// Resolves the bounds of an owner's type parameters, from a position on.
    pub fn resolve_type_param_bounds(
        &mut self,
        context: ResolveContext,
        owner: TypeParamOwner,
        self_type: Option<TypeIndex>,
        params: &List<TypeParam>,
        index: usize,
        depth: usize,
    )
        ensures
            final(self)@ == old(self)@.resolve_type_param_bounds(
                context,
                owner,
                self_type,
                params,
                index,
                signatures::resolver(depth),
            ),
        decreases depth, 6int, params, 0int,
    {
        match params {
            List::Nil => {},
            List::Cons(param, rest) => {
                let bounds = self.resolve_optional_bounds(
                    context,
                    Some(GenericScope { owner, self_type }),
                    &param.bounds,
                    depth,
                );
                self.set_own_param_bounds(owner, index, bounds);
                self.resolve_type_param_bounds(
                    context,
                    owner,
                    self_type,
                    rest,
                    next_index(index),
                    depth,
                );
            },
        }
    }

    /// The type `Self` for a parameter named `self`.
    pub fn receiver_type(
        &self,
        scope: Option<GenericScope>,
        name: Symbol,
    ) -> (result: Option<TypeIndex>)
        ensures
            result == self@.receiver_type(scope, name),
    {
        match scope {
            Some(scope) => if name == self.names.self_value {
                scope.self_type
            } else {
                None
            },
            None => None,
        }
    }

    /// Reports a receiver whose written type is neither `Self` nor a pointer to
    /// it.
    pub fn check_receiver_type(
        &mut self,
        self_type: Option<TypeIndex>,
        index: TypeIndex,
        span: SourceSpan,
    )
        ensures
            final(self)@ == old(self)@.check_receiver_type(self_type, index, span),
    {
        proof {
            reveal(State::check_receiver_type);
        }
        match self_type {
            Some(self_type) => {
                let points_to_self = match self.ty(index) {
                    Type::Pointer { to, .. } => to == self_type,
                    _ => false,
                };
                if index != self_type && !points_to_self {
                    self.report(report_invalid_self_type(index, span));
                }
            },
            None => {},
        }
    }

    /// The type of a parameter. A parameter `self` has the type `Self`, a
    /// pointer to it, or none written, which means `Self`.
    pub fn resolve_param_type(
        &mut self,
        context: ResolveContext,
        scope: Option<GenericScope>,
        param: &Param,
        depth: usize,
    ) -> (result: Spanned<TypeIndex>)
        ensures
            (final(self)@, result) == old(self)@.resolve_param_type(
                context,
                scope,
                param,
                signatures::resolver(depth),
            ),
        decreases depth, 5int, List::<usize>::Nil, 0int,
    {
        match &param.ty {
            Some(type_expr) => {
                let index: TypeIndex = self.resolve_signature_type(
                    context,
                    scope,
                    type_expr,
                    depth,
                );
                self.check_receiver_type(
                    self.receiver_type(scope, param.name.inner),
                    index,
                    context.at(type_expr.span),
                );
                spanned(index, type_expr.span)
            },
            None => match self.receiver_type(scope, param.name.inner) {
                Some(self_type) => spanned(self_type, param.name.span),
                None => spanned(ty::ERROR, param.name.span),
            },
        }
    }

    /// The parameters of a function. Two of the same name are reported.
    pub fn resolve_params(
        &mut self,
        context: ResolveContext,
        scope: Option<GenericScope>,
        params: &List<Param>,
        resolved: List<FunctionParam>,
        depth: usize,
    ) -> (result: List<FunctionParam>)
        ensures
            (final(self)@, result) == old(self)@.resolve_params(
                context,
                scope,
                params,
                resolved,
                signatures::resolver(depth),
            ),
        decreases depth, 6int, params, 0int,
    {
        match params {
            List::Nil => resolved,
            List::Cons(param, rest) => {
                match find_named_param(&resolved, param.name.inner) {
                    Some(first) => {
                        self.report(
                            report_duplicate_parameter(
                                param.name.inner,
                                context.at(first),
                                context.at(param.name.span),
                            ),
                        );
                    },
                    None => {},
                }
                let ty = self.resolve_param_type(context, scope, param, depth);
                let next = FunctionParam { mut_span: param.mut_span, name: param.name, ty };
                self.resolve_params(context, scope, rest, resolved.push(next), depth)
            },
        }
    }

    /// The parameters and the result of a function.
    pub fn build_function_signature(
        &mut self,
        context: ResolveContext,
        scope: Option<GenericScope>,
        signature: &ast::FunctionSignature,
        depth: usize,
    ) -> (result: (List<FunctionParam>, Option<Spanned<TypeIndex>>))
        ensures
            (final(self)@, result) == old(self)@.build_function_signature(
                context,
                scope,
                signature,
                signatures::resolver(depth),
            ),
        decreases depth, 7int, List::<usize>::Nil, 0int,
    {
        let params = self.resolve_params(context, scope, &signature.params, List::Nil, depth);
        match &signature.result {
            Some(type_expr) => {
                let index: TypeIndex = self.resolve_signature_type(
                    context,
                    scope,
                    type_expr,
                    depth,
                );
                (params, Some(spanned(index, type_expr.span)))
            },
            None => (params, None),
        }
    }

    /// What a name without `::` stands for in an expression: a local first, then
    /// what is visible from the namespace.
    pub fn resolve_symbol(
        &self,
        ctx: &ExprContext,
        symbol: Symbol,
    ) -> (result: Option<ResolvedSymbol>)
        ensures
            result == self@.resolve_symbol(ctx, symbol),
    {
        match ctx.resolve_local(symbol) {
            Some((scope_index, local_index)) => {
                Some(ResolvedSymbol::Local { scope_index, local_index })
            },
            None => match self.lookup_global_symbol(
                ctx.resolve_context.namespace,
                SymbolNamespace::Value,
                symbol,
            ) {
                Some(kind) => Some(ResolvedSymbol::Global(kind)),
                None => None,
            },
        }
    }

    /// The expression that a name stands for, with its use recorded. A write to
    /// something immutable is reported.
    pub fn resolved_symbol_to_expression(
        &mut self,
        ctx: &mut ExprContext,
        access: AccessContext,
        resolved: ResolvedSymbol,
        span: TextSpan,
    ) -> (result: Expression)
        ensures
            (final(self)@, *final(ctx), result) == old(self)@.resolved_symbol_to_expression(
                *old(ctx),
                access,
                resolved,
                span,
            ),
    {
        proof {
            reveal(State::resolved_symbol_to_expression);
        }
        match resolved {
            ResolvedSymbol::Local { scope_index, local_index } => {
                ctx.record_local_access(
                    scope_index,
                    local_index,
                    LocalAccess { kind: access.access_kind, span },
                );
                let (ty, mut_span) = match ctx.local(scope_index, local_index) {
                    Some(local) => (local.ty, local.mut_span),
                    None => (ty::ERROR, None),
                };
                if access.access_kind != AccessKind::Read && mut_span.is_none() {
                    self.report(report_cannot_mutate_immutable(ctx.resolve_context.at(span)));
                }
                typed(ExprKind::Local { scope_index, local_index }, ty, span)
            },
            ResolvedSymbol::Global(kind) => {
                let expr = self.global_symbol_to_expression(
                    ctx.resolve_context,
                    access,
                    kind,
                    span,
                );
                expr
            },
        }
    }
}

} // verus!
