//! What `resolve` does to the state only adds to it.

use vstd::prelude::*;

use crate::ast;
use crate::ast::{
    BindingExpression, BoundExpression, Param, PathSegment, TypeExpression, TypeParam,
    WhereBinding,
};
use crate::growth;
use crate::list::List;
use crate::lookup;
use crate::lookup::TypeArgArity;
use crate::members::MemberLookup;
use crate::reports::{
    report_ambiguous_pointer_memory, report_cyclic_type_dependency, report_duplicate_parameter,
    report_expected_single_trait, report_multiple_typesets, report_no_memory_for_pointer,
    report_type_args_not_supported,
};
use crate::resolve;
use crate::resolve::{BoundKind, ResolvedSymbol};
use crate::scope::{next_index, ExprContext};
use crate::shape::spanned;
use crate::span::{DefId, SourceSpan, Spanned, Symbol, TextSpan};
use crate::state;
use crate::state::State;
use crate::substitute;
use crate::tir::{
    AccessContext, AccessTarget, AssocBinding, AssocBindingKind, Bounds, FunctionParam,
    GenericScope, ImplEntry, ResolveContext, SymbolKind, SymbolNamespace, TraitBound,
};
use crate::ty;
use crate::types::{Type, TypeIndex, TypeParamOwner};

verus! {

impl<'ast> State<'ast> {
    pub proof fn adds_ensure_all(
        self,
        ids: &List<DefId>,
        pending: spec_fn(State<'ast>, DefId) -> State<'ast>,
    )
        requires
            growth::resolver_adds(pending),
        ensures
            self.only_adds(self.ensure_all(ids, pending)),
        decreases 1int, ids, 0int,
    {
        broadcast use crate::growth::group_finishing;

        self.adds_nothing();
        match ids {
            List::Nil => {},
            List::Cons(id, rest) => {
                self.adds_ensure_pending(**id, pending);
                let s = self.ensure_pending(**id, pending);
                s.adds_ensure_all(rest, pending);
            },
        }
    }

    pub proof fn adds_ensure_named(
        self,
        namespace: Option<usize>,
        space: SymbolNamespace,
        name: Symbol,
        pending: spec_fn(State<'ast>, DefId) -> State<'ast>,
    )
        requires
            growth::resolver_adds(pending),
        ensures
            self.only_adds(self.ensure_named(namespace, space, name, pending)),
        decreases 1int, List::<usize>::Nil, 0int,
    {
        broadcast use crate::growth::group_finishing;

        self.adds_nothing();
        match self.visible_symbol(namespace, space, name) {
            Some(SymbolKind::Pending(id)) => {
                self.adds_ensure_pending(id, pending);
            },
            _ => {},
        }
    }

    pub proof fn adds_resolve_pending_global_symbol(
        self,
        namespace: Option<usize>,
        space: SymbolNamespace,
        name: Symbol,
        span: SourceSpan,
        pending: spec_fn(State<'ast>, DefId) -> State<'ast>,
    )
        requires
            growth::resolver_adds(pending),
        ensures
            self.only_adds(
                self.resolve_pending_global_symbol(namespace, space, name, span, pending).0,
            ),
        decreases 1int, List::<usize>::Nil, 0int,
    {
        broadcast use crate::growth::group_finishing;

        self.adds_nothing();
        match self.visible_symbol(namespace, space, name) {
            Some(SymbolKind::Pending(id)) => {
                if self.is_in_progress(id) {
                    let s = self.report(report_cyclic_type_dependency(span));
                } else {
                    self.adds_ensure_pending(id, pending);
                }
            },
            other => {},
        }
    }

    pub proof fn adds_resolve_pending_namespace_symbol(
        self,
        namespace_idx: usize,
        space: SymbolNamespace,
        name: Symbol,
        span: SourceSpan,
        pending: spec_fn(State<'ast>, DefId) -> State<'ast>,
    )
        requires
            growth::resolver_adds(pending),
        ensures
            self.only_adds(
                self.resolve_pending_namespace_symbol(
                    namespace_idx,
                    space,
                    name,
                    span,
                    pending,
                ).0,
            ),
        decreases 1int, List::<usize>::Nil, 0int,
    {
        broadcast use crate::growth::group_finishing;

        self.adds_nothing();
        match self.direct_symbol(Some(namespace_idx), space, name) {
            Some(SymbolKind::Pending(id)) => {
                if self.is_in_progress(id) {
                    let s = self.report(report_cyclic_type_dependency(span));
                } else {
                    self.adds_ensure_pending(id, pending);
                }
            },
            other => {},
        }
    }

    pub proof fn adds_resolve_ambient_memory(
        self,
        span: SourceSpan,
        pending: spec_fn(State<'ast>, DefId) -> State<'ast>,
    )
        requires
            growth::resolver_adds(pending),
        ensures
            self.only_adds(self.resolve_ambient_memory(span, pending).0),
        decreases 2int, List::<usize>::Nil, 0int,
    {
        broadcast use crate::growth::group_finishing;

        self.adds_nothing();
        if (self.memories.len() as usize) == 0 {
            let s = self.report(report_no_memory_for_pointer(span));
        } else {
            if (self.memories.len() as usize) > 1 {
                let s = self.report(report_ambiguous_pointer_memory(span));
            } else {
                let id = match state::seq_ref(self.memories, 0) {
                    Some(memory) => memory.id,
                    None => 0,
                };
                self.adds_ensure_pending(id, pending);
            }
        }
    }

    pub broadcast proof fn adds_resolve_scoped_param(
        self,
        context: ResolveContext,
        scope: Option<GenericScope>,
        name: Spanned<Symbol>,
    )
        ensures
            self.only_adds((#[trigger] self.resolve_scoped_param(context, scope, name)).0),
    {
        broadcast use crate::growth::group_adding;

        self.adds_nothing();
        reveal(State::resolve_scoped_param);
    }

    pub proof fn adds_resolve_type_identifier(
        self,
        context: ResolveContext,
        scope: Option<GenericScope>,
        name: Spanned<Symbol>,
        arity: TypeArgArity,
        pending: spec_fn(State<'ast>, DefId) -> State<'ast>,
    )
        requires
            growth::resolver_adds(pending),
        ensures
            self.only_adds(self.resolve_type_identifier(context, scope, name, arity, pending).0),
        decreases 2int, List::<usize>::Nil, 0int,
    {
        broadcast use crate::growth::group_finishing;

        self.adds_nothing();
        match self.primitive_type(name.inner) {
            Some(primitive) => {},
            None => {
                let (s, param) = self.resolve_scoped_param(context, scope, name);
                if param.is_some() {
                } else {
                    let span = context.at(name.span);
                    match s.self_keyword(scope, name.inner) {
                        Some((owner, self_type)) => {
                            let s = s.self_keyword_access(owner, span);
                        },
                        None => {
                            s.adds_resolve_pending_global_symbol(
                                context.namespace,
                                SymbolNamespace::Type,
                                name.inner,
                                span,
                                pending,
                            );
                            let (s, kind) = s.resolve_pending_global_symbol(
                                context.namespace,
                                SymbolNamespace::Type,
                                name.inner,
                                span,
                                pending,
                            );
                            match kind {
                                Some(kind) => {},
                                None => {},
                            }
                        },
                    }
                }
            },
        }
    }

    pub broadcast proof fn adds_type_of_symbol(
        self,
        context: ResolveContext,
        kind: Option<SymbolKind>,
        name: Spanned<Symbol>,
        arity: TypeArgArity,
    )
        ensures
            self.only_adds((#[trigger] self.type_of_symbol(context, kind, name, arity)).0),
    {
        broadcast use crate::growth::group_adding;

        self.adds_nothing();
        reveal(State::type_of_symbol);
        let span = context.at(name.span);
        match kind {
            Some(SymbolKind::TraitAssocType { trait_index: _, assoc_name }) => {},
            Some(SymbolKind::Trait { .. }) | Some(SymbolKind::TypeSet { .. }) => {},
            Some(SymbolKind::Struct { .. }) | Some(SymbolKind::TypeAlias { .. }) => {
                self.adds_apply_named_type(context, kind, &List::Nil, name.span, arity);
            },
            Some(other) => {
                self.adds_plain_type_of_symbol(other, span);
            },
            None => {},
        }
    }

    pub broadcast proof fn adds_apply_named_type(
        self,
        context: ResolveContext,
        kind: Option<SymbolKind>,
        args: &List<TypeIndex>,
        span: TextSpan,
        arity: TypeArgArity,
    )
        ensures
            self.only_adds(
                (#[trigger] self.apply_named_type(context, kind, args, span, arity)).0,
            ),
    {
        broadcast use crate::growth::group_adding;

        self.adds_nothing();
        reveal(State::apply_named_type);
        match kind {
            Some(kind) => {
                self.adds_resolve_generic_type_application(context, kind, args, span, arity);
            },
            None => {},
        }
    }

    pub broadcast proof fn adds_plain_type_of_symbol(self, kind: SymbolKind, span: SourceSpan)
        ensures
            self.only_adds((#[trigger] self.plain_type_of_symbol(kind, span)).0),
    {
        broadcast use crate::growth::group_adding;

        self.adds_nothing();
    }

    pub proof fn adds_project_member(
        self,
        context: ResolveContext,
        traits: &List<TraitBound>,
        base: TypeIndex,
        member: Spanned<Symbol>,
        pending: spec_fn(State<'ast>, DefId) -> State<'ast>,
    )
        requires
            growth::resolver_adds(pending),
        ensures
            self.only_adds(self.project_member(context, traits, base, member, pending).0),
        decreases 2int, traits, 0int,
    {
        broadcast use crate::growth::group_finishing;

        self.adds_nothing();
        match traits {
            List::Nil => {},
            List::Cons(bound, rest) => {
                let ids = self.trait_member_ids(bound.trait_index);
                self.adds_ensure_all(&ids, pending);
                let s = self.ensure_all(&ids, pending);
                let is_type = match state::seq_ref(s.traits, bound.trait_index) {
                    Some(declaration) => {
                        match substitute::member_entry(declaration.members, member.inner) {
                            Some(ImplEntry::AssocType { .. }) => true,
                            _ => false,
                        }
                    },
                    None => false,
                };
                if is_type {
                    let s = s.record_assoc_type_access(
                        bound.trait_index,
                        member.inner,
                        context.at(member.span),
                    );
                    let (s, projection) = s.intern(
                        Type::AssocTypeProjection {
                            base,
                            assoc_name: member.inner,
                            trait_index: bound.trait_index,
                        },
                    );
                } else {
                    s.adds_project_member(context, rest, base, member, pending);
                }
            },
        }
    }

    pub proof fn adds_resolve_namespace_type_member(
        self,
        context: ResolveContext,
        scope: Option<GenericScope>,
        namespace: Spanned<TypeIndex>,
        member: &PathSegment,
        arity: TypeArgArity,
        pending: spec_fn(State<'ast>, DefId) -> State<'ast>,
    )
        requires
            growth::resolver_adds(pending),
        ensures
            self.only_adds(
                self.resolve_namespace_type_member(
                    context,
                    scope,
                    namespace,
                    member,
                    arity,
                    pending,
                ).0,
            ),
        decreases 3int, member, 1int,
    {
        broadcast use crate::growth::group_finishing;

        self.adds_nothing();
        let name = member.ident;
        let span = context.at(name.span);
        match self.ty(namespace.inner) {
            Type::Namespace { namespace_idx } => {
                let s = self.access(
                    AccessTarget::Namespace(namespace_idx),
                    context.at(namespace.span),
                );
                s.adds_resolve_pending_namespace_symbol(
                    namespace_idx,
                    SymbolNamespace::Type,
                    name.inner,
                    span,
                    pending,
                );
                let (s, kind) = s.resolve_pending_namespace_symbol(
                    namespace_idx,
                    SymbolNamespace::Type,
                    name.inner,
                    span,
                    pending,
                );
                match kind {
                    Some(kind) => {
                        match kind {
                            Some(SymbolKind::Struct { .. })
                            | Some(SymbolKind::TypeAlias { .. }) => {
                                s.adds_resolve_types(context, scope, &member.type_args, pending);
                            },
                            Some(other) => {},
                            None => {},
                        }
                    },
                    None => {},
                }
            },
            other => {
                if !member.type_args.is_empty() {
                    let s = self.report(report_type_args_not_supported(span));
                } else {
                    match other {
                        Type::TypeParam { .. } => {
                            let bounds = self.param_bounds(namespace.inner);
                            self.adds_project_member(
                                context,
                                &bounds.traits,
                                namespace.inner,
                                name,
                                pending,
                            );
                        },
                        Type::AssocTypeProjection { base: _, assoc_name, trait_index } => {
                            let bounds = match self.assoc_type_bounds(trait_index, assoc_name) {
                                Some(bounds) => bounds,
                                None => Bounds::none(),
                            };
                            self.adds_project_member(
                                context,
                                &bounds.traits,
                                namespace.inner,
                                name,
                                pending,
                            );
                        },
                        _ => {},
                    }
                }
            },
        }
    }

    pub broadcast proof fn adds_resolve_impl_type_member(
        self,
        context: ResolveContext,
        namespace: TypeIndex,
        name: Spanned<Symbol>,
    )
        ensures
            self.only_adds(
                (#[trigger] self.resolve_impl_type_member(context, namespace, name)).0,
            ),
    {
        broadcast use crate::growth::group_adding;

        self.adds_nothing();
        reveal(State::resolve_impl_type_member);
        self.adds_resolve_impl_member(context, namespace, name.inner, name.span);
        let (s, lookup) = self.resolve_impl_member(context, namespace, name.inner, name.span);
        match lookup {
            MemberLookup::Trait { entry: ImplEntry::AssocType { ty }, type_args: _, trait_index } => {
                s.adds_record_assoc_type_access(trait_index, name.inner, context.at(name.span));
            },
            MemberLookup::Inherent { entry: ImplEntry::AssocType { ty }, type_args: _ } => {},
            MemberLookup::Ambiguous => {},
            _ => {},
        }
    }

    pub proof fn adds_walk_type_path(
        self,
        context: ResolveContext,
        scope: Option<GenericScope>,
        namespace: Spanned<TypeIndex>,
        path: &List<PathSegment>,
        arity: TypeArgArity,
        pending: spec_fn(State<'ast>, DefId) -> State<'ast>,
    )
        requires
            growth::resolver_adds(pending),
        ensures
            self.only_adds(
                self.walk_type_path(context, scope, namespace, path, arity, pending).0,
            ),
        decreases 3int, path, 2int,
    {
        broadcast use crate::growth::group_finishing;

        self.adds_nothing();
        match path {
            List::Nil => {},
            List::Cons(segment, rest) => {
                self.adds_resolve_namespace_type_member(
                    context,
                    scope,
                    namespace,
                    segment,
                    arity,
                    pending,
                );
                let (s, member) = self.resolve_namespace_type_member(
                    context,
                    scope,
                    namespace,
                    segment,
                    arity,
                    pending,
                );
                match member {
                    Some(member) => {
                        s.adds_walk_type_path(
                            context,
                            scope,
                            spanned(member, segment.ident.span),
                            rest,
                            arity,
                            pending,
                        );
                    },
                    None => {},
                }
            },
        }
    }

    pub proof fn adds_resolve_applied_type(
        self,
        context: ResolveContext,
        scope: Option<GenericScope>,
        segment: &PathSegment,
        span: TextSpan,
        arity: TypeArgArity,
        pending: spec_fn(State<'ast>, DefId) -> State<'ast>,
    )
        requires
            growth::resolver_adds(pending),
        ensures
            self.only_adds(
                self.resolve_applied_type(context, scope, segment, span, arity, pending).0,
            ),
        decreases 3int, segment, 1int,
    {
        broadcast use crate::growth::group_finishing;

        self.adds_nothing();
        let name: Symbol = segment.ident.inner;
        let shadowed = match scope {
            Some(scope) => self.scoped_param(scope.owner, name).is_some(),
            None => false,
        };
        if shadowed {
            let s = self.report(report_type_args_not_supported(context.at(span)));
        } else {
            self.adds_ensure_named(context.namespace, SymbolNamespace::Type, name, pending);
            let s = self.ensure_named(context.namespace, SymbolNamespace::Type, name, pending);
            match s.visible_symbol(context.namespace, SymbolNamespace::Type, name) {
                Some(kind) => {
                    s.adds_resolve_types(context, scope, &segment.type_args, pending);
                },
                None => {
                    let s = s.report(report_type_args_not_supported(context.at(span)));
                },
            }
        }
    }

    pub proof fn adds_resolve_path_type(
        self,
        context: ResolveContext,
        scope: Option<GenericScope>,
        path: &List<PathSegment>,
        span: TextSpan,
        arity: TypeArgArity,
        pending: spec_fn(State<'ast>, DefId) -> State<'ast>,
    )
        requires
            growth::resolver_adds(pending),
        ensures
            self.only_adds(self.resolve_path_type(context, scope, path, span, arity, pending).0),
        decreases 3int, path, 3int,
    {
        broadcast use crate::growth::group_finishing;

        self.adds_nothing();
        match path {
            List::Nil => {},
            List::Cons(first, rest) => {
                if rest.is_empty() && !first.type_args.is_empty() {
                    self.adds_resolve_applied_type(context, scope, first, span, arity, pending);
                    let (s, applied) = self.resolve_applied_type(
                        context,
                        scope,
                        first,
                        span,
                        arity,
                        pending,
                    );
                } else {
                    self.adds_resolve_type_identifier(
                        context,
                        scope,
                        first.ident,
                        arity,
                        pending,
                    );
                    let (s, start) = self.resolve_type_identifier(
                        context,
                        scope,
                        first.ident,
                        arity,
                        pending,
                    );
                    match start {
                        Some(start) => {
                            s.adds_walk_type_path(
                                context,
                                scope,
                                spanned(start, first.ident.span),
                                rest,
                                arity,
                                pending,
                            );
                        },
                        None => {},
                    }
                }
            },
        }
    }

    pub proof fn adds_resolve_types(
        self,
        context: ResolveContext,
        scope: Option<GenericScope>,
        types: &List<Spanned<TypeExpression>>,
        pending: spec_fn(State<'ast>, DefId) -> State<'ast>,
    )
        requires
            growth::resolver_adds(pending),
        ensures
            self.only_adds(self.resolve_types(context, scope, types, pending).0),
        decreases 3int, types, 0int,
    {
        broadcast use crate::growth::group_finishing;

        self.adds_nothing();
        match types {
            List::Nil => {},
            List::Cons(first, rest) => {
                self.adds_resolve_type(context, scope, first, pending);
                let (s, index) = self.resolve_type(context, scope, first, pending);
                s.adds_resolve_types(context, scope, rest, pending);
            },
        }
    }

    pub proof fn adds_resolve_type(
        self,
        context: ResolveContext,
        scope: Option<GenericScope>,
        type_expr: &Spanned<TypeExpression>,
        pending: spec_fn(State<'ast>, DefId) -> State<'ast>,
    )
        requires
            growth::resolver_adds(pending),
        ensures
            self.only_adds(self.resolve_type(context, scope, type_expr, pending).0),
        decreases 3int, type_expr, 0int,
    {
        broadcast use crate::growth::group_finishing;

        self.adds_nothing();
        let span = context.at(type_expr.span);
        match &type_expr.inner {
            TypeExpression::Infer => {},
            TypeExpression::Path(path) => {
                self.adds_resolve_path_type(
                    context,
                    scope,
                    path,
                    type_expr.span,
                    TypeArgArity::RequireExact,
                    pending,
                );
            },
            TypeExpression::Function { params, result } => {
                let (s, result) = match result {
                    Some(result) => {
                        self.adds_resolve_type(context, scope, result, pending);
                        self.resolve_type(context, scope, result, pending)
                    },
                    None => (self, ty::UNIT),
                };
                s.adds_resolve_types(context, scope, params, pending);
            },
            TypeExpression::Pointer { mutability, inner } => {
                self.adds_resolve_type(context, scope, inner, pending);
                let (s, to) = self.resolve_type(context, scope, inner, pending);
                s.adds_resolve_ambient_memory(span, pending);
            },
            TypeExpression::Slice { mutability, inner } => {
                self.adds_resolve_type(context, scope, inner, pending);
                let (s, of) = self.resolve_type(context, scope, inner, pending);
                s.adds_resolve_ambient_memory(span, pending);
            },
            TypeExpression::Array { size, mutability, inner } => {
                self.adds_resolve_type(context, scope, inner, pending);
                let (s, of) = self.resolve_type(context, scope, inner, pending);
                s.adds_resolve_ambient_memory(span, pending);
            },
            TypeExpression::Tuple { elements } => {
                if elements.is_empty() {
                } else {
                    self.adds_resolve_types(context, scope, elements, pending);
                }
            },
            TypeExpression::MemoryTagged { memory, inner } => {
                self.adds_resolve_memory_path(context, scope, memory, pending);
                let (s, tagged) = self.resolve_memory_path(context, scope, memory, pending);
                match tagged {
                    Some(memory) => {
                        s.adds_resolve_tagged_type(context, scope, memory, inner, pending);
                    },
                    None => {},
                }
            },
            TypeExpression::GenericApplication { name, args } => {
                self.adds_resolve_application(context, scope, *name, args, pending);
            },
        }
    }

    pub proof fn adds_resolve_memory_path(
        self,
        context: ResolveContext,
        scope: Option<GenericScope>,
        path: &List<PathSegment>,
        pending: spec_fn(State<'ast>, DefId) -> State<'ast>,
    )
        requires
            growth::resolver_adds(pending),
        ensures
            self.only_adds(self.resolve_memory_path(context, scope, path, pending).0),
        decreases 3int, path, 3int,
    {
        broadcast use crate::growth::group_finishing;

        self.adds_nothing();
        match path {
            List::Nil => {},
            List::Cons(first, rest) => {
                self.adds_resolve_type_identifier(
                    context,
                    scope,
                    first.ident,
                    TypeArgArity::RequireExact,
                    pending,
                );
                let (s, start) = self.resolve_type_identifier(
                    context,
                    scope,
                    first.ident,
                    TypeArgArity::RequireExact,
                    pending,
                );
                match start {
                    Some(start) => {
                        s.adds_walk_type_path(
                            context,
                            scope,
                            spanned(start, first.ident.span),
                            rest,
                            TypeArgArity::RequireExact,
                            pending,
                        );
                        let (s, memory) = s.walk_type_path(
                            context,
                            scope,
                            spanned(start, first.ident.span),
                            rest,
                            TypeArgArity::RequireExact,
                            pending,
                        );
                        match memory {
                            Some(memory) => {},
                            None => {},
                        }
                    },
                    None => {},
                }
            },
        }
    }

    pub proof fn adds_resolve_tagged_type(
        self,
        context: ResolveContext,
        scope: Option<GenericScope>,
        memory: TypeIndex,
        type_expr: &Spanned<TypeExpression>,
        pending: spec_fn(State<'ast>, DefId) -> State<'ast>,
    )
        requires
            growth::resolver_adds(pending),
        ensures
            self.only_adds(
                self.resolve_tagged_type(context, scope, memory, type_expr, pending).0,
            ),
        decreases 3int, type_expr, 1int,
    {
        broadcast use crate::growth::group_finishing;

        self.adds_nothing();
        match &type_expr.inner {
            TypeExpression::Pointer { mutability, inner } => {
                self.adds_resolve_type(context, scope, inner, pending);
            },
            TypeExpression::Array { size, mutability, inner } => {
                self.adds_resolve_type(context, scope, inner, pending);
            },
            TypeExpression::Slice { mutability, inner } => {
                self.adds_resolve_type(context, scope, inner, pending);
            },
            _ => {},
        }
    }

    pub proof fn adds_resolve_application(
        self,
        context: ResolveContext,
        scope: Option<GenericScope>,
        name: Spanned<Symbol>,
        args: &List<Spanned<TypeExpression>>,
        pending: spec_fn(State<'ast>, DefId) -> State<'ast>,
    )
        requires
            growth::resolver_adds(pending),
        ensures
            self.only_adds(self.resolve_application(context, scope, name, args, pending).0),
        decreases 3int, args, 1int,
    {
        broadcast use crate::growth::group_finishing;

        self.adds_nothing();
        self.adds_ensure_named(context.namespace, SymbolNamespace::Type, name.inner, pending);
        let s = self.ensure_named(context.namespace, SymbolNamespace::Type, name.inner, pending);
        let kind = s.visible_symbol(context.namespace, SymbolNamespace::Type, name.inner);
        s.adds_resolve_types(context, scope, args, pending);
        let (s, args) = s.resolve_types(context, scope, args, pending);
        match kind {
            Some(SymbolKind::Struct { struct_index }) => {},
            Some(SymbolKind::TypeAlias { type_alias_index }) => {},
            _ => {
                s.adds_resolve_type_identifier(
                    context,
                    scope,
                    name,
                    TypeArgArity::RequireExact,
                    pending,
                );
            },
        }
    }

    pub proof fn adds_resolve_signature_type(
        self,
        context: ResolveContext,
        scope: Option<GenericScope>,
        type_expr: &Spanned<TypeExpression>,
        pending: spec_fn(State<'ast>, DefId) -> State<'ast>,
    )
        requires
            growth::resolver_adds(pending),
        ensures
            self.only_adds(self.resolve_signature_type(context, scope, type_expr, pending).0),
        decreases 3int, type_expr, 2int,
    {
        broadcast use crate::growth::group_finishing;

        self.adds_nothing();
        self.adds_resolve_type(context, scope, type_expr, pending);
    }

    pub broadcast proof fn adds_bound_of_symbol(
        self,
        kind: Option<SymbolKind>,
        name_span: SourceSpan,
        span: SourceSpan,
    )
        ensures
            self.only_adds((#[trigger] self.bound_of_symbol(kind, name_span, span)).0),
    {
        broadcast use crate::growth::group_adding;

        self.adds_nothing();
        reveal(State::bound_of_symbol);
    }

    pub proof fn adds_resolve_identifier_as_bound(
        self,
        context: ResolveContext,
        name: Spanned<Symbol>,
        span: TextSpan,
        pending: spec_fn(State<'ast>, DefId) -> State<'ast>,
    )
        requires
            growth::resolver_adds(pending),
        ensures
            self.only_adds(self.resolve_identifier_as_bound(context, name, span, pending).0),
        decreases 2int, List::<usize>::Nil, 0int,
    {
        broadcast use crate::growth::group_finishing;

        self.adds_nothing();
        self.adds_resolve_pending_global_symbol(
            context.namespace,
            SymbolNamespace::Type,
            name.inner,
            context.at(name.span),
            pending,
        );
        let (s, kind) = self.resolve_pending_global_symbol(
            context.namespace,
            SymbolNamespace::Type,
            name.inner,
            context.at(name.span),
            pending,
        );
        match kind {
            Some(kind) => {},
            None => {},
        }
    }

    pub proof fn adds_walk_bound_path(
        self,
        context: ResolveContext,
        namespace: Spanned<TypeIndex>,
        path: &List<PathSegment>,
        pending: spec_fn(State<'ast>, DefId) -> State<'ast>,
    )
        requires
            growth::resolver_adds(pending),
        ensures
            self.only_adds(self.walk_bound_path(context, namespace, path, pending).0),
        decreases 3int, path, 0int,
    {
        broadcast use crate::growth::group_finishing;

        self.adds_nothing();
        match path {
            List::Nil => {},
            List::Cons(segment, rest) => {
                if !rest.is_empty() {
                    self.adds_resolve_namespace_type_member(
                        context,
                        None,
                        namespace,
                        segment,
                        TypeArgArity::RequireExact,
                        pending,
                    );
                    let (s, member) = self.resolve_namespace_type_member(
                        context,
                        None,
                        namespace,
                        segment,
                        TypeArgArity::RequireExact,
                        pending,
                    );
                    match member {
                        Some(member) => {
                            s.adds_walk_bound_path(
                                context,
                                spanned(member, segment.ident.span),
                                rest,
                                pending,
                            );
                        },
                        None => {},
                    }
                } else {
                    match self.ty(namespace.inner) {
                        Type::Namespace { namespace_idx } => {
                            let span = context.at(segment.ident.span);
                            self.adds_resolve_pending_namespace_symbol(
                                namespace_idx,
                                SymbolNamespace::Type,
                                segment.ident.inner,
                                span,
                                pending,
                            );
                            let (s, kind) = self.resolve_pending_namespace_symbol(
                                namespace_idx,
                                SymbolNamespace::Type,
                                segment.ident.inner,
                                span,
                                pending,
                            );
                            match kind {
                                Some(kind) => {},
                                None => {},
                            }
                        },
                        _ => {},
                    }
                }
            },
        }
    }

    pub proof fn adds_resolve_path_segments_as_bound(
        self,
        context: ResolveContext,
        path: &List<PathSegment>,
        span: TextSpan,
        pending: spec_fn(State<'ast>, DefId) -> State<'ast>,
    )
        requires
            growth::resolver_adds(pending),
        ensures
            self.only_adds(self.resolve_path_segments_as_bound(context, path, span, pending).0),
        decreases 3int, path, 1int,
    {
        broadcast use crate::growth::group_finishing;

        self.adds_nothing();
        match path {
            List::Nil => {},
            List::Cons(first, rest) => {
                if rest.is_empty() {
                    self.adds_resolve_identifier_as_bound(context, first.ident, span, pending);
                } else {
                    self.adds_resolve_type_identifier(
                        context,
                        None,
                        first.ident,
                        TypeArgArity::RequireExact,
                        pending,
                    );
                    let (s, start) = self.resolve_type_identifier(
                        context,
                        None,
                        first.ident,
                        TypeArgArity::RequireExact,
                        pending,
                    );
                    match start {
                        Some(start) => {
                            s.adds_walk_bound_path(
                                context,
                                spanned(start, first.ident.span),
                                rest,
                                pending,
                            );
                        },
                        None => {},
                    }
                }
            },
        }
    }

    pub proof fn adds_resolve_where_bindings(
        self,
        context: ResolveContext,
        scope: Option<GenericScope>,
        trait_index: usize,
        clauses: &List<WhereBinding>,
        resolved: List<AssocBinding>,
        pending: spec_fn(State<'ast>, DefId) -> State<'ast>,
    )
        requires
            growth::resolver_adds(pending),
        ensures
            self.only_adds(
                self.resolve_where_bindings(
                    context,
                    scope,
                    trait_index,
                    clauses,
                    resolved,
                    pending,
                ).0,
            ),
        decreases 4int, clauses, 0int,
    {
        broadcast use crate::growth::group_finishing;

        self.adds_nothing();
        match clauses {
            List::Nil => {},
            List::Cons(clause, rest) => {
                let s = self.record_assoc_type_access(
                    trait_index,
                    clause.name.inner,
                    context.at(clause.name.span),
                );
                let (s, (rhs, rhs_span)) = match &clause.rhs {
                    BindingExpression::Equals(type_expr) => {
                        s.adds_resolve_type(context, scope, type_expr, pending);
                        let (s, index) = s.resolve_type(context, scope, type_expr, pending);
                        (s, (AssocBindingKind::Equals(index), type_expr.span))
                    },
                    BindingExpression::Bound(bound) => {
                        s.adds_resolve_bounds(context, scope, bound, pending);
                        let (s, bounds) = s.resolve_bounds(context, scope, bound, pending);
                        (s, (AssocBindingKind::Bound(bounds), bound.span))
                    },
                };
                let binding = AssocBinding {
                    name: clause.name,
                    file_id: context.file_id,
                    rhs,
                    rhs_span,
                };
                s.adds_resolve_where_bindings(
                    context,
                    scope,
                    trait_index,
                    rest,
                    lookup::with_binding(resolved, binding),
                    pending,
                );
            },
        }
    }

    pub proof fn adds_resolve_bound_list(
        self,
        context: ResolveContext,
        scope: Option<GenericScope>,
        items: &List<Spanned<BoundExpression>>,
        collected: Bounds,
        pending: spec_fn(State<'ast>, DefId) -> State<'ast>,
    )
        requires
            growth::resolver_adds(pending),
        ensures
            self.only_adds(self.resolve_bound_list(context, scope, items, collected, pending).0),
        decreases 4int, items, 0int,
    {
        broadcast use crate::growth::group_finishing;

        self.adds_nothing();
        match items {
            List::Nil => {},
            List::Cons(item, rest) => {
                self.adds_resolve_bounds(context, scope, item, pending);
                let (s, bounds) = self.resolve_bounds(context, scope, item, pending);
                let s = if bounds.typeset.is_some() && collected.typeset.is_some() {
                    s.report(report_multiple_typesets(context.at(item.span)))
                } else {
                    s
                };
                let joined = resolve::joined_bounds(collected, bounds);
                s.adds_resolve_bound_list(context, scope, rest, joined, pending);
            },
        }
    }

    pub proof fn adds_resolve_bounds(
        self,
        context: ResolveContext,
        scope: Option<GenericScope>,
        bound: &Spanned<BoundExpression>,
        pending: spec_fn(State<'ast>, DefId) -> State<'ast>,
    )
        requires
            growth::resolver_adds(pending),
        ensures
            self.only_adds(self.resolve_bounds(context, scope, bound, pending).0),
        decreases 4int, bound, 2int,
    {
        broadcast use crate::growth::group_finishing;

        self.adds_nothing();
        match &bound.inner {
            BoundExpression::Path(path) => {
                self.adds_resolve_path_segments_as_bound(context, path, bound.span, pending);
            },
            BoundExpression::WithBindings { path, bindings } => {
                match &**path {
                    BoundExpression::Path(path) => {
                        self.adds_resolve_path_segments_as_bound(
                            context,
                            path,
                            bound.span,
                            pending,
                        );
                        let (s, kind) = self.resolve_path_segments_as_bound(
                            context,
                            path,
                            bound.span,
                            pending,
                        );
                        match kind {
                            Some(BoundKind::Trait(trait_index)) => {
                                s.adds_resolve_where_bindings(
                                    context,
                                    scope,
                                    trait_index,
                                    bindings,
                                    List::Nil,
                                    pending,
                                );
                            },
                            Some(BoundKind::TypeSet(_)) => {},
                            None => {},
                        }
                    },
                    _ => {
                        let s = self.report(report_expected_single_trait(context.at(bound.span)));
                    },
                }
            },
            BoundExpression::BoundList(items) => {
                self.adds_resolve_bound_list(context, scope, items, Bounds::none(), pending);
            },
        }
    }

    pub proof fn adds_resolve_optional_bounds(
        self,
        context: ResolveContext,
        scope: Option<GenericScope>,
        bound: &Option<Spanned<BoundExpression>>,
        pending: spec_fn(State<'ast>, DefId) -> State<'ast>,
    )
        requires
            growth::resolver_adds(pending),
        ensures
            self.only_adds(self.resolve_optional_bounds(context, scope, bound, pending).0),
        decreases 5int, List::<usize>::Nil, 0int,
    {
        broadcast use crate::growth::group_finishing;

        self.adds_nothing();
        match bound {
            Some(bound) => {
                self.adds_resolve_bounds(context, scope, bound, pending);
            },
            None => {},
        }
    }

    pub proof fn adds_resolve_type_param_bounds(
        self,
        context: ResolveContext,
        owner: TypeParamOwner,
        self_type: Option<TypeIndex>,
        params: &List<TypeParam>,
        index: usize,
        pending: spec_fn(State<'ast>, DefId) -> State<'ast>,
    )
        requires
            growth::resolver_adds(pending),
        ensures
            self.only_adds(
                self.resolve_type_param_bounds(context, owner, self_type, params, index, pending),
            ),
        decreases 6int, params, 0int,
    {
        broadcast use crate::growth::group_finishing;

        self.adds_nothing();
        match params {
            List::Nil => {},
            List::Cons(param, rest) => {
                self.adds_resolve_optional_bounds(
                    context,
                    Some(GenericScope { owner, self_type }),
                    &param.bounds,
                    pending,
                );
                let (s, bounds) = self.resolve_optional_bounds(
                    context,
                    Some(GenericScope { owner, self_type }),
                    &param.bounds,
                    pending,
                );
                let s = s.set_own_param_bounds(owner, index, bounds);
                s.adds_resolve_type_param_bounds(
                    context,
                    owner,
                    self_type,
                    rest,
                    next_index(index),
                    pending,
                );
            },
        }
    }

    pub broadcast proof fn adds_check_receiver_type(
        self,
        self_type: Option<TypeIndex>,
        index: TypeIndex,
        span: SourceSpan,
    )
        ensures
            self.only_adds(#[trigger] self.check_receiver_type(self_type, index, span)),
    {
        broadcast use crate::growth::group_adding;

        self.adds_nothing();
        reveal(State::check_receiver_type);
    }

    pub proof fn adds_resolve_param_type(
        self,
        context: ResolveContext,
        scope: Option<GenericScope>,
        param: &Param,
        pending: spec_fn(State<'ast>, DefId) -> State<'ast>,
    )
        requires
            growth::resolver_adds(pending),
        ensures
            self.only_adds(self.resolve_param_type(context, scope, param, pending).0),
        decreases 5int, List::<usize>::Nil, 0int,
    {
        broadcast use crate::growth::group_finishing;

        self.adds_nothing();
        match &param.ty {
            Some(type_expr) => {
                self.adds_resolve_signature_type(context, scope, type_expr, pending);
            },
            None => {},
        }
    }

    pub proof fn adds_resolve_params(
        self,
        context: ResolveContext,
        scope: Option<GenericScope>,
        params: &List<Param>,
        resolved: List<FunctionParam>,
        pending: spec_fn(State<'ast>, DefId) -> State<'ast>,
    )
        requires
            growth::resolver_adds(pending),
        ensures
            self.only_adds(self.resolve_params(context, scope, params, resolved, pending).0),
        decreases 6int, params, 0int,
    {
        broadcast use crate::growth::group_finishing;

        self.adds_nothing();
        match params {
            List::Nil => {},
            List::Cons(param, rest) => {
                let s = match resolve::named_param_span(&resolved, param.name.inner) {
                    Some(first) => {
                        self.report(
                            report_duplicate_parameter(
                                param.name.inner,
                                context.at(first),
                                context.at(param.name.span),
                            ),
                        )
                    },
                    None => self,
                };
                s.adds_resolve_param_type(context, scope, param, pending);
                let (s, ty) = s.resolve_param_type(context, scope, param, pending);
                let next = FunctionParam { mut_span: param.mut_span, name: param.name, ty };
                s.adds_resolve_params(context, scope, rest, resolved.push(next), pending);
            },
        }
    }

    pub proof fn adds_build_function_signature(
        self,
        context: ResolveContext,
        scope: Option<GenericScope>,
        signature: &ast::FunctionSignature,
        pending: spec_fn(State<'ast>, DefId) -> State<'ast>,
    )
        requires
            growth::resolver_adds(pending),
        ensures
            self.only_adds(self.build_function_signature(context, scope, signature, pending).0),
        decreases 7int, List::<usize>::Nil, 0int,
    {
        broadcast use crate::growth::group_finishing;

        self.adds_nothing();
        self.adds_resolve_params(context, scope, &signature.params, List::Nil, pending);
        let (s, params) = self.resolve_params(
            context,
            scope,
            &signature.params,
            List::Nil,
            pending,
        );
        match &signature.result {
            Some(type_expr) => {
                s.adds_resolve_signature_type(context, scope, type_expr, pending);
            },
            None => {},
        }
    }

    pub broadcast proof fn adds_resolved_symbol_to_expression(
        self,
        ctx: ExprContext,
        access: AccessContext,
        resolved: ResolvedSymbol,
        span: TextSpan,
    )
        ensures
            self.only_adds(
                (#[trigger] self.resolved_symbol_to_expression(ctx, access, resolved, span)).0,
            ),
    {
        broadcast use crate::growth::group_adding;

        self.adds_nothing();
        reveal(State::resolved_symbol_to_expression);
    }
}

} // verus!
