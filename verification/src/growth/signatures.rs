//! What `signatures` does to the state only adds to it.

use vstd::prelude::*;

use crate::ast;
use crate::ast::{
    BindingExpression, BoundExpression, ImplItem, ImportDeclaration, Item, TraitItem,
    TypeExpression, TypeParam, WhereBinding,
};
use crate::growth;
use crate::list::{cons, List};
use crate::prescan;
use crate::reports::{
    report_duplicate_definition, report_duplicate_struct_field, report_invalid_memory_kind,
    report_type_annotation_required, report_typeset_member_not_integer,
};
use crate::resolve::BoundKind;
use crate::scope::ExprContext;
use crate::shape::{reading, spanned};
use crate::signatures;
use crate::signatures::{unresolved_function, AssocValue};
use crate::span::{DefId, FileId, SourceSpan, Spanned, Symbol, TextSpan};
use crate::state;
use crate::state::{AstNodeRef, State};
use crate::tir::{
    AssocBinding, AssocBindingKind, ComputeState, EnumVariant, Expression, GenericScope,
    ImplEntry, ImportValue, ItemIndex, ItemParent, Member, ResolveContext, StructField,
    SupertraitBinding, SymbolKind, SymbolNamespace, TraitAssocType, TraitBound, TraitImpl,
};
use crate::ty;
use crate::types::{Type, TypeIndex, TypeParamOwner};

verus! {

impl<'ast> State<'ast> {
    pub broadcast proof fn adds_insert_trait_member(
        self,
        trait_index: usize,
        name: Symbol,
        entry: ImplEntry,
    )
        ensures
            self.only_adds(#[trigger] self.insert_trait_member(trait_index, name, entry)),
    {
        broadcast use crate::growth::group_adding;

        self.adds_nothing();
        reveal(State::insert_trait_member);
    }

    pub broadcast proof fn adds_insert_assoc_type(
        self,
        trait_index: usize,
        assoc_type: TraitAssocType,
    )
        ensures
            self.only_adds(#[trigger] self.insert_assoc_type(trait_index, assoc_type)),
    {
        broadcast use crate::growth::group_adding;

        self.adds_nothing();
        reveal(State::insert_assoc_type);
    }

    pub broadcast proof fn adds_insert_trait_impl_member(
        self,
        impl_index: usize,
        name: Symbol,
        entry: ImplEntry,
    )
        ensures
            self.only_adds(#[trigger] self.insert_trait_impl_member(impl_index, name, entry)),
    {
        broadcast use crate::growth::group_adding;

        self.adds_nothing();
        reveal(State::insert_trait_impl_member);
    }

    pub broadcast proof fn adds_insert_inherent_member(
        self,
        block_index: usize,
        self_type: TypeIndex,
        name: Symbol,
        entry: ImplEntry,
    )
        ensures
            self.only_adds(
                #[trigger] self.insert_inherent_member(block_index, self_type, name, entry),
            ),
    {
        broadcast use crate::growth::group_adding;

        self.adds_nothing();
        reveal(State::insert_inherent_member);
        let members = match state::seq_ref(self.inherent_impls, block_index) {
            Some(block) => block.members,
            None => List::Nil,
        };
        let s = self.set_inherent_impl_members(
            block_index,
            signatures::member_put(members, Member { name, entry }),
        );
        s.adds_register_inherent_member(self_type, name, block_index);
    }

    pub broadcast proof fn adds_checked_const_value(self, value: &Expression, span: SourceSpan)
        ensures
            self.only_adds((#[trigger] self.checked_const_value(value, span)).0),
    {
        broadcast use crate::growth::group_adding;

        self.adds_nothing();
        reveal(State::checked_const_value);
    }

    pub proof fn adds_build_const_context_expression(
        self,
        context: ResolveContext,
        expr: &Spanned<ast::Expression>,
        expected: TypeIndex,
        pending: spec_fn(State<'ast>, DefId) -> State<'ast>,
    )
        requires
            growth::resolver_adds(pending),
        ensures
            self.only_adds(
                self.build_const_context_expression(context, expr, expected, pending).0,
            ),
        decreases 9int, List::<usize>::Nil, 0int,
    {
        broadcast use crate::growth::group_finishing;

        self.adds_nothing();
        self.adds_build_standalone_expression(context, expr, expected, pending);
    }

    pub broadcast proof fn adds_check_const_type(
        self,
        context: ResolveContext,
        value: Expression,
        expected: TypeIndex,
        span: TextSpan,
    )
        ensures
            self.only_adds((#[trigger] self.check_const_type(context, value, expected, span)).0),
    {
        broadcast use crate::growth::group_adding;

        self.adds_nothing();
        reveal(State::check_const_type);
        if ty::is_comptime_number(value.ty) {
            let s = self.report(report_type_annotation_required(context.at(span)));
        } else {
            if expected == ty::ERROR {
            } else {
                self.adds_check_coercible(value.ty, expected, context.at(span));
            }
        }
    }

    pub proof fn adds_resolve_struct_fields(
        self,
        context: ResolveContext,
        scope: Option<GenericScope>,
        fields: &List<ast::StructField>,
        resolved: List<StructField>,
        pending: spec_fn(State<'ast>, DefId) -> State<'ast>,
    )
        requires
            growth::resolver_adds(pending),
        ensures
            self.only_adds(
                self.resolve_struct_fields(context, scope, fields, resolved, pending).0,
            ),
        decreases 10int, fields, 0int,
    {
        broadcast use crate::growth::group_finishing;

        self.adds_nothing();
        match fields {
            List::Nil => {},
            List::Cons(field, rest) => {
                match signatures::span_of_field(&resolved, field.name.inner) {
                    Some(first) => {
                        let s = self.report(
                            report_duplicate_struct_field(
                                field.name.inner,
                                context.at(first),
                                context.at(field.name.span),
                            ),
                        );
                        s.adds_resolve_struct_fields(context, scope, rest, resolved, pending);
                    },
                    None => {
                        self.adds_resolve_signature_type(context, scope, &field.ty, pending);
                        let (s, field_ty) = self.resolve_signature_type(
                            context,
                            scope,
                            &field.ty,
                            pending,
                        );
                        let resolved = resolved.push(
                            StructField {
                                name: field.name,
                                ty: spanned(field_ty, field.ty.span),
                                pub_span: field.pub_span,
                            },
                        );
                        s.adds_resolve_struct_fields(context, scope, rest, resolved, pending);
                    },
                }
            },
        }
    }

    pub proof fn adds_resolve_struct(
        self,
        context: ResolveContext,
        item: &Item,
        pending: spec_fn(State<'ast>, DefId) -> State<'ast>,
    )
        requires
            growth::resolver_adds(pending),
        ensures
            self.only_adds(self.resolve_struct(context, item, pending)),
        decreases 11int, List::<usize>::Nil, 0int,
    {
        broadcast use crate::growth::group_finishing;

        self.adds_nothing();
        match item {
            Item::Struct { id, name, type_params, fields, .. } => {
                match self.struct_index(*id) {
                    Some(struct_index) => {
                        let owner = TypeParamOwner::Struct(*id);
                        let s = self.bound(
                            context.namespace,
                            SymbolNamespace::Type,
                            name.inner,
                            *id,
                            SymbolKind::Struct { struct_index },
                        );
                        s.adds_resolve_type_param_bounds(
                            context,
                            owner,
                            None,
                            type_params,
                            0,
                            pending,
                        );
                        let s = s.resolve_type_param_bounds(
                            context,
                            owner,
                            None,
                            type_params,
                            0,
                            pending,
                        );
                        s.adds_resolve_struct_fields(
                            context,
                            signatures::scope_of_params(owner, type_params),
                            fields,
                            List::Nil,
                            pending,
                        );
                    },
                    None => {},
                }
            },
            _ => {},
        }
    }

    pub proof fn adds_resolve_type_alias(
        self,
        context: ResolveContext,
        item: &Item,
        pending: spec_fn(State<'ast>, DefId) -> State<'ast>,
    )
        requires
            growth::resolver_adds(pending),
        ensures
            self.only_adds(self.resolve_type_alias(context, item, pending)),
        decreases 11int, List::<usize>::Nil, 0int,
    {
        broadcast use crate::growth::group_finishing;

        self.adds_nothing();
        match item {
            Item::TypeAlias { id, name, type_params, ty, .. } => {
                match self.type_alias_index(*id) {
                    Some(type_alias_index) => {
                        let owner = TypeParamOwner::TypeAlias(*id);
                        self.adds_resolve_type_param_bounds(
                            context,
                            owner,
                            None,
                            type_params,
                            0,
                            pending,
                        );
                        let s = self.resolve_type_param_bounds(
                            context,
                            owner,
                            None,
                            type_params,
                            0,
                            pending,
                        );
                        s.adds_resolve_signature_type(
                            context,
                            signatures::scope_of_params(owner, type_params),
                            ty,
                            pending,
                        );
                    },
                    None => {},
                }
            },
            _ => {},
        }
    }

    pub broadcast proof fn adds_checked_repr(self, resolved: TypeIndex, span: SourceSpan)
        ensures
            self.only_adds((#[trigger] self.checked_repr(resolved, span)).0),
    {
        broadcast use crate::growth::group_adding;

        self.adds_nothing();
        reveal(State::checked_repr);
    }

    pub proof fn adds_resolve_enum_repr(
        self,
        context: ResolveContext,
        name: Spanned<Symbol>,
        repr: &Option<Spanned<TypeExpression>>,
        pending: spec_fn(State<'ast>, DefId) -> State<'ast>,
    )
        requires
            growth::resolver_adds(pending),
        ensures
            self.only_adds(self.resolve_enum_repr(context, name, repr, pending).0),
        decreases 10int, List::<usize>::Nil, 0int,
    {
        broadcast use crate::growth::group_finishing;

        self.adds_nothing();
        match repr {
            Some(written) => {
                self.adds_resolve_type(context, None, written, pending);
            },
            None => {},
        }
    }

    pub broadcast proof fn adds_check_counted_value(
        self,
        repr: TypeIndex,
        value: i64,
        span: SourceSpan,
    )
        ensures
            self.only_adds(#[trigger] self.check_counted_value(repr, value, span)),
    {
        broadcast use crate::growth::group_adding;

        self.adds_nothing();
        reveal(State::check_counted_value);
    }

    pub broadcast proof fn adds_finish_variant_value(
        self,
        built: Option<Expression>,
        span: SourceSpan,
    )
        ensures
            self.only_adds((#[trigger] self.finish_variant_value(built, span)).0),
    {
        broadcast use crate::growth::group_adding;

        self.adds_nothing();
        reveal(State::finish_variant_value);
        match built {
            Some(value) => {
                self.adds_checked_const_value(&value, span);
            },
            None => {},
        }
    }

    pub proof fn adds_build_variant_value(
        self,
        context: ResolveContext,
        variant: &ast::EnumVariant,
        repr: TypeIndex,
        next_value: i64,
        pending: spec_fn(State<'ast>, DefId) -> State<'ast>,
    )
        requires
            growth::resolver_adds(pending),
        ensures
            self.only_adds(
                self.build_variant_value(context, variant, repr, next_value, pending).0,
            ),
        decreases 9int, List::<usize>::Nil, 1int,
    {
        broadcast use crate::growth::group_finishing;

        self.adds_nothing();
        match &variant.value {
            Some(written) => {
                if repr == ty::ERROR {
                } else {
                    self.adds_build_const_context_expression(context, written, repr, pending);
                }
            },
            None => {},
        }
    }

    pub proof fn adds_build_variants(
        self,
        context: ResolveContext,
        variants: &List<ast::EnumVariant>,
        repr: TypeIndex,
        next_value: i64,
        built: List<EnumVariant>,
        pending: spec_fn(State<'ast>, DefId) -> State<'ast>,
    )
        requires
            growth::resolver_adds(pending),
        ensures
            self.only_adds(
                self.build_variants(context, variants, repr, next_value, built, pending).0,
            ),
        decreases 10int, variants, 1int,
    {
        broadcast use crate::growth::group_finishing;

        self.adds_nothing();
        match variants {
            List::Nil => {},
            List::Cons(variant, rest) => {
                match signatures::span_of_variant(&built, variant.name.inner) {
                    Some(first) => {
                        let s = self.report(
                            report_duplicate_definition(
                                variant.name.inner,
                                SymbolNamespace::Value,
                                context.at(first),
                                context.at(variant.name.span),
                            ),
                        );
                        s.adds_build_variants(context, rest, repr, next_value, built, pending);
                    },
                    None => {
                        self.adds_build_variant_value(
                            context,
                            variant,
                            repr,
                            next_value,
                            pending,
                        );
                        let (s, (value, const_value)) = self.build_variant_value(
                            context,
                            variant,
                            repr,
                            next_value,
                            pending,
                        );
                        let built = built.push(
                            EnumVariant { name: variant.name, value, const_value },
                        );
                        s.adds_build_variants(
                            context,
                            rest,
                            repr,
                            signatures::counted_after(const_value, next_value),
                            built,
                            pending,
                        );
                    },
                }
            },
        }
    }

    pub proof fn adds_build_enum(
        self,
        context: ResolveContext,
        name: Spanned<Symbol>,
        repr: &Option<Spanned<TypeExpression>>,
        variants: &List<ast::EnumVariant>,
        enum_index: usize,
        pending: spec_fn(State<'ast>, DefId) -> State<'ast>,
    )
        requires
            growth::resolver_adds(pending),
        ensures
            self.only_adds(self.build_enum(context, name, repr, variants, enum_index, pending)),
        decreases 11int, List::<usize>::Nil, 0int,
    {
        broadcast use crate::growth::group_finishing;

        self.adds_nothing();
        self.adds_resolve_enum_repr(context, name, repr, pending);
        let (s, repr_type) = self.resolve_enum_repr(context, name, repr, pending);
        s.adds_build_variants(context, variants, repr_type, 0, List::Nil, pending);
    }

    pub proof fn adds_resolve_enum(
        self,
        context: ResolveContext,
        item: &Item,
        pending: spec_fn(State<'ast>, DefId) -> State<'ast>,
    )
        requires
            growth::resolver_adds(pending),
        ensures
            self.only_adds(self.resolve_enum(context, item, pending)),
        decreases 11int, List::<usize>::Nil, 1int,
    {
        broadcast use crate::growth::group_finishing;

        self.adds_nothing();
        match item {
            Item::Enum { id, name, repr, variants, .. } => {
                match self.enum_index(*id) {
                    Some(enum_index) => {
                        self.adds_build_enum(context, *name, repr, variants, enum_index, pending);
                    },
                    None => {},
                }
            },
            _ => {},
        }
    }

    pub proof fn adds_fill_signature(
        self,
        context: ResolveContext,
        scope: Option<GenericScope>,
        func_index: usize,
        signature: &ast::FunctionSignature,
        pending: spec_fn(State<'ast>, DefId) -> State<'ast>,
    )
        requires
            growth::resolver_adds(pending),
        ensures
            self.only_adds(self.fill_signature(context, scope, func_index, signature, pending)),
        decreases 10int, List::<usize>::Nil, 0int,
    {
        broadcast use crate::growth::group_finishing;

        self.adds_nothing();
        self.adds_build_function_signature(context, scope, signature, pending);
    }

    pub proof fn adds_resolve_function(
        self,
        context: ResolveContext,
        item: &Item,
        pending: spec_fn(State<'ast>, DefId) -> State<'ast>,
    )
        requires
            growth::resolver_adds(pending),
        ensures
            self.only_adds(self.resolve_function(context, item, pending)),
        decreases 11int, List::<usize>::Nil, 1int,
    {
        broadcast use crate::growth::group_finishing;

        self.adds_nothing();
        match item {
            Item::Function { id, signature, .. } => {
                self.adds_resolve_function_item(context, *id, signature, pending);
            },
            Item::FunctionDeclaration { id, signature, .. } => {
                self.adds_resolve_function_item(context, *id, signature, pending);
            },
            _ => {},
        }
    }

    pub proof fn adds_resolve_function_item(
        self,
        context: ResolveContext,
        id: DefId,
        signature: &ast::FunctionSignature,
        pending: spec_fn(State<'ast>, DefId) -> State<'ast>,
    )
        requires
            growth::resolver_adds(pending),
        ensures
            self.only_adds(self.resolve_function_item(context, id, signature, pending)),
        decreases 11int, List::<usize>::Nil, 0int,
    {
        broadcast use crate::growth::group_finishing;

        self.adds_nothing();
        match self.function_index(id) {
            Some(func_index) => {
                let owner = TypeParamOwner::Function(id);
                self.adds_resolve_type_param_bounds(
                    context,
                    owner,
                    None,
                    &signature.type_params,
                    0,
                    pending,
                );
                let s = self.resolve_type_param_bounds(
                    context,
                    owner,
                    None,
                    &signature.type_params,
                    0,
                    pending,
                );
                s.adds_fill_signature(
                    context,
                    Some(GenericScope { owner, self_type: None }),
                    func_index,
                    signature,
                    pending,
                );
            },
            None => {},
        }
    }

    pub proof fn adds_resolve_member_type(
        self,
        context: ResolveContext,
        scope: GenericScope,
        annotation: &Option<Spanned<TypeExpression>>,
        pending: spec_fn(State<'ast>, DefId) -> State<'ast>,
    )
        requires
            growth::resolver_adds(pending),
        ensures
            self.only_adds(self.resolve_member_type(context, scope, annotation, pending).0),
        decreases 10int, List::<usize>::Nil, 0int,
    {
        broadcast use crate::growth::group_finishing;

        self.adds_nothing();
        match annotation {
            Some(annotation) => {
                self.adds_resolve_type(context, Some(scope), annotation, pending);
            },
            None => {},
        }
    }

    pub broadcast proof fn adds_add_impl_constant(
        self,
        context: ResolveContext,
        id: DefId,
        name: Spanned<Symbol>,
        self_type: TypeIndex,
        resolved: TypeIndex,
        built: Option<Expression>,
        span: TextSpan,
    )
        ensures
            self.only_adds(
                (
                    #[trigger] self.add_impl_constant(
                        context,
                        id,
                        name,
                        self_type,
                        resolved,
                        built,
                        span,
                    )
                ).0,
            ),
    {
        broadcast use crate::growth::group_adding;

        self.adds_nothing();
        reveal(State::add_impl_constant);
        match built {
            Some(value) => {
                self.adds_checked_const_value(&value, context.at(span));
            },
            None => {},
        }
    }

    pub proof fn adds_resolve_impl_constant(
        self,
        context: ResolveContext,
        scope: GenericScope,
        self_type: TypeIndex,
        item: &ImplItem,
        pending: spec_fn(State<'ast>, DefId) -> State<'ast>,
    )
        requires
            growth::resolver_adds(pending),
        ensures
            self.only_adds(
                self.resolve_impl_constant(context, scope, self_type, item, pending).0,
            ),
        decreases 11int, List::<usize>::Nil, 0int,
    {
        broadcast use crate::growth::group_finishing;

        self.adds_nothing();
        match item {
            ImplItem::Constant { id, name, ty, value } => {
                self.adds_resolve_member_type(context, scope, ty, pending);
                let (s, resolved) = self.resolve_member_type(context, scope, ty, pending);
                s.adds_build_const_context_expression(context, value, resolved, pending);
            },
            _ => {},
        }
    }

    pub proof fn adds_resolve_inherent_constant(
        self,
        context: ResolveContext,
        block_id: DefId,
        block_index: usize,
        item: &ImplItem,
        pending: spec_fn(State<'ast>, DefId) -> State<'ast>,
    )
        requires
            growth::resolver_adds(pending),
        ensures
            self.only_adds(
                self.resolve_inherent_constant(context, block_id, block_index, item, pending),
            ),
        decreases 11int, List::<usize>::Nil, 1int,
    {
        broadcast use crate::growth::group_finishing;

        self.adds_nothing();
        self.adds_ensure_pending(block_id, pending);
        let s = self.ensure_pending(block_id, pending);
        let (self_type, _) = s.inherent_impl_target(block_index);
        let scope = GenericScope {
            owner: TypeParamOwner::ImplBlock(block_index),
            self_type: Some(self_type),
        };
        s.adds_resolve_impl_constant(context, scope, self_type, item, pending);
    }

    pub broadcast proof fn adds_check_duplicate_method(
        self,
        context: ResolveContext,
        block_index: usize,
        name: Spanned<Symbol>,
    )
        ensures
            self.only_adds(#[trigger] self.check_duplicate_method(context, block_index, name)),
    {
        broadcast use crate::growth::group_adding;

        self.adds_nothing();
        reveal(State::check_duplicate_method);
    }

    pub proof fn adds_resolve_inherent_function(
        self,
        context: ResolveContext,
        block_id: DefId,
        block_index: usize,
        item: &ImplItem,
        pending: spec_fn(State<'ast>, DefId) -> State<'ast>,
    )
        requires
            growth::resolver_adds(pending),
        ensures
            self.only_adds(
                self.resolve_inherent_function(context, block_id, block_index, item, pending).0,
            ),
        decreases 11int, List::<usize>::Nil, 1int,
    {
        broadcast use crate::growth::group_finishing;

        self.adds_nothing();
        self.adds_ensure_pending(block_id, pending);
        let s = self.ensure_pending(block_id, pending);
        match item {
            ImplItem::Function { id, pub_span, attributes, signature, .. } => {
                let (self_type, inherited) = s.inherent_impl_target(block_index);
                let (s, known) = s.resolve_attributes(attributes);
                let s = s.register_tagged_items(*id, &known);
                let owner = TypeParamOwner::Function(*id);
                let (s, func_index) = s.add_function(
                    unresolved_function(
                        context,
                        *id,
                        signature.name,
                        Some(ItemParent::GenericImpl(block_index)),
                        prescan::named_params(&signature.type_params),
                        Some(TypeParamOwner::ImplBlock(block_index)),
                        inherited,
                        *pub_span,
                        known,
                    ),
                );
                let s = s.with_item(*id, ItemIndex::Function(func_index));
                s.adds_resolve_type_param_bounds(
                    context,
                    owner,
                    None,
                    &signature.type_params,
                    0,
                    pending,
                );
                let s = s.resolve_type_param_bounds(
                    context,
                    owner,
                    None,
                    &signature.type_params,
                    0,
                    pending,
                );
                s.adds_fill_signature(
                    context,
                    Some(GenericScope { owner, self_type: Some(self_type) }),
                    func_index,
                    signature,
                    pending,
                );
            },
            _ => {},
        }
    }

    pub proof fn adds_resolve_inherent_block(
        self,
        context: ResolveContext,
        type_params: &List<TypeParam>,
        target: &Spanned<TypeExpression>,
        block_index: usize,
        pending: spec_fn(State<'ast>, DefId) -> State<'ast>,
    )
        requires
            growth::resolver_adds(pending),
        ensures
            self.only_adds(
                self.resolve_inherent_block(context, type_params, target, block_index, pending),
            ),
        decreases 11int, List::<usize>::Nil, 0int,
    {
        broadcast use crate::growth::group_finishing;

        self.adds_nothing();
        let owner = TypeParamOwner::ImplBlock(block_index);
        self.adds_resolve_type_param_bounds(context, owner, None, type_params, 0, pending);
        let s = self.resolve_type_param_bounds(context, owner, None, type_params, 0, pending);
        s.adds_resolve_signature_type(
            context,
            Some(GenericScope { owner, self_type: None }),
            target,
            pending,
        );
    }

    pub broadcast proof fn adds_check_supertrait_bindings(
        self,
        file_id: FileId,
        trait_index: usize,
        bindings: &List<AssocBinding>,
        span: TextSpan,
        collected: List<SupertraitBinding>,
    )
        ensures
            self.only_adds(
                (
                    #[trigger] self.check_supertrait_bindings(
                        file_id,
                        trait_index,
                        bindings,
                        span,
                        collected,
                    )
                ).0,
            ),
        decreases bindings,
    {
        broadcast use crate::growth::group_adding;

        self.adds_nothing();
        match bindings {
            List::Nil => {},
            List::Cons(binding, rest) => {
                match &binding.rhs {
                    AssocBindingKind::Equals(value) => {
                        self.adds_check_assoc_type_bounds(
                            file_id,
                            trait_index,
                            binding.name.inner,
                            *value,
                            span,
                        );
                        let s = self.check_assoc_type_bounds(
                            file_id,
                            trait_index,
                            binding.name.inner,
                            *value,
                            span,
                        );
                        let collected = signatures::supertrait_binding_put(
                            collected,
                            SupertraitBinding {
                                trait_index,
                                name: binding.name.inner,
                                ty: *value,
                            },
                        );
                        s.adds_check_supertrait_bindings(
                            file_id,
                            trait_index,
                            rest,
                            span,
                            collected,
                        );
                    },
                    AssocBindingKind::Bound(_) => {
                        self.adds_check_supertrait_bindings(
                            file_id,
                            trait_index,
                            rest,
                            span,
                            collected,
                        );
                    },
                }
            },
        }
    }

    pub broadcast proof fn adds_check_supertraits(
        self,
        file_id: FileId,
        traits: &List<TraitBound>,
        span: TextSpan,
        collected: List<SupertraitBinding>,
    )
        ensures
            self.only_adds(
                (#[trigger] self.check_supertraits(file_id, traits, span, collected)).0,
            ),
        decreases traits,
    {
        broadcast use crate::growth::group_adding;

        self.adds_nothing();
        match traits {
            List::Nil => {},
            List::Cons(bound, rest) => {
                self.adds_check_supertrait_bindings(
                    file_id,
                    bound.trait_index,
                    &bound.bindings,
                    span,
                    collected,
                );
                let (s, collected) = self.check_supertrait_bindings(
                    file_id,
                    bound.trait_index,
                    &bound.bindings,
                    span,
                    collected,
                );
                s.adds_check_supertraits(file_id, rest, span, collected);
            },
        }
    }

    pub proof fn adds_resolve_trait(
        self,
        context: ResolveContext,
        trait_index: usize,
        item: &Item,
        pending: spec_fn(State<'ast>, DefId) -> State<'ast>,
    )
        requires
            growth::resolver_adds(pending),
        ensures
            self.only_adds(self.resolve_trait(context, trait_index, item, pending)),
        decreases 11int, List::<usize>::Nil, 0int,
    {
        broadcast use crate::growth::group_finishing;

        self.adds_nothing();
        match item {
            Item::Trait { id, attributes, supertraits, .. } => {
                let (s, known) = self.resolve_attributes(attributes);
                let s = s.register_tagged_items(*id, &known);
                match supertraits {
                    Some(written) => {
                        s.adds_resolve_bounds(context, None, written, pending);
                    },
                    None => {},
                }
            },
            _ => {},
        }
    }

    pub proof fn adds_resolve_typeset_members(
        self,
        context: ResolveContext,
        members: &List<Spanned<TypeExpression>>,
        pending: spec_fn(State<'ast>, DefId) -> State<'ast>,
    )
        requires
            growth::resolver_adds(pending),
        ensures
            self.only_adds(self.resolve_typeset_members(context, members, pending).0),
        decreases 10int, members, 0int,
    {
        broadcast use crate::growth::group_finishing;

        self.adds_nothing();
        match members {
            List::Nil => {},
            List::Cons(member, rest) => {
                self.adds_resolve_type(context, None, member, pending);
                let (s, index) = self.resolve_type(context, None, member, pending);
                if !ty::is_integer(index) {
                    let s = s.report(
                        report_typeset_member_not_integer(index, context.at(member.span)),
                    );
                    s.adds_resolve_typeset_members(context, rest, pending);
                } else {
                    s.adds_resolve_typeset_members(context, rest, pending);
                }
            },
        }
    }

    pub proof fn adds_resolve_typeset(
        self,
        context: ResolveContext,
        typeset_index: usize,
        item: &Item,
        pending: spec_fn(State<'ast>, DefId) -> State<'ast>,
    )
        requires
            growth::resolver_adds(pending),
        ensures
            self.only_adds(self.resolve_typeset(context, typeset_index, item, pending)),
        decreases 11int, List::<usize>::Nil, 0int,
    {
        broadcast use crate::growth::group_finishing;

        self.adds_nothing();
        match item {
            Item::TypeSet { members, .. } => {
                self.adds_resolve_typeset_members(context, members, pending);
            },
            _ => {},
        }
    }

    pub broadcast proof fn adds_trait_self_type(self, trait_index: usize)
        ensures
            self.only_adds((#[trigger] self.trait_self_type(trait_index)).0),
    {
        broadcast use crate::growth::group_adding;

        self.adds_nothing();
    }

    pub proof fn adds_resolve_trait_function(
        self,
        context: ResolveContext,
        trait_index: usize,
        item: &TraitItem,
        pending: spec_fn(State<'ast>, DefId) -> State<'ast>,
    )
        requires
            growth::resolver_adds(pending),
        ensures
            self.only_adds(self.resolve_trait_function(context, trait_index, item, pending)),
        decreases 11int, List::<usize>::Nil, 0int,
    {
        broadcast use crate::growth::group_finishing;

        self.adds_nothing();
        match item {
            TraitItem::Function { id, attributes, signature, .. } => {
                let (s, self_type) = self.trait_self_type(trait_index);
                let (s, known) = s.resolve_attributes(attributes);
                let s = s.register_tagged_items(*id, &known);
                let owner = TypeParamOwner::Function(*id);
                let (s, func_index) = s.add_function(
                    unresolved_function(
                        context,
                        *id,
                        signature.name,
                        Some(ItemParent::Trait(trait_index)),
                        prescan::named_params(&signature.type_params),
                        Some(TypeParamOwner::Trait(trait_index)),
                        1,
                        None,
                        known,
                    ),
                );
                let s = s.with_item(*id, ItemIndex::Function(func_index));
                s.adds_resolve_type_param_bounds(
                    context,
                    owner,
                    Some(self_type),
                    &signature.type_params,
                    0,
                    pending,
                );
                let s = s.resolve_type_param_bounds(
                    context,
                    owner,
                    Some(self_type),
                    &signature.type_params,
                    0,
                    pending,
                );
                s.adds_fill_signature(
                    context,
                    Some(GenericScope { owner, self_type: Some(self_type) }),
                    func_index,
                    signature,
                    pending,
                );
            },
            _ => {},
        }
    }

    pub proof fn adds_resolve_trait_constant(
        self,
        context: ResolveContext,
        trait_index: usize,
        item: &TraitItem,
        pending: spec_fn(State<'ast>, DefId) -> State<'ast>,
    )
        requires
            growth::resolver_adds(pending),
        ensures
            self.only_adds(self.resolve_trait_constant(context, trait_index, item, pending)),
        decreases 11int, List::<usize>::Nil, 0int,
    {
        broadcast use crate::growth::group_finishing;

        self.adds_nothing();
        let (s, self_type) = self.trait_self_type(trait_index);
        match item {
            TraitItem::Const { id, attributes, name, ty } => {
                let scope = GenericScope {
                    owner: TypeParamOwner::Trait(trait_index),
                    self_type: Some(self_type),
                };
                s.adds_resolve_type(context, Some(scope), ty, pending);
            },
            _ => {},
        }
    }

    pub proof fn adds_resolve_trait_assoc_type(
        self,
        context: ResolveContext,
        trait_index: usize,
        item: &TraitItem,
        pending: spec_fn(State<'ast>, DefId) -> State<'ast>,
    )
        requires
            growth::resolver_adds(pending),
        ensures
            self.only_adds(self.resolve_trait_assoc_type(context, trait_index, item, pending)),
        decreases 11int, List::<usize>::Nil, 0int,
    {
        broadcast use crate::growth::group_finishing;

        self.adds_nothing();
        match item {
            TraitItem::AssociatedType { id, attributes, name, bounds } => {
                self.adds_resolve_optional_bounds(context, None, bounds, pending);
            },
            _ => {},
        }
    }

    pub proof fn adds_resolve_item_type(
        self,
        context: ResolveContext,
        annotation: &Option<Spanned<TypeExpression>>,
        name: Spanned<Symbol>,
        in_signature: bool,
        pending: spec_fn(State<'ast>, DefId) -> State<'ast>,
    )
        requires
            growth::resolver_adds(pending),
        ensures
            self.only_adds(
                self.resolve_item_type(context, annotation, name, in_signature, pending).0,
            ),
        decreases 10int, List::<usize>::Nil, 0int,
    {
        broadcast use crate::growth::group_finishing;

        self.adds_nothing();
        match annotation {
            Some(written) => {
                if in_signature {
                    self.adds_resolve_signature_type(context, None, written, pending);
                    let (s, index) = self.resolve_signature_type(context, None, written, pending);
                } else {
                    self.adds_resolve_type(context, None, written, pending);
                }
            },
            None => {},
        }
    }

    pub proof fn adds_resolve_global(
        self,
        context: ResolveContext,
        item: &Item,
        pending: spec_fn(State<'ast>, DefId) -> State<'ast>,
    )
        requires
            growth::resolver_adds(pending),
        ensures
            self.only_adds(self.resolve_global(context, item, pending)),
        decreases 11int, List::<usize>::Nil, 0int,
    {
        broadcast use crate::growth::group_finishing;

        self.adds_nothing();
        match item {
            Item::Global { id, name, ty, .. } => {
                match self.global_index(*id) {
                    Some(global_index) => {
                        self.adds_resolve_item_type(context, ty, *name, true, pending);
                    },
                    None => {},
                }
            },
            _ => {},
        }
    }

    pub broadcast proof fn adds_finish_constant(
        self,
        context: ResolveContext,
        id: DefId,
        name: Symbol,
        const_index: usize,
        built: Option<Expression>,
        span: TextSpan,
    )
        ensures
            self.only_adds(
                #[trigger] self.finish_constant(context, id, name, const_index, built, span),
            ),
    {
        broadcast use crate::growth::group_adding;

        self.adds_nothing();
        reveal(State::finish_constant);
        match built {
            Some(value) => {
                self.adds_checked_const_value(&value, context.at(span));
            },
            None => {},
        }
    }

    pub proof fn adds_resolve_constant(
        self,
        context: ResolveContext,
        item: &Item,
        pending: spec_fn(State<'ast>, DefId) -> State<'ast>,
    )
        requires
            growth::resolver_adds(pending),
        ensures
            self.only_adds(self.resolve_constant(context, item, pending)),
        decreases 11int, List::<usize>::Nil, 0int,
    {
        broadcast use crate::growth::group_finishing;

        self.adds_nothing();
        match item {
            Item::Const { id, name, ty, value, .. } => {
                match self.const_index(*id) {
                    Some(const_index) => {
                        self.adds_resolve_item_type(context, ty, *name, false, pending);
                        let (s, resolved) = self.resolve_item_type(
                            context,
                            ty,
                            *name,
                            false,
                            pending,
                        );
                        let s = s.set_constant_ty(const_index, resolved);
                        s.adds_build_const_context_expression(
                            context,
                            value,
                            resolved.inner,
                            pending,
                        );
                    },
                    None => {},
                }
            },
            _ => {},
        }
    }

    pub proof fn adds_resolve_memory_values(
        self,
        context: ResolveContext,
        trait_index: usize,
        clauses: &List<WhereBinding>,
        values: List<AssocValue>,
        pending: spec_fn(State<'ast>, DefId) -> State<'ast>,
    )
        requires
            growth::resolver_adds(pending),
        ensures
            self.only_adds(
                self.resolve_memory_values(context, trait_index, clauses, values, pending).0,
            ),
        decreases 10int, clauses, 0int,
    {
        broadcast use crate::growth::group_finishing;

        self.adds_nothing();
        match clauses {
            List::Nil => {},
            List::Cons(clause, rest) => {
                match &clause.rhs {
                    BindingExpression::Equals(written) => {
                        self.adds_resolve_type(context, None, written, pending);
                        let (s, value) = self.resolve_type(context, None, written, pending);
                        let s = s.record_assoc_type_access(
                            trait_index,
                            clause.name.inner,
                            context.at(clause.name.span),
                        );
                        let s = s.check_assoc_type_bounds(
                            context.file_id,
                            trait_index,
                            clause.name.inner,
                            value,
                            written.span,
                        );
                        let values = cons(
                            AssocValue { name: clause.name.inner, ty: value },
                            values,
                        );
                        s.adds_resolve_memory_values(context, trait_index, rest, values, pending);
                    },
                    BindingExpression::Bound(_) => {
                        self.adds_resolve_memory_values(
                            context,
                            trait_index,
                            rest,
                            values,
                            pending,
                        );
                    },
                }
            },
        }
    }

    pub proof fn adds_resolve_memory_kind(
        self,
        context: ResolveContext,
        trait_index: usize,
        kind: &Spanned<BoundExpression>,
        pending: spec_fn(State<'ast>, DefId) -> State<'ast>,
    )
        requires
            growth::resolver_adds(pending),
        ensures
            self.only_adds(self.resolve_memory_kind(context, trait_index, kind, pending).0),
        decreases 11int, List::<usize>::Nil, 0int,
    {
        broadcast use crate::growth::group_finishing;

        self.adds_nothing();
        match &kind.inner {
            BoundExpression::WithBindings { path: _, bindings } => {
                self.adds_resolve_memory_values(
                    context,
                    trait_index,
                    bindings,
                    List::Nil,
                    pending,
                );
            },
            _ => {},
        }
    }

    pub broadcast proof fn adds_fork_constant(self, index: usize, memory_type: TypeIndex)
        ensures
            self.only_adds((#[trigger] self.fork_constant(index, memory_type)).0),
    {
        broadcast use crate::growth::group_adding;

        self.adds_nothing();
        reveal(State::fork_constant);
    }

    pub broadcast proof fn adds_seed_member(
        self,
        member: Member,
        memory_type: TypeIndex,
        values: &List<AssocValue>,
    )
        ensures
            self.only_adds((#[trigger] self.seed_member(member, memory_type, values)).0),
    {
        broadcast use crate::growth::group_adding;

        self.adds_nothing();
        reveal(State::seed_member);
        match member.entry {
            ImplEntry::Method(func_index) => {},
            ImplEntry::AssocType { ty } => {},
            ImplEntry::AssocConstant(index) => {
                self.adds_fork_constant(index, memory_type);
            },
            ImplEntry::AssocFunction(_) => {},
        }
    }

    pub broadcast proof fn adds_seed_memory_trait_impl_with(
        self,
        members: &List<Member>,
        memory_type: TypeIndex,
        values: &List<AssocValue>,
    )
        ensures
            self.only_adds(
                (#[trigger] self.seed_memory_trait_impl_with(members, memory_type, values)).0,
            ),
        decreases members,
    {
        broadcast use crate::growth::group_adding;

        self.adds_nothing();
        match members {
            List::Nil => {},
            List::Cons(member, rest) => {
                self.adds_seed_member(**member, memory_type, values);
                let (s, seeded) = self.seed_member(**member, memory_type, values);
                s.adds_seed_memory_trait_impl_with(rest, memory_type, values);
            },
        }
    }

    pub broadcast proof fn adds_register_memory(
        self,
        context: ResolveContext,
        id: DefId,
        name: Spanned<Symbol>,
        memory_index: usize,
        trait_index: usize,
        kind: TypeIndex,
        values: &List<AssocValue>,
    )
        ensures
            self.only_adds(
                #[trigger] self.register_memory(
                    context,
                    id,
                    name,
                    memory_index,
                    trait_index,
                    kind,
                    values,
                ),
            ),
    {
        broadcast use crate::growth::group_adding;

        self.adds_nothing();
        reveal(State::register_memory);
        let (s, memory_type) = self.intern(Type::Memory { kind, id });
        let declared = s.trait_members(trait_index);
        s.adds_seed_memory_trait_impl_with(&declared, memory_type, values);
    }

    pub broadcast proof fn adds_reject_memory(
        self,
        context: ResolveContext,
        id: DefId,
        name: Symbol,
        span: TextSpan,
    )
        ensures
            self.only_adds(#[trigger] self.reject_memory(context, id, name, span)),
    {
        broadcast use crate::growth::group_adding;

        self.adds_nothing();
        let s = self.report(report_invalid_memory_kind(context.at(span)));
        s.adds_register_placeholder_memory(context, id, name);
    }

    pub proof fn adds_resolve_memory(
        self,
        context: ResolveContext,
        item: &Item,
        pending: spec_fn(State<'ast>, DefId) -> State<'ast>,
    )
        requires
            growth::resolver_adds(pending),
        ensures
            self.only_adds(self.resolve_memory(context, item, pending)),
        decreases 11int, List::<usize>::Nil, 1int,
    {
        broadcast use crate::growth::group_finishing;

        self.adds_nothing();
        match item {
            Item::Memory { id, name, kind, config } => {
                self.adds_resolve_bounds(context, None, kind, pending);
                let (s, bounds) = self.resolve_bounds(context, None, kind, pending);
                match signatures::only_trait(&bounds) {
                    Some(trait_index) => {
                        s.adds_resolve_memory_kind(context, trait_index, kind, pending);
                        let (s, values) = s.resolve_memory_kind(
                            context,
                            trait_index,
                            kind,
                            pending,
                        );
                        match s.address_type(&values) {
                            Some(address) => {
                                let ids = s.trait_member_ids(trait_index);
                                s.adds_ensure_all(&ids, pending);
                            },
                            None => {},
                        }
                    },
                    None => {},
                }
            },
            _ => {},
        }
    }

    pub broadcast proof fn adds_insert_import(
        self,
        import_index: usize,
        name: Symbol,
        value: ImportValue,
        kind: SymbolKind,
    )
        requires
            self.module_exists(kind),
        ensures
            self.only_adds(#[trigger] self.insert_import(import_index, name, value, kind)),
    {
        broadcast use crate::growth::group_adding;
        broadcast use crate::growth::law_adding_is_growing;

        self.adds_nothing();
        reveal(State::insert_import);
    }

    pub proof fn adds_resolve_imported_function(
        self,
        context: ResolveContext,
        import_index: usize,
        decl: &ImportDeclaration,
        pending: spec_fn(State<'ast>, DefId) -> State<'ast>,
    )
        requires
            growth::resolver_adds(pending),
        ensures
            self.only_adds(self.resolve_imported_function(context, import_index, decl, pending)),
        decreases 11int, List::<usize>::Nil, 0int,
    {
        broadcast use crate::growth::group_finishing;

        self.adds_nothing();
        match decl {
            ImportDeclaration::Function { id, signature } => {
                self.adds_build_function_signature(context, None, signature, pending);
            },
            _ => {},
        }
    }

    pub proof fn adds_resolve_imported_global(
        self,
        context: ResolveContext,
        import_index: usize,
        decl: &ImportDeclaration,
        pending: spec_fn(State<'ast>, DefId) -> State<'ast>,
    )
        requires
            growth::resolver_adds(pending),
        ensures
            self.only_adds(self.resolve_imported_global(context, import_index, decl, pending)),
        decreases 11int, List::<usize>::Nil, 0int,
    {
        broadcast use crate::growth::group_finishing;

        self.adds_nothing();
        match decl {
            ImportDeclaration::Global { id, name, ty, mut_span } => {
                self.adds_resolve_type(context, None, ty, pending);
            },
            _ => {},
        }
    }

    pub proof fn adds_resolve_trait_impl(
        self,
        context: ResolveContext,
        item: &Item,
        pending: spec_fn(State<'ast>, DefId) -> State<'ast>,
    )
        requires
            growth::resolver_adds(pending),
        ensures
            self.only_adds(self.resolve_trait_impl(context, item, pending).0),
        decreases 11int, List::<usize>::Nil, 1int,
    {
        broadcast use crate::growth::group_finishing;

        self.adds_nothing();
        match item {
            Item::TraitImpl { id, type_params, trait_name, target, .. } => {
                let span: TextSpan = signatures::span_of_path(trait_name);
                self.adds_resolve_path_segments_as_bound(context, trait_name, span, pending);
                let (s, kind) = self.resolve_path_segments_as_bound(
                    context,
                    trait_name,
                    span,
                    pending,
                );
                match kind {
                    Some(BoundKind::Trait(trait_index)) => {
                        s.adds_resolve_trait_impl_target(
                            context,
                            *id,
                            trait_index,
                            type_params,
                            target,
                            span,
                            pending,
                        );
                    },
                    Some(BoundKind::TypeSet(_)) => {},
                    None => {},
                }
            },
            _ => {},
        }
    }

    pub proof fn adds_resolve_trait_impl_target(
        self,
        context: ResolveContext,
        id: DefId,
        trait_index: usize,
        type_params: &List<TypeParam>,
        target: &Spanned<TypeExpression>,
        span: TextSpan,
        pending: spec_fn(State<'ast>, DefId) -> State<'ast>,
    )
        requires
            growth::resolver_adds(pending),
        ensures
            self.only_adds(
                self.resolve_trait_impl_target(
                    context,
                    id,
                    trait_index,
                    type_params,
                    target,
                    span,
                    pending,
                ),
            ),
        decreases 11int, List::<usize>::Nil, 0int,
    {
        broadcast use crate::growth::group_finishing;

        self.adds_nothing();
        let (s, impl_index) = self.add_trait_impl(
            TraitImpl {
                id,
                trait_index,
                type_params: prescan::named_params(type_params),
                target: spanned(ty::ERROR, target.span),
                members: List::Nil,
                span,
                file_id: context.file_id,
            },
        );
        let s = s.with_item(id, ItemIndex::TraitImpl(impl_index));
        let owner = TypeParamOwner::TraitImpl(impl_index);
        s.adds_resolve_type_param_bounds(context, owner, None, type_params, 0, pending);
        let s = s.resolve_type_param_bounds(context, owner, None, type_params, 0, pending);
        s.adds_resolve_signature_type(
            context,
            Some(GenericScope { owner, self_type: None }),
            target,
            pending,
        );
    }

    pub proof fn adds_resolve_trait_impl_item(
        self,
        context: ResolveContext,
        parent_id: DefId,
        item: &ImplItem,
        pending: spec_fn(State<'ast>, DefId) -> State<'ast>,
    )
        requires
            growth::resolver_adds(pending),
        ensures
            self.only_adds(self.resolve_trait_impl_item(context, parent_id, item, pending).0),
        decreases 11int, List::<usize>::Nil, 2int,
    {
        broadcast use crate::growth::group_finishing;

        self.adds_nothing();
        self.adds_ensure_pending(parent_id, pending);
        let s = self.ensure_pending(parent_id, pending);
        match s.trait_impl_index(parent_id) {
            Some(impl_index) => {
                let s = match item {
                    ImplItem::Function { .. } => {
                        s.adds_resolve_trait_impl_function(context, impl_index, item, pending);
                        s.resolve_trait_impl_function(context, impl_index, item, pending)
                    },
                    ImplItem::Constant { .. } => {
                        s.adds_resolve_trait_impl_constant(context, impl_index, item, pending);
                        s.resolve_trait_impl_constant(context, impl_index, item, pending)
                    },
                    ImplItem::AssociatedType { .. } => {
                        s.adds_resolve_trait_impl_assoc_type(context, impl_index, item, pending);
                        s.resolve_trait_impl_assoc_type(
                            context,
                            impl_index,
                            item,
                            pending,
                        )
                    },
                };
            },
            None => {},
        }
    }

    pub proof fn adds_resolve_trait_impl_function(
        self,
        context: ResolveContext,
        impl_index: usize,
        item: &ImplItem,
        pending: spec_fn(State<'ast>, DefId) -> State<'ast>,
    )
        requires
            growth::resolver_adds(pending),
        ensures
            self.only_adds(self.resolve_trait_impl_function(context, impl_index, item, pending)),
        decreases 11int, List::<usize>::Nil, 1int,
    {
        broadcast use crate::growth::group_finishing;

        self.adds_nothing();
        match item {
            ImplItem::Function { id, pub_span, attributes, signature, .. } => {
                let (self_type, inherited, _) = self.trait_impl_target(impl_index);
                let (s, known) = self.resolve_attributes(attributes);
                let s = s.register_tagged_items(*id, &known);
                let (s, func_index) = s.add_function(
                    unresolved_function(
                        context,
                        *id,
                        signature.name,
                        Some(ItemParent::Impl(self_type)),
                        List::Nil,
                        Some(TypeParamOwner::TraitImpl(impl_index)),
                        inherited,
                        *pub_span,
                        known,
                    ),
                );
                let s = s.with_item(*id, ItemIndex::Function(func_index));
                s.adds_fill_signature(
                    context,
                    Some(
                        GenericScope {
                            owner: TypeParamOwner::Function(*id),
                            self_type: Some(self_type),
                        },
                    ),
                    func_index,
                    signature,
                    pending,
                );
            },
            _ => {},
        }
    }

    pub proof fn adds_resolve_trait_impl_constant(
        self,
        context: ResolveContext,
        impl_index: usize,
        item: &ImplItem,
        pending: spec_fn(State<'ast>, DefId) -> State<'ast>,
    )
        requires
            growth::resolver_adds(pending),
        ensures
            self.only_adds(self.resolve_trait_impl_constant(context, impl_index, item, pending)),
        decreases 11int, List::<usize>::Nil, 1int,
    {
        broadcast use crate::growth::group_finishing;

        self.adds_nothing();
        let (self_type, _, _) = self.trait_impl_target(impl_index);
        let scope = GenericScope {
            owner: TypeParamOwner::TraitImpl(impl_index),
            self_type: Some(self_type),
        };
        self.adds_resolve_impl_constant(context, scope, self_type, item, pending);
    }

    pub proof fn adds_resolve_trait_impl_assoc_type(
        self,
        context: ResolveContext,
        impl_index: usize,
        item: &ImplItem,
        pending: spec_fn(State<'ast>, DefId) -> State<'ast>,
    )
        requires
            growth::resolver_adds(pending),
        ensures
            self.only_adds(
                self.resolve_trait_impl_assoc_type(context, impl_index, item, pending),
            ),
        decreases 11int, List::<usize>::Nil, 1int,
    {
        broadcast use crate::growth::group_finishing;

        self.adds_nothing();
        match item {
            ImplItem::AssociatedType { name, ty, .. } => {
                let (self_type, _, trait_index) = self.trait_impl_target(impl_index);
                let scope = GenericScope {
                    owner: TypeParamOwner::TraitImpl(impl_index),
                    self_type: Some(self_type),
                };
                self.adds_resolve_type(context, Some(scope), ty, pending);
                let (s, concrete) = self.resolve_type(context, Some(scope), ty, pending);
                let s = s.insert_trait_impl_member(
                    impl_index,
                    name.inner,
                    ImplEntry::AssocType { ty: concrete },
                );
                let ids = s.trait_member_ids(trait_index);
                let s = match s.assoc_type_definition(&ids, name.inner) {
                    Some(id) => {
                        s.adds_ensure_pending(id, pending);
                        s.ensure_pending(id, pending)
                    },
                    None => s,
                };
                let s = s.record_assoc_type_access(
                    trait_index,
                    name.inner,
                    context.at(name.span),
                );
                let s = s.check_assoc_type_bounds(
                    context.file_id,
                    trait_index,
                    name.inner,
                    concrete,
                    name.span,
                );
            },
            _ => {},
        }
    }

    pub proof fn adds_resolve_node(
        self,
        context: ResolveContext,
        node: AstNodeRef<'ast>,
        pending: spec_fn(State<'ast>, DefId) -> State<'ast>,
    )
        requires
            growth::resolver_adds(pending),
        ensures
            self.only_adds(self.resolve_node(context, node, pending).0),
        decreases 11int, List::<usize>::Nil, 9int,
    {
        broadcast use crate::growth::group_finishing;

        self.adds_nothing();
        match node {
            AstNodeRef::Struct { item } => {
                self.adds_resolve_struct(context, item, pending);
            },
            AstNodeRef::TypeAlias { item } => {
                self.adds_resolve_type_alias(context, item, pending);
            },
            AstNodeRef::Enum { item } => {
                self.adds_resolve_enum(context, item, pending);
            },
            AstNodeRef::Function { item } => {
                self.adds_resolve_function(context, item, pending);
            },
            AstNodeRef::InherentImplConst { block_id, item, block_index } => {
                self.adds_resolve_inherent_constant(
                    context,
                    block_id,
                    block_index,
                    item,
                    pending,
                );
            },
            AstNodeRef::InherentImplFunction { block_id, item, block_index } => {
                self.adds_resolve_inherent_function(
                    context,
                    block_id,
                    block_index,
                    item,
                    pending,
                );
            },
            AstNodeRef::InherentImplBlock { type_params, target, block_index } => {
                self.adds_resolve_inherent_block(
                    context,
                    type_params,
                    target,
                    block_index,
                    pending,
                );
            },
            AstNodeRef::Trait { trait_index, item } => {
                self.adds_resolve_trait(context, trait_index, item, pending);
            },
            AstNodeRef::TypeSet { typeset_index, item } => {
                self.adds_resolve_typeset(context, typeset_index, item, pending);
            },
            AstNodeRef::TraitFunction { trait_index, item } => {
                self.adds_resolve_trait_function(context, trait_index, item, pending);
            },
            AstNodeRef::TraitConst { trait_index, item } => {
                self.adds_resolve_trait_constant(context, trait_index, item, pending);
            },
            AstNodeRef::TraitAssocType { trait_index, item } => {
                self.adds_resolve_trait_assoc_type(context, trait_index, item, pending);
            },
            AstNodeRef::Global { item } => {
                self.adds_resolve_global(context, item, pending);
            },
            AstNodeRef::Memory { item } => {
                self.adds_resolve_memory(context, item, pending);
            },
            AstNodeRef::ImportedMemory => {},
            AstNodeRef::Constant { item } => {
                self.adds_resolve_constant(context, item, pending);
            },
            AstNodeRef::ImportedFunction { import_index, decl } => {
                self.adds_resolve_imported_function(context, import_index, decl, pending);
            },
            AstNodeRef::ImportedGlobal { import_index, decl } => {
                self.adds_resolve_imported_global(context, import_index, decl, pending);
            },
            AstNodeRef::TraitImplBlock { item } => {
                self.adds_resolve_trait_impl(context, item, pending);
            },
            AstNodeRef::TraitImplFunction { parent_id, item } => {
                self.adds_resolve_trait_impl_item(context, parent_id, item, pending);
            },
            AstNodeRef::TraitImplConstant { parent_id, item } => {
                self.adds_resolve_trait_impl_item(context, parent_id, item, pending);
            },
            AstNodeRef::TraitImplAssocType { parent_id, item } => {
                self.adds_resolve_trait_impl_item(context, parent_id, item, pending);
            },
        }
    }

    pub proof fn adds_ensure_with(
        self,
        id: DefId,
        pending: spec_fn(State<'ast>, DefId) -> State<'ast>,
    )
        requires
            growth::resolver_adds(pending),
        ensures
            self.only_adds(self.ensure_with(id, pending)),
        decreases 12int, List::<usize>::Nil, 0int,
    {
        broadcast use crate::growth::group_finishing;

        self.adds_nothing();
        if !self.is_pending(id) {
        } else {
            let node: usize = self.node_index(id);
            let s = self.set_sig_state(node, ComputeState::InProgress);
            match s.node_entry(node) {
                Some(entry) => {
                    s.adds_resolve_node(
                        ResolveContext::new(entry.file_id, entry.namespace),
                        entry.node,
                        pending,
                    );
                },
                None => {},
            }
        }
    }
}

impl<'ast> State<'ast> {
    pub proof fn adds_build_standalone_expression(
        self,
        context: ResolveContext,
        expr: &Spanned<ast::Expression>,
        expected: TypeIndex,
        pending: spec_fn(State<'ast>, DefId) -> State<'ast>,
    )
        requires
            growth::resolver_adds(pending),
        ensures
            self.only_adds(self.build_standalone_expression(context, expr, expected, pending).0),
    {
        let ctx = ExprContext::standalone(context, expr.span, expected);
        self.adds_build_expression(ctx, reading(expected), expr, pending);
    }

    pub broadcast proof fn adds_finish_const_expression(
        self,
        ctx: ExprContext,
        built: Option<Expression>,
        expected: TypeIndex,
        span: TextSpan,
    )
        ensures
            self.only_adds((#[trigger] self.finish_const_expression(ctx, built, expected, span)).0),
    {
        broadcast use crate::growth::law_adding_chains;

        reveal(State::finish_const_expression);
        self.adds_nothing();
        match built {
            Some(value) => {
                self.adds_settle_element(ctx, value, expected);
                let (s, ctx, value) = self.settle_element(ctx, value, expected);
                s.adds_check_const_type(ctx.resolve_context, value, expected, span);
            },
            None => {},
        }
    }

    pub proof fn adds_ensure_pending(
        self,
        id: DefId,
        pending: spec_fn(State<'ast>, DefId) -> State<'ast>,
    )
        requires
            growth::resolver_adds(pending),
        ensures
            self.only_adds(self.ensure_pending(id, pending)),
    {
    }

    /// The resolution of a signature only adds.
    pub proof fn adds_ensure_signature(self, id: DefId, depth: usize)
        ensures
            self.only_adds(self.ensure_signature(id, depth)),
        decreases depth, 1int,
    {
        every_resolver_adds(depth);
        self.adds_ensure_with(id, signatures::resolver(depth));
    }
}

/// Resolving what another definition needs only adds.
pub proof fn every_resolver_adds<'ast>(depth: usize)
    ensures
        growth::resolver_adds(signatures::resolver::<'ast>(depth)),
    decreases depth, 0int,
{
    assert forall|s: State<'ast>, id: DefId|
        s.only_adds(#[trigger] signatures::resolver(depth)(s, id)) by {
        s.adds_nothing();
        if depth > 0 {
            s.adds_ensure_signature(id, (depth - 1) as usize);
        }
    }
}

} // verus!
