//! The second phase: the signature of each definition, resolved on demand.

use vstd::prelude::*;

use crate::ast;
use crate::ast::{
    BindingExpression, BoundExpression, ImplItem, ImportDeclaration, Item, MemoryConfig,
    PathSegment, TraitItem, TypeExpression, TypeParam, WhereBinding,
};
use crate::list::{cons, single, List};
use crate::lookup;
use crate::lookup::bound_traits;
use crate::prescan;
use crate::prescan::new_type_params;
use crate::relate::MAX_DEPTH;
use crate::reports::{
    report_duplicate_definition, report_duplicate_struct_field, report_enum_repr_not_integer,
    report_expected_trait_name, report_integer_literal_out_of_range, report_invalid_impl_target,
    report_invalid_memory_kind, report_missing_enum_repr, report_not_const_evaluatable,
    report_supertrait_typeset, report_type_annotation_required, report_typeset_member_not_integer,
};
use crate::resolve;
use crate::resolve::{join_spans, last_span, BoundKind};
use crate::scope::ExprContext;
use crate::shape::{reading, spanned};
use crate::span::{DefId, FileId, SourceSpan, Spanned, Symbol, TextSpan};
use crate::state;
use crate::state::{vec_at, AstEntry, AstNodeRef, Builder, ImplTarget, State};
use crate::substitute;
use crate::substitute::find_member;
use crate::tir::{
    AssocBinding, AssocBindingKind, Bounds, ComputeState, ConstValue, Constant, EnumVariant,
    Expression, Function, GenericScope, Global, ImplEntry, ImportEntry, ImportValue, IntegerRange,
    ItemAttribute, ItemIndex, ItemParent, Member, ResolveContext, StructField, SupertraitBinding,
    SymbolKind, SymbolNamespace, TraitAssocType, TraitBound, TraitImpl, TypeParamInfo,
};
use crate::ty;
use crate::types::{Type, TypeIndex, TypeParamOwner};

verus! {

/// The value that a clause gives to an associated type.
#[derive(Clone, Copy, Debug, PartialEq, Eq, Structural)]
pub struct AssocValue {
    pub name: Symbol,
    pub ty: TypeIndex,
}

/// The number after an integer, cut off to 64 bits.
#[verifier::allow_in_spec]
pub fn successor(value: i64) -> (result: i64)
    returns
        value.wrapping_add(1),
{
    value.wrapping_add(1)
}

impl List<TraitAssocType> {
    /// A second list of the same associated types.
    pub fn duplicate(&self) -> (result: List<TraitAssocType>)
        ensures
            result == *self,
        decreases self,
    {
        match self {
            List::Nil => List::Nil,
            List::Cons(head, rest) => cons(
                TraitAssocType { id: head.id, name: head.name, bounds: head.bounds.duplicate() },
                rest.duplicate(),
            ),
        }
    }
}

impl<'ast> State<'ast> {
    /// An expression outside of any function, and the context after it.
    pub open spec fn build_standalone_expression(
        self,
        context: ResolveContext,
        expr: &Spanned<ast::Expression>,
        expected: TypeIndex,
        pending: spec_fn(State<'ast>, DefId) -> State<'ast>,
    ) -> (State<'ast>, (Option<Expression>, ExprContext)) {
        let ctx = ExprContext::standalone(context, expr.span, expected);
        let (s, ctx, built) = self.build_expression(ctx, reading(expected), expr, pending);
        (s, (built, ctx))
    }
}

impl<'ast> Builder<'ast> {
    /// An expression outside of any function, and the context after it.
    pub fn build_standalone_expression(
        &mut self,
        context: ResolveContext,
        expr: &Spanned<ast::Expression>,
        expected: TypeIndex,
        depth: usize,
    ) -> (result: (Option<Expression>, ExprContext))
        ensures
            (final(self)@, result) == old(self)@.build_standalone_expression(
                context,
                expr,
                expected,
                resolver(depth),
            ),
        decreases depth, 8int, expr, 11int,
    {
        let mut ctx = ExprContext::standalone(context, expr.span, expected);
        let built = self.build_expression(&mut ctx, reading(expected), expr, depth);
        (built, ctx)
    }

    /// A constant's value, once it is built: of the expected type.
    pub fn finish_const_expression(
        &mut self,
        ctx: ExprContext,
        built: Option<Expression>,
        expected: TypeIndex,
        span: TextSpan,
    ) -> (result: Option<Expression>)
        ensures
            (final(self)@, result) == old(self)@.finish_const_expression(
                ctx,
                built,
                expected,
                span,
            ),
    {
        proof {
            reveal(State::finish_const_expression);
        }
        let mut ctx = ctx;
        match built {
            Some(value) => {
                let value = self.settle_element(&mut ctx, value, expected);
                self.check_const_type(ctx.resolve_context, value, expected, span)
            },
            None => None,
        }
    }
}

impl<'ast> State<'ast> {
    /// A constant's value, once it is built: of the expected type.
    #[verifier::opaque]
    pub open spec fn finish_const_expression(
        self,
        ctx: ExprContext,
        built: Option<Expression>,
        expected: TypeIndex,
        span: TextSpan,
    ) -> (State<'ast>, Option<Expression>) {
        match built {
            Some(value) => {
                let (s, ctx, value) = self.settle_element(ctx, value, expected);
                s.check_const_type(ctx.resolve_context, value, expected, span)
            },
            None => (self, None),
        }
    }
}

/// A function whose signature is not resolved yet.
#[verifier::allow_in_spec]
pub fn unresolved_function(
    context: ResolveContext,
    id: DefId,
    name: Spanned<Symbol>,
    parent: Option<ItemParent>,
    type_params: List<TypeParamInfo>,
    type_param_parent: Option<TypeParamOwner>,
    inherited_type_param_count: usize,
    pub_span: Option<TextSpan>,
    attributes: List<ItemAttribute>,
) -> (result: Function)
    returns
        (Function {
            id,
            file_id: context.file_id,
            namespace: context.namespace,
            parent,
            type_params,
            type_param_parent,
            inherited_type_param_count,
            pub_span,
            signature_index: ty::ERROR,
            name,
            params: List::Nil,
            result: None,
            attributes,
            body: None,
        }),
{
    Function {
        id,
        file_id: context.file_id,
        namespace: context.namespace,
        parent,
        type_params,
        type_param_parent,
        inherited_type_param_count,
        pub_span,
        signature_index: ty::ERROR,
        name,
        params: List::Nil,
        result: None,
        attributes,
        body: None,
    }
}

/// A constant of an impl or a trait.
#[verifier::allow_in_spec]
pub fn member_constant(
    context: ResolveContext,
    id: DefId,
    name: Spanned<Symbol>,
    parent: ItemParent,
    ty: Spanned<TypeIndex>,
    value: Option<Expression>,
    const_value: Option<ConstValue>,
) -> (result: Constant)
    returns
        (Constant {
            id,
            file_id: context.file_id,
            namespace: context.namespace,
            parent: Some(parent),
            pub_span: None,
            name,
            ty,
            value,
            const_value,
        }),
{
    Constant {
        id,
        file_id: context.file_id,
        namespace: context.namespace,
        parent: Some(parent),
        pub_span: None,
        name,
        ty,
        value,
        const_value,
    }
}

/// The sizes that a memory's declaration gives.
#[verifier::allow_in_spec]
pub fn configured_pages(config: &Option<MemoryConfig>) -> (result: (Option<u32>, Option<u32>))
    returns
        (match *config {
            Some(config) => (config.min_pages, config.max_pages),
            None => (None, None),
        }),
{
    match config {
        Some(config) => (config.min_pages, config.max_pages),
        None => (None, None),
    }
}

/// How a definition that another one needs is resolved, with so many
/// definitions that may still be under way inside one another.
pub open spec fn resolver<'ast>(depth: usize) -> spec_fn(State<'ast>, DefId) -> State<'ast>
    decreases depth, 0int,
{
    |state: State<'ast>, id: DefId|
        if depth > 0 {
            state.ensure_signature(id, (depth - 1) as usize)
        } else {
            state
        }
}

impl<'ast> State<'ast> {
    /// Resolves the signature of a definition, unless that is done or under
    /// way.
    pub open spec fn ensure_signature(self, id: DefId, depth: usize) -> State<'ast>
        decreases depth, 1int,
    {
        self.ensure_with(id, resolver(depth))
    }

    /// Resolves a definition that another one needs.
    pub open spec fn ensure_pending(
        self,
        id: DefId,
        pending: spec_fn(State<'ast>, DefId) -> State<'ast>,
    ) -> State<'ast> {
        pending(self, id)
    }
}

impl<'ast> Builder<'ast> {
    /// Resolves the signature of a definition, unless that is done or under
    /// way. A second call changes nothing.
    pub fn ensure_signature(&mut self, id: DefId, depth: usize)
        ensures
            final(self)@ == old(self)@.ensure_signature(id, depth),
        decreases depth, 13int, List::<usize>::Nil, 0int,
    {
        self.ensure_with(id, depth)
    }

    /// Resolves a definition that another one needs.
    pub fn ensure_pending(&mut self, id: DefId, depth: usize)
        ensures
            final(self)@ == old(self)@.ensure_pending(id, resolver(depth)),
        decreases depth, 0int, List::<usize>::Nil, 0int,
    {
        if depth > 0 {
            self.ensure_signature(id, depth - 1);
        }
    }
}

/// The members with one of that name put in: in place of an older one, or at
/// the end.
pub open spec fn member_put(members: List<Member>, member: Member) -> List<Member>
    decreases members,
{
    match members {
        List::Nil => single(member),
        List::Cons(head, rest) => {
            if head.name == member.name {
                cons(member, *rest)
            } else {
                cons(*head, member_put(*rest, member))
            }
        },
    }
}

/// The members with one of that name put in: in place of an older one, or at
/// the end.
pub fn put_member(members: List<Member>, member: Member) -> (result: List<Member>)
    ensures
        result == member_put(members, member),
    decreases members,
{
    match members {
        List::Nil => single(member),
        List::Cons(head, rest) => {
            if head.name == member.name {
                cons(member, *rest)
            } else {
                cons(*head, put_member(*rest, member))
            }
        },
    }
}

/// The associated types of a trait with one of that name put in.
pub open spec fn assoc_type_put(
    assoc_types: List<TraitAssocType>,
    assoc_type: TraitAssocType,
) -> List<TraitAssocType>
    decreases assoc_types,
{
    match assoc_types {
        List::Nil => single(assoc_type),
        List::Cons(head, rest) => {
            if head.name.inner == assoc_type.name.inner {
                cons(assoc_type, *rest)
            } else {
                cons(*head, assoc_type_put(*rest, assoc_type))
            }
        },
    }
}

/// The associated types of a trait with one of that name put in.
pub fn put_assoc_type(
    assoc_types: List<TraitAssocType>,
    assoc_type: TraitAssocType,
) -> (result: List<TraitAssocType>)
    ensures
        result == assoc_type_put(assoc_types, assoc_type),
    decreases assoc_types,
{
    match assoc_types {
        List::Nil => single(assoc_type),
        List::Cons(head, rest) => {
            if head.name.inner == assoc_type.name.inner {
                cons(assoc_type, *rest)
            } else {
                cons(*head, put_assoc_type(*rest, assoc_type))
            }
        },
    }
}

/// The clauses with one for that associated type put in.
pub open spec fn supertrait_binding_put(
    bindings: List<SupertraitBinding>,
    binding: SupertraitBinding,
) -> List<SupertraitBinding>
    decreases bindings,
{
    match bindings {
        List::Nil => single(binding),
        List::Cons(head, rest) => {
            if head.trait_index == binding.trait_index && head.name == binding.name {
                cons(binding, *rest)
            } else {
                cons(*head, supertrait_binding_put(*rest, binding))
            }
        },
    }
}

/// The clauses with one for that associated type put in.
pub fn put_supertrait_binding(
    bindings: List<SupertraitBinding>,
    binding: SupertraitBinding,
) -> (result: List<SupertraitBinding>)
    ensures
        result == supertrait_binding_put(bindings, binding),
    decreases bindings,
{
    match bindings {
        List::Nil => single(binding),
        List::Cons(head, rest) => {
            if head.trait_index == binding.trait_index && head.name == binding.name {
                cons(binding, *rest)
            } else {
                cons(*head, put_supertrait_binding(*rest, binding))
            }
        },
    }
}

/// The names of an import with one put in.
pub open spec fn import_entry_put(
    entries: List<ImportEntry>,
    entry: ImportEntry,
) -> List<ImportEntry>
    decreases entries,
{
    match entries {
        List::Nil => single(entry),
        List::Cons(head, rest) => {
            if head.name == entry.name {
                cons(entry, *rest)
            } else {
                cons(*head, import_entry_put(*rest, entry))
            }
        },
    }
}

/// The names of an import with one put in.
pub fn put_import_entry(
    entries: List<ImportEntry>,
    entry: ImportEntry,
) -> (result: List<ImportEntry>)
    ensures
        result == import_entry_put(entries, entry),
    decreases entries,
{
    match entries {
        List::Nil => single(entry),
        List::Cons(head, rest) => {
            if head.name == entry.name {
                cons(entry, *rest)
            } else {
                cons(*head, put_import_entry(*rest, entry))
            }
        },
    }
}

/// The place of the field of that name.
pub open spec fn span_of_field(fields: &List<StructField>, name: Symbol) -> Option<TextSpan>
    decreases fields,
{
    match fields {
        List::Nil => None,
        List::Cons(field, rest) => {
            if field.name.inner == name {
                Some(field.name.span)
            } else {
                span_of_field(rest, name)
            }
        },
    }
}

/// The place of the field of that name.
pub fn field_span(fields: &List<StructField>, name: Symbol) -> (result: Option<TextSpan>)
    ensures
        result == span_of_field(fields, name),
    decreases fields,
{
    match fields {
        List::Nil => None,
        List::Cons(field, rest) => {
            if field.name.inner == name {
                Some(field.name.span)
            } else {
                field_span(rest, name)
            }
        },
    }
}

/// The scope of a definition's own type parameters, if it has any.
pub open spec fn scope_of_params(
    owner: TypeParamOwner,
    params: &List<TypeParam>,
) -> Option<GenericScope> {
    if params.is_empty() {
        None
    } else {
        Some(GenericScope { owner, self_type: None })
    }
}

/// The scope of a definition's own type parameters, if it has any.
pub fn own_scope(
    owner: TypeParamOwner,
    params: &List<TypeParam>,
) -> (result: Option<GenericScope>)
    ensures
        result == scope_of_params(owner, params),
{
    if params.is_empty() {
        None
    } else {
        Some(GenericScope { owner, self_type: None })
    }
}

/// The place of the variant of that name.
pub open spec fn span_of_variant(variants: &List<EnumVariant>, name: Symbol) -> Option<TextSpan>
    decreases variants,
{
    match variants {
        List::Nil => None,
        List::Cons(variant, rest) => {
            if variant.name.inner == name {
                Some(variant.name.span)
            } else {
                span_of_variant(rest, name)
            }
        },
    }
}

/// The place of the variant of that name.
pub fn variant_span(variants: &List<EnumVariant>, name: Symbol) -> (result: Option<TextSpan>)
    ensures
        result == span_of_variant(variants, name),
    decreases variants,
{
    match variants {
        List::Nil => None,
        List::Cons(variant, rest) => {
            if variant.name.inner == name {
                Some(variant.name.span)
            } else {
                variant_span(rest, name)
            }
        },
    }
}

/// The integer that a constant is.
pub open spec fn integer_of_constant(value: Option<ConstValue>) -> Option<i64> {
    match value {
        Some(ConstValue::Int(value)) => Some(value),
        _ => None,
    }
}

/// The integer that a constant is.
pub fn integer_value(value: Option<ConstValue>) -> (result: Option<i64>)
    ensures
        result == integer_of_constant(value),
{
    match value {
        Some(ConstValue::Int(value)) => Some(value),
        _ => None,
    }
}

/// The number that the variant after one with that value counts from.
pub open spec fn counted_after(value: Option<i64>, next_value: i64) -> i64 {
    match value {
        Some(value) => successor(value),
        None => successor(next_value),
    }
}

/// The number that the variant after one with that value counts from.
pub fn value_after(value: Option<i64>, next_value: i64) -> (result: i64)
    ensures
        result == counted_after(value, next_value),
{
    match value {
        Some(value) => successor(value),
        None => successor(next_value),
    }
}

/// The name of a member of an impl.
pub open spec fn name_of_impl_item(item: &ImplItem) -> Spanned<Symbol> {
    match item {
        ImplItem::Function { signature, .. } => signature.name,
        ImplItem::Constant { name, .. } => *name,
        ImplItem::AssociatedType { name, .. } => *name,
    }
}

/// The name of a member of an impl.
pub fn impl_item_name(item: &ImplItem) -> (result: Spanned<Symbol>)
    ensures
        result == name_of_impl_item(item),
{
    match item {
        ImplItem::Function { signature, .. } => signature.name,
        ImplItem::Constant { name, .. } => *name,
        ImplItem::AssociatedType { name, .. } => *name,
    }
}

/// The values that every one of some integer types holds, within a range.
pub open spec fn range_of_members(members: &List<TypeIndex>, range: IntegerRange) -> IntegerRange
    decreases members,
{
    match members {
        List::Nil => range,
        List::Cons(member, rest) => {
            match IntegerRange::for_integer_type(**member) {
                Some(own) => range_of_members(rest, range.intersect(own)),
                None => range_of_members(rest, range),
            }
        },
    }
}

/// The values that every one of some integer types holds, within a range.
pub fn members_range(members: &List<TypeIndex>, range: IntegerRange) -> (result: IntegerRange)
    ensures
        result == range_of_members(members, range),
    decreases members,
{
    match members {
        List::Nil => range,
        List::Cons(member, rest) => match IntegerRange::for_integer_type(**member) {
            Some(own) => members_range(rest, range.intersect(own)),
            None => members_range(rest, range),
        },
    }
}

/// The one trait that bounds consist of.
pub open spec fn only_trait(bounds: &Bounds) -> Option<usize> {
    match (&bounds.traits, bounds.typeset) {
        (List::Cons(bound, rest), None) => {
            if rest.is_empty() {
                Some(bound.trait_index)
            } else {
                None
            }
        },
        _ => None,
    }
}

/// The one trait that bounds consist of.
pub fn single_trait(bounds: &Bounds) -> (result: Option<usize>)
    ensures
        result == only_trait(bounds),
{
    match (&bounds.traits, bounds.typeset) {
        (List::Cons(bound, rest), None) => if rest.is_empty() {
            Some(bound.trait_index)
        } else {
            None
        },
        _ => None,
    }
}

/// The value that was given to an associated type, the last one where there
/// are several.
pub open spec fn assoc_value_of(values: &List<AssocValue>, name: Symbol) -> Option<TypeIndex>
    decreases values,
{
    match values {
        List::Nil => None,
        List::Cons(value, rest) => {
            if value.name == name {
                Some(value.ty)
            } else {
                assoc_value_of(rest, name)
            }
        },
    }
}

/// The value that was given to an associated type, the last one where there
/// are several.
pub fn find_assoc_value(values: &List<AssocValue>, name: Symbol) -> (result: Option<TypeIndex>)
    ensures
        result == assoc_value_of(values, name),
    decreases values,
{
    match values {
        List::Nil => None,
        List::Cons(value, rest) => {
            if value.name == name {
                Some(value.ty)
            } else {
                find_assoc_value(rest, name)
            }
        },
    }
}

/// The place of a whole path.
pub open spec fn span_of_path(path: &List<PathSegment>) -> TextSpan {
    match path {
        List::Nil => TextSpan { start: 0, end: 0 },
        List::Cons(first, rest) => {
            resolve::span_between(
                first.ident.span,
                resolve::last_segment_span(rest, first.ident.span),
            )
        },
    }
}

/// The place of a whole path.
pub fn path_span(path: &List<PathSegment>) -> (result: TextSpan)
    ensures
        result == span_of_path(path),
{
    match path {
        List::Nil => TextSpan { start: 0, end: 0 },
        List::Cons(first, rest) => {
            join_spans(first.ident.span, last_span(rest, first.ident.span))
        },
    }
}

impl<'ast> State<'ast> {
    /// Gives a trait a member.
    #[verifier::opaque]
    pub open spec fn insert_trait_member(
        self,
        trait_index: usize,
        name: Symbol,
        entry: ImplEntry,
    ) -> State<'ast> {
        let members = match state::seq_ref(self.traits, trait_index) {
            Some(declaration) => declaration.members,
            None => List::Nil,
        };
        self.set_trait_members(trait_index, member_put(members, Member { name, entry }))
    }

    /// Gives a trait an associated type.
    #[verifier::opaque]
    pub open spec fn insert_assoc_type(
        self,
        trait_index: usize,
        assoc_type: TraitAssocType,
    ) -> State<'ast> {
        let assoc_types = match state::seq_ref(self.traits, trait_index) {
            Some(declaration) => declaration.assoc_types,
            None => List::Nil,
        };
        self.set_trait_assoc_types(trait_index, assoc_type_put(assoc_types, assoc_type))
    }

    /// Gives a trait impl a member.
    #[verifier::opaque]
    pub open spec fn insert_trait_impl_member(
        self,
        impl_index: usize,
        name: Symbol,
        entry: ImplEntry,
    ) -> State<'ast> {
        let members = match state::seq_ref(self.trait_impls, impl_index) {
            Some(implementation) => implementation.members,
            None => List::Nil,
        };
        self.set_trait_impl_members(
            impl_index,
            member_put(members, Member { name, entry }),
        )
    }

    /// Gives an inherent impl block a member, findable by the block's target.
    #[verifier::opaque]
    pub open spec fn insert_inherent_member(
        self,
        block_index: usize,
        self_type: TypeIndex,
        name: Symbol,
        entry: ImplEntry,
    ) -> State<'ast> {
        let members = match state::seq_ref(self.inherent_impls, block_index) {
            Some(block) => block.members,
            None => List::Nil,
        };
        let s = self.set_inherent_impl_members(
            block_index,
            member_put(members, Member { name, entry }),
        );
        s.register_inherent_member(self_type, name, block_index)
    }

    /// The target and the number of type parameters of an inherent impl block.
    pub open spec fn inherent_impl_target(self, block_index: usize) -> (TypeIndex, usize) {
        match state::seq_ref(self.inherent_impls, block_index) {
            Some(block) => (block.target.inner, block.type_params.len()),
            None => (ty::ERROR, 0),
        }
    }

    /// The target and the number of type parameters of a trait impl, and its
    /// trait.
    pub open spec fn trait_impl_target(self, impl_index: usize) -> (TypeIndex, usize, usize) {
        match state::seq_ref(self.trait_impls, impl_index) {
            Some(implementation) => {
                (
                    implementation.target.inner,
                    implementation.type_params.len(),
                    implementation.trait_index,
                )
            },
            None => (ty::ERROR, 0, 0),
        }
    }

    /// Whether a function is a method: whether its first parameter is `self`.
    pub open spec fn is_method(self, signature: &ast::FunctionSignature) -> bool {
        match &signature.params {
            List::Nil => false,
            List::Cons(param, _) => param.name.inner == self.names.self_value,
        }
    }

    /// The member that a function is.
    pub open spec fn function_entry(
        self,
        func_index: usize,
        signature: &ast::FunctionSignature,
    ) -> ImplEntry {
        if self.is_method(signature) {
            ImplEntry::Method(func_index)
        } else {
            ImplEntry::AssocFunction(func_index)
        }
    }

    /// The value of a constant's expression; one that is not known when the
    /// program is compiled is reported.
    #[verifier::opaque]
    pub open spec fn checked_const_value(
        self,
        value: &Expression,
        span: SourceSpan,
    ) -> (State<'ast>, Option<ConstValue>) {
        let known = self.eval_const_expr(value);
        let s = if known.is_none() {
            self.report(report_not_const_evaluatable(span))
        } else {
            self
        };
        (s, known)
    }

    /// An expression in a place that needs a constant of a type: an enum's
    /// variant or a constant's value. What does not go there is reported.
    pub open spec fn build_const_context_expression(
        self,
        context: ResolveContext,
        expr: &Spanned<ast::Expression>,
        expected: TypeIndex,
        pending: spec_fn(State<'ast>, DefId) -> State<'ast>,
    ) -> (State<'ast>, Option<Expression>)
        decreases 9int, List::<usize>::Nil, 0int,
    {
        let (s, (built, ctx)) = self.build_standalone_expression(
            context,
            expr,
            expected,
            pending,
        );
        s.finish_const_expression(ctx, built, expected, expr.span)
    }

    /// A constant's value, if it has the expected type.
    #[verifier::opaque]
    pub open spec fn check_const_type(
        self,
        context: ResolveContext,
        value: Expression,
        expected: TypeIndex,
        span: TextSpan,
    ) -> (State<'ast>, Option<Expression>) {
        if ty::is_comptime_number(value.ty) {
            let s = self.report(report_type_annotation_required(context.at(span)));
            (s, None)
        } else {
            if expected == ty::ERROR {
                (self, Some(value))
            } else {
                let (s, fits) = self.check_coercible(value.ty, expected, context.at(span));
                if fits {
                    (s, Some(value))
                } else {
                    (s, None)
                }
            }
        }
    }

    /// The fields of a struct. A second field of a name is reported and left out.
    pub open spec fn resolve_struct_fields(
        self,
        context: ResolveContext,
        scope: Option<GenericScope>,
        fields: &List<ast::StructField>,
        resolved: List<StructField>,
        pending: spec_fn(State<'ast>, DefId) -> State<'ast>,
    ) -> (State<'ast>, List<StructField>)
        decreases 10int, fields, 0int,
    {
        match fields {
            List::Nil => (self, resolved),
            List::Cons(field, rest) => {
                match span_of_field(&resolved, field.name.inner) {
                    Some(first) => {
                        let s = self.report(
                            report_duplicate_struct_field(
                                field.name.inner,
                                context.at(first),
                                context.at(field.name.span),
                            ),
                        );
                        s.resolve_struct_fields(context, scope, rest, resolved, pending)
                    },
                    None => {
                        let (s, field_ty) = self.resolve_signature_type(
                            context,
                            scope,
                            &field.ty,
                            pending,
                        );
                        let resolved = resolved.push(
                            StructField {
                                name: field.name,
                                ty: spanned(field_ty, field.ty.span),
                                pub_span: field.pub_span,
                            },
                        );
                        s.resolve_struct_fields(context, scope, rest, resolved, pending)
                    },
                }
            },
        }
    }

    /// Resolves a struct. Its name has its meaning before its fields are
    /// resolved, so that a field can point back at it.
    pub open spec fn resolve_struct(
        self,
        context: ResolveContext,
        item: &Item,
        pending: spec_fn(State<'ast>, DefId) -> State<'ast>,
    ) -> State<'ast>
        decreases 11int, List::<usize>::Nil, 0int,
    {
        match item {
            Item::Struct { id, name, type_params, fields, .. } => {
                match self.struct_index(*id) {
                    Some(struct_index) => {
                        let owner = TypeParamOwner::Struct(*id);
                        let s = self.bound(
                            context.namespace,
                            SymbolNamespace::Type,
                            name.inner,
                            *id,
                            SymbolKind::Struct { struct_index },
                        );
                        let s = s.resolve_type_param_bounds(
                            context,
                            owner,
                            None,
                            type_params,
                            0,
                            pending,
                        );
                        let (s, fields) = s.resolve_struct_fields(
                            context,
                            scope_of_params(owner, type_params),
                            fields,
                            List::Nil,
                            pending,
                        );
                        let s = s.set_struct_fields(struct_index, fields);
                        s.check_struct_fields_for_direct_recursion(
                            struct_index,
                            context.at(name.span),
                        )
                    },
                    None => self,
                }
            },
            _ => self,
        }
    }

    /// Resolves a type alias. Its name has its meaning only when the aliased type
    /// is resolved, so that an alias of itself is found out.
    pub open spec fn resolve_type_alias(
        self,
        context: ResolveContext,
        item: &Item,
        pending: spec_fn(State<'ast>, DefId) -> State<'ast>,
    ) -> State<'ast>
        decreases 11int, List::<usize>::Nil, 0int,
    {
        match item {
            Item::TypeAlias { id, name, type_params, ty, .. } => {
                match self.type_alias_index(*id) {
                    Some(type_alias_index) => {
                        let owner = TypeParamOwner::TypeAlias(*id);
                        let s = self.resolve_type_param_bounds(
                            context,
                            owner,
                            None,
                            type_params,
                            0,
                            pending,
                        );
                        let (s, template) = s.resolve_signature_type(
                            context,
                            scope_of_params(owner, type_params),
                            ty,
                            pending,
                        );
                        let s = s.set_type_alias_template(type_alias_index, template);
                        s.bound(
                            context.namespace,
                            SymbolNamespace::Type,
                            name.inner,
                            *id,
                            SymbolKind::TypeAlias { type_alias_index },
                        )
                    },
                    None => self,
                }
            },
            _ => self,
        }
    }

    /// Reports a type that the values of an enum cannot have.
    #[verifier::opaque]
    pub open spec fn checked_repr(
        self,
        resolved: TypeIndex,
        span: SourceSpan,
    ) -> (State<'ast>, TypeIndex) {
        if resolved != ty::ERROR && !ty::is_integer(resolved) {
            let s = self.report(report_enum_repr_not_integer(resolved, span));
            (s, ty::ERROR)
        } else {
            (self, resolved)
        }
    }

    /// The type that the values of an enum have. One that is missing or no
    /// integer type is reported.
    pub open spec fn resolve_enum_repr(
        self,
        context: ResolveContext,
        name: Spanned<Symbol>,
        repr: &Option<Spanned<TypeExpression>>,
        pending: spec_fn(State<'ast>, DefId) -> State<'ast>,
    ) -> (State<'ast>, TypeIndex)
        decreases 10int, List::<usize>::Nil, 0int,
    {
        match repr {
            Some(written) => {
                let (s, resolved) = self.resolve_type(context, None, written, pending);
                s.checked_repr(resolved, context.at(written.span))
            },
            None => {
                let s = self.report(report_missing_enum_repr(context.at(name.span)));
                (s, ty::ERROR)
            },
        }
    }

    /// Reports a value that comes by counting and does not fit the enum's type.
    #[verifier::opaque]
    pub open spec fn check_counted_value(
        self,
        repr: TypeIndex,
        value: i64,
        span: SourceSpan,
    ) -> State<'ast> {
        match IntegerRange::for_integer_type(repr) {
            Some(range) => {
                if !range.contains(value) {
                    self.report(report_integer_literal_out_of_range(repr, value, span))
                } else {
                    self
                }
            },
            None => self,
        }
    }

    /// The written value of a variant, with the integer that it is.
    #[verifier::opaque]
    pub open spec fn finish_variant_value(
        self,
        built: Option<Expression>,
        span: SourceSpan,
    ) -> (State<'ast>, (Option<Expression>, Option<i64>)) {
        match built {
            Some(value) => {
                let (s, known) = self.checked_const_value(&value, span);
                (s, (Some(value), integer_of_constant(known)))
            },
            None => (self, (None, None)),
        }
    }

    /// The expression and the value of a variant: the written one, or the next
    /// number. Nothing is said of a written value where the enum's type failed.
    pub open spec fn build_variant_value(
        self,
        context: ResolveContext,
        variant: &ast::EnumVariant,
        repr: TypeIndex,
        next_value: i64,
        pending: spec_fn(State<'ast>, DefId) -> State<'ast>,
    ) -> (State<'ast>, (Option<Expression>, Option<i64>))
        decreases 9int, List::<usize>::Nil, 1int,
    {
        match &variant.value {
            Some(written) => {
                if repr == ty::ERROR {
                    (self, (None, None))
                } else {
                    let (s, built) = self.build_const_context_expression(
                        context,
                        written,
                        repr,
                        pending,
                    );
                    s.finish_variant_value(built, context.at(written.span))
                }
            },
            None => {
                let s = self.check_counted_value(repr, next_value, context.at(variant.name.span));
                (s, (None, Some(next_value)))
            },
        }
    }

    /// The variants of an enum. A second variant of a name is reported and left
    /// out.
    pub open spec fn build_variants(
        self,
        context: ResolveContext,
        variants: &List<ast::EnumVariant>,
        repr: TypeIndex,
        next_value: i64,
        built: List<EnumVariant>,
        pending: spec_fn(State<'ast>, DefId) -> State<'ast>,
    ) -> (State<'ast>, List<EnumVariant>)
        decreases 10int, variants, 1int,
    {
        match variants {
            List::Nil => (self, built),
            List::Cons(variant, rest) => {
                match span_of_variant(&built, variant.name.inner) {
                    Some(first) => {
                        let s = self.report(
                            report_duplicate_definition(
                                variant.name.inner,
                                SymbolNamespace::Value,
                                context.at(first),
                                context.at(variant.name.span),
                            ),
                        );
                        s.build_variants(context, rest, repr, next_value, built, pending)
                    },
                    None => {
                        let (s, (value, const_value)) = self.build_variant_value(
                            context,
                            variant,
                            repr,
                            next_value,
                            pending,
                        );
                        let built = built.push(
                            EnumVariant { name: variant.name, value, const_value },
                        );
                        s.build_variants(
                            context,
                            rest,
                            repr,
                            counted_after(const_value, next_value),
                            built,
                            pending,
                        )
                    },
                }
            },
        }
    }

    /// Fills in the type and the variants of an enum. Variants that share a value
    /// are reported.
    pub open spec fn build_enum(
        self,
        context: ResolveContext,
        name: Spanned<Symbol>,
        repr: &Option<Spanned<TypeExpression>>,
        variants: &List<ast::EnumVariant>,
        enum_index: usize,
        pending: spec_fn(State<'ast>, DefId) -> State<'ast>,
    ) -> State<'ast>
        decreases 11int, List::<usize>::Nil, 0int,
    {
        let (s, repr_type) = self.resolve_enum_repr(context, name, repr, pending);
        let (s, built) = s.build_variants(context, variants, repr_type, 0, List::Nil, pending);
        let s = s.report_enum_duplicate_values(context, name.span, &built);
        let s = s.set_enum_repr_type(enum_index, repr_type);
        s.set_enum_variants(enum_index, built)
    }

    /// Resolves an enum.
    pub open spec fn resolve_enum(
        self,
        context: ResolveContext,
        item: &Item,
        pending: spec_fn(State<'ast>, DefId) -> State<'ast>,
    ) -> State<'ast>
        decreases 11int, List::<usize>::Nil, 1int,
    {
        match item {
            Item::Enum { id, name, repr, variants, .. } => {
                match self.enum_index(*id) {
                    Some(enum_index) => {
                        let s = self.build_enum(
                            context,
                            *name,
                            repr,
                            variants,
                            enum_index,
                            pending,
                        );
                        s.bound(
                            context.namespace,
                            SymbolNamespace::Type,
                            name.inner,
                            *id,
                            SymbolKind::Enum { enum_index },
                        )
                    },
                    None => self,
                }
            },
            _ => self,
        }
    }

    /// Fills in the parameters and the result of a function.
    pub open spec fn fill_signature(
        self,
        context: ResolveContext,
        scope: Option<GenericScope>,
        func_index: usize,
        signature: &ast::FunctionSignature,
        pending: spec_fn(State<'ast>, DefId) -> State<'ast>,
    ) -> State<'ast>
        decreases 10int, List::<usize>::Nil, 0int,
    {
        let (s, (params, result_ty)) = self.build_function_signature(
            context,
            scope,
            signature,
            pending,
        );
        let (s, signature_index) = s.intern_function_type(params, result_ty);
        let s = s.set_function_params(func_index, params);
        let s = s.set_function_result(func_index, result_ty);
        s.set_function_signature_index(func_index, signature_index)
    }

    /// Resolves a function outside of any impl or trait.
    pub open spec fn resolve_function(
        self,
        context: ResolveContext,
        item: &Item,
        pending: spec_fn(State<'ast>, DefId) -> State<'ast>,
    ) -> State<'ast>
        decreases 11int, List::<usize>::Nil, 1int,
    {
        match item {
            Item::Function { id, signature, .. } => {
                self.resolve_function_item(context, *id, signature, pending)
            },
            Item::FunctionDeclaration { id, signature, .. } => {
                self.resolve_function_item(context, *id, signature, pending)
            },
            _ => self,
        }
    }

    /// Resolves a function, with or without a body.
    pub open spec fn resolve_function_item(
        self,
        context: ResolveContext,
        id: DefId,
        signature: &ast::FunctionSignature,
        pending: spec_fn(State<'ast>, DefId) -> State<'ast>,
    ) -> State<'ast>
        decreases 11int, List::<usize>::Nil, 0int,
    {
        match self.function_index(id) {
            Some(func_index) => {
                let owner = TypeParamOwner::Function(id);
                let s = self.resolve_type_param_bounds(
                    context,
                    owner,
                    None,
                    &signature.type_params,
                    0,
                    pending,
                );
                let s = s.fill_signature(
                    context,
                    Some(GenericScope { owner, self_type: None }),
                    func_index,
                    signature,
                    pending,
                );
                s.bound(
                    context.namespace,
                    SymbolNamespace::Value,
                    signature.name.inner,
                    id,
                    SymbolKind::Function { func_index },
                )
            },
            None => self,
        }
    }

    /// The type of an impl's constant; it has none without an annotation.
    pub open spec fn resolve_member_type(
        self,
        context: ResolveContext,
        scope: GenericScope,
        annotation: &Option<Spanned<TypeExpression>>,
        pending: spec_fn(State<'ast>, DefId) -> State<'ast>,
    ) -> (State<'ast>, TypeIndex)
        decreases 10int, List::<usize>::Nil, 0int,
    {
        match annotation {
            Some(annotation) => self.resolve_type(context, Some(scope), annotation, pending),
            None => (self, ty::ERROR),
        }
    }

    /// Enters a constant of an impl with its value; the result is its index.
    #[verifier::opaque]
    pub open spec fn add_impl_constant(
        self,
        context: ResolveContext,
        id: DefId,
        name: Spanned<Symbol>,
        self_type: TypeIndex,
        resolved: TypeIndex,
        built: Option<Expression>,
        span: TextSpan,
    ) -> (State<'ast>, Option<usize>) {
        match built {
            Some(value) => {
                let (s, known) = self.checked_const_value(&value, context.at(span));
                let (s, const_index) = s.add_constant(
                    member_constant(
                        context,
                        id,
                        name,
                        ItemParent::Impl(self_type),
                        spanned(resolved, name.span),
                        Some(value),
                        known,
                    ),
                );
                let s = s.with_item(id, ItemIndex::Const(const_index));
                (s, Some(const_index))
            },
            None => (self, None),
        }
    }

    /// Resolves a constant of an impl; the result is its index, if its value can
    /// be built.
    pub open spec fn resolve_impl_constant(
        self,
        context: ResolveContext,
        scope: GenericScope,
        self_type: TypeIndex,
        item: &ImplItem,
        pending: spec_fn(State<'ast>, DefId) -> State<'ast>,
    ) -> (State<'ast>, Option<usize>)
        decreases 11int, List::<usize>::Nil, 0int,
    {
        match item {
            ImplItem::Constant { id, name, ty, value } => {
                let (s, resolved) = self.resolve_member_type(context, scope, ty, pending);
                let (s, built) = s.build_const_context_expression(
                    context,
                    value,
                    resolved,
                    pending,
                );
                s.add_impl_constant(context, *id, *name, self_type, resolved, built, value.span)
            },
            _ => (self, None),
        }
    }

    /// Resolves a constant of an inherent impl block.
    pub open spec fn resolve_inherent_constant(
        self,
        context: ResolveContext,
        block_id: DefId,
        block_index: usize,
        item: &ImplItem,
        pending: spec_fn(State<'ast>, DefId) -> State<'ast>,
    ) -> State<'ast>
        decreases 11int, List::<usize>::Nil, 1int,
    {
        let s = self.ensure_pending(block_id, pending);
        let (self_type, _) = s.inherent_impl_target(block_index);
        let scope = GenericScope {
            owner: TypeParamOwner::ImplBlock(block_index),
            self_type: Some(self_type),
        };
        let (s, constant) = s.resolve_impl_constant(context, scope, self_type, item, pending);
        match constant {
            Some(const_index) => {
                s.insert_inherent_member(
                    block_index,
                    self_type,
                    name_of_impl_item(item).inner,
                    ImplEntry::AssocConstant(const_index),
                )
            },
            None => s,
        }
    }

    /// Reports a function of an inherent impl block that has the name of an
    /// earlier one in the same block.
    #[verifier::opaque]
    pub open spec fn check_duplicate_method(
        self,
        context: ResolveContext,
        block_index: usize,
        name: Spanned<Symbol>,
    ) -> State<'ast> {
        let existing = match state::seq_ref(self.inherent_impls, block_index) {
            Some(block) => substitute::member_entry(block.members, name.inner),
            None => None,
        };
        match existing {
            Some(ImplEntry::Method(previous)) | Some(ImplEntry::AssocFunction(previous)) => {
                self.report(
                    report_duplicate_definition(
                        name.inner,
                        SymbolNamespace::Value,
                        self.item_location(ItemIndex::Function(previous)),
                        context.at(name.span),
                    ),
                )
            },
            _ => self,
        }
    }

    /// Resolves a function of an inherent impl block; it inherits the block's
    /// type parameters.
    pub open spec fn resolve_inherent_function(
        self,
        context: ResolveContext,
        block_id: DefId,
        block_index: usize,
        item: &ImplItem,
        pending: spec_fn(State<'ast>, DefId) -> State<'ast>,
    ) -> (State<'ast>, bool)
        decreases 11int, List::<usize>::Nil, 1int,
    {
        let s = self.ensure_pending(block_id, pending);
        match item {
            ImplItem::Function { id, pub_span, attributes, signature, .. } => {
                let (self_type, inherited) = s.inherent_impl_target(block_index);
                let (s, known) = s.resolve_attributes(attributes);
                let s = s.register_tagged_items(*id, &known);
                let owner = TypeParamOwner::Function(*id);
                let (s, func_index) = s.add_function(
                    unresolved_function(
                        context,
                        *id,
                        signature.name,
                        Some(ItemParent::GenericImpl(block_index)),
                        prescan::named_params(&signature.type_params),
                        Some(TypeParamOwner::ImplBlock(block_index)),
                        inherited,
                        *pub_span,
                        known,
                    ),
                );
                let s = s.with_item(*id, ItemIndex::Function(func_index));
                let s = s.resolve_type_param_bounds(
                    context,
                    owner,
                    None,
                    &signature.type_params,
                    0,
                    pending,
                );
                let s = s.fill_signature(
                    context,
                    Some(GenericScope { owner, self_type: Some(self_type) }),
                    func_index,
                    signature,
                    pending,
                );
                let s = s.check_duplicate_method(context, block_index, signature.name);
                let s = s.insert_inherent_member(
                    block_index,
                    self_type,
                    signature.name.inner,
                    s.function_entry(func_index, signature),
                );
                (s, true)
            },
            _ => (s, false),
        }
    }

    /// Resolves the target of an inherent impl block. A type that has no impls is
    /// reported.
    pub open spec fn resolve_inherent_block(
        self,
        context: ResolveContext,
        type_params: &List<TypeParam>,
        target: &Spanned<TypeExpression>,
        block_index: usize,
        pending: spec_fn(State<'ast>, DefId) -> State<'ast>,
    ) -> State<'ast>
        decreases 11int, List::<usize>::Nil, 0int,
    {
        let owner = TypeParamOwner::ImplBlock(block_index);
        let s = self.resolve_type_param_bounds(context, owner, None, type_params, 0, pending);
        let (s, self_type) = s.resolve_signature_type(
            context,
            Some(GenericScope { owner, self_type: None }),
            target,
            pending,
        );
        match substitute::impl_target(self_type, s.ty(self_type)) {
            Some(_) => s.set_inherent_impl_target(block_index, spanned(self_type, target.span)),
            None => {
                let s = s.report(report_invalid_impl_target(self_type, context.at(target.span)));
                s.set_inherent_impl_target(block_index, spanned(ty::ERROR, target.span))
            },
        }
    }

    /// Checks the values that a clause gives to the associated types of a
    /// supertrait, and collects them.
    pub open spec fn check_supertrait_bindings(
        self,
        file_id: FileId,
        trait_index: usize,
        bindings: &List<AssocBinding>,
        span: TextSpan,
        collected: List<SupertraitBinding>,
    ) -> (State<'ast>, List<SupertraitBinding>)
        decreases bindings,
    {
        match bindings {
            List::Nil => (self, collected),
            List::Cons(binding, rest) => {
                match &binding.rhs {
                    AssocBindingKind::Equals(value) => {
                        let s = self.check_assoc_type_bounds(
                            file_id,
                            trait_index,
                            binding.name.inner,
                            *value,
                            span,
                        );
                        let collected = supertrait_binding_put(
                            collected,
                            SupertraitBinding {
                                trait_index,
                                name: binding.name.inner,
                                ty: *value,
                            },
                        );
                        s.check_supertrait_bindings(file_id, trait_index, rest, span, collected)
                    },
                    AssocBindingKind::Bound(_) => {
                        self.check_supertrait_bindings(
                            file_id,
                            trait_index,
                            rest,
                            span,
                            collected,
                        )
                    },
                }
            },
        }
    }

    /// Checks the clauses on the supertraits of a trait, and collects them.
    pub open spec fn check_supertraits(
        self,
        file_id: FileId,
        traits: &List<TraitBound>,
        span: TextSpan,
        collected: List<SupertraitBinding>,
    ) -> (State<'ast>, List<SupertraitBinding>)
        decreases traits,
    {
        match traits {
            List::Nil => (self, collected),
            List::Cons(bound, rest) => {
                let (s, collected) = self.check_supertrait_bindings(
                    file_id,
                    bound.trait_index,
                    &bound.bindings,
                    span,
                    collected,
                );
                s.check_supertraits(file_id, rest, span, collected)
            },
        }
    }

    /// Resolves the supertraits of a trait.
    pub open spec fn resolve_trait(
        self,
        context: ResolveContext,
        trait_index: usize,
        item: &Item,
        pending: spec_fn(State<'ast>, DefId) -> State<'ast>,
    ) -> State<'ast>
        decreases 11int, List::<usize>::Nil, 0int,
    {
        match item {
            Item::Trait { id, attributes, supertraits, .. } => {
                let (s, known) = self.resolve_attributes(attributes);
                let s = s.register_tagged_items(*id, &known);
                match supertraits {
                    Some(written) => {
                        let (s, bounds) = s.resolve_bounds(context, None, written, pending);
                        let s = if bounds.typeset.is_some() {
                            s.report(report_supertrait_typeset(context.at(written.span)))
                        } else {
                            s
                        };
                        let (s, bindings) = s.check_supertraits(
                            context.file_id,
                            &bounds.traits,
                            written.span,
                            List::Nil,
                        );
                        let s = s.set_trait_supertraits(
                            trait_index,
                            lookup::traits_of(&bounds.traits),
                        );
                        s.set_trait_supertrait_bindings(trait_index, bindings)
                    },
                    None => {
                        let s = s.set_trait_supertraits(trait_index, List::Nil);
                        s.set_trait_supertrait_bindings(trait_index, List::Nil)
                    },
                }
            },
            _ => self,
        }
    }

    /// The members of a typeset. One that is no integer type is reported and left
    /// out.
    pub open spec fn resolve_typeset_members(
        self,
        context: ResolveContext,
        members: &List<Spanned<TypeExpression>>,
        pending: spec_fn(State<'ast>, DefId) -> State<'ast>,
    ) -> (State<'ast>, List<TypeIndex>)
        decreases 10int, members, 0int,
    {
        match members {
            List::Nil => (self, List::Nil),
            List::Cons(member, rest) => {
                let (s, index) = self.resolve_type(context, None, member, pending);
                if !ty::is_integer(index) {
                    let s = s.report(
                        report_typeset_member_not_integer(index, context.at(member.span)),
                    );
                    s.resolve_typeset_members(context, rest, pending)
                } else {
                    let (s, others) = s.resolve_typeset_members(context, rest, pending);
                    (s, cons(index, others))
                }
            },
        }
    }

    /// Resolves the members of a typeset.
    pub open spec fn resolve_typeset(
        self,
        context: ResolveContext,
        typeset_index: usize,
        item: &Item,
        pending: spec_fn(State<'ast>, DefId) -> State<'ast>,
    ) -> State<'ast>
        decreases 11int, List::<usize>::Nil, 0int,
    {
        match item {
            Item::TypeSet { members, .. } => {
                let (s, resolved) = self.resolve_typeset_members(context, members, pending);
                let range = range_of_members(&resolved, IntegerRange::widest());
                let s = s.set_typeset_members(typeset_index, resolved);
                s.set_typeset_intersection_range(typeset_index, range)
            },
            _ => self,
        }
    }

    /// The type `Self` inside a trait: the trait's one type parameter.
    pub open spec fn trait_self_type(self, trait_index: usize) -> (State<'ast>, TypeIndex) {
        self.intern(Type::TypeParam { owner: TypeParamOwner::Trait(trait_index), param_index: 0 })
    }

    /// Resolves a function of a trait.
    pub open spec fn resolve_trait_function(
        self,
        context: ResolveContext,
        trait_index: usize,
        item: &TraitItem,
        pending: spec_fn(State<'ast>, DefId) -> State<'ast>,
    ) -> State<'ast>
        decreases 11int, List::<usize>::Nil, 0int,
    {
        match item {
            TraitItem::Function { id, attributes, signature, .. } => {
                let (s, self_type) = self.trait_self_type(trait_index);
                let (s, known) = s.resolve_attributes(attributes);
                let s = s.register_tagged_items(*id, &known);
                let owner = TypeParamOwner::Function(*id);
                let (s, func_index) = s.add_function(
                    unresolved_function(
                        context,
                        *id,
                        signature.name,
                        Some(ItemParent::Trait(trait_index)),
                        prescan::named_params(&signature.type_params),
                        Some(TypeParamOwner::Trait(trait_index)),
                        1,
                        None,
                        known,
                    ),
                );
                let s = s.with_item(*id, ItemIndex::Function(func_index));
                let s = s.resolve_type_param_bounds(
                    context,
                    owner,
                    Some(self_type),
                    &signature.type_params,
                    0,
                    pending,
                );
                let s = s.fill_signature(
                    context,
                    Some(GenericScope { owner, self_type: Some(self_type) }),
                    func_index,
                    signature,
                    pending,
                );
                s.insert_trait_member(
                    trait_index,
                    signature.name.inner,
                    s.function_entry(func_index, signature),
                )
            },
            _ => self,
        }
    }

    /// Resolves a constant that a trait asks for.
    pub open spec fn resolve_trait_constant(
        self,
        context: ResolveContext,
        trait_index: usize,
        item: &TraitItem,
        pending: spec_fn(State<'ast>, DefId) -> State<'ast>,
    ) -> State<'ast>
        decreases 11int, List::<usize>::Nil, 0int,
    {
        let (s, self_type) = self.trait_self_type(trait_index);
        match item {
            TraitItem::Const { id, attributes, name, ty } => {
                let scope = GenericScope {
                    owner: TypeParamOwner::Trait(trait_index),
                    self_type: Some(self_type),
                };
                let (s, resolved) = s.resolve_type(context, Some(scope), ty, pending);
                let (s, known) = s.resolve_attributes(attributes);
                let s = s.register_tagged_items(*id, &known);
                let (s, const_index) = s.add_constant(
                    member_constant(
                        context,
                        *id,
                        *name,
                        ItemParent::Trait(trait_index),
                        spanned(resolved, ty.span),
                        None,
                        None,
                    ),
                );
                let s = s.with_item(*id, ItemIndex::Const(const_index));
                s.insert_trait_member(
                    trait_index,
                    name.inner,
                    ImplEntry::AssocConstant(const_index),
                )
            },
            _ => s,
        }
    }

    /// Resolves an associated type that a trait asks for. Its name keeps another
    /// meaning that it has got before.
    pub open spec fn resolve_trait_assoc_type(
        self,
        context: ResolveContext,
        trait_index: usize,
        item: &TraitItem,
        pending: spec_fn(State<'ast>, DefId) -> State<'ast>,
    ) -> State<'ast>
        decreases 11int, List::<usize>::Nil, 0int,
    {
        match item {
            TraitItem::AssociatedType { id, attributes, name, bounds } => {
                let (s, resolved) = self.resolve_optional_bounds(context, None, bounds, pending);
                let (s, known) = s.resolve_attributes(attributes);
                let s = s.register_tagged_items(*id, &known);
                let (s, placeholder) = s.intern(
                    Type::AssociatedType { assoc_name: name.inner, trait_index },
                );
                let s = s.insert_assoc_type(
                    trait_index,
                    TraitAssocType { id: *id, name: *name, bounds: resolved },
                );
                let s = s.insert_trait_member(
                    trait_index,
                    name.inner,
                    ImplEntry::AssocType { ty: placeholder },
                );
                match s.visible_symbol(context.namespace, SymbolNamespace::Type, name.inner) {
                    Some(SymbolKind::Pending(pending)) => {
                        if pending == *id {
                            s.with_symbol(
                                context.namespace,
                                SymbolNamespace::Type,
                                name.inner,
                                SymbolKind::TraitAssocType {
                                    trait_index,
                                    assoc_name: name.inner,
                                },
                            )
                        } else {
                            s
                        }
                    },
                    _ => s,
                }
            },
            _ => self,
        }
    }

    /// The type of a global or constant with its place. One without an annotation
    /// is reported.
    pub open spec fn resolve_item_type(
        self,
        context: ResolveContext,
        annotation: &Option<Spanned<TypeExpression>>,
        name: Spanned<Symbol>,
        in_signature: bool,
        pending: spec_fn(State<'ast>, DefId) -> State<'ast>,
    ) -> (State<'ast>, Spanned<TypeIndex>)
        decreases 10int, List::<usize>::Nil, 0int,
    {
        match annotation {
            Some(written) => {
                if in_signature {
                    let (s, index) = self.resolve_signature_type(context, None, written, pending);
                    (s, spanned(index, written.span))
                } else {
                    let (s, index) = self.resolve_type(context, None, written, pending);
                    (s, spanned(index, written.span))
                }
            },
            None => {
                let s = self.report(report_type_annotation_required(context.at(name.span)));
                (s, spanned(ty::ERROR, name.span))
            },
        }
    }

    /// Resolves the type of a global variable.
    pub open spec fn resolve_global(
        self,
        context: ResolveContext,
        item: &Item,
        pending: spec_fn(State<'ast>, DefId) -> State<'ast>,
    ) -> State<'ast>
        decreases 11int, List::<usize>::Nil, 0int,
    {
        match item {
            Item::Global { id, name, ty, .. } => {
                match self.global_index(*id) {
                    Some(global_index) => {
                        let (s, resolved) = self.resolve_item_type(
                            context,
                            ty,
                            *name,
                            true,
                            pending,
                        );
                        let s = s.set_global_ty(global_index, resolved);
                        s.bound(
                            context.namespace,
                            SymbolNamespace::Value,
                            name.inner,
                            *id,
                            SymbolKind::Global { global_index },
                        )
                    },
                    None => self,
                }
            },
            _ => self,
        }
    }

    /// Gives a constant its value, and its name its meaning.
    #[verifier::opaque]
    pub open spec fn finish_constant(
        self,
        context: ResolveContext,
        id: DefId,
        name: Symbol,
        const_index: usize,
        built: Option<Expression>,
        span: TextSpan,
    ) -> State<'ast> {
        match built {
            Some(value) => {
                let (s, known) = self.checked_const_value(&value, context.at(span));
                let s = s.set_constant_value(const_index, Some(value));
                let s = s.set_constant_const_value(const_index, known);
                s.bound(
                    context.namespace,
                    SymbolNamespace::Value,
                    name,
                    id,
                    SymbolKind::Const { const_index },
                )
            },
            None => self,
        }
    }

    /// Resolves a constant: its type and its value. One whose value cannot be
    /// built never gives its name a meaning.
    pub open spec fn resolve_constant(
        self,
        context: ResolveContext,
        item: &Item,
        pending: spec_fn(State<'ast>, DefId) -> State<'ast>,
    ) -> State<'ast>
        decreases 11int, List::<usize>::Nil, 0int,
    {
        match item {
            Item::Const { id, name, ty, value, .. } => {
                match self.const_index(*id) {
                    Some(const_index) => {
                        let (s, resolved) = self.resolve_item_type(
                            context,
                            ty,
                            *name,
                            false,
                            pending,
                        );
                        let s = s.set_constant_ty(const_index, resolved);
                        let (s, built) = s.build_const_context_expression(
                            context,
                            value,
                            resolved.inner,
                            pending,
                        );
                        s.finish_constant(
                            context,
                            *id,
                            name.inner,
                            const_index,
                            built,
                            value.span,
                        )
                    },
                    None => self,
                }
            },
            _ => self,
        }
    }

    /// The values that a memory gives to the associated types of its trait, the
    /// last one first.
    pub open spec fn resolve_memory_values(
        self,
        context: ResolveContext,
        trait_index: usize,
        clauses: &List<WhereBinding>,
        values: List<AssocValue>,
        pending: spec_fn(State<'ast>, DefId) -> State<'ast>,
    ) -> (State<'ast>, List<AssocValue>)
        decreases 10int, clauses, 0int,
    {
        match clauses {
            List::Nil => (self, values),
            List::Cons(clause, rest) => {
                match &clause.rhs {
                    BindingExpression::Equals(written) => {
                        let (s, value) = self.resolve_type(context, None, written, pending);
                        let s = s.record_assoc_type_access(
                            trait_index,
                            clause.name.inner,
                            context.at(clause.name.span),
                        );
                        let s = s.check_assoc_type_bounds(
                            context.file_id,
                            trait_index,
                            clause.name.inner,
                            value,
                            written.span,
                        );
                        let values = cons(
                            AssocValue { name: clause.name.inner, ty: value },
                            values,
                        );
                        s.resolve_memory_values(context, trait_index, rest, values, pending)
                    },
                    BindingExpression::Bound(_) => {
                        self.resolve_memory_values(context, trait_index, rest, values, pending)
                    },
                }
            },
        }
    }

    /// The values that the written kind of a memory gives.
    pub open spec fn resolve_memory_kind(
        self,
        context: ResolveContext,
        trait_index: usize,
        kind: &Spanned<BoundExpression>,
        pending: spec_fn(State<'ast>, DefId) -> State<'ast>,
    ) -> (State<'ast>, List<AssocValue>)
        decreases 11int, List::<usize>::Nil, 0int,
    {
        match &kind.inner {
            BoundExpression::WithBindings { path: _, bindings } => {
                self.resolve_memory_values(context, trait_index, bindings, List::Nil, pending)
            },
            _ => (self, List::Nil),
        }
    }

    /// The type of a memory's addresses: the value of `Size`, which is `u32` or
    /// `u64`.
    pub open spec fn address_type(self, values: &List<AssocValue>) -> Option<TypeIndex> {
        match assoc_value_of(values, self.names.size) {
            Some(value) => {
                if value == ty::U32 || value == ty::U64 {
                    Some(value)
                } else {
                    None
                }
            },
            None => None,
        }
    }

    /// A memory's own copy of a constant that its trait asks for, with the memory
    /// for `Self`; the result is its index.
    #[verifier::opaque]
    pub open spec fn fork_constant(
        self,
        index: usize,
        memory_type: TypeIndex,
    ) -> (State<'ast>, usize) {
        let (context, name, parent, pub_span, declared) = self.constant_template(index);
        let (s, concrete) = self.substituted(declared.inner, single(memory_type), MAX_DEPTH);
        let (s, id) = s.fresh_id();
        let (s, const_index) = s.add_constant(
            Constant {
                id,
                file_id: context.file_id,
                namespace: context.namespace,
                parent,
                pub_span,
                name,
                ty: spanned(concrete, declared.span),
                value: None,
                const_value: None,
            },
        );
        let s = s.with_item(id, ItemIndex::Const(const_index));
        (s, const_index)
    }

    /// What a copy of a constant keeps.
    pub open spec fn constant_template(
        self,
        index: usize,
    ) -> (ResolveContext, Spanned<Symbol>, Option<ItemParent>, Option<TextSpan>, Spanned<TypeIndex>) {
        match state::seq_ref(self.constants, index) {
            Some(constant) => {
                (
                    ResolveContext::new(constant.file_id, constant.namespace),
                    constant.name,
                    constant.parent,
                    constant.pub_span,
                    constant.ty,
                )
            },
            None => {
                (
                    ResolveContext::new(0, None),
                    Spanned { inner: 0, span: TextSpan { start: 0, end: 0 } },
                    None,
                    None,
                    spanned(ty::ERROR, TextSpan { start: 0, end: 0 }),
                )
            },
        }
    }

    /// Whether the first parameter of a function is `self`.
    pub open spec fn takes_self(self, func_index: usize) -> bool {
        match state::seq_ref(self.functions, func_index) {
            Some(function) => {
                match &function.params {
                    List::Nil => false,
                    List::Cons(param, _) => param.name.inner == self.names.self_value,
                }
            },
            None => false,
        }
    }

    /// What a memory has for a member of its trait.
    #[verifier::opaque]
    pub open spec fn seed_member(
        self,
        member: Member,
        memory_type: TypeIndex,
        values: &List<AssocValue>,
    ) -> (State<'ast>, Member) {
        match member.entry {
            ImplEntry::Method(func_index) => {
                if self.takes_self(func_index) {
                    (self, member)
                } else {
                    (
                        self,
                        Member { name: member.name, entry: ImplEntry::AssocFunction(func_index) },
                    )
                }
            },
            ImplEntry::AssocType { ty } => {
                match assoc_value_of(values, member.name) {
                    Some(value) => {
                        (
                            self,
                            Member {
                                name: member.name,
                                entry: ImplEntry::AssocType { ty: value },
                            },
                        )
                    },
                    None => {
                        (self, Member { name: member.name, entry: ImplEntry::AssocType { ty } })
                    },
                }
            },
            ImplEntry::AssocConstant(index) => {
                let (s, const_index) = self.fork_constant(index, memory_type);
                (s, Member { name: member.name, entry: ImplEntry::AssocConstant(const_index) })
            },
            ImplEntry::AssocFunction(_) => (self, member),
        }
    }

    /// The members that a memory has from its trait.
    pub open spec fn seed_memory_trait_impl_with(
        self,
        members: &List<Member>,
        memory_type: TypeIndex,
        values: &List<AssocValue>,
    ) -> (State<'ast>, List<Member>)
        decreases members,
    {
        match members {
            List::Nil => (self, List::Nil),
            List::Cons(member, rest) => {
                let (s, seeded) = self.seed_member(**member, memory_type, values);
                let (s, others) = s.seed_memory_trait_impl_with(rest, memory_type, values);
                (s, cons(seeded, others))
            },
        }
    }

    /// The members that a trait declares.
    pub open spec fn trait_members(self, trait_index: usize) -> List<Member> {
        match state::seq_ref(self.traits, trait_index) {
            Some(declaration) => declaration.members,
            None => List::Nil,
        }
    }

    /// Makes a memory implement its trait, and gives its name its meaning.
    #[verifier::opaque]
    pub open spec fn register_memory(
        self,
        context: ResolveContext,
        id: DefId,
        name: Spanned<Symbol>,
        memory_index: usize,
        trait_index: usize,
        kind: TypeIndex,
        values: &List<AssocValue>,
    ) -> State<'ast> {
        let (s, memory_type) = self.intern(Type::Memory { kind, id });
        let declared = s.trait_members(trait_index);
        let (s, members) = s.seed_memory_trait_impl_with(&declared, memory_type, values);
        let (s, impl_id) = s.fresh_id();
        let (s, impl_index) = s.add_trait_impl(
            TraitImpl {
                id: impl_id,
                trait_index,
                type_params: List::Nil,
                target: spanned(memory_type, name.span),
                members,
                span: name.span,
                file_id: context.file_id,
            },
        );
        let s = s.register_trait_impl(memory_type, trait_index, impl_index);
        let s = s.with_item(impl_id, ItemIndex::TraitImpl(impl_index));
        let meaning = SymbolKind::Memory { memory_index, kind };
        let s = s.bound(context.namespace, SymbolNamespace::Type, name.inner, id, meaning);
        s.bound(context.namespace, SymbolNamespace::Value, name.inner, id, meaning)
    }

    /// Reports a memory whose kind is wrong; its name gets a meaning all the
    /// same.
    pub open spec fn reject_memory(
        self,
        context: ResolveContext,
        id: DefId,
        name: Symbol,
        span: TextSpan,
    ) -> State<'ast> {
        let s = self.report(report_invalid_memory_kind(context.at(span)));
        s.register_placeholder_memory(context, id, name)
    }

    /// Resolves a memory: the trait that is its kind, and the type of its
    /// addresses.
    pub open spec fn resolve_memory(
        self,
        context: ResolveContext,
        item: &Item,
        pending: spec_fn(State<'ast>, DefId) -> State<'ast>,
    ) -> State<'ast>
        decreases 11int, List::<usize>::Nil, 1int,
    {
        match item {
            Item::Memory { id, name, kind, config } => {
                let (s, bounds) = self.resolve_bounds(context, None, kind, pending);
                match only_trait(&bounds) {
                    Some(trait_index) => {
                        let (s, values) = s.resolve_memory_kind(
                            context,
                            trait_index,
                            kind,
                            pending,
                        );
                        match s.address_type(&values) {
                            Some(address) => {
                                let ids = s.trait_member_ids(trait_index);
                                let s = s.ensure_all(&ids, pending);
                                match s.memory_index(*id) {
                                    Some(memory_index) => {
                                        let (min_pages, max_pages) = configured_pages(config);
                                        let s = s.set_memory_kind(memory_index, address);
                                        let s = s.set_memory_min_pages(memory_index, min_pages);
                                        let s = s.set_memory_max_pages(memory_index, max_pages);
                                        s.register_memory(
                                            context,
                                            *id,
                                            *name,
                                            memory_index,
                                            trait_index,
                                            address,
                                            &values,
                                        )
                                    },
                                    None => s,
                                }
                            },
                            None => s.reject_memory(context, *id, name.inner, kind.span),
                        }
                    },
                    None => s.reject_memory(context, *id, name.inner, kind.span),
                }
            },
            _ => self,
        }
    }

    /// The namespace of an import.
    pub open spec fn import_namespace(self, import_index: usize) -> usize {
        match state::seq_ref(self.import_decls, import_index) {
            Some(declaration) => declaration.namespace_idx,
            None => 0,
        }
    }

    /// Gives a name of an import its meaning.
    #[verifier::opaque]
    pub open spec fn insert_import(
        self,
        import_index: usize,
        name: Symbol,
        value: ImportValue,
        kind: SymbolKind,
    ) -> State<'ast> {
        let entries = match state::seq_ref(self.import_decls, import_index) {
            Some(declaration) => declaration.lookup,
            None => List::Nil,
        };
        let s = self.set_import_decl_lookup(
            import_index,
            import_entry_put(entries, ImportEntry { name, value }),
        );
        s.with_symbol(
            Some(s.import_namespace(import_index)),
            SymbolNamespace::Value,
            name,
            kind,
        )
    }

    /// Resolves a function of an import.
    pub open spec fn resolve_imported_function(
        self,
        context: ResolveContext,
        import_index: usize,
        decl: &ImportDeclaration,
        pending: spec_fn(State<'ast>, DefId) -> State<'ast>,
    ) -> State<'ast>
        decreases 11int, List::<usize>::Nil, 0int,
    {
        match decl {
            ImportDeclaration::Function { id, signature } => {
                let (s, (params, result_ty)) = self.build_function_signature(
                    context,
                    None,
                    signature,
                    pending,
                );
                let (s, signature_index) = s.intern_function_type(params, result_ty);
                let (s, func_index) = s.add_function(
                    Function {
                        id: *id,
                        file_id: context.file_id,
                        namespace: Some(s.import_namespace(import_index)),
                        parent: None,
                        type_params: List::Nil,
                        type_param_parent: None,
                        inherited_type_param_count: 0,
                        pub_span: None,
                        signature_index,
                        name: signature.name,
                        params,
                        result: result_ty,
                        attributes: List::Nil,
                        body: None,
                    },
                );
                let s = s.with_item(*id, ItemIndex::Function(func_index));
                s.insert_import(
                    import_index,
                    signature.name.inner,
                    ImportValue::Function(*id),
                    SymbolKind::Function { func_index },
                )
            },
            _ => self,
        }
    }

    /// Resolves a global variable of an import.
    pub open spec fn resolve_imported_global(
        self,
        context: ResolveContext,
        import_index: usize,
        decl: &ImportDeclaration,
        pending: spec_fn(State<'ast>, DefId) -> State<'ast>,
    ) -> State<'ast>
        decreases 11int, List::<usize>::Nil, 0int,
    {
        match decl {
            ImportDeclaration::Global { id, name, ty, mut_span } => {
                let (s, resolved) = self.resolve_type(context, None, ty, pending);
                let (s, global_index) = s.add_global(
                    Global {
                        id: *id,
                        file_id: context.file_id,
                        namespace: Some(s.import_namespace(import_index)),
                        name: *name,
                        ty: spanned(resolved, ty.span),
                        pub_span: None,
                        mut_span: *mut_span,
                        value: None,
                    },
                );
                let s = s.with_item(*id, ItemIndex::Global(global_index));
                s.insert_import(
                    import_index,
                    name.inner,
                    ImportValue::Global(*id),
                    SymbolKind::Global { global_index },
                )
            },
            _ => self,
        }
    }

    /// Resolves the trait and the target of a trait impl. Without a trait there
    /// is no impl.
    pub open spec fn resolve_trait_impl(
        self,
        context: ResolveContext,
        item: &Item,
        pending: spec_fn(State<'ast>, DefId) -> State<'ast>,
    ) -> (State<'ast>, bool)
        decreases 11int, List::<usize>::Nil, 1int,
    {
        match item {
            Item::TraitImpl { id, type_params, trait_name, target, .. } => {
                let span: TextSpan = span_of_path(trait_name);
                let (s, kind) = self.resolve_path_segments_as_bound(
                    context,
                    trait_name,
                    span,
                    pending,
                );
                match kind {
                    Some(BoundKind::Trait(trait_index)) => {
                        let s = s.resolve_trait_impl_target(
                            context,
                            *id,
                            trait_index,
                            type_params,
                            target,
                            span,
                            pending,
                        );
                        (s, true)
                    },
                    Some(BoundKind::TypeSet(_)) => {
                        let s = s.report(report_expected_trait_name(context.at(span)));
                        (s, false)
                    },
                    None => (s, false),
                }
            },
            _ => (self, false),
        }
    }

    /// Enters a trait impl, and makes it findable by its target.
    pub open spec fn resolve_trait_impl_target(
        self,
        context: ResolveContext,
        id: DefId,
        trait_index: usize,
        type_params: &List<TypeParam>,
        target: &Spanned<TypeExpression>,
        span: TextSpan,
        pending: spec_fn(State<'ast>, DefId) -> State<'ast>,
    ) -> State<'ast>
        decreases 11int, List::<usize>::Nil, 0int,
    {
        let (s, impl_index) = self.add_trait_impl(
            TraitImpl {
                id,
                trait_index,
                type_params: prescan::named_params(type_params),
                target: spanned(ty::ERROR, target.span),
                members: List::Nil,
                span,
                file_id: context.file_id,
            },
        );
        let s = s.with_item(id, ItemIndex::TraitImpl(impl_index));
        let owner = TypeParamOwner::TraitImpl(impl_index);
        let s = s.resolve_type_param_bounds(context, owner, None, type_params, 0, pending);
        let (s, target_type) = s.resolve_signature_type(
            context,
            Some(GenericScope { owner, self_type: None }),
            target,
            pending,
        );
        let s = s.set_trait_impl_target(impl_index, spanned(target_type, target.span));
        s.register_trait_impl(target_type, trait_index, impl_index)
    }

    /// Resolves a member of a trait impl. Without the impl there is no member.
    pub open spec fn resolve_trait_impl_item(
        self,
        context: ResolveContext,
        parent_id: DefId,
        item: &ImplItem,
        pending: spec_fn(State<'ast>, DefId) -> State<'ast>,
    ) -> (State<'ast>, bool)
        decreases 11int, List::<usize>::Nil, 2int,
    {
        let s = self.ensure_pending(parent_id, pending);
        match s.trait_impl_index(parent_id) {
            Some(impl_index) => {
                let s = match item {
                    ImplItem::Function { .. } => {
                        s.resolve_trait_impl_function(context, impl_index, item, pending)
                    },
                    ImplItem::Constant { .. } => {
                        s.resolve_trait_impl_constant(context, impl_index, item, pending)
                    },
                    ImplItem::AssociatedType { .. } => {
                        s.resolve_trait_impl_assoc_type(
                            context,
                            impl_index,
                            item,
                            pending,
                        )
                    },
                };
                (s, true)
            },
            None => (s, false),
        }
    }

    /// Resolves a function of a trait impl. It has no type parameters of its own.
    pub open spec fn resolve_trait_impl_function(
        self,
        context: ResolveContext,
        impl_index: usize,
        item: &ImplItem,
        pending: spec_fn(State<'ast>, DefId) -> State<'ast>,
    ) -> State<'ast>
        decreases 11int, List::<usize>::Nil, 1int,
    {
        match item {
            ImplItem::Function { id, pub_span, attributes, signature, .. } => {
                let (self_type, inherited, _) = self.trait_impl_target(impl_index);
                let (s, known) = self.resolve_attributes(attributes);
                let s = s.register_tagged_items(*id, &known);
                let (s, func_index) = s.add_function(
                    unresolved_function(
                        context,
                        *id,
                        signature.name,
                        Some(ItemParent::Impl(self_type)),
                        List::Nil,
                        Some(TypeParamOwner::TraitImpl(impl_index)),
                        inherited,
                        *pub_span,
                        known,
                    ),
                );
                let s = s.with_item(*id, ItemIndex::Function(func_index));
                let s = s.fill_signature(
                    context,
                    Some(
                        GenericScope {
                            owner: TypeParamOwner::Function(*id),
                            self_type: Some(self_type),
                        },
                    ),
                    func_index,
                    signature,
                    pending,
                );
                s.insert_trait_impl_member(
                    impl_index,
                    signature.name.inner,
                    s.function_entry(func_index, signature),
                )
            },
            _ => self,
        }
    }

    /// Resolves a constant of a trait impl.
    pub open spec fn resolve_trait_impl_constant(
        self,
        context: ResolveContext,
        impl_index: usize,
        item: &ImplItem,
        pending: spec_fn(State<'ast>, DefId) -> State<'ast>,
    ) -> State<'ast>
        decreases 11int, List::<usize>::Nil, 1int,
    {
        let (self_type, _, _) = self.trait_impl_target(impl_index);
        let scope = GenericScope {
            owner: TypeParamOwner::TraitImpl(impl_index),
            self_type: Some(self_type),
        };
        let (s, constant) = self.resolve_impl_constant(context, scope, self_type, item, pending);
        match constant {
            Some(const_index) => {
                s.insert_trait_impl_member(
                    impl_index,
                    name_of_impl_item(item).inner,
                    ImplEntry::AssocConstant(const_index),
                )
            },
            None => s,
        }
    }

    /// Whether a definition is the associated type of that name of a trait.
    pub open spec fn is_assoc_type_named(self, id: DefId, name: Symbol) -> bool {
        match state::seq_ref(self.nodes, self.node_index(id)) {
            Some(entry) => {
                match entry.node {
                    AstNodeRef::TraitAssocType { trait_index: _, item } => {
                        match item {
                            TraitItem::AssociatedType { name: declared, .. } => {
                                declared.inner == name
                            },
                            _ => false,
                        }
                    },
                    _ => false,
                }
            },
            None => false,
        }
    }

    /// The first of the definitions that is the associated type of that name.
    pub open spec fn assoc_type_definition(self, ids: &List<DefId>, name: Symbol) -> Option<DefId>
        decreases ids,
    {
        match ids {
            List::Nil => None,
            List::Cons(id, rest) => {
                if self.is_assoc_type_named(**id, name) {
                    Some(**id)
                } else {
                    self.assoc_type_definition(rest, name)
                }
            },
        }
    }

    /// Resolves an associated type of a trait impl, and checks it against the
    /// bounds that the trait declares for it.
    pub open spec fn resolve_trait_impl_assoc_type(
        self,
        context: ResolveContext,
        impl_index: usize,
        item: &ImplItem,
        pending: spec_fn(State<'ast>, DefId) -> State<'ast>,
    ) -> State<'ast>
        decreases 11int, List::<usize>::Nil, 1int,
    {
        match item {
            ImplItem::AssociatedType { name, ty, .. } => {
                let (self_type, _, trait_index) = self.trait_impl_target(impl_index);
                let scope = GenericScope {
                    owner: TypeParamOwner::TraitImpl(impl_index),
                    self_type: Some(self_type),
                };
                let (s, concrete) = self.resolve_type(context, Some(scope), ty, pending);
                let s = s.insert_trait_impl_member(
                    impl_index,
                    name.inner,
                    ImplEntry::AssocType { ty: concrete },
                );
                let ids = s.trait_member_ids(trait_index);
                let s = match s.assoc_type_definition(&ids, name.inner) {
                    Some(id) => s.ensure_pending(id, pending),
                    None => s,
                };
                let s = s.record_assoc_type_access(
                    trait_index,
                    name.inner,
                    context.at(name.span),
                );
                s.check_assoc_type_bounds(
                    context.file_id,
                    trait_index,
                    name.inner,
                    concrete,
                    name.span,
                )
            },
            _ => self,
        }
    }

    /// Resolves the signature of the definition at a node. The result says
    /// whether it came to its end.
    pub open spec fn resolve_node(
        self,
        context: ResolveContext,
        node: AstNodeRef<'ast>,
        pending: spec_fn(State<'ast>, DefId) -> State<'ast>,
    ) -> (State<'ast>, bool)
        decreases 11int, List::<usize>::Nil, 9int,
    {
        match node {
            AstNodeRef::Struct { item } => {
                let s = self.resolve_struct(context, item, pending);
                (s, true)
            },
            AstNodeRef::TypeAlias { item } => {
                let s = self.resolve_type_alias(context, item, pending);
                (s, true)
            },
            AstNodeRef::Enum { item } => {
                let s = self.resolve_enum(context, item, pending);
                (s, true)
            },
            AstNodeRef::Function { item } => {
                let s = self.resolve_function(context, item, pending);
                (s, true)
            },
            AstNodeRef::InherentImplConst { block_id, item, block_index } => {
                let s = self.resolve_inherent_constant(
                    context,
                    block_id,
                    block_index,
                    item,
                    pending,
                );
                (s, true)
            },
            AstNodeRef::InherentImplFunction { block_id, item, block_index } => {
                self.resolve_inherent_function(context, block_id, block_index, item, pending)
            },
            AstNodeRef::InherentImplBlock { type_params, target, block_index } => {
                let s = self.resolve_inherent_block(
                    context,
                    type_params,
                    target,
                    block_index,
                    pending,
                );
                (s, true)
            },
            AstNodeRef::Trait { trait_index, item } => {
                let s = self.resolve_trait(context, trait_index, item, pending);
                (s, true)
            },
            AstNodeRef::TypeSet { typeset_index, item } => {
                let s = self.resolve_typeset(context, typeset_index, item, pending);
                (s, true)
            },
            AstNodeRef::TraitFunction { trait_index, item } => {
                let s = self.resolve_trait_function(context, trait_index, item, pending);
                (s, true)
            },
            AstNodeRef::TraitConst { trait_index, item } => {
                let s = self.resolve_trait_constant(context, trait_index, item, pending);
                (s, true)
            },
            AstNodeRef::TraitAssocType { trait_index, item } => {
                let s = self.resolve_trait_assoc_type(context, trait_index, item, pending);
                (s, true)
            },
            AstNodeRef::Global { item } => {
                let s = self.resolve_global(context, item, pending);
                (s, true)
            },
            AstNodeRef::Memory { item } => {
                let s = self.resolve_memory(context, item, pending);
                (s, true)
            },
            AstNodeRef::ImportedMemory => (self, true),
            AstNodeRef::Constant { item } => {
                let s = self.resolve_constant(context, item, pending);
                (s, true)
            },
            AstNodeRef::ImportedFunction { import_index, decl } => {
                let s = self.resolve_imported_function(context, import_index, decl, pending);
                (s, true)
            },
            AstNodeRef::ImportedGlobal { import_index, decl } => {
                let s = self.resolve_imported_global(context, import_index, decl, pending);
                (s, true)
            },
            AstNodeRef::TraitImplBlock { item } => {
                self.resolve_trait_impl(context, item, pending)
            },
            AstNodeRef::TraitImplFunction { parent_id, item } => {
                self.resolve_trait_impl_item(context, parent_id, item, pending)
            },
            AstNodeRef::TraitImplConstant { parent_id, item } => {
                self.resolve_trait_impl_item(context, parent_id, item, pending)
            },
            AstNodeRef::TraitImplAssocType { parent_id, item } => {
                self.resolve_trait_impl_item(context, parent_id, item, pending)
            },
        }
    }

    /// The definition at a position of the program.
    pub open spec fn node_entry(self, node: usize) -> Option<AstEntry<'ast>> {
        match state::seq_ref(self.nodes, node) {
            Some(entry) => Some(*entry),
            None => None,
        }
    }

    /// Whether nothing has been done yet for the signature of a definition.
    pub open spec fn is_pending(self, id: DefId) -> bool {
        match self.signature_state(id) {
            Some(ComputeState::Pending) => true,
            _ => false,
        }
    }

    /// Resolves the signature of a definition, unless that is done or under way.
    pub open spec fn ensure_with(
        self,
        id: DefId,
        pending: spec_fn(State<'ast>, DefId) -> State<'ast>,
    ) -> State<'ast>
        decreases 12int, List::<usize>::Nil, 0int,
    {
        if !self.is_pending(id) {
            self
        } else {
            let node: usize = self.node_index(id);
            let s = self.set_sig_state(node, ComputeState::InProgress);
            match s.node_entry(node) {
                Some(entry) => {
                    let (s, done) = s.resolve_node(
                        ResolveContext::new(entry.file_id, entry.namespace),
                        entry.node,
                        pending,
                    );
                    if done {
                        s.set_sig_state(node, ComputeState::Done)
                    } else {
                        s
                    }
                },
                None => s,
            }
        }
    }
}

impl<'ast> Builder<'ast> {
    /// Gives a trait a member.
    pub fn insert_trait_member(&mut self, trait_index: usize, name: Symbol, entry: ImplEntry)
        ensures
            final(self)@ == old(self)@.insert_trait_member(trait_index, name, entry),
    {
        proof {
            reveal(State::insert_trait_member);
        }
        let members = match vec_at(&self.traits, trait_index) {
            Some(declaration) => declaration.members.duplicate(),
            None => List::Nil,
        };
        self.set_trait_members(trait_index, put_member(members, Member { name, entry }));
    }

    /// Gives a trait an associated type.
    pub fn insert_assoc_type(&mut self, trait_index: usize, assoc_type: TraitAssocType)
        ensures
            final(self)@ == old(self)@.insert_assoc_type(trait_index, assoc_type),
    {
        proof {
            reveal(State::insert_assoc_type);
        }
        let assoc_types = match vec_at(&self.traits, trait_index) {
            Some(declaration) => declaration.assoc_types.duplicate(),
            None => List::Nil,
        };
        self.set_trait_assoc_types(trait_index, put_assoc_type(assoc_types, assoc_type));
    }

    /// Gives a trait impl a member.
    pub fn insert_trait_impl_member(&mut self, impl_index: usize, name: Symbol, entry: ImplEntry)
        ensures
            final(self)@ == old(self)@.insert_trait_impl_member(impl_index, name, entry),
    {
        proof {
            reveal(State::insert_trait_impl_member);
        }
        let members = match vec_at(&self.trait_impls, impl_index) {
            Some(implementation) => implementation.members.duplicate(),
            None => List::Nil,
        };
        self.set_trait_impl_members(impl_index, put_member(members, Member { name, entry }));
    }

    /// Gives an inherent impl block a member, findable by the block's target.
    pub fn insert_inherent_member(
        &mut self,
        block_index: usize,
        self_type: TypeIndex,
        name: Symbol,
        entry: ImplEntry,
    )
        ensures
            final(self)@ == old(self)@.insert_inherent_member(
                block_index,
                self_type,
                name,
                entry,
            ),
    {
        proof {
            reveal(State::insert_inherent_member);
        }
        let members = match vec_at(&self.inherent_impls, block_index) {
            Some(block) => block.members.duplicate(),
            None => List::Nil,
        };
        self.set_inherent_impl_members(block_index, put_member(members, Member { name, entry }));
        self.register_inherent_member(self_type, name, block_index);
    }

    /// The target and the number of type parameters of an inherent impl block.
    pub fn inherent_impl_target(&self, block_index: usize) -> (result: (TypeIndex, usize))
        ensures
            result == self@.inherent_impl_target(block_index),
    {
        match vec_at(&self.inherent_impls, block_index) {
            Some(block) => (block.target.inner, block.type_params.len()),
            None => (ty::ERROR, 0),
        }
    }

    /// The target and the number of type parameters of a trait impl, and its
    /// trait.
    pub fn trait_impl_target(&self, impl_index: usize) -> (result: (TypeIndex, usize, usize))
        ensures
            result == self@.trait_impl_target(impl_index),
    {
        match vec_at(&self.trait_impls, impl_index) {
            Some(implementation) => (
                implementation.target.inner,
                implementation.type_params.len(),
                implementation.trait_index,
            ),
            None => (ty::ERROR, 0, 0),
        }
    }

    /// Whether a function is a method: whether its first parameter is `self`.
    pub fn is_method(&self, signature: &ast::FunctionSignature) -> (result: bool)
        ensures
            result == self@.is_method(signature),
    {
        match &signature.params {
            List::Nil => false,
            List::Cons(param, _) => param.name.inner == self.names.self_value,
        }
    }

    /// The member that a function is.
    pub fn function_entry(
        &self,
        func_index: usize,
        signature: &ast::FunctionSignature,
    ) -> (result: ImplEntry)
        ensures
            result == self@.function_entry(func_index, signature),
    {
        if self.is_method(signature) {
            ImplEntry::Method(func_index)
        } else {
            ImplEntry::AssocFunction(func_index)
        }
    }

    /// The value of a constant's expression; one that is not known when the
    /// program is compiled is reported.
    pub fn checked_const_value(
        &mut self,
        value: &Expression,
        span: SourceSpan,
    ) -> (result: Option<ConstValue>)
        ensures
            (final(self)@, result) == old(self)@.checked_const_value(value, span),
    {
        proof {
            reveal(State::checked_const_value);
        }
        let known = self.eval_const_expr(value);
        if known.is_none() {
            self.report(report_not_const_evaluatable(span));
        }
        known
    }

    /// An expression in a place that needs a constant of a type: an enum's
    /// variant or a constant's value. What does not go there is reported.
    pub fn build_const_context_expression(
        &mut self,
        context: ResolveContext,
        expr: &Spanned<ast::Expression>,
        expected: TypeIndex,
        depth: usize,
    ) -> (result: Option<Expression>)
        ensures
            (final(self)@, result) == old(self)@.build_const_context_expression(
                context,
                expr,
                expected,
                resolver(depth),
            ),
        decreases depth, 9int, List::<usize>::Nil, 0int,
    {
        let (built, ctx) = self.build_standalone_expression(context, expr, expected, depth);
        self.finish_const_expression(ctx, built, expected, expr.span)
    }

    /// A constant's value, if it has the expected type.
    pub fn check_const_type(
        &mut self,
        context: ResolveContext,
        value: Expression,
        expected: TypeIndex,
        span: TextSpan,
    ) -> (result: Option<Expression>)
        ensures
            (final(self)@, result) == old(self)@.check_const_type(context, value, expected, span),
    {
        proof {
            reveal(State::check_const_type);
        }
        if ty::is_comptime_number(value.ty) {
            self.report(report_type_annotation_required(context.at(span)));
            return None;
        }
        if expected == ty::ERROR {
            return Some(value);
        }
        let fits = self.check_coercible(value.ty, expected, context.at(span));
        if fits {
            Some(value)
        } else {
            None
        }
    }

    /// The fields of a struct. A second field of a name is reported and left out.
    pub fn resolve_struct_fields(
        &mut self,
        context: ResolveContext,
        scope: Option<GenericScope>,
        fields: &List<ast::StructField>,
        resolved: List<StructField>,
        depth: usize,
    ) -> (result: List<StructField>)
        ensures
            (final(self)@, result) == old(self)@.resolve_struct_fields(
                context,
                scope,
                fields,
                resolved,
                resolver(depth),
            ),
        decreases depth, 10int, fields, 0int,
    {
        match fields {
            List::Nil => resolved,
            List::Cons(field, rest) => match field_span(&resolved, field.name.inner) {
                Some(first) => {
                    self.report(
                        report_duplicate_struct_field(
                            field.name.inner,
                            context.at(first),
                            context.at(field.name.span),
                        ),
                    );
                    self.resolve_struct_fields(context, scope, rest, resolved, depth)
                },
                None => {
                    let field_ty: TypeIndex = self.resolve_signature_type(
                        context,
                        scope,
                        &field.ty,
                        depth,
                    );
                    let resolved = resolved.push(
                        StructField {
                            name: field.name,
                            ty: spanned(field_ty, field.ty.span),
                            pub_span: field.pub_span,
                        },
                    );
                    self.resolve_struct_fields(context, scope, rest, resolved, depth)
                },
            },
        }
    }

    /// Resolves a struct. Its name has its meaning before its fields are
    /// resolved, so that a field can point back at it.
    pub fn resolve_struct(&mut self, context: ResolveContext, item: &Item, depth: usize)
        ensures
            final(self)@ == old(self)@.resolve_struct(context, item, resolver(depth)),
        decreases depth, 11int, List::<usize>::Nil, 0int,
    {
        match item {
            Item::Struct { id, name, type_params, fields, .. } => match self.struct_index(*id) {
                Some(struct_index) => {
                    let owner = TypeParamOwner::Struct(*id);
                    self.bind_claimed(
                        context.namespace,
                        SymbolNamespace::Type,
                        name.inner,
                        *id,
                        SymbolKind::Struct { struct_index },
                    );
                    self.resolve_type_param_bounds(context, owner, None, type_params, 0, depth);
                    let fields = self.resolve_struct_fields(
                        context,
                        own_scope(owner, type_params),
                        fields,
                        List::Nil,
                        depth,
                    );
                    self.set_struct_fields(struct_index, fields);
                    self.check_struct_fields_for_direct_recursion(
                        struct_index,
                        context.at(name.span),
                    );
                },
                None => {},
            },
            _ => {},
        }
    }

    /// Resolves a type alias. Its name has its meaning only when the aliased type
    /// is resolved, so that an alias of itself is found out.
    pub fn resolve_type_alias(&mut self, context: ResolveContext, item: &Item, depth: usize)
        ensures
            final(self)@ == old(self)@.resolve_type_alias(context, item, resolver(depth)),
        decreases depth, 11int, List::<usize>::Nil, 0int,
    {
        match item {
            Item::TypeAlias { id, name, type_params, ty, .. } => match self.type_alias_index(*id) {
                Some(type_alias_index) => {
                    let owner = TypeParamOwner::TypeAlias(*id);
                    self.resolve_type_param_bounds(context, owner, None, type_params, 0, depth);
                    let template: TypeIndex = self.resolve_signature_type(
                        context,
                        own_scope(owner, type_params),
                        ty,
                        depth,
                    );
                    self.set_type_alias_template(type_alias_index, template);
                    self.bind_claimed(
                        context.namespace,
                        SymbolNamespace::Type,
                        name.inner,
                        *id,
                        SymbolKind::TypeAlias { type_alias_index },
                    );
                },
                None => {},
            },
            _ => {},
        }
    }

    /// Reports a type that the values of an enum cannot have.
    pub fn checked_repr(&mut self, resolved: TypeIndex, span: SourceSpan) -> (result: TypeIndex)
        ensures
            (final(self)@, result) == old(self)@.checked_repr(resolved, span),
    {
        proof {
            reveal(State::checked_repr);
        }
        if resolved != ty::ERROR && !ty::is_integer(resolved) {
            self.report(report_enum_repr_not_integer(resolved, span));
            return ty::ERROR;
        }
        resolved
    }

    /// The type that the values of an enum have. One that is missing or no
    /// integer type is reported.
    pub fn resolve_enum_repr(
        &mut self,
        context: ResolveContext,
        name: Spanned<Symbol>,
        repr: &Option<Spanned<TypeExpression>>,
        depth: usize,
    ) -> (result: TypeIndex)
        ensures
            (final(self)@, result) == old(self)@.resolve_enum_repr(
                context,
                name,
                repr,
                resolver(depth),
            ),
        decreases depth, 10int, List::<usize>::Nil, 0int,
    {
        match repr {
            Some(written) => {
                let resolved: TypeIndex = self.resolve_type(context, None, written, depth);
                self.checked_repr(resolved, context.at(written.span))
            },
            None => {
                self.report(report_missing_enum_repr(context.at(name.span)));
                ty::ERROR
            },
        }
    }

    /// Reports a value that comes by counting and does not fit the enum's type.
    pub fn check_counted_value(&mut self, repr: TypeIndex, value: i64, span: SourceSpan)
        ensures
            final(self)@ == old(self)@.check_counted_value(repr, value, span),
    {
        proof {
            reveal(State::check_counted_value);
        }
        match IntegerRange::for_integer_type(repr) {
            Some(range) => {
                if !range.contains(value) {
                    self.report(report_integer_literal_out_of_range(repr, value, span));
                }
            },
            None => {},
        }
    }

    /// The written value of a variant, with the integer that it is.
    pub fn finish_variant_value(
        &mut self,
        built: Option<Expression>,
        span: SourceSpan,
    ) -> (result: (Option<Expression>, Option<i64>))
        ensures
            (final(self)@, result) == old(self)@.finish_variant_value(built, span),
    {
        proof {
            reveal(State::finish_variant_value);
        }
        match built {
            Some(value) => {
                let known = self.checked_const_value(&value, span);
                (Some(value), integer_value(known))
            },
            None => (None, None),
        }
    }

    /// The expression and the value of a variant: the written one, or the next
    /// number. Nothing is said of a written value where the enum's type failed.
    pub fn build_variant_value(
        &mut self,
        context: ResolveContext,
        variant: &ast::EnumVariant,
        repr: TypeIndex,
        next_value: i64,
        depth: usize,
    ) -> (result: (Option<Expression>, Option<i64>))
        ensures
            (final(self)@, result) == old(self)@.build_variant_value(
                context,
                variant,
                repr,
                next_value,
                resolver(depth),
            ),
        decreases depth, 9int, List::<usize>::Nil, 1int,
    {
        match &variant.value {
            Some(written) => {
                if repr == ty::ERROR {
                    return (None, None);
                }
                let built = self.build_const_context_expression(context, written, repr, depth);
                self.finish_variant_value(built, context.at(written.span))
            },
            None => {
                self.check_counted_value(repr, next_value, context.at(variant.name.span));
                (None, Some(next_value))
            },
        }
    }

    /// The variants of an enum. A second variant of a name is reported and left
    /// out.
    pub fn build_variants(
        &mut self,
        context: ResolveContext,
        variants: &List<ast::EnumVariant>,
        repr: TypeIndex,
        next_value: i64,
        built: List<EnumVariant>,
        depth: usize,
    ) -> (result: List<EnumVariant>)
        ensures
            (final(self)@, result) == old(self)@.build_variants(
                context,
                variants,
                repr,
                next_value,
                built,
                resolver(depth),
            ),
        decreases depth, 10int, variants, 1int,
    {
        match variants {
            List::Nil => built,
            List::Cons(variant, rest) => match variant_span(&built, variant.name.inner) {
                Some(first) => {
                    self.report(
                        report_duplicate_definition(
                            variant.name.inner,
                            SymbolNamespace::Value,
                            context.at(first),
                            context.at(variant.name.span),
                        ),
                    );
                    self.build_variants(context, rest, repr, next_value, built, depth)
                },
                None => {
                    let (value, const_value) = self.build_variant_value(
                        context,
                        variant,
                        repr,
                        next_value,
                        depth,
                    );
                    let built = built.push(
                        EnumVariant { name: variant.name, value, const_value },
                    );
                    self.build_variants(
                        context,
                        rest,
                        repr,
                        value_after(const_value, next_value),
                        built,
                        depth,
                    )
                },
            },
        }
    }

    /// Fills in the type and the variants of an enum. Variants that share a value
    /// are reported.
    pub fn build_enum(
        &mut self,
        context: ResolveContext,
        name: Spanned<Symbol>,
        repr: &Option<Spanned<TypeExpression>>,
        variants: &List<ast::EnumVariant>,
        enum_index: usize,
        depth: usize,
    )
        ensures
            final(self)@ == old(self)@.build_enum(
                context,
                name,
                repr,
                variants,
                enum_index,
                resolver(depth),
            ),
        decreases depth, 11int, List::<usize>::Nil, 0int,
    {
        let repr_type: TypeIndex = self.resolve_enum_repr(context, name, repr, depth);
        let built = self.build_variants(context, variants, repr_type, 0, List::Nil, depth);
        self.report_enum_duplicate_values(context, name.span, &built);
        self.set_enum_repr_type(enum_index, repr_type);
        self.set_enum_variants(enum_index, built);
    }

    /// Resolves an enum.
    pub fn resolve_enum(&mut self, context: ResolveContext, item: &Item, depth: usize)
        ensures
            final(self)@ == old(self)@.resolve_enum(context, item, resolver(depth)),
        decreases depth, 11int, List::<usize>::Nil, 1int,
    {
        match item {
            Item::Enum { id, name, repr, variants, .. } => match self.enum_index(*id) {
                Some(enum_index) => {
                    self.build_enum(context, *name, repr, variants, enum_index, depth);
                    self.bind_claimed(
                        context.namespace,
                        SymbolNamespace::Type,
                        name.inner,
                        *id,
                        SymbolKind::Enum { enum_index },
                    );
                },
                None => {},
            },
            _ => {},
        }
    }

    /// Fills in the parameters and the result of a function.
    pub fn fill_signature(
        &mut self,
        context: ResolveContext,
        scope: Option<GenericScope>,
        func_index: usize,
        signature: &ast::FunctionSignature,
        depth: usize,
    )
        ensures
            final(self)@ == old(self)@.fill_signature(
                context,
                scope,
                func_index,
                signature,
                resolver(depth),
            ),
        decreases depth, 10int, List::<usize>::Nil, 0int,
    {
        let (params, result_ty) = self.build_function_signature(context, scope, signature, depth);
        let signature_index: TypeIndex = self.intern_function(&params, result_ty);
        self.set_function_params(func_index, params);
        self.set_function_result(func_index, result_ty);
        self.set_function_signature_index(func_index, signature_index);
    }

    /// Resolves a function outside of any impl or trait.
    pub fn resolve_function(&mut self, context: ResolveContext, item: &Item, depth: usize)
        ensures
            final(self)@ == old(self)@.resolve_function(context, item, resolver(depth)),
        decreases depth, 11int, List::<usize>::Nil, 1int,
    {
        match item {
            Item::Function { id, signature, .. } => {
                self.resolve_function_item(context, *id, signature, depth);
            },
            Item::FunctionDeclaration { id, signature, .. } => {
                self.resolve_function_item(context, *id, signature, depth);
            },
            _ => {},
        }
    }

    /// Resolves a function, with or without a body.
    pub fn resolve_function_item(
        &mut self,
        context: ResolveContext,
        id: DefId,
        signature: &ast::FunctionSignature,
        depth: usize,
    )
        ensures
            final(self)@ == old(self)@.resolve_function_item(
                context,
                id,
                signature,
                resolver(depth),
            ),
        decreases depth, 11int, List::<usize>::Nil, 0int,
    {
        match self.function_index(id) {
            Some(func_index) => {
                let owner = TypeParamOwner::Function(id);
                self.resolve_type_param_bounds(
                    context,
                    owner,
                    None,
                    &signature.type_params,
                    0,
                    depth,
                );
                self.fill_signature(
                    context,
                    Some(GenericScope { owner, self_type: None }),
                    func_index,
                    signature,
                    depth,
                );
                self.bind_claimed(
                    context.namespace,
                    SymbolNamespace::Value,
                    signature.name.inner,
                    id,
                    SymbolKind::Function { func_index },
                );
            },
            None => {},
        }
    }

    /// The type of an impl's constant; it has none without an annotation.
    pub fn resolve_member_type(
        &mut self,
        context: ResolveContext,
        scope: GenericScope,
        annotation: &Option<Spanned<TypeExpression>>,
        depth: usize,
    ) -> (result: TypeIndex)
        ensures
            (final(self)@, result) == old(self)@.resolve_member_type(
                context,
                scope,
                annotation,
                resolver(depth),
            ),
        decreases depth, 10int, List::<usize>::Nil, 0int,
    {
        match annotation {
            Some(annotation) => self.resolve_type(context, Some(scope), annotation, depth),
            None => ty::ERROR,
        }
    }

    /// Enters a constant of an impl with its value; the result is its index.
    pub fn add_impl_constant(
        &mut self,
        context: ResolveContext,
        id: DefId,
        name: Spanned<Symbol>,
        self_type: TypeIndex,
        resolved: TypeIndex,
        built: Option<Expression>,
        span: TextSpan,
    ) -> (result: Option<usize>)
        ensures
            (final(self)@, result) == old(self)@.add_impl_constant(
                context,
                id,
                name,
                self_type,
                resolved,
                built,
                span,
            ),
    {
        proof {
            reveal(State::add_impl_constant);
        }
        match built {
            Some(value) => {
                let known = self.checked_const_value(&value, context.at(span));
                let const_index: usize = self.add_constant(
                    member_constant(
                        context,
                        id,
                        name,
                        ItemParent::Impl(self_type),
                        spanned(resolved, name.span),
                        Some(value),
                        known,
                    ),
                );
                self.insert_item(id, ItemIndex::Const(const_index));
                Some(const_index)
            },
            None => None,
        }
    }

    /// Resolves a constant of an impl; the result is its index, if its value can
    /// be built.
    pub fn resolve_impl_constant(
        &mut self,
        context: ResolveContext,
        scope: GenericScope,
        self_type: TypeIndex,
        item: &ImplItem,
        depth: usize,
    ) -> (result: Option<usize>)
        ensures
            (final(self)@, result) == old(self)@.resolve_impl_constant(
                context,
                scope,
                self_type,
                item,
                resolver(depth),
            ),
        decreases depth, 11int, List::<usize>::Nil, 0int,
    {
        match item {
            ImplItem::Constant { id, name, ty, value } => {
                let resolved: TypeIndex = self.resolve_member_type(context, scope, ty, depth);
                let built = self.build_const_context_expression(context, value, resolved, depth);
                self.add_impl_constant(
                    context,
                    *id,
                    *name,
                    self_type,
                    resolved,
                    built,
                    value.span,
                )
            },
            _ => None,
        }
    }

    /// Resolves a constant of an inherent impl block.
    pub fn resolve_inherent_constant(
        &mut self,
        context: ResolveContext,
        block_id: DefId,
        block_index: usize,
        item: &ImplItem,
        depth: usize,
    )
        ensures
            final(self)@ == old(self)@.resolve_inherent_constant(
                context,
                block_id,
                block_index,
                item,
                resolver(depth),
            ),
        decreases depth, 11int, List::<usize>::Nil, 1int,
    {
        self.ensure_pending(block_id, depth);
        let (self_type, _) = self.inherent_impl_target(block_index);
        let scope = GenericScope {
            owner: TypeParamOwner::ImplBlock(block_index),
            self_type: Some(self_type),
        };
        let constant = self.resolve_impl_constant(context, scope, self_type, item, depth);
        match constant {
            Some(const_index) => {
                self.insert_inherent_member(
                    block_index,
                    self_type,
                    impl_item_name(item).inner,
                    ImplEntry::AssocConstant(const_index),
                );
            },
            None => {},
        }
    }

    /// Reports a function of an inherent impl block that has the name of an
    /// earlier one in the same block.
    pub fn check_duplicate_method(
        &mut self,
        context: ResolveContext,
        block_index: usize,
        name: Spanned<Symbol>,
    )
        ensures
            final(self)@ == old(self)@.check_duplicate_method(context, block_index, name),
    {
        proof {
            reveal(State::check_duplicate_method);
        }
        let existing = match vec_at(&self.inherent_impls, block_index) {
            Some(block) => find_member(&block.members, name.inner),
            None => None,
        };
        match existing {
            Some(ImplEntry::Method(previous)) | Some(ImplEntry::AssocFunction(previous)) => {
                self.report(
                    report_duplicate_definition(
                        name.inner,
                        SymbolNamespace::Value,
                        self.item_location(ItemIndex::Function(previous)),
                        context.at(name.span),
                    ),
                );
            },
            _ => {},
        }
    }

    /// Resolves a function of an inherent impl block; it inherits the block's
    /// type parameters.
    pub fn resolve_inherent_function(
        &mut self,
        context: ResolveContext,
        block_id: DefId,
        block_index: usize,
        item: &ImplItem,
        depth: usize,
    ) -> (result: bool)
        ensures
            (final(self)@, result) == old(self)@.resolve_inherent_function(
                context,
                block_id,
                block_index,
                item,
                resolver(depth),
            ),
        decreases depth, 11int, List::<usize>::Nil, 1int,
    {
        self.ensure_pending(block_id, depth);
        match item {
            ImplItem::Function { id, pub_span, attributes, signature, .. } => {
                let (self_type, inherited) = self.inherent_impl_target(block_index);
                let known = self.resolve_attributes(attributes);
                self.register_tagged_items(*id, &known);
                let owner = TypeParamOwner::Function(*id);
                let func_index: usize = self.add_function(
                    unresolved_function(
                        context,
                        *id,
                        signature.name,
                        Some(ItemParent::GenericImpl(block_index)),
                        new_type_params(&signature.type_params),
                        Some(TypeParamOwner::ImplBlock(block_index)),
                        inherited,
                        *pub_span,
                        known,
                    ),
                );
                self.insert_item(*id, ItemIndex::Function(func_index));
                self.resolve_type_param_bounds(
                    context,
                    owner,
                    None,
                    &signature.type_params,
                    0,
                    depth,
                );
                self.fill_signature(
                    context,
                    Some(GenericScope { owner, self_type: Some(self_type) }),
                    func_index,
                    signature,
                    depth,
                );
                self.check_duplicate_method(context, block_index, signature.name);
                self.insert_inherent_member(
                    block_index,
                    self_type,
                    signature.name.inner,
                    self.function_entry(func_index, signature),
                );
                true
            },
            _ => false,
        }
    }

    /// Resolves the target of an inherent impl block. A type that has no impls is
    /// reported.
    pub fn resolve_inherent_block(
        &mut self,
        context: ResolveContext,
        type_params: &List<TypeParam>,
        target: &Spanned<TypeExpression>,
        block_index: usize,
        depth: usize,
    )
        ensures
            final(self)@ == old(self)@.resolve_inherent_block(
                context,
                type_params,
                target,
                block_index,
                resolver(depth),
            ),
        decreases depth, 11int, List::<usize>::Nil, 0int,
    {
        let owner = TypeParamOwner::ImplBlock(block_index);
        self.resolve_type_param_bounds(context, owner, None, type_params, 0, depth);
        let self_type: TypeIndex = self.resolve_signature_type(
            context,
            Some(GenericScope { owner, self_type: None }),
            target,
            depth,
        );
        match ImplTarget::from_type(self_type, &self.ty(self_type)) {
            Some(_) => {
                self.set_inherent_impl_target(block_index, spanned(self_type, target.span));
            },
            None => {
                self.report(report_invalid_impl_target(self_type, context.at(target.span)));
                self.set_inherent_impl_target(block_index, spanned(ty::ERROR, target.span));
            },
        }
    }

    /// Checks the values that a clause gives to the associated types of a
    /// supertrait, and collects them.
    pub fn check_supertrait_bindings(
        &mut self,
        file_id: FileId,
        trait_index: usize,
        bindings: &List<AssocBinding>,
        span: TextSpan,
        collected: List<SupertraitBinding>,
    ) -> (result: List<SupertraitBinding>)
        ensures
            (final(self)@, result) == old(self)@.check_supertrait_bindings(
                file_id,
                trait_index,
                bindings,
                span,
                collected,
            ),
        decreases bindings,
    {
        match bindings {
            List::Nil => collected,
            List::Cons(binding, rest) => match &binding.rhs {
                AssocBindingKind::Equals(value) => {
                    self.check_assoc_type_bounds(
                        file_id,
                        trait_index,
                        binding.name.inner,
                        *value,
                        span,
                    );
                    let collected = put_supertrait_binding(
                        collected,
                        SupertraitBinding { trait_index, name: binding.name.inner, ty: *value },
                    );
                    self.check_supertrait_bindings(file_id, trait_index, rest, span, collected)
                },
                AssocBindingKind::Bound(_) => {
                    self.check_supertrait_bindings(file_id, trait_index, rest, span, collected)
                },
            },
        }
    }

    /// Checks the clauses on the supertraits of a trait, and collects them.
    pub fn check_supertraits(
        &mut self,
        file_id: FileId,
        traits: &List<TraitBound>,
        span: TextSpan,
        collected: List<SupertraitBinding>,
    ) -> (result: List<SupertraitBinding>)
        ensures
            (final(self)@, result) == old(self)@.check_supertraits(
                file_id,
                traits,
                span,
                collected,
            ),
        decreases traits,
    {
        match traits {
            List::Nil => collected,
            List::Cons(bound, rest) => {
                let collected = self.check_supertrait_bindings(
                    file_id,
                    bound.trait_index,
                    &bound.bindings,
                    span,
                    collected,
                );
                self.check_supertraits(file_id, rest, span, collected)
            },
        }
    }

    /// Resolves the supertraits of a trait.
    pub fn resolve_trait(
        &mut self,
        context: ResolveContext,
        trait_index: usize,
        item: &Item,
        depth: usize,
    )
        ensures
            final(self)@ == old(self)@.resolve_trait(context, trait_index, item, resolver(depth)),
        decreases depth, 11int, List::<usize>::Nil, 0int,
    {
        match item {
            Item::Trait { id, attributes, supertraits, .. } => {
                let known = self.resolve_attributes(attributes);
                self.register_tagged_items(*id, &known);
                match supertraits {
                    Some(written) => {
                        let bounds = self.resolve_bounds(context, None, written, depth);
                        if bounds.typeset.is_some() {
                            self.report(report_supertrait_typeset(context.at(written.span)));
                        }
                        let bindings = self.check_supertraits(
                            context.file_id,
                            &bounds.traits,
                            written.span,
                            List::Nil,
                        );
                        self.set_trait_supertraits(trait_index, bound_traits(&bounds.traits));
                        self.set_trait_supertrait_bindings(trait_index, bindings);
                    },
                    None => {
                        self.set_trait_supertraits(trait_index, List::Nil);
                        self.set_trait_supertrait_bindings(trait_index, List::Nil);
                    },
                }
            },
            _ => {},
        }
    }

    /// The members of a typeset. One that is no integer type is reported and left
    /// out.
    pub fn resolve_typeset_members(
        &mut self,
        context: ResolveContext,
        members: &List<Spanned<TypeExpression>>,
        depth: usize,
    ) -> (result: List<TypeIndex>)
        ensures
            (final(self)@, result) == old(self)@.resolve_typeset_members(
                context,
                members,
                resolver(depth),
            ),
        decreases depth, 10int, members, 0int,
    {
        match members {
            List::Nil => List::Nil,
            List::Cons(member, rest) => {
                let index: TypeIndex = self.resolve_type(context, None, member, depth);
                if !ty::is_integer(index) {
                    self.report(
                        report_typeset_member_not_integer(index, context.at(member.span)),
                    );
                    return self.resolve_typeset_members(context, rest, depth);
                }
                let others = self.resolve_typeset_members(context, rest, depth);
                cons(index, others)
            },
        }
    }

    /// Resolves the members of a typeset.
    pub fn resolve_typeset(
        &mut self,
        context: ResolveContext,
        typeset_index: usize,
        item: &Item,
        depth: usize,
    )
        ensures
            final(self)@ == old(self)@.resolve_typeset(
                context,
                typeset_index,
                item,
                resolver(depth),
            ),
        decreases depth, 11int, List::<usize>::Nil, 0int,
    {
        match item {
            Item::TypeSet { members, .. } => {
                let resolved = self.resolve_typeset_members(context, members, depth);
                let range = members_range(&resolved, IntegerRange::widest());
                self.set_typeset_members(typeset_index, resolved);
                self.set_typeset_intersection_range(typeset_index, range);
            },
            _ => {},
        }
    }

    /// The type `Self` inside a trait: the trait's one type parameter.
    pub fn trait_self_type(&mut self, trait_index: usize) -> (result: TypeIndex)
        ensures
            (final(self)@, result) == old(self)@.trait_self_type(trait_index),
    {
        self.intern_type(
            Type::TypeParam { owner: TypeParamOwner::Trait(trait_index), param_index: 0 },
        )
    }

    /// Resolves a function of a trait.
    pub fn resolve_trait_function(
        &mut self,
        context: ResolveContext,
        trait_index: usize,
        item: &TraitItem,
        depth: usize,
    )
        ensures
            final(self)@ == old(self)@.resolve_trait_function(
                context,
                trait_index,
                item,
                resolver(depth),
            ),
        decreases depth, 11int, List::<usize>::Nil, 0int,
    {
        match item {
            TraitItem::Function { id, attributes, signature, .. } => {
                let self_type: TypeIndex = self.trait_self_type(trait_index);
                let known = self.resolve_attributes(attributes);
                self.register_tagged_items(*id, &known);
                let owner = TypeParamOwner::Function(*id);
                let func_index: usize = self.add_function(
                    unresolved_function(
                        context,
                        *id,
                        signature.name,
                        Some(ItemParent::Trait(trait_index)),
                        new_type_params(&signature.type_params),
                        Some(TypeParamOwner::Trait(trait_index)),
                        1,
                        None,
                        known,
                    ),
                );
                self.insert_item(*id, ItemIndex::Function(func_index));
                self.resolve_type_param_bounds(
                    context,
                    owner,
                    Some(self_type),
                    &signature.type_params,
                    0,
                    depth,
                );
                self.fill_signature(
                    context,
                    Some(GenericScope { owner, self_type: Some(self_type) }),
                    func_index,
                    signature,
                    depth,
                );
                self.insert_trait_member(
                    trait_index,
                    signature.name.inner,
                    self.function_entry(func_index, signature),
                );
            },
            _ => {},
        }
    }

    /// Resolves a constant that a trait asks for.
    pub fn resolve_trait_constant(
        &mut self,
        context: ResolveContext,
        trait_index: usize,
        item: &TraitItem,
        depth: usize,
    )
        ensures
            final(self)@ == old(self)@.resolve_trait_constant(
                context,
                trait_index,
                item,
                resolver(depth),
            ),
        decreases depth, 11int, List::<usize>::Nil, 0int,
    {
        let self_type: TypeIndex = self.trait_self_type(trait_index);
        match item {
            TraitItem::Const { id, attributes, name, ty } => {
                let scope = GenericScope {
                    owner: TypeParamOwner::Trait(trait_index),
                    self_type: Some(self_type),
                };
                let resolved: TypeIndex = self.resolve_type(context, Some(scope), ty, depth);
                let known = self.resolve_attributes(attributes);
                self.register_tagged_items(*id, &known);
                let const_index: usize = self.add_constant(
                    member_constant(
                        context,
                        *id,
                        *name,
                        ItemParent::Trait(trait_index),
                        spanned(resolved, ty.span),
                        None,
                        None,
                    ),
                );
                self.insert_item(*id, ItemIndex::Const(const_index));
                self.insert_trait_member(
                    trait_index,
                    name.inner,
                    ImplEntry::AssocConstant(const_index),
                );
            },
            _ => {},
        }
    }

    /// Resolves an associated type that a trait asks for. Its name keeps another
    /// meaning that it has got before.
    pub fn resolve_trait_assoc_type(
        &mut self,
        context: ResolveContext,
        trait_index: usize,
        item: &TraitItem,
        depth: usize,
    )
        ensures
            final(self)@ == old(self)@.resolve_trait_assoc_type(
                context,
                trait_index,
                item,
                resolver(depth),
            ),
        decreases depth, 11int, List::<usize>::Nil, 0int,
    {
        match item {
            TraitItem::AssociatedType { id, attributes, name, bounds } => {
                let resolved = self.resolve_optional_bounds(context, None, bounds, depth);
                let known = self.resolve_attributes(attributes);
                self.register_tagged_items(*id, &known);
                let placeholder: TypeIndex = self.intern_type(
                    Type::AssociatedType { assoc_name: name.inner, trait_index },
                );
                self.insert_assoc_type(
                    trait_index,
                    TraitAssocType { id: *id, name: *name, bounds: resolved },
                );
                self.insert_trait_member(
                    trait_index,
                    name.inner,
                    ImplEntry::AssocType { ty: placeholder },
                );
                match self.lookup_global_symbol(
                    context.namespace,
                    SymbolNamespace::Type,
                    name.inner,
                ) {
                    Some(SymbolKind::Pending(pending)) => {
                        if pending == *id {
                            self.insert_symbol(
                                context.namespace,
                                SymbolNamespace::Type,
                                name.inner,
                                SymbolKind::TraitAssocType {
                                    trait_index,
                                    assoc_name: name.inner,
                                },
                            );
                        }
                    },
                    _ => {},
                }
            },
            _ => {},
        }
    }

    /// The type of a global or constant with its place. One without an annotation
    /// is reported.
    pub fn resolve_item_type(
        &mut self,
        context: ResolveContext,
        annotation: &Option<Spanned<TypeExpression>>,
        name: Spanned<Symbol>,
        in_signature: bool,
        depth: usize,
    ) -> (result: Spanned<TypeIndex>)
        ensures
            (final(self)@, result) == old(self)@.resolve_item_type(
                context,
                annotation,
                name,
                in_signature,
                resolver(depth),
            ),
        decreases depth, 10int, List::<usize>::Nil, 0int,
    {
        match annotation {
            Some(written) => {
                if in_signature {
                    let index: TypeIndex = self.resolve_signature_type(
                        context,
                        None,
                        written,
                        depth,
                    );
                    return spanned(index, written.span);
                }
                let index: TypeIndex = self.resolve_type(context, None, written, depth);
                spanned(index, written.span)
            },
            None => {
                self.report(report_type_annotation_required(context.at(name.span)));
                spanned(ty::ERROR, name.span)
            },
        }
    }

    /// Resolves the type of a global variable.
    pub fn resolve_global(&mut self, context: ResolveContext, item: &Item, depth: usize)
        ensures
            final(self)@ == old(self)@.resolve_global(context, item, resolver(depth)),
        decreases depth, 11int, List::<usize>::Nil, 0int,
    {
        match item {
            Item::Global { id, name, ty, .. } => match self.global_index(*id) {
                Some(global_index) => {
                    let resolved = self.resolve_item_type(context, ty, *name, true, depth);
                    self.set_global_ty(global_index, resolved);
                    self.bind_claimed(
                        context.namespace,
                        SymbolNamespace::Value,
                        name.inner,
                        *id,
                        SymbolKind::Global { global_index },
                    );
                },
                None => {},
            },
            _ => {},
        }
    }

    /// Gives a constant its value, and its name its meaning.
    pub fn finish_constant(
        &mut self,
        context: ResolveContext,
        id: DefId,
        name: Symbol,
        const_index: usize,
        built: Option<Expression>,
        span: TextSpan,
    )
        ensures
            final(self)@ == old(self)@.finish_constant(
                context,
                id,
                name,
                const_index,
                built,
                span,
            ),
    {
        proof {
            reveal(State::finish_constant);
        }
        match built {
            Some(value) => {
                let known = self.checked_const_value(&value, context.at(span));
                self.set_constant_value(const_index, Some(value));
                self.set_constant_const_value(const_index, known);
                self.bind_claimed(
                    context.namespace,
                    SymbolNamespace::Value,
                    name,
                    id,
                    SymbolKind::Const { const_index },
                );
            },
            None => {},
        }
    }

    /// Resolves a constant: its type and its value. One whose value cannot be
    /// built never gives its name a meaning.
    pub fn resolve_constant(&mut self, context: ResolveContext, item: &Item, depth: usize)
        ensures
            final(self)@ == old(self)@.resolve_constant(context, item, resolver(depth)),
        decreases depth, 11int, List::<usize>::Nil, 0int,
    {
        match item {
            Item::Const { id, name, ty, value, .. } => match self.const_index(*id) {
                Some(const_index) => {
                    let resolved = self.resolve_item_type(context, ty, *name, false, depth);
                    self.set_constant_ty(const_index, resolved);
                    let built = self.build_const_context_expression(
                        context,
                        value,
                        resolved.inner,
                        depth,
                    );
                    self.finish_constant(
                        context,
                        *id,
                        name.inner,
                        const_index,
                        built,
                        value.span,
                    );
                },
                None => {},
            },
            _ => {},
        }
    }

    /// The values that a memory gives to the associated types of its trait, the
    /// last one first.
    pub fn resolve_memory_values(
        &mut self,
        context: ResolveContext,
        trait_index: usize,
        clauses: &List<WhereBinding>,
        values: List<AssocValue>,
        depth: usize,
    ) -> (result: List<AssocValue>)
        ensures
            (final(self)@, result) == old(self)@.resolve_memory_values(
                context,
                trait_index,
                clauses,
                values,
                resolver(depth),
            ),
        decreases depth, 10int, clauses, 0int,
    {
        match clauses {
            List::Nil => values,
            List::Cons(clause, rest) => match &clause.rhs {
                BindingExpression::Equals(written) => {
                    let value: TypeIndex = self.resolve_type(context, None, written, depth);
                    self.record_assoc_type_access(
                        trait_index,
                        clause.name.inner,
                        context.at(clause.name.span),
                    );
                    self.check_assoc_type_bounds(
                        context.file_id,
                        trait_index,
                        clause.name.inner,
                        value,
                        written.span,
                    );
                    let values = cons(AssocValue { name: clause.name.inner, ty: value }, values);
                    self.resolve_memory_values(context, trait_index, rest, values, depth)
                },
                BindingExpression::Bound(_) => {
                    self.resolve_memory_values(context, trait_index, rest, values, depth)
                },
            },
        }
    }

    /// The values that the written kind of a memory gives.
    pub fn resolve_memory_kind(
        &mut self,
        context: ResolveContext,
        trait_index: usize,
        kind: &Spanned<BoundExpression>,
        depth: usize,
    ) -> (result: List<AssocValue>)
        ensures
            (final(self)@, result) == old(self)@.resolve_memory_kind(
                context,
                trait_index,
                kind,
                resolver(depth),
            ),
        decreases depth, 11int, List::<usize>::Nil, 0int,
    {
        match &kind.inner {
            BoundExpression::WithBindings { path: _, bindings } => {
                self.resolve_memory_values(context, trait_index, bindings, List::Nil, depth)
            },
            _ => List::Nil,
        }
    }

    /// The type of a memory's addresses: the value of `Size`, which is `u32` or
    /// `u64`.
    pub fn address_type(&self, values: &List<AssocValue>) -> (result: Option<TypeIndex>)
        ensures
            result == self@.address_type(values),
    {
        match find_assoc_value(values, self.names.size) {
            Some(value) => if value == ty::U32 || value == ty::U64 {
                Some(value)
            } else {
                None
            },
            None => None,
        }
    }

    /// A memory's own copy of a constant that its trait asks for, with the memory
    /// for `Self`; the result is its index.
    pub fn fork_constant(&mut self, index: usize, memory_type: TypeIndex) -> (result: usize)
        ensures
            (final(self)@, result) == old(self)@.fork_constant(index, memory_type),
    {
        proof {
            reveal(State::fork_constant);
        }
        let (context, name, parent, pub_span, declared) = self.constant_template(index);
        let concrete: TypeIndex = self.substitute_type(
            declared.inner,
            &single(memory_type),
            MAX_DEPTH,
        );
        let id: DefId = self.fresh_id();
        let const_index: usize = self.add_constant(
            Constant {
                id,
                file_id: context.file_id,
                namespace: context.namespace,
                parent,
                pub_span,
                name,
                ty: spanned(concrete, declared.span),
                value: None,
                const_value: None,
            },
        );
        self.insert_item(id, ItemIndex::Const(const_index));
        const_index
    }

    /// What a copy of a constant keeps.
    pub fn constant_template(
        &self,
        index: usize,
    ) -> (result: (ResolveContext, Spanned<Symbol>, Option<ItemParent>, Option<TextSpan>, Spanned<TypeIndex>))
        ensures
            result == self@.constant_template(index),
    {
        match vec_at(&self.constants, index) {
            Some(constant) => (
                ResolveContext::new(constant.file_id, constant.namespace),
                constant.name,
                constant.parent,
                constant.pub_span,
                constant.ty,
            ),
            None => (
                ResolveContext::new(0, None),
                Spanned { inner: 0, span: TextSpan { start: 0, end: 0 } },
                None,
                None,
                spanned(ty::ERROR, TextSpan { start: 0, end: 0 }),
            ),
        }
    }

    /// Whether the first parameter of a function is `self`.
    pub fn takes_self(&self, func_index: usize) -> (result: bool)
        ensures
            result == self@.takes_self(func_index),
    {
        match vec_at(&self.functions, func_index) {
            Some(function) => match &function.params {
                List::Nil => false,
                List::Cons(param, _) => param.name.inner == self.names.self_value,
            },
            None => false,
        }
    }

    /// What a memory has for a member of its trait.
    pub fn seed_member(
        &mut self,
        member: Member,
        memory_type: TypeIndex,
        values: &List<AssocValue>,
    ) -> (result: Member)
        ensures
            (final(self)@, result) == old(self)@.seed_member(member, memory_type, values),
    {
        proof {
            reveal(State::seed_member);
        }
        match member.entry {
            ImplEntry::Method(func_index) => if self.takes_self(func_index) {
                member
            } else {
                Member { name: member.name, entry: ImplEntry::AssocFunction(func_index) }
            },
            ImplEntry::AssocType { ty } => match find_assoc_value(values, member.name) {
                Some(value) => {
                    Member { name: member.name, entry: ImplEntry::AssocType { ty: value } }
                },
                None => Member { name: member.name, entry: ImplEntry::AssocType { ty } },
            },
            ImplEntry::AssocConstant(index) => {
                let const_index: usize = self.fork_constant(index, memory_type);
                Member { name: member.name, entry: ImplEntry::AssocConstant(const_index) }
            },
            ImplEntry::AssocFunction(_) => member,
        }
    }

    /// The members that a memory has from its trait.
    pub fn seed_memory_trait_impl_with(
        &mut self,
        members: &List<Member>,
        memory_type: TypeIndex,
        values: &List<AssocValue>,
    ) -> (result: List<Member>)
        ensures
            (final(self)@, result) == old(self)@.seed_memory_trait_impl_with(
                members,
                memory_type,
                values,
            ),
        decreases members,
    {
        match members {
            List::Nil => List::Nil,
            List::Cons(member, rest) => {
                let seeded = self.seed_member(**member, memory_type, values);
                let others = self.seed_memory_trait_impl_with(rest, memory_type, values);
                cons(seeded, others)
            },
        }
    }

    /// The members that a trait declares.
    pub fn trait_members(&self, trait_index: usize) -> (result: List<Member>)
        ensures
            result == self@.trait_members(trait_index),
    {
        match vec_at(&self.traits, trait_index) {
            Some(declaration) => declaration.members.duplicate(),
            None => List::Nil,
        }
    }

    /// Makes a memory implement its trait, and gives its name its meaning.
    pub fn register_memory(
        &mut self,
        context: ResolveContext,
        id: DefId,
        name: Spanned<Symbol>,
        memory_index: usize,
        trait_index: usize,
        kind: TypeIndex,
        values: &List<AssocValue>,
    )
        ensures
            final(self)@ == old(self)@.register_memory(
                context,
                id,
                name,
                memory_index,
                trait_index,
                kind,
                values,
            ),
    {
        proof {
            reveal(State::register_memory);
        }
        let memory_type: TypeIndex = self.intern_type(Type::Memory { kind, id });
        let declared = self.trait_members(trait_index);
        let members = self.seed_memory_trait_impl_with(&declared, memory_type, values);
        let impl_id: DefId = self.fresh_id();
        let impl_index: usize = self.add_trait_impl(
            TraitImpl {
                id: impl_id,
                trait_index,
                type_params: List::Nil,
                target: spanned(memory_type, name.span),
                members,
                span: name.span,
                file_id: context.file_id,
            },
        );
        self.register_trait_impl(memory_type, trait_index, impl_index);
        self.insert_item(impl_id, ItemIndex::TraitImpl(impl_index));
        let meaning = SymbolKind::Memory { memory_index, kind };
        self.bind_claimed(context.namespace, SymbolNamespace::Type, name.inner, id, meaning);
        self.bind_claimed(context.namespace, SymbolNamespace::Value, name.inner, id, meaning);
    }

    /// Reports a memory whose kind is wrong; its name gets a meaning all the
    /// same.
    pub fn reject_memory(
        &mut self,
        context: ResolveContext,
        id: DefId,
        name: Symbol,
        span: TextSpan,
    )
        ensures
            final(self)@ == old(self)@.reject_memory(context, id, name, span),
    {
        self.report(report_invalid_memory_kind(context.at(span)));
        self.register_placeholder_memory(context, id, name);
    }

    /// Resolves a memory: the trait that is its kind, and the type of its
    /// addresses.
    pub fn resolve_memory(&mut self, context: ResolveContext, item: &Item, depth: usize)
        ensures
            final(self)@ == old(self)@.resolve_memory(context, item, resolver(depth)),
        decreases depth, 11int, List::<usize>::Nil, 1int,
    {
        match item {
            Item::Memory { id, name, kind, config } => {
                let bounds = self.resolve_bounds(context, None, kind, depth);
                match single_trait(&bounds) {
                    Some(trait_index) => {
                        let values = self.resolve_memory_kind(context, trait_index, kind, depth);
                        match self.address_type(&values) {
                            Some(address) => {
                                let ids = self.trait_member_ids(trait_index);
                                self.ensure_all(&ids, depth);
                                match self.memory_index(*id) {
                                    Some(memory_index) => {
                                        let (min_pages, max_pages) = configured_pages(config);
                                        self.set_memory_kind(memory_index, address);
                                        self.set_memory_min_pages(memory_index, min_pages);
                                        self.set_memory_max_pages(memory_index, max_pages);
                                        self.register_memory(
                                            context,
                                            *id,
                                            *name,
                                            memory_index,
                                            trait_index,
                                            address,
                                            &values,
                                        );
                                    },
                                    None => {},
                                }
                            },
                            None => {
                                self.reject_memory(context, *id, name.inner, kind.span);
                            },
                        }
                    },
                    None => {
                        self.reject_memory(context, *id, name.inner, kind.span);
                    },
                }
            },
            _ => {},
        }
    }

    /// The namespace of an import.
    pub fn import_namespace(&self, import_index: usize) -> (result: usize)
        ensures
            result == self@.import_namespace(import_index),
    {
        match vec_at(&self.import_decls, import_index) {
            Some(declaration) => declaration.namespace_idx,
            None => 0,
        }
    }

    /// Gives a name of an import its meaning.
    pub fn insert_import(
        &mut self,
        import_index: usize,
        name: Symbol,
        value: ImportValue,
        kind: SymbolKind,
    )
        ensures
            final(self)@ == old(self)@.insert_import(import_index, name, value, kind),
    {
        proof {
            reveal(State::insert_import);
        }
        let entries = match vec_at(&self.import_decls, import_index) {
            Some(declaration) => declaration.lookup.duplicate(),
            None => List::Nil,
        };
        self.set_import_decl_lookup(
            import_index,
            put_import_entry(entries, ImportEntry { name, value }),
        );
        self.insert_symbol(
            Some(self.import_namespace(import_index)),
            SymbolNamespace::Value,
            name,
            kind,
        );
    }

    /// Resolves a function of an import.
    pub fn resolve_imported_function(
        &mut self,
        context: ResolveContext,
        import_index: usize,
        decl: &ImportDeclaration,
        depth: usize,
    )
        ensures
            final(self)@ == old(self)@.resolve_imported_function(
                context,
                import_index,
                decl,
                resolver(depth),
            ),
        decreases depth, 11int, List::<usize>::Nil, 0int,
    {
        match decl {
            ImportDeclaration::Function { id, signature } => {
                let (params, result_ty) = self.build_function_signature(
                    context,
                    None,
                    signature,
                    depth,
                );
                let signature_index: TypeIndex = self.intern_function(&params, result_ty);
                let func_index: usize = self.add_function(
                    Function {
                        id: *id,
                        file_id: context.file_id,
                        namespace: Some(self.import_namespace(import_index)),
                        parent: None,
                        type_params: List::Nil,
                        type_param_parent: None,
                        inherited_type_param_count: 0,
                        pub_span: None,
                        signature_index,
                        name: signature.name,
                        params,
                        result: result_ty,
                        attributes: List::Nil,
                        body: None,
                    },
                );
                self.insert_item(*id, ItemIndex::Function(func_index));
                self.insert_import(
                    import_index,
                    signature.name.inner,
                    ImportValue::Function(*id),
                    SymbolKind::Function { func_index },
                );
            },
            _ => {},
        }
    }

    /// Resolves a global variable of an import.
    pub fn resolve_imported_global(
        &mut self,
        context: ResolveContext,
        import_index: usize,
        decl: &ImportDeclaration,
        depth: usize,
    )
        ensures
            final(self)@ == old(self)@.resolve_imported_global(
                context,
                import_index,
                decl,
                resolver(depth),
            ),
        decreases depth, 11int, List::<usize>::Nil, 0int,
    {
        match decl {
            ImportDeclaration::Global { id, name, ty, mut_span } => {
                let resolved: TypeIndex = self.resolve_type(context, None, ty, depth);
                let global_index: usize = self.add_global(
                    Global {
                        id: *id,
                        file_id: context.file_id,
                        namespace: Some(self.import_namespace(import_index)),
                        name: *name,
                        ty: spanned(resolved, ty.span),
                        pub_span: None,
                        mut_span: *mut_span,
                        value: None,
                    },
                );
                self.insert_item(*id, ItemIndex::Global(global_index));
                self.insert_import(
                    import_index,
                    name.inner,
                    ImportValue::Global(*id),
                    SymbolKind::Global { global_index },
                );
            },
            _ => {},
        }
    }

    /// Resolves the trait and the target of a trait impl. Without a trait there
    /// is no impl.
    pub fn resolve_trait_impl(
        &mut self,
        context: ResolveContext,
        item: &Item,
        depth: usize,
    ) -> (result: bool)
        ensures
            (final(self)@, result) == old(self)@.resolve_trait_impl(
                context,
                item,
                resolver(depth),
            ),
        decreases depth, 11int, List::<usize>::Nil, 1int,
    {
        match item {
            Item::TraitImpl { id, type_params, trait_name, target, .. } => {
                let span: TextSpan = path_span(trait_name);
                let kind = self.resolve_path_segments_as_bound(context, trait_name, span, depth);
                match kind {
                    Some(BoundKind::Trait(trait_index)) => {
                        self.resolve_trait_impl_target(
                            context,
                            *id,
                            trait_index,
                            type_params,
                            target,
                            span,
                            depth,
                        );
                        true
                    },
                    Some(BoundKind::TypeSet(_)) => {
                        self.report(report_expected_trait_name(context.at(span)));
                        false
                    },
                    None => false,
                }
            },
            _ => false,
        }
    }

    /// Enters a trait impl, and makes it findable by its target.
    pub fn resolve_trait_impl_target(
        &mut self,
        context: ResolveContext,
        id: DefId,
        trait_index: usize,
        type_params: &List<TypeParam>,
        target: &Spanned<TypeExpression>,
        span: TextSpan,
        depth: usize,
    )
        ensures
            final(self)@ == old(self)@.resolve_trait_impl_target(
                context,
                id,
                trait_index,
                type_params,
                target,
                span,
                resolver(depth),
            ),
        decreases depth, 11int, List::<usize>::Nil, 0int,
    {
        let impl_index: usize = self.add_trait_impl(
            TraitImpl {
                id,
                trait_index,
                type_params: new_type_params(type_params),
                target: spanned(ty::ERROR, target.span),
                members: List::Nil,
                span,
                file_id: context.file_id,
            },
        );
        self.insert_item(id, ItemIndex::TraitImpl(impl_index));
        let owner = TypeParamOwner::TraitImpl(impl_index);
        self.resolve_type_param_bounds(context, owner, None, type_params, 0, depth);
        let target_type: TypeIndex = self.resolve_signature_type(
            context,
            Some(GenericScope { owner, self_type: None }),
            target,
            depth,
        );
        self.set_trait_impl_target(impl_index, spanned(target_type, target.span));
        self.register_trait_impl(target_type, trait_index, impl_index);
    }

    /// Resolves a member of a trait impl. Without the impl there is no member.
    pub fn resolve_trait_impl_item(
        &mut self,
        context: ResolveContext,
        parent_id: DefId,
        item: &ImplItem,
        depth: usize,
    ) -> (result: bool)
        ensures
            (final(self)@, result) == old(self)@.resolve_trait_impl_item(
                context,
                parent_id,
                item,
                resolver(depth),
            ),
        decreases depth, 11int, List::<usize>::Nil, 2int,
    {
        self.ensure_pending(parent_id, depth);
        match self.trait_impl_index(parent_id) {
            Some(impl_index) => {
                match item {
                    ImplItem::Function { .. } => {
                        self.resolve_trait_impl_function(context, impl_index, item, depth);
                    },
                    ImplItem::Constant { .. } => {
                        self.resolve_trait_impl_constant(context, impl_index, item, depth);
                    },
                    ImplItem::AssociatedType { .. } => {
                        self.resolve_trait_impl_assoc_type(context, impl_index, item, depth);
                    },
                }
                true
            },
            None => false,
        }
    }

    /// Resolves a function of a trait impl. It has no type parameters of its own.
    pub fn resolve_trait_impl_function(
        &mut self,
        context: ResolveContext,
        impl_index: usize,
        item: &ImplItem,
        depth: usize,
    )
        ensures
            final(self)@ == old(self)@.resolve_trait_impl_function(
                context,
                impl_index,
                item,
                resolver(depth),
            ),
        decreases depth, 11int, List::<usize>::Nil, 1int,
    {
        match item {
            ImplItem::Function { id, pub_span, attributes, signature, .. } => {
                let (self_type, inherited, _) = self.trait_impl_target(impl_index);
                let known = self.resolve_attributes(attributes);
                self.register_tagged_items(*id, &known);
                let func_index: usize = self.add_function(
                    unresolved_function(
                        context,
                        *id,
                        signature.name,
                        Some(ItemParent::Impl(self_type)),
                        List::Nil,
                        Some(TypeParamOwner::TraitImpl(impl_index)),
                        inherited,
                        *pub_span,
                        known,
                    ),
                );
                self.insert_item(*id, ItemIndex::Function(func_index));
                self.fill_signature(
                    context,
                    Some(
                        GenericScope {
                            owner: TypeParamOwner::Function(*id),
                            self_type: Some(self_type),
                        },
                    ),
                    func_index,
                    signature,
                    depth,
                );
                self.insert_trait_impl_member(
                    impl_index,
                    signature.name.inner,
                    self.function_entry(func_index, signature),
                );
            },
            _ => {},
        }
    }

    /// Resolves a constant of a trait impl.
    pub fn resolve_trait_impl_constant(
        &mut self,
        context: ResolveContext,
        impl_index: usize,
        item: &ImplItem,
        depth: usize,
    )
        ensures
            final(self)@ == old(self)@.resolve_trait_impl_constant(
                context,
                impl_index,
                item,
                resolver(depth),
            ),
        decreases depth, 11int, List::<usize>::Nil, 1int,
    {
        let (self_type, _, _) = self.trait_impl_target(impl_index);
        let scope = GenericScope {
            owner: TypeParamOwner::TraitImpl(impl_index),
            self_type: Some(self_type),
        };
        let constant = self.resolve_impl_constant(context, scope, self_type, item, depth);
        match constant {
            Some(const_index) => {
                self.insert_trait_impl_member(
                    impl_index,
                    impl_item_name(item).inner,
                    ImplEntry::AssocConstant(const_index),
                );
            },
            None => {},
        }
    }

    /// Whether a definition is the associated type of that name of a trait.
    pub fn is_assoc_type_named(&self, id: DefId, name: Symbol) -> (result: bool)
        ensures
            result == self@.is_assoc_type_named(id, name),
    {
        match vec_at(&self.nodes, self.node_index(id)) {
            Some(entry) => match entry.node {
                AstNodeRef::TraitAssocType { trait_index: _, item } => match item {
                    TraitItem::AssociatedType { name: declared, .. } => declared.inner == name,
                    _ => false,
                },
                _ => false,
            },
            None => false,
        }
    }

    /// The first of the definitions that is the associated type of that name.
    pub fn assoc_type_definition(
        &self,
        ids: &List<DefId>,
        name: Symbol,
    ) -> (result: Option<DefId>)
        ensures
            result == self@.assoc_type_definition(ids, name),
        decreases ids,
    {
        match ids {
            List::Nil => None,
            List::Cons(id, rest) => {
                if self.is_assoc_type_named(**id, name) {
                    Some(**id)
                } else {
                    self.assoc_type_definition(rest, name)
                }
            },
        }
    }

    /// Resolves an associated type of a trait impl, and checks it against the
    /// bounds that the trait declares for it.
    pub fn resolve_trait_impl_assoc_type(
        &mut self,
        context: ResolveContext,
        impl_index: usize,
        item: &ImplItem,
        depth: usize,
    )
        ensures
            final(self)@ == old(self)@.resolve_trait_impl_assoc_type(
                context,
                impl_index,
                item,
                resolver(depth),
            ),
        decreases depth, 11int, List::<usize>::Nil, 1int,
    {
        match item {
            ImplItem::AssociatedType { name, ty, .. } => {
                let (self_type, _, trait_index) = self.trait_impl_target(impl_index);
                let scope = GenericScope {
                    owner: TypeParamOwner::TraitImpl(impl_index),
                    self_type: Some(self_type),
                };
                let concrete: TypeIndex = self.resolve_type(context, Some(scope), ty, depth);
                self.insert_trait_impl_member(
                    impl_index,
                    name.inner,
                    ImplEntry::AssocType { ty: concrete },
                );
                let ids = self.trait_member_ids(trait_index);
                match self.assoc_type_definition(&ids, name.inner) {
                    Some(id) => {
                        self.ensure_pending(id, depth);
                    },
                    None => {},
                }
                self.record_assoc_type_access(trait_index, name.inner, context.at(name.span));
                self.check_assoc_type_bounds(
                    context.file_id,
                    trait_index,
                    name.inner,
                    concrete,
                    name.span,
                );
            },
            _ => {},
        }
    }

    /// Resolves the signature of the definition at a node. The result says
    /// whether it came to its end.
    pub fn resolve_node(
        &mut self,
        context: ResolveContext,
        node: AstNodeRef<'ast>,
        depth: usize,
    ) -> (result: bool)
        ensures
            (final(self)@, result) == old(self)@.resolve_node(context, node, resolver(depth)),
        decreases depth, 11int, List::<usize>::Nil, 9int,
    {
        match node {
            AstNodeRef::Struct { item } => {
                self.resolve_struct(context, item, depth);
                true
            },
            AstNodeRef::TypeAlias { item } => {
                self.resolve_type_alias(context, item, depth);
                true
            },
            AstNodeRef::Enum { item } => {
                self.resolve_enum(context, item, depth);
                true
            },
            AstNodeRef::Function { item } => {
                self.resolve_function(context, item, depth);
                true
            },
            AstNodeRef::InherentImplConst { block_id, item, block_index } => {
                self.resolve_inherent_constant(context, block_id, block_index, item, depth);
                true
            },
            AstNodeRef::InherentImplFunction { block_id, item, block_index } => {
                self.resolve_inherent_function(context, block_id, block_index, item, depth)
            },
            AstNodeRef::InherentImplBlock { type_params, target, block_index } => {
                self.resolve_inherent_block(context, type_params, target, block_index, depth);
                true
            },
            AstNodeRef::Trait { trait_index, item } => {
                self.resolve_trait(context, trait_index, item, depth);
                true
            },
            AstNodeRef::TypeSet { typeset_index, item } => {
                self.resolve_typeset(context, typeset_index, item, depth);
                true
            },
            AstNodeRef::TraitFunction { trait_index, item } => {
                self.resolve_trait_function(context, trait_index, item, depth);
                true
            },
            AstNodeRef::TraitConst { trait_index, item } => {
                self.resolve_trait_constant(context, trait_index, item, depth);
                true
            },
            AstNodeRef::TraitAssocType { trait_index, item } => {
                self.resolve_trait_assoc_type(context, trait_index, item, depth);
                true
            },
            AstNodeRef::Global { item } => {
                self.resolve_global(context, item, depth);
                true
            },
            AstNodeRef::Memory { item } => {
                self.resolve_memory(context, item, depth);
                true
            },
            AstNodeRef::ImportedMemory => true,
            AstNodeRef::Constant { item } => {
                self.resolve_constant(context, item, depth);
                true
            },
            AstNodeRef::ImportedFunction { import_index, decl } => {
                self.resolve_imported_function(context, import_index, decl, depth);
                true
            },
            AstNodeRef::ImportedGlobal { import_index, decl } => {
                self.resolve_imported_global(context, import_index, decl, depth);
                true
            },
            AstNodeRef::TraitImplBlock { item } => self.resolve_trait_impl(context, item, depth),
            AstNodeRef::TraitImplFunction { parent_id, item } => {
                self.resolve_trait_impl_item(context, parent_id, item, depth)
            },
            AstNodeRef::TraitImplConstant { parent_id, item } => {
                self.resolve_trait_impl_item(context, parent_id, item, depth)
            },
            AstNodeRef::TraitImplAssocType { parent_id, item } => {
                self.resolve_trait_impl_item(context, parent_id, item, depth)
            },
        }
    }

    /// The definition at a position of the program.
    pub fn node_entry(&self, node: usize) -> (result: Option<AstEntry<'ast>>)
        ensures
            result == self@.node_entry(node),
    {
        match vec_at(&self.nodes, node) {
            Some(entry) => Some(*entry),
            None => None,
        }
    }

    /// Whether nothing has been done yet for the signature of a definition.
    pub fn is_pending(&self, id: DefId) -> (result: bool)
        ensures
            result == self@.is_pending(id),
    {
        match self.signature_state(id) {
            Some(ComputeState::Pending) => true,
            _ => false,
        }
    }

    /// Resolves the signature of a definition, unless that is done or under way.
    pub fn ensure_with(&mut self, id: DefId, depth: usize)
        ensures
            final(self)@ == old(self)@.ensure_with(id, resolver(depth)),
        decreases depth, 12int, List::<usize>::Nil, 0int,
    {
        if !self.is_pending(id) {
            return ;
        }
        let node: usize = self.node_index(id);
        self.set_sig_state(node, ComputeState::InProgress);
        match self.node_entry(node) {
            Some(entry) => {
                let done = self.resolve_node(
                    ResolveContext::new(entry.file_id, entry.namespace),
                    entry.node,
                    depth,
                );
                if done {
                    self.set_sig_state(node, ComputeState::Done);
                }
            },
            None => {},
        }
    }
}

} // verus!
