//! What `bodies` does to the state only adds to it.

use vstd::prelude::*;

use crate::ast::{ImplItem, Item, Statement, TraitItem};
use crate::growth;
use crate::list::List;
use crate::reports::report_type_annotation_required;
use crate::scope::ExprContext;
use crate::span::{DefId, SourceSpan, Spanned, TextSpan};
use crate::state::{AstNodeRef, State};
use crate::tir::{Expression, FunctionBody, GenericScope, ResolveContext};
use crate::ty;
use crate::types::{TypeIndex, TypeParamOwner};

verus! {

impl<'ast> State<'ast> {
    pub broadcast proof fn adds_check_global_value(
        self,
        context: ResolveContext,
        value: &Expression,
        global_ty: TypeIndex,
        constant: bool,
        span: TextSpan,
    )
        ensures
            self.only_adds(
                #[trigger] self.check_global_value(context, value, global_ty, constant, span),
            ),
    {
        broadcast use crate::growth::group_adding;

        self.adds_nothing();
        reveal(State::check_global_value);
        if ty::is_comptime_number(value.ty) {
            let s = self.report(report_type_annotation_required(context.at(span)));
        } else {
            self.adds_check_coercible(value.ty, global_ty, context.at(span));
        }
    }

    pub proof fn adds_build_global_value(
        self,
        context: ResolveContext,
        item: &Item,
        pending: spec_fn(State<'ast>, DefId) -> State<'ast>,
    )
        requires
            growth::resolver_adds(pending),
        ensures
            self.only_adds(self.build_global_value(context, item, pending)),
    {
        broadcast use crate::growth::group_finishing;

        self.adds_nothing();
        reveal(State::build_global_value);
        match item {
            Item::Global { id, value, .. } => {
                match self.global_index(*id) {
                    Some(global_index) => {
                        let (global_ty, _) = self.global_type(global_index);
                        self.adds_build_standalone_expression(context, value, global_ty, pending);
                    },
                    None => {},
                }
            },
            _ => {},
        }
    }

    pub broadcast proof fn adds_check_missing_body(self, func_index: usize, span: SourceSpan)
        ensures
            self.only_adds(#[trigger] self.check_missing_body(func_index, span)),
    {
        broadcast use crate::growth::group_adding;

        self.adds_nothing();
        reveal(State::check_missing_body);
    }

    pub proof fn adds_build_body(
        self,
        context: ResolveContext,
        self_type: Option<TypeIndex>,
        block: &Spanned<List<Statement>>,
        id: DefId,
        func_index: usize,
        pending: spec_fn(State<'ast>, DefId) -> State<'ast>,
    )
        requires
            growth::resolver_adds(pending),
        ensures
            self.only_adds(self.build_body(context, self_type, block, id, func_index, pending)),
    {
        broadcast use crate::growth::group_finishing;

        self.adds_nothing();
        reveal(State::build_body);
        self.adds_build_function_body(
            context,
            GenericScope { owner: TypeParamOwner::Function(id), self_type },
            block,
            func_index,
            pending,
        );
    }

    pub proof fn adds_build_item_body(
        self,
        context: ResolveContext,
        item: &Item,
        pending: spec_fn(State<'ast>, DefId) -> State<'ast>,
    )
        requires
            growth::resolver_adds(pending),
        ensures
            self.only_adds(self.build_item_body(context, item, pending)),
    {
        broadcast use crate::growth::group_finishing;

        self.adds_nothing();
        reveal(State::build_item_body);
        match item {
            Item::Function { id, block, .. } => {
                match self.function_index(*id) {
                    Some(func_index) => {
                        self.adds_build_body(context, None, block, *id, func_index, pending);
                    },
                    None => {},
                }
            },
            Item::FunctionDeclaration { id, signature, .. } => {},
            _ => {},
        }
    }

    pub proof fn adds_build_impl_body(
        self,
        context: ResolveContext,
        self_type: Option<TypeIndex>,
        item: &ImplItem,
        pending: spec_fn(State<'ast>, DefId) -> State<'ast>,
    )
        requires
            growth::resolver_adds(pending),
        ensures
            self.only_adds(self.build_impl_body(context, self_type, item, pending)),
    {
        broadcast use crate::growth::group_finishing;

        self.adds_nothing();
        reveal(State::build_impl_body);
        match item {
            ImplItem::Function { id, block, .. } => {
                match self.function_index(*id) {
                    Some(func_index) => {
                        self.adds_build_body(context, self_type, block, *id, func_index, pending);
                    },
                    None => {},
                }
            },
            _ => {},
        }
    }

    pub proof fn adds_build_trait_body(
        self,
        context: ResolveContext,
        trait_index: usize,
        item: &TraitItem,
        pending: spec_fn(State<'ast>, DefId) -> State<'ast>,
    )
        requires
            growth::resolver_adds(pending),
        ensures
            self.only_adds(self.build_trait_body(context, trait_index, item, pending)),
    {
        broadcast use crate::growth::group_finishing;

        self.adds_nothing();
        reveal(State::build_trait_body);
        match item {
            TraitItem::Function { id, body, .. } => {
                match (body, self.function_index(*id)) {
                    (Some(block), Some(func_index)) => {
                        let (s, self_type) = self.trait_self_type(trait_index);
                        s.adds_build_body(
                            context,
                            Some(self_type),
                            block,
                            *id,
                            func_index,
                            pending,
                        );
                    },
                    _ => {},
                }
            },
            _ => {},
        }
    }

    pub proof fn adds_build_node_body(
        self,
        context: ResolveContext,
        node: AstNodeRef<'ast>,
        pending: spec_fn(State<'ast>, DefId) -> State<'ast>,
    )
        requires
            growth::resolver_adds(pending),
        ensures
            self.only_adds(self.build_node_body(context, node, pending)),
    {
        broadcast use crate::growth::group_finishing;

        self.adds_nothing();
        reveal(State::build_node_body);
        match node {
            AstNodeRef::Function { item } => {
                self.adds_build_item_body(context, item, pending);
            },
            AstNodeRef::TraitImplFunction { parent_id, item } => {
                self.adds_build_impl_body(context, self.impl_self_type(parent_id), item, pending);
            },
            AstNodeRef::InherentImplFunction { block_id: _, item, block_index } => {
                let (self_type, _) = self.inherent_impl_target(block_index);
                self.adds_build_impl_body(context, Some(self_type), item, pending);
            },
            AstNodeRef::TraitFunction { trait_index, item } => {
                self.adds_build_trait_body(context, trait_index, item, pending);
            },
            AstNodeRef::Global { item } => {
                self.adds_build_global_value(context, item, pending);
            },
            _ => {},
        }
    }

    pub proof fn adds_ensure_body(
        self,
        id: DefId,
        pending: spec_fn(State<'ast>, DefId) -> State<'ast>,
    )
        requires
            growth::resolver_adds(pending),
        ensures
            self.only_adds(self.ensure_body(id, pending)),
    {
        broadcast use crate::growth::group_finishing;

        self.adds_nothing();
        reveal(State::ensure_body);
        self.adds_ensure_pending(id, pending);
        let s = self.ensure_pending(id, pending);
        match s.node_entry(s.node_index(id)) {
            Some(entry) => {
                s.adds_build_node_body(
                    ResolveContext::new(entry.file_id, entry.namespace),
                    entry.node,
                    pending,
                );
            },
            None => {},
        }
    }
}

impl<'ast> State<'ast> {
    pub proof fn adds_build_function_body(
        self,
        context: ResolveContext,
        scope: GenericScope,
        block: &Spanned<List<Statement>>,
        func_index: usize,
        pending: spec_fn(State<'ast>, DefId) -> State<'ast>,
    )
        requires
            growth::resolver_adds(pending),
        ensures
            self.only_adds(
                self.build_function_body(context, scope, block, func_index, pending).0,
            ),
    {
        broadcast use crate::growth::law_adding_chains;

        let ctx = self.function_context(context, scope, block.span, func_index);
        self.adds_build_block_expression(ctx, &block.inner, block.span, pending);
        let (s, ctx, built) = self.build_block_expression(
            ctx,
            &block.inner,
            block.span,
            pending,
        );
        s.adds_report_stack_warnings(context.file_id, &ctx.stack);
    }

    pub broadcast proof fn adds_finish_global(
        self,
        ctx: ExprContext,
        built: Option<Expression>,
        global_index: usize,
        span: TextSpan,
    )
        ensures
            self.only_adds(#[trigger] self.finish_global(ctx, built, global_index, span)),
    {
        broadcast use crate::growth::law_adding_chains;

        self.adds_nothing();
        match built {
            Some(value) => {
                let (global_ty, constant) = self.global_type(global_index);
                self.adds_settle_element(ctx, value, global_ty);
                let (s, ctx, value) = self.settle_element(ctx, value, global_ty);
                s.adds_check_global_value(ctx.resolve_context, &value, global_ty, constant, span);
                let s = s.check_global_value(ctx.resolve_context, &value, global_ty, constant, span);
                s.adds_report_stack_warnings(ctx.resolve_context.file_id, &ctx.stack);
                let s = s.report_stack_warnings(ctx.resolve_context.file_id, &ctx.stack);
                s.adds_set_global_value(
                    global_index,
                    Some(FunctionBody { block: value, stack: ctx.stack }),
                );
            },
            None => {},
        }
    }
}

} // verus!
