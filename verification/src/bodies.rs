//! The third phase: the bodies of functions and the values of globals.

use vstd::prelude::*;

use crate::ast::{ImplItem, Item, Statement, TraitItem};
use crate::list::{cons, single, List};
use crate::relate;
use crate::relate::result_type;
use crate::reports::{
    report_missing_function_body, report_non_constant_global_initializer,
    report_type_annotation_required,
};
use crate::scope::ExprContext;
use crate::signatures;
use crate::span::{DefId, SourceSpan, Spanned, TextSpan};
use crate::state;
use crate::state::{vec_at, AstNodeRef, Builder, State};
use crate::tir::{
    BlockKind, BlockScope, Expression, FunctionBody, FunctionParam, GenericScope, ItemAttribute,
    Local, ResolveContext, StackFrame,
};
use crate::ty;
use crate::types::{TypeIndex, TypeParamOwner};
use crate::typing;
use crate::typing::is_number_literal;

verus! {

/// The locals that the parameters of a function are.
pub open spec fn locals_of_params(params: List<FunctionParam>) -> List<Local>
    decreases params,
{
    match params {
        List::Nil => List::Nil,
        List::Cons(param, rest) => List::Cons(
            Box::new(
                Local {
                    name: param.name,
                    ty: param.ty.inner,
                    mut_span: param.mut_span,
                    accesses: List::Nil,
                },
            ),
            Box::new(locals_of_params(*rest)),
        ),
    }
}

/// The locals that the parameters of a function are.
pub fn param_locals(params: &List<FunctionParam>) -> (result: List<Local>)
    ensures
        result == locals_of_params(*params),
    decreases params,
{
    match params {
        List::Nil => List::Nil,
        List::Cons(param, rest) => cons(
            Local {
                name: param.name,
                ty: param.ty.inner,
                mut_span: param.mut_span,
                accesses: List::Nil,
            },
            param_locals(rest),
        ),
    }
}

impl<'ast> State<'ast> {
    /// The context at the start of a function's body: one scope with the
    /// parameters, of which the function's result is expected.
    pub open spec fn function_context(
        self,
        context: ResolveContext,
        scope: GenericScope,
        span: TextSpan,
        func_index: usize,
    ) -> ExprContext {
        let (params, result_ty) = match state::seq_at(self.functions, func_index) {
            Some(function) => (function.params, relate::result_type(function.result)),
            None => (List::Nil, ty::UNIT),
        };
        ExprContext {
            stack: StackFrame {
                scopes: single(
                    BlockScope {
                        parent: None,
                        label: None,
                        kind: BlockKind::Block,
                        span,
                        locals: locals_of_params(params),
                        inferred_type: ty::INFER,
                        expected_type: result_ty,
                    },
                ),
                labels: List::Nil,
            },
            scope_index: 0,
            resolve_context: context,
            scope: Some(scope),
        }
    }

    /// The body of a function. Locals and labels that are there for nothing
    /// are reported.
    pub open spec fn build_function_body(
        self,
        context: ResolveContext,
        scope: GenericScope,
        block: &Spanned<List<Statement>>,
        func_index: usize,
        pending: spec_fn(State<'ast>, DefId) -> State<'ast>,
    ) -> (State<'ast>, Option<FunctionBody>) {
        let ctx = self.function_context(context, scope, block.span, func_index);
        let (s, ctx, built) = self.build_block_expression(ctx, &block.inner, block.span, pending);
        match built {
            Some(expr) => (
                s.report_stack_warnings(context.file_id, &ctx.stack),
                Some(FunctionBody { block: expr, stack: ctx.stack }),
            ),
            None => (s, None),
        }
    }

    /// The value of a global, once it is built.
    pub open spec fn finish_global(
        self,
        ctx: ExprContext,
        built: Option<Expression>,
        global_index: usize,
        span: TextSpan,
    ) -> State<'ast> {
        match built {
            Some(value) => {
                let (global_ty, constant) = self.global_type(global_index);
                let (s, ctx, value) = self.settle_element(ctx, value, global_ty);
                let s = s.check_global_value(ctx.resolve_context, &value, global_ty, constant, span);
                let s = s.report_stack_warnings(ctx.resolve_context.file_id, &ctx.stack);
                s.set_global_value(
                    global_index,
                    Some(FunctionBody { block: value, stack: ctx.stack }),
                )
            },
            None => self,
        }
    }
}

impl<'ast> Builder<'ast> {
    /// The context at the start of a function's body: one scope with the
    /// parameters, of which the function's result is expected.
    pub fn function_context(
        &self,
        context: ResolveContext,
        scope: GenericScope,
        span: TextSpan,
        func_index: usize,
    ) -> (result: ExprContext)
        ensures
            result == self@.function_context(context, scope, span, func_index),
    {
        let (locals, expected_type) = match vec_at(&self.functions, func_index) {
            Some(function) => (param_locals(&function.params), result_type(function.result)),
            None => (List::Nil, ty::UNIT),
        };
        ExprContext {
            stack: StackFrame {
                scopes: single(
                    BlockScope {
                        parent: None,
                        label: None,
                        kind: BlockKind::Block,
                        span,
                        locals,
                        inferred_type: ty::INFER,
                        expected_type,
                    },
                ),
                labels: List::Nil,
            },
            scope_index: 0,
            resolve_context: context,
            scope: Some(scope),
        }
    }

    /// The body of a function. Locals and labels that are there for nothing
    /// are reported.
    pub fn build_function_body(
        &mut self,
        context: ResolveContext,
        scope: GenericScope,
        block: &Spanned<List<Statement>>,
        func_index: usize,
        depth: usize,
    ) -> (result: Option<FunctionBody>)
        ensures
            (final(self)@, result) == old(self)@.build_function_body(
                context,
                scope,
                block,
                func_index,
                signatures::resolver(depth),
            ),
    {
        let mut ctx = self.function_context(context, scope, block.span, func_index);
        let built = self.build_block_expression(&mut ctx, &block.inner, block.span, depth);
        match built {
            Some(expr) => {
                self.report_stack_warnings(context.file_id, &ctx.stack);
                Some(FunctionBody { block: expr, stack: ctx.stack })
            },
            None => None,
        }
    }

    /// The value of a global, once it is built.
    pub fn finish_global(
        &mut self,
        ctx: ExprContext,
        built: Option<Expression>,
        global_index: usize,
        span: TextSpan,
    )
        ensures
            final(self)@ == old(self)@.finish_global(ctx, built, global_index, span),
    {
        match built {
            Some(value) => {
                let (global_ty, constant) = self.global_type(global_index);
                let mut ctx = ctx;
                let value = self.settle_element(&mut ctx, value, global_ty);
                self.check_global_value(ctx.resolve_context, &value, global_ty, constant, span);
                self.report_stack_warnings(ctx.resolve_context.file_id, &ctx.stack);
                self.set_global_value(
                    global_index,
                    Some(FunctionBody { block: value, stack: ctx.stack }),
                );
            },
            None => {},
        }
    }
}

/// Whether an attribute marks a function that the compiler provides.
pub open spec fn lists_intrinsic(attributes: &List<ItemAttribute>) -> bool
    decreases attributes,
{
    match attributes {
        List::Nil => false,
        List::Cons(attribute, rest) => {
            **attribute == ItemAttribute::Intrinsic || lists_intrinsic(rest)
        },
    }
}

/// Whether an attribute marks a function that the compiler provides.
pub fn is_intrinsic(attributes: &List<ItemAttribute>) -> (result: bool)
    ensures
        result == lists_intrinsic(attributes),
    decreases attributes,
{
    match attributes {
        List::Nil => false,
        List::Cons(attribute, rest) => {
            **attribute == ItemAttribute::Intrinsic || is_intrinsic(rest)
        },
    }
}

impl<'ast> State<'ast> {
    /// The type of a global, and whether it cannot be written to.
    pub open spec fn global_type(self, global_index: usize) -> (TypeIndex, bool) {
        match state::seq_ref(self.globals, global_index) {
            Some(global) => (global.ty.inner, global.mut_span.is_none()),
            None => (ty::ERROR, false),
        }
    }

    /// Reports a global's value that is not of the global's type, and one of a
    /// constant global that is no number literal.
    #[verifier::opaque]
    pub open spec fn check_global_value(
        self,
        context: ResolveContext,
        value: &Expression,
        global_ty: TypeIndex,
        constant: bool,
        span: TextSpan,
    ) -> State<'ast> {
        if ty::is_comptime_number(value.ty) {
            self.report(report_type_annotation_required(context.at(span)))
        } else {
            let (s, fits) = self.check_coercible(value.ty, global_ty, context.at(span));
            if fits && constant && !typing::number_literal(value) {
                s.report(report_non_constant_global_initializer(context.at(span)))
            } else {
                s
            }
        }
    }

    /// The value of a global.
    #[verifier::opaque]
    pub open spec fn build_global_value(
        self,
        context: ResolveContext,
        item: &Item,
        pending: spec_fn(State<'ast>, DefId) -> State<'ast>,
    ) -> State<'ast> {
        match item {
            Item::Global { id, value, .. } => {
                match self.global_index(*id) {
                    Some(global_index) => {
                        let (global_ty, _) = self.global_type(global_index);
                        let (s, (built, ctx)) = self.build_standalone_expression(
                            context,
                            value,
                            global_ty,
                            pending,
                        );
                        s.finish_global(ctx, built, global_index, value.span)
                    },
                    None => self,
                }
            },
            _ => self,
        }
    }

    /// Reports a function without a body that the compiler does not provide.
    #[verifier::opaque]
    pub open spec fn check_missing_body(self, func_index: usize, span: SourceSpan) -> State<'ast> {
        let provided = match state::seq_ref(self.functions, func_index) {
            Some(function) => lists_intrinsic(&function.attributes),
            None => true,
        };
        if !provided {
            self.report(report_missing_function_body(span))
        } else {
            self
        }
    }

    /// Builds the body of a function and gives it to the function.
    #[verifier::opaque]
    pub open spec fn build_body(
        self,
        context: ResolveContext,
        self_type: Option<TypeIndex>,
        block: &Spanned<List<Statement>>,
        id: DefId,
        func_index: usize,
        pending: spec_fn(State<'ast>, DefId) -> State<'ast>,
    ) -> State<'ast> {
        let (s, body) = self.build_function_body(
            context,
            GenericScope { owner: TypeParamOwner::Function(id), self_type },
            block,
            func_index,
            pending,
        );
        if body.is_some() {
            s.set_function_body(func_index, body)
        } else {
            s
        }
    }

    /// Builds the body of a function outside of any impl or trait.
    #[verifier::opaque]
    pub open spec fn build_item_body(
        self,
        context: ResolveContext,
        item: &Item,
        pending: spec_fn(State<'ast>, DefId) -> State<'ast>,
    ) -> State<'ast> {
        match item {
            Item::Function { id, block, .. } => {
                match self.function_index(*id) {
                    Some(func_index) => {
                        self.build_body(context, None, block, *id, func_index, pending)
                    },
                    None => self,
                }
            },
            Item::FunctionDeclaration { id, signature, .. } => {
                match self.function_index(*id) {
                    Some(func_index) => {
                        self.check_missing_body(
                            func_index,
                            context.at(signature.name.span),
                        )
                    },
                    None => self,
                }
            },
            _ => self,
        }
    }

    /// Builds the body of a function of an impl.
    #[verifier::opaque]
    pub open spec fn build_impl_body(
        self,
        context: ResolveContext,
        self_type: Option<TypeIndex>,
        item: &ImplItem,
        pending: spec_fn(State<'ast>, DefId) -> State<'ast>,
    ) -> State<'ast> {
        match item {
            ImplItem::Function { id, block, .. } => {
                match self.function_index(*id) {
                    Some(func_index) => {
                        self.build_body(
                            context,
                            self_type,
                            block,
                            *id,
                            func_index,
                            pending,
                        )
                    },
                    None => self,
                }
            },
            _ => self,
        }
    }

    /// Builds the body that a trait gives a function, with the trait's type
    /// parameter for `Self`.
    #[verifier::opaque]
    pub open spec fn build_trait_body(
        self,
        context: ResolveContext,
        trait_index: usize,
        item: &TraitItem,
        pending: spec_fn(State<'ast>, DefId) -> State<'ast>,
    ) -> State<'ast> {
        match item {
            TraitItem::Function { id, body, .. } => {
                match (body, self.function_index(*id)) {
                    (Some(block), Some(func_index)) => {
                        let (s, self_type) = self.trait_self_type(trait_index);
                        s.build_body(
                            context,
                            Some(self_type),
                            block,
                            *id,
                            func_index,
                            pending,
                        )
                    },
                    _ => self,
                }
            },
            _ => self,
        }
    }

    /// The target of the trait impl of that id.
    pub open spec fn impl_self_type(self, parent_id: DefId) -> Option<TypeIndex> {
        match self.trait_impl_index(parent_id) {
            Some(impl_index) => {
                let (self_type, _, _) = self.trait_impl_target(impl_index);
                Some(self_type)
            },
            None => None,
        }
    }

    /// Builds the body or the value of the definition at a node, if it has one.
    #[verifier::opaque]
    pub open spec fn build_node_body(
        self,
        context: ResolveContext,
        node: AstNodeRef<'ast>,
        pending: spec_fn(State<'ast>, DefId) -> State<'ast>,
    ) -> State<'ast> {
        match node {
            AstNodeRef::Function { item } => self.build_item_body(context, item, pending),
            AstNodeRef::TraitImplFunction { parent_id, item } => {
                self.build_impl_body(
                    context,
                    self.impl_self_type(parent_id),
                    item,
                    pending,
                )
            },
            AstNodeRef::InherentImplFunction { block_id: _, item, block_index } => {
                let (self_type, _) = self.inherent_impl_target(block_index);
                self.build_impl_body(context, Some(self_type), item, pending)
            },
            AstNodeRef::TraitFunction { trait_index, item } => {
                self.build_trait_body(context, trait_index, item, pending)
            },
            AstNodeRef::Global { item } => self.build_global_value(context, item, pending),
            _ => self,
        }
    }

    /// Builds the body or the value of a definition, with its signature resolved
    /// first.
    #[verifier::opaque]
    pub open spec fn ensure_body(
        self,
        id: DefId,
        pending: spec_fn(State<'ast>, DefId) -> State<'ast>,
    ) -> State<'ast> {
        let s = self.ensure_pending(id, pending);
        match s.node_entry(s.node_index(id)) {
            Some(entry) => {
                s.build_node_body(
                    ResolveContext::new(entry.file_id, entry.namespace),
                    entry.node,
                    pending,
                )
            },
            None => s,
        }
    }
}

impl<'ast> Builder<'ast> {
    /// The type of a global, and whether it cannot be written to.
    pub fn global_type(&self, global_index: usize) -> (result: (TypeIndex, bool))
        ensures
            result == self@.global_type(global_index),
    {
        match vec_at(&self.globals, global_index) {
            Some(global) => (global.ty.inner, global.mut_span.is_none()),
            None => (ty::ERROR, false),
        }
    }

    /// Reports a global's value that is not of the global's type, and one of a
    /// constant global that is no number literal.
    pub fn check_global_value(
        &mut self,
        context: ResolveContext,
        value: &Expression,
        global_ty: TypeIndex,
        constant: bool,
        span: TextSpan,
    )
        ensures
            final(self)@ == old(self)@.check_global_value(
                context,
                value,
                global_ty,
                constant,
                span,
            ),
    {
        proof {
            reveal(State::check_global_value);
        }
        if ty::is_comptime_number(value.ty) {
            self.report(report_type_annotation_required(context.at(span)));
            return ;
        }
        let fits = self.check_coercible(value.ty, global_ty, context.at(span));
        if fits && constant && !is_number_literal(value) {
            self.report(report_non_constant_global_initializer(context.at(span)));
        }
    }

    /// The value of a global.
    pub fn build_global_value(&mut self, context: ResolveContext, item: &Item, depth: usize)
        ensures
            final(self)@ == old(self)@.build_global_value(
                context,
                item,
                signatures::resolver(depth),
            ),
    {
        proof {
            reveal(State::build_global_value);
        }
        match item {
            Item::Global { id, value, .. } => match self.global_index(*id) {
                Some(global_index) => {
                    let (global_ty, _) = self.global_type(global_index);
                    let (built, ctx) = self.build_standalone_expression(
                        context,
                        value,
                        global_ty,
                        depth,
                    );
                    self.finish_global(ctx, built, global_index, value.span);
                },
                None => {},
            },
            _ => {},
        }
    }

    /// Reports a function without a body that the compiler does not provide.
    pub fn check_missing_body(&mut self, func_index: usize, span: SourceSpan)
        ensures
            final(self)@ == old(self)@.check_missing_body(func_index, span),
    {
        proof {
            reveal(State::check_missing_body);
        }
        let provided = match vec_at(&self.functions, func_index) {
            Some(function) => is_intrinsic(&function.attributes),
            None => true,
        };
        if !provided {
            self.report(report_missing_function_body(span));
        }
    }

    /// Builds the body of a function and gives it to the function.
    pub fn build_body(
        &mut self,
        context: ResolveContext,
        self_type: Option<TypeIndex>,
        block: &Spanned<List<Statement>>,
        id: DefId,
        func_index: usize,
        depth: usize,
    )
        ensures
            final(self)@ == old(self)@.build_body(
                context,
                self_type,
                block,
                id,
                func_index,
                signatures::resolver(depth),
            ),
    {
        proof {
            reveal(State::build_body);
        }
        let body = self.build_function_body(
            context,
            GenericScope { owner: TypeParamOwner::Function(id), self_type },
            block,
            func_index,
            depth,
        );
        if body.is_some() {
            self.set_function_body(func_index, body);
        }
    }

    /// Builds the body of a function outside of any impl or trait.
    pub fn build_item_body(&mut self, context: ResolveContext, item: &Item, depth: usize)
        ensures
            final(self)@ == old(self)@.build_item_body(
                context,
                item,
                signatures::resolver(depth),
            ),
    {
        proof {
            reveal(State::build_item_body);
        }
        match item {
            Item::Function { id, block, .. } => match self.function_index(*id) {
                Some(func_index) => {
                    self.build_body(context, None, block, *id, func_index, depth);
                },
                None => {},
            },
            Item::FunctionDeclaration { id, signature, .. } => match self.function_index(*id) {
                Some(func_index) => {
                    self.check_missing_body(func_index, context.at(signature.name.span));
                },
                None => {},
            },
            _ => {},
        }
    }

    /// Builds the body of a function of an impl.
    pub fn build_impl_body(
        &mut self,
        context: ResolveContext,
        self_type: Option<TypeIndex>,
        item: &ImplItem,
        depth: usize,
    )
        ensures
            final(self)@ == old(self)@.build_impl_body(
                context,
                self_type,
                item,
                signatures::resolver(depth),
            ),
    {
        proof {
            reveal(State::build_impl_body);
        }
        match item {
            ImplItem::Function { id, block, .. } => match self.function_index(*id) {
                Some(func_index) => {
                    self.build_body(context, self_type, block, *id, func_index, depth);
                },
                None => {},
            },
            _ => {},
        }
    }

    /// Builds the body that a trait gives a function, with the trait's type
    /// parameter for `Self`.
    pub fn build_trait_body(
        &mut self,
        context: ResolveContext,
        trait_index: usize,
        item: &TraitItem,
        depth: usize,
    )
        ensures
            final(self)@ == old(self)@.build_trait_body(
                context,
                trait_index,
                item,
                signatures::resolver(depth),
            ),
    {
        proof {
            reveal(State::build_trait_body);
        }
        match item {
            TraitItem::Function { id, body, .. } => match (body, self.function_index(*id)) {
                (Some(block), Some(func_index)) => {
                    let self_type: TypeIndex = self.trait_self_type(trait_index);
                    self.build_body(context, Some(self_type), block, *id, func_index, depth);
                },
                _ => {},
            },
            _ => {},
        }
    }

    /// The target of the trait impl of that id.
    pub fn impl_self_type(&self, parent_id: DefId) -> (result: Option<TypeIndex>)
        ensures
            result == self@.impl_self_type(parent_id),
    {
        match self.trait_impl_index(parent_id) {
            Some(impl_index) => {
                let (self_type, _, _) = self.trait_impl_target(impl_index);
                Some(self_type)
            },
            None => None,
        }
    }

    /// Builds the body or the value of the definition at a node, if it has one.
    pub fn build_node_body(
        &mut self,
        context: ResolveContext,
        node: AstNodeRef<'ast>,
        depth: usize,
    )
        ensures
            final(self)@ == old(self)@.build_node_body(
                context,
                node,
                signatures::resolver(depth),
            ),
    {
        proof {
            reveal(State::build_node_body);
        }
        match node {
            AstNodeRef::Function { item } => {
                self.build_item_body(context, item, depth);
            },
            AstNodeRef::TraitImplFunction { parent_id, item } => {
                self.build_impl_body(context, self.impl_self_type(parent_id), item, depth);
            },
            AstNodeRef::InherentImplFunction { block_id: _, item, block_index } => {
                let (self_type, _) = self.inherent_impl_target(block_index);
                self.build_impl_body(context, Some(self_type), item, depth);
            },
            AstNodeRef::TraitFunction { trait_index, item } => {
                self.build_trait_body(context, trait_index, item, depth);
            },
            AstNodeRef::Global { item } => {
                self.build_global_value(context, item, depth);
            },
            _ => {},
        }
    }

    /// Builds the body or the value of a definition, with its signature resolved
    /// first.
    pub fn ensure_body(&mut self, id: DefId, depth: usize)
        ensures
            final(self)@ == old(self)@.ensure_body(id, signatures::resolver(depth)),
    {
        proof {
            reveal(State::ensure_body);
        }
        self.ensure_pending(id, depth);
        match self.node_entry(self.node_index(id)) {
            Some(entry) => {
                self.build_node_body(
                    ResolveContext::new(entry.file_id, entry.namespace),
                    entry.node,
                    depth,
                );
            },
            None => {},
        }
    }
}

} // verus!
