//! Names: the built-in ones, and what the others stand for as values.

use vstd::prelude::*;

use crate::failures::more_is_reported;
use crate::interner;
use crate::laws;
use crate::list::List;
use crate::lookup;
use crate::lookup::ResolvedMember;
use crate::members::MemberLookup;
use crate::resolve::ResolvedSymbol;
use crate::rules::bounds::same_but_reports;
use crate::scope::{next_index, ExprContext};
use crate::span::{Spanned, Symbol, TextSpan};
use crate::state::State;
use crate::tir::{
    AccessContext, AccessKind, AccessRecord, AccessTarget, EnumVariant, ExprKind, ImplEntry, Local,
    LocalAccess, ResolveContext, SymbolKind, SymbolNamespace,
};
use crate::ty;
use crate::types::{Type, TypeIndex};

verus! {

/// Each built-in type has its name, and no other name is built in.
pub proof fn law_built_in_names<'ast>(s: State<'ast>, name: Symbol)
    ensures
        interner::is_name(s.texts, name, "u8"@) ==> s.primitive_type(name) == Some(ty::U8),
        interner::is_name(s.texts, name, "i8"@) ==> s.primitive_type(name) == Some(ty::I8),
        interner::is_name(s.texts, name, "u16"@) ==> s.primitive_type(name) == Some(ty::U16),
        interner::is_name(s.texts, name, "i16"@) ==> s.primitive_type(name) == Some(ty::I16),
        interner::is_name(s.texts, name, "u32"@) ==> s.primitive_type(name) == Some(ty::U32),
        interner::is_name(s.texts, name, "i32"@) ==> s.primitive_type(name) == Some(ty::I32),
        interner::is_name(s.texts, name, "u64"@) ==> s.primitive_type(name) == Some(ty::U64),
        interner::is_name(s.texts, name, "i64"@) ==> s.primitive_type(name) == Some(ty::I64),
        interner::is_name(s.texts, name, "f32"@) ==> s.primitive_type(name) == Some(ty::F32),
        interner::is_name(s.texts, name, "f64"@) ==> s.primitive_type(name) == Some(ty::F64),
        interner::is_name(s.texts, name, "bool"@) ==> s.primitive_type(name) == Some(ty::BOOL),
        interner::is_name(s.texts, name, "char"@) ==> s.primitive_type(name) == Some(ty::CHAR),
        s.primitive_type(name) is Some ==> {
            ||| interner::is_name(s.texts, name, "u8"@)
            ||| interner::is_name(s.texts, name, "i8"@)
            ||| interner::is_name(s.texts, name, "u16"@)
            ||| interner::is_name(s.texts, name, "i16"@)
            ||| interner::is_name(s.texts, name, "u32"@)
            ||| interner::is_name(s.texts, name, "i32"@)
            ||| interner::is_name(s.texts, name, "u64"@)
            ||| interner::is_name(s.texts, name, "i64"@)
            ||| interner::is_name(s.texts, name, "f32"@)
            ||| interner::is_name(s.texts, name, "f64"@)
            ||| interner::is_name(s.texts, name, "bool"@)
            ||| interner::is_name(s.texts, name, "char"@)
        },
{
    reveal_strlit("u8");
    reveal_strlit("i8");
    reveal_strlit("u16");
    reveal_strlit("i16");
    reveal_strlit("u32");
    reveal_strlit("i32");
    reveal_strlit("u64");
    reveal_strlit("i64");
    reveal_strlit("f32");
    reveal_strlit("f64");
    reveal_strlit("bool");
    reveal_strlit("char");
    assert("u8"@[0] == 'u' && "u8"@.len() == 2);
    assert("i8"@[0] == 'i' && "i8"@.len() == 2);
    assert("u16"@[0] == 'u' && "u16"@[1] == '1' && "u16"@.len() == 3);
    assert("i16"@[0] == 'i' && "i16"@[1] == '1' && "i16"@.len() == 3);
    assert("u32"@[0] == 'u' && "u32"@[1] == '3' && "u32"@.len() == 3);
    assert("i32"@[0] == 'i' && "i32"@[1] == '3' && "i32"@.len() == 3);
    assert("u64"@[0] == 'u' && "u64"@[1] == '6' && "u64"@.len() == 3);
    assert("i64"@[0] == 'i' && "i64"@[1] == '6' && "i64"@.len() == 3);
    assert("f32"@[0] == 'f' && "f32"@[1] == '3' && "f32"@.len() == 3);
    assert("f64"@[0] == 'f' && "f64"@[1] == '6' && "f64"@.len() == 3);
    assert("bool"@[0] == 'b' && "bool"@.len() == 4);
    assert("char"@[0] == 'c' && "char"@.len() == 4);
}

// ---------------------------------------------------------------- imports

/// A name that several wildcard imports give means what the first of them
/// gives.
pub proof fn law_first_import_wins<'ast>(
    s: State<'ast>,
    imports: List<usize>,
    space: SymbolNamespace,
    name: Symbol,
)
    ensures
        match s.imported_symbol(imports, space, name) {
            Some(kind) => exists|i: nat|
                {
                    &&& (#[trigger] imports.at(i)) matches Some(import) && s.direct_symbol(
                        Some(import),
                        space,
                        name,
                    ) == Some(kind)
                    &&& forall|j: nat|
                        j < i ==> ((#[trigger] imports.at(j)) matches Some(earlier)
                            && s.direct_symbol(Some(earlier), space, name) is None)
                },
            None => forall|i: nat|
                (#[trigger] imports.at(i)) matches Some(import) ==> s.direct_symbol(
                    Some(import),
                    space,
                    name,
                ) is None,
        },
    decreases imports,
{
    match imports {
        List::Nil => {},
        List::Cons(head, rest) => {
            assert(imports.at(0) == Some(*head));
            assert forall|i: nat| #[trigger] rest.at(i) == imports.at(i + 1) by {}
            if s.direct_symbol(Some(*head), space, name) is None {
                law_first_import_wins(s, *rest, space, name);
                match s.imported_symbol(*rest, space, name) {
                    Some(kind) => {
                        let i = choose|i: nat|
                            {
                                &&& (#[trigger] rest.at(i)) matches Some(import)
                                    && s.direct_symbol(Some(import), space, name) == Some(kind)
                                &&& forall|j: nat|
                                    j < i ==> ((#[trigger] rest.at(j)) matches Some(earlier)
                                        && s.direct_symbol(Some(earlier), space, name) is None)
                            };
                        assert(imports.at(i + 1) == rest.at(i));
                        assert forall|j: nat| j < i + 1 implies ((#[trigger] imports.at(
                            j,
                        )) matches Some(earlier) && s.direct_symbol(Some(earlier), space, name)
                            is None) by {
                            if j > 0 {
                                assert(rest.at((j - 1) as nat) == imports.at(j));
                            }
                        }
                    },
                    None => {
                        assert forall|i: nat| (#[trigger] imports.at(i)) is Some implies s.direct_symbol(
                            Some(imports.at(i)->0),
                            space,
                            name,
                        ) is None by {
                            if i > 0 {
                                assert(rest.at((i - 1) as nat) == imports.at(i));
                            }
                        }
                    },
                }
            }
        },
    }
}

// ---------------------------------------------------------------- values

/// A function, a global, a constant and a memory are values of their types,
/// and each use is recorded. A write to an immutable global is reported.
pub proof fn law_global_values<'ast>(
    s: State<'ast>,
    context: ResolveContext,
    access: AccessContext,
    kind: SymbolKind,
    span: TextSpan,
)
    requires
        s.types.len() < usize::MAX,
    ensures
        ({
            let (t, found) = s.global_expression(context, access, kind, span);
            match kind {
                SymbolKind::Function { func_index } => func_index < s.functions.len() ==> {
                    let id = s.functions[func_index as int].id;
                    &&& found.kind == (ExprKind::Function { id })
                    &&& t.ty(found.ty) matches Type::FunctionItem { id: of, type_args: _ } && of
                        == id
                    &&& t.diagnostics == s.diagnostics
                    &&& t.accesses == s.accesses.push(
                        AccessRecord {
                            target: AccessTarget::Function(func_index),
                            span: context.at(span),
                        },
                    )
                },
                SymbolKind::Global { global_index } => global_index < s.globals.len() ==> {
                    let global = s.globals[global_index as int];
                    let writes = access.access_kind != AccessKind::Read && global.mut_span is None;
                    &&& found.kind == (ExprKind::Global { id: global.id })
                    &&& found.ty == global.ty.inner
                    &&& writes ==> more_is_reported(s, t)
                    &&& !writes ==> t.diagnostics == s.diagnostics
                    &&& t.accesses == s.accesses.push(
                        AccessRecord {
                            target: AccessTarget::Global(global_index),
                            span: context.at(span),
                        },
                    )
                },
                SymbolKind::Const { const_index } => const_index < s.constants.len() ==> {
                    let constant = s.constants[const_index as int];
                    &&& found.kind == (ExprKind::Const { id: constant.id })
                    &&& found.ty == constant.ty.inner
                    &&& t.diagnostics == s.diagnostics
                    &&& t.accesses == s.accesses.push(
                        AccessRecord {
                            target: AccessTarget::Const(const_index),
                            span: context.at(span),
                        },
                    )
                },
                SymbolKind::Memory { memory_index, kind: of } => memory_index < s.memories.len()
                    ==> {
                    let id = s.memories[memory_index as int].id;
                    &&& found.kind == (ExprKind::Memory { id })
                    &&& t.ty(found.ty) == (Type::Memory { kind: of, id })
                    &&& t.diagnostics == s.diagnostics
                },
                SymbolKind::Enum { .. } | SymbolKind::Module { .. } | SymbolKind::Struct { .. }
                | SymbolKind::Trait { .. } | SymbolKind::TypeSet { .. }
                | SymbolKind::TypeAlias { .. } => found.ty == ty::ERROR && more_is_reported(s, t),
                _ => found.ty == ty::ERROR && t == s,
            }
        }),
{
    reveal(State::report);
    reveal(State::access);
    match kind {
        SymbolKind::Function { func_index } => {
            if func_index < s.functions.len() {
                let function = s.functions[func_index as int];
                let used = s.access(AccessTarget::Function(func_index), context.at(span));
                let found = Type::FunctionItem {
                    id: function.id,
                    type_args: List::repeated(
                        ty::INFER,
                        crate::list::clamp(function.type_params.count()) as nat,
                    ),
                };
                laws::law_interned_type_reads_back(used, found);
                reveal(State::intern);
            }
        },
        SymbolKind::Memory { memory_index, kind: of } => {
            if memory_index < s.memories.len() {
                let used = s.access(AccessTarget::Memory(memory_index), context.at(span));
                laws::law_interned_type_reads_back(
                    used,
                    Type::Memory { kind: of, id: s.memories[memory_index as int].id },
                );
                reveal(State::intern);
            }
        },
        _ => {},
    }
}

/// A local has the type that it was defined with, and its use is recorded with
/// it. A write to one that is not mutable is reported.
pub proof fn law_local_values<'ast>(
    s: State<'ast>,
    ctx: ExprContext,
    access: AccessContext,
    scope_index: usize,
    local_index: usize,
    span: TextSpan,
)
    requires
        ctx.local_at(scope_index, local_index) is Some,
    ensures
        ({
            let local = ctx.local_at(scope_index, local_index)->0;
            let (t, later, found) = s.resolved_symbol_to_expression(
                ctx,
                access,
                ResolvedSymbol::Local { scope_index, local_index },
                span,
            );
            let writes = access.access_kind != AccessKind::Read && local.mut_span is None;
            &&& found.kind == (ExprKind::Local { scope_index, local_index })
            &&& found.ty == local.ty
            &&& writes ==> more_is_reported(s, t)
            &&& !writes ==> t == s
            &&& later.local_at(scope_index, local_index) matches Some(used) && used.ty == local.ty
                && used.name == local.name && used.accesses == local.accesses.snoc(
                LocalAccess { kind: access.access_kind, span },
            )
        }),
{
    reveal(State::resolved_symbol_to_expression);
    reveal(State::report);
    law_use_of_a_local_is_recorded(
        ctx,
        scope_index,
        local_index,
        LocalAccess { kind: access.access_kind, span },
    );
}

/// The use of a local is recorded with that local.
pub proof fn law_use_of_a_local_is_recorded(
    ctx: ExprContext,
    scope_index: usize,
    local_index: usize,
    access: LocalAccess,
)
    requires
        ctx.local_at(scope_index, local_index) is Some,
    ensures
        ({
            let local = ctx.local_at(scope_index, local_index)->0;
            ctx.with_local_access(scope_index, local_index, access).local_at(
                scope_index,
                local_index,
            ) == Some(Local { accesses: local.accesses.snoc(access), ..local })
        }),
{
    let scope = ctx.scope_at(scope_index)->0;
    let local = ctx.local_at(scope_index, local_index)->0;
    let changed = Local { accesses: local.accesses.snoc(access), ..local };
    replaced_reads_back(scope.locals, local_index as nat, changed);
    replaced_reads_back(
        ctx.stack.scopes,
        scope_index as nat,
        crate::tir::BlockScope {
            locals: scope.locals.replaced(local_index as nat, changed),
            ..scope
        },
    );
}

proof fn replaced_reads_back<T>(list: List<T>, index: nat, value: T)
    requires
        list.at(index) is Some,
    ensures
        list.replaced(index, value).at(index) == Some(value),
    decreases list,
{
    match list {
        List::Nil => {},
        List::Cons(_, rest) => {
            if index > 0 {
                replaced_reads_back(*rest, (index - 1) as nat, value);
            }
        },
    }
}

/// A local that is defined is found at the place that it was said to get, and
/// the others stay where they are.
pub proof fn law_defined_local_reads_back(ctx: ExprContext, local: Local)
    requires
        ctx.scope_at(ctx.scope_index) is Some,
        ctx.scope_at(ctx.scope_index)->0.locals.count() <= usize::MAX,
    ensures
        ctx.with_local(local).local_at(ctx.scope_index, ctx.next_local()) == Some(local),
        forall|other: usize|
            other < ctx.next_local() ==> #[trigger] ctx.with_local(local).local_at(
                ctx.scope_index,
                other,
            ) == ctx.local_at(ctx.scope_index, other),
{
    let scope = ctx.scope_at(ctx.scope_index)->0;
    last_reads_back(scope.locals, local);
    replaced_reads_back(
        ctx.stack.scopes,
        ctx.scope_index as nat,
        crate::tir::BlockScope { locals: scope.locals.snoc(local), ..scope },
    );
}

proof fn last_reads_back<T>(list: List<T>, last: T)
    ensures
        list.snoc(last).at(list.count()) == Some(last),
        forall|i: nat| i < list.count() ==> #[trigger] list.snoc(last).at(i) == list.at(i),
        list.snoc(last).count() == list.count() + 1,
    decreases list,
{
    match list {
        List::Nil => {},
        List::Cons(_, rest) => {
            last_reads_back(*rest, last);
            assert forall|i: nat| i < list.count() implies #[trigger] list.snoc(last).at(i)
                == list.at(i) by {
                if i > 0 {
                    assert(list.snoc(last).at(i) == rest.snoc(last).at((i - 1) as nat));
                }
            }
        },
    }
}

/// A name that stands for nothing is reported, and has the type that is
/// expected of it.
pub proof fn law_undeclared_name<'ast>(
    s: State<'ast>,
    ctx: ExprContext,
    access: AccessContext,
    name: Symbol,
    span: TextSpan,
)
    requires
        ctx.local_named(name) is None,
        s.visible_symbol(ctx.resolve_context.namespace, SymbolNamespace::Value, name) is None,
    ensures
        ({
            let (t, later, found) = s.build_name_expression(ctx, access, name, span);
            &&& more_is_reported(s, t)
            &&& same_but_reports(s, t)
            &&& found.kind is Error
            &&& access.expected_type != ty::INFER ==> found.ty == access.expected_type
            &&& access.expected_type == ty::INFER ==> found.ty == ty::ERROR
        }),
{
    reveal(State::build_name_expression);
    reveal(State::report);
}

/// A name stands for the local of that name before anything else.
pub proof fn law_local_before_global<'ast>(
    s: State<'ast>,
    ctx: ExprContext,
    access: AccessContext,
    name: Symbol,
    span: TextSpan,
    scope_index: usize,
    local_index: usize,
)
    requires
        ctx.local_named(name) == Some((scope_index, local_index)),
        ctx.local_at(scope_index, local_index) is Some,
    ensures
        ({
            let (t, later, found) = s.build_name_expression(ctx, access, name, span);
            &&& found.kind == (ExprKind::Local { scope_index, local_index })
            &&& found.ty == ctx.local_at(scope_index, local_index)->0.ty
        }),
{
    reveal(State::build_name_expression);
    law_local_values(s, ctx, access, scope_index, local_index, span);
}

// ---------------------------------------------------------------- members of namespaces

proof fn position_of_a_variant(variants: List<EnumVariant>, name: Symbol, from: usize)
    requires
        from + variants.count() <= usize::MAX,
    ensures
        match lookup::variant_position(&variants, name, from) {
            Some(found) => {
                &&& from <= found
                &&& variants.at((found - from) as nat) matches Some(variant) && variant.name.inner
                    == name
                &&& forall|j: nat|
                    j < found - from ==> ((#[trigger] variants.at(j)) matches Some(earlier)
                        && earlier.name.inner != name)
            },
            None => forall|i: nat|
                (#[trigger] variants.at(i)) matches Some(variant) ==> variant.name.inner != name,
        },
    decreases variants,
{
    match variants {
        List::Nil => {},
        List::Cons(head, rest) => {
            assert(variants.at(0) == Some(*head));
            if head.name.inner != name {
                position_of_a_variant(*rest, name, next_index(from));
                assert forall|i: nat| i > 0 implies #[trigger] variants.at(i) == rest.at(
                    (i - 1) as nat,
                ) by {}
                match lookup::variant_position(&*rest, name, next_index(from)) {
                    Some(found) => {
                        let position = (found - from) as nat;
                        assert(variants.at(position) == rest.at((position - 1) as nat));
                        assert forall|j: nat| j < position implies ((#[trigger] variants.at(
                            j,
                        )) matches Some(earlier) && earlier.name.inner != name) by {
                            if j > 0 {
                                assert(rest.at((j - 1) as nat) == variants.at(j));
                            }
                        }
                    },
                    None => {},
                }
            }
        },
    }
}

/// A name after an enum stands for the variant of that name; where there is
/// none, that is reported.
pub proof fn law_variant_of_an_enum<'ast>(
    s: State<'ast>,
    context: ResolveContext,
    namespace: Spanned<TypeIndex>,
    member: Spanned<Symbol>,
    enum_index: usize,
)
    requires
        s.ty(namespace.inner) == (Type::Enum { enum_index }),
        enum_index < s.enums.len(),
        s.enums[enum_index as int].variants.count() <= usize::MAX,
    ensures
        ({
            let variants = s.enums[enum_index as int].variants;
            let (t, found) = s.resolve_own_member(context, namespace, member);
            match found {
                Some(ResolvedMember::EnumVariant { enum_index: of, variant_index }) => {
                    &&& t == s && of == enum_index
                    &&& variants.at(variant_index as nat) matches Some(variant)
                        && variant.name.inner == member.inner
                },
                Some(_) => false,
                None => {
                    &&& more_is_reported(s, t)
                    &&& forall|i: nat|
                        (#[trigger] variants.at(i)) matches Some(variant) ==> variant.name.inner
                            != member.inner
                },
            }
        }),
{
    reveal(State::resolve_own_member);
    reveal(State::report);
    position_of_a_variant(s.enums[enum_index as int].variants, member.inner, 0);
}

/// A name after a module stands for the function or global of the module;
/// anything else there is reported, and so is a name after what has no names.
pub proof fn law_member_of_a_module<'ast>(
    s: State<'ast>,
    context: ResolveContext,
    namespace: Spanned<TypeIndex>,
    member: Spanned<Symbol>,
)
    requires
        !(s.ty(namespace.inner) is Enum),
    ensures
        ({
            let (t, found) = s.resolve_own_member(context, namespace, member);
            match s.ty(namespace.inner) {
                Type::Namespace { namespace_idx } => match s.direct_symbol(
                    Some(namespace_idx),
                    SymbolNamespace::Value,
                    member.inner,
                ) {
                    Some(SymbolKind::Function { func_index }) => t == s && (
                    found matches Some(ResolvedMember::Function { func_index: of, type_args: _ })
                        && of == func_index),
                    Some(SymbolKind::Global { global_index }) => t == s && found == Some(
                        ResolvedMember::Global { global_index },
                    ),
                    _ => found is None && more_is_reported(s, t),
                },
                _ => found is None && more_is_reported(s, t),
            }
        }),
{
    reveal(State::resolve_own_member);
    reveal(State::report);
}

/// A constant or function that an impl gives stands before the variants and
/// names that the type has of its own.
pub proof fn law_impl_member_before_own_names<'ast>(
    s: State<'ast>,
    context: ResolveContext,
    namespace: Spanned<TypeIndex>,
    member: Spanned<Symbol>,
)
    requires
        !(s.ty(namespace.inner) is TypeParam),
        s.resolve_impl_member(context, namespace.inner, member.inner, member.span).0 == s,
    ensures
        ({
            let (_, lookup) = s.resolve_impl_member(
                context,
                namespace.inner,
                member.inner,
                member.span,
            );
            let (t, found) = s.resolve_namespace_member(context, namespace, member);
            match lookup {
                MemberLookup::Inherent { entry, type_args } => match entry {
                    ImplEntry::AssocConstant(const_index) => t == s && found == Some(
                        ResolvedMember::Const { const_index },
                    ),
                    ImplEntry::Method(func_index) => t == s && found == Some(
                        ResolvedMember::Function { func_index, type_args },
                    ),
                    ImplEntry::AssocFunction(func_index) => t == s && found == Some(
                        ResolvedMember::Function { func_index, type_args },
                    ),
                    ImplEntry::AssocType { .. } => (t, found) == s.resolve_own_member(
                        context,
                        namespace,
                        member,
                    ),
                },
                MemberLookup::Trait { entry, type_args, trait_index: _ } => match entry {
                    ImplEntry::AssocConstant(const_index) => t == s && found == Some(
                        ResolvedMember::Const { const_index },
                    ),
                    ImplEntry::Method(func_index) => t == s && found == Some(
                        ResolvedMember::Function { func_index, type_args },
                    ),
                    ImplEntry::AssocFunction(func_index) => t == s && found == Some(
                        ResolvedMember::Function { func_index, type_args },
                    ),
                    ImplEntry::AssocType { .. } => (t, found) == s.resolve_own_member(
                        context,
                        namespace,
                        member,
                    ),
                },
                MemberLookup::NotFound => (t, found) == s.resolve_own_member(
                    context,
                    namespace,
                    member,
                ),
                MemberLookup::Ambiguous => found is None,
            }
        }),
{
    reveal(State::resolve_namespace_member);
}

/// A constant and a global behind `::` have the types that they are declared
/// with, and a variant has its enum as its type. Each use is recorded.
pub proof fn law_values_of_members<'ast>(
    s: State<'ast>,
    context: ResolveContext,
    namespace: Spanned<TypeIndex>,
    member: ResolvedMember,
    member_span: TextSpan,
    span: TextSpan,
)
    ensures
        ({
            let (t, found) = s.build_member_value(context, namespace, member, member_span, span);
            match member {
                ResolvedMember::Const { const_index } => const_index < s.constants.len() ==> (
                found matches Some(value) && value.ty == s.constants[const_index as int].ty.inner
                    && (value.kind matches ExprKind::NamespaceAccess { namespace: _, member: inner }
                    && inner.kind == (ExprKind::Const { id: s.constants[const_index as int].id }))),
                ResolvedMember::Global { global_index } => global_index < s.globals.len() ==> (
                found matches Some(value) && value.ty == s.globals[global_index as int].ty.inner
                    && (value.kind matches ExprKind::NamespaceAccess { namespace: _, member: inner }
                    && inner.kind == (ExprKind::Global { id: s.globals[global_index as int].id }))),
                ResolvedMember::EnumVariant { enum_index, variant_index } => (
                found matches Some(value) && value.ty == namespace.inner && (
                value.kind matches ExprKind::NamespaceAccess { namespace: _, member: inner }
                    && inner.kind == (ExprKind::EnumVariant { enum_index, variant_index })))
                    && t.accesses == s.accesses.push(
                    AccessRecord {
                        target: AccessTarget::EnumVariant(enum_index, variant_index),
                        span: context.at(member_span),
                    },
                ),
                ResolvedMember::Function { .. } => t == s && found is None,
            }
        }),
        s.build_member_value(context, namespace, member, member_span, span).0.diagnostics
            == s.diagnostics,
{
    reveal(State::build_member_value);
    reveal(State::access);
}

/// A reference to a function has the function as its type, with the type
/// arguments, and is recorded as a use of it.
pub proof fn law_reference_to_a_function<'ast>(
    s: State<'ast>,
    func_index: usize,
    type_args: List<TypeIndex>,
    used_at: crate::span::SourceSpan,
    span: TextSpan,
)
    requires
        func_index < s.functions.len(),
        s.types.len() < usize::MAX,
    ensures
        ({
            let (t, found) = s.function_reference(func_index, type_args, used_at, span);
            let id = s.functions[func_index as int].id;
            &&& found.kind == (ExprKind::Function { id })
            &&& t.ty(found.ty) == (Type::FunctionItem { id, type_args })
            &&& t.diagnostics == s.diagnostics
            &&& t.accesses == s.accesses.push(
                AccessRecord { target: AccessTarget::Function(func_index), span: used_at },
            )
        }),
{
    reveal(State::function_reference);
    reveal(State::access);
    let used = s.access(AccessTarget::Function(func_index), used_at);
    laws::law_interned_type_reads_back(
        used,
        Type::FunctionItem { id: s.functions[func_index as int].id, type_args },
    );
    reveal(State::intern);
}

} // verus!
