//! What fails says so: where a name, a member or a memory is not found, where a
//! field is not accessible or an impl is not complete, something was reported.

use vstd::prelude::*;

use crate::diagnostics::{Diagnostic, DiagnosticCode};
use crate::growth;
use crate::list::List;
use crate::members::MemberLookup;
use crate::pool;
use crate::relate::MAX_DEPTH;
use crate::signatures;
use crate::span::{SourceSpan, Spanned, Symbol, TextSpan};
use crate::state::{ImplTarget, State};
use crate::substitute;
use crate::tir::{
    AccessRecord, AccessTarget, ImplEntry, Member, ResolveContext, SymbolKind, SymbolNamespace,
};
use crate::ty;
use crate::types::{Type, TypeIndex};
use crate::typing::{FieldAccessKind, ResolvedField};

verus! {

/// Whether more was reported later.
pub open spec fn more_is_reported<'ast>(s: State<'ast>, later: State<'ast>) -> bool {
    s.diagnostics.len() < later.diagnostics.len()
}

proof fn reporting_is_kept<'ast>(s: State<'ast>, between: State<'ast>, later: State<'ast>)
    requires
        s.only_adds(between),
        between.only_adds(later),
        more_is_reported(s, between) || more_is_reported(between, later),
    ensures
        more_is_reported(s, later),
{
    reveal(State::only_adds);
    reveal(State::grows_to);
}

/// A member that more than one impl or trait gives is reported.
pub proof fn law_ambiguous_member_is_reported<'ast>(
    s: State<'ast>,
    context: ResolveContext,
    target_type: TypeIndex,
    member: Symbol,
    span: TextSpan,
)
    requires
        s.resolve_impl_member(context, target_type, member, span).1 is Ambiguous,
    ensures
        more_is_reported(s, s.resolve_impl_member(context, target_type, member, span).0),
{
    reveal(State::resolve_impl_member);
    reveal(State::resolve_inherent_member);
    reveal(State::choose_trait_candidate);
    reveal(State::report);
}

/// A method call that leads to no method is reported, unless the type of the
/// receiver is poisoned and so was reported before.
pub proof fn law_missing_method_is_reported<'ast>(
    s: State<'ast>,
    context: ResolveContext,
    receiver: Spanned<TypeIndex>,
    method: Spanned<Symbol>,
)
    requires
        s.resolve_method_call(context, receiver, method).1 is None,
        (match s.ty(receiver.inner) {
            Type::Pointer { to, .. } => to,
            _ => receiver.inner,
        }) != ty::ERROR,
    ensures
        more_is_reported(s, s.resolve_method_call(context, receiver, method).0),
{
    reveal(State::resolve_method_call);
    let lookup_ty = match s.ty(receiver.inner) {
        Type::Pointer { to, .. } => to,
        _ => receiver.inner,
    };
    s.adds_resolve_impl_member(context, lookup_ty, method.inner, method.span);
    let (t, lookup) = s.resolve_impl_member(context, lookup_ty, method.inner, method.span);
    let later = s.resolve_method_call(context, receiver, method).0;
    match lookup {
        MemberLookup::Inherent { entry, type_args } => {
            reveal(State::method_of_entry);
            reveal(State::report);
            t.adds_method_of_entry(context, receiver, method, lookup_ty, entry, type_args);
            reporting_is_kept(s, t, later);
        },
        MemberLookup::Trait { entry, type_args, trait_index } => {
            t.adds_record_abstract_dispatch_access(
                trait_index,
                method.inner,
                context.at(method.span),
            );
            t.adds_nothing();
            let is_param = t.ty(lookup_ty) is TypeParam;
            let u = if is_param {
                t.record_abstract_dispatch_access(
                    trait_index,
                    method.inner,
                    context.at(method.span),
                )
            } else {
                t
            };
            u.adds_method_of_entry(context, receiver, method, lookup_ty, entry, type_args);
            assert(more_is_reported(u, later)) by {
                reveal(State::method_of_entry);
                reveal(State::report);
            }
            reporting_is_kept(t, u, later);
            growth::law_adding_chains(t, u, later);
            reporting_is_kept(s, t, later);
        },
        MemberLookup::NotFound => {
            reveal(State::report);
            assert(more_is_reported(t, later));
            assert(growth::extends(s.diagnostics, t.diagnostics)) by {
                reveal(State::only_adds);
                reveal(State::grows_to);
            }
        },
        MemberLookup::Ambiguous => {
            law_ambiguous_member_is_reported(s, context, lookup_ty, method.inner, method.span);
        },
    }
}

/// A name after `::` that stands for nothing is reported.
pub proof fn law_missing_member_is_reported<'ast>(
    s: State<'ast>,
    context: ResolveContext,
    namespace: Spanned<TypeIndex>,
    member: Spanned<Symbol>,
)
    requires
        s.resolve_namespace_member(context, namespace, member).1 is None,
    ensures
        more_is_reported(s, s.resolve_namespace_member(context, namespace, member).0),
{
    reveal(State::resolve_namespace_member);
    s.adds_resolve_impl_member(context, namespace.inner, member.inner, member.span);
    let (t, lookup) = s.resolve_impl_member(
        context,
        namespace.inner,
        member.inner,
        member.span,
    );
    let later = s.resolve_namespace_member(context, namespace, member).0;
    t.adds_nothing();
    match lookup {
        MemberLookup::Ambiguous => {
            law_ambiguous_member_is_reported(
                s,
                context,
                namespace.inner,
                member.inner,
                member.span,
            );
        },
        MemberLookup::Trait { entry, type_args, trait_index } => {
            t.adds_record_abstract_dispatch_access(
                trait_index,
                member.inner,
                context.at(member.span),
            );
            let u = if t.ty(namespace.inner) is TypeParam {
                t.record_abstract_dispatch_access(
                    trait_index,
                    member.inner,
                    context.at(member.span),
                )
            } else {
                t
            };
            missing_own_member_is_reported(u, context, namespace, member);
            u.adds_resolve_own_member(context, namespace, member);
            growth::law_adding_chains(s, t, u);
            reporting_is_kept(s, u, later);
        },
        _ => {
            missing_own_member_is_reported(t, context, namespace, member);
            t.adds_resolve_own_member(context, namespace, member);
            reporting_is_kept(s, t, later);
        },
    }
}

proof fn missing_own_member_is_reported<'ast>(
    s: State<'ast>,
    context: ResolveContext,
    namespace: Spanned<TypeIndex>,
    member: Spanned<Symbol>,
)
    ensures
        s.resolve_own_member(context, namespace, member).1 is None ==> more_is_reported(
            s,
            s.resolve_own_member(context, namespace, member).0,
        ),
{
    reveal(State::resolve_own_member);
    reveal(State::report);
}

/// A name whose definition is being resolved needs itself: that is reported,
/// and only then is there no answer.
pub proof fn law_cycle_is_reported<'ast>(
    s: State<'ast>,
    namespace: Option<usize>,
    space: SymbolNamespace,
    name: Symbol,
    span: SourceSpan,
    depth: usize,
)
    ensures
        ({
            let (t, answer) = s.resolve_pending_global_symbol(
                namespace,
                space,
                name,
                span,
                signatures::resolver(depth),
            );
            &&& (answer is None) == (s.visible_symbol(namespace, space, name) matches Some(
                SymbolKind::Pending(id),
            ) && s.is_in_progress(id))
            &&& answer is None ==> more_is_reported(s, t)
        }),
{
    reveal(State::report);
}

/// A pointer that names no memory where the program has none, or several, is
/// reported; otherwise its memory is found.
pub proof fn law_missing_memory_is_reported<'ast>(s: State<'ast>, span: SourceSpan, depth: usize)
    requires
        s.memories.len() <= usize::MAX,
    ensures
        ({
            let (t, memory) = s.resolve_ambient_memory(span, signatures::resolver(depth));
            &&& memory is Some <==> s.memories.len() == 1
            &&& memory is None ==> more_is_reported(s, t)
        }),
{
    reveal(State::report);
}

/// A member of an impl of the type itself comes before every member that a
/// trait gives.
pub proof fn law_inherent_member_comes_first<'ast>(
    s: State<'ast>,
    context: ResolveContext,
    target_type: TypeIndex,
    member: Symbol,
    span: TextSpan,
    target: ImplTarget,
)
    requires
        s.ty(target_type) !is TypeParam,
        substitute::impl_target(target_type, s.ty(target_type)) == Some(target),
        s.resolve_inherent_member(target, target_type, member, context.at(span)).1 is Some,
    ensures
        ({
            let (t, found) = s.resolve_inherent_member(
                target,
                target_type,
                member,
                context.at(span),
            );
            s.resolve_impl_member(context, target_type, member, span) == (t, found->0)
        }),
{
    reveal(State::resolve_impl_member);
}

/// Whether a field is accessible where it is used.
pub open spec fn field_is_accessible<'ast>(
    s: State<'ast>,
    context: ResolveContext,
    struct_index: usize,
    index: usize,
) -> bool {
    s.is_accessible_from(
        context.namespace,
        s.structs[struct_index as int].namespace,
        s.field_visibility(struct_index, index),
    )
}

/// A field that a struct has is found with its type, accessible or not, and
/// its use is recorded. One that is not accessible is reported once; nothing
/// else is reported.
pub proof fn law_private_field_is_reported_and_found<'ast>(
    s: State<'ast>,
    context: ResolveContext,
    struct_index: usize,
    args: &List<TypeIndex>,
    name: Spanned<Symbol>,
    kind: FieldAccessKind,
)
    ensures
        ({
            let (t, found) = s.resolve_struct_field(context, struct_index, args, name, kind);
            match s.declared_field(struct_index, name.inner) {
                Some((index, declared)) => {
                    &&& found matches Some(field) && field.index == index && (args.is_empty()
                        ==> field.ty == declared)
                    &&& t.accesses == s.accesses.push(
                        AccessRecord {
                            target: match kind {
                                FieldAccessKind::Read => AccessTarget::FieldRead(
                                    struct_index,
                                    index,
                                ),
                                FieldAccessKind::Init => AccessTarget::FieldInit(
                                    struct_index,
                                    index,
                                ),
                            },
                            span: context.at(name.span),
                        },
                    )
                    &&& field_is_accessible(s, context, struct_index, index) ==> t.diagnostics
                        == s.diagnostics
                    &&& !field_is_accessible(s, context, struct_index, index) ==> {
                        &&& t.diagnostics.len() == s.diagnostics.len() + 1
                        &&& t.diagnostics.last().code == Some(DiagnosticCode::PrivateField)
                        &&& growth::extends(s.diagnostics, t.diagnostics)
                    }
                },
                None => (t, found) == (s, None::<ResolvedField>),
            }
        }),
{
    reveal(State::resolve_struct_field);
    reveal(State::check_field_access);
    reveal(State::access);
    reveal(State::report);
    match s.declared_field(struct_index, name.inner) {
        Some((index, declared)) => {
            let target = match kind {
                FieldAccessKind::Read => AccessTarget::FieldRead(struct_index, index),
                FieldAccessKind::Init => AccessTarget::FieldInit(struct_index, index),
            };
            let used = s.access(target, context.at(name.span));
            let checked = used.check_field_access(context, struct_index, index, name.span);
            namespaces_alike(
                s,
                used,
                context.namespace,
                s.structs[struct_index as int].namespace,
                s.namespaces.len(),
            );
            pool::law_substitution_changes_types_alone(checked, declared, *args, MAX_DEPTH);
        },
        None => {},
    }
}

proof fn namespaces_alike<'ast>(
    s: State<'ast>,
    t: State<'ast>,
    inner: Option<usize>,
    outer: Option<usize>,
    steps: nat,
)
    requires
        s.namespaces == t.namespaces,
    ensures
        s.is_within_steps(inner, outer, steps) == t.is_within_steps(inner, outer, steps),
    decreases steps,
{
    match inner {
        Some(index) => {
            if steps > 0 {
                namespaces_alike(s, t, s.namespace_around(index), outer, (steps - 1) as nat);
            }
        },
        None => {},
    }
}

/// Whether an impl has every member that its trait asks for.
pub open spec fn provides_all<'ast>(
    s: State<'ast>,
    required: &List<Member>,
    provided: &List<Member>,
) -> bool
    decreases required,
{
    match required {
        List::Nil => true,
        List::Cons(member, rest) => {
            &&& s.required_kind(member.entry) is Some ==> substitute::member_entry(
                *provided,
                member.name,
            ) is Some
            &&& provides_all(s, rest, provided)
        },
    }
}

/// What a trait declares without a body is asked of its impls, whether it
/// takes `self` or not.
pub proof fn law_required_functions_are_alike<'ast>(s: State<'ast>, func_index: usize)
    ensures
        s.required_kind(ImplEntry::AssocFunction(func_index)) == s.required_kind(
            ImplEntry::Method(func_index),
        ),
        func_index < s.functions.len() ==> (s.required_kind(ImplEntry::Method(func_index)) is Some
            <==> s.functions[func_index as int].body is None),
{
}

proof fn missing_members_are_listed<'ast>(
    s: State<'ast>,
    required: &List<Member>,
    provided: &List<Member>,
    trait_name: Symbol,
    span: SourceSpan,
)
    ensures
        provides_all(s, required, provided) <==> s.missing_members(
            required,
            provided,
            trait_name,
            span,
        ) is Nil,
    decreases required,
{
    match required {
        List::Nil => {},
        List::Cons(_, rest) => {
            missing_members_are_listed(s, rest, provided, trait_name, span);
        },
    }
}

proof fn all_are_reported<'ast>(s: State<'ast>, diagnostics: List<Diagnostic>)
    ensures
        s.report_all(diagnostics).diagnostics == s.diagnostics + diagnostics@,
    decreases diagnostics,
{
    reveal(State::report);
    match diagnostics {
        List::Nil => {},
        List::Cons(first, rest) => {
            all_are_reported(s.report(*first), *rest);
        },
    }
}

/// An impl that lacks a member its trait asks for is reported; one that lacks
/// none, of a trait without supertraits, is not.
pub proof fn law_incomplete_impl_is_reported<'ast>(s: State<'ast>, impl_index: usize)
    requires
        impl_index < s.trait_impls.len(),
        s.trait_impls[impl_index as int].trait_index < s.traits.len(),
    ensures
        ({
            let implementation = s.trait_impls[impl_index as int];
            let declaration = s.traits[implementation.trait_index as int];
            let t = s.check_impl_conformance(impl_index);
            &&& !provides_all(s, &declaration.members, &implementation.members)
                ==> more_is_reported(s, t)
            &&& provides_all(s, &declaration.members, &implementation.members)
                && declaration.supertraits is Nil ==> t == s
        }),
{
    let implementation = s.trait_impls[impl_index as int];
    let declaration = s.traits[implementation.trait_index as int];
    let (missing, supertraits) = s.impl_violations(impl_index);
    missing_members_are_listed(
        s,
        &declaration.members,
        &implementation.members,
        declaration.name.inner,
        SourceSpan::new(implementation.file_id, implementation.span),
    );
    all_are_reported(s, missing);
    all_are_reported(s.report_all(missing), supertraits);
    assert(missing !is Nil ==> missing@.len() > 0);
}

} // verus!
