//! Items as a whole: which of them are there for nothing, what is exported,
//! and what an impl lacks.

use vstd::prelude::*;

use crate::ast::ExportEntry;
use crate::bodies;
use crate::diagnostics::Diagnostic;
use crate::failures::more_is_reported;
use crate::list::List;
use crate::rules::bounds::same_but_reports;
use crate::scope::next_index;
use crate::span::{DefId, FileId, SourceSpan, Spanned, Symbol};
use crate::state::State;
use crate::tir::{
    AccessTarget, EnumVariant, ExportItem, ExportTarget, Function, StructField, SymbolKind,
    SymbolNamespace, TypeParamInfo,
};
use crate::types::{TypeIndex, TypeParamOwner};

verus! {

/// Everything in a list is reported, once each.
pub proof fn law_all_are_reported<'ast>(s: State<'ast>, reports: List<Diagnostic>)
    ensures
        ({
            let t = s.report_all(reports);
            &&& t.diagnostics.len() == s.diagnostics.len() + reports.count()
            &&& same_but_reports(s, t)
            &&& reports is Nil ==> t == s
        }),
    decreases reports,
{
    reveal(State::report);
    match reports {
        List::Nil => {},
        List::Cons(head, rest) => {
            law_all_are_reported(s.report(*head), *rest);
        },
    }
}

// ---------------------------------------------------------------- unused items

/// Whether a namespace is that of an import.
pub open spec fn is_imported<'ast>(s: State<'ast>, namespace: Option<usize>) -> bool {
    namespace matches Some(index) && index < s.namespaces.len() && s.namespaces[
        index as int
    ].declaration is Import
}

/// Whether one of a function's own type parameters is never used.
pub open spec fn has_idle_param<'ast>(s: State<'ast>, function: Function) -> bool {
    exists|i: nat|
        (#[trigger] function.type_params.at(i)) is Some && !s.is_accessed(
            AccessTarget::TypeParam(
                TypeParamOwner::Function(function.id),
                own_param_index(function, i),
            ),
        )
}

/// The index of a function's own type parameter in its whole list.
pub open spec fn own_param_index(function: Function, position: nat) -> usize {
    (function.inherited_type_param_count + position) as usize
}

proof fn idle_params_are_listed<'ast>(
    s: State<'ast>,
    id: DefId,
    file_id: FileId,
    params: List<TypeParamInfo>,
    index: usize,
)
    requires
        index + params.count() <= usize::MAX,
    ensures
        s.unused_type_params(id, file_id, &params, index) is Nil <==> (forall|i: nat|
            (#[trigger] params.at(i)) is Some ==> s.is_accessed(
                AccessTarget::TypeParam(TypeParamOwner::Function(id), (index + i) as usize),
            )),
    decreases params,
{
    match params {
        List::Nil => {},
        List::Cons(head, rest) => {
            idle_params_are_listed(s, id, file_id, *rest, next_index(index));
            assert(params.at(0) == Some(*head));
            assert forall|i: nat| #[trigger] rest.at(i) == params.at(i + 1) by {}
            let used = s.is_accessed(AccessTarget::TypeParam(TypeParamOwner::Function(id), index));
            if s.unused_type_params(id, file_id, &params, index) is Nil {
                assert forall|i: nat| (#[trigger] params.at(i)) is Some implies s.is_accessed(
                    AccessTarget::TypeParam(TypeParamOwner::Function(id), (index + i) as usize),
                ) by {
                    if i > 0 {
                        assert(rest.at((i - 1) as nat) == params.at(i));
                        assert((next_index(index) + (i - 1)) as usize == (index + i) as usize);
                    }
                }
            } else if used {
                let i = choose|i: nat|
                    !((#[trigger] rest.at(i)) is Some ==> s.is_accessed(
                        AccessTarget::TypeParam(
                            TypeParamOwner::Function(id),
                            (next_index(index) + i) as usize,
                        ),
                    ));
                assert(params.at(i + 1) == rest.at(i));
                assert((next_index(index) + i) as usize == (index + (i + 1)) as usize);
            } else {
                assert((index + 0) as usize == index);
            }
        },
    }
}

/// A function is reported exactly where it is neither public nor of a trait
/// and nothing uses it, or nothing uses one of its own type parameters; one
/// that the compiler provides or that is imported never is.
pub proof fn law_unused_function<'ast>(s: State<'ast>, func_index: usize)
    requires
        func_index < s.functions.len(),
        s.functions[func_index as int].inherited_type_param_count + s.functions[
            func_index as int
        ].type_params.count() <= usize::MAX,
    ensures
        ({
            let function = s.functions[func_index as int];
            let outside = bodies::lists_intrinsic(&function.attributes) || is_imported(
                s,
                function.namespace,
            );
            let needed = function.pub_span is Some || (
            function.type_param_parent matches Some(parent) && parent is Trait) || s.is_accessed(
                AccessTarget::Function(func_index),
            );
            let t = s.check_function_use(func_index);
            &&& outside || (needed && !has_idle_param(s, function)) ==> t == s
            &&& !outside && (!needed || has_idle_param(s, function)) ==> more_is_reported(s, t)
            &&& same_but_reports(s, t)
        }),
{
    let function = s.functions[func_index as int];
    idle_params_are_listed(
        s,
        function.id,
        function.file_id,
        function.type_params,
        function.inherited_type_param_count,
    );
    let reports = s.unused_of_function(func_index);
    law_all_are_reported(s, reports);
    let listed = s.unused_type_params(
        function.id,
        function.file_id,
        &function.type_params,
        function.inherited_type_param_count,
    );
    if has_idle_param(s, function) {
        let i = choose|i: nat|
            (#[trigger] function.type_params.at(i)) is Some && !s.is_accessed(
                AccessTarget::TypeParam(
                    TypeParamOwner::Function(function.id),
                    own_param_index(function, i),
                ),
            );
        assert(function.type_params.at(i) is Some);
        assert(own_param_index(function, i) == (function.inherited_type_param_count + i) as usize);
        assert(!(listed is Nil));
        assert(listed.count() > 0);
    } else {
        assert forall|i: nat| (#[trigger] function.type_params.at(i)) is Some implies s.is_accessed(
            AccessTarget::TypeParam(
                TypeParamOwner::Function(function.id),
                (function.inherited_type_param_count + i) as usize,
            ),
        ) by {
            assert(own_param_index(function, i) == (function.inherited_type_param_count
                + i) as usize);
        }
        assert(listed is Nil);
    }
    assert(!(reports is Nil) ==> reports.count() > 0);
}

/// A global is reported exactly where it is not imported and nothing uses it.
pub proof fn law_unused_global<'ast>(s: State<'ast>, index: usize)
    requires
        index < s.globals.len(),
    ensures
        ({
            let t = s.check_global_use(index);
            let idle = !is_imported(s, s.globals[index as int].namespace) && !s.is_accessed(
                AccessTarget::Global(index),
            );
            &&& idle ==> more_is_reported(s, t)
            &&& !idle ==> t == s
        }),
{
    law_all_are_reported(s, s.unused_of_global(index));
    reveal_with_fuel(List::count, 2);
}

/// A constant is reported exactly where it is not public, has a value, and
/// nothing uses it.
pub proof fn law_unused_constant<'ast>(s: State<'ast>, index: usize)
    requires
        index < s.constants.len(),
    ensures
        ({
            let constant = s.constants[index as int];
            let t = s.check_constant_use(index);
            let idle = constant.pub_span is None && constant.value is Some && !s.is_accessed(
                AccessTarget::Const(index),
            );
            &&& idle ==> more_is_reported(s, t)
            &&& !idle ==> t == s
        }),
{
    law_all_are_reported(s, s.unused_of_constant(index));
    reveal_with_fuel(List::count, 2);
}

/// Whether a field is given values that nothing reads, and is not public.
pub open spec fn is_unread<'ast>(
    s: State<'ast>,
    struct_index: usize,
    field: StructField,
    position: usize,
) -> bool {
    &&& field.pub_span is None
    &&& s.is_accessed(AccessTarget::FieldInit(struct_index, position))
    &&& !s.is_accessed(AccessTarget::FieldRead(struct_index, position))
}

proof fn unread_fields_are_listed<'ast>(
    s: State<'ast>,
    struct_index: usize,
    file_id: FileId,
    fields: List<StructField>,
    index: usize,
)
    requires
        index + fields.count() <= usize::MAX,
    ensures
        s.unread_fields(struct_index, file_id, &fields, index) is Nil <==> (forall|i: nat|
            (#[trigger] fields.at(i)) matches Some(field) ==> !is_unread(
                s,
                struct_index,
                field,
                (index + i) as usize,
            )),
    decreases fields,
{
    match fields {
        List::Nil => {},
        List::Cons(head, rest) => {
            unread_fields_are_listed(s, struct_index, file_id, *rest, next_index(index));
            assert(fields.at(0) == Some(*head));
            assert forall|i: nat| #[trigger] rest.at(i) == fields.at(i + 1) by {}
            if s.unread_fields(struct_index, file_id, &fields, index) is Nil {
                assert forall|i: nat| (#[trigger] fields.at(i)) is Some implies !is_unread(
                    s,
                    struct_index,
                    fields.at(i)->0,
                    (index + i) as usize,
                ) by {
                    if i > 0 {
                        assert(rest.at((i - 1) as nat) == fields.at(i));
                        assert((next_index(index) + (i - 1)) as usize == (index + i) as usize);
                    }
                }
            } else if !is_unread(s, struct_index, *head, index) {
                let i = choose|i: nat|
                    !((#[trigger] rest.at(i)) matches Some(field) ==> !is_unread(
                        s,
                        struct_index,
                        field,
                        (next_index(index) + i) as usize,
                    ));
                assert(fields.at(i + 1) == rest.at(i));
                assert((next_index(index) + i) as usize == (index + (i + 1)) as usize);
            } else {
                assert((index + 0) as usize == index);
            }
        },
    }
}

/// A struct is reported exactly where it is not public and nothing uses it, or
/// where it is used and one of its fields is given values that nothing reads.
pub proof fn law_unused_struct<'ast>(s: State<'ast>, index: usize)
    requires
        index < s.structs.len(),
        s.structs[index as int].fields.count() <= usize::MAX,
    ensures
        ({
            let item = s.structs[index as int];
            let t = s.check_struct_use(index);
            let idle = item.pub_span is None && !s.is_accessed(AccessTarget::Struct(index));
            let unread = exists|i: nat|
                (#[trigger] item.fields.at(i)) matches Some(field) && is_unread(
                    s,
                    index,
                    field,
                    (0 + i) as usize,
                );
            &&& idle || unread ==> more_is_reported(s, t)
            &&& !idle && !unread ==> t == s
        }),
{
    let item = s.structs[index as int];
    let reports = s.unused_of_struct(index);
    law_all_are_reported(s, reports);
    unread_fields_are_listed(s, index, item.file_id, item.fields, 0);
    reveal_with_fuel(List::count, 2);
    assert(!(reports is Nil) ==> reports.count() > 0);
}

proof fn idle_variants_are_listed<'ast>(
    s: State<'ast>,
    enum_index: usize,
    variants: List<EnumVariant>,
    index: usize,
)
    requires
        index + variants.count() <= usize::MAX,
    ensures
        s.unused_variants(enum_index, &variants, index) is Nil <==> (forall|i: nat|
            (#[trigger] variants.at(i)) is Some ==> s.is_accessed(
                AccessTarget::EnumVariant(enum_index, (index + i) as usize),
            )),
    decreases variants,
{
    match variants {
        List::Nil => {},
        List::Cons(head, rest) => {
            idle_variants_are_listed(s, enum_index, *rest, next_index(index));
            assert(variants.at(0) == Some(*head));
            assert forall|i: nat| #[trigger] rest.at(i) == variants.at(i + 1) by {}
            if s.unused_variants(enum_index, &variants, index) is Nil {
                assert forall|i: nat| (#[trigger] variants.at(i)) is Some implies s.is_accessed(
                    AccessTarget::EnumVariant(enum_index, (index + i) as usize),
                ) by {
                    if i > 0 {
                        assert(rest.at((i - 1) as nat) == variants.at(i));
                        assert((next_index(index) + (i - 1)) as usize == (index + i) as usize);
                    }
                }
            } else if s.is_accessed(AccessTarget::EnumVariant(enum_index, index)) {
                let i = choose|i: nat|
                    !((#[trigger] rest.at(i)) is Some ==> s.is_accessed(
                        AccessTarget::EnumVariant(enum_index, (next_index(index) + i) as usize),
                    ));
                assert(variants.at(i + 1) == rest.at(i));
                assert((next_index(index) + i) as usize == (index + (i + 1)) as usize);
            } else {
                assert((index + 0) as usize == index);
            }
        },
    }
}

/// An enum is reported exactly where it is not public and nothing uses it, or
/// where nothing uses one of its variants.
pub proof fn law_unused_enum<'ast>(s: State<'ast>, index: usize)
    requires
        index < s.enums.len(),
        s.enums[index as int].variants.count() <= usize::MAX,
    ensures
        ({
            let item = s.enums[index as int];
            let t = s.check_enum_use(index);
            let idle = item.pub_span is None && !s.is_accessed(AccessTarget::Enum(index));
            let idle_variant = exists|i: nat|
                (#[trigger] item.variants.at(i)) is Some && !s.is_accessed(
                    AccessTarget::EnumVariant(index, (0 + i) as usize),
                );
            &&& idle || idle_variant ==> more_is_reported(s, t)
            &&& !idle && !idle_variant ==> t == s
        }),
{
    let item = s.enums[index as int];
    let reports = s.unused_of_enum(index);
    law_all_are_reported(s, reports);
    idle_variants_are_listed(s, index, item.variants, 0);
    reveal_with_fuel(List::count, 2);
    assert(!(reports is Nil) ==> reports.count() > 0);
}

/// Every function of the program is checked for uses.
pub proof fn law_every_function_is_checked<'ast>(
    s: State<'ast>,
    from: int,
    end: int,
    func_index: usize,
)
    requires
        0 <= from <= func_index < end <= s.functions.len() <= usize::MAX,
        !(s.unused_of_function(func_index) is Nil),
    ensures
        more_is_reported(s, s.check_function_uses_from(from, end)),
    decreases end - from,
{
    let reports = s.unused_of_function(from as usize);
    law_all_are_reported(s, reports);
    let t = s.check_function_use(from as usize);
    if from == func_index {
        assert(reports.count() > 0);
        t.adds_check_function_uses_from(from + 1, end);
        reveal(State::only_adds);
        reveal(State::grows_to);
    } else {
        uses_do_not_depend_on_reports(s, t, func_index);
        law_every_function_is_checked(t, from + 1, end, func_index);
    }
}

proof fn uses_do_not_depend_on_reports<'ast>(s: State<'ast>, t: State<'ast>, func_index: usize)
    requires
        same_but_reports(s, t),
        func_index < s.functions.len(),
    ensures
        s.unused_of_function(func_index) == t.unused_of_function(func_index),
{
    let function = s.functions[func_index as int];
    params_do_not_depend_on_reports(
        s,
        t,
        function.id,
        function.file_id,
        function.type_params,
        function.inherited_type_param_count,
    );
    same_uses(s, t, AccessTarget::Function(func_index));
}

proof fn same_uses<'ast>(s: State<'ast>, t: State<'ast>, target: AccessTarget)
    requires
        s.accesses == t.accesses,
    ensures
        s.is_accessed(target) == t.is_accessed(target),
{
}

proof fn params_do_not_depend_on_reports<'ast>(
    s: State<'ast>,
    t: State<'ast>,
    id: DefId,
    file_id: FileId,
    params: List<TypeParamInfo>,
    index: usize,
)
    requires
        s.accesses == t.accesses,
    ensures
        s.unused_type_params(id, file_id, &params, index) == t.unused_type_params(
            id,
            file_id,
            &params,
            index,
        ),
    decreases params,
{
    match params {
        List::Nil => {},
        List::Cons(head, rest) => {
            same_uses(s, t, AccessTarget::TypeParam(TypeParamOwner::Function(id), index));
            params_do_not_depend_on_reports(s, t, id, file_id, *rest, next_index(index));
        },
    }
}

// ---------------------------------------------------------------- supertraits

/// The target of an impl that lacks an impl of a supertrait is reported, and
/// one that has them all is not on that account.
pub proof fn law_missing_supertraits<'ast>(
    s: State<'ast>,
    supertraits: List<usize>,
    target: TypeIndex,
    trait_name: Symbol,
    span: SourceSpan,
)
    ensures
        s.missing_supertraits(&supertraits, target, trait_name, span) is Nil <==> (forall|i: nat|
            (#[trigger] supertraits.at(i)) matches Some(needed) ==> s.trait_impl_for(target, needed)
                is Some),
    decreases supertraits,
{
    match supertraits {
        List::Nil => {},
        List::Cons(head, rest) => {
            law_missing_supertraits(s, *rest, target, trait_name, span);
            assert(supertraits.at(0) == Some(*head));
            assert forall|i: nat| #[trigger] rest.at(i) == supertraits.at(i + 1) by {}
            if s.missing_supertraits(&supertraits, target, trait_name, span) is Nil {
                assert forall|i: nat| (#[trigger] supertraits.at(i)) is Some implies s.trait_impl_for(
                    target,
                    supertraits.at(i)->0,
                ) is Some by {
                    if i > 0 {
                        assert(rest.at((i - 1) as nat) == supertraits.at(i));
                    }
                }
            }
        },
    }
}

/// An impl whose target lacks an impl of a supertrait is reported.
pub proof fn law_impl_without_a_supertrait<'ast>(
    s: State<'ast>,
    impl_index: usize,
    position: nat,
)
    requires
        impl_index < s.trait_impls.len(),
        s.trait_impls[impl_index as int].trait_index < s.traits.len(),
        ({
            let implementation = s.trait_impls[impl_index as int];
            let declaration = s.traits[implementation.trait_index as int];
            declaration.supertraits.at(position) matches Some(needed) && s.trait_impl_for(
                implementation.target.inner,
                needed,
            ) is None
        }),
    ensures
        more_is_reported(s, s.check_impl_conformance(impl_index)),
{
    let implementation = s.trait_impls[impl_index as int];
    let declaration = s.traits[implementation.trait_index as int];
    let span = SourceSpan::new(implementation.file_id, implementation.span);
    law_missing_supertraits(
        s,
        declaration.supertraits,
        implementation.target.inner,
        declaration.name.inner,
        span,
    );
    let (missing, lacking) = s.impl_violations(impl_index);
    law_all_are_reported(s, missing);
    law_all_are_reported(s.report_all(missing), lacking);
    assert(lacking.count() > 0);
}

// ---------------------------------------------------------------- exports

/// A function that is not generic, a global and a memory of the root can be
/// exported. A generic function, any other item and a name that stands for
/// nothing are reported.
pub proof fn law_what_can_be_exported<'ast>(
    s: State<'ast>,
    file_id: FileId,
    name: Spanned<Symbol>,
)
    ensures
        ({
            let (t, found) = s.export_target(file_id, name);
            match s.direct_symbol(None, SymbolNamespace::Value, name.inner) {
                Some(SymbolKind::Function { func_index }) => func_index < s.functions.len() ==> {
                    let function = s.functions[func_index as int];
                    let generic = function.inherited_type_param_count > 0 || function.type_params
                        is Cons;
                    &&& !generic ==> found == Some(ExportTarget::Function(function.id))
                        && t.diagnostics == s.diagnostics
                    &&& generic ==> found is None && more_is_reported(s, t)
                },
                Some(SymbolKind::Global { global_index }) => global_index < s.globals.len()
                    ==> found == Some(ExportTarget::Global(s.globals[global_index as int].id))
                    && t.diagnostics == s.diagnostics,
                Some(SymbolKind::Memory { memory_index, kind: _ }) => memory_index
                    < s.memories.len() ==> found == Some(
                    ExportTarget::Memory(s.memories[memory_index as int].id),
                ) && t.diagnostics == s.diagnostics,
                _ => found is None && more_is_reported(s, t),
            }
        }),
{
    reveal(State::export_target);
    reveal(State::report_unexportable);
    reveal(State::report);
    reveal(State::access);
}

proof fn export_is_found<'ast>(s: State<'ast>, name: Symbol, from: int)
    requires
        0 <= from <= s.exports.len(),
    ensures
        match s.export_from(name, from) {
            Some(item) => exists|i: int|
                from <= i < s.exports.len() && #[trigger] s.exports[i] == item && item.name().inner
                    == name,
            None => forall|i: int|
                from <= i < s.exports.len() ==> (#[trigger] s.exports[i]).name().inner != name,
        },
    decreases s.exports.len() - from,
{
    if from < s.exports.len() && s.exports[from].name().inner != name {
        export_is_found(s, name, from + 1);
    }
}

/// An export is found under its name exactly where there is one of that name.
pub proof fn law_export_is_found_by_its_name<'ast>(s: State<'ast>, name: Symbol)
    ensures
        s.find_export(name) matches Some(item) ==> item.name().inner == name,
        s.find_export(name) is Some <==> (exists|i: int|
            0 <= i < s.exports.len() && (#[trigger] s.exports[i]).name().inner == name),
{
    export_is_found(s, name, 0);
}

/// An item is exported under the name that is given for it, otherwise under
/// its own. A second export of a name is reported and left out.
pub proof fn law_exported_item<'ast>(s: State<'ast>, file_id: FileId, entry: ExportEntry)
    ensures
        ({
            let (u, given) = s.export_name(&entry);
            let (v, target) = u.export_target(file_id, entry.name);
            let t = s.build_export(file_id, &entry);
            match target {
                Some(found) => {
                    let item = ExportItem {
                        target: found,
                        internal_name: entry.name,
                        external_name: given,
                    };
                    &&& v.find_export(item.name().inner) is None ==> t.exports == v.exports.push(
                        item,
                    ) && t.diagnostics == v.diagnostics
                    &&& v.find_export(item.name().inner) is Some ==> t.exports == v.exports
                        && more_is_reported(v, t)
                },
                None => t == v,
            }
        }),
        entry.alias is None ==> s.export_name(&entry) == (s, None::<Spanned<Symbol>>),
{
    reveal(State::build_export);
    reveal(State::export_name);
    reveal(State::add_export);
    reveal(State::report);
}

} // verus!
