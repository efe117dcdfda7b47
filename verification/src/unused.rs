//! What is checked and reported once every body is built: trait impls that
//! lack something, exports, and items that nothing uses.

use vstd::prelude::*;

use crate::ast::{ExportEntry, Item};
use crate::bodies;
use crate::bodies::is_intrinsic;
use crate::diagnostics::Diagnostic;
use crate::list::{cons, single, List};
use crate::members;
use crate::members::total_type_param_count;
use crate::reports;
use crate::reports::{
    report_cannot_export_generic_function, report_cannot_export_item, report_duplicate_export,
    report_missing_supertrait, report_missing_trait_item, report_undeclared_identifier,
    report_unread_field, report_unused_const, report_unused_enum, report_unused_enum_variants,
    report_unused_function, report_unused_global, report_unused_struct, report_unused_type_param,
};
use crate::scope::next_index;
use crate::span::{DefId, FileId, SourceSpan, Spanned, Symbol};
use crate::state;
use crate::state::{vec_at, Builder, State};
use crate::substitute;
use crate::substitute::find_member;
use crate::tir::{
    AccessTarget, EnumVariant, ExportItem, ExportTarget, Function, ImplEntry, Member,
    ModuleDeclarationKind, StructField, SymbolKind, SymbolNamespace, TypeParamInfo,
};
use crate::types::{TypeIndex, TypeParamOwner};

verus! {

impl<'ast> State<'ast> {
    /// Whether a use of something is recorded.
    pub open spec fn is_accessed(self, target: AccessTarget) -> bool {
        exists|i: int| 0 <= i < self.accesses.len() && self.accesses[i].target == target
    }
}

impl<'ast> Builder<'ast> {
    /// Whether a use of something is recorded.
    pub fn is_accessed(&self, target: AccessTarget) -> (result: bool)
        ensures
            result == self@.is_accessed(target),
    {
        let mut i: usize = 0;
        while i < self.accesses.len()
            invariant
                i <= self.accesses.len(),
                forall|j: int| 0 <= j < i ==> self.accesses@[j].target != target,
            decreases self.accesses.len() - i,
        {
            if self.accesses[i].target == target {
                assert(self@.accesses[i as int].target == target);
                return true;
            }
            i = i + 1;
        }
        false
    }
}

impl<'ast> State<'ast> {
    /// The first export under that name, from a position on.
    pub open spec fn export_from(self, name: Symbol, from: int) -> Option<ExportItem>
        decreases self.exports.len() - from,
    {
        if from < 0 || from >= self.exports.len() {
            None
        } else if self.exports[from].name().inner == name {
            Some(self.exports[from])
        } else {
            self.export_from(name, from + 1)
        }
    }

    /// The export under that name.
    pub open spec fn find_export(self, name: Symbol) -> Option<ExportItem> {
        self.export_from(name, 0)
    }
}

impl<'ast> Builder<'ast> {
    /// The export under that name.
    pub fn find_export(&self, name: Symbol) -> (result: Option<ExportItem>)
        ensures
            result == self@.find_export(name),
    {
        let mut i: usize = 0;
        while i < self.exports.len()
            invariant
                i <= self.exports.len(),
                self@.find_export(name) == self@.export_from(name, i as int),
            decreases self.exports.len() - i,
        {
            if self.exports[i].name().inner == name {
                return Some(self.exports[i]);
            }
            i = i + 1;
        }
        None
    }
}

/// Whether a function may be unused: one of a trait, or a public one.
pub open spec fn exempt_from_use(function: &Function) -> bool {
    match function.type_param_parent {
        Some(TypeParamOwner::Trait(_)) => true,
        _ => function.pub_span.is_some(),
    }
}

/// Whether a function may be unused: one of a trait, or a public one.
pub fn may_be_unused(function: &Function) -> (result: bool)
    ensures
        result == exempt_from_use(function),
{
    match function.type_param_parent {
        Some(TypeParamOwner::Trait(_)) => true,
        _ => function.pub_span.is_some(),
    }
}

impl<'ast> State<'ast> {
    /// Reports each of several things.
    pub open spec fn report_all(self, diagnostics: List<Diagnostic>) -> State<'ast>
        decreases diagnostics,
    {
        match diagnostics {
            List::Nil => self,
            List::Cons(diagnostic, rest) => {
                let s = self.report(*diagnostic);
                s.report_all(*rest)
            },
        }
    }

    /// What a trait asks an impl for, where a member of it must be in the impl
    /// itself: a function without a body, a constant or an associated type.
    pub open spec fn required_kind(self, entry: ImplEntry) -> Option<&'static str> {
        match entry {
            ImplEntry::Method(func_index) | ImplEntry::AssocFunction(func_index) => {
                match state::seq_ref(self.functions, func_index) {
                    Some(function) => {
                        if function.body.is_none() {
                            Some("fn")
                        } else {
                            None
                        }
                    },
                    None => None,
                }
            },
            ImplEntry::AssocConstant(_) => Some("const"),
            ImplEntry::AssocType { .. } => Some("type"),
        }
    }

    /// The members of a trait that an impl must have and does not.
    pub open spec fn missing_members(
        self,
        required: &List<Member>,
        provided: &List<Member>,
        trait_name: Symbol,
        span: SourceSpan,
    ) -> List<Diagnostic>
        decreases required,
    {
        match required {
            List::Nil => List::Nil,
            List::Cons(member, rest) => {
                let others = self.missing_members(rest, provided, trait_name, span);
                match self.required_kind(member.entry) {
                    Some(kind) => {
                        if substitute::member_entry(*provided, member.name).is_none() {
                            cons(
                                report_missing_trait_item(kind, member.name, trait_name, span),
                                others,
                            )
                        } else {
                            others
                        }
                    },
                    None => others,
                }
            },
        }
    }

    /// The supertraits that the target of an impl does not implement.
    pub open spec fn missing_supertraits(
        self,
        supertraits: &List<usize>,
        target: TypeIndex,
        trait_name: Symbol,
        span: SourceSpan,
    ) -> List<Diagnostic>
        decreases supertraits,
    {
        match supertraits {
            List::Nil => List::Nil,
            List::Cons(supertrait, rest) => {
                let others = self.missing_supertraits(rest, target, trait_name, span);
                if self.trait_impl_for(target, **supertrait).is_none() {
                    cons(
                        report_missing_supertrait(
                            trait_name,
                            self.trait_name(**supertrait),
                            span,
                        ),
                        others,
                    )
                } else {
                    others
                }
            },
        }
    }

    /// Reports what a trait impl lacks: members that its trait asks for, and
    /// impls of the supertraits.
    pub open spec fn check_impl_conformance(self, impl_index: usize) -> State<'ast> {
        let (missing, supertraits) = self.impl_violations(impl_index);
        let s = self.report_all(missing);
        s.report_all(supertraits)
    }

    /// What a trait impl lacks.
    pub open spec fn impl_violations(
        self,
        impl_index: usize,
    ) -> (List<Diagnostic>, List<Diagnostic>) {
        match state::seq_ref(self.trait_impls, impl_index) {
            Some(implementation) => {
                match state::seq_ref(self.traits, implementation.trait_index) {
                    Some(declaration) => {
                        let span = SourceSpan::new(implementation.file_id, implementation.span);
                        (
                            self.missing_members(
                                &declaration.members,
                                &implementation.members,
                                declaration.name.inner,
                                span,
                            ),
                            self.missing_supertraits(
                                &declaration.supertraits,
                                implementation.target.inner,
                                declaration.name.inner,
                                span,
                            ),
                        )
                    },
                    None => (List::Nil, List::Nil),
                }
            },
            None => (List::Nil, List::Nil),
        }
    }

    /// The name that a value of the root is exported under, without its quotes,
    /// where one is given.
    #[verifier::opaque]
    pub open spec fn export_name(
        self,
        entry: &ExportEntry,
    ) -> (State<'ast>, Option<Spanned<Symbol>>) {
        match self.direct_symbol(None, SymbolNamespace::Value, entry.name.inner) {
            Some(_) => {
                match entry.alias {
                    Some(alias) => {
                        let (s, name) = self.unquoted_name(alias.inner);
                        (s, Some(Spanned { inner: name, span: alias.span }))
                    },
                    None => (self, None),
                }
            },
            None => (self, None),
        }
    }

    /// What a name of the root stands for as an export, with its use recorded.
    /// What cannot be exported is reported.
    #[verifier::opaque]
    pub open spec fn export_target(
        self,
        file_id: FileId,
        name: Spanned<Symbol>,
    ) -> (State<'ast>, Option<ExportTarget>) {
        let span = SourceSpan::new(file_id, name.span);
        match self.direct_symbol(None, SymbolNamespace::Value, name.inner) {
            Some(SymbolKind::Function { func_index }) => {
                let s = self.access(AccessTarget::Function(func_index), span);
                let (_, _, id) = s.function_identity(func_index);
                if s.is_generic_function(func_index) {
                    let s = s.report(report_cannot_export_generic_function(name.inner, span));
                    (s, None)
                } else {
                    (s, Some(ExportTarget::Function(id)))
                }
            },
            Some(SymbolKind::Global { global_index }) => {
                let s = self.access(AccessTarget::Global(global_index), span);
                match state::seq_ref(s.globals, global_index) {
                    Some(global) => (s, Some(ExportTarget::Global(global.id))),
                    None => (s, None),
                }
            },
            Some(SymbolKind::Memory { memory_index, kind: _ }) => {
                let s = self.access(AccessTarget::Memory(memory_index), span);
                match state::seq_ref(s.memories, memory_index) {
                    Some(memory) => (s, Some(ExportTarget::Memory(memory.id))),
                    None => (s, None),
                }
            },
            Some(other) => {
                let s = self.type_kind_access(other, span);
                let s = s.report(report_cannot_export_item(name.inner, span));
                (s, None)
            },
            None => {
                let s = self.report_unexportable(name.inner, span);
                (s, None)
            },
        }
    }

    /// Whether a function has type parameters, its own or inherited.
    pub open spec fn is_generic_function(self, func_index: usize) -> bool {
        match state::seq_ref(self.functions, func_index) {
            Some(function) => members::total_params(function) > 0,
            None => false,
        }
    }

    /// Reports a name that is no value of the root: that of a type, or none at
    /// all.
    #[verifier::opaque]
    pub open spec fn report_unexportable(self, name: Symbol, span: SourceSpan) -> State<'ast> {
        match self.direct_symbol(None, SymbolNamespace::Type, name) {
            Some(kind) => {
                let s = self.type_kind_access(kind, span);
                s.report(report_cannot_export_item(name, span))
            },
            None => self.report(report_undeclared_identifier(span)),
        }
    }

    /// Exports one item. A second export under a name is reported and left out.
    #[verifier::opaque]
    pub open spec fn build_export(self, file_id: FileId, entry: &ExportEntry) -> State<'ast> {
        let (s, external_name) = self.export_name(entry);
        let (s, target) = s.export_target(file_id, entry.name);
        match target {
            Some(target) => {
                let item = ExportItem { target, internal_name: entry.name, external_name };
                match s.find_export(item.name().inner) {
                    Some(existing) => {
                        s.report(
                            report_duplicate_export(
                                item.name().inner,
                                SourceSpan::new(file_id, existing.name().span),
                                SourceSpan::new(file_id, item.name().span),
                            ),
                        )
                    },
                    None => s.add_export(item),
                }
            },
            None => s,
        }
    }

    /// Exports the items of an export declaration in order.
    pub open spec fn build_exports(
        self,
        file_id: FileId,
        entries: &List<ExportEntry>,
    ) -> State<'ast>
        decreases entries,
    {
        match entries {
            List::Nil => self,
            List::Cons(entry, rest) => {
                let s = self.build_export(file_id, entry);
                s.build_exports(file_id, rest)
            },
        }
    }

    /// Processes the export declarations of a module in order.
    pub open spec fn export_items(self, file_id: FileId, items: &List<Item>) -> State<'ast>
        decreases items,
    {
        match items {
            List::Nil => self,
            List::Cons(item, rest) => {
                let s = match &**item {
                    Item::Export { entries } => self.build_exports(file_id, entries),
                    _ => self,
                };
                s.export_items(file_id, rest)
            },
        }
    }

    /// Whether a namespace is that of an import.
    pub open spec fn is_import(self, namespace: Option<usize>) -> bool {
        match namespace {
            Some(index) => {
                match state::seq_ref(self.namespaces, index) {
                    Some(declared) => {
                        match declared.declaration {
                            ModuleDeclarationKind::Import(_) => true,
                            _ => false,
                        }
                    },
                    None => false,
                }
            },
            None => false,
        }
    }

    /// The type parameters of a function that nothing uses. They are counted
    /// after the inherited ones.
    pub open spec fn unused_type_params(
        self,
        id: DefId,
        file_id: FileId,
        params: &List<TypeParamInfo>,
        index: usize,
    ) -> List<Diagnostic>
        decreases params,
    {
        match params {
            List::Nil => List::Nil,
            List::Cons(param, rest) => {
                let others = self.unused_type_params(id, file_id, rest, next_index(index));
                if self.is_accessed(
                    AccessTarget::TypeParam(TypeParamOwner::Function(id), index),
                ) {
                    others
                } else {
                    cons(
                        report_unused_type_param(
                            param.name.inner,
                            SourceSpan::new(file_id, param.name.span),
                        ),
                        others,
                    )
                }
            },
        }
    }

    /// What is unused about a function: itself, and its type parameters. Nothing
    /// is said of one that the compiler provides or that is imported.
    pub open spec fn unused_of_function(self, func_index: usize) -> List<Diagnostic> {
        match state::seq_ref(self.functions, func_index) {
            Some(function) => {
                if bodies::lists_intrinsic(&function.attributes)
                    || self.is_import(function.namespace) {
                    List::Nil
                } else {
                    let params = self.unused_type_params(
                        function.id,
                        function.file_id,
                        &function.type_params,
                        function.inherited_type_param_count,
                    );
                    if exempt_from_use(function)
                        || self.is_accessed(AccessTarget::Function(func_index)) {
                        params
                    } else {
                        cons(
                            report_unused_function(
                                function.name.inner,
                                SourceSpan::new(function.file_id, function.name.span),
                            ),
                            params,
                        )
                    }
                }
            },
            None => List::Nil,
        }
    }

    /// Reports what is unused about a function.
    pub open spec fn check_function_use(self, func_index: usize) -> State<'ast> {
        let unused = self.unused_of_function(func_index);
        self.report_all(unused)
    }

    /// Reports a global that nothing uses, unless it is imported.
    pub open spec fn check_global_use(self, global_index: usize) -> State<'ast> {
        let unused = self.unused_of_global(global_index);
        self.report_all(unused)
    }

    /// What is unused about a global.
    pub open spec fn unused_of_global(self, global_index: usize) -> List<Diagnostic> {
        match state::seq_ref(self.globals, global_index) {
            Some(global) => {
                if self.is_import(global.namespace)
                    || self.is_accessed(AccessTarget::Global(global_index)) {
                    List::Nil
                } else {
                    single(
                        report_unused_global(
                            global.name.inner,
                            SourceSpan::new(global.file_id, global.name.span),
                        ),
                    )
                }
            },
            None => List::Nil,
        }
    }

    /// Reports a constant that nothing uses, unless it is public or has no value.
    pub open spec fn check_constant_use(self, const_index: usize) -> State<'ast> {
        let unused = self.unused_of_constant(const_index);
        self.report_all(unused)
    }

    /// What is unused about a constant.
    pub open spec fn unused_of_constant(self, const_index: usize) -> List<Diagnostic> {
        match state::seq_ref(self.constants, const_index) {
            Some(constant) => {
                if constant.pub_span.is_none()
                    && constant.value.is_some()
                    && !self.is_accessed(AccessTarget::Const(const_index)) {
                    single(
                        report_unused_const(
                            constant.name.inner,
                            SourceSpan::new(constant.file_id, constant.name.span),
                        ),
                    )
                } else {
                    List::Nil
                }
            },
            None => List::Nil,
        }
    }

    /// The fields of a struct that are given a value and never read, without the
    /// public ones.
    pub open spec fn unread_fields(
        self,
        struct_index: usize,
        file_id: FileId,
        fields: &List<StructField>,
        index: usize,
    ) -> List<Diagnostic>
        decreases fields,
    {
        match fields {
            List::Nil => List::Nil,
            List::Cons(field, rest) => {
                let others = self.unread_fields(struct_index, file_id, rest, next_index(index));
                if field.pub_span.is_none()
                    && self.is_accessed(AccessTarget::FieldInit(struct_index, index))
                    && !self.is_accessed(AccessTarget::FieldRead(struct_index, index)) {
                    cons(
                        report_unread_field(
                            field.name.inner,
                            SourceSpan::new(file_id, field.name.span),
                        ),
                        others,
                    )
                } else {
                    others
                }
            },
        }
    }

    /// What is unused about a struct: itself, or fields of one that is used.
    pub open spec fn unused_of_struct(self, struct_index: usize) -> List<Diagnostic> {
        match state::seq_ref(self.structs, struct_index) {
            Some(item) => {
                if item.pub_span.is_none()
                    && !self.is_accessed(AccessTarget::Struct(struct_index)) {
                    single(
                        report_unused_struct(
                            item.name.inner,
                            SourceSpan::new(item.file_id, item.name.span),
                        ),
                    )
                } else {
                    self.unread_fields(struct_index, item.file_id, &item.fields, 0)
                }
            },
            None => List::Nil,
        }
    }

    /// Reports what is unused about a struct.
    pub open spec fn check_struct_use(self, struct_index: usize) -> State<'ast> {
        let unused = self.unused_of_struct(struct_index);
        self.report_all(unused)
    }

    /// The variants of an enum that nothing uses.
    pub open spec fn unused_variants(
        self,
        enum_index: usize,
        variants: &List<EnumVariant>,
        index: usize,
    ) -> List<Spanned<Symbol>>
        decreases variants,
    {
        match variants {
            List::Nil => List::Nil,
            List::Cons(variant, rest) => {
                let others = self.unused_variants(enum_index, rest, next_index(index));
                if self.is_accessed(AccessTarget::EnumVariant(enum_index, index)) {
                    others
                } else {
                    cons(variant.name, others)
                }
            },
        }
    }

    /// What is unused about an enum: itself, or variants of one that is used.
    pub open spec fn unused_of_enum(self, enum_index: usize) -> List<Diagnostic> {
        match state::seq_ref(self.enums, enum_index) {
            Some(item) => {
                if item.pub_span.is_none() && !self.is_accessed(AccessTarget::Enum(enum_index)) {
                    single(
                        report_unused_enum(
                            item.name.inner,
                            SourceSpan::new(item.file_id, item.name.span),
                        ),
                    )
                } else {
                    let unused = self.unused_variants(enum_index, &item.variants, 0);
                    if unused.is_empty() {
                        List::Nil
                    } else {
                        single(reports::unused_enum_variants(item.file_id, unused))
                    }
                }
            },
            None => List::Nil,
        }
    }

    /// Reports what is unused about an enum.
    pub open spec fn check_enum_use(self, enum_index: usize) -> State<'ast> {
        let unused = self.unused_of_enum(enum_index);
        self.report_all(unused)
    }
}

impl<'ast> Builder<'ast> {
    /// Reports each of several things.
    pub fn report_all(&mut self, diagnostics: List<Diagnostic>)
        ensures
            final(self)@ == old(self)@.report_all(diagnostics),
        decreases diagnostics,
    {
        match diagnostics {
            List::Nil => {},
            List::Cons(diagnostic, rest) => {
                self.report(*diagnostic);
                self.report_all(*rest);
            },
        }
    }

    /// What a trait asks an impl for, where a member of it must be in the impl
    /// itself: a function without a body, a constant or an associated type.
    pub fn required_kind(&self, entry: ImplEntry) -> (result: Option<&'static str>)
        ensures
            result == self@.required_kind(entry),
    {
        match entry {
            ImplEntry::Method(func_index) | ImplEntry::AssocFunction(func_index) => {
                match vec_at(&self.functions, func_index) {
                    Some(function) => if function.body.is_none() {
                        Some("fn")
                    } else {
                        None
                    },
                    None => None,
                }
            },
            ImplEntry::AssocConstant(_) => Some("const"),
            ImplEntry::AssocType { .. } => Some("type"),
        }
    }

    /// The members of a trait that an impl must have and does not.
    pub fn missing_members(
        &self,
        required: &List<Member>,
        provided: &List<Member>,
        trait_name: Symbol,
        span: SourceSpan,
    ) -> (result: List<Diagnostic>)
        ensures
            result == self@.missing_members(required, provided, trait_name, span),
        decreases required,
    {
        match required {
            List::Nil => List::Nil,
            List::Cons(member, rest) => {
                let others = self.missing_members(rest, provided, trait_name, span);
                match self.required_kind(member.entry) {
                    Some(kind) => if find_member(provided, member.name).is_none() {
                        cons(
                            report_missing_trait_item(kind, member.name, trait_name, span),
                            others,
                        )
                    } else {
                        others
                    },
                    None => others,
                }
            },
        }
    }

    /// The supertraits that the target of an impl does not implement.
    pub fn missing_supertraits(
        &self,
        supertraits: &List<usize>,
        target: TypeIndex,
        trait_name: Symbol,
        span: SourceSpan,
    ) -> (result: List<Diagnostic>)
        ensures
            result == self@.missing_supertraits(supertraits, target, trait_name, span),
        decreases supertraits,
    {
        match supertraits {
            List::Nil => List::Nil,
            List::Cons(supertrait, rest) => {
                let others = self.missing_supertraits(rest, target, trait_name, span);
                if self.find_trait_impl(target, **supertrait).is_none() {
                    cons(
                        report_missing_supertrait(
                            trait_name,
                            self.trait_name(**supertrait),
                            span,
                        ),
                        others,
                    )
                } else {
                    others
                }
            },
        }
    }

    /// Reports what a trait impl lacks: members that its trait asks for, and
    /// impls of the supertraits.
    pub fn check_impl_conformance(&mut self, impl_index: usize)
        ensures
            final(self)@ == old(self)@.check_impl_conformance(impl_index),
    {
        let (missing, supertraits) = self.impl_violations(impl_index);
        self.report_all(missing);
        self.report_all(supertraits);
    }

    /// What a trait impl lacks.
    pub fn impl_violations(
        &self,
        impl_index: usize,
    ) -> (result: (List<Diagnostic>, List<Diagnostic>))
        ensures
            result == self@.impl_violations(impl_index),
    {
        match vec_at(&self.trait_impls, impl_index) {
            Some(implementation) => match vec_at(&self.traits, implementation.trait_index) {
                Some(declaration) => {
                    let span = SourceSpan::new(implementation.file_id, implementation.span);
                    (
                        self.missing_members(
                            &declaration.members,
                            &implementation.members,
                            declaration.name.inner,
                            span,
                        ),
                        self.missing_supertraits(
                            &declaration.supertraits,
                            implementation.target.inner,
                            declaration.name.inner,
                            span,
                        ),
                    )
                },
                None => (List::Nil, List::Nil),
            },
            None => (List::Nil, List::Nil),
        }
    }

    /// The name that a value of the root is exported under, without its quotes,
    /// where one is given.
    pub fn export_name(&mut self, entry: &ExportEntry) -> (result: Option<Spanned<Symbol>>)
        ensures
            (final(self)@, result) == old(self)@.export_name(entry),
    {
        proof {
            reveal(State::export_name);
        }
        match self.direct_scope_lookup(None, SymbolNamespace::Value, entry.name.inner) {
            Some(_) => match entry.alias {
                Some(alias) => {
                    let name: Symbol = self.intern_unquoted(alias.inner);
                    Some(Spanned { inner: name, span: alias.span })
                },
                None => None,
            },
            None => None,
        }
    }

    /// What a name of the root stands for as an export, with its use recorded.
    /// What cannot be exported is reported.
    pub fn export_target(
        &mut self,
        file_id: FileId,
        name: Spanned<Symbol>,
    ) -> (result: Option<ExportTarget>)
        ensures
            (final(self)@, result) == old(self)@.export_target(file_id, name),
    {
        proof {
            reveal(State::export_target);
        }
        let span = SourceSpan::new(file_id, name.span);
        match self.direct_scope_lookup(None, SymbolNamespace::Value, name.inner) {
            Some(SymbolKind::Function { func_index }) => {
                self.access(AccessTarget::Function(func_index), span);
                let (_, _, id) = self.function_identity(func_index);
                if self.is_generic_function(func_index) {
                    self.report(report_cannot_export_generic_function(name.inner, span));
                    return None;
                }
                Some(ExportTarget::Function(id))
            },
            Some(SymbolKind::Global { global_index }) => {
                self.access(AccessTarget::Global(global_index), span);
                match vec_at(&self.globals, global_index) {
                    Some(global) => Some(ExportTarget::Global(global.id)),
                    None => None,
                }
            },
            Some(SymbolKind::Memory { memory_index, kind: _ }) => {
                self.access(AccessTarget::Memory(memory_index), span);
                match vec_at(&self.memories, memory_index) {
                    Some(memory) => Some(ExportTarget::Memory(memory.id)),
                    None => None,
                }
            },
            Some(other) => {
                self.record_type_kind_access(other, span);
                self.report(report_cannot_export_item(name.inner, span));
                None
            },
            None => {
                self.report_unexportable(name.inner, span);
                None
            },
        }
    }

    /// Whether a function has type parameters, its own or inherited.
    pub fn is_generic_function(&self, func_index: usize) -> (result: bool)
        ensures
            result == self@.is_generic_function(func_index),
    {
        match vec_at(&self.functions, func_index) {
            Some(function) => total_type_param_count(function) > 0,
            None => false,
        }
    }

    /// Reports a name that is no value of the root: that of a type, or none at
    /// all.
    pub fn report_unexportable(&mut self, name: Symbol, span: SourceSpan)
        ensures
            final(self)@ == old(self)@.report_unexportable(name, span),
    {
        proof {
            reveal(State::report_unexportable);
        }
        match self.direct_scope_lookup(None, SymbolNamespace::Type, name) {
            Some(kind) => {
                self.record_type_kind_access(kind, span);
                self.report(report_cannot_export_item(name, span));
            },
            None => {
                self.report(report_undeclared_identifier(span));
            },
        }
    }

    /// Exports one item. A second export under a name is reported and left out.
    pub fn build_export(&mut self, file_id: FileId, entry: &ExportEntry)
        ensures
            final(self)@ == old(self)@.build_export(file_id, entry),
    {
        proof {
            reveal(State::build_export);
        }
        let external_name = self.export_name(entry);
        let target = self.export_target(file_id, entry.name);
        match target {
            Some(target) => {
                let item = ExportItem { target, internal_name: entry.name, external_name };
                match self.find_export(item.name().inner) {
                    Some(existing) => {
                        self.report(
                            report_duplicate_export(
                                item.name().inner,
                                SourceSpan::new(file_id, existing.name().span),
                                SourceSpan::new(file_id, item.name().span),
                            ),
                        );
                    },
                    None => {
                        self.add_export(item);
                    },
                }
            },
            None => {},
        }
    }

    /// Exports the items of an export declaration in order.
    pub fn build_exports(&mut self, file_id: FileId, entries: &List<ExportEntry>)
        ensures
            final(self)@ == old(self)@.build_exports(file_id, entries),
        decreases entries,
    {
        match entries {
            List::Nil => {},
            List::Cons(entry, rest) => {
                self.build_export(file_id, entry);
                self.build_exports(file_id, rest);
            },
        }
    }

    /// Processes the export declarations of a module in order.
    pub fn export_items(&mut self, file_id: FileId, items: &List<Item>)
        ensures
            final(self)@ == old(self)@.export_items(file_id, items),
        decreases items,
    {
        match items {
            List::Nil => {},
            List::Cons(item, rest) => {
                match &**item {
                    Item::Export { entries } => {
                        self.build_exports(file_id, entries);
                    },
                    _ => {},
                }
                self.export_items(file_id, rest);
            },
        }
    }

    /// Whether a namespace is that of an import.
    pub fn is_import(&self, namespace: Option<usize>) -> (result: bool)
        ensures
            result == self@.is_import(namespace),
    {
        match namespace {
            Some(index) => match vec_at(&self.namespaces, index) {
                Some(declared) => match declared.declaration {
                    ModuleDeclarationKind::Import(_) => true,
                    _ => false,
                },
                None => false,
            },
            None => false,
        }
    }

    /// The type parameters of a function that nothing uses. They are counted
    /// after the inherited ones.
    pub fn unused_type_params(
        &self,
        id: DefId,
        file_id: FileId,
        params: &List<TypeParamInfo>,
        index: usize,
    ) -> (result: List<Diagnostic>)
        ensures
            result == self@.unused_type_params(id, file_id, params, index),
        decreases params,
    {
        match params {
            List::Nil => List::Nil,
            List::Cons(param, rest) => {
                let others = self.unused_type_params(id, file_id, rest, next_index(index));
                if self.is_accessed(
                    AccessTarget::TypeParam(TypeParamOwner::Function(id), index),
                ) {
                    others
                } else {
                    cons(
                        report_unused_type_param(
                            param.name.inner,
                            SourceSpan::new(file_id, param.name.span),
                        ),
                        others,
                    )
                }
            },
        }
    }

    /// What is unused about a function: itself, and its type parameters. Nothing
    /// is said of one that the compiler provides or that is imported.
    pub fn unused_of_function(&self, func_index: usize) -> (result: List<Diagnostic>)
        ensures
            result == self@.unused_of_function(func_index),
    {
        match vec_at(&self.functions, func_index) {
            Some(function) => {
                if is_intrinsic(&function.attributes) || self.is_import(function.namespace) {
                    return List::Nil;
                }
                let params = self.unused_type_params(
                    function.id,
                    function.file_id,
                    &function.type_params,
                    function.inherited_type_param_count,
                );
                if may_be_unused(function)
                    || self.is_accessed(AccessTarget::Function(func_index)) {
                    params
                } else {
                    cons(
                        report_unused_function(
                            function.name.inner,
                            SourceSpan::new(function.file_id, function.name.span),
                        ),
                        params,
                    )
                }
            },
            None => List::Nil,
        }
    }

    /// Reports what is unused about a function.
    pub fn check_function_use(&mut self, func_index: usize)
        ensures
            final(self)@ == old(self)@.check_function_use(func_index),
    {
        let unused = self.unused_of_function(func_index);
        self.report_all(unused);
    }

    /// Reports a global that nothing uses, unless it is imported.
    pub fn check_global_use(&mut self, global_index: usize)
        ensures
            final(self)@ == old(self)@.check_global_use(global_index),
    {
        let unused = self.unused_of_global(global_index);
        self.report_all(unused);
    }

    /// What is unused about a global.
    pub fn unused_of_global(&self, global_index: usize) -> (result: List<Diagnostic>)
        ensures
            result == self@.unused_of_global(global_index),
    {
        match vec_at(&self.globals, global_index) {
            Some(global) => if self.is_import(global.namespace)
                || self.is_accessed(AccessTarget::Global(global_index)) {
                List::Nil
            } else {
                single(
                    report_unused_global(
                        global.name.inner,
                        SourceSpan::new(global.file_id, global.name.span),
                    ),
                )
            },
            None => List::Nil,
        }
    }

    /// Reports a constant that nothing uses, unless it is public or has no value.
    pub fn check_constant_use(&mut self, const_index: usize)
        ensures
            final(self)@ == old(self)@.check_constant_use(const_index),
    {
        let unused = self.unused_of_constant(const_index);
        self.report_all(unused);
    }

    /// What is unused about a constant.
    pub fn unused_of_constant(&self, const_index: usize) -> (result: List<Diagnostic>)
        ensures
            result == self@.unused_of_constant(const_index),
    {
        match vec_at(&self.constants, const_index) {
            Some(constant) => if constant.pub_span.is_none()
                && constant.value.is_some()
                && !self.is_accessed(AccessTarget::Const(const_index)) {
                single(
                    report_unused_const(
                        constant.name.inner,
                        SourceSpan::new(constant.file_id, constant.name.span),
                    ),
                )
            } else {
                List::Nil
            },
            None => List::Nil,
        }
    }

    /// The fields of a struct that are given a value and never read, without the
    /// public ones.
    pub fn unread_fields(
        &self,
        struct_index: usize,
        file_id: FileId,
        fields: &List<StructField>,
        index: usize,
    ) -> (result: List<Diagnostic>)
        ensures
            result == self@.unread_fields(struct_index, file_id, fields, index),
        decreases fields,
    {
        match fields {
            List::Nil => List::Nil,
            List::Cons(field, rest) => {
                let others = self.unread_fields(struct_index, file_id, rest, next_index(index));
                if field.pub_span.is_none()
                    && self.is_accessed(AccessTarget::FieldInit(struct_index, index))
                    && !self.is_accessed(AccessTarget::FieldRead(struct_index, index)) {
                    cons(
                        report_unread_field(
                            field.name.inner,
                            SourceSpan::new(file_id, field.name.span),
                        ),
                        others,
                    )
                } else {
                    others
                }
            },
        }
    }

    /// What is unused about a struct: itself, or fields of one that is used.
    pub fn unused_of_struct(&self, struct_index: usize) -> (result: List<Diagnostic>)
        ensures
            result == self@.unused_of_struct(struct_index),
    {
        match vec_at(&self.structs, struct_index) {
            Some(item) => if item.pub_span.is_none() && !self.is_accessed(AccessTarget::Struct(struct_index)) {
                single(
                    report_unused_struct(
                        item.name.inner,
                        SourceSpan::new(item.file_id, item.name.span),
                    ),
                )
            } else {
                self.unread_fields(struct_index, item.file_id, &item.fields, 0)
            },
            None => List::Nil,
        }
    }

    /// Reports what is unused about a struct.
    pub fn check_struct_use(&mut self, struct_index: usize)
        ensures
            final(self)@ == old(self)@.check_struct_use(struct_index),
    {
        let unused = self.unused_of_struct(struct_index);
        self.report_all(unused);
    }

    /// The variants of an enum that nothing uses.
    pub fn unused_variants(
        &self,
        enum_index: usize,
        variants: &List<EnumVariant>,
        index: usize,
    ) -> (result: List<Spanned<Symbol>>)
        ensures
            result == self@.unused_variants(enum_index, variants, index),
        decreases variants,
    {
        match variants {
            List::Nil => List::Nil,
            List::Cons(variant, rest) => {
                let others = self.unused_variants(enum_index, rest, next_index(index));
                if self.is_accessed(AccessTarget::EnumVariant(enum_index, index)) {
                    others
                } else {
                    cons(variant.name, others)
                }
            },
        }
    }

    /// What is unused about an enum: itself, or variants of one that is used.
    pub fn unused_of_enum(&self, enum_index: usize) -> (result: List<Diagnostic>)
        ensures
            result == self@.unused_of_enum(enum_index),
    {
        match vec_at(&self.enums, enum_index) {
            Some(item) => {
                if item.pub_span.is_none() && !self.is_accessed(AccessTarget::Enum(enum_index)) {
                    return single(
                        report_unused_enum(
                            item.name.inner,
                            SourceSpan::new(item.file_id, item.name.span),
                        ),
                    );
                }
                let unused = self.unused_variants(enum_index, &item.variants, 0);
                if unused.is_empty() {
                    List::Nil
                } else {
                    single(report_unused_enum_variants(item.file_id, &unused))
                }
            },
            None => List::Nil,
        }
    }

    /// Reports what is unused about an enum.
    pub fn check_enum_use(&mut self, enum_index: usize)
        ensures
            final(self)@ == old(self)@.check_enum_use(enum_index),
    {
        let unused = self.unused_of_enum(enum_index);
        self.report_all(unused);
    }
}

impl<'ast> State<'ast> {
    /// Reports what the trait impls lack.
    pub open spec fn check_trait_conformance_from(self, from: int, end: int) -> State<'ast>
        decreases end - from,
    {
        if from < end {
            self.check_impl_conformance(from as usize).check_trait_conformance_from(from + 1, end)
        } else {
            self
        }
    }
}

impl<'ast> Builder<'ast> {
    /// Reports what the trait impls lack.
    pub fn check_trait_conformance(&mut self)
        ensures
            final(self)@ == old(self)@.check_trait_conformance_from(0, old(self)@.trait_impls.len() as int),
    {
        let end: usize = self.trait_impls.len();
        let mut i: usize = 0;
        while i < end
            invariant
                i <= end,
                self@.check_trait_conformance_from(i as int, end as int) == old(self)@.check_trait_conformance_from(0, end as int),
            decreases end - i,
        {
            self.check_impl_conformance(i);
            i = i + 1;
        }
    }
}

impl<'ast> State<'ast> {
    /// Reports what is unused about the functions.
    pub open spec fn check_function_uses_from(self, from: int, end: int) -> State<'ast>
        decreases end - from,
    {
        if from < end {
            self.check_function_use(from as usize).check_function_uses_from(from + 1, end)
        } else {
            self
        }
    }
}

impl<'ast> Builder<'ast> {
    /// Reports what is unused about the functions.
    pub fn check_function_uses(&mut self)
        ensures
            final(self)@ == old(self)@.check_function_uses_from(0, old(self)@.functions.len() as int),
    {
        let end: usize = self.functions.len();
        let mut i: usize = 0;
        while i < end
            invariant
                i <= end,
                self@.check_function_uses_from(i as int, end as int) == old(self)@.check_function_uses_from(0, end as int),
            decreases end - i,
        {
            self.check_function_use(i);
            i = i + 1;
        }
    }
}

impl<'ast> State<'ast> {
    /// Reports the globals that nothing uses.
    pub open spec fn check_global_uses_from(self, from: int, end: int) -> State<'ast>
        decreases end - from,
    {
        if from < end {
            self.check_global_use(from as usize).check_global_uses_from(from + 1, end)
        } else {
            self
        }
    }
}

impl<'ast> Builder<'ast> {
    /// Reports the globals that nothing uses.
    pub fn check_global_uses(&mut self)
        ensures
            final(self)@ == old(self)@.check_global_uses_from(0, old(self)@.globals.len() as int),
    {
        let end: usize = self.globals.len();
        let mut i: usize = 0;
        while i < end
            invariant
                i <= end,
                self@.check_global_uses_from(i as int, end as int) == old(self)@.check_global_uses_from(0, end as int),
            decreases end - i,
        {
            self.check_global_use(i);
            i = i + 1;
        }
    }
}

impl<'ast> State<'ast> {
    /// Reports the constants that nothing uses.
    pub open spec fn check_constant_uses_from(self, from: int, end: int) -> State<'ast>
        decreases end - from,
    {
        if from < end {
            self.check_constant_use(from as usize).check_constant_uses_from(from + 1, end)
        } else {
            self
        }
    }
}

impl<'ast> Builder<'ast> {
    /// Reports the constants that nothing uses.
    pub fn check_constant_uses(&mut self)
        ensures
            final(self)@ == old(self)@.check_constant_uses_from(0, old(self)@.constants.len() as int),
    {
        let end: usize = self.constants.len();
        let mut i: usize = 0;
        while i < end
            invariant
                i <= end,
                self@.check_constant_uses_from(i as int, end as int) == old(self)@.check_constant_uses_from(0, end as int),
            decreases end - i,
        {
            self.check_constant_use(i);
            i = i + 1;
        }
    }
}

impl<'ast> State<'ast> {
    /// Reports what is unused about the structs.
    pub open spec fn check_struct_uses_from(self, from: int, end: int) -> State<'ast>
        decreases end - from,
    {
        if from < end {
            self.check_struct_use(from as usize).check_struct_uses_from(from + 1, end)
        } else {
            self
        }
    }
}

impl<'ast> Builder<'ast> {
    /// Reports what is unused about the structs.
    pub fn check_struct_uses(&mut self)
        ensures
            final(self)@ == old(self)@.check_struct_uses_from(0, old(self)@.structs.len() as int),
    {
        let end: usize = self.structs.len();
        let mut i: usize = 0;
        while i < end
            invariant
                i <= end,
                self@.check_struct_uses_from(i as int, end as int) == old(self)@.check_struct_uses_from(0, end as int),
            decreases end - i,
        {
            self.check_struct_use(i);
            i = i + 1;
        }
    }
}

impl<'ast> State<'ast> {
    /// Reports what is unused about the enums.
    pub open spec fn check_enum_uses_from(self, from: int, end: int) -> State<'ast>
        decreases end - from,
    {
        if from < end {
            self.check_enum_use(from as usize).check_enum_uses_from(from + 1, end)
        } else {
            self
        }
    }
}

impl<'ast> Builder<'ast> {
    /// Reports what is unused about the enums.
    pub fn check_enum_uses(&mut self)
        ensures
            final(self)@ == old(self)@.check_enum_uses_from(0, old(self)@.enums.len() as int),
    {
        let end: usize = self.enums.len();
        let mut i: usize = 0;
        while i < end
            invariant
                i <= end,
                self@.check_enum_uses_from(i as int, end as int) == old(self)@.check_enum_uses_from(0, end as int),
            decreases end - i,
        {
            self.check_enum_use(i);
            i = i + 1;
        }
    }
}

impl<'ast> State<'ast> {
    /// Reports every item that nothing uses.
    pub open spec fn report_unused_items(self) -> State<'ast> {
        let s = self.check_function_uses_from(0, self.functions.len() as int);
        let s = s.check_global_uses_from(0, s.globals.len() as int);
        let s = s.check_constant_uses_from(0, s.constants.len() as int);
        let s = s.check_struct_uses_from(0, s.structs.len() as int);
        s.check_enum_uses_from(0, s.enums.len() as int)
    }
}

impl<'ast> Builder<'ast> {
    /// Reports every item that nothing uses.
    pub fn report_unused_items(&mut self)
        ensures
            final(self)@ == old(self)@.report_unused_items(),
    {
        self.check_function_uses();
        self.check_global_uses();
        self.check_constant_uses();
        self.check_struct_uses();
        self.check_enum_uses();
    }
}

} // verus!
