//! Names: what they stand for in a namespace, who claims them, and the places
//! of their definitions.

use vstd::prelude::*;

use crate::interner;
use crate::list::List;
use crate::reports::{
    report_cannot_mutate_immutable, report_duplicate_definition, report_namespace_used_as_value,
};
use crate::span::{DefId, FileId, SourceSpan, Spanned, Symbol, TextSpan};
use crate::state;
use crate::state::{vec_at, Builder, State};
use crate::tir::{
    AccessContext, AccessKind, AccessTarget, ExprKind, Expression, ItemIndex, ModuleDecl,
    ModuleDeclarationKind, ModuleNamespace, ResolveContext, SymbolKind, SymbolNamespace,
};
use crate::ty;
use crate::types::{Type, TypeIndex};

verus! {

/// Whether a definition got the name it asked for.
#[derive(Clone, Copy, Debug, PartialEq, Eq, Structural)]
pub enum PendingClaim {
    /// The name was free and now belongs to the definition.
    Claimed,
    /// The name was taken; that is reported and nothing else changed.
    Duplicate,
}

/// The type that is built in under a name.
pub open spec fn primitive_named(texts: Seq<Seq<char>>, name: Symbol) -> Option<TypeIndex> {
    if interner::is_name(texts, name, "u8"@) {
        Some(ty::U8)
    } else if interner::is_name(texts, name, "i8"@) {
        Some(ty::I8)
    } else if interner::is_name(texts, name, "u16"@) {
        Some(ty::U16)
    } else if interner::is_name(texts, name, "i16"@) {
        Some(ty::I16)
    } else if interner::is_name(texts, name, "u32"@) {
        Some(ty::U32)
    } else if interner::is_name(texts, name, "i32"@) {
        Some(ty::I32)
    } else if interner::is_name(texts, name, "u64"@) {
        Some(ty::U64)
    } else if interner::is_name(texts, name, "i64"@) {
        Some(ty::I64)
    } else if interner::is_name(texts, name, "f32"@) {
        Some(ty::F32)
    } else if interner::is_name(texts, name, "f64"@) {
        Some(ty::F64)
    } else if interner::is_name(texts, name, "bool"@) {
        Some(ty::BOOL)
    } else if interner::is_name(texts, name, "char"@) {
        Some(ty::CHAR)
    } else {
        None
    }
}

impl<'ast> State<'ast> {
    /// The type that is built in under a name.
    pub open spec fn primitive_type(self, name: Symbol) -> Option<TypeIndex> {
        primitive_named(self.texts, name)
    }

    /// The meaning of a name in the first of the namespaces that has one.
    pub open spec fn imported_symbol(
        self,
        imports: List<usize>,
        space: SymbolNamespace,
        name: Symbol,
    ) -> Option<SymbolKind>
        decreases imports,
    {
        match imports {
            List::Nil => None,
            List::Cons(import, rest) => match self.direct_symbol(Some(*import), space, name) {
                Some(kind) => Some(kind),
                None => self.imported_symbol(*rest, space, name),
            },
        }
    }

    /// The meaning of a name in the first of the root's wildcard imports,
    /// from a position on, that has one.
    pub open spec fn root_imported_symbol(
        self,
        space: SymbolNamespace,
        name: Symbol,
        from: int,
    ) -> Option<SymbolKind>
        decreases self.root_wildcard_imports.len() - from,
    {
        if from < 0 || from >= self.root_wildcard_imports.len() {
            None
        } else {
            match self.direct_symbol(Some(self.root_wildcard_imports[from]), space, name) {
                Some(kind) => Some(kind),
                None => self.root_imported_symbol(space, name, from + 1),
            }
        }
    }

    /// The namespace around a namespace; none where that is the root.
    pub open spec fn namespace_around(self, index: usize) -> Option<usize> {
        match state::seq_at(self.namespaces, index) {
            Some(declaration) => declaration.parent,
            None => None,
        }
    }

    /// Whether a namespace is another one or lies within it. Every namespace
    /// lies within the root.
    pub open spec fn is_within(self, inner: Option<usize>, outer: Option<usize>) -> bool {
        self.is_within_steps(inner, outer, self.namespaces.len())
    }

    /// Whether a namespace is another one or lies within it, as far as that
    /// shows in the given number of steps outwards. There are never more
    /// namespaces around one than there are.
    pub open spec fn is_within_steps(
        self,
        inner: Option<usize>,
        outer: Option<usize>,
        steps: nat,
    ) -> bool
        decreases steps,
    {
        inner == outer || match inner {
            Some(index) => {
                let around = self.namespace_around(index);
                around == outer || steps > 0 && self.is_within_steps(
                    around,
                    outer,
                    (steps - 1) as nat,
                )
            },
            None => false,
        }
    }

    /// Whether a part of a declaration is accessible from a namespace: it is
    /// public, or the namespace is that of the declaration or lies within it.
    pub open spec fn is_accessible_from(
        self,
        namespace: Option<usize>,
        declaring: Option<usize>,
        pub_span: Option<TextSpan>,
    ) -> bool {
        pub_span.is_some() || self.is_within(namespace, declaring)
    }

    /// The meaning of a name in a namespace: its own, otherwise that of its
    /// wildcard imports in order.
    pub open spec fn symbol_in(
        self,
        index: usize,
        space: SymbolNamespace,
        name: Symbol,
    ) -> Option<SymbolKind> {
        match self.direct_symbol(Some(index), space, name) {
            Some(kind) => Some(kind),
            None => match state::seq_at(self.namespaces, index) {
                Some(declaration) => self.imported_symbol(
                    declaration.wildcard_imports,
                    space,
                    name,
                ),
                None => None,
            },
        }
    }

    /// The meaning of a name in the root: its own, otherwise that of its
    /// wildcard imports in order.
    pub open spec fn root_symbol(self, space: SymbolNamespace, name: Symbol) -> Option<SymbolKind> {
        match self.direct_symbol(None, space, name) {
            Some(kind) => Some(kind),
            None => self.root_imported_symbol(space, name, 0),
        }
    }

    /// The meaning of a name seen from a namespace: that which it has there,
    /// otherwise that which it has in the enclosing namespace, and last that
    /// which it has in the root.
    pub open spec fn visible_symbol(
        self,
        namespace: Option<usize>,
        space: SymbolNamespace,
        name: Symbol,
    ) -> Option<SymbolKind> {
        self.visible_in_steps(namespace, space, name, self.namespaces.len())
    }

    /// The meaning of a name seen from a namespace, as far as it shows in the
    /// given number of steps outwards.
    pub open spec fn visible_in_steps(
        self,
        namespace: Option<usize>,
        space: SymbolNamespace,
        name: Symbol,
        steps: nat,
    ) -> Option<SymbolKind>
        decreases steps,
    {
        match namespace {
            Some(index) => match self.symbol_in(index, space, name) {
                Some(kind) => Some(kind),
                None => match self.namespace_around(index) {
                    Some(parent) => if steps > 0 {
                        self.visible_in_steps(Some(parent), space, name, (steps - 1) as nat)
                    } else {
                        None
                    },
                    None => self.root_symbol(space, name),
                },
            },
            None => self.root_symbol(space, name),
        }
    }

    /// Where a namespace is declared.
    pub open spec fn namespace_location(self, index: usize) -> SourceSpan {
        match state::seq_at(self.namespaces, index) {
            Some(declaration) => match declaration.declaration {
                ModuleDeclarationKind::Module(decl) => match state::seq_at(
                    self.module_decls,
                    decl,
                ) {
                    Some(decl) => SourceSpan::new(decl.declaring_file_id, decl.name.span),
                    None => nowhere(),
                },
                ModuleDeclarationKind::Import(decl) => match state::seq_at(
                    self.import_decls,
                    decl,
                ) {
                    Some(decl) => SourceSpan::new(decl.file_id, decl.external_name.span),
                    None => nowhere(),
                },
                ModuleDeclarationKind::Crate(file_id) => SourceSpan::new(
                    file_id,
                    TextSpan::new(0, 0),
                ),
            },
            None => nowhere(),
        }
    }

    /// Where an item is declared.
    pub open spec fn item_location(self, item: ItemIndex) -> SourceSpan {
        match item {
            ItemIndex::Function(index) => match self.function(index) {
                Some(item) => SourceSpan::new(item.file_id, item.name.span),
                None => nowhere(),
            },
            ItemIndex::Global(index) => match state::seq_at(self.globals, index) {
                Some(item) => SourceSpan::new(item.file_id, item.name.span),
                None => nowhere(),
            },
            ItemIndex::Memory(index) => match state::seq_at(self.memories, index) {
                Some(item) => SourceSpan::new(item.file_id, item.name.span),
                None => nowhere(),
            },
            ItemIndex::Struct(index) => match state::seq_at(self.structs, index) {
                Some(item) => SourceSpan::new(item.file_id, item.name.span),
                None => nowhere(),
            },
            ItemIndex::Const(index) => match state::seq_at(self.constants, index) {
                Some(item) => SourceSpan::new(item.file_id, item.name.span),
                None => nowhere(),
            },
            ItemIndex::Enum(index) => match state::seq_at(self.enums, index) {
                Some(item) => SourceSpan::new(item.file_id, item.name.span),
                None => nowhere(),
            },
            ItemIndex::TypeAlias(index) => match state::seq_at(self.type_aliases, index) {
                Some(item) => SourceSpan::new(item.file_id, item.name.span),
                None => nowhere(),
            },
            ItemIndex::TypeSet(index) => match state::seq_at(self.typesets, index) {
                Some(item) => SourceSpan::new(item.file_id, item.name.span),
                None => nowhere(),
            },
            ItemIndex::Trait(index) => match state::seq_at(self.traits, index) {
                Some(item) => SourceSpan::new(item.file_id, item.name.span),
                None => nowhere(),
            },
            ItemIndex::TraitImpl(index) => match state::seq_at(self.trait_impls, index) {
                Some(item) => SourceSpan::new(item.file_id, item.span),
                None => nowhere(),
            },
        }
    }

    /// Where what a name stands for is declared.
    pub open spec fn symbol_location(self, kind: SymbolKind) -> SourceSpan {
        match kind {
            SymbolKind::Function { func_index } => self.item_location(
                ItemIndex::Function(func_index),
            ),
            SymbolKind::Global { global_index } => self.item_location(
                ItemIndex::Global(global_index),
            ),
            SymbolKind::Const { const_index } => self.item_location(ItemIndex::Const(const_index)),
            SymbolKind::Enum { enum_index } => self.item_location(ItemIndex::Enum(enum_index)),
            SymbolKind::Struct { struct_index } => self.item_location(
                ItemIndex::Struct(struct_index),
            ),
            SymbolKind::Module { namespace_idx } => self.namespace_location(namespace_idx),
            SymbolKind::Trait { trait_index } => self.item_location(ItemIndex::Trait(trait_index)),
            SymbolKind::TypeSet { typeset_index } => self.item_location(
                ItemIndex::TypeSet(typeset_index),
            ),
            SymbolKind::Memory { memory_index, kind: _ } => self.item_location(
                ItemIndex::Memory(memory_index),
            ),
            SymbolKind::TraitAssocType { trait_index, assoc_name: _ } => self.item_location(
                ItemIndex::Trait(trait_index),
            ),
            SymbolKind::TypeAlias { type_alias_index } => self.item_location(
                ItemIndex::TypeAlias(type_alias_index),
            ),
            SymbolKind::Pending(id) => match self.item(id) {
                Some(item) => self.item_location(item),
                None => nowhere(),
            },
        }
    }

    /// Claims a name for a definition: the first definition in a namespace
    /// gets it, each later one is reported.
    pub open spec fn claimed(
        self,
        namespace: Option<usize>,
        space: SymbolNamespace,
        name: Symbol,
        id: DefId,
        definition: SourceSpan,
    ) -> (State<'ast>, PendingClaim) {
        match self.direct_symbol(namespace, space, name) {
            Some(existing) => (
                self.report(
                    report_duplicate_definition(
                        name,
                        space,
                        self.symbol_location(existing),
                        definition,
                    ),
                ),
                PendingClaim::Duplicate,
            ),
            None => (
                self.with_symbol(namespace, space, name, SymbolKind::Pending(id)),
                PendingClaim::Claimed,
            ),
        }
    }

    /// Gives a name its meaning if the definition still holds its claim on it.
    pub open spec fn bound(
        self,
        namespace: Option<usize>,
        space: SymbolNamespace,
        name: Symbol,
        id: DefId,
        kind: SymbolKind,
    ) -> State<'ast> {
        if self.direct_symbol(namespace, space, name) == Some(SymbolKind::Pending(id)) {
            self.with_symbol(namespace, space, name, kind)
        } else {
            self
        }
    }

    /// Records a use, in type position, of what a name stands for.
    pub open spec fn type_kind_access(self, kind: SymbolKind, span: SourceSpan) -> State<'ast> {
        match kind {
            SymbolKind::Struct { struct_index } => self.access(
                AccessTarget::Struct(struct_index),
                span,
            ),
            SymbolKind::Enum { enum_index } => self.access(AccessTarget::Enum(enum_index), span),
            SymbolKind::Trait { trait_index } => self.access(
                AccessTarget::Trait(trait_index),
                span,
            ),
            SymbolKind::TypeSet { typeset_index } => self.access(
                AccessTarget::TypeSet(typeset_index),
                span,
            ),
            SymbolKind::TypeAlias { type_alias_index } => self.access(
                AccessTarget::TypeAlias(type_alias_index),
                span,
            ),
            SymbolKind::Const { const_index } => self.access(
                AccessTarget::Const(const_index),
                span,
            ),
            SymbolKind::Memory { memory_index, kind: _ } => self.access(
                AccessTarget::Memory(memory_index),
                span,
            ),
            _ => self,
        }
    }

    /// The type that a name stands for, or the type of the value it stands
    /// for.
    pub open spec fn kind_type(self, kind: SymbolKind) -> (State<'ast>, Option<TypeIndex>) {
        match kind {
            SymbolKind::Memory { memory_index, kind } => match state::seq_at(
                self.memories,
                memory_index,
            ) {
                Some(memory) => {
                    let (s, index) = self.intern(Type::Memory { kind, id: memory.id });
                    (s, Some(index))
                },
                None => (self, None),
            },
            SymbolKind::Module { namespace_idx } => {
                let (s, index) = self.intern(Type::Namespace { namespace_idx });
                (s, Some(index))
            },
            SymbolKind::Enum { enum_index } => {
                let (s, index) = self.intern(Type::Enum { enum_index });
                (s, Some(index))
            },
            SymbolKind::Struct { struct_index } => {
                let (s, index) = self.intern(Type::Struct { struct_index, args: List::Nil });
                (s, Some(index))
            },
            SymbolKind::Const { const_index } => match state::seq_at(self.constants, const_index) {
                Some(constant) => (self, Some(constant.ty.inner)),
                None => (self, None),
            },
            SymbolKind::Global { global_index } => match state::seq_at(
                self.globals,
                global_index,
            ) {
                Some(global) => (self, Some(global.ty.inner)),
                None => (self, None),
            },
            SymbolKind::Function { func_index } => match self.function(func_index) {
                Some(function) => (self, Some(function.signature_index)),
                None => (self, None),
            },
            SymbolKind::TypeAlias { type_alias_index } => match state::seq_at(
                self.type_aliases,
                type_alias_index,
            ) {
                Some(alias) => (self, Some(alias.template)),
                None => (self, None),
            },
            SymbolKind::Trait { .. } | SymbolKind::TypeSet { .. }
            | SymbolKind::TraitAssocType { .. } | SymbolKind::Pending(_) => (self, None),
        }
    }

    /// The expression that a name stands for outside of any function.
    pub open spec fn global_expression(
        self,
        context: ResolveContext,
        access: AccessContext,
        kind: SymbolKind,
        span: TextSpan,
    ) -> (State<'ast>, Expression) {
        match kind {
            SymbolKind::Function { func_index } => match self.function(func_index) {
                Some(function) => {
                    let s = self.access(AccessTarget::Function(func_index), context.at(span));
                    let (t, ty) = s.intern(
                        Type::FunctionItem {
                            id: function.id,
                            type_args: List::repeated(
                                ty::INFER,
                                crate::list::clamp(function.type_params.count()) as nat,
                            ),
                        },
                    );
                    (t, Expression { kind: ExprKind::Function { id: function.id }, ty, span })
                },
                None => (self, poisoned(span)),
            },
            SymbolKind::Global { global_index } => match state::seq_at(
                self.globals,
                global_index,
            ) {
                Some(global) => {
                    let s = self.access(AccessTarget::Global(global_index), context.at(span));
                    let t = if access.access_kind != AccessKind::Read && global.mut_span is None {
                        s.report(report_cannot_mutate_immutable(context.at(span)))
                    } else {
                        s
                    };
                    (
                        t,
                        Expression {
                            kind: ExprKind::Global { id: global.id },
                            ty: global.ty.inner,
                            span,
                        },
                    )
                },
                None => (self, poisoned(span)),
            },
            SymbolKind::Const { const_index } => match state::seq_at(self.constants, const_index) {
                Some(constant) => (
                    self.access(AccessTarget::Const(const_index), context.at(span)),
                    Expression {
                        kind: ExprKind::Const { id: constant.id },
                        ty: constant.ty.inner,
                        span,
                    },
                ),
                None => (self, poisoned(span)),
            },
            SymbolKind::Memory { memory_index, kind } => match state::seq_at(
                self.memories,
                memory_index,
            ) {
                Some(memory) => {
                    let s = self.access(AccessTarget::Memory(memory_index), context.at(span));
                    let (t, ty) = s.intern(Type::Memory { kind, id: memory.id });
                    (t, Expression { kind: ExprKind::Memory { id: memory.id }, ty, span })
                },
                None => (self, poisoned(span)),
            },
            SymbolKind::Enum { .. } | SymbolKind::Module { .. } | SymbolKind::Struct { .. }
            | SymbolKind::Trait { .. } | SymbolKind::TypeSet { .. }
            | SymbolKind::TypeAlias { .. } => (
                self.report(report_namespace_used_as_value(context.at(span))),
                poisoned(span),
            ),
            SymbolKind::TraitAssocType { .. } | SymbolKind::Pending(_) => (self, poisoned(span)),
        }
    }

    /// The namespace of a module under a name, which is created where there
    /// is none.
    pub open spec fn module_ensured(
        self,
        file_id: FileId,
        namespace: Option<usize>,
        name: Spanned<Symbol>,
        pub_span: Option<TextSpan>,
    ) -> (State<'ast>, usize) {
        match self.visible_symbol(namespace, SymbolNamespace::Type, name.inner) {
            Some(SymbolKind::Module { namespace_idx }) => (
                self.module_published(namespace_idx, pub_span),
                namespace_idx,
            ),
            _ => {
                let namespace_idx = self.namespaces.len() as usize;
                let decl_idx = self.module_decls.len() as usize;
                let s = State {
                    namespaces: self.namespaces.push(
                        ModuleNamespace {
                            name: name.inner,
                            parent: namespace,
                            declaration: ModuleDeclarationKind::Module(decl_idx),
                            wildcard_imports: List::Nil,
                        },
                    ),
                    module_decls: self.module_decls.push(
                        ModuleDecl {
                            namespace_idx,
                            declaring_file_id: file_id,
                            own_file_id: None,
                            name,
                            pub_span,
                        },
                    ),
                    ..self
                };
                (
                    s.with_symbol(
                        namespace,
                        SymbolNamespace::Type,
                        name.inner,
                        SymbolKind::Module { namespace_idx },
                    ),
                    namespace_idx,
                )
            },
        }
    }

    /// Marks a module as public where it was declared without that before.
    pub open spec fn module_published(self, namespace_idx: usize, pub_span: Option<TextSpan>) -> State<
        'ast,
    > {
        match state::seq_at(self.namespaces, namespace_idx) {
            Some(declaration) => match declaration.declaration {
                ModuleDeclarationKind::Module(decl_idx) => match state::seq_at(
                    self.module_decls,
                    decl_idx,
                ) {
                    Some(decl) => if decl.pub_span is None {
                        State {
                            module_decls: self.module_decls.update(
                                decl_idx as int,
                                ModuleDecl { pub_span, ..decl },
                            ),
                            ..self
                        }
                    } else {
                        self
                    },
                    None => self,
                },
                _ => self,
            },
            None => self,
        }
    }

    /// Notes the file that holds a module's own source.
    pub open spec fn module_located(self, namespace_idx: usize, file_id: FileId) -> State<'ast> {
        match state::seq_at(self.namespaces, namespace_idx) {
            Some(declaration) => match declaration.declaration {
                ModuleDeclarationKind::Module(decl_idx) => match state::seq_at(
                    self.module_decls,
                    decl_idx,
                ) {
                    Some(decl) => State {
                        module_decls: self.module_decls.update(
                            decl_idx as int,
                            ModuleDecl { own_file_id: Some(file_id), ..decl },
                        ),
                        ..self
                    },
                    None => self,
                },
                _ => self,
            },
            None => self,
        }
    }

    /// The namespace at the end of a path of modules, each created where
    /// there is none. The last one is the module whose source the file is.
    pub open spec fn module_path_ensured(
        self,
        file_id: FileId,
        base: Option<usize>,
        path: List<Symbol>,
    ) -> (State<'ast>, Option<usize>)
        decreases path,
    {
        match path {
            List::Nil => (self, base),
            List::Cons(segment, rest) => {
                let name = Spanned { inner: *segment, span: TextSpan::new(0, 0) };
                let (s, index) = self.module_ensured(file_id, base, name, None);
                let t = match *rest {
                    List::Nil => s.module_located(index, file_id),
                    List::Cons(..) => s,
                };
                t.module_path_ensured(file_id, Some(index), *rest)
            },
        }
    }
}

/// The start of the first file.
#[verifier::allow_in_spec]
pub fn nowhere() -> (result: SourceSpan)
    returns
        (SourceSpan { file_id: 0, span: TextSpan { start: 0, end: 0 } }),
{
    SourceSpan { file_id: 0, span: TextSpan { start: 0, end: 0 } }
}

/// The expression that stands for one with a reported error.
#[verifier::allow_in_spec]
pub fn poisoned(span: TextSpan) -> (result: Expression)
    returns
        (Expression { kind: ExprKind::Error, ty: ty::ERROR, span }),
{
    Expression { kind: ExprKind::Error, ty: ty::ERROR, span }
}

impl<'ast> Builder<'ast> {
    /// The type that is built in under a name.
    pub fn primitive_type(&self, name: Symbol) -> (result: Option<TypeIndex>)
        ensures
            result == self@.primitive_type(name),
    {
        if self.interner.is_named(name, "u8") {
            Some(ty::U8)
        } else if self.interner.is_named(name, "i8") {
            Some(ty::I8)
        } else if self.interner.is_named(name, "u16") {
            Some(ty::U16)
        } else if self.interner.is_named(name, "i16") {
            Some(ty::I16)
        } else if self.interner.is_named(name, "u32") {
            Some(ty::U32)
        } else if self.interner.is_named(name, "i32") {
            Some(ty::I32)
        } else if self.interner.is_named(name, "u64") {
            Some(ty::U64)
        } else if self.interner.is_named(name, "i64") {
            Some(ty::I64)
        } else if self.interner.is_named(name, "f32") {
            Some(ty::F32)
        } else if self.interner.is_named(name, "f64") {
            Some(ty::F64)
        } else if self.interner.is_named(name, "bool") {
            Some(ty::BOOL)
        } else if self.interner.is_named(name, "char") {
            Some(ty::CHAR)
        } else {
            None
        }
    }

    fn find_imported_symbol(
        &self,
        imports: &List<usize>,
        space: SymbolNamespace,
        name: Symbol,
    ) -> (result: Option<SymbolKind>)
        ensures
            result == self@.imported_symbol(*imports, space, name),
        decreases imports,
    {
        match imports {
            List::Nil => None,
            List::Cons(import, rest) => match self.direct_scope_lookup(
                Some(**import),
                space,
                name,
            ) {
                Some(kind) => Some(kind),
                None => self.find_imported_symbol(rest, space, name),
            },
        }
    }

    fn find_root_imported_symbol(&self, space: SymbolNamespace, name: Symbol) -> (result: Option<
        SymbolKind,
    >)
        ensures
            result == self@.root_imported_symbol(space, name, 0),
    {
        let mut i: usize = 0;
        while i < self.root_wildcard_imports.len()
            invariant
                i <= self.root_wildcard_imports.len(),
                self@.root_imported_symbol(space, name, 0) == self@.root_imported_symbol(
                    space,
                    name,
                    i as int,
                ),
            decreases self.root_wildcard_imports.len() - i,
        {
            let import: usize = self.root_wildcard_imports[i];
            let found = self.direct_scope_lookup(Some(import), space, name);
            if found.is_some() {
                return found;
            }
            i = i + 1;
        }
        None
    }

    /// The namespace around a namespace; none where that is the root.
    pub fn namespace_around(&self, index: usize) -> (result: Option<usize>)
        ensures
            result == self@.namespace_around(index),
    {
        match vec_at(&self.namespaces, index) {
            Some(declaration) => declaration.parent,
            None => None,
        }
    }

    /// Whether a namespace is another one or lies within it. Every namespace
    /// lies within the root.
    pub fn is_within(&self, inner: Option<usize>, outer: Option<usize>) -> (result: bool)
        ensures
            result == self@.is_within(inner, outer),
    {
        self.is_within_steps(inner, outer, self.namespaces.len())
    }

    fn is_within_steps(&self, inner: Option<usize>, outer: Option<usize>, steps: usize) -> (result:
        bool)
        ensures
            result == self@.is_within_steps(inner, outer, steps as nat),
        decreases steps,
    {
        if inner == outer {
            return true;
        }
        match inner {
            Some(index) => {
                let around = self.namespace_around(index);
                around == outer || steps > 0 && self.is_within_steps(around, outer, steps - 1)
            },
            None => false,
        }
    }

    /// Whether a part of a declaration is accessible from a namespace: it is
    /// public, or the namespace is that of the declaration or lies within it.
    pub fn is_accessible_from(
        &self,
        namespace: Option<usize>,
        declaring: Option<usize>,
        pub_span: Option<TextSpan>,
    ) -> (result: bool)
        ensures
            result == self@.is_accessible_from(namespace, declaring, pub_span),
    {
        pub_span.is_some() || self.is_within(namespace, declaring)
    }

    /// The meaning of a name in a namespace: its own, otherwise that of its
    /// wildcard imports in order.
    fn find_symbol_in(&self, index: usize, space: SymbolNamespace, name: Symbol) -> (result: Option<
        SymbolKind,
    >)
        ensures
            result == self@.symbol_in(index, space, name),
    {
        match self.direct_scope_lookup(Some(index), space, name) {
            Some(kind) => Some(kind),
            None => match vec_at(&self.namespaces, index) {
                Some(declaration) => self.find_imported_symbol(
                    &declaration.wildcard_imports,
                    space,
                    name,
                ),
                None => None,
            },
        }
    }

    /// The meaning of a name in the root: its own, otherwise that of its
    /// wildcard imports in order.
    fn find_root_symbol(&self, space: SymbolNamespace, name: Symbol) -> (result: Option<SymbolKind>)
        ensures
            result == self@.root_symbol(space, name),
    {
        match self.direct_scope_lookup(None, space, name) {
            Some(kind) => Some(kind),
            None => self.find_root_imported_symbol(space, name),
        }
    }

    /// The meaning of a name seen from a namespace: that which it has there,
    /// otherwise that which it has in the enclosing namespace, and last that
    /// which it has in the root.
    pub fn lookup_global_symbol(
        &self,
        namespace: Option<usize>,
        space: SymbolNamespace,
        name: Symbol,
    ) -> (result: Option<SymbolKind>)
        ensures
            result == self@.visible_symbol(namespace, space, name),
    {
        self.find_in_steps(namespace, space, name, self.namespaces.len())
    }

    fn find_in_steps(
        &self,
        namespace: Option<usize>,
        space: SymbolNamespace,
        name: Symbol,
        steps: usize,
    ) -> (result: Option<SymbolKind>)
        ensures
            result == self@.visible_in_steps(namespace, space, name, steps as nat),
        decreases steps,
    {
        match namespace {
            Some(index) => match self.find_symbol_in(index, space, name) {
                Some(kind) => Some(kind),
                None => match self.namespace_around(index) {
                    Some(parent) => if steps > 0 {
                        self.find_in_steps(Some(parent), space, name, steps - 1)
                    } else {
                        None
                    },
                    None => self.find_root_symbol(space, name),
                },
            },
            None => self.find_root_symbol(space, name),
        }
    }

    fn namespace_location(&self, index: usize) -> (result: SourceSpan)
        ensures
            result == self@.namespace_location(index),
    {
        match vec_at(&self.namespaces, index) {
            Some(declaration) => match declaration.declaration {
                ModuleDeclarationKind::Module(decl) => match vec_at(&self.module_decls, decl) {
                    Some(decl) => SourceSpan::new(decl.declaring_file_id, decl.name.span),
                    None => nowhere(),
                },
                ModuleDeclarationKind::Import(decl) => match vec_at(&self.import_decls, decl) {
                    Some(decl) => SourceSpan::new(decl.file_id, decl.external_name.span),
                    None => nowhere(),
                },
                ModuleDeclarationKind::Crate(file_id) => SourceSpan::new(
                    file_id,
                    TextSpan::new(0, 0),
                ),
            },
            None => nowhere(),
        }
    }

    /// Where an item is declared.
    pub fn item_location(&self, item: ItemIndex) -> (result: SourceSpan)
        ensures
            result == self@.item_location(item),
    {
        match item {
            ItemIndex::Function(index) => match self.function(index) {
                Some(item) => SourceSpan::new(item.file_id, item.name.span),
                None => nowhere(),
            },
            ItemIndex::Global(index) => match vec_at(&self.globals, index) {
                Some(item) => SourceSpan::new(item.file_id, item.name.span),
                None => nowhere(),
            },
            ItemIndex::Memory(index) => match vec_at(&self.memories, index) {
                Some(item) => SourceSpan::new(item.file_id, item.name.span),
                None => nowhere(),
            },
            ItemIndex::Struct(index) => match vec_at(&self.structs, index) {
                Some(item) => SourceSpan::new(item.file_id, item.name.span),
                None => nowhere(),
            },
            ItemIndex::Const(index) => match vec_at(&self.constants, index) {
                Some(item) => SourceSpan::new(item.file_id, item.name.span),
                None => nowhere(),
            },
            ItemIndex::Enum(index) => match vec_at(&self.enums, index) {
                Some(item) => SourceSpan::new(item.file_id, item.name.span),
                None => nowhere(),
            },
            ItemIndex::TypeAlias(index) => match vec_at(&self.type_aliases, index) {
                Some(item) => SourceSpan::new(item.file_id, item.name.span),
                None => nowhere(),
            },
            ItemIndex::TypeSet(index) => match vec_at(&self.typesets, index) {
                Some(item) => SourceSpan::new(item.file_id, item.name.span),
                None => nowhere(),
            },
            ItemIndex::Trait(index) => match vec_at(&self.traits, index) {
                Some(item) => SourceSpan::new(item.file_id, item.name.span),
                None => nowhere(),
            },
            ItemIndex::TraitImpl(index) => match vec_at(&self.trait_impls, index) {
                Some(item) => SourceSpan::new(item.file_id, item.span),
                None => nowhere(),
            },
        }
    }

    /// Where what a name stands for is declared.
    pub fn get_symbol_location(&self, kind: SymbolKind) -> (result: SourceSpan)
        ensures
            result == self@.symbol_location(kind),
    {
        match kind {
            SymbolKind::Function { func_index } => self.item_location(
                ItemIndex::Function(func_index),
            ),
            SymbolKind::Global { global_index } => self.item_location(
                ItemIndex::Global(global_index),
            ),
            SymbolKind::Const { const_index } => self.item_location(ItemIndex::Const(const_index)),
            SymbolKind::Enum { enum_index } => self.item_location(ItemIndex::Enum(enum_index)),
            SymbolKind::Struct { struct_index } => self.item_location(
                ItemIndex::Struct(struct_index),
            ),
            SymbolKind::Module { namespace_idx } => self.namespace_location(namespace_idx),
            SymbolKind::Trait { trait_index } => self.item_location(ItemIndex::Trait(trait_index)),
            SymbolKind::TypeSet { typeset_index } => self.item_location(
                ItemIndex::TypeSet(typeset_index),
            ),
            SymbolKind::Memory { memory_index, .. } => self.item_location(
                ItemIndex::Memory(memory_index),
            ),
            SymbolKind::TraitAssocType { trait_index, .. } => self.item_location(
                ItemIndex::Trait(trait_index),
            ),
            SymbolKind::TypeAlias { type_alias_index } => self.item_location(
                ItemIndex::TypeAlias(type_alias_index),
            ),
            SymbolKind::Pending(id) => match self.item(id) {
                Some(item) => self.item_location(item),
                None => nowhere(),
            },
        }
    }

    /// Claims a name for a definition.
    pub fn claim_name_binding(
        &mut self,
        namespace: Option<usize>,
        space: SymbolNamespace,
        name: Symbol,
        id: DefId,
        definition: SourceSpan,
    ) -> (result: PendingClaim)
        ensures
            (final(self)@, result) == old(self)@.claimed(namespace, space, name, id, definition),
    {
        match self.direct_scope_lookup(namespace, space, name) {
            Some(existing) => {
                let first = self.get_symbol_location(existing);
                self.report(report_duplicate_definition(name, space, first, definition));
                PendingClaim::Duplicate
            },
            None => {
                self.insert_symbol(namespace, space, name, SymbolKind::Pending(id));
                PendingClaim::Claimed
            },
        }
    }

    /// Gives a name its meaning if the definition still holds its claim on it.
    pub fn bind_claimed(
        &mut self,
        namespace: Option<usize>,
        space: SymbolNamespace,
        name: Symbol,
        id: DefId,
        kind: SymbolKind,
    )
        ensures
            final(self)@ == old(self)@.bound(namespace, space, name, id, kind),
    {
        match self.direct_scope_lookup(namespace, space, name) {
            Some(SymbolKind::Pending(pending)) => {
                if pending == id {
                    self.insert_symbol(namespace, space, name, kind);
                }
            },
            _ => {},
        }
    }

    /// Records a use, in type position, of what a name stands for.
    pub fn record_type_kind_access(&mut self, kind: SymbolKind, span: SourceSpan)
        ensures
            final(self)@ == old(self)@.type_kind_access(kind, span),
    {
        match kind {
            SymbolKind::Struct { struct_index } => {
                self.access(AccessTarget::Struct(struct_index), span);
            },
            SymbolKind::Enum { enum_index } => {
                self.access(AccessTarget::Enum(enum_index), span);
            },
            SymbolKind::Trait { trait_index } => {
                self.access(AccessTarget::Trait(trait_index), span);
            },
            SymbolKind::TypeSet { typeset_index } => {
                self.access(AccessTarget::TypeSet(typeset_index), span);
            },
            SymbolKind::TypeAlias { type_alias_index } => {
                self.access(AccessTarget::TypeAlias(type_alias_index), span);
            },
            SymbolKind::Const { const_index } => {
                self.access(AccessTarget::Const(const_index), span);
            },
            SymbolKind::Memory { memory_index, .. } => {
                self.access(AccessTarget::Memory(memory_index), span);
            },
            _ => {},
        }
    }

    /// The type that a name stands for, or the type of the value it stands
    /// for.
    pub fn symbol_kind_to_type(&mut self, kind: SymbolKind) -> (result: Option<TypeIndex>)
        ensures
            (final(self)@, result) == old(self)@.kind_type(kind),
    {
        match kind {
            SymbolKind::Memory { memory_index, kind } => {
                let id: DefId = match vec_at(&self.memories, memory_index) {
                    Some(memory) => memory.id,
                    None => {
                        return None;
                    },
                };
                Some(self.intern_type(Type::Memory { kind, id }))
            },
            SymbolKind::Module { namespace_idx } => Some(
                self.intern_type(Type::Namespace { namespace_idx }),
            ),
            SymbolKind::Enum { enum_index } => Some(self.intern_type(Type::Enum { enum_index })),
            SymbolKind::Struct { struct_index } => Some(
                self.intern_type(Type::Struct { struct_index, args: List::Nil }),
            ),
            SymbolKind::Const { const_index } => match vec_at(&self.constants, const_index) {
                Some(constant) => Some(constant.ty.inner),
                None => None,
            },
            SymbolKind::Global { global_index } => match vec_at(&self.globals, global_index) {
                Some(global) => Some(global.ty.inner),
                None => None,
            },
            SymbolKind::Function { func_index } => match self.function(func_index) {
                Some(function) => Some(function.signature_index),
                None => None,
            },
            SymbolKind::TypeAlias { type_alias_index } => match vec_at(
                &self.type_aliases,
                type_alias_index,
            ) {
                Some(alias) => Some(alias.template),
                None => None,
            },
            SymbolKind::Trait { .. }
            | SymbolKind::TypeSet { .. }
            | SymbolKind::TraitAssocType { .. }
            | SymbolKind::Pending(_) => None,
        }
    }

    /// The expression that a name stands for outside of any function.
    pub fn global_symbol_to_expression(
        &mut self,
        context: ResolveContext,
        access: AccessContext,
        kind: SymbolKind,
        span: TextSpan,
    ) -> (result: Expression)
        ensures
            (final(self)@, result) == old(self)@.global_expression(context, access, kind, span),
    {
        match kind {
            SymbolKind::Function { func_index } => {
                let (id, count) = match self.function(func_index) {
                    Some(function) => (function.id, function.type_params.len()),
                    None => {
                        return poisoned(span);
                    },
                };
                self.access(AccessTarget::Function(func_index), context.at(span));
                let ty: TypeIndex = self.intern_type(
                    Type::FunctionItem { id, type_args: List::repeat(ty::INFER, count) },
                );
                Expression { kind: ExprKind::Function { id }, ty, span }
            },
            SymbolKind::Global { global_index } => {
                let (id, ty, mut_span) = match vec_at(&self.globals, global_index) {
                    Some(global) => (global.id, global.ty.inner, global.mut_span),
                    None => {
                        return poisoned(span);
                    },
                };
                self.access(AccessTarget::Global(global_index), context.at(span));
                if access.access_kind != AccessKind::Read && mut_span.is_none() {
                    self.report(report_cannot_mutate_immutable(context.at(span)));
                }
                Expression { kind: ExprKind::Global { id }, ty, span }
            },
            SymbolKind::Const { const_index } => {
                let (id, ty) = match vec_at(&self.constants, const_index) {
                    Some(constant) => (constant.id, constant.ty.inner),
                    None => {
                        return poisoned(span);
                    },
                };
                self.access(AccessTarget::Const(const_index), context.at(span));
                Expression { kind: ExprKind::Const { id }, ty, span }
            },
            SymbolKind::Memory { memory_index, kind } => {
                let id: DefId = match vec_at(&self.memories, memory_index) {
                    Some(memory) => memory.id,
                    None => {
                        return poisoned(span);
                    },
                };
                self.access(AccessTarget::Memory(memory_index), context.at(span));
                let ty: TypeIndex = self.intern_type(Type::Memory { kind, id });
                Expression { kind: ExprKind::Memory { id }, ty, span }
            },
            SymbolKind::Enum { .. }
            | SymbolKind::Module { .. }
            | SymbolKind::Struct { .. }
            | SymbolKind::Trait { .. }
            | SymbolKind::TypeSet { .. }
            | SymbolKind::TypeAlias { .. } => {
                self.report(report_namespace_used_as_value(context.at(span)));
                poisoned(span)
            },
            SymbolKind::TraitAssocType { .. } | SymbolKind::Pending(_) => poisoned(span),
        }
    }

    fn publish_module(&mut self, namespace_idx: usize, pub_span: Option<TextSpan>)
        ensures
            final(self)@ == old(self)@.module_published(namespace_idx, pub_span),
    {
        let decl_idx: usize = match vec_at(&self.namespaces, namespace_idx) {
            Some(declaration) => match declaration.declaration {
                ModuleDeclarationKind::Module(decl_idx) => decl_idx,
                _ => {
                    return ;
                },
            },
            None => {
                return ;
            },
        };
        if decl_idx < self.module_decls.len() && self.module_decls[decl_idx].pub_span.is_none() {
            self.module_decls[decl_idx].pub_span = pub_span;
        }
    }

    fn locate_module(&mut self, namespace_idx: usize, file_id: FileId)
        ensures
            final(self)@ == old(self)@.module_located(namespace_idx, file_id),
    {
        let decl_idx: usize = match vec_at(&self.namespaces, namespace_idx) {
            Some(declaration) => match declaration.declaration {
                ModuleDeclarationKind::Module(decl_idx) => decl_idx,
                _ => {
                    return ;
                },
            },
            None => {
                return ;
            },
        };
        if decl_idx < self.module_decls.len() {
            self.module_decls[decl_idx].own_file_id = Some(file_id);
        }
    }

    /// The namespace of a module under a name, which is created where there
    /// is none.
    pub fn ensure_module(
        &mut self,
        file_id: FileId,
        namespace: Option<usize>,
        name: Spanned<Symbol>,
        pub_span: Option<TextSpan>,
    ) -> (result: usize)
        ensures
            (final(self)@, result) == old(self)@.module_ensured(
                file_id,
                namespace,
                name,
                pub_span,
            ),
    {
        match self.lookup_global_symbol(namespace, SymbolNamespace::Type, name.inner) {
            Some(SymbolKind::Module { namespace_idx }) => {
                self.publish_module(namespace_idx, pub_span);
                return namespace_idx;
            },
            _ => {},
        }
        let namespace_idx: usize = self.namespaces.len();
        let decl_idx: usize = self.module_decls.len();
        self.namespaces.push(
            ModuleNamespace {
                name: name.inner,
                parent: namespace,
                declaration: ModuleDeclarationKind::Module(decl_idx),
                wildcard_imports: List::Nil,
            },
        );
        self.module_decls.push(
            ModuleDecl {
                namespace_idx,
                declaring_file_id: file_id,
                own_file_id: None,
                name,
                pub_span,
            },
        );
        self.insert_symbol(
            namespace,
            SymbolNamespace::Type,
            name.inner,
            SymbolKind::Module { namespace_idx },
        );
        namespace_idx
    }

    /// The namespace at the end of a path of modules, each created where
    /// there is none.
    pub fn ensure_module_path(
        &mut self,
        file_id: FileId,
        base: Option<usize>,
        path: &List<Symbol>,
    ) -> (result: Option<usize>)
        ensures
            (final(self)@, result) == old(self)@.module_path_ensured(file_id, base, *path),
        decreases path,
    {
        match path {
            List::Nil => base,
            List::Cons(segment, rest) => {
                let name = Spanned { inner: **segment, span: TextSpan::new(0, 0) };
                let index: usize = self.ensure_module(file_id, base, name, None);
                if rest.is_empty() {
                    self.locate_module(index, file_id);
                }
                self.ensure_module_path(file_id, Some(index), rest)
            },
        }
    }
}

} // verus!
