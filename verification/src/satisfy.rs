//! Whether a type meets the bounds that are written on a declaration: the
//! traits it must implement, and what their `where` clauses say of its
//! associated types, at every level as they are written.
//!
//! An empty list of violations says that nothing was disproved: a poisoned
//! type, or one that is still too abstract to tell, violates nothing.

use vstd::prelude::*;

use crate::ast::TypeParam;
use crate::diagnostics::{text, with_piece, Diagnostic, DiagnosticCode, Message, Piece};
use crate::list::{single, List};
use crate::relate::MAX_DEPTH;
use crate::span::{FileId, SourceSpan, Symbol, TextSpan};
use crate::state;
use crate::state::{vec_at, Builder, State};
use crate::tir::{AssocBinding, AssocBindingKind, Bounds, ItemIndex, TraitAssocType, TraitBound};
use crate::ty;
use crate::types::{Type, TypeIndex, TypeParamOwner};

verus! {

/// The type under check, with the place whose author can act on a violation.
#[derive(Clone, Copy, Debug, PartialEq, Eq, Structural)]
pub struct Subject {
    pub ty: TypeIndex,
    pub at: SourceSpan,
}

impl Subject {
    #[verifier::allow_in_spec]
    pub fn new(at: SourceSpan, ty: TypeIndex) -> (result: Subject)
        returns
            (Subject { ty, at }),
    {
        Subject { ty, at }
    }

    /// A different type at the same place.
    #[verifier::allow_in_spec]
    pub fn with_type(self, ty: TypeIndex) -> (result: Subject)
        returns
            (Subject { ty, at: self.at }),
    {
        Subject { ty, at: self.at }
    }
}

/// The declaration whose written bounds are at issue.
#[allow(inconsistent_fields)]
#[derive(Clone, Copy, Debug, PartialEq, Eq, Structural)]
pub enum BoundOrigin {
    /// The bounds of a type parameter, counted with the inherited ones first.
    TypeParam { owner: TypeParamOwner, index: usize },
    /// The bounds that a trait declares for one of its associated types.
    TraitAssocType { trait_index: usize, name: Symbol },
}

/// A trait that a type must implement and does not.
#[verifier::allow_in_spec]
pub fn report_missing_trait(
    subject: Subject,
    trait_name: Symbol,
    required_at: SourceSpan,
    required_by: Message,
) -> (result: Diagnostic)
    returns
        Diagnostic::error()
            .with_code(DiagnosticCode::TraitBoundViolation)
            .with_message(with_piece("the trait bound `", Piece::Type(subject.ty), with_piece(": ", Piece::Name(trait_name), text("` is not satisfied"))))
            .with_label(subject.at.primary_label().with_message(with_piece("the trait `", Piece::Name(trait_name), with_piece("` is not implemented for `", Piece::Type(subject.ty), text("`")))))
            .with_label(required_at.secondary_label().with_message(required_by)),
{
    Diagnostic::error()
        .with_code(DiagnosticCode::TraitBoundViolation)
        .with_message(with_piece("the trait bound `", Piece::Type(subject.ty), with_piece(": ", Piece::Name(trait_name), text("` is not satisfied"))))
        .with_label(subject.at.primary_label().with_message(with_piece("the trait `", Piece::Name(trait_name), with_piece("` is not implemented for `", Piece::Type(subject.ty), text("`")))))
        .with_label(required_at.secondary_label().with_message(required_by))
}

/// An associated type that is another type than a `where` clause says.
#[verifier::allow_in_spec]
pub fn report_equals_mismatch(
    subject: Subject,
    assoc_name: Symbol,
    expected: TypeIndex,
    actual: TypeIndex,
    required_at: SourceSpan,
    required_by: Message,
) -> (result: Diagnostic)
    returns
        Diagnostic::error()
            .with_code(DiagnosticCode::TraitBoundViolation)
            .with_message(with_piece("the associated type binding `", Piece::Name(assoc_name), with_piece(" = ", Piece::Type(expected), text("` is not satisfied"))))
            .with_label(subject.at.primary_label().with_message(with_piece("`", Piece::Type(subject.ty), with_piece("::", Piece::Name(assoc_name), with_piece("` is `", Piece::Type(actual), with_piece("`, not `", Piece::Type(expected), text("`")))))))
            .with_label(required_at.secondary_label().with_message(required_by)),
{
    Diagnostic::error()
        .with_code(DiagnosticCode::TraitBoundViolation)
        .with_message(with_piece("the associated type binding `", Piece::Name(assoc_name), with_piece(" = ", Piece::Type(expected), text("` is not satisfied"))))
        .with_label(subject.at.primary_label().with_message(with_piece("`", Piece::Type(subject.ty), with_piece("::", Piece::Name(assoc_name), with_piece("` is `", Piece::Type(actual), with_piece("`, not `", Piece::Type(expected), text("`")))))))
        .with_label(required_at.secondary_label().with_message(required_by))
}

/// The text of the label that names the declaration behind a bound.
#[verifier::allow_in_spec]
pub fn required_by(origin: Piece) -> (result: Message)
    returns
        with_piece("required by a bound in `", origin, text("`")),
{
    with_piece("required by a bound in `", origin, text("`"))
}

/// The type that a clause among the bindings pins an associated type to.
pub open spec fn pinned_type(bindings: &List<AssocBinding>, name: Symbol) -> Option<TypeIndex>
    decreases bindings,
{
    match bindings {
        List::Nil => None,
        List::Cons(binding, rest) => {
            match &binding.rhs {
                AssocBindingKind::Equals(index) => {
                    if binding.name.inner == name {
                        Some(*index)
                    } else {
                        pinned_type(rest, name)
                    }
                },
                AssocBindingKind::Bound(_) => pinned_type(rest, name),
            }
        },
    }
}

/// The type that a clause among the bindings pins an associated type to.
pub fn find_pinned_type(
    bindings: &List<AssocBinding>,
    name: Symbol,
) -> (result: Option<TypeIndex>)
    ensures
        result == pinned_type(bindings, name),
    decreases bindings,
{
    match bindings {
        List::Nil => None,
        List::Cons(binding, rest) => match &binding.rhs {
            AssocBindingKind::Equals(index) => if binding.name.inner == name {
                Some(*index)
            } else {
                find_pinned_type(rest, name)
            },
            AssocBindingKind::Bound(_) => find_pinned_type(rest, name),
        },
    }
}

/// The type that bounds pin an associated type of a trait to.
pub open spec fn pinned_by(
    traits: &List<TraitBound>,
    trait_index: usize,
    name: Symbol,
) -> Option<TypeIndex>
    decreases traits,
{
    match traits {
        List::Nil => None,
        List::Cons(bound, rest) => {
            if bound.trait_index == trait_index {
                match pinned_type(&bound.bindings, name) {
                    Some(index) => Some(index),
                    None => pinned_by(rest, trait_index, name),
                }
            } else {
                pinned_by(rest, trait_index, name)
            }
        },
    }
}

/// The type that bounds pin an associated type of a trait to.
pub fn find_pinned_by(
    traits: &List<TraitBound>,
    trait_index: usize,
    name: Symbol,
) -> (result: Option<TypeIndex>)
    ensures
        result == pinned_by(traits, trait_index, name),
    decreases traits,
{
    match traits {
        List::Nil => None,
        List::Cons(bound, rest) => {
            if bound.trait_index == trait_index {
                match find_pinned_type(&bound.bindings, name) {
                    Some(index) => Some(index),
                    None => find_pinned_by(rest, trait_index, name),
                }
            } else {
                find_pinned_by(rest, trait_index, name)
            }
        },
    }
}

impl<'ast> State<'ast> {
    /// The written bounds that an origin names; nothing where the declaration is
    /// missing.
    pub open spec fn origin_bounds(self, origin: BoundOrigin) -> Option<Bounds> {
        match origin {
            BoundOrigin::TypeParam { owner, index } => {
                match self.type_param(owner, index) {
                    Some(info) => Some(info.bounds),
                    None => None,
                }
            },
            BoundOrigin::TraitAssocType { trait_index, name } => {
                self.assoc_type_bounds(trait_index, name)
            },
        }
    }

    /// What `Self` means in a trait or an impl; nothing elsewhere.
    #[verifier::opaque]
    pub open spec fn owner_self_type(
        self,
        owner: TypeParamOwner,
    ) -> (State<'ast>, Option<TypeIndex>) {
        match owner {
            TypeParamOwner::Trait(trait_index) => {
                let (s, index) = self.trait_self_type(trait_index);
                (s, Some(index))
            },
            TypeParamOwner::ImplBlock(block_index) => {
                match state::seq_ref(self.inherent_impls, block_index) {
                    Some(block) => (self, Some(block.target.inner)),
                    None => (self, None),
                }
            },
            TypeParamOwner::TraitImpl(impl_index) => {
                match state::seq_ref(self.trait_impls, impl_index) {
                    Some(block) => (self, Some(block.target.inner)),
                    None => (self, None),
                }
            },
            _ => (self, None),
        }
    }

    /// What `Self` means where an origin's bounds are written: a function takes
    /// it from the trait or impl that it belongs to.
    #[verifier::opaque]
    pub open spec fn origin_self_ty(self, origin: BoundOrigin) -> (State<'ast>, Option<TypeIndex>) {
        match origin {
            BoundOrigin::TypeParam { owner, .. } => {
                match self.param_parent(owner) {
                    Some(parent) => self.owner_self_type(parent),
                    None => self.owner_self_type(owner),
                }
            },
            BoundOrigin::TraitAssocType { trait_index, .. } => {
                let (s, index) = self.trait_self_type(trait_index);
                (s, Some(index))
            },
        }
    }

    /// The file of the declaration behind a bound, and the label that names it.
    /// An impl has no name of its own, so its target stands in.
    pub open spec fn origin_label(self, origin: BoundOrigin) -> (FileId, Message) {
        match origin {
            BoundOrigin::TraitAssocType { trait_index, name } => {
                match state::seq_ref(self.traits, trait_index) {
                    Some(declaration) => {
                        (
                            declaration.file_id,
                            with_piece(
                                "required by a bound in `",
                                Piece::Name(declaration.name.inner),
                                with_piece("::", Piece::Name(name), text("`")),
                            ),
                        )
                    },
                    None => (0, List::Nil),
                }
            },
            BoundOrigin::TypeParam { owner, .. } => self.owner_label(owner),
        }
    }

    /// The file of the owner of a type parameter, and the label that names it.
    pub open spec fn owner_label(self, owner: TypeParamOwner) -> (FileId, Message) {
        match owner {
            TypeParamOwner::Trait(trait_index) => {
                match state::seq_ref(self.traits, trait_index) {
                    Some(declaration) => {
                        (declaration.file_id, required_by(Piece::Name(declaration.name.inner)))
                    },
                    None => (0, List::Nil),
                }
            },
            TypeParamOwner::ImplBlock(block_index) => {
                match state::seq_ref(self.inherent_impls, block_index) {
                    Some(block) => (block.file_id, required_by(Piece::Type(block.target.inner))),
                    None => (0, List::Nil),
                }
            },
            TypeParamOwner::TraitImpl(impl_index) => {
                match state::seq_ref(self.trait_impls, impl_index) {
                    Some(block) => (block.file_id, required_by(Piece::Type(block.target.inner))),
                    None => (0, List::Nil),
                }
            },
            TypeParamOwner::Function(id)
            | TypeParamOwner::Struct(id)
            | TypeParamOwner::TypeAlias(id) => {
                match self.item(id) {
                    Some(index) => self.item_label(index),
                    None => (0, List::Nil),
                }
            },
        }
    }

    /// The file of a function, struct or type alias, and the label that names it.
    pub open spec fn item_label(self, index: ItemIndex) -> (FileId, Message) {
        match index {
            ItemIndex::Function(func_index) => {
                match state::seq_ref(self.functions, func_index) {
                    Some(function) => {
                        (function.file_id, required_by(Piece::Name(function.name.inner)))
                    },
                    None => (0, List::Nil),
                }
            },
            ItemIndex::Struct(struct_index) => {
                match state::seq_ref(self.structs, struct_index) {
                    Some(declaration) => {
                        (declaration.file_id, required_by(Piece::Name(declaration.name.inner)))
                    },
                    None => (0, List::Nil),
                }
            },
            ItemIndex::TypeAlias(alias_index) => {
                match state::seq_ref(self.type_aliases, alias_index) {
                    Some(alias) => (alias.file_id, required_by(Piece::Name(alias.name.inner))),
                    None => (0, List::Nil),
                }
            },
            _ => (0, List::Nil),
        }
    }

    /// The diagnostic for a trait that a subject does not implement.
    pub open spec fn missing_trait(
        self,
        origin: BoundOrigin,
        subject: Subject,
        trait_index: usize,
        bound_span: TextSpan,
    ) -> Diagnostic {
        let (file_id, message) = self.origin_label(origin);
        report_missing_trait(
            subject,
            self.trait_name(trait_index),
            SourceSpan::new(file_id, bound_span),
            message,
        )
    }

    /// The diagnostic for an associated type that is not what a clause says.
    pub open spec fn equals_mismatch(
        self,
        origin: BoundOrigin,
        subject: Subject,
        assoc_name: Symbol,
        expected: TypeIndex,
        actual: TypeIndex,
        bound_span: TextSpan,
    ) -> Diagnostic {
        let (file_id, message) = self.origin_label(origin);
        report_equals_mismatch(
            subject,
            assoc_name,
            expected,
            actual,
            SourceSpan::new(file_id, bound_span),
            message,
        )
    }

    /// The type that an abstract type's own bounds pin an associated type to.
    pub open spec fn declared_assoc_value(
        self,
        index: TypeIndex,
        trait_index: usize,
        name: Symbol,
    ) -> Option<TypeIndex> {
        match self.ty(index) {
            Type::TypeParam { .. } => {
                let bounds = self.param_bounds(index);
                pinned_by(&bounds.traits, trait_index, name)
            },
            Type::AssocTypeProjection { base: _, assoc_name, trait_index: declaring } => {
                match self.assoc_type_bounds(declaring, assoc_name) {
                    Some(bounds) => pinned_by(&bounds.traits, trait_index, name),
                    None => None,
                }
            },
            _ => None,
        }
    }

    /// The value of an associated type of a type: from its impl, or, for an
    /// abstract type, from its own bounds.
    #[verifier::opaque]
    pub open spec fn known_assoc_value(
        self,
        index: TypeIndex,
        trait_index: usize,
        name: Symbol,
    ) -> (State<'ast>, Option<TypeIndex>) {
        let (s, concrete) = self.concrete_assoc_type_value(index, trait_index, name);
        match concrete {
            Some(value) => (s, Some(value)),
            None => (s, s.declared_assoc_value(index, trait_index, name)),
        }
    }

    /// The value of a clause at the place of the check: over the arguments of
    /// the site, and with the enclosing `Self` for a `Self` that they leave open.
    #[verifier::opaque]
    pub open spec fn expected_assoc_value(
        self,
        rhs: TypeIndex,
        type_args: &List<TypeIndex>,
        enclosing_self: TypeIndex,
    ) -> (State<'ast>, TypeIndex) {
        let (s, expected) = self.substituted(rhs, *type_args, MAX_DEPTH);
        match s.ty(expected) {
            Type::TypeParam { owner: TypeParamOwner::Trait(_), param_index } => {
                if param_index == 0 {
                    (s, enclosing_self)
                } else {
                    (s, expected)
                }
            },
            _ => (s, expected),
        }
    }

    /// Whether the value of an associated type contradicts what a clause says.
    /// What is poisoned or still abstract contradicts nothing.
    pub open spec fn contradicts(self, expected: TypeIndex, actual: Option<TypeIndex>) -> bool {
        match actual {
            Some(actual) => {
                if actual == ty::ERROR || expected == ty::ERROR || expected == actual {
                    false
                } else {
                    match self.ty(expected) {
                        Type::TypeParam { .. }
                        | Type::AssocTypeProjection { .. }
                        | Type::Infer => {
                            false
                        },
                        _ => true,
                    }
                }
            },
            None => false,
        }
    }

    /// The violations of a bound tree as it is written, after those found
    /// before. `Self` is the same type at every level of it.
    pub open spec fn check_written_bounds(
        self,
        origin: BoundOrigin,
        value: Subject,
        traits: &List<TraitBound>,
        self_ty: TypeIndex,
        found: List<Diagnostic>,
    ) -> (State<'ast>, List<Diagnostic>)
        decreases traits, 0int,
    {
        match traits {
            List::Nil => (self, found),
            List::Cons(bound, rest) => {
                if self.type_implements_trait(value.ty, bound.trait_index) {
                    let (s, found) = self.check_written_bindings(
                        origin,
                        value,
                        bound.trait_index,
                        bound.span,
                        &bound.bindings,
                        self_ty,
                        found,
                    );
                    s.check_written_bounds(origin, value, rest, self_ty, found)
                } else {
                    let missing = self.missing_trait(
                        origin,
                        value,
                        bound.trait_index,
                        bound.span,
                    );
                    self.check_written_bounds(origin, value, rest, self_ty, found.push(missing))
                }
            },
        }
    }

    /// The violations of the clauses of one written bound.
    pub open spec fn check_written_bindings(
        self,
        origin: BoundOrigin,
        value: Subject,
        trait_index: usize,
        bound_span: TextSpan,
        bindings: &List<AssocBinding>,
        self_ty: TypeIndex,
        found: List<Diagnostic>,
    ) -> (State<'ast>, List<Diagnostic>)
        decreases bindings, 1int,
    {
        match bindings {
            List::Nil => (self, found),
            List::Cons(binding, rest) => {
                let (s, actual) = self.concrete_assoc_type_value(
                    value.ty,
                    trait_index,
                    binding.name.inner,
                );
                let (s, found) = match actual {
                    Some(actual) => {
                        s.check_written_binding(
                            origin,
                            value,
                            actual,
                            bound_span,
                            binding,
                            self_ty,
                            found,
                        )
                    },
                    None => (s, found),
                };
                s.check_written_bindings(
                    origin,
                    value,
                    trait_index,
                    bound_span,
                    rest,
                    self_ty,
                    found,
                )
            },
        }
    }

    /// The violations of one clause, given the value of its associated type.
    pub open spec fn check_written_binding(
        self,
        origin: BoundOrigin,
        value: Subject,
        actual: TypeIndex,
        bound_span: TextSpan,
        binding: &AssocBinding,
        self_ty: TypeIndex,
        found: List<Diagnostic>,
    ) -> (State<'ast>, List<Diagnostic>)
        decreases binding, 0int,
    {
        if actual == ty::ERROR {
            (self, found)
        } else {
            match &binding.rhs {
                AssocBindingKind::Equals(rhs) => {
                    let (s, expected) = self.substituted(*rhs, single(self_ty), MAX_DEPTH);
                    if expected != ty::ERROR && expected != actual {
                        (
                            s,
                            found.push(
                                s.equals_mismatch(
                                    origin,
                                    value,
                                    binding.name.inner,
                                    expected,
                                    actual,
                                    bound_span,
                                ),
                            ),
                        )
                    } else {
                        (s, found)
                    }
                },
                AssocBindingKind::Bound(required) => {
                    self.check_written_bounds(
                        origin,
                        value.with_type(actual),
                        &required.traits,
                        self_ty,
                        found,
                    )
                },
            }
        }
    }

    /// The violations of the bounds that a trait declares for an associated
    /// type, by a value for it. `self_ty` is what `Self` means in those bounds.
    /// The declarations behind them are not opened in turn.
    #[verifier::opaque]
    pub open spec fn check_declared_bounds(
        self,
        trait_index: usize,
        name: Symbol,
        value: Subject,
        self_ty: TypeIndex,
        found: List<Diagnostic>,
    ) -> (State<'ast>, List<Diagnostic>) {
        if value.ty == ty::ERROR {
            (self, found)
        } else {
            match self.assoc_type_bounds(trait_index, name) {
                Some(bounds) => {
                    self.check_written_bounds(
                        BoundOrigin::TraitAssocType { trait_index, name },
                        value,
                        &bounds.traits,
                        self_ty,
                        found,
                    )
                },
                None => (self, found),
            }
        }
    }

    /// The violations of one trait bound after the other, with their clauses.
    pub open spec fn check_each_trait(
        self,
        origin: BoundOrigin,
        type_args: &List<TypeIndex>,
        subject: Subject,
        traits: &List<TraitBound>,
        enclosing_self: TypeIndex,
        found: List<Diagnostic>,
    ) -> (State<'ast>, List<Diagnostic>)
        decreases traits, 0int,
    {
        match traits {
            List::Nil => (self, found),
            List::Cons(bound, rest) => {
                if self.type_implements_trait(subject.ty, bound.trait_index) {
                    let (s, found) = self.check_bindings(
                        origin,
                        type_args,
                        subject,
                        bound.trait_index,
                        bound.span,
                        &bound.bindings,
                        enclosing_self,
                        found,
                    );
                    s.check_each_trait(origin, type_args, subject, rest, enclosing_self, found)
                } else {
                    let missing = self.missing_trait(
                        origin,
                        subject,
                        bound.trait_index,
                        bound.span,
                    );
                    self.check_each_trait(
                        origin,
                        type_args,
                        subject,
                        rest,
                        enclosing_self,
                        found.push(missing),
                    )
                }
            },
        }
    }

    /// The violations of the clauses of one trait bound.
    pub open spec fn check_bindings(
        self,
        origin: BoundOrigin,
        type_args: &List<TypeIndex>,
        subject: Subject,
        trait_index: usize,
        bound_span: TextSpan,
        bindings: &List<AssocBinding>,
        enclosing_self: TypeIndex,
        found: List<Diagnostic>,
    ) -> (State<'ast>, List<Diagnostic>)
        decreases bindings, 1int,
    {
        match bindings {
            List::Nil => (self, found),
            List::Cons(binding, rest) => {
                let (s, actual) = self.known_assoc_value(
                    subject.ty,
                    trait_index,
                    binding.name.inner,
                );
                let (s, found) = s.check_binding(
                    origin,
                    type_args,
                    subject,
                    trait_index,
                    bound_span,
                    binding,
                    actual,
                    enclosing_self,
                    found,
                );
                s.check_bindings(
                    origin,
                    type_args,
                    subject,
                    trait_index,
                    bound_span,
                    rest,
                    enclosing_self,
                    found,
                )
            },
        }
    }

    /// The violations of one clause, given what is known of its associated type.
    pub open spec fn check_binding(
        self,
        origin: BoundOrigin,
        type_args: &List<TypeIndex>,
        subject: Subject,
        trait_index: usize,
        bound_span: TextSpan,
        binding: &AssocBinding,
        actual: Option<TypeIndex>,
        enclosing_self: TypeIndex,
        found: List<Diagnostic>,
    ) -> (State<'ast>, List<Diagnostic>)
        decreases binding, 0int,
    {
        match &binding.rhs {
            AssocBindingKind::Equals(rhs) => {
                self.check_equality(
                    origin,
                    type_args,
                    subject,
                    trait_index,
                    bound_span,
                    binding.name.inner,
                    Subject::new(SourceSpan::new(binding.file_id, binding.rhs_span), *rhs),
                    actual,
                    enclosing_self,
                    found,
                )
            },
            AssocBindingKind::Bound(required) => {
                if required.traits.is_empty() {
                    (self, found)
                } else {
                    let (s, value) = match actual {
                        Some(actual) => (self, actual),
                        None => {
                            self.intern(
                                Type::AssocTypeProjection {
                                    base: subject.ty,
                                    assoc_name: binding.name.inner,
                                    trait_index,
                                },
                            )
                        },
                    };
                    s.check_inner(
                        origin,
                        type_args,
                        subject.with_type(value),
                        &required.traits,
                        subject.ty,
                        found,
                    )
                }
            },
        }
    }

    /// The violations of trait bounds by a subject, with their clauses. A poisoned
    /// subject violates none.
    pub open spec fn check_inner(
        self,
        origin: BoundOrigin,
        type_args: &List<TypeIndex>,
        subject: Subject,
        traits: &List<TraitBound>,
        enclosing_self: TypeIndex,
        found: List<Diagnostic>,
    ) -> (State<'ast>, List<Diagnostic>)
        decreases traits, 1int,
    {
        if subject.ty == ty::ERROR {
            (self, found)
        } else {
            self.check_each_trait(origin, type_args, subject, traits, enclosing_self, found)
        }
    }

    /// The violations of a clause that pins an associated type: the written type
    /// against the bounds of the associated type, and the known value against
    /// the written type.
    #[verifier::opaque]
    pub open spec fn check_equality(
        self,
        origin: BoundOrigin,
        type_args: &List<TypeIndex>,
        subject: Subject,
        trait_index: usize,
        bound_span: TextSpan,
        name: Symbol,
        written: Subject,
        actual: Option<TypeIndex>,
        enclosing_self: TypeIndex,
        found: List<Diagnostic>,
    ) -> (State<'ast>, List<Diagnostic>) {
        if written.ty == ty::ERROR {
            (self, found)
        } else {
            let (s, expected) = self.expected_assoc_value(written.ty, type_args, enclosing_self);
            let (s, found) = s.check_declared_bounds(
                trait_index,
                name,
                written.with_type(expected),
                subject.ty,
                found,
            );
            match actual {
                Some(value) => {
                    if s.contradicts(expected, actual) {
                        (
                            s,
                            found.push(
                                s.equals_mismatch(
                                    origin,
                                    subject,
                                    name,
                                    expected,
                                    value,
                                    bound_span,
                                ),
                            ),
                        )
                    } else {
                        (s, found)
                    }
                },
                None => (s, found),
            }
        }
    }

    /// The violations of the bounds written at an origin, by a subject. The
    /// arguments stand for the type parameters of the declaration that the
    /// bounds are written on; there are none at the declaration itself.
    #[verifier::opaque]
    pub open spec fn check_bounds(
        self,
        subject: Subject,
        origin: BoundOrigin,
        type_args: &List<TypeIndex>,
    ) -> (State<'ast>, List<Diagnostic>) {
        match self.origin_bounds(origin) {
            Some(required) => {
                let (s, self_type) = self.origin_self_ty(origin);
                let enclosing_self = match self_type {
                    Some(index) => index,
                    None => subject.ty,
                };
                s.check_inner(
                    origin,
                    type_args,
                    subject,
                    &required.traits,
                    enclosing_self,
                    List::Nil,
                )
            },
            None => (self, List::Nil),
        }
    }

    /// The violations of the bounds that a trait declares for an associated
    /// type, by the value that an impl gives it. `self_ty` is the impl's target.
    pub open spec fn check_assoc_value(
        self,
        trait_index: usize,
        name: Symbol,
        value: Subject,
        self_ty: TypeIndex,
    ) -> (State<'ast>, List<Diagnostic>) {
        self.check_declared_bounds(trait_index, name, value, self_ty, List::Nil)
    }
}

impl<'ast> Builder<'ast> {
    /// The written bounds that an origin names; nothing where the declaration is
    /// missing.
    pub fn origin_bounds(&self, origin: BoundOrigin) -> (result: Option<Bounds>)
        ensures
            result == self@.origin_bounds(origin),
    {
        match origin {
            BoundOrigin::TypeParam { owner, index } => match self.type_param_info(owner, index) {
                Some(info) => Some(info.bounds.duplicate()),
                None => None,
            },
            BoundOrigin::TraitAssocType { trait_index, name } => {
                self.copy_assoc_type_bounds(trait_index, name)
            },
        }
    }

    /// What `Self` means in a trait or an impl; nothing elsewhere.
    pub fn owner_self_type(&mut self, owner: TypeParamOwner) -> (result: Option<TypeIndex>)
        ensures
            (final(self)@, result) == old(self)@.owner_self_type(owner),
    {
        proof {
            reveal(State::owner_self_type);
        }
        match owner {
            TypeParamOwner::Trait(trait_index) => {
                let index: TypeIndex = self.trait_self_type(trait_index);
                Some(index)
            },
            TypeParamOwner::ImplBlock(block_index) => match vec_at(&self.inherent_impls, block_index) {
                Some(block) => Some(block.target.inner),
                None => None,
            },
            TypeParamOwner::TraitImpl(impl_index) => match vec_at(&self.trait_impls, impl_index) {
                Some(block) => Some(block.target.inner),
                None => None,
            },
            _ => None,
        }
    }

    /// What `Self` means where an origin's bounds are written: a function takes
    /// it from the trait or impl that it belongs to.
    pub fn origin_self_ty(&mut self, origin: BoundOrigin) -> (result: Option<TypeIndex>)
        ensures
            (final(self)@, result) == old(self)@.origin_self_ty(origin),
    {
        proof {
            reveal(State::origin_self_ty);
        }
        match origin {
            BoundOrigin::TypeParam { owner, .. } => match self.param_parent(owner) {
                Some(parent) => self.owner_self_type(parent),
                None => self.owner_self_type(owner),
            },
            BoundOrigin::TraitAssocType { trait_index, .. } => {
                let index: TypeIndex = self.trait_self_type(trait_index);
                Some(index)
            },
        }
    }

    /// The file of the declaration behind a bound, and the label that names it.
    /// An impl has no name of its own, so its target stands in.
    pub fn origin_label(&self, origin: BoundOrigin) -> (result: (FileId, Message))
        ensures
            result == self@.origin_label(origin),
    {
        match origin {
            BoundOrigin::TraitAssocType { trait_index, name } => match vec_at(&self.traits, trait_index) {
                Some(declaration) => (
                    declaration.file_id,
                    with_piece(
                        "required by a bound in `",
                        Piece::Name(declaration.name.inner),
                        with_piece("::", Piece::Name(name), text("`")),
                    ),
                ),
                None => (0, List::Nil),
            },
            BoundOrigin::TypeParam { owner, .. } => self.owner_label(owner),
        }
    }

    /// The file of the owner of a type parameter, and the label that names it.
    pub fn owner_label(&self, owner: TypeParamOwner) -> (result: (FileId, Message))
        ensures
            result == self@.owner_label(owner),
    {
        match owner {
            TypeParamOwner::Trait(trait_index) => match vec_at(&self.traits, trait_index) {
                Some(declaration) => {
                    (declaration.file_id, required_by(Piece::Name(declaration.name.inner)))
                },
                None => (0, List::Nil),
            },
            TypeParamOwner::ImplBlock(block_index) => match vec_at(&self.inherent_impls, block_index) {
                Some(block) => (block.file_id, required_by(Piece::Type(block.target.inner))),
                None => (0, List::Nil),
            },
            TypeParamOwner::TraitImpl(impl_index) => match vec_at(&self.trait_impls, impl_index) {
                Some(block) => (block.file_id, required_by(Piece::Type(block.target.inner))),
                None => (0, List::Nil),
            },
            TypeParamOwner::Function(id)
            | TypeParamOwner::Struct(id)
            | TypeParamOwner::TypeAlias(id) => match self.item(id) {
                Some(index) => self.item_label(index),
                None => (0, List::Nil),
            },
        }
    }

    /// The file of a function, struct or type alias, and the label that names it.
    pub fn item_label(&self, index: ItemIndex) -> (result: (FileId, Message))
        ensures
            result == self@.item_label(index),
    {
        match index {
            ItemIndex::Function(func_index) => match vec_at(&self.functions, func_index) {
                Some(function) => {
                    (function.file_id, required_by(Piece::Name(function.name.inner)))
                },
                None => (0, List::Nil),
            },
            ItemIndex::Struct(struct_index) => match vec_at(&self.structs, struct_index) {
                Some(declaration) => {
                    (declaration.file_id, required_by(Piece::Name(declaration.name.inner)))
                },
                None => (0, List::Nil),
            },
            ItemIndex::TypeAlias(alias_index) => match vec_at(&self.type_aliases, alias_index) {
                Some(alias) => (alias.file_id, required_by(Piece::Name(alias.name.inner))),
                None => (0, List::Nil),
            },
            _ => (0, List::Nil),
        }
    }

    /// The diagnostic for a trait that a subject does not implement.
    pub fn missing_trait(
        &self,
        origin: BoundOrigin,
        subject: Subject,
        trait_index: usize,
        bound_span: TextSpan,
    ) -> (result: Diagnostic)
        ensures
            result == self@.missing_trait(origin, subject, trait_index, bound_span),
    {
        let (file_id, message) = self.origin_label(origin);
        report_missing_trait(
            subject,
            self.trait_name(trait_index),
            SourceSpan::new(file_id, bound_span),
            message,
        )
    }

    /// The diagnostic for an associated type that is not what a clause says.
    pub fn equals_mismatch(
        &self,
        origin: BoundOrigin,
        subject: Subject,
        assoc_name: Symbol,
        expected: TypeIndex,
        actual: TypeIndex,
        bound_span: TextSpan,
    ) -> (result: Diagnostic)
        ensures
            result == self@.equals_mismatch(
                origin,
                subject,
                assoc_name,
                expected,
                actual,
                bound_span,
            ),
    {
        let (file_id, message) = self.origin_label(origin);
        report_equals_mismatch(
            subject,
            assoc_name,
            expected,
            actual,
            SourceSpan::new(file_id, bound_span),
            message,
        )
    }

    /// The type that an abstract type's own bounds pin an associated type to.
    pub fn declared_assoc_value(
        &self,
        index: TypeIndex,
        trait_index: usize,
        name: Symbol,
    ) -> (result: Option<TypeIndex>)
        ensures
            result == self@.declared_assoc_value(index, trait_index, name),
    {
        match self.ty(index) {
            Type::TypeParam { .. } => {
                let bounds = self.type_param_bounds(index);
                find_pinned_by(&bounds.traits, trait_index, name)
            },
            Type::AssocTypeProjection { base: _, assoc_name, trait_index: declaring } => {
                match self.trait_assoc_type_bounds(declaring, assoc_name) {
                    Some(bounds) => find_pinned_by(&bounds.traits, trait_index, name),
                    None => None,
                }
            },
            _ => None,
        }
    }

    /// The value of an associated type of a type: from its impl, or, for an
    /// abstract type, from its own bounds.
    pub fn known_assoc_value(
        &mut self,
        index: TypeIndex,
        trait_index: usize,
        name: Symbol,
    ) -> (result: Option<TypeIndex>)
        ensures
            (final(self)@, result) == old(self)@.known_assoc_value(index, trait_index, name),
    {
        proof {
            reveal(State::known_assoc_value);
        }
        let concrete = self.concrete_assoc_type_value(index, trait_index, name);
        match concrete {
            Some(value) => Some(value),
            None => self.declared_assoc_value(index, trait_index, name),
        }
    }

    /// The value of a clause at the place of the check: over the arguments of
    /// the site, and with the enclosing `Self` for a `Self` that they leave open.
    pub fn expected_assoc_value(
        &mut self,
        rhs: TypeIndex,
        type_args: &List<TypeIndex>,
        enclosing_self: TypeIndex,
    ) -> (result: TypeIndex)
        ensures
            (final(self)@, result) == old(self)@.expected_assoc_value(
                rhs,
                type_args,
                enclosing_self,
            ),
    {
        proof {
            reveal(State::expected_assoc_value);
        }
        let expected: TypeIndex = self.substitute_type(rhs, type_args, MAX_DEPTH);
        match self.ty(expected) {
            Type::TypeParam { owner: TypeParamOwner::Trait(_), param_index } => if param_index == 0 {
                enclosing_self
            } else {
                expected
            },
            _ => expected,
        }
    }

    /// Whether the value of an associated type contradicts what a clause says.
    /// What is poisoned or still abstract contradicts nothing.
    pub fn contradicts(&self, expected: TypeIndex, actual: Option<TypeIndex>) -> (result: bool)
        ensures
            result == self@.contradicts(expected, actual),
    {
        match actual {
            Some(actual) => {
                if actual == ty::ERROR || expected == ty::ERROR || expected == actual {
                    false
                } else {
                    match self.ty(expected) {
                        Type::TypeParam { .. }
                        | Type::AssocTypeProjection { .. }
                        | Type::Infer => {
                            false
                        },
                        _ => true,
                    }
                }
            },
            None => false,
        }
    }

    /// The violations of a bound tree as it is written, after those found
    /// before. `Self` is the same type at every level of it.
    pub fn check_written_bounds(
        &mut self,
        origin: BoundOrigin,
        value: Subject,
        traits: &List<TraitBound>,
        self_ty: TypeIndex,
        found: List<Diagnostic>,
    ) -> (result: List<Diagnostic>)
        ensures
            (final(self)@, result) == old(self)@.check_written_bounds(
                origin,
                value,
                traits,
                self_ty,
                found,
            ),
        decreases traits, 0int,
    {
        match traits {
            List::Nil => found,
            List::Cons(bound, rest) => {
                if self.type_implements_trait(value.ty, bound.trait_index) {
                    let found = self.check_written_bindings(
                        origin,
                        value,
                        bound.trait_index,
                        bound.span,
                        &bound.bindings,
                        self_ty,
                        found,
                    );
                    self.check_written_bounds(origin, value, rest, self_ty, found)
                } else {
                    let missing = self.missing_trait(
                        origin,
                        value,
                        bound.trait_index,
                        bound.span,
                    );
                    self.check_written_bounds(origin, value, rest, self_ty, found.push(missing))
                }
            },
        }
    }

    /// The violations of the clauses of one written bound.
    pub fn check_written_bindings(
        &mut self,
        origin: BoundOrigin,
        value: Subject,
        trait_index: usize,
        bound_span: TextSpan,
        bindings: &List<AssocBinding>,
        self_ty: TypeIndex,
        found: List<Diagnostic>,
    ) -> (result: List<Diagnostic>)
        ensures
            (final(self)@, result) == old(self)@.check_written_bindings(
                origin,
                value,
                trait_index,
                bound_span,
                bindings,
                self_ty,
                found,
            ),
        decreases bindings, 1int,
    {
        match bindings {
            List::Nil => found,
            List::Cons(binding, rest) => {
                let actual = self.concrete_assoc_type_value(
                    value.ty,
                    trait_index,
                    binding.name.inner,
                );
                let found = match actual {
                    Some(actual) => self.check_written_binding(
                        origin,
                        value,
                        actual,
                        bound_span,
                        binding,
                        self_ty,
                        found,
                    ),
                    None => found,
                };
                self.check_written_bindings(
                    origin,
                    value,
                    trait_index,
                    bound_span,
                    rest,
                    self_ty,
                    found,
                )
            },
        }
    }

    /// The violations of one clause, given the value of its associated type.
    pub fn check_written_binding(
        &mut self,
        origin: BoundOrigin,
        value: Subject,
        actual: TypeIndex,
        bound_span: TextSpan,
        binding: &AssocBinding,
        self_ty: TypeIndex,
        found: List<Diagnostic>,
    ) -> (result: List<Diagnostic>)
        ensures
            (final(self)@, result) == old(self)@.check_written_binding(
                origin,
                value,
                actual,
                bound_span,
                binding,
                self_ty,
                found,
            ),
        decreases binding, 0int,
    {
        if actual == ty::ERROR {
            found
        } else {
            match &binding.rhs {
                AssocBindingKind::Equals(rhs) => {
                    let expected: TypeIndex = self.substitute_type(
                        *rhs,
                        &single(self_ty),
                        MAX_DEPTH,
                    );
                    if expected != ty::ERROR && expected != actual {
                        found.push(
                            self.equals_mismatch(
                                origin,
                                value,
                                binding.name.inner,
                                expected,
                                actual,
                                bound_span,
                            ),
                        )
                    } else {
                        found
                    }
                },
                AssocBindingKind::Bound(required) => self.check_written_bounds(
                    origin,
                    value.with_type(actual),
                    &required.traits,
                    self_ty,
                    found,
                ),
            }
        }
    }

    /// The violations of the bounds that a trait declares for an associated
    /// type, by a value for it. `self_ty` is what `Self` means in those bounds.
    /// The declarations behind them are not opened in turn.
    pub fn check_declared_bounds(
        &mut self,
        trait_index: usize,
        name: Symbol,
        value: Subject,
        self_ty: TypeIndex,
        found: List<Diagnostic>,
    ) -> (result: List<Diagnostic>)
        ensures
            (final(self)@, result) == old(self)@.check_declared_bounds(
                trait_index,
                name,
                value,
                self_ty,
                found,
            ),
    {
        proof {
            reveal(State::check_declared_bounds);
        }
        if value.ty == ty::ERROR {
            found
        } else {
            match self.copy_assoc_type_bounds(trait_index, name) {
                Some(bounds) => self.check_written_bounds(
                    BoundOrigin::TraitAssocType { trait_index, name },
                    value,
                    &bounds.traits,
                    self_ty,
                    found,
                ),
                None => found,
            }
        }
    }

    /// The violations of one trait bound after the other, with their clauses.
    fn check_each_trait(
        &mut self,
        origin: BoundOrigin,
        type_args: &List<TypeIndex>,
        subject: Subject,
        traits: &List<TraitBound>,
        enclosing_self: TypeIndex,
        found: List<Diagnostic>,
    ) -> (result: List<Diagnostic>)
        ensures
            (final(self)@, result) == old(self)@.check_each_trait(
                origin,
                type_args,
                subject,
                traits,
                enclosing_self,
                found,
            ),
        decreases traits, 0int,
    {
        match traits {
            List::Nil => found,
            List::Cons(bound, rest) => {
                if self.type_implements_trait(subject.ty, bound.trait_index) {
                    let found = self.check_bindings(
                        origin,
                        type_args,
                        subject,
                        bound.trait_index,
                        bound.span,
                        &bound.bindings,
                        enclosing_self,
                        found,
                    );
                    self.check_each_trait(origin, type_args, subject, rest, enclosing_self, found)
                } else {
                    let missing = self.missing_trait(
                        origin,
                        subject,
                        bound.trait_index,
                        bound.span,
                    );
                    self.check_each_trait(
                        origin,
                        type_args,
                        subject,
                        rest,
                        enclosing_self,
                        found.push(missing),
                    )
                }
            },
        }
    }

    /// The violations of the clauses of one trait bound.
    pub fn check_bindings(
        &mut self,
        origin: BoundOrigin,
        type_args: &List<TypeIndex>,
        subject: Subject,
        trait_index: usize,
        bound_span: TextSpan,
        bindings: &List<AssocBinding>,
        enclosing_self: TypeIndex,
        found: List<Diagnostic>,
    ) -> (result: List<Diagnostic>)
        ensures
            (final(self)@, result) == old(self)@.check_bindings(
                origin,
                type_args,
                subject,
                trait_index,
                bound_span,
                bindings,
                enclosing_self,
                found,
            ),
        decreases bindings, 1int,
    {
        match bindings {
            List::Nil => found,
            List::Cons(binding, rest) => {
                let actual = self.known_assoc_value(subject.ty, trait_index, binding.name.inner);
                let found = self.check_binding(
                    origin,
                    type_args,
                    subject,
                    trait_index,
                    bound_span,
                    binding,
                    actual,
                    enclosing_self,
                    found,
                );
                self.check_bindings(
                    origin,
                    type_args,
                    subject,
                    trait_index,
                    bound_span,
                    rest,
                    enclosing_self,
                    found,
                )
            },
        }
    }

    /// The violations of one clause, given what is known of its associated type.
    pub fn check_binding(
        &mut self,
        origin: BoundOrigin,
        type_args: &List<TypeIndex>,
        subject: Subject,
        trait_index: usize,
        bound_span: TextSpan,
        binding: &AssocBinding,
        actual: Option<TypeIndex>,
        enclosing_self: TypeIndex,
        found: List<Diagnostic>,
    ) -> (result: List<Diagnostic>)
        ensures
            (final(self)@, result) == old(self)@.check_binding(
                origin,
                type_args,
                subject,
                trait_index,
                bound_span,
                binding,
                actual,
                enclosing_self,
                found,
            ),
        decreases binding, 0int,
    {
        match &binding.rhs {
            AssocBindingKind::Equals(rhs) => self.check_equality(
                origin,
                type_args,
                subject,
                trait_index,
                bound_span,
                binding.name.inner,
                Subject::new(SourceSpan::new(binding.file_id, binding.rhs_span), *rhs),
                actual,
                enclosing_self,
                found,
            ),
            AssocBindingKind::Bound(required) => {
                if required.traits.is_empty() {
                    found
                } else {
                    let value: TypeIndex = match actual {
                        Some(actual) => actual,
                        None => self.intern_type(
                            Type::AssocTypeProjection {
                                base: subject.ty,
                                assoc_name: binding.name.inner,
                                trait_index,
                            },
                        ),
                    };
                    self.check_inner(
                        origin,
                        type_args,
                        subject.with_type(value),
                        &required.traits,
                        subject.ty,
                        found,
                    )
                }
            },
        }
    }

    /// The violations of trait bounds by a subject, with their clauses. A poisoned
    /// subject violates none.
    pub fn check_inner(
        &mut self,
        origin: BoundOrigin,
        type_args: &List<TypeIndex>,
        subject: Subject,
        traits: &List<TraitBound>,
        enclosing_self: TypeIndex,
        found: List<Diagnostic>,
    ) -> (result: List<Diagnostic>)
        ensures
            (final(self)@, result) == old(self)@.check_inner(
                origin,
                type_args,
                subject,
                traits,
                enclosing_self,
                found,
            ),
        decreases traits, 1int,
    {
        if subject.ty == ty::ERROR {
            found
        } else {
            self.check_each_trait(origin, type_args, subject, traits, enclosing_self, found)
        }
    }

    /// The violations of a clause that pins an associated type: the written type
    /// against the bounds of the associated type, and the known value against
    /// the written type.
    pub fn check_equality(
        &mut self,
        origin: BoundOrigin,
        type_args: &List<TypeIndex>,
        subject: Subject,
        trait_index: usize,
        bound_span: TextSpan,
        name: Symbol,
        written: Subject,
        actual: Option<TypeIndex>,
        enclosing_self: TypeIndex,
        found: List<Diagnostic>,
    ) -> (result: List<Diagnostic>)
        ensures
            (final(self)@, result) == old(self)@.check_equality(
                origin,
                type_args,
                subject,
                trait_index,
                bound_span,
                name,
                written,
                actual,
                enclosing_self,
                found,
            ),
    {
        proof {
            reveal(State::check_equality);
        }
        if written.ty == ty::ERROR {
            found
        } else {
            let expected: TypeIndex = self.expected_assoc_value(
                written.ty,
                type_args,
                enclosing_self,
            );
            let found = self.check_declared_bounds(
                trait_index,
                name,
                written.with_type(expected),
                subject.ty,
                found,
            );
            match actual {
                Some(value) => if self.contradicts(expected, actual) {
                    found.push(
                        self.equals_mismatch(origin, subject, name, expected, value, bound_span),
                    )
                } else {
                    found
                },
                None => found,
            }
        }
    }

    /// The violations of the bounds written at an origin, by a subject. The
    /// arguments stand for the type parameters of the declaration that the
    /// bounds are written on; there are none at the declaration itself.
    pub fn check_bounds(
        &mut self,
        subject: Subject,
        origin: BoundOrigin,
        type_args: &List<TypeIndex>,
    ) -> (result: List<Diagnostic>)
        ensures
            (final(self)@, result) == old(self)@.check_bounds(subject, origin, type_args),
    {
        proof {
            reveal(State::check_bounds);
        }
        let required = match self.origin_bounds(origin) {
            Some(required) => required,
            None => {
                return List::Nil;
            },
        };
        let self_type = self.origin_self_ty(origin);
        let enclosing_self: TypeIndex = match self_type {
            Some(index) => index,
            None => subject.ty,
        };
        self.check_inner(origin, type_args, subject, &required.traits, enclosing_self, List::Nil)
    }

    /// The violations of the bounds that a trait declares for an associated
    /// type, by the value that an impl gives it. `self_ty` is the impl's target.
    pub fn check_assoc_value(
        &mut self,
        trait_index: usize,
        name: Symbol,
        value: Subject,
        self_ty: TypeIndex,
    ) -> (result: List<Diagnostic>)
        ensures
            (final(self)@, result) == old(self)@.check_assoc_value(
                trait_index,
                name,
                value,
                self_ty,
            ),
    {
        self.check_declared_bounds(trait_index, name, value, self_ty, List::Nil)
    }
}

} // verus!
