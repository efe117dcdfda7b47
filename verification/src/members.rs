//! Members of types: which inherent impl, trait impl or trait bound a name
//! after `.` or `::` comes from.

use vstd::prelude::*;

use crate::ast::TraitItem;
use crate::diagnostics::{text, with_piece, Diagnostic, Piece};
use crate::list::{cons, single, List};
use crate::names::nowhere;
use crate::relate::MAX_DEPTH;
use crate::reports::{
    report_ambiguous_member, report_duplicate_member, report_method_not_found,
    report_not_a_method, report_type_mistmatch,
};
use crate::scope::next_index;
use crate::span::{DefId, SourceSpan, Spanned, Symbol, TextSpan};
use crate::state;
use crate::state::{vec_at, AstNodeRef, Builder, ImplTarget, State};
use crate::substitute;
use crate::substitute::find_member;
use crate::tir::{
    AccessTarget, Function, ImplEntry, ItemIndex, Member, ResolveContext, Trait, TraitBound,
};
use crate::ty;
use crate::types::{Type, TypeIndex};

verus! {

/// What the search for a member of a type found.
#[allow(inconsistent_fields)]
#[derive(Debug, PartialEq, Eq)]
pub enum MemberLookup {
    /// A member of an inherent impl, with the arguments for its type
    /// parameters as far as the type tells them.
    Inherent { entry: ImplEntry, type_args: List<TypeIndex> },
    /// A member that a trait gives.
    Trait { entry: ImplEntry, type_args: List<TypeIndex>, trait_index: usize },
    NotFound,
    /// More than one; that is reported.
    Ambiguous,
}

/// A member that may be meant: where it comes from (the index of a trait or
/// of an impl block), and what it is.
#[derive(Debug, PartialEq, Eq)]
pub struct Candidate {
    pub source: usize,
    pub entry: ImplEntry,
    pub type_args: List<TypeIndex>,
}

/// Why a type does not give a member of one certain trait.
#[derive(Clone, Copy, Debug, PartialEq, Eq, Structural)]
pub enum TraitMemberError {
    /// The type does not implement the trait.
    NotImplemented,
    /// The trait has no such member.
    NoSuchMember,
}

/// The sum of two counts, cut off at the largest `usize`.
#[verifier::allow_in_spec]
pub fn add_counts(a: usize, b: usize) -> (result: usize)
    returns
        (if b <= usize::MAX - a {
            (a + b) as usize
        } else {
            usize::MAX
        }),
{
    if b <= usize::MAX - a {
        a + b
    } else {
        usize::MAX
    }
}

/// The lookup that ends in a member of an inherent impl.
#[verifier::allow_in_spec]
pub fn inherent_lookup(candidate: Candidate) -> (result: MemberLookup)
    returns
        (MemberLookup::Inherent { entry: candidate.entry, type_args: candidate.type_args }),
{
    MemberLookup::Inherent { entry: candidate.entry, type_args: candidate.type_args }
}

/// The lookup that ends in a member of a trait.
#[verifier::allow_in_spec]
pub fn trait_lookup(candidate: Candidate) -> (result: MemberLookup)
    returns
        (MemberLookup::Trait {
            entry: candidate.entry,
            type_args: candidate.type_args,
            trait_index: candidate.source,
        }),
{
    MemberLookup::Trait {
        entry: candidate.entry,
        type_args: candidate.type_args,
        trait_index: candidate.source,
    }
}

/// The list cut off, or filled up with types to infer, to `total` elements.
pub open spec fn resized_types(types: &List<TypeIndex>, total: usize) -> List<TypeIndex>
    decreases total,
{
    if total == 0 {
        List::Nil
    } else {
        match types {
            List::Nil => List::repeat(ty::INFER, total),
            List::Cons(head, rest) => cons(**head, resized_types(rest, (total - 1) as usize)),
        }
    }
}

/// The list cut off, or filled up with types to infer, to `total` elements.
pub fn resize_types(types: &List<TypeIndex>, total: usize) -> (result: List<TypeIndex>)
    ensures
        result == resized_types(types, total),
    decreases total,
{
    if total == 0 {
        List::Nil
    } else {
        match types {
            List::Nil => List::repeat(ty::INFER, total),
            List::Cons(head, rest) => cons(**head, resize_types(rest, total - 1)),
        }
    }
}

/// The number of type parameters of a function, the inherited ones included.
pub open spec fn total_params(function: &Function) -> usize {
    add_counts(function.inherited_type_param_count, function.type_params.len())
}

/// The number of type parameters of a function, the inherited ones included.
pub fn total_type_param_count(function: &Function) -> (result: usize)
    ensures
        result == total_params(function),
{
    add_counts(function.inherited_type_param_count, function.type_params.len())
}

/// Whether one of the bounds is the trait.
pub open spec fn bound_by(bounds: &List<TraitBound>, trait_index: usize) -> bool
    decreases bounds,
{
    match bounds {
        List::Nil => false,
        List::Cons(bound, rest) => {
            bound.trait_index == trait_index || bound_by(rest, trait_index)
        },
    }
}

/// Whether one of the bounds is the trait.
pub fn is_bound_by(bounds: &List<TraitBound>, trait_index: usize) -> (result: bool)
    ensures
        result == bound_by(bounds, trait_index),
    decreases bounds,
{
    match bounds {
        List::Nil => false,
        List::Cons(bound, rest) => {
            bound.trait_index == trait_index || is_bound_by(rest, trait_index)
        },
    }
}

impl<'ast> State<'ast> {
    /// The arguments of a member: those of its parent, followed by one to infer
    /// for each type parameter of its own.
    pub open spec fn pad_type_args(
        self,
        entry: ImplEntry,
        parent_args: List<TypeIndex>,
    ) -> List<TypeIndex> {
        match entry {
            ImplEntry::Method(func_index) | ImplEntry::AssocFunction(func_index) => {
                match state::seq_ref(self.functions, func_index) {
                    Some(function) => {
                        let total: usize = total_params(function);
                        if parent_args.len() == total {
                            parent_args
                        } else {
                            resized_types(&parent_args, total)
                        }
                    },
                    None => parent_args,
                }
            },
            _ => parent_args,
        }
    }

    /// Whether a member of a trait is usable without an impl that gives it: a
    /// function with a body. Constants and associated types never are, for a
    /// trait only declares them.
    pub open spec fn entry_has_body(self, entry: ImplEntry) -> bool {
        match entry {
            ImplEntry::Method(func_index) | ImplEntry::AssocFunction(func_index) => {
                match state::seq_ref(self.functions, func_index) {
                    Some(function) => self.has_default_body(function.id),
                    None => false,
                }
            },
            ImplEntry::AssocConstant(_) | ImplEntry::AssocType { .. } => false,
        }
    }

    /// Whether the definition is a trait's function that is declared with a body.
    pub open spec fn has_default_body(self, id: DefId) -> bool {
        match state::seq_ref(self.nodes, self.node_index(id)) {
            Some(entry) => {
                match entry.node {
                    AstNodeRef::TraitFunction { trait_index: _, item } => {
                        match item {
                            TraitItem::Function { body, .. } => body.is_some(),
                            _ => false,
                        }
                    },
                    _ => false,
                }
            },
            None => false,
        }
    }

    /// Where a member is declared.
    pub open spec fn entry_location(self, entry: ImplEntry) -> SourceSpan {
        match entry {
            ImplEntry::Method(index) | ImplEntry::AssocFunction(index) => {
                self.item_location(ItemIndex::Function(index))
            },
            ImplEntry::AssocConstant(index) => self.item_location(ItemIndex::Const(index)),
            ImplEntry::AssocType { ty } => {
                match self.ty(ty) {
                    Type::AssociatedType { assoc_name: _, trait_index } => {
                        self.item_location(ItemIndex::Trait(trait_index))
                    },
                    _ => nowhere(),
                }
            },
        }
    }

    /// The arguments for the type parameters of an inherent impl block that make
    /// its target the given type.
    pub open spec fn unify_inherent_impl_target(
        self,
        block_index: usize,
        actual: TypeIndex,
    ) -> Option<List<TypeIndex>> {
        match state::seq_ref(self.inherent_impls, block_index) {
            Some(block) => {
                self.matched(
                    List::repeat(ty::INFER, block.type_params.len()),
                    block.target.inner,
                    actual,
                    MAX_DEPTH,
                )
            },
            None => None,
        }
    }

    /// The member of an inherent impl block, where its target is the given type.
    pub open spec fn inherent_candidate(
        self,
        block_index: usize,
        target_type: TypeIndex,
        member: Symbol,
    ) -> Option<Candidate> {
        match state::seq_ref(self.inherent_impls, block_index) {
            Some(block) => {
                match substitute::member_entry(block.members, member) {
                    Some(entry) => {
                        match self.unify_inherent_impl_target(block_index, target_type) {
                            Some(type_args) => {
                                Some(
                                    Candidate {
                                        source: block_index,
                                        entry,
                                        type_args: self.pad_type_args(entry, type_args),
                                    },
                                )
                            },
                            None => None,
                        }
                    },
                    None => None,
                }
            },
            None => None,
        }
    }

    /// The members of that name that inherent impls give for a type, in the
    /// order of the impls, from positions `from` to `end` of the dispatch table.
    pub open spec fn inherent_candidates(
        self,
        target: ImplTarget,
        target_type: TypeIndex,
        member: Symbol,
        from: usize,
        end: usize,
    ) -> List<Candidate>
        decreases end - from,
    {
        if from >= end {
            List::Nil
        } else {
            let rest = self.inherent_candidates(
                target,
                target_type,
                member,
                (from + 1) as usize,
                end,
            );
            match state::seq_ref(self.inherent_dispatch, from) {
                Some(entry) => {
                    if entry.target == target && entry.name == member {
                        match self.inherent_candidate(entry.block_index, target_type, member) {
                            Some(candidate) => cons(candidate, rest),
                            None => rest,
                        }
                    } else {
                        rest
                    }
                },
                None => rest,
            }
        }
    }

    /// The member that an impl of a trait gives for a type: the impl's own, or
    /// else the trait's where it is usable without an impl. The arguments are
    /// those of the impl in the first case, the type itself in the second.
    pub open spec fn trait_member_via_impl(
        self,
        trait_index: usize,
        impl_index: usize,
        target_type: TypeIndex,
        member: Symbol,
    ) -> Option<Candidate> {
        match state::seq_ref(self.trait_impls, impl_index) {
            Some(implementation) => {
                match state::seq_ref(self.traits, trait_index) {
                    Some(declaration) => {
                        let own = substitute::member_entry(implementation.members, member);
                        let inherited = self.default_member(&declaration.members, member);
                        if own.is_none() && inherited.is_none() {
                            None
                        } else {
                            match self.impl_arguments(*implementation, target_type) {
                                Some(impl_args) => {
                                    match own {
                                        Some(entry) => {
                                            Some(
                                                Candidate {
                                                    source: trait_index,
                                                    entry,
                                                    type_args: self.pad_type_args(
                                                        entry,
                                                        impl_args,
                                                    ),
                                                },
                                            )
                                        },
                                        None => {
                                            match inherited {
                                                Some(entry) => {
                                                    Some(
                                                        Candidate {
                                                            source: trait_index,
                                                            entry,
                                                            type_args: self.pad_type_args(
                                                                entry,
                                                                single(target_type),
                                                            ),
                                                        },
                                                    )
                                                },
                                                None => None,
                                            }
                                        },
                                    }
                                },
                                None => None,
                            }
                        }
                    },
                    None => None,
                }
            },
            None => None,
        }
    }

    /// A member of a trait that is usable without an impl that gives it.
    pub open spec fn default_member(
        self,
        members: &List<Member>,
        member: Symbol,
    ) -> Option<ImplEntry> {
        match substitute::member_entry(*members, member) {
            Some(entry) => {
                if self.entry_has_body(entry) {
                    Some(entry)
                } else {
                    None
                }
            },
            None => None,
        }
    }

    /// The members of that name that trait impls give for a type, in the order
    /// of the impls, from positions `from` to `end` of the dispatch table.
    pub open spec fn trait_candidates(
        self,
        target: ImplTarget,
        target_type: TypeIndex,
        member: Symbol,
        from: usize,
        end: usize,
    ) -> List<Candidate>
        decreases end - from,
    {
        if from >= end {
            List::Nil
        } else {
            let rest = self.trait_candidates(
                target,
                target_type,
                member,
                (from + 1) as usize,
                end,
            );
            match state::seq_ref(self.trait_dispatch, from) {
                Some(entry) => {
                    if entry.target == target {
                        match self.trait_member_via_impl(
                            entry.trait_index,
                            entry.impl_index,
                            target_type,
                            member,
                        ) {
                            Some(candidate) => cons(candidate, rest),
                            None => rest,
                        }
                    } else {
                        rest
                    }
                },
                None => rest,
            }
        }
    }

    /// The members of that name that the bounds of a type parameter give.
    pub open spec fn bound_candidates(
        self,
        bounds: &List<TraitBound>,
        target_type: TypeIndex,
        member: Symbol,
    ) -> List<Candidate>
        decreases bounds,
    {
        match bounds {
            List::Nil => List::Nil,
            List::Cons(bound, rest) => {
                let others = self.bound_candidates(rest, target_type, member);
                match state::seq_ref(self.traits, bound.trait_index) {
                    Some(declaration) => {
                        match substitute::member_entry(declaration.members, member) {
                            Some(entry) => {
                                cons(
                                    Candidate {
                                        source: bound.trait_index,
                                        entry,
                                        type_args: self.pad_type_args(entry, single(target_type)),
                                    },
                                    others,
                                )
                            },
                            None => others,
                        }
                    },
                    None => others,
                }
            },
        }
    }

    /// The name of a trait.
    pub open spec fn trait_name(self, trait_index: usize) -> Symbol {
        match state::seq_ref(self.traits, trait_index) {
            Some(declaration) => declaration.name.inner,
            None => 0,
        }
    }

    /// The diagnostic with a label for each trait that gives the member.
    pub open spec fn label_trait_candidates(
        self,
        diagnostic: Diagnostic,
        candidates: &List<Candidate>,
        number: usize,
        target_type: TypeIndex,
    ) -> Diagnostic
        decreases candidates,
    {
        match candidates {
            List::Nil => diagnostic,
            List::Cons(candidate, rest) => {
                let message = with_piece(
                    "candidate #",
                    Piece::Count(number),
                    with_piece(
                        " is defined in an impl of the trait `",
                        Piece::Name(self.trait_name(candidate.source)),
                        with_piece("` for the type `", Piece::Type(target_type), text("`")),
                    ),
                );
                let label = self.entry_location(candidate.entry).secondary_label().with_message(
                    message,
                );
                self.label_trait_candidates(
                    diagnostic.with_label(label),
                    rest,
                    next_index(number),
                    target_type,
                )
            },
        }
    }

    /// The diagnostic with a label for each inherent impl that gives the member.
    pub open spec fn label_inherent_candidates(
        self,
        diagnostic: Diagnostic,
        candidates: &List<Candidate>,
        number: usize,
    ) -> Diagnostic
        decreases candidates,
    {
        match candidates {
            List::Nil => diagnostic,
            List::Cons(candidate, rest) => {
                let message = with_piece(
                    "candidate #",
                    Piece::Count(number),
                    text(" defined here"),
                );
                let label = self.entry_location(candidate.entry).secondary_label().with_message(
                    message,
                );
                self.label_inherent_candidates(
                    diagnostic.with_label(label),
                    rest,
                    next_index(number),
                )
            },
        }
    }

    /// The member that inherent impls give for a type; more than one is
    /// reported as a conflict. `None` where there is none.
    #[verifier::opaque]
    pub open spec fn resolve_inherent_member(
        self,
        target: ImplTarget,
        target_type: TypeIndex,
        member: Symbol,
        span: SourceSpan,
    ) -> (State<'ast>, Option<MemberLookup>) {
        let candidates = self.inherent_candidates(
            target,
            target_type,
            member,
            0,
            (self.inherent_dispatch.len() as usize),
        );
        if candidates.len() > 1 {
            let diagnostic = self.label_inherent_candidates(
                report_duplicate_member(member, span),
                &candidates,
                1,
            );
            let s = self.report(diagnostic);
            (s, Some(MemberLookup::Ambiguous))
        } else {
            match candidates {
                List::Nil => (self, None),
                List::Cons(candidate, _) => (self, Some(inherent_lookup(*candidate))),
            }
        }
    }

    /// The one member that traits give for a type; more than one is reported as
    /// ambiguous.
    #[verifier::opaque]
    pub open spec fn choose_trait_candidate(
        self,
        context: ResolveContext,
        target_type: TypeIndex,
        member: Symbol,
        span: TextSpan,
        candidates: List<Candidate>,
    ) -> (State<'ast>, MemberLookup) {
        if candidates.len() > 1 {
            let diagnostic = self.label_trait_candidates(
                report_ambiguous_member(member, context.at(span)),
                &candidates,
                1,
                target_type,
            );
            let s = self.report(diagnostic);
            (s, MemberLookup::Ambiguous)
        } else {
            match candidates {
                List::Nil => (self, MemberLookup::NotFound),
                List::Cons(candidate, _) => (self, trait_lookup(*candidate)),
            }
        }
    }

    /// The member of a type that a name stands for. The members of a type
    /// parameter are those of its bounds. For another type an inherent member
    /// goes before one that a trait gives.
    #[verifier::opaque]
    pub open spec fn resolve_impl_member(
        self,
        context: ResolveContext,
        target_type: TypeIndex,
        member: Symbol,
        span: TextSpan,
    ) -> (State<'ast>, MemberLookup) {
        let ty = self.ty(target_type);
        match ty {
            Type::TypeParam { .. } => {
                let bounds = self.param_bounds(target_type);
                let candidates = self.bound_candidates(&bounds.traits, target_type, member);
                self.choose_trait_candidate(context, target_type, member, span, candidates)
            },
            _ => {
                match substitute::impl_target(target_type, ty) {
                    Some(target) => {
                        let (s, inherent) = self.resolve_inherent_member(
                            target,
                            target_type,
                            member,
                            context.at(span),
                        );
                        match inherent {
                            Some(found) => (s, found),
                            None => {
                                let candidates = s.trait_candidates(
                                    target,
                                    target_type,
                                    member,
                                    0,
                                    (s.trait_dispatch.len() as usize),
                                );
                                s.choose_trait_candidate(
                                    context,
                                    target_type,
                                    member,
                                    span,
                                    candidates,
                                )
                            },
                        }
                    },
                    None => (self, MemberLookup::NotFound),
                }
            },
        }
    }

    /// The member of one certain trait for a type, as `<Type as Trait>::member`
    /// asks for it.
    pub open spec fn resolve_trait_member(
        self,
        target_type: TypeIndex,
        required_trait: usize,
        member: Symbol,
    ) -> Result<Candidate, TraitMemberError> {
        let ty = self.ty(target_type);
        match ty {
            Type::TypeParam { .. } => {
                let bounds = self.param_bounds(target_type);
                if !bound_by(&bounds.traits, required_trait) {
                    Err(TraitMemberError::NotImplemented)
                } else {
                    match state::seq_ref(self.traits, required_trait) {
                        Some(declaration) => {
                            match substitute::member_entry(declaration.members, member) {
                                Some(entry) => {
                                    Ok(
                                        Candidate {
                                            source: required_trait,
                                            entry,
                                            type_args: self.pad_type_args(
                                                entry,
                                                single(target_type),
                                            ),
                                        },
                                    )
                                },
                                None => Err(TraitMemberError::NoSuchMember),
                            }
                        },
                        None => Err(TraitMemberError::NoSuchMember),
                    }
                }
            },
            _ => {
                match substitute::impl_target(target_type, ty) {
                    Some(target) => {
                        match self.find_dispatched_impl(target, required_trait) {
                            Some(impl_index) => {
                                match self.trait_member_via_impl(
                                    required_trait,
                                    impl_index,
                                    target_type,
                                    member,
                                ) {
                                    Some(candidate) => Ok(candidate),
                                    None => Err(TraitMemberError::NoSuchMember),
                                }
                            },
                            None => Err(TraitMemberError::NotImplemented),
                        }
                    },
                    None => Err(TraitMemberError::NotImplemented),
                }
            },
        }
    }

    /// Records a use of a member in every impl of its trait: which of them is
    /// meant is not known where the type is a parameter.
    pub open spec fn record_abstract_dispatch_access(
        self,
        trait_index: usize,
        member: Symbol,
        span: SourceSpan,
    ) -> State<'ast> {
        self.record_impl_accesses(
            trait_index,
            member,
            span,
            0,
            (self.trait_impls.len() as usize),
        )
    }

    /// Records the use in the impls at positions `from` to `end`.
    pub open spec fn record_impl_accesses(
        self,
        trait_index: usize,
        member: Symbol,
        span: SourceSpan,
        from: usize,
        end: usize,
    ) -> State<'ast>
        decreases end - from,
    {
        if from < end {
            let used = self.impl_member(from, trait_index, member);
            let s = match used {
                Some(ImplEntry::Method(index)) | Some(ImplEntry::AssocFunction(index)) => {
                    self.access(AccessTarget::Function(index), span)
                },
                Some(ImplEntry::AssocConstant(index)) => {
                    self.access(AccessTarget::Const(index), span)
                },
                _ => self,
            };
            s.record_impl_accesses(trait_index, member, span, (from + 1) as usize, end)
        } else {
            self
        }
    }

    /// The member that an impl gives, if it is an impl of the trait.
    pub open spec fn impl_member(
        self,
        impl_index: usize,
        trait_index: usize,
        member: Symbol,
    ) -> Option<ImplEntry> {
        match state::seq_ref(self.trait_impls, impl_index) {
            Some(implementation) => {
                if implementation.trait_index == trait_index {
                    substitute::member_entry(implementation.members, member)
                } else {
                    None
                }
            },
            None => None,
        }
    }

    /// Whether a type is a pointer.
    pub open spec fn is_pointer(self, index: TypeIndex) -> bool {
        match self.ty(index) {
            Type::Pointer { .. } => true,
            _ => false,
        }
    }

    /// The type of a function's first parameter.
    pub open spec fn self_param_type(self, func_index: usize) -> TypeIndex {
        match state::seq_ref(self.functions, func_index) {
            Some(function) => {
                match function.params.get(0) {
                    Some(param) => param.ty.inner,
                    None => ty::ERROR,
                }
            },
            None => ty::ERROR,
        }
    }

    /// The method that a call on a receiver means, with the arguments for its
    /// type parameters as far as the receiver tells them. A pointer has the
    /// methods of what it points to. The receiver and the method's first
    /// parameter must both be pointers or both not. What is wrong is reported.
    #[verifier::opaque]
    pub open spec fn resolve_method_call(
        self,
        context: ResolveContext,
        receiver: Spanned<TypeIndex>,
        method: Spanned<Symbol>,
    ) -> (State<'ast>, Option<(usize, List<TypeIndex>)>) {
        let lookup_ty = match self.ty(receiver.inner) {
            Type::Pointer { to, .. } => to,
            _ => receiver.inner,
        };
        if lookup_ty == ty::ERROR {
            (self, None)
        } else {
            let (s, lookup) = self.resolve_impl_member(
                context,
                lookup_ty,
                method.inner,
                method.span,
            );
            let is_param = match s.ty(lookup_ty) {
                Type::TypeParam { .. } => true,
                _ => false,
            };
            match lookup {
                MemberLookup::Inherent { entry, type_args } => {
                    s.method_of_entry(context, receiver, method, lookup_ty, entry, type_args)
                },
                MemberLookup::Trait { entry, type_args, trait_index } => {
                    let s = if is_param {
                        s.record_abstract_dispatch_access(
                            trait_index,
                            method.inner,
                            context.at(method.span),
                        )
                    } else {
                        s
                    };
                    s.method_of_entry(context, receiver, method, lookup_ty, entry, type_args)
                },
                MemberLookup::NotFound => {
                    let s = s.report(
                        report_method_not_found(
                            method.inner,
                            receiver.inner,
                            context.at(method.span),
                        ),
                    );
                    (s, None)
                },
                MemberLookup::Ambiguous => (s, None),
            }
        }
    }

    /// The method that a member is, if it is one.
    #[verifier::opaque]
    pub open spec fn method_of_entry(
        self,
        context: ResolveContext,
        receiver: Spanned<TypeIndex>,
        method: Spanned<Symbol>,
        lookup_ty: TypeIndex,
        entry: ImplEntry,
        type_args: List<TypeIndex>,
    ) -> (State<'ast>, Option<(usize, List<TypeIndex>)>) {
        match entry {
            ImplEntry::Method(func_index) => {
                let self_type: TypeIndex = self.self_param_type(func_index);
                if self.is_pointer(self_type) != self.is_pointer(receiver.inner) {
                    let s = self.report(
                        report_type_mistmatch(
                            self_type,
                            receiver.inner,
                            context.at(receiver.span),
                        ),
                    );
                    (s, None)
                } else {
                    let total = match state::seq_ref(self.functions, func_index) {
                        Some(function) => total_params(function),
                        None => 0,
                    };
                    (self, Some((func_index, resized_types(&type_args, total))))
                }
            },
            _ => {
                let s = self.report(
                    report_not_a_method(method.inner, lookup_ty, context.at(method.span)),
                );
                (s, None)
            },
        }
    }
}

impl<'ast> Builder<'ast> {
    /// The arguments of a member: those of its parent, followed by one to infer
    /// for each type parameter of its own.
    pub fn pad_type_args(
        &self,
        entry: ImplEntry,
        parent_args: List<TypeIndex>,
    ) -> (result: List<TypeIndex>)
        ensures
            result == self@.pad_type_args(entry, parent_args),
    {
        match entry {
            ImplEntry::Method(func_index) | ImplEntry::AssocFunction(func_index) => {
                match vec_at(&self.functions, func_index) {
                    Some(function) => {
                        let total: usize = total_type_param_count(function);
                        if parent_args.len() == total {
                            parent_args
                        } else {
                            resize_types(&parent_args, total)
                        }
                    },
                    None => parent_args,
                }
            },
            _ => parent_args,
        }
    }

    /// Whether a member of a trait is usable without an impl that gives it: a
    /// function with a body. Constants and associated types never are, for a
    /// trait only declares them.
    pub fn entry_has_body(&self, entry: ImplEntry) -> (result: bool)
        ensures
            result == self@.entry_has_body(entry),
    {
        match entry {
            ImplEntry::Method(func_index) | ImplEntry::AssocFunction(func_index) => {
                match vec_at(&self.functions, func_index) {
                    Some(function) => self.has_default_body(function.id),
                    None => false,
                }
            },
            ImplEntry::AssocConstant(_) | ImplEntry::AssocType { .. } => false,
        }
    }

    /// Whether the definition is a trait's function that is declared with a body.
    pub fn has_default_body(&self, id: DefId) -> (result: bool)
        ensures
            result == self@.has_default_body(id),
    {
        match vec_at(&self.nodes, self.node_index(id)) {
            Some(entry) => match entry.node {
                AstNodeRef::TraitFunction { trait_index: _, item } => match item {
                    TraitItem::Function { body, .. } => body.is_some(),
                    _ => false,
                },
                _ => false,
            },
            None => false,
        }
    }

    /// Where a member is declared.
    pub fn entry_location(&self, entry: ImplEntry) -> (result: SourceSpan)
        ensures
            result == self@.entry_location(entry),
    {
        match entry {
            ImplEntry::Method(index) | ImplEntry::AssocFunction(index) => {
                self.item_location(ItemIndex::Function(index))
            },
            ImplEntry::AssocConstant(index) => self.item_location(ItemIndex::Const(index)),
            ImplEntry::AssocType { ty } => match self.ty(ty) {
                Type::AssociatedType { assoc_name: _, trait_index } => {
                    self.item_location(ItemIndex::Trait(trait_index))
                },
                _ => nowhere(),
            },
        }
    }

    /// The arguments for the type parameters of an inherent impl block that make
    /// its target the given type.
    pub fn unify_inherent_impl_target(
        &self,
        block_index: usize,
        actual: TypeIndex,
    ) -> (result: Option<List<TypeIndex>>)
        ensures
            result == self@.unify_inherent_impl_target(block_index, actual),
    {
        match vec_at(&self.inherent_impls, block_index) {
            Some(block) => self.match_type(
                List::repeat(ty::INFER, block.type_params.len()),
                block.target.inner,
                actual,
                MAX_DEPTH,
            ),
            None => None,
        }
    }

    /// The member of an inherent impl block, where its target is the given type.
    pub fn inherent_candidate(
        &self,
        block_index: usize,
        target_type: TypeIndex,
        member: Symbol,
    ) -> (result: Option<Candidate>)
        ensures
            result == self@.inherent_candidate(block_index, target_type, member),
    {
        let block = vec_at(&self.inherent_impls, block_index)?;
        let entry = find_member(&block.members, member)?;
        let type_args = self.unify_inherent_impl_target(block_index, target_type)?;
        Some(
            Candidate {
                source: block_index,
                entry,
                type_args: self.pad_type_args(entry, type_args),
            },
        )
    }

    /// The members of that name that inherent impls give for a type, in the
    /// order of the impls, from positions `from` to `end` of the dispatch table.
    pub fn inherent_candidates(
        &self,
        target: ImplTarget,
        target_type: TypeIndex,
        member: Symbol,
        from: usize,
        end: usize,
    ) -> (result: List<Candidate>)
        ensures
            result == self@.inherent_candidates(target, target_type, member, from, end),
        decreases end - from,
    {
        if from >= end {
            return List::Nil;
        }
        let rest = self.inherent_candidates(target, target_type, member, from + 1, end);
        match vec_at(&self.inherent_dispatch, from) {
            Some(entry) => {
                if entry.target == target && entry.name == member {
                    match self.inherent_candidate(entry.block_index, target_type, member) {
                        Some(candidate) => cons(candidate, rest),
                        None => rest,
                    }
                } else {
                    rest
                }
            },
            None => rest,
        }
    }

    /// The member that an impl of a trait gives for a type: the impl's own, or
    /// else the trait's where it is usable without an impl. The arguments are
    /// those of the impl in the first case, the type itself in the second.
    pub fn trait_member_via_impl(
        &self,
        trait_index: usize,
        impl_index: usize,
        target_type: TypeIndex,
        member: Symbol,
    ) -> (result: Option<Candidate>)
        ensures
            result == self@.trait_member_via_impl(trait_index, impl_index, target_type, member),
    {
        let implementation = vec_at(&self.trait_impls, impl_index)?;
        let declaration = vec_at(&self.traits, trait_index)?;
        let own = find_member(&implementation.members, member);
        let inherited = self.default_member(&declaration.members, member);
        if own.is_none() && inherited.is_none() {
            return None;
        }
        let impl_args = self.unify_trait_impl_target(implementation, target_type)?;
        match own {
            Some(entry) => Some(
                Candidate {
                    source: trait_index,
                    entry,
                    type_args: self.pad_type_args(entry, impl_args),
                },
            ),
            None => match inherited {
                Some(entry) => Some(
                    Candidate {
                        source: trait_index,
                        entry,
                        type_args: self.pad_type_args(entry, single(target_type)),
                    },
                ),
                None => None,
            },
        }
    }

    /// A member of a trait that is usable without an impl that gives it.
    pub fn default_member(
        &self,
        members: &List<Member>,
        member: Symbol,
    ) -> (result: Option<ImplEntry>)
        ensures
            result == self@.default_member(members, member),
    {
        match find_member(members, member) {
            Some(entry) => if self.entry_has_body(entry) {
                Some(entry)
            } else {
                None
            },
            None => None,
        }
    }

    /// The members of that name that trait impls give for a type, in the order
    /// of the impls, from positions `from` to `end` of the dispatch table.
    pub fn trait_candidates(
        &self,
        target: ImplTarget,
        target_type: TypeIndex,
        member: Symbol,
        from: usize,
        end: usize,
    ) -> (result: List<Candidate>)
        ensures
            result == self@.trait_candidates(target, target_type, member, from, end),
        decreases end - from,
    {
        if from >= end {
            return List::Nil;
        }
        let rest = self.trait_candidates(target, target_type, member, from + 1, end);
        match vec_at(&self.trait_dispatch, from) {
            Some(entry) => {
                if entry.target == target {
                    match self.trait_member_via_impl(
                        entry.trait_index,
                        entry.impl_index,
                        target_type,
                        member,
                    ) {
                        Some(candidate) => cons(candidate, rest),
                        None => rest,
                    }
                } else {
                    rest
                }
            },
            None => rest,
        }
    }

    /// The members of that name that the bounds of a type parameter give.
    pub fn bound_candidates(
        &self,
        bounds: &List<TraitBound>,
        target_type: TypeIndex,
        member: Symbol,
    ) -> (result: List<Candidate>)
        ensures
            result == self@.bound_candidates(bounds, target_type, member),
        decreases bounds,
    {
        match bounds {
            List::Nil => List::Nil,
            List::Cons(bound, rest) => {
                let others = self.bound_candidates(rest, target_type, member);
                match vec_at(&self.traits, bound.trait_index) {
                    Some(declaration) => match find_member(&declaration.members, member) {
                        Some(entry) => cons(
                            Candidate {
                                source: bound.trait_index,
                                entry,
                                type_args: self.pad_type_args(entry, single(target_type)),
                            },
                            others,
                        ),
                        None => others,
                    },
                    None => others,
                }
            },
        }
    }

    /// The name of a trait.
    pub fn trait_name(&self, trait_index: usize) -> (result: Symbol)
        ensures
            result == self@.trait_name(trait_index),
    {
        match vec_at(&self.traits, trait_index) {
            Some(declaration) => declaration.name.inner,
            None => 0,
        }
    }

    /// The diagnostic with a label for each trait that gives the member.
    pub fn label_trait_candidates(
        &self,
        diagnostic: Diagnostic,
        candidates: &List<Candidate>,
        number: usize,
        target_type: TypeIndex,
    ) -> (result: Diagnostic)
        ensures
            result == self@.label_trait_candidates(diagnostic, candidates, number, target_type),
        decreases candidates,
    {
        match candidates {
            List::Nil => diagnostic,
            List::Cons(candidate, rest) => {
                let message = with_piece(
                    "candidate #",
                    Piece::Count(number),
                    with_piece(
                        " is defined in an impl of the trait `",
                        Piece::Name(self.trait_name(candidate.source)),
                        with_piece("` for the type `", Piece::Type(target_type), text("`")),
                    ),
                );
                let label = self.entry_location(candidate.entry).secondary_label().with_message(
                    message,
                );
                self.label_trait_candidates(
                    diagnostic.with_label(label),
                    rest,
                    next_index(number),
                    target_type,
                )
            },
        }
    }

    /// The diagnostic with a label for each inherent impl that gives the member.
    pub fn label_inherent_candidates(
        &self,
        diagnostic: Diagnostic,
        candidates: &List<Candidate>,
        number: usize,
    ) -> (result: Diagnostic)
        ensures
            result == self@.label_inherent_candidates(diagnostic, candidates, number),
        decreases candidates,
    {
        match candidates {
            List::Nil => diagnostic,
            List::Cons(candidate, rest) => {
                let message = with_piece(
                    "candidate #",
                    Piece::Count(number),
                    text(" defined here"),
                );
                let label = self.entry_location(candidate.entry).secondary_label().with_message(
                    message,
                );
                self.label_inherent_candidates(
                    diagnostic.with_label(label),
                    rest,
                    next_index(number),
                )
            },
        }
    }

    /// The member that inherent impls give for a type; more than one is
    /// reported as a conflict. `None` where there is none.
    pub fn resolve_inherent_member(
        &mut self,
        target: ImplTarget,
        target_type: TypeIndex,
        member: Symbol,
        span: SourceSpan,
    ) -> (result: Option<MemberLookup>)
        ensures
            (final(self)@, result) == old(self)@.resolve_inherent_member(
                target,
                target_type,
                member,
                span,
            ),
    {
        proof {
            reveal(State::resolve_inherent_member);
        }
        let candidates = self.inherent_candidates(
            target,
            target_type,
            member,
            0,
            self.inherent_dispatch.len(),
        );
        if candidates.len() > 1 {
            let diagnostic = self.label_inherent_candidates(
                report_duplicate_member(member, span),
                &candidates,
                1,
            );
            self.report(diagnostic);
            return Some(MemberLookup::Ambiguous);
        }
        match candidates {
            List::Nil => None,
            List::Cons(candidate, _) => Some(inherent_lookup(*candidate)),
        }
    }

    /// The one member that traits give for a type; more than one is reported as
    /// ambiguous.
    pub fn choose_trait_candidate(
        &mut self,
        context: ResolveContext,
        target_type: TypeIndex,
        member: Symbol,
        span: TextSpan,
        candidates: List<Candidate>,
    ) -> (result: MemberLookup)
        ensures
            (final(self)@, result) == old(self)@.choose_trait_candidate(
                context,
                target_type,
                member,
                span,
                candidates,
            ),
    {
        proof {
            reveal(State::choose_trait_candidate);
        }
        if candidates.len() > 1 {
            let diagnostic = self.label_trait_candidates(
                report_ambiguous_member(member, context.at(span)),
                &candidates,
                1,
                target_type,
            );
            self.report(diagnostic);
            return MemberLookup::Ambiguous;
        }
        match candidates {
            List::Nil => MemberLookup::NotFound,
            List::Cons(candidate, _) => trait_lookup(*candidate),
        }
    }

    /// The member of a type that a name stands for. The members of a type
    /// parameter are those of its bounds. For another type an inherent member
    /// goes before one that a trait gives.
    pub fn resolve_impl_member(
        &mut self,
        context: ResolveContext,
        target_type: TypeIndex,
        member: Symbol,
        span: TextSpan,
    ) -> (result: MemberLookup)
        ensures
            (final(self)@, result) == old(self)@.resolve_impl_member(
                context,
                target_type,
                member,
                span,
            ),
    {
        proof {
            reveal(State::resolve_impl_member);
        }
        let ty = self.ty(target_type);
        match ty {
            Type::TypeParam { .. } => {
                let bounds = self.type_param_bounds(target_type);
                let candidates = self.bound_candidates(&bounds.traits, target_type, member);
                self.choose_trait_candidate(context, target_type, member, span, candidates)
            },
            _ => {
                let target = match ImplTarget::from_type(target_type, &ty) {
                    Some(target) => target,
                    None => {
                        return MemberLookup::NotFound;
                    },
                };
                let inherent = self.resolve_inherent_member(
                    target,
                    target_type,
                    member,
                    context.at(span),
                );
                match inherent {
                    Some(found) => found,
                    None => {
                        let candidates = self.trait_candidates(
                            target,
                            target_type,
                            member,
                            0,
                            self.trait_dispatch.len(),
                        );
                        self.choose_trait_candidate(
                            context,
                            target_type,
                            member,
                            span,
                            candidates,
                        )
                    },
                }
            },
        }
    }

    /// The member of one certain trait for a type, as `<Type as Trait>::member`
    /// asks for it.
    pub fn resolve_trait_member(
        &self,
        target_type: TypeIndex,
        required_trait: usize,
        member: Symbol,
    ) -> (result: Result<Candidate, TraitMemberError>)
        ensures
            result == self@.resolve_trait_member(target_type, required_trait, member),
    {
        let ty = self.ty(target_type);
        match ty {
            Type::TypeParam { .. } => {
                let bounds = self.type_param_bounds(target_type);
                if !is_bound_by(&bounds.traits, required_trait) {
                    return Err(TraitMemberError::NotImplemented);
                }
                match vec_at(&self.traits, required_trait) {
                    Some(declaration) => match find_member(&declaration.members, member) {
                        Some(entry) => Ok(
                            Candidate {
                                source: required_trait,
                                entry,
                                type_args: self.pad_type_args(entry, single(target_type)),
                            },
                        ),
                        None => Err(TraitMemberError::NoSuchMember),
                    },
                    None => Err(TraitMemberError::NoSuchMember),
                }
            },
            _ => match ImplTarget::from_type(target_type, &ty) {
                Some(target) => match self.find_dispatched_impl(target, required_trait) {
                    Some(impl_index) => match self.trait_member_via_impl(
                        required_trait,
                        impl_index,
                        target_type,
                        member,
                    ) {
                        Some(candidate) => Ok(candidate),
                        None => Err(TraitMemberError::NoSuchMember),
                    },
                    None => Err(TraitMemberError::NotImplemented),
                },
                None => Err(TraitMemberError::NotImplemented),
            },
        }
    }

    /// Records a use of a member in every impl of its trait: which of them is
    /// meant is not known where the type is a parameter.
    pub fn record_abstract_dispatch_access(
        &mut self,
        trait_index: usize,
        member: Symbol,
        span: SourceSpan,
    )
        ensures
            final(self)@ == old(self)@.record_abstract_dispatch_access(trait_index, member, span),
    {
        self.record_impl_accesses(trait_index, member, span, 0, self.trait_impls.len());
    }

    /// Records the use in the impls at positions `from` to `end`.
    pub fn record_impl_accesses(
        &mut self,
        trait_index: usize,
        member: Symbol,
        span: SourceSpan,
        from: usize,
        end: usize,
    )
        ensures
            final(self)@ == old(self)@.record_impl_accesses(trait_index, member, span, from, end),
        decreases end - from,
    {
        if from < end {
            let used = self.impl_member(from, trait_index, member);
            match used {
                Some(ImplEntry::Method(index)) | Some(ImplEntry::AssocFunction(index)) => {
                    self.access(AccessTarget::Function(index), span);
                },
                Some(ImplEntry::AssocConstant(index)) => {
                    self.access(AccessTarget::Const(index), span);
                },
                _ => {},
            }
            self.record_impl_accesses(trait_index, member, span, from + 1, end);
        }
    }

    /// The member that an impl gives, if it is an impl of the trait.
    pub fn impl_member(
        &self,
        impl_index: usize,
        trait_index: usize,
        member: Symbol,
    ) -> (result: Option<ImplEntry>)
        ensures
            result == self@.impl_member(impl_index, trait_index, member),
    {
        match vec_at(&self.trait_impls, impl_index) {
            Some(implementation) => if implementation.trait_index == trait_index {
                find_member(&implementation.members, member)
            } else {
                None
            },
            None => None,
        }
    }

    /// Whether a type is a pointer.
    pub fn is_pointer(&self, index: TypeIndex) -> (result: bool)
        ensures
            result == self@.is_pointer(index),
    {
        match self.ty(index) {
            Type::Pointer { .. } => true,
            _ => false,
        }
    }

    /// The type of a function's first parameter.
    pub fn self_param_type(&self, func_index: usize) -> (result: TypeIndex)
        ensures
            result == self@.self_param_type(func_index),
    {
        match vec_at(&self.functions, func_index) {
            Some(function) => match function.params.get(0) {
                Some(param) => param.ty.inner,
                None => ty::ERROR,
            },
            None => ty::ERROR,
        }
    }

    /// The method that a call on a receiver means, with the arguments for its
    /// type parameters as far as the receiver tells them. A pointer has the
    /// methods of what it points to. The receiver and the method's first
    /// parameter must both be pointers or both not. What is wrong is reported.
    pub fn resolve_method_call(
        &mut self,
        context: ResolveContext,
        receiver: Spanned<TypeIndex>,
        method: Spanned<Symbol>,
    ) -> (result: Option<(usize, List<TypeIndex>)>)
        ensures
            (final(self)@, result) == old(self)@.resolve_method_call(context, receiver, method),
    {
        proof {
            reveal(State::resolve_method_call);
        }
        let lookup_ty: TypeIndex = match self.ty(receiver.inner) {
            Type::Pointer { to, .. } => to,
            _ => receiver.inner,
        };
        if lookup_ty == ty::ERROR {
            return None;
        }
        let lookup = self.resolve_impl_member(context, lookup_ty, method.inner, method.span);
        let is_param = match self.ty(lookup_ty) {
            Type::TypeParam { .. } => true,
            _ => false,
        };
        match lookup {
            MemberLookup::Inherent { entry, type_args } => {
                self.method_of_entry(context, receiver, method, lookup_ty, entry, type_args)
            },
            MemberLookup::Trait { entry, type_args, trait_index } => {
                if is_param {
                    self.record_abstract_dispatch_access(
                        trait_index,
                        method.inner,
                        context.at(method.span),
                    );
                }
                self.method_of_entry(context, receiver, method, lookup_ty, entry, type_args)
            },
            MemberLookup::NotFound => {
                self.report(
                    report_method_not_found(
                        method.inner,
                        receiver.inner,
                        context.at(method.span),
                    ),
                );
                None
            },
            MemberLookup::Ambiguous => None,
        }
    }

    /// The method that a member is, if it is one.
    pub fn method_of_entry(
        &mut self,
        context: ResolveContext,
        receiver: Spanned<TypeIndex>,
        method: Spanned<Symbol>,
        lookup_ty: TypeIndex,
        entry: ImplEntry,
        type_args: List<TypeIndex>,
    ) -> (result: Option<(usize, List<TypeIndex>)>)
        ensures
            (final(self)@, result) == old(self)@.method_of_entry(
                context,
                receiver,
                method,
                lookup_ty,
                entry,
                type_args,
            ),
    {
        proof {
            reveal(State::method_of_entry);
        }
        match entry {
            ImplEntry::Method(func_index) => {
                let self_type: TypeIndex = self.self_param_type(func_index);
                if self.is_pointer(self_type) != self.is_pointer(receiver.inner) {
                    self.report(
                        report_type_mistmatch(
                            self_type,
                            receiver.inner,
                            context.at(receiver.span),
                        ),
                    );
                    return None;
                }
                let total: usize = match vec_at(&self.functions, func_index) {
                    Some(function) => total_type_param_count(function),
                    None => 0,
                };
                Some((func_index, resize_types(&type_args, total)))
            },
            _ => {
                self.report(
                    report_not_a_method(method.inner, lookup_ty, context.at(method.span)),
                );
                None
            },
        }
    }
}

} // verus!
