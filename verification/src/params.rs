//! Type parameters: who owns them, what they are bounded by, and the typesets
//! that bounds refer to.

use vstd::prelude::*;

use crate::list::List;
use crate::span::{SourceSpan, Spanned, Symbol};
use crate::state;
use crate::state::{vec_at, Builder, State};
use crate::tir::{
    AccessTarget, AssocBinding, AssocBindingKind, Bounds, Function, IntegerRange, Trait,
    TraitAssocType, TraitBound, TypeParamInfo,
};
use crate::ty;
use crate::types::{Type, TypeIndex, TypeParamOwner};

verus! {

impl Bounds {
    /// No bounds at all.
    #[verifier::allow_in_spec]
    pub fn none() -> (result: Bounds)
        returns
            (Bounds { traits: List::Nil, typeset: None }),
    {
        Bounds { traits: List::Nil, typeset: None }
    }

    pub fn duplicate(&self) -> (result: Bounds)
        ensures
            result == *self,
        decreases self,
    {
        Bounds { traits: duplicate_traits(&self.traits), typeset: self.typeset }
    }
}

pub fn duplicate_traits(traits: &List<TraitBound>) -> (result: List<TraitBound>)
    ensures
        result == *traits,
    decreases traits,
{
    match traits {
        List::Nil => List::Nil,
        List::Cons(head, tail) => List::Cons(
            Box::new(
                TraitBound {
                    trait_index: head.trait_index,
                    span: head.span,
                    bindings: duplicate_bindings(&head.bindings),
                },
            ),
            Box::new(duplicate_traits(tail)),
        ),
    }
}

pub fn duplicate_bindings(bindings: &List<AssocBinding>) -> (result: List<AssocBinding>)
    ensures
        result == *bindings,
    decreases bindings,
{
    match bindings {
        List::Nil => List::Nil,
        List::Cons(head, tail) => List::Cons(
            Box::new(
                AssocBinding {
                    name: head.name,
                    file_id: head.file_id,
                    rhs: match &head.rhs {
                        AssocBindingKind::Equals(ty) => AssocBindingKind::Equals(*ty),
                        AssocBindingKind::Bound(bounds) => AssocBindingKind::Bound(
                            bounds.duplicate(),
                        ),
                    },
                    rhs_span: head.rhs_span,
                },
            ),
            Box::new(duplicate_bindings(tail)),
        ),
    }
}

impl TypeParamInfo {
    /// A type parameter whose bounds are not resolved yet.
    #[verifier::allow_in_spec]
    pub fn new(name: Spanned<Symbol>) -> (result: TypeParamInfo)
        returns
            (TypeParamInfo { name, bounds: Bounds::none() }),
    {
        TypeParamInfo { name, bounds: Bounds::none() }
    }
}

/// The position of the first type parameter of that name.
pub open spec fn param_position(params: List<TypeParamInfo>, name: Symbol) -> Option<usize>
    decreases params,
{
    match params {
        List::Nil => None,
        List::Cons(head, tail) => if head.name.inner == name {
            Some(0)
        } else {
            match param_position(*tail, name) {
                Some(position) => if position < usize::MAX {
                    Some((position + 1) as usize)
                } else {
                    None
                },
                None => None,
            }
        },
    }
}

/// The position of the first type parameter of that name.
pub fn find_param(params: &List<TypeParamInfo>, name: Symbol) -> (result: Option<usize>)
    ensures
        result == param_position(*params, name),
    decreases params,
{
    match params {
        List::Nil => None,
        List::Cons(head, tail) => if head.name.inner == name {
            Some(0)
        } else {
            match find_param(tail, name) {
                Some(position) => if position < usize::MAX {
                    Some(position + 1)
                } else {
                    None
                },
                None => None,
            }
        },
    }
}

/// The associated type of that name that a trait declares.
pub open spec fn assoc_type_named(assoc_types: List<TraitAssocType>, name: Symbol) -> Option<
    TraitAssocType,
>
    decreases assoc_types,
{
    match assoc_types {
        List::Nil => None,
        List::Cons(head, tail) => if head.name.inner == name {
            Some(*head)
        } else {
            assoc_type_named(*tail, name)
        },
    }
}

/// The associated type of that name that a trait declares.
pub fn find_assoc_type(assoc_types: &List<TraitAssocType>, name: Symbol) -> (result: Option<
    &TraitAssocType,
>)
    ensures
        match result {
            Some(found) => assoc_type_named(*assoc_types, name) == Some(*found),
            None => assoc_type_named(*assoc_types, name) is None,
        },
    decreases assoc_types,
{
    match assoc_types {
        List::Nil => None,
        List::Cons(head, tail) => if head.name.inner == name {
            Some(head)
        } else {
            find_assoc_type(tail, name)
        },
    }
}

/// Whether the type is one of the listed.
pub open spec fn lists_type(types: List<TypeIndex>, index: TypeIndex) -> bool
    decreases types,
{
    match types {
        List::Nil => false,
        List::Cons(head, tail) => *head == index || lists_type(*tail, index),
    }
}

/// Whether the type is one of the listed.
pub fn contains_type(types: &List<TypeIndex>, index: TypeIndex) -> (result: bool)
    ensures
        result == lists_type(*types, index),
    decreases types,
{
    match types {
        List::Nil => false,
        List::Cons(head, tail) => **head == index || contains_type(tail, index),
    }
}

impl IntegerRange {
    /// All integers that a literal or a 64-bit type can hold.
    #[verifier::allow_in_spec]
    pub fn widest() -> (result: IntegerRange)
        returns
            (IntegerRange { min: i64::MIN, max: u64::MAX }),
    {
        IntegerRange { min: i64::MIN, max: u64::MAX }
    }

    /// The values of an integer type.
    #[verifier::allow_in_spec]
    pub fn for_integer_type(index: TypeIndex) -> (result: Option<IntegerRange>)
        returns
            (if index == ty::U8 {
                Some(IntegerRange { min: 0, max: 0xff })
            } else if index == ty::I8 {
                Some(IntegerRange { min: i8::MIN as i64, max: 0x7f })
            } else if index == ty::U16 {
                Some(IntegerRange { min: 0, max: 0xffff })
            } else if index == ty::I16 {
                Some(IntegerRange { min: i16::MIN as i64, max: 0x7fff })
            } else if index == ty::U32 {
                Some(IntegerRange { min: 0, max: 0xffff_ffff })
            } else if index == ty::I32 {
                Some(IntegerRange { min: i32::MIN as i64, max: 0x7fff_ffff })
            } else if index == ty::U64 {
                Some(IntegerRange { min: 0, max: 0xffff_ffff_ffff_ffff })
            } else if index == ty::I64 {
                Some(IntegerRange { min: i64::MIN, max: 0x7fff_ffff_ffff_ffff })
            } else {
                None
            }),
    {
        if index == ty::U8 {
            Some(IntegerRange { min: 0, max: 0xff })
        } else if index == ty::I8 {
            Some(IntegerRange { min: i8::MIN as i64, max: 0x7f })
        } else if index == ty::U16 {
            Some(IntegerRange { min: 0, max: 0xffff })
        } else if index == ty::I16 {
            Some(IntegerRange { min: i16::MIN as i64, max: 0x7fff })
        } else if index == ty::U32 {
            Some(IntegerRange { min: 0, max: 0xffff_ffff })
        } else if index == ty::I32 {
            Some(IntegerRange { min: i32::MIN as i64, max: 0x7fff_ffff })
        } else if index == ty::U64 {
            Some(IntegerRange { min: 0, max: 0xffff_ffff_ffff_ffff })
        } else if index == ty::I64 {
            Some(IntegerRange { min: i64::MIN, max: 0x7fff_ffff_ffff_ffff })
        } else {
            None
        }
    }

    /// Whether `value` lies in the range.
    #[verifier::allow_in_spec]
    pub fn contains(self, value: i64) -> (result: bool)
        returns
            self.min <= value && (value < 0 || value as u64 <= self.max),
    {
        self.min <= value && (value < 0 || value as u64 <= self.max)
    }

    /// The values that lie in both ranges.
    #[verifier::allow_in_spec]
    pub fn intersect(self, other: IntegerRange) -> (result: IntegerRange)
        returns
            (IntegerRange {
                min: if self.min >= other.min {
                    self.min
                } else {
                    other.min
                },
                max: if self.max <= other.max {
                    self.max
                } else {
                    other.max
                },
            }),
    {
        IntegerRange {
            min: if self.min >= other.min {
                self.min
            } else {
                other.min
            },
            max: if self.max <= other.max {
                self.max
            } else {
                other.max
            },
        }
    }
}

/// A value lies in an intersection exactly when it lies in both ranges.
pub proof fn law_intersection_membership(a: IntegerRange, b: IntegerRange, value: i64)
    ensures
        a.intersect(b).contains(value) == (a.contains(value) && b.contains(value)),
{
}

/// Every value lies in the widest range, which changes no other by
/// intersection.
pub proof fn law_widest_is_neutral(range: IntegerRange, value: i64)
    ensures
        IntegerRange::widest().contains(value),
        IntegerRange::widest().intersect(range) == range,
{
}

impl<'ast> State<'ast> {
    /// The type parameter that an owner declares itself at a position.
    pub open spec fn own_param(self, owner: TypeParamOwner, index: usize) -> Option<TypeParamInfo> {
        match owner {
            TypeParamOwner::ImplBlock(block) => match state::seq_at(self.inherent_impls, block) {
                Some(block) => block.type_params.at(index as nat),
                None => None,
            },
            TypeParamOwner::Function(id) => match self.function_index(id) {
                Some(function) => match self.function(function) {
                    Some(function) => function.type_params.at(index as nat),
                    None => None,
                },
                None => None,
            },
            TypeParamOwner::Struct(id) => match self.struct_index(id) {
                Some(declaration) => match state::seq_at(self.structs, declaration) {
                    Some(declaration) => declaration.type_params.at(index as nat),
                    None => None,
                },
                None => None,
            },
            TypeParamOwner::Trait(declaration) => match state::seq_at(self.traits, declaration) {
                Some(declaration) => if index == 0 {
                    Some(declaration.self_type_param)
                } else {
                    None
                },
                None => None,
            },
            TypeParamOwner::TraitImpl(block) => match state::seq_at(self.trait_impls, block) {
                Some(block) => block.type_params.at(index as nat),
                None => None,
            },
            TypeParamOwner::TypeAlias(id) => match self.type_alias_index(id) {
                Some(alias) => match state::seq_at(self.type_aliases, alias) {
                    Some(alias) => alias.type_params.at(index as nat),
                    None => None,
                },
                None => None,
            },
        }
    }

    /// The position among the type parameters that an owner declares itself.
    pub open spec fn own_param_named(self, owner: TypeParamOwner, name: Symbol) -> Option<usize> {
        match owner {
            TypeParamOwner::ImplBlock(block) => match state::seq_at(self.inherent_impls, block) {
                Some(block) => param_position(block.type_params, name),
                None => None,
            },
            TypeParamOwner::Function(id) => match self.function_index(id) {
                Some(function) => match self.function(function) {
                    Some(function) => param_position(function.type_params, name),
                    None => None,
                },
                None => None,
            },
            TypeParamOwner::Struct(id) => match self.struct_index(id) {
                Some(declaration) => match state::seq_at(self.structs, declaration) {
                    Some(declaration) => param_position(declaration.type_params, name),
                    None => None,
                },
                None => None,
            },
            TypeParamOwner::Trait(declaration) => match state::seq_at(self.traits, declaration) {
                Some(declaration) => if declaration.self_type_param.name.inner == name {
                    Some(0)
                } else {
                    None
                },
                None => None,
            },
            TypeParamOwner::TraitImpl(block) => match state::seq_at(self.trait_impls, block) {
                Some(block) => param_position(block.type_params, name),
                None => None,
            },
            TypeParamOwner::TypeAlias(id) => match self.type_alias_index(id) {
                Some(alias) => match state::seq_at(self.type_aliases, alias) {
                    Some(alias) => param_position(alias.type_params, name),
                    None => None,
                },
                None => None,
            },
        }
    }

    /// How many type parameters come before an owner's own.
    pub open spec fn inherited_param_count(self, owner: TypeParamOwner) -> usize {
        match owner {
            TypeParamOwner::Function(id) => match self.function_index(id) {
                Some(function) => match self.function(function) {
                    Some(function) => function.inherited_type_param_count,
                    None => 0,
                },
                None => 0,
            },
            _ => 0,
        }
    }

    /// The impl or trait that a function inherits type parameters from.
    pub open spec fn param_parent(self, owner: TypeParamOwner) -> Option<TypeParamOwner> {
        match owner {
            TypeParamOwner::Function(id) => match self.function_index(id) {
                Some(function) => match self.function(function) {
                    Some(function) => function.type_param_parent,
                    None => None,
                },
                None => None,
            },
            _ => None,
        }
    }

    /// The type parameter at a position of an owner's whole list: the
    /// inherited ones first, then its own.
    pub open spec fn type_param(self, owner: TypeParamOwner, index: usize) -> Option<
        TypeParamInfo,
    > {
        let inherited = self.inherited_param_count(owner);
        if index < inherited {
            match self.param_parent(owner) {
                Some(parent) => self.own_param(parent, index),
                None => None,
            }
        } else {
            self.own_param(owner, (index - inherited) as usize)
        }
    }

    /// The bounds of the type parameter that a type is; none for another
    /// type.
    pub open spec fn param_bounds(self, index: TypeIndex) -> Bounds {
        match self.ty(index) {
            Type::TypeParam { owner, param_index } => match self.type_param(owner, param_index) {
                Some(info) => info.bounds,
                None => Bounds::none(),
            },
            _ => Bounds::none(),
        }
    }

    /// The bounds that a trait declares for an associated type.
    pub open spec fn assoc_type_bounds(self, trait_index: usize, name: Symbol) -> Option<Bounds> {
        match state::seq_at(self.traits, trait_index) {
            Some(declaration) => match assoc_type_named(declaration.assoc_types, name) {
                Some(assoc) => Some(assoc.bounds),
                None => None,
            },
            None => None,
        }
    }

    /// The typeset that a type parameter or an associated type is bounded by.
    pub open spec fn typeset_bound(self, index: TypeIndex) -> Option<usize> {
        match self.ty(index) {
            Type::TypeParam { .. } => self.param_bounds(index).typeset,
            Type::AssocTypeProjection { base: _, assoc_name, trait_index } => {
                match self.assoc_type_bounds(trait_index, assoc_name) {
                    Some(bounds) => bounds.typeset,
                    None => None,
                }
            },
            _ => None,
        }
    }

    /// Whether arithmetic applies to the type: a primitive type, or an
    /// associated type that a typeset bounds.
    pub open spec fn is_arithmetic(self, index: TypeIndex) -> bool {
        ty::is_primitive(index) || match self.ty(index) {
            Type::AssocTypeProjection { base: _, assoc_name, trait_index } => {
                match self.assoc_type_bounds(trait_index, assoc_name) {
                    Some(bounds) => bounds.typeset is Some,
                    None => false,
                }
            },
            _ => false,
        }
    }

    /// Whether the type is a member of the typeset; a type parameter or an
    /// associated type is one when it is bounded by that very typeset.
    pub open spec fn in_typeset(self, index: TypeIndex, typeset_index: usize) -> bool {
        match self.ty(index) {
            Type::TypeParam { .. } | Type::AssocTypeProjection { .. } => self.typeset_bound(index)
                == Some(typeset_index),
            _ => match state::seq_at(self.typesets, typeset_index) {
                Some(typeset) => lists_type(typeset.members, index),
                None => false,
            },
        }
    }

    /// Records a use of a type parameter.
    pub open spec fn type_param_access(
        self,
        owner: TypeParamOwner,
        param_index: usize,
        span: SourceSpan,
    ) -> State<'ast> {
        self.access(AccessTarget::TypeParam(owner, param_index), span)
    }

    /// Records the use of the word `Self` for the impl it belongs to.
    pub open spec fn self_keyword_access(self, owner: TypeParamOwner, span: SourceSpan) -> State<
        'ast,
    > {
        let container = match owner {
            TypeParamOwner::ImplBlock(_) | TypeParamOwner::TraitImpl(_) => Some(owner),
            TypeParamOwner::Function(_) => self.param_parent(owner),
            _ => None,
        };
        match container {
            Some(TypeParamOwner::ImplBlock(block)) => self.access(
                AccessTarget::SelfKeyword(TypeParamOwner::ImplBlock(block)),
                span,
            ),
            Some(TypeParamOwner::TraitImpl(block)) => self.access(
                AccessTarget::SelfKeyword(TypeParamOwner::TraitImpl(block)),
                span,
            ),
            _ => self,
        }
    }

    /// The position, in a scope's whole list of type parameters, of the one
    /// that a name stands for, with the owner that declares it.
    pub open spec fn scoped_param(self, owner: TypeParamOwner, name: Symbol) -> Option<
        (TypeParamOwner, usize),
    > {
        match self.own_param_named(owner, name) {
            Some(own) => {
                let inherited = self.inherited_param_count(owner);
                if own <= usize::MAX - inherited {
                    Some((owner, (inherited + own) as usize))
                } else {
                    None
                }
            },
            None => match self.param_parent(owner) {
                Some(parent) => match self.own_param_named(parent, name) {
                    Some(position) => Some((parent, position)),
                    None => None,
                },
                None => None,
            },
        }
    }
}

impl<'ast> Builder<'ast> {
    /// The type parameter that an owner declares itself at a position.
    pub fn own_param(&self, owner: TypeParamOwner, index: usize) -> (result: Option<&TypeParamInfo>)
        ensures
            match result {
                Some(info) => self@.own_param(owner, index) == Some(*info),
                None => self@.own_param(owner, index) is None,
            },
    {
        match owner {
            TypeParamOwner::ImplBlock(block) => match vec_at(&self.inherent_impls, block) {
                Some(block) => block.type_params.get(index),
                None => None,
            },
            TypeParamOwner::Function(id) => match self.function_index(id) {
                Some(function) => match self.function(function) {
                    Some(function) => function.type_params.get(index),
                    None => None,
                },
                None => None,
            },
            TypeParamOwner::Struct(id) => match self.struct_index(id) {
                Some(declaration) => match vec_at(&self.structs, declaration) {
                    Some(declaration) => declaration.type_params.get(index),
                    None => None,
                },
                None => None,
            },
            TypeParamOwner::Trait(declaration) => match vec_at(&self.traits, declaration) {
                Some(declaration) => if index == 0 {
                    Some(&declaration.self_type_param)
                } else {
                    None
                },
                None => None,
            },
            TypeParamOwner::TraitImpl(block) => match vec_at(&self.trait_impls, block) {
                Some(block) => block.type_params.get(index),
                None => None,
            },
            TypeParamOwner::TypeAlias(id) => match self.type_alias_index(id) {
                Some(alias) => match vec_at(&self.type_aliases, alias) {
                    Some(alias) => alias.type_params.get(index),
                    None => None,
                },
                None => None,
            },
        }
    }

    /// The position among the type parameters that an owner declares itself.
    pub fn own_param_named(&self, owner: TypeParamOwner, name: Symbol) -> (result: Option<usize>)
        ensures
            result == self@.own_param_named(owner, name),
    {
        match owner {
            TypeParamOwner::ImplBlock(block) => match vec_at(&self.inherent_impls, block) {
                Some(block) => find_param(&block.type_params, name),
                None => None,
            },
            TypeParamOwner::Function(id) => match self.function_index(id) {
                Some(function) => match self.function(function) {
                    Some(function) => find_param(&function.type_params, name),
                    None => None,
                },
                None => None,
            },
            TypeParamOwner::Struct(id) => match self.struct_index(id) {
                Some(declaration) => match vec_at(&self.structs, declaration) {
                    Some(declaration) => find_param(&declaration.type_params, name),
                    None => None,
                },
                None => None,
            },
            TypeParamOwner::Trait(declaration) => match vec_at(&self.traits, declaration) {
                Some(declaration) => if declaration.self_type_param.name.inner == name {
                    Some(0)
                } else {
                    None
                },
                None => None,
            },
            TypeParamOwner::TraitImpl(block) => match vec_at(&self.trait_impls, block) {
                Some(block) => find_param(&block.type_params, name),
                None => None,
            },
            TypeParamOwner::TypeAlias(id) => match self.type_alias_index(id) {
                Some(alias) => match vec_at(&self.type_aliases, alias) {
                    Some(alias) => find_param(&alias.type_params, name),
                    None => None,
                },
                None => None,
            },
        }
    }

    /// How many type parameters come before an owner's own.
    pub fn inherited_type_param_count(&self, owner: TypeParamOwner) -> (result: usize)
        ensures
            result == self@.inherited_param_count(owner),
    {
        match owner {
            TypeParamOwner::Function(id) => match self.function_index(id) {
                Some(function) => match self.function(function) {
                    Some(function) => function.inherited_type_param_count,
                    None => 0,
                },
                None => 0,
            },
            _ => 0,
        }
    }

    /// The impl or trait that a function inherits type parameters from.
    pub fn param_parent(&self, owner: TypeParamOwner) -> (result: Option<TypeParamOwner>)
        ensures
            result == self@.param_parent(owner),
    {
        match owner {
            TypeParamOwner::Function(id) => match self.function_index(id) {
                Some(function) => match self.function(function) {
                    Some(function) => function.type_param_parent,
                    None => None,
                },
                None => None,
            },
            _ => None,
        }
    }

    /// The type parameter at a position of an owner's whole list.
    pub fn type_param_info(&self, owner: TypeParamOwner, index: usize) -> (result: Option<
        &TypeParamInfo,
    >)
        ensures
            match result {
                Some(info) => self@.type_param(owner, index) == Some(*info),
                None => self@.type_param(owner, index) is None,
            },
    {
        let inherited: usize = self.inherited_type_param_count(owner);
        if index < inherited {
            match self.param_parent(owner) {
                Some(parent) => self.own_param(parent, index),
                None => None,
            }
        } else {
            self.own_param(owner, index - inherited)
        }
    }

    /// The bounds of the type parameter that a type is; none for another
    /// type.
    pub fn type_param_bounds(&self, index: TypeIndex) -> (result: Bounds)
        ensures
            result == self@.param_bounds(index),
    {
        match self.ty(index) {
            Type::TypeParam { owner, param_index } => match self.type_param_info(
                owner,
                param_index,
            ) {
                Some(info) => info.bounds.duplicate(),
                None => Bounds::none(),
            },
            _ => Bounds::none(),
        }
    }

    /// The bounds that a trait declares for an associated type.
    pub fn trait_assoc_type_bounds(&self, trait_index: usize, name: Symbol) -> (result: Option<
        &Bounds,
    >)
        ensures
            match result {
                Some(bounds) => self@.assoc_type_bounds(trait_index, name) == Some(*bounds),
                None => self@.assoc_type_bounds(trait_index, name) is None,
            },
    {
        match vec_at(&self.traits, trait_index) {
            Some(declaration) => match find_assoc_type(&declaration.assoc_types, name) {
                Some(assoc) => Some(&assoc.bounds),
                None => None,
            },
            None => None,
        }
    }

    /// A copy of the bounds that a trait declares for an associated type.
    pub fn copy_assoc_type_bounds(&self, trait_index: usize, name: Symbol) -> (result: Option<
        Bounds,
    >)
        ensures
            result == self@.assoc_type_bounds(trait_index, name),
    {
        match self.trait_assoc_type_bounds(trait_index, name) {
            Some(bounds) => Some(bounds.duplicate()),
            None => None,
        }
    }

    /// The typeset that a type parameter or an associated type is bounded by.
    pub fn typeset_bound_for(&self, index: TypeIndex) -> (result: Option<usize>)
        ensures
            result == self@.typeset_bound(index),
    {
        match self.ty(index) {
            Type::TypeParam { .. } => self.type_param_bounds(index).typeset,
            Type::AssocTypeProjection { assoc_name, trait_index, .. } => {
                match self.trait_assoc_type_bounds(trait_index, assoc_name) {
                    Some(bounds) => bounds.typeset,
                    None => None,
                }
            },
            _ => None,
        }
    }

    /// Whether arithmetic applies to the type.
    pub fn is_arithmetic_type(&self, index: TypeIndex) -> (result: bool)
        ensures
            result == self@.is_arithmetic(index),
    {
        if ty::is_primitive(index) {
            return true;
        }
        match self.ty(index) {
            Type::AssocTypeProjection { assoc_name, trait_index, .. } => {
                match self.trait_assoc_type_bounds(trait_index, assoc_name) {
                    Some(bounds) => bounds.typeset.is_some(),
                    None => false,
                }
            },
            _ => false,
        }
    }

    /// Whether the type is a member of the typeset.
    pub fn type_in_typeset(&self, index: TypeIndex, typeset_index: usize) -> (result: bool)
        ensures
            result == self@.in_typeset(index, typeset_index),
    {
        match self.ty(index) {
            Type::TypeParam { .. } | Type::AssocTypeProjection { .. } => {
                match self.typeset_bound_for(index) {
                    Some(bound) => bound == typeset_index,
                    None => false,
                }
            },
            _ => match vec_at(&self.typesets, typeset_index) {
                Some(typeset) => contains_type(&typeset.members, index),
                None => false,
            },
        }
    }

    pub fn record_type_param_access(
        &mut self,
        owner: TypeParamOwner,
        param_index: usize,
        span: SourceSpan,
    )
        ensures
            final(self)@ == old(self)@.type_param_access(owner, param_index, span),
    {
        self.access(AccessTarget::TypeParam(owner, param_index), span);
    }

    /// Records the use of the word `Self` for the impl it belongs to.
    pub fn record_self_keyword_access(&mut self, owner: TypeParamOwner, span: SourceSpan)
        ensures
            final(self)@ == old(self)@.self_keyword_access(owner, span),
    {
        let container: Option<TypeParamOwner> = match owner {
            TypeParamOwner::ImplBlock(_) | TypeParamOwner::TraitImpl(_) => Some(owner),
            TypeParamOwner::Function(_) => self.param_parent(owner),
            _ => None,
        };
        match container {
            Some(TypeParamOwner::ImplBlock(block)) => {
                self.access(AccessTarget::SelfKeyword(TypeParamOwner::ImplBlock(block)), span);
            },
            Some(TypeParamOwner::TraitImpl(block)) => {
                self.access(AccessTarget::SelfKeyword(TypeParamOwner::TraitImpl(block)), span);
            },
            _ => {},
        }
    }

    /// The position, in a scope's whole list of type parameters, of the one
    /// that a name stands for, with the owner that declares it.
    pub fn identifier_type_param_index(&self, owner: TypeParamOwner, name: Symbol) -> (result:
        Option<(TypeParamOwner, usize)>)
        ensures
            result == self@.scoped_param(owner, name),
    {
        match self.own_param_named(owner, name) {
            Some(own) => {
                let inherited: usize = self.inherited_type_param_count(owner);
                if own <= usize::MAX - inherited {
                    Some((owner, inherited + own))
                } else {
                    None
                }
            },
            None => match self.param_parent(owner) {
                Some(parent) => match self.own_param_named(parent, name) {
                    Some(position) => Some((parent, position)),
                    None => None,
                },
                None => None,
            },
        }
    }
}

} // verus!
