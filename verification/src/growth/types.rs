//! What `params`, `substitute` and `relate` do to the state only adds to it.

use vstd::prelude::*;

use crate::list::List;
use crate::relate;
use crate::relate::{result_type, MAX_DEPTH};
use crate::span::{SourceSpan, Spanned};
use crate::state::State;
use crate::tir::{AccessTarget, FunctionParam};
use crate::ty;
use crate::types::{FunctionSignature, Type, TypeIndex, TypeParamOwner};

verus! {

impl<'ast> State<'ast> {
    pub broadcast proof fn adds_type_param_access(
        self,
        owner: TypeParamOwner,
        param_index: usize,
        span: SourceSpan,
    )
        ensures
            self.only_adds(#[trigger] self.type_param_access(owner, param_index, span)),
    {
        self.adds_access(AccessTarget::TypeParam(owner, param_index), span);
    }

    pub broadcast proof fn adds_self_keyword_access(self, owner: TypeParamOwner, span: SourceSpan)
        ensures
            self.only_adds(#[trigger] self.self_keyword_access(owner, span)),
    {
        self.adds_nothing();
        self.adds_access(AccessTarget::SelfKeyword(owner), span);
        match self.param_parent(owner) {
            Some(parent) => {
                self.adds_access(AccessTarget::SelfKeyword(parent), span);
            },
            None => {},
        }
    }

    pub broadcast proof fn adds_substituted(self, index: TypeIndex, args: List<TypeIndex>, depth: usize)
        ensures
            self.only_adds((#[trigger] self.substituted(index, args, depth)).0),
        decreases depth, 2nat, List::<TypeIndex>::Nil,
    {
        broadcast use crate::growth::law_adding_chains;

        self.adds_nothing();
        match self.ty(index) {
            Type::AssocTypeProjection { base, assoc_name, trait_index } => {
                if depth > 0 {
                    self.adds_substituted(base, args, (depth - 1) as usize);
                    let (s, next) = self.substituted(base, args, (depth - 1) as usize);
                    s.adds_intern(Type::AssocTypeProjection { base: next, assoc_name, trait_index });
                    match s.trait_impl_for(next, trait_index) {
                        Some((impl_index, impl_args)) => match s.impl_assoc_type(
                            impl_index,
                            assoc_name,
                        ) {
                            Some(value) => {
                                s.adds_substituted(value, impl_args, (depth - 1) as usize);
                            },
                            None => {},
                        },
                        None => {},
                    }
                }
            },
            Type::Pointer { to, memory, mutable } => {
                self.adds_substituted_pair(to, memory, args, depth);
                let (s, next, next_memory) = self.substituted_pair(to, memory, args, depth);
                s.adds_intern(Type::Pointer { to: next, memory: next_memory, mutable });
            },
            Type::Array { of, size, memory, mutable } => {
                self.adds_substituted_pair(of, memory, args, depth);
                let (s, next, next_memory) = self.substituted_pair(of, memory, args, depth);
                s.adds_intern(Type::Array { of: next, size, memory: next_memory, mutable });
            },
            Type::Slice { of, memory, mutable } => {
                self.adds_substituted_pair(of, memory, args, depth);
                let (s, next, next_memory) = self.substituted_pair(of, memory, args, depth);
                s.adds_intern(Type::Slice { of: next, memory: next_memory, mutable });
            },
            Type::Tuple { elements } => {
                self.adds_substituted_list(elements, args, depth);
                let (s, next) = self.substituted_list(elements, args, depth);
                s.adds_intern(Type::Tuple { elements: next });
            },
            Type::Function { signature } => {
                self.adds_substituted_list(signature.params, args, depth);
                let (s, params) = self.substituted_list(signature.params, args, depth);
                s.adds_nothing();
                if depth > 0 {
                    s.adds_substituted(signature.result, args, (depth - 1) as usize);
                }
                let (t, result) = if depth > 0 {
                    s.substituted(signature.result, args, (depth - 1) as usize)
                } else {
                    (s, signature.result)
                };
                t.adds_intern(Type::Function { signature: FunctionSignature { params, result } });
            },
            Type::Struct { struct_index, args: struct_args } => {
                self.adds_substituted_list(struct_args, args, depth);
                let (s, next) = self.substituted_list(struct_args, args, depth);
                s.adds_intern(Type::Struct { struct_index, args: next });
            },
            Type::FunctionItem { id, type_args } => {
                self.adds_substituted_list(type_args, args, depth);
                let (s, next) = self.substituted_list(type_args, args, depth);
                s.adds_intern(Type::FunctionItem { id, type_args: next });
            },
            _ => {},
        }
    }

    pub proof fn adds_substituted_pair(
        self,
        first: TypeIndex,
        second: TypeIndex,
        args: List<TypeIndex>,
        depth: usize,
    )
        ensures
            self.only_adds(self.substituted_pair(first, second, args, depth).0),
        decreases depth, 1nat, List::<TypeIndex>::Nil,
    {
        broadcast use crate::growth::law_adding_chains;

        self.adds_nothing();
        if depth > 0 {
            self.adds_substituted(first, args, (depth - 1) as usize);
        }
        let (s, next) = if depth > 0 {
            self.substituted(first, args, (depth - 1) as usize)
        } else {
            (self, first)
        };
        s.adds_nothing();
        if depth > 0 {
            s.adds_substituted(second, args, (depth - 1) as usize);
        }
    }

    pub proof fn adds_substituted_list(
        self,
        types: List<TypeIndex>,
        args: List<TypeIndex>,
        depth: usize,
    )
        ensures
            self.only_adds(self.substituted_list(types, args, depth).0),
        decreases depth, 0nat, types,
    {
        broadcast use crate::growth::law_adding_chains;

        self.adds_nothing();
        match types {
            List::Nil => {},
            List::Cons(head, tail) => {
                if depth > 0 {
                    self.adds_substituted(*head, args, (depth - 1) as usize);
                }
                let (s, next) = if depth > 0 {
                    self.substituted(*head, args, (depth - 1) as usize)
                } else {
                    (self, *head)
                };
                s.adds_substituted_list(*tail, args, depth);
            },
        }
    }

    pub broadcast proof fn adds_poisoned(self, index: TypeIndex, depth: usize)
        ensures
            self.only_adds((#[trigger] self.poisoned(index, depth)).0),
        decreases depth, 2nat, List::<TypeIndex>::Nil,
    {
        broadcast use crate::growth::law_adding_chains;

        self.adds_nothing();
        match self.ty(index) {
            Type::AssocTypeProjection { base, assoc_name: _, trait_index: _ } => {
                if depth > 0 {
                    self.adds_poisoned(base, (depth - 1) as usize);
                }
            },
            Type::Pointer { to, memory, mutable } => {
                self.adds_poisoned_pair(to, memory, depth);
                let (s, next, next_memory) = self.poisoned_pair(to, memory, depth);
                s.adds_intern(Type::Pointer { to: next, memory: next_memory, mutable });
            },
            Type::Array { of, size, memory, mutable } => {
                self.adds_poisoned_pair(of, memory, depth);
                let (s, next, next_memory) = self.poisoned_pair(of, memory, depth);
                s.adds_intern(Type::Array { of: next, size, memory: next_memory, mutable });
            },
            Type::Slice { of, memory, mutable } => {
                self.adds_poisoned_pair(of, memory, depth);
                let (s, next, next_memory) = self.poisoned_pair(of, memory, depth);
                s.adds_intern(Type::Slice { of: next, memory: next_memory, mutable });
            },
            Type::Tuple { elements } => {
                self.adds_poisoned_list(elements, depth);
                let (s, next) = self.poisoned_list(elements, depth);
                s.adds_intern(Type::Tuple { elements: next });
            },
            Type::Function { signature } => {
                self.adds_poisoned_list(signature.params, depth);
                let (s, params) = self.poisoned_list(signature.params, depth);
                s.adds_nothing();
                if depth > 0 {
                    s.adds_poisoned(signature.result, (depth - 1) as usize);
                }
                let (t, result) = if depth > 0 {
                    s.poisoned(signature.result, (depth - 1) as usize)
                } else {
                    (s, signature.result)
                };
                t.adds_intern(Type::Function { signature: FunctionSignature { params, result } });
            },
            Type::Struct { struct_index, args } => {
                self.adds_poisoned_list(args, depth);
                let (s, next) = self.poisoned_list(args, depth);
                s.adds_intern(Type::Struct { struct_index, args: next });
            },
            Type::FunctionItem { id, type_args } => {
                self.adds_poisoned_list(type_args, depth);
                let (s, next) = self.poisoned_list(type_args, depth);
                s.adds_intern(Type::FunctionItem { id, type_args: next });
            },
            _ => {},
        }
    }

    pub proof fn adds_poisoned_pair(self, first: TypeIndex, second: TypeIndex, depth: usize)
        ensures
            self.only_adds(self.poisoned_pair(first, second, depth).0),
        decreases depth, 1nat, List::<TypeIndex>::Nil,
    {
        broadcast use crate::growth::law_adding_chains;

        self.adds_nothing();
        if depth > 0 {
            self.adds_poisoned(first, (depth - 1) as usize);
        }
        let (s, next) = if depth > 0 {
            self.poisoned(first, (depth - 1) as usize)
        } else {
            (self, first)
        };
        s.adds_nothing();
        if depth > 0 {
            s.adds_poisoned(second, (depth - 1) as usize);
        }
    }

    pub proof fn adds_poisoned_list(self, types: List<TypeIndex>, depth: usize)
        ensures
            self.only_adds(self.poisoned_list(types, depth).0),
        decreases depth, 0nat, types,
    {
        broadcast use crate::growth::law_adding_chains;

        self.adds_nothing();
        match types {
            List::Nil => {},
            List::Cons(head, tail) => {
                if depth > 0 {
                    self.adds_poisoned(*head, (depth - 1) as usize);
                }
                let (s, next) = if depth > 0 {
                    self.poisoned(*head, (depth - 1) as usize)
                } else {
                    (self, *head)
                };
                s.adds_poisoned_list(*tail, depth);
            },
        }
    }

    pub broadcast proof fn adds_intern_function_type(
        self,
        params: List<FunctionParam>,
        result: Option<Spanned<TypeIndex>>,
    )
        ensures
            self.only_adds((#[trigger] self.intern_function_type(params, result)).0),
    {
        self.adds_intern(
            Type::Function {
                signature: FunctionSignature {
                    params: relate::param_types(params),
                    result: result_type(result),
                },
            },
        );
    }

    pub broadcast proof fn adds_coercible(self, a: TypeIndex, b: TypeIndex)
        ensures
            self.only_adds((#[trigger] self.coercible(a, b)).0),
    {
        self.adds_nothing();
        match self.ty(a) {
            Type::FunctionItem { id, type_args } => {
                self.adds_substituted(self.signature_of(id), type_args, MAX_DEPTH);
            },
            _ => {},
        }
    }

    pub broadcast proof fn adds_unified(self, a: TypeIndex, b: TypeIndex)
        ensures
            self.only_adds((#[trigger] self.unified(a, b)).0),
    {
        broadcast use crate::growth::law_adding_chains;

        self.adds_nothing();
        match (self.ty(a), self.ty(b)) {
            (
                Type::FunctionItem { id: a_id, type_args: a_args },
                Type::FunctionItem { id: b_id, type_args: b_args },
            ) => {
                self.adds_substituted(self.signature_of(a_id), a_args, MAX_DEPTH);
                let s = self.substituted(self.signature_of(a_id), a_args, MAX_DEPTH).0;
                s.adds_substituted(self.signature_of(b_id), b_args, MAX_DEPTH);
            },
            _ => {},
        }
    }

    pub broadcast proof fn adds_expected(self, index: TypeIndex, args: List<TypeIndex>)
        ensures
            self.only_adds((#[trigger] self.expected(index, args)).0),
    {
        self.adds_substituted(index, args, MAX_DEPTH);
    }
}

} // verus!
