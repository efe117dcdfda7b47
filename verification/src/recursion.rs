//! Which structs have infinite size: the search for a struct that directly
//! contains itself finds one exactly when there is one.

use vstd::prelude::*;

use crate::list::{cons, single, List};
use crate::params::lists_type;
use crate::relate::MAX_DEPTH;
use crate::span::SourceSpan;
use crate::state::State;
use crate::tir::StructField;
use crate::types::{Type, TypeIndex};

verus! {

impl<'ast> State<'ast> {
    /// Whether a value of a type is a value of a struct, or a tuple with one
    /// in it.
    pub open spec fn holds(self, index: TypeIndex, struct_index: usize) -> bool {
        self.holds_within(index, struct_index, MAX_DEPTH)
    }

    /// The same, where `nesting` bounds how deep tuples stand in tuples.
    pub open spec fn holds_within(
        self,
        index: TypeIndex,
        struct_index: usize,
        nesting: usize,
    ) -> bool
        decreases nesting, 1int, List::<TypeIndex>::Nil,
    {
        match self.ty(index) {
            Type::Struct { struct_index: held, args: _ } => held == struct_index,
            Type::Tuple { elements } => self.any_holds(elements, struct_index, nesting),
            _ => false,
        }
    }

    /// Whether an element of a tuple holds a struct.
    pub open spec fn any_holds(
        self,
        elements: List<TypeIndex>,
        struct_index: usize,
        nesting: usize,
    ) -> bool
        decreases nesting, 0int, elements,
    {
        match elements {
            List::Nil => false,
            List::Cons(element, rest) => (nesting > 0 && self.holds_within(
                *element,
                struct_index,
                (nesting - 1) as usize,
            )) || self.any_holds(*rest, struct_index, nesting),
        }
    }

    /// Whether one of the fields holds a struct.
    pub open spec fn field_holds(self, fields: List<StructField>, struct_index: usize) -> bool
        decreases fields,
    {
        match fields {
            List::Nil => false,
            List::Cons(field, rest) => self.holds(field.ty.inner, struct_index)
                || self.field_holds(*rest, struct_index),
        }
    }

    /// Whether a field of a struct holds another struct.
    pub open spec fn has_part(self, whole: usize, part: usize) -> bool {
        whole < self.structs.len() && self.field_holds(self.structs[whole as int].fields, part)
    }

    /// Whether each struct is part of the one before it.
    pub open spec fn is_chain(self, structs: Seq<usize>) -> bool {
        &&& structs.len() >= 1
        &&& forall|i: int|
            0 <= i < structs.len() - 1 ==> self.has_part(#[trigger] structs[i], structs[i + 1])
    }

    /// Whether a struct contains itself without a pointer in between: a chain
    /// of parts leads back to it.
    pub open spec fn contains_itself(self, root: usize) -> bool {
        exists|structs: Seq<usize>|
            {
                &&& #[trigger] self.is_chain(structs)
                &&& structs.len() >= 2
                &&& structs[0] == root
                &&& structs.last() == root
            }
    }
}

/// Whether the search can follow a chain: only its last struct is the one
/// looked for, no struct is in it twice, and none is on the way already.
spec fn can_be_followed(chain: Seq<usize>, root: usize, visited: List<usize>) -> bool {
    &&& chain.len() >= 1
    &&& chain.last() == root
    &&& forall|i: int| 0 <= i < chain.len() - 1 ==> #[trigger] chain[i] != root
    &&& forall|i: int|
        0 <= i < chain.len() - 1 ==> !lists_type(visited, #[trigger] chain[i])
    &&& forall|i: int, j: int|
        0 <= i < j < chain.len() ==> #[trigger] chain[i] != #[trigger] chain[j]
}

// ---------------------------------------------------------------- what is found is there

proof fn found_chain<'ast>(
    s: State<'ast>,
    index: TypeIndex,
    root: usize,
    visited: &List<usize>,
    depth: usize,
    nesting: usize,
) -> (chain: Seq<usize>)
    requires
        s.contains_within(index, root, visited, depth, nesting),
    ensures
        s.is_chain(chain),
        s.holds_within(index, chain[0], nesting),
        chain.last() == root,
    decreases depth, nesting as int, 1int, List::<usize>::Nil,
{
    match s.ty(index) {
        Type::Struct { struct_index, args: _ } => {
            if struct_index == root {
                seq![root]
            } else {
                let fields = s.structs[struct_index as int].fields;
                let rest = found_field_chain(
                    s,
                    &fields,
                    root,
                    &cons(struct_index, *visited),
                    (depth - 1) as usize,
                );
                let chain = seq![struct_index] + rest;
                assert forall|i: int| 0 <= i < chain.len() - 1 implies s.has_part(
                    #[trigger] chain[i],
                    chain[i + 1],
                ) by {
                    if i > 0 {
                        assert(s.has_part(rest[i - 1], rest[i]));
                    }
                }
                chain
            }
        },
        Type::Tuple { elements } => found_element_chain(s, &elements, root, visited, depth, nesting),
        _ => seq![root],
    }
}

proof fn found_field_chain<'ast>(
    s: State<'ast>,
    fields: &List<StructField>,
    root: usize,
    visited: &List<usize>,
    depth: usize,
) -> (chain: Seq<usize>)
    requires
        s.any_field_contains(fields, root, visited, depth),
    ensures
        s.is_chain(chain),
        s.field_holds(*fields, chain[0]),
        chain.last() == root,
    decreases depth, usize::MAX + 1, 0int, fields,
{
    match fields {
        List::Nil => seq![root],
        List::Cons(field, rest) => {
            if s.find_direct_struct_recursion(field.ty.inner, root, visited, depth) {
                found_chain(s, field.ty.inner, root, visited, depth, MAX_DEPTH)
            } else {
                found_field_chain(s, rest, root, visited, depth)
            }
        },
    }
}

proof fn found_element_chain<'ast>(
    s: State<'ast>,
    elements: &List<TypeIndex>,
    root: usize,
    visited: &List<usize>,
    depth: usize,
    nesting: usize,
) -> (chain: Seq<usize>)
    requires
        s.any_element_contains(elements, root, visited, depth, nesting),
    ensures
        s.is_chain(chain),
        s.any_holds(*elements, chain[0], nesting),
        chain.last() == root,
    decreases depth, nesting as int, 0int, elements,
{
    match elements {
        List::Nil => seq![root],
        List::Cons(element, rest) => {
            if nesting > 0 && s.contains_within(
                **element,
                root,
                visited,
                depth,
                (nesting - 1) as usize,
            ) {
                found_chain(s, **element, root, visited, depth, (nesting - 1) as usize)
            } else {
                found_element_chain(s, rest, root, visited, depth, nesting)
            }
        },
    }
}

// ---------------------------------------------------------------- what is there is found

proof fn chain_is_found<'ast>(
    s: State<'ast>,
    index: TypeIndex,
    root: usize,
    visited: &List<usize>,
    depth: usize,
    nesting: usize,
    chain: Seq<usize>,
)
    requires
        s.is_chain(chain),
        s.holds_within(index, chain[0], nesting),
        can_be_followed(chain, root, *visited),
        chain.len() - 1 <= depth,
    ensures
        s.contains_within(index, root, visited, depth, nesting),
    decreases depth, nesting as int, 1int, List::<usize>::Nil,
{
    match s.ty(index) {
        Type::Struct { struct_index, args: _ } => {
            if struct_index != root {
                let rest = chain.skip(1);
                let next = cons(struct_index, *visited);
                assert(s.has_part(chain[0], chain[1]));
                assert forall|i: int| 0 <= i < rest.len() - 1 implies s.has_part(
                    #[trigger] rest[i],
                    rest[i + 1],
                ) by {
                    assert(s.has_part(chain[i + 1], chain[i + 2]));
                }
                assert forall|i: int| 0 <= i < rest.len() - 1 implies #[trigger] rest[i] != root
                    && !lists_type(next, rest[i]) by {
                    assert(chain[0] != chain[i + 1]);
                }
                assert forall|i: int, j: int| 0 <= i < j < rest.len() implies #[trigger] rest[i]
                    != #[trigger] rest[j] by {
                    assert(chain[i + 1] != chain[j + 1]);
                }
                let fields = s.structs[struct_index as int].fields;
                field_chain_is_found(s, &fields, root, &next, (depth - 1) as usize, rest);
            }
        },
        Type::Tuple { elements } => {
            element_chain_is_found(s, &elements, root, visited, depth, nesting, chain);
        },
        _ => {},
    }
}

proof fn field_chain_is_found<'ast>(
    s: State<'ast>,
    fields: &List<StructField>,
    root: usize,
    visited: &List<usize>,
    depth: usize,
    chain: Seq<usize>,
)
    requires
        s.is_chain(chain),
        s.field_holds(*fields, chain[0]),
        can_be_followed(chain, root, *visited),
        chain.len() - 1 <= depth,
    ensures
        s.any_field_contains(fields, root, visited, depth),
    decreases depth, usize::MAX + 1, 0int, fields,
{
    match fields {
        List::Nil => {},
        List::Cons(field, rest) => {
            if s.holds(field.ty.inner, chain[0]) {
                chain_is_found(s, field.ty.inner, root, visited, depth, MAX_DEPTH, chain);
                assert(s.find_direct_struct_recursion(field.ty.inner, root, visited, depth));
            } else {
                field_chain_is_found(s, rest, root, visited, depth, chain);
            }
        },
    }
}

proof fn element_chain_is_found<'ast>(
    s: State<'ast>,
    elements: &List<TypeIndex>,
    root: usize,
    visited: &List<usize>,
    depth: usize,
    nesting: usize,
    chain: Seq<usize>,
)
    requires
        s.is_chain(chain),
        s.any_holds(*elements, chain[0], nesting),
        can_be_followed(chain, root, *visited),
        chain.len() - 1 <= depth,
    ensures
        s.any_element_contains(elements, root, visited, depth, nesting),
    decreases depth, nesting as int, 0int, elements,
{
    match elements {
        List::Nil => {},
        List::Cons(element, rest) => {
            let inner = (nesting - 1) as usize;
            if nesting > 0 && s.holds_within(**element, chain[0], inner) {
                chain_is_found(s, **element, root, visited, depth, inner, chain);
            } else {
                element_chain_is_found(s, rest, root, visited, depth, nesting, chain);
            }
        },
    }
}

// ---------------------------------------------------------------- chains without detours

/// A chain can be cut until it has no detour.
proof fn shortened<'ast>(s: State<'ast>, chain: Seq<usize>, root: usize) -> (short: Seq<usize>)
    requires
        s.is_chain(chain),
        chain.last() == root,
    ensures
        s.is_chain(short),
        short[0] == chain[0],
        can_be_followed(short, root, single(root)),
    decreases chain.len(),
{
    if exists|i: int| 0 <= i < chain.len() - 1 && chain[i] == root {
        let i = choose|i: int| 0 <= i < chain.len() - 1 && chain[i] == root;
        let cut = chain.take(i + 1);
        assert forall|k: int| 0 <= k < cut.len() - 1 implies s.has_part(
            #[trigger] cut[k],
            cut[k + 1],
        ) by {
            assert(s.has_part(chain[k], chain[k + 1]));
        }
        shortened(s, cut, root)
    } else if exists|i: int, j: int| 0 <= i < j < chain.len() && chain[i] == chain[j] {
        let (i, j) = choose|i: int, j: int| 0 <= i < j < chain.len() && chain[i] == chain[j];
        let cut = chain.take(i) + chain.skip(j);
        assert forall|k: int| 0 <= k < cut.len() - 1 implies s.has_part(
            #[trigger] cut[k],
            cut[k + 1],
        ) by {
            if k < i {
                assert(s.has_part(chain[k], chain[k + 1]));
            } else {
                assert(s.has_part(chain[k - i + j], chain[k - i + j + 1]));
            }
        }
        shortened(s, cut, root)
    } else {
        assert forall|i: int| 0 <= i < chain.len() - 1 implies !lists_type(
            single(root),
            #[trigger] chain[i],
        ) by {
            reveal_with_fuel(lists_type, 2);
        }
        chain
    }
}

/// Different numbers below a bound are no more than the bound.
proof fn distinct_are_few(numbers: Seq<usize>, bound: nat)
    requires
        forall|i: int| 0 <= i < numbers.len() ==> #[trigger] numbers[i] < bound,
        forall|i: int, j: int|
            0 <= i < j < numbers.len() ==> #[trigger] numbers[i] != #[trigger] numbers[j],
    ensures
        numbers.len() <= bound,
    decreases bound,
{
    if numbers.len() > 0 {
        assert(numbers[0] < bound);
        let largest = (bound - 1) as usize;
        if exists|i: int| 0 <= i < numbers.len() && numbers[i] == largest {
            let i = choose|i: int| 0 <= i < numbers.len() && numbers[i] == largest;
            let others = numbers.remove(i);
            assert forall|k: int| 0 <= k < others.len() implies #[trigger] others[k] < bound - 1 by {
                assert(others[k] == if k < i {
                    numbers[k]
                } else {
                    numbers[k + 1]
                });
                assert(numbers[i] == largest);
            }
            distinct_are_few(others, (bound - 1) as nat);
        } else {
            distinct_are_few(numbers, (bound - 1) as nat);
        }
    }
}

/// The search for a field that directly contains its own struct succeeds
/// exactly when a chain of parts leads from the struct back to it.
pub proof fn law_recursive_struct_is_found<'ast>(s: State<'ast>, root: usize)
    requires
        root < s.structs.len() <= usize::MAX,
    ensures
        s.recursive_field(&s.structs[root as int].fields, root) is Some <==> s.contains_itself(
            root,
        ),
{
    let fields = s.structs[root as int].fields;
    if s.recursive_field(&fields, root) is Some {
        recursive_field_contains(s, &fields, root);
        let rest = found_field_chain(s, &fields, root, &single(root), MAX_DEPTH);
        let chain = seq![root] + rest;
        assert forall|i: int| 0 <= i < chain.len() - 1 implies s.has_part(
            #[trigger] chain[i],
            chain[i + 1],
        ) by {
            if i > 0 {
                assert(s.has_part(rest[i - 1], rest[i]));
            }
        }
        assert(s.is_chain(chain));
    }
    if s.contains_itself(root) {
        let whole = choose|structs: Seq<usize>|
            {
                &&& #[trigger] s.is_chain(structs)
                &&& structs.len() >= 2
                &&& structs[0] == root
                &&& structs.last() == root
            };
        let parts = whole.skip(1);
        assert(s.has_part(whole[0], whole[1]));
        assert forall|i: int| 0 <= i < parts.len() - 1 implies s.has_part(
            #[trigger] parts[i],
            parts[i + 1],
        ) by {
            assert(s.has_part(whole[i + 1], whole[i + 2]));
        }
        let chain = shortened(s, parts, root);
        let before = chain.drop_last();
        assert forall|i: int| 0 <= i < before.len() implies #[trigger] before[i] < s.structs.len() by {
            assert(s.has_part(chain[i], chain[i + 1]));
        }
        distinct_are_few(before, s.structs.len());
        field_chain_is_found(s, &fields, root, &single(root), MAX_DEPTH, chain);
        recursive_field_contains(s, &fields, root);
    }
}

proof fn recursive_field_contains<'ast>(s: State<'ast>, fields: &List<StructField>, root: usize)
    ensures
        s.recursive_field(fields, root) is Some <==> s.any_field_contains(
            fields,
            root,
            &single(root),
            MAX_DEPTH,
        ),
    decreases fields,
{
    match fields {
        List::Nil => {},
        List::Cons(_, rest) => {
            recursive_field_contains(s, rest, root);
        },
    }
}

/// A struct of infinite size is reported once, and no other struct is.
pub proof fn law_infinite_size_is_reported<'ast>(
    s: State<'ast>,
    root: usize,
    struct_span: SourceSpan,
)
    requires
        root < s.structs.len() <= usize::MAX,
    ensures
        ({
            let later = s.check_struct_fields_for_direct_recursion(root, struct_span);
            &&& s.contains_itself(root) ==> later.diagnostics.len() == s.diagnostics.len() + 1
            &&& !s.contains_itself(root) ==> later == s
        }),
{
    reveal(State::check_struct_fields_for_direct_recursion);
    reveal(State::report);
    law_recursive_struct_is_found(s, root);
}

} // verus!
