//! Scanning a program: every definition gets its name, its entry in a table
//! and its place among the definitions.

use vstd::prelude::*;

use crate::ast;
use crate::ast::{Attribute, AttributeValue, ImplItem, Item, TraitItem, TypeParam};
use crate::failures::more_is_reported;
use crate::interner;
use crate::laws;
use crate::list::List;
use crate::literal;
use crate::prescan::named_params;
use crate::rules::bounds::names_trait;
use crate::span::{DefId, FileId, SourceSpan, Spanned, Symbol, TextSpan};
use crate::state::{AstNodeRef, State};
use crate::tir::{ItemAttribute, ItemIndex, SymbolKind, SymbolNamespace};

verus! {

// ---------------------------------------------------------------- names

/// Whether a definition took a name, or was reported because the name had a
/// meaning before, which it keeps.
pub open spec fn takes_name<'ast>(
    s: State<'ast>,
    later: State<'ast>,
    namespace: Option<usize>,
    space: SymbolNamespace,
    name: Symbol,
    id: DefId,
) -> bool {
    match s.direct_symbol(namespace, space, name) {
        Some(meaning) => later.direct_symbol(namespace, space, name) == Some(meaning)
            && more_is_reported(s, later),
        None => later.direct_symbol(namespace, space, name) == Some(SymbolKind::Pending(id)),
    }
}

proof fn claiming<'ast>(
    s: State<'ast>,
    namespace: Option<usize>,
    space: SymbolNamespace,
    name: Symbol,
    id: DefId,
    at: SourceSpan,
)
    ensures
        ({
            let t = s.claimed(namespace, space, name, id, at).0;
            &&& takes_name(s, t, namespace, space, name, id)
            &&& t == State { symbols: t.symbols, diagnostics: t.diagnostics, ..s }
            &&& s.direct_symbol(namespace, space, name) is None ==> t.diagnostics == s.diagnostics
            &&& s.diagnostics.len() <= t.diagnostics.len()
        }),
{
    reveal(State::report);
    reveal(State::with_symbol);
    laws::law_name_reads_back(s, namespace, space, name, SymbolKind::Pending(id));
}

/// The type parameters of a definition have the names that are written, in
/// order, and no bounds yet.
pub proof fn law_parameters_by_name(params: List<TypeParam>)
    ensures
        named_params(&params).count() == params.count(),
        forall|i: nat|
            (#[trigger] params.at(i)) matches Some(param) ==> (named_params(&params).at(
                i,
            ) matches Some(info) && info.name == param.name && info.bounds.traits is Nil
                && info.bounds.typeset is None),
    decreases params,
{
    match params {
        List::Nil => {},
        List::Cons(_, rest) => {
            law_parameters_by_name(*rest);
            assert forall|i: nat| (#[trigger] params.at(i)) is Some implies (named_params(
                &params,
            ).at(i) matches Some(info) && info.name == params.at(i)->0.name
                && info.bounds.traits is Nil && info.bounds.typeset is None) by {
                if i > 0 {
                    assert(params.at(i) == rest.at((i - 1) as nat));
                }
            }
        },
    }
}

// ---------------------------------------------------------------- attributes

/// The attributes with a meaning are `inline`, `intrinsic` and `fixed_layout`
/// as words, and `tag` with a value, whose text is what the quoted value
/// stands for.
pub proof fn law_meaning_of_an_attribute<'ast>(s: State<'ast>, attribute: Attribute)
    requires
        s.texts.len() < u32::MAX,
    ensures
        ({
            let (t, meaning) = s.resolve_attribute(&attribute);
            let name = interner::text_or_empty(s.texts, attribute.name.inner);
            &&& t == State { texts: t.texts, ..s }
            &&& match attribute.value {
                AttributeValue::Word => {
                    &&& t == s
                    &&& name == "inline"@ ==> meaning == Some(ItemAttribute::Inline)
                    &&& name == "intrinsic"@ ==> meaning == Some(ItemAttribute::Intrinsic)
                    &&& name == "fixed_layout"@ ==> meaning == Some(ItemAttribute::FixedLayout)
                    &&& name != "inline"@ && name != "intrinsic"@ && name != "fixed_layout"@
                        ==> meaning is None
                },
                AttributeValue::NameValue(value) => {
                    &&& name == "tag"@ ==> (meaning matches Some(ItemAttribute::Tag(key))
                        && interner::is_name(
                        t.texts,
                        key,
                        literal::unescaped(interner::text_or_empty(s.texts, value.inner)),
                    ))
                    &&& name != "tag"@ ==> meaning is None && t == s
                },
            }
        }),
{
    reveal(State::resolve_attribute);
    reveal(State::unquoted_name);
    reveal_strlit("inline");
    reveal_strlit("intrinsic");
    reveal_strlit("fixed_layout");
    reveal_strlit("tag");
    assert("inline"@.len() == 6 && "intrinsic"@.len() == 9 && "fixed_layout"@.len() == 12
        && "tag"@.len() == 3);
    match attribute.value {
        AttributeValue::NameValue(value) => {
            let text = literal::unescaped(interner::text_or_empty(s.texts, value.inner));
            if s.texts.contains(text) {
                let position = choose|i: int| 0 <= i < s.texts.len() && s.texts[i] == text;
                assert(interner::is_name(s.texts, position as Symbol, text));
            }
        },
        _ => {},
    }
}

proof fn attributes_are_texts<'ast>(s: State<'ast>, attributes: List<Attribute>)
    ensures
        ({
            let t = s.resolve_attributes(&attributes).0;
            t == State { texts: t.texts, ..s }
        }),
    decreases attributes,
{
    reveal(State::resolve_attribute);
    reveal(State::unquoted_name);
    match attributes {
        List::Nil => {},
        List::Cons(attribute, rest) => {
            attributes_are_texts(s.resolve_attribute(&*attribute).0, *rest);
        },
    }
}

/// Whether one of the attributes is a tag.
pub open spec fn is_tagged(attributes: List<ItemAttribute>, key: Symbol) -> bool {
    exists|i: nat| #[trigger] attributes.at(i) == Some(ItemAttribute::Tag(key))
}

proof fn earlier_tags_stay<'ast>(s: State<'ast>, later: State<'ast>, key: Symbol, end: usize)
    requires
        end <= s.tagged_items.len() <= later.tagged_items.len(),
        forall|i: int|
            0 <= i < s.tagged_items.len() ==> #[trigger] later.tagged_items[i]
                == s.tagged_items[i],
    ensures
        later.tagged_item(key, end) == s.tagged_item(key, end),
    decreases end,
{
    if end > 0 {
        earlier_tags_stay(s, later, key, (end - 1) as usize);
    }
}

/// A definition is found by each tag that it carries; other tags keep meaning
/// what they meant.
pub proof fn law_tagged_definition<'ast>(
    s: State<'ast>,
    id: DefId,
    attributes: List<ItemAttribute>,
    key: Symbol,
)
    requires
        s.tagged_items.len() + attributes.count() <= usize::MAX,
    ensures
        ({
            let t = s.register_tagged_items(id, &attributes);
            &&& t == State { tagged_items: t.tagged_items, ..s }
            &&& t.tagged_items.len() <= s.tagged_items.len() + attributes.count()
            &&& is_tagged(attributes, key) ==> t.tagged_item(key, t.tagged_items.len() as usize)
                == Some(id)
            &&& !is_tagged(attributes, key) ==> t.tagged_item(key, t.tagged_items.len() as usize)
                == s.tagged_item(key, s.tagged_items.len() as usize)
        }),
    decreases attributes,
{
    reveal(State::add_tagged_item);
    match attributes {
        List::Nil => {},
        List::Cons(head, rest) => {
            let between = match *head {
                ItemAttribute::Tag(tag) => s.add_tagged_item(
                    crate::state::TaggedItem { key: tag, id },
                ),
                _ => s,
            };
            law_tagged_definition(between, id, *rest, key);
            assert(attributes.at(0) == Some(*head));
            assert forall|i: nat| i > 0 implies #[trigger] attributes.at(i) == rest.at(
                (i - 1) as nat,
            ) by {}
            if is_tagged(*rest, key) {
                let i = choose|i: nat| #[trigger] rest.at(i) == Some(ItemAttribute::Tag(key));
                assert(attributes.at(i + 1) == rest.at(i));
            }
            earlier_tags_stay(s, between, key, s.tagged_items.len() as usize);
            assert(is_tagged(attributes, key) <==> *head == ItemAttribute::Tag(key) || is_tagged(
                *rest,
                key,
            ));
        },
    }
}

proof fn tags_alone<'ast>(s: State<'ast>, id: DefId, attributes: List<ItemAttribute>)
    ensures
        ({
            let t = s.register_tagged_items(id, &attributes);
            t == State { tagged_items: t.tagged_items, ..s }
        }),
    decreases attributes,
{
    reveal(State::add_tagged_item);
    match attributes {
        List::Nil => {},
        List::Cons(head, rest) => {
            let between = match *head {
                ItemAttribute::Tag(tag) => s.add_tagged_item(
                    crate::state::TaggedItem { key: tag, id },
                ),
                _ => s,
            };
            tags_alone(between, id, *rest);
        },
    }
}

proof fn claimed_elsewhere<'ast>(
    s: State<'ast>,
    namespace: Option<usize>,
    space: SymbolNamespace,
    other: SymbolNamespace,
    name: Symbol,
    id: DefId,
    at: SourceSpan,
)
    requires
        space != other,
    ensures
        s.claimed(namespace, space, name, id, at).0.direct_symbol(namespace, other, name)
            == s.direct_symbol(namespace, other, name),
{
    reveal(State::report);
    laws::law_other_names_stay(
        s,
        namespace,
        space,
        name,
        SymbolKind::Pending(id),
        namespace,
        other,
        name,
    );
}

// ---------------------------------------------------------------- definitions

/// Whether a definition is found by its identifier and stands last among the
/// definitions of its file and namespace.
pub open spec fn is_defined<'ast>(
    s: State<'ast>,
    later: State<'ast>,
    id: DefId,
    index: ItemIndex,
    file_id: FileId,
    namespace: Option<usize>,
    node: AstNodeRef<'ast>,
) -> bool {
    &&& later.item(id) == Some(index)
    &&& later.nodes.len() == s.nodes.len() + 1
    &&& later.nodes.last().def_id == id
    &&& later.nodes.last().file_id == file_id
    &&& later.nodes.last().namespace == namespace
    &&& later.nodes.last().node == node
}

/// A function is entered with its name, which it takes as the name of a value
/// where that is free; otherwise it is reported. The entries before it stay.
pub proof fn law_scanned_function<'ast>(
    s: State<'ast>,
    file_id: FileId,
    namespace: Option<usize>,
    item: &'ast Item,
    id: DefId,
    pub_span: Option<TextSpan>,
    attributes: List<Attribute>,
    signature: ast::FunctionSignature,
)
    ensures
        ({
            let t = s.scan_function(file_id, namespace, item, id, pub_span, &attributes, &signature);
            &&& takes_name(s, t, namespace, SymbolNamespace::Value, signature.name.inner, id)
            &&& s.direct_symbol(namespace, SymbolNamespace::Value, signature.name.inner) is None
                ==> t.diagnostics == s.diagnostics
            &&& t.functions.len() == s.functions.len() + 1
            &&& t.functions.last().id == id
            &&& t.functions.last().name == signature.name
            &&& t.functions.last().file_id == file_id
            &&& t.functions.last().namespace == namespace
            &&& t.functions.last().pub_span == pub_span
            &&& t.functions.last().type_params == named_params(&signature.type_params)
            &&& forall|i: int|
                0 <= i < s.functions.len() ==> #[trigger] t.functions[i] == s.functions[i]
            &&& is_defined(
                s,
                t,
                id,
                ItemIndex::Function(s.functions.len() as usize),
                file_id,
                namespace,
                AstNodeRef::Function { item },
            )
        }),
{
    reveal(State::scan_function);
    reveal(State::add_function);
    reveal(State::add_node);
    let at = SourceSpan::new(file_id, signature.name.span);
    claiming(s, namespace, SymbolNamespace::Value, signature.name.inner, id, at);
    let s1 = s.claimed(namespace, SymbolNamespace::Value, signature.name.inner, id, at).0;
    attributes_are_texts(s1, attributes);
    let (s2, known) = s1.resolve_attributes(&attributes);
    tags_alone(s2, id, known);
    assert forall|state: State<'ast>, index: ItemIndex| (#[trigger] state.with_item(id, index)).item(
        id,
    ) == Some(index) by {
        laws::law_item_reads_back(state, id, index);
    }
    reveal(State::with_item);
}

/// A global variable is entered with its name, which it takes as the name of a value
/// where that is free; otherwise it is reported. The entries before it stay.
pub proof fn law_scanned_global<'ast>(
    s: State<'ast>,
    file_id: FileId,
    namespace: Option<usize>,
    item: &'ast Item,
    id: DefId,
    pub_span: Option<TextSpan>,
    mut_span: Option<TextSpan>,
    name: Spanned<Symbol>,
)
    ensures
        ({
            let t = s.scan_global(file_id, namespace, item, id, pub_span, mut_span, name);
            &&& takes_name(s, t, namespace, SymbolNamespace::Value, name.inner, id)
            &&& s.direct_symbol(namespace, SymbolNamespace::Value, name.inner) is None
                ==> t.diagnostics == s.diagnostics
            &&& t.globals.len() == s.globals.len() + 1
            &&& t.globals.last().id == id
            &&& t.globals.last().name == name
            &&& t.globals.last().file_id == file_id
            &&& t.globals.last().namespace == namespace
            &&& t.globals.last().pub_span == pub_span
            &&& t.globals.last().mut_span == mut_span
            &&& forall|i: int|
                0 <= i < s.globals.len() ==> #[trigger] t.globals[i] == s.globals[i]
            &&& is_defined(
                s,
                t,
                id,
                ItemIndex::Global(s.globals.len() as usize),
                file_id,
                namespace,
                AstNodeRef::Global { item },
            )
        }),
{
    reveal(State::scan_global);
    reveal(State::add_global);
    reveal(State::add_node);
    let at = SourceSpan::new(file_id, name.span);
    claiming(s, namespace, SymbolNamespace::Value, name.inner, id, at);
    let s1 = s.claimed(namespace, SymbolNamespace::Value, name.inner, id, at).0;
    assert forall|state: State<'ast>, index: ItemIndex| (#[trigger] state.with_item(id, index)).item(
        id,
    ) == Some(index) by {
        laws::law_item_reads_back(state, id, index);
    }
    reveal(State::with_item);
}

/// A struct is entered with its name, which it takes as the name of a type
/// where that is free; otherwise it is reported. The entries before it stay.
pub proof fn law_scanned_struct<'ast>(
    s: State<'ast>,
    file_id: FileId,
    namespace: Option<usize>,
    item: &'ast Item,
    id: DefId,
    pub_span: Option<TextSpan>,
    attributes: List<Attribute>,
    name: Spanned<Symbol>,
    type_params: List<TypeParam>,
)
    ensures
        ({
            let t = s.scan_struct(file_id, namespace, item, id, pub_span, &attributes, name, &type_params);
            &&& takes_name(s, t, namespace, SymbolNamespace::Type, name.inner, id)
            &&& s.direct_symbol(namespace, SymbolNamespace::Type, name.inner) is None
                ==> t.diagnostics == s.diagnostics
            &&& t.structs.len() == s.structs.len() + 1
            &&& t.structs.last().id == id
            &&& t.structs.last().name == name
            &&& t.structs.last().file_id == file_id
            &&& t.structs.last().namespace == namespace
            &&& t.structs.last().pub_span == pub_span
            &&& t.structs.last().type_params == named_params(&type_params)
            &&& forall|i: int|
                0 <= i < s.structs.len() ==> #[trigger] t.structs[i] == s.structs[i]
            &&& is_defined(
                s,
                t,
                id,
                ItemIndex::Struct(s.structs.len() as usize),
                file_id,
                namespace,
                AstNodeRef::Struct { item },
            )
        }),
{
    reveal(State::scan_struct);
    reveal(State::add_struct_item);
    reveal(State::add_node);
    reveal(State::intern);
    let at = SourceSpan::new(file_id, name.span);
    claiming(s, namespace, SymbolNamespace::Type, name.inner, id, at);
    let s1 = s.claimed(namespace, SymbolNamespace::Type, name.inner, id, at).0;
    let s2 = s1.intern(
        crate::types::Type::Struct { struct_index: s1.structs.len() as usize, args: List::Nil },
    ).0;
    attributes_are_texts(s2, attributes);
    assert forall|state: State<'ast>, index: ItemIndex| (#[trigger] state.with_item(id, index)).item(
        id,
    ) == Some(index) by {
        laws::law_item_reads_back(state, id, index);
    }
    reveal(State::with_item);
}

/// An enum is entered with its name, which it takes as the name of a type
/// where that is free; otherwise it is reported. The entries before it stay.
pub proof fn law_scanned_enum<'ast>(
    s: State<'ast>,
    file_id: FileId,
    namespace: Option<usize>,
    item: &'ast Item,
    id: DefId,
    pub_span: Option<TextSpan>,
    name: Spanned<Symbol>,
)
    ensures
        ({
            let t = s.scan_enum(file_id, namespace, item, id, pub_span, name);
            &&& takes_name(s, t, namespace, SymbolNamespace::Type, name.inner, id)
            &&& s.direct_symbol(namespace, SymbolNamespace::Type, name.inner) is None
                ==> t.diagnostics == s.diagnostics
            &&& t.enums.len() == s.enums.len() + 1
            &&& t.enums.last().id == id
            &&& t.enums.last().name == name
            &&& t.enums.last().file_id == file_id
            &&& t.enums.last().namespace == namespace
            &&& t.enums.last().pub_span == pub_span
            &&& forall|i: int|
                0 <= i < s.enums.len() ==> #[trigger] t.enums[i] == s.enums[i]
            &&& is_defined(
                s,
                t,
                id,
                ItemIndex::Enum(s.enums.len() as usize),
                file_id,
                namespace,
                AstNodeRef::Enum { item },
            )
        }),
{
    reveal(State::scan_enum);
    reveal(State::add_enum_item);
    reveal(State::add_node);
    reveal(State::intern);
    let at = SourceSpan::new(file_id, name.span);
    claiming(s, namespace, SymbolNamespace::Type, name.inner, id, at);
    let s1 = s.claimed(namespace, SymbolNamespace::Type, name.inner, id, at).0;
    assert forall|state: State<'ast>, index: ItemIndex| (#[trigger] state.with_item(id, index)).item(
        id,
    ) == Some(index) by {
        laws::law_item_reads_back(state, id, index);
    }
    reveal(State::with_item);
}

/// A type alias is entered with its name, which it takes as the name of a type
/// where that is free; otherwise it is reported. The entries before it stay.
pub proof fn law_scanned_type_alias<'ast>(
    s: State<'ast>,
    file_id: FileId,
    namespace: Option<usize>,
    item: &'ast Item,
    id: DefId,
    pub_span: Option<TextSpan>,
    name: Spanned<Symbol>,
    type_params: List<TypeParam>,
)
    ensures
        ({
            let t = s.scan_type_alias(file_id, namespace, item, id, pub_span, name, &type_params);
            &&& takes_name(s, t, namespace, SymbolNamespace::Type, name.inner, id)
            &&& s.direct_symbol(namespace, SymbolNamespace::Type, name.inner) is None
                ==> t.diagnostics == s.diagnostics
            &&& t.type_aliases.len() == s.type_aliases.len() + 1
            &&& t.type_aliases.last().id == id
            &&& t.type_aliases.last().name == name
            &&& t.type_aliases.last().file_id == file_id
            &&& t.type_aliases.last().namespace == namespace
            &&& t.type_aliases.last().pub_span == pub_span
            &&& t.type_aliases.last().type_params == named_params(&type_params)
            &&& forall|i: int|
                0 <= i < s.type_aliases.len() ==> #[trigger] t.type_aliases[i] == s.type_aliases[i]
            &&& is_defined(
                s,
                t,
                id,
                ItemIndex::TypeAlias(s.type_aliases.len() as usize),
                file_id,
                namespace,
                AstNodeRef::TypeAlias { item },
            )
        }),
{
    reveal(State::scan_type_alias);
    reveal(State::add_type_alias);
    reveal(State::add_node);
    let at = SourceSpan::new(file_id, name.span);
    claiming(s, namespace, SymbolNamespace::Type, name.inner, id, at);
    let s1 = s.claimed(namespace, SymbolNamespace::Type, name.inner, id, at).0;
    assert forall|state: State<'ast>, index: ItemIndex| (#[trigger] state.with_item(id, index)).item(
        id,
    ) == Some(index) by {
        laws::law_item_reads_back(state, id, index);
    }
    reveal(State::with_item);
}

/// A memory is entered with its name, which it takes as the name of a type and of a value
/// where that is free; otherwise it is reported. The entries before it stay.
pub proof fn law_scanned_memory<'ast>(
    s: State<'ast>,
    file_id: FileId,
    namespace: Option<usize>,
    item: &'ast Item,
    id: DefId,
    name: Spanned<Symbol>,
)
    ensures
        ({
            let t = s.scan_memory(file_id, namespace, item, id, name);
            &&& takes_name(s, t, namespace, SymbolNamespace::Type, name.inner, id)
            &&& takes_name(s, t, namespace, SymbolNamespace::Value, name.inner, id)
            &&& s.direct_symbol(namespace, SymbolNamespace::Type, name.inner) is None && s.direct_symbol(namespace, SymbolNamespace::Value, name.inner) is None
                ==> t.diagnostics == s.diagnostics
            &&& t.memories.len() == s.memories.len() + 1
            &&& t.memories.last().id == id
            &&& t.memories.last().name == name
            &&& t.memories.last().file_id == file_id
            &&& forall|i: int|
                0 <= i < s.memories.len() ==> #[trigger] t.memories[i] == s.memories[i]
            &&& is_defined(
                s,
                t,
                id,
                ItemIndex::Memory(s.memories.len() as usize),
                file_id,
                namespace,
                AstNodeRef::Memory { item },
            )
        }),
{
    reveal(State::scan_memory);
    reveal(State::add_memory);
    reveal(State::add_node);
    let at = SourceSpan::new(file_id, name.span);
    claiming(s, namespace, SymbolNamespace::Type, name.inner, id, at);
    let s1 = s.claimed(namespace, SymbolNamespace::Type, name.inner, id, at).0;
    claiming(s1, namespace, SymbolNamespace::Value, name.inner, id, at);
    claimed_elsewhere(s, namespace, SymbolNamespace::Type, SymbolNamespace::Value, name.inner, id, at);
    claimed_elsewhere(s1, namespace, SymbolNamespace::Value, SymbolNamespace::Type, name.inner, id, at);
    assert forall|state: State<'ast>, index: ItemIndex| (#[trigger] state.with_item(id, index)).item(
        id,
    ) == Some(index) by {
        laws::law_item_reads_back(state, id, index);
    }
    reveal(State::with_item);
}

/// A constant is entered with its name, which it takes as the name of a value
/// where that is free; otherwise it is reported. The entries before it stay.
pub proof fn law_scanned_constant<'ast>(
    s: State<'ast>,
    file_id: FileId,
    namespace: Option<usize>,
    item: &'ast Item,
    id: DefId,
    pub_span: Option<TextSpan>,
    name: Spanned<Symbol>,
)
    ensures
        ({
            let t = s.scan_constant(file_id, namespace, item, id, pub_span, name);
            &&& takes_name(s, t, namespace, SymbolNamespace::Value, name.inner, id)
            &&& s.direct_symbol(namespace, SymbolNamespace::Value, name.inner) is None
                ==> t.diagnostics == s.diagnostics
            &&& t.constants.len() == s.constants.len() + 1
            &&& t.constants.last().id == id
            &&& t.constants.last().name == name
            &&& t.constants.last().file_id == file_id
            &&& t.constants.last().namespace == namespace
            &&& t.constants.last().pub_span == pub_span
            &&& forall|i: int|
                0 <= i < s.constants.len() ==> #[trigger] t.constants[i] == s.constants[i]
            &&& is_defined(
                s,
                t,
                id,
                ItemIndex::Const(s.constants.len() as usize),
                file_id,
                namespace,
                AstNodeRef::Constant { item },
            )
        }),
{
    reveal(State::scan_constant);
    reveal(State::add_constant);
    reveal(State::add_node);
    let at = SourceSpan::new(file_id, name.span);
    claiming(s, namespace, SymbolNamespace::Value, name.inner, id, at);
    let s1 = s.claimed(namespace, SymbolNamespace::Value, name.inner, id, at).0;
    assert forall|state: State<'ast>, index: ItemIndex| (#[trigger] state.with_item(id, index)).item(
        id,
    ) == Some(index) by {
        laws::law_item_reads_back(state, id, index);
    }
    reveal(State::with_item);
}

/// A typeset is entered with its name, which stands for it from then on.
pub proof fn law_scanned_typeset<'ast>(
    s: State<'ast>,
    file_id: FileId,
    namespace: Option<usize>,
    item: &'ast Item,
    id: DefId,
    pub_span: Option<TextSpan>,
    attributes: List<Attribute>,
    name: Spanned<Symbol>,
)
    ensures
        ({
            let t = s.scan_typeset(file_id, namespace, item, id, pub_span, &attributes, name);
            let typeset_index = s.typesets.len() as usize;
            &&& t.direct_symbol(namespace, SymbolNamespace::Type, name.inner) == Some(
                SymbolKind::TypeSet { typeset_index },
            )
            &&& t.diagnostics == s.diagnostics
            &&& t.typesets.len() == s.typesets.len() + 1
            &&& t.typesets.last().id == id
            &&& t.typesets.last().name == name
            &&& t.typesets.last().members is Nil
            &&& is_defined(
                s,
                t,
                id,
                ItemIndex::TypeSet(typeset_index),
                file_id,
                namespace,
                AstNodeRef::TypeSet { typeset_index, item },
            )
        }),
{
    reveal(State::scan_typeset);
    reveal(State::add_typeset);
    reveal(State::add_node);
    attributes_are_texts(s, attributes);
    let (s1, known) = s.resolve_attributes(&attributes);
    tags_alone(s1, id, known);
    assert forall|state: State<'ast>, index: ItemIndex| (#[trigger] state.with_item(id, index)).item(
        id,
    ) == Some(index) by {
        laws::law_item_reads_back(state, id, index);
    }
    assert forall|state: State<'ast>, kind: SymbolKind| (#[trigger] state.with_symbol(
        namespace,
        SymbolNamespace::Type,
        name.inner,
        kind,
    )).direct_symbol(namespace, SymbolNamespace::Type, name.inner) == Some(kind) by {
        laws::law_name_reads_back(state, namespace, SymbolNamespace::Type, name.inner, kind);
    }
    reveal(State::with_item);
    reveal(State::with_symbol);
}

proof fn trait_items_enter_names<'ast>(
    s: State<'ast>,
    file_id: FileId,
    namespace: Option<usize>,
    trait_index: usize,
    items: &'ast List<TraitItem>,
)
    ensures
        ({
            let t = s.scan_trait_items(file_id, namespace, trait_index, items).0;
            t == State { symbols: t.symbols, nodes: t.nodes, ..s }
        }),
    decreases items,
{
    reveal(State::scan_trait_item);
    reveal(State::with_symbol);
    reveal(State::add_node);
    match items {
        List::Nil => {},
        List::Cons(item, rest) => {
            let (s1, _) = s.scan_trait_item(file_id, namespace, trait_index, item);
            trait_items_enter_names(s1, file_id, namespace, trait_index, rest);
        },
    }
}

/// A trait is entered with its name, which stands for it from then on; a name
/// with another meaning is reported. `Self` implements the trait.
pub proof fn law_scanned_trait<'ast>(
    s: State<'ast>,
    file_id: FileId,
    namespace: Option<usize>,
    item: &'ast Item,
    id: DefId,
    name: Spanned<Symbol>,
    items: &'ast List<TraitItem>,
)
    ensures
        ({
            let t = s.scan_trait(file_id, namespace, item, id, name, items);
            let trait_index = s.traits.len() as usize;
            &&& t.direct_symbol(namespace, SymbolNamespace::Type, name.inner) == Some(
                SymbolKind::Trait { trait_index },
            )
            &&& match s.direct_symbol(namespace, SymbolNamespace::Type, name.inner) {
                Some(SymbolKind::Pending(_)) => t.diagnostics == s.diagnostics,
                Some(_) => more_is_reported(s, t),
                None => t.diagnostics == s.diagnostics,
            }
            &&& t.traits.len() == s.traits.len() + 1
            &&& t.traits.last().id == id
            &&& t.traits.last().name == name
            &&& names_trait(t.traits.last().self_type_param.bounds.traits, trait_index)
            &&& t.traits.last().self_type_param.name.inner == s.names.self_type
            &&& forall|i: int|
                0 <= i < s.traits.len() ==> #[trigger] t.traits[i] == s.traits[i]
            &&& t.item(id) == Some(ItemIndex::Trait(trait_index))
            &&& t.nodes.last().def_id == id
            &&& t.nodes.last().node == (AstNodeRef::Trait { trait_index, item })
        }),
{
    reveal(State::scan_trait);
    reveal(State::add_trait_item);
    reveal(State::add_node);
    reveal(State::report);
    assert forall|state: State<'ast>|
        ({
            let t = (#[trigger] state.scan_trait_items(
                file_id,
                namespace,
                s.traits.len() as usize,
                items,
            )).0;
            t == State { symbols: t.symbols, nodes: t.nodes, ..state }
        }) by {
        trait_items_enter_names(state, file_id, namespace, s.traits.len() as usize, items);
    }
    assert forall|state: State<'ast>, index: ItemIndex| (#[trigger] state.with_item(id, index)).item(
        id,
    ) == Some(index) by {
        laws::law_item_reads_back(state, id, index);
    }
    assert forall|state: State<'ast>, kind: SymbolKind| (#[trigger] state.with_symbol(
        namespace,
        SymbolNamespace::Type,
        name.inner,
        kind,
    )).direct_symbol(namespace, SymbolNamespace::Type, name.inner) == Some(kind) by {
        laws::law_name_reads_back(state, namespace, SymbolNamespace::Type, name.inner, kind);
    }
    reveal(State::with_item);
    reveal(State::with_symbol);
    let t = s.scan_trait(file_id, namespace, item, id, name, items);
    let bounds = t.traits.last().self_type_param.bounds.traits;
    assert(bounds.at(0) matches Some(bound) && bound.trait_index == s.traits.len() as usize);
}

// ---------------------------------------------------------------- members

/// A member of a trait is entered under its identifier; the name of an
/// associated type stands for it.
pub proof fn law_scanned_member_of_a_trait<'ast>(
    s: State<'ast>,
    file_id: FileId,
    namespace: Option<usize>,
    trait_index: usize,
    item: &'ast TraitItem,
)
    ensures
        ({
            let (t, entered) = s.scan_trait_item(file_id, namespace, trait_index, item);
            &&& t.nodes.len() == s.nodes.len() + 1
            &&& t.nodes.last().def_id == entered
            &&& t.nodes.last().file_id == file_id
            &&& t.nodes.last().namespace == namespace
            &&& match *item {
                TraitItem::Function { id, .. } => entered == id && t.nodes.last().node == (
                AstNodeRef::TraitFunction { trait_index, item }),
                TraitItem::Const { id, .. } => entered == id && t.nodes.last().node == (
                AstNodeRef::TraitConst { trait_index, item }),
                TraitItem::AssociatedType { id, name, .. } => entered == id
                    && t.nodes.last().node == (AstNodeRef::TraitAssocType { trait_index, item })
                    && t.direct_symbol(namespace, SymbolNamespace::Type, name.inner) == Some(
                    SymbolKind::Pending(id),
                ),
            }
        }),
{
    reveal(State::scan_trait_item);
    reveal(State::add_node);
    match *item {
        TraitItem::AssociatedType { id, name, .. } => {
            laws::law_name_reads_back(
                s,
                namespace,
                SymbolNamespace::Type,
                name.inner,
                SymbolKind::Pending(id),
            );
            reveal(State::with_symbol);
        },
        _ => {},
    }
}

/// A function of an inherent impl is entered under its identifier, and so is a
/// constant of one without type parameters. A constant of a generic one is
/// reported, and so is an associated type of one without type parameters.
pub proof fn law_scanned_member_of_an_impl<'ast>(
    s: State<'ast>,
    file_id: FileId,
    namespace: Option<usize>,
    block_id: DefId,
    block_index: usize,
    is_generic: bool,
    item: &'ast ImplItem,
)
    ensures
        ({
            let t = s.scan_inherent_item(
                file_id,
                namespace,
                block_id,
                block_index,
                is_generic,
                item,
            );
            let entered = t.nodes.len() == s.nodes.len() + 1 && t.nodes.last().file_id == file_id
                && t.nodes.last().namespace == namespace && t.diagnostics == s.diagnostics;
            match *item {
                ImplItem::Function { id, .. } => entered && t.nodes.last().def_id == id
                    && t.nodes.last().node == (AstNodeRef::InherentImplFunction {
                    block_id,
                    item,
                    block_index,
                }),
                ImplItem::Constant { id, .. } => if is_generic {
                    t.nodes == s.nodes && more_is_reported(s, t)
                } else {
                    entered && t.nodes.last().def_id == id && t.nodes.last().node == (
                    AstNodeRef::InherentImplConst { block_id, item, block_index })
                },
                ImplItem::AssociatedType { .. } => if is_generic {
                    t == s
                } else {
                    t.nodes == s.nodes && more_is_reported(s, t)
                },
            }
        }),
{
    reveal(State::scan_inherent_item);
    reveal(State::add_node);
    reveal(State::report);
}

/// A member of a trait impl is entered under its identifier.
pub proof fn law_scanned_member_of_a_trait_impl<'ast>(
    s: State<'ast>,
    file_id: FileId,
    namespace: Option<usize>,
    parent_id: DefId,
    item: &'ast ImplItem,
)
    ensures
        ({
            let t = s.scan_trait_impl_item(file_id, namespace, parent_id, item);
            &&& t == State { nodes: t.nodes, ..s }
            &&& t.nodes.len() == s.nodes.len() + 1
            &&& t.nodes.last().file_id == file_id
            &&& t.nodes.last().namespace == namespace
            &&& match *item {
                ImplItem::Function { id, .. } => t.nodes.last().def_id == id
                    && t.nodes.last().node == (AstNodeRef::TraitImplFunction { parent_id, item }),
                ImplItem::Constant { id, .. } => t.nodes.last().def_id == id
                    && t.nodes.last().node == (AstNodeRef::TraitImplConstant { parent_id, item }),
                ImplItem::AssociatedType { id, .. } => t.nodes.last().def_id == id
                    && t.nodes.last().node == (AstNodeRef::TraitImplAssocType {
                    parent_id,
                    item,
                }),
            }
        }),
{
    reveal(State::scan_trait_impl_item);
    reveal(State::add_node);
}

// ---------------------------------------------------------------- uses

/// A path of modules leads from module to module; it leads nowhere where a
/// step is no module.
pub proof fn law_path_of_modules<'ast>(
    s: State<'ast>,
    file_id: FileId,
    current: Option<usize>,
    segment: Spanned<Symbol>,
    rest: List<Spanned<Symbol>>,
)
    ensures
        s.resolve_use_path(file_id, current, &List::Nil) == (s, current),
        ({
            let (t, found) = s.resolve_use_path(
                file_id,
                current,
                &crate::list::cons(segment, rest),
            );
            match s.direct_symbol(current, SymbolNamespace::Type, segment.inner) {
                Some(SymbolKind::Module { namespace_idx }) => {
                    let s1 = s.access(
                        crate::tir::AccessTarget::Namespace(namespace_idx),
                        SourceSpan::new(file_id, segment.span),
                    );
                    &&& s1.is_accessed(crate::tir::AccessTarget::Namespace(namespace_idx))
                    &&& found == s1.resolve_use_path(file_id, Some(namespace_idx), &rest).1
                },
                _ => found is None && t == s,
            }
        }),
{
    reveal_with_fuel(State::resolve_use_path, 2);
    match s.direct_symbol(current, SymbolNamespace::Type, segment.inner) {
        Some(SymbolKind::Module { namespace_idx }) => {
            laws::law_use_is_recorded(
                s,
                crate::tir::AccessTarget::Namespace(namespace_idx),
                SourceSpan::new(file_id, segment.span),
                crate::tir::AccessTarget::Namespace(namespace_idx),
            );
        },
        _ => {},
    }
}

/// A wildcard import adds the namespace that its path leads to, after those
/// that are there; one that leads nowhere adds none.
pub proof fn law_wildcard_import<'ast>(
    s: State<'ast>,
    file_id: FileId,
    namespace: Option<usize>,
    path: List<Spanned<Symbol>>,
)
    ensures
        ({
            let (s1, source) = s.resolve_use_path(file_id, None, &path);
            let t = s.scan_use(file_id, namespace, &path);
            match source {
                Some(imported) => match namespace {
                    Some(index) => index < s1.namespaces.len() ==> t.namespaces.len()
                        == s1.namespaces.len() && t.namespaces[index as int].wildcard_imports
                        == s1.namespaces[index as int].wildcard_imports.snoc(imported)
                        && t.root_wildcard_imports == s1.root_wildcard_imports,
                    None => t.root_wildcard_imports.len() == s1.root_wildcard_imports.len() + 1
                        && t.root_wildcard_imports.last() == imported && t.namespaces
                        == s1.namespaces,
                },
                None => t == s1,
            }
        }),
{
    reveal(State::scan_use);
    reveal(State::set_namespace_wildcard_imports);
    reveal(State::add_root_wildcard_import);
}

} // verus!
