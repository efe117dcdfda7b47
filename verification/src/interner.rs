//! Interned names: a text stands for the symbol it got when it was first
//! interned.

use vstd::prelude::*;

use crate::literal::chars_of;
use crate::span::Symbol;

verus! {

/// The names of a program, held in `string_interner::StringInterner` with its
/// default backend and 32-bit symbols.
#[verifier::external_body]
pub struct Interner {
    strings: string_interner::DefaultStringInterner,
}

/// The texts that an interner holds, each at the position that is its symbol.
pub uninterp spec fn interned(interner: Interner) -> Seq<Seq<char>>;

impl View for Interner {
    type V = Seq<Seq<char>>;

    open spec fn view(&self) -> Seq<Seq<char>> {
        interned(*self)
    }
}

/// `StringInterner::new`: holds no text.
#[verifier::external_body]
fn empty_interner() -> (result: Interner)
    ensures
        interned(result) == Seq::<Seq<char>>::empty(),
{
    Interner { strings: string_interner::DefaultStringInterner::new() }
}

/// `StringInterner::get`: the symbol of a text, which is held at most once;
/// nothing where the text is not held.
#[verifier::external_body]
fn find_symbol(interner: &Interner, text: &str) -> (result: Option<Symbol>)
    ensures
        match result {
            Some(symbol) => {
                &&& symbol < interned(*interner).len()
                &&& interned(*interner)[symbol as int] == text@
                &&& forall|i: int|
                    0 <= i < interned(*interner).len() && interned(*interner)[i] == text@ ==> i
                        == symbol
            },
            None => !interned(*interner).contains(text@),
        },
{
    interner.strings.get(text).map(|symbol| string_interner::Symbol::to_usize(symbol) as u32)
}

/// `StringInterner::get_or_intern`: the symbol of a text that is held;
/// otherwise the text is added at the end. It panics when the symbols run
/// out, at 2^32 - 1 texts.
#[verifier::external_body]
fn add_text(interner: &mut Interner, text: &str) -> (result: Symbol)
    requires
        interned(*old(interner)).len() < u32::MAX,
    ensures
        interned(*old(interner)).contains(text@) ==> {
            &&& interned(*final(interner)) == interned(*old(interner))
            &&& result < interned(*final(interner)).len()
            &&& interned(*final(interner))[result as int] == text@
        },
        !interned(*old(interner)).contains(text@) ==> {
            &&& interned(*final(interner)) == interned(*old(interner)).push(text@)
            &&& result == interned(*old(interner)).len()
        },
{
    string_interner::Symbol::to_usize(interner.strings.get_or_intern(text)) as u32
}

/// `StringInterner::len`: the number of texts.
#[verifier::external_body]
fn text_count(interner: &Interner) -> (result: usize)
    ensures
        result == interned(*interner).len(),
{
    interner.strings.len()
}

/// `StringInterner::resolve`: the text at the position that is the symbol.
#[verifier::external_body]
fn text_of(interner: &Interner, symbol: Symbol) -> (result: Option<&str>)
    ensures
        match result {
            Some(text) => symbol < interned(*interner).len() && text@ == interned(
                *interner,
            )[symbol as int],
            None => symbol >= interned(*interner).len(),
        },
{
    let symbol: string_interner::DefaultSymbol =
        string_interner::Symbol::try_from_usize(symbol as usize)?;
    interner.strings.resolve(symbol)
}

/// Whether `symbol` is the name `text` in the given texts.
pub open spec fn is_name(texts: Seq<Seq<char>>, symbol: Symbol, text: Seq<char>) -> bool {
    symbol < texts.len() && texts[symbol as int] == text
}

/// The symbol of a name that is among the given texts.
pub open spec fn symbol_of(texts: Seq<Seq<char>>, text: Seq<char>) -> Symbol {
    choose|symbol: Symbol| is_name(texts, symbol, text)
}

/// The texts with `text` among them, and its symbol: the one it has, or the
/// next one. Where it is new and no symbol is left, the texts stay as they are.
pub open spec fn with_text(texts: Seq<Seq<char>>, text: Seq<char>) -> (
    Seq<Seq<char>>,
    Option<Symbol>,
) {
    if texts.contains(text) {
        (texts, Some(symbol_of(texts, text)))
    } else if texts.len() < u32::MAX {
        (texts.push(text), Some(texts.len() as Symbol))
    } else {
        (texts, None)
    }
}

/// The text of a symbol; the empty text where it has none.
pub open spec fn text_or_empty(texts: Seq<Seq<char>>, symbol: Symbol) -> Seq<char> {
    if symbol < texts.len() {
        texts[symbol as int]
    } else {
        Seq::empty()
    }
}

/// Whether `symbol` is a name that starts with an underscore.
pub open spec fn is_underscored(texts: Seq<Seq<char>>, symbol: Symbol) -> bool {
    symbol < texts.len() && texts[symbol as int].len() > 0 && texts[symbol as int][0] == '_'
}

impl Interner {
    pub fn new() -> (result: Interner)
        ensures
            result@ == Seq::<Seq<char>>::empty(),
    {
        empty_interner()
    }

    /// The number of names.
    pub fn len(&self) -> (result: usize)
        ensures
            result == self@.len(),
    {
        text_count(self)
    }

    pub fn get(&self, text: &str) -> (result: Option<Symbol>)
        ensures
            match result {
                Some(symbol) => is_name(self@, symbol, text@) && forall|other: Symbol|
                    is_name(self@, other, text@) ==> other == symbol,
                None => !self@.contains(text@),
            },
    {
        find_symbol(self, text)
    }

    /// The symbol of `text`, which is interned at the end where it is new.
    pub fn get_or_intern(&mut self, text: &str) -> (result: Symbol)
        requires
            old(self)@.len() < u32::MAX,
        ensures
            is_name(final(self)@, result, text@),
            final(self)@ == if old(self)@.contains(text@) {
                old(self)@
            } else {
                old(self)@.push(text@)
            },
    {
        add_text(self, text)
    }

    pub fn resolve(&self, symbol: Symbol) -> (result: Option<&str>)
        ensures
            match result {
                Some(text) => is_name(self@, symbol, text@),
                None => symbol >= self@.len(),
            },
    {
        text_of(self, symbol)
    }

    /// Whether `symbol` is the name `text`.
    pub fn is_named(&self, symbol: Symbol, text: &str) -> (result: bool)
        ensures
            result == is_name(self@, symbol, text@),
    {
        match self.resolve(symbol) {
            Some(found) => same_text(found, text),
            None => false,
        }
    }

    /// Whether `symbol` is a name that starts with an underscore.
    pub fn starts_with_underscore(&self, symbol: Symbol) -> (result: bool)
        ensures
            result == is_underscored(self@, symbol),
    {
        match self.resolve(symbol) {
            Some(text) => {
                let chars = chars_of(text);
                chars.len() > 0 && chars[0] == '_'
            },
            None => false,
        }
    }

    /// The symbol of `text`, which is interned at the end where it is new;
    /// none where it is new and no symbol is left.
    pub fn intern(&mut self, text: &str) -> (result: Option<Symbol>)
        ensures
            (final(self)@, result) == with_text(old(self)@, text@),
    {
        match self.get(text) {
            Some(symbol) => {
                assert(is_name(self@, symbol_of(self@, text@), text@));
                Some(symbol)
            },
            None => {
                if self.len() < u32::MAX as usize {
                    Some(self.get_or_intern(text))
                } else {
                    None
                }
            },
        }
    }
}

/// Whether two texts are the same.
pub fn same_text(left: &str, right: &str) -> (result: bool)
    ensures
        result == (left@ == right@),
{
    let a = chars_of(left);
    let b = chars_of(right);
    if a.len() != b.len() {
        return false;
    }
    let mut i: usize = 0;
    while i < a.len()
        invariant
            i <= a.len(),
            a.len() == b.len(),
            a@ == left@,
            b@ == right@,
            forall|j: int| 0 <= j < i ==> a@[j] == b@[j],
        decreases a.len() - i,
    {
        if a[i] != b[i] {
            return false;
        }
        i = i + 1;
    }
    assert(a@ =~= b@);
    true
}

} // verus!
