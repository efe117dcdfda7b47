//! The interner, the type pool, the symbol table, and how types relate.

use wx_tir::interner::Interner;
use wx_tir::list::{cons, single, List};
use wx_tir::relate::MAX_DEPTH;
use wx_tir::span::{SourceSpan, Spanned, TextSpan};
use wx_tir::state::{Builder, WellKnown};
use wx_tir::tir::{
    AccessTarget, FunctionParam, IntegerRange, ItemIndex, ModuleDeclarationKind, ModuleNamespace,
    SymbolKind, SymbolNamespace,
};
use wx_tir::ty;
use wx_tir::types::{FunctionSignature, Type, TypeParamOwner, WasmScalar};

fn prepared() -> (Interner, WellKnown) {
    let mut interner = Interner::new();
    let names = interner.well_known();
    (interner, names)
}

fn place(start: u32) -> SourceSpan {
    SourceSpan { file_id: 0, span: TextSpan { start, end: start + 1 } }
}

fn spanned<T>(inner: T) -> Spanned<T> {
    Spanned { inner, span: TextSpan { start: 0, end: 1 } }
}

#[test]
fn interned_text_is_resolved() {
    let mut interner = Interner::new();
    let a = interner.get_or_intern("alpha");
    let b = interner.get_or_intern("beta");
    assert_ne!(a, b);
    assert_eq!(interner.resolve(a), Some("alpha"));
    assert_eq!(interner.resolve(b), Some("beta"));
    assert_eq!(interner.resolve(7), None);
}

#[test]
fn text_is_interned_once() {
    let mut interner = Interner::new();
    let a = interner.get_or_intern("alpha");
    assert_eq!(interner.get_or_intern("alpha"), a);
    assert_eq!(interner.get("alpha"), Some(a));
    assert_eq!(interner.get("gamma"), None);
}

#[test]
fn symbols_are_positions() {
    let mut interner = Interner::new();
    assert_eq!(interner.get_or_intern("zero"), 0);
    assert_eq!(interner.get_or_intern("one"), 1);
    assert_eq!(interner.get_or_intern("zero"), 0);
    assert_eq!(interner.get_or_intern("two"), 2);
}

#[test]
fn string_literal_is_interned_unescaped() {
    let (interner, names) = prepared();
    let mut builder = Builder::new(interner, names, 0);
    let symbol = builder.intern_literal(&"\"a\\nb\"".to_string()).unwrap();
    assert_eq!(builder.interner.resolve(symbol), Some("a\nb"));
    assert_eq!(builder.interner.intern("a\nb"), Some(symbol));
    let quoted = builder.interner.get_or_intern("\"env\"");
    let name = builder.intern_unquoted(quoted);
    assert_eq!(builder.interner.resolve(name), Some("env"));
    assert_eq!(builder.intern_unquoted(name), name);
}

#[test]
fn well_known_names() {
    let (interner, names) = prepared();
    assert_eq!(interner.resolve(names.self_value), Some("self"));
    assert_eq!(interner.resolve(names.self_type), Some("Self"));
    assert_eq!(interner.resolve(names.size), Some("Size"));
    assert_eq!(interner.resolve(names.pointer_size), Some("pointer_size"));
    assert!(interner.is_named(names.self_value, "self"));
    assert!(!interner.is_named(names.self_value, "Self"));
    assert!(!interner.starts_with_underscore(names.self_value));
}

#[test]
fn underscored_names() {
    let mut interner = Interner::new();
    let plain = interner.get_or_intern("a_b");
    let hidden = interner.get_or_intern("_a");
    assert!(!interner.starts_with_underscore(plain));
    assert!(interner.starts_with_underscore(hidden));
    assert!(!interner.starts_with_underscore(99));
}

#[test]
fn built_in_types_have_their_indices() {
    let (interner, names) = prepared();
    let builder = Builder::new(interner, names, 0);
    assert_eq!(builder.types.len(), ty::PRIMITIVE_COUNT);
    assert_eq!(builder.ty(ty::ERROR), Type::Error);
    assert_eq!(builder.ty(ty::INFER), Type::Infer);
    assert_eq!(builder.ty(ty::UNIT), Type::Unit);
    assert_eq!(builder.ty(ty::NEVER), Type::Never);
    assert_eq!(builder.ty(ty::INTEGER), Type::Integer);
    assert_eq!(builder.ty(ty::FLOAT), Type::Float);
    assert_eq!(builder.ty(ty::U8), Type::U8);
    assert_eq!(builder.ty(ty::I64), Type::I64);
    assert_eq!(builder.ty(ty::F64), Type::F64);
    assert_eq!(builder.ty(ty::BOOL), Type::Bool);
    assert_eq!(builder.ty(ty::CHAR), Type::Char);
    assert_eq!(builder.ty(1000), Type::Error);
}

#[test]
fn type_is_interned_once() {
    let (interner, names) = prepared();
    let mut builder = Builder::new(interner, names, 0);
    let pair = builder.intern_type(Type::Tuple { elements: cons(ty::I32, single(ty::BOOL)) });
    assert_eq!(pair, ty::PRIMITIVE_COUNT);
    let other = builder.intern_type(Type::Tuple { elements: cons(ty::BOOL, single(ty::I32)) });
    assert_eq!(other, pair + 1);
    let again = builder.intern_type(Type::Tuple { elements: cons(ty::I32, single(ty::BOOL)) });
    assert_eq!(again, pair);
    assert_eq!(builder.types.len(), ty::PRIMITIVE_COUNT + 2);
    assert_eq!(builder.ty(pair), Type::Tuple { elements: cons(ty::I32, single(ty::BOOL)) });
    assert_eq!(builder.intern_type(Type::I32), ty::I32);
}

#[test]
fn name_has_its_last_meaning() {
    let (interner, names) = prepared();
    let mut builder = Builder::new(interner, names, 0);
    let name = names.size;
    let ty_space = SymbolNamespace::Type;
    assert_eq!(builder.direct_scope_lookup(None, ty_space, name), None);
    builder.insert_symbol(None, ty_space, name, SymbolKind::Pending(4));
    builder.insert_symbol(Some(0), ty_space, name, SymbolKind::Pending(5));
    builder.insert_symbol(None, SymbolNamespace::Value, name, SymbolKind::Pending(6));
    assert_eq!(builder.direct_scope_lookup(None, ty_space, name), Some(SymbolKind::Pending(4)));
    builder.insert_symbol(None, ty_space, name, SymbolKind::Struct { struct_index: 2 });
    assert_eq!(
        builder.direct_scope_lookup(None, ty_space, name),
        Some(SymbolKind::Struct { struct_index: 2 })
    );
    assert_eq!(builder.direct_scope_lookup(Some(0), ty_space, name), Some(SymbolKind::Pending(5)));
    assert_eq!(
        builder.direct_scope_lookup(None, SymbolNamespace::Value, name),
        Some(SymbolKind::Pending(6))
    );
}

#[test]
fn item_is_found_where_it_was_put() {
    let (interner, names) = prepared();
    let mut builder = Builder::new(interner, names, 0);
    assert_eq!(builder.item(3), None);
    builder.insert_item(3, ItemIndex::Function(8));
    assert_eq!(builder.item(3), Some(ItemIndex::Function(8)));
    assert_eq!(builder.function_index(3), Some(8));
    assert_eq!(builder.struct_index(3), None);
    builder.insert_item(3, ItemIndex::Struct(1));
    assert_eq!(builder.item(3), Some(ItemIndex::Struct(1)));
    assert_eq!(builder.items.len(), 1);
}

#[test]
fn use_is_recorded() {
    let (interner, names) = prepared();
    let mut builder = Builder::new(interner, names, 0);
    assert!(!builder.is_accessed(AccessTarget::Function(0)));
    builder.access(AccessTarget::Function(0), place(5));
    assert!(builder.is_accessed(AccessTarget::Function(0)));
    assert!(!builder.is_accessed(AccessTarget::Function(1)));
    assert!(!builder.is_accessed(AccessTarget::Global(0)));
}

#[test]
fn coercions_of_simple_types() {
    let (interner, names) = prepared();
    let mut builder = Builder::new(interner, names, 0);
    assert!(builder.coercible_to(ty::I32, ty::I32));
    assert!(!builder.coercible_to(ty::I32, ty::I64));
    assert!(builder.coercible_to(ty::NEVER, ty::I64));
    assert!(builder.coercible_to(ty::ERROR, ty::I64));
    assert!(builder.coercible_to(ty::I64, ty::ERROR));
    assert!(!builder.coercible_to(ty::I64, ty::NEVER));
}

#[test]
fn pointer_loses_the_right_to_write() {
    let (interner, names) = prepared();
    let mut builder = Builder::new(interner, names, 0);
    let memory = builder.intern_type(Type::Memory { kind: ty::U32, id: 1 });
    let writable = builder.intern_type(Type::Pointer { to: ty::U8, memory, mutable: true });
    let readable = builder.intern_type(Type::Pointer { to: ty::U8, memory, mutable: false });
    let other = builder.intern_type(Type::Pointer { to: ty::I8, memory, mutable: false });
    assert!(builder.coercible_to(writable, readable));
    assert!(!builder.coercible_to(readable, writable));
    assert!(!builder.coercible_to(writable, other));
    let slice = builder.intern_type(Type::Slice { of: ty::U8, memory, mutable: true });
    let fixed = builder.intern_type(Type::Slice { of: ty::U8, memory, mutable: false });
    assert!(builder.coercible_to(slice, fixed));
    assert!(!builder.coercible_to(fixed, slice));
}

#[test]
fn branches_agree() {
    let (interner, names) = prepared();
    let mut builder = Builder::new(interner, names, 0);
    assert_eq!(builder.unify(ty::I32, ty::I32), Some(ty::I32));
    assert_eq!(builder.unify(ty::NEVER, ty::I32), Some(ty::I32));
    assert_eq!(builder.unify(ty::I32, ty::NEVER), Some(ty::I32));
    assert_eq!(builder.unify(ty::I32, ty::ERROR), Some(ty::ERROR));
    assert_eq!(builder.unify(ty::I32, ty::I64), None);
}

#[test]
fn arguments_replace_parameters() {
    let (interner, names) = prepared();
    let mut builder = Builder::new(interner, names, 0);
    let owner = TypeParamOwner::Function(1);
    let first = builder.intern_type(Type::TypeParam { owner, param_index: 0 });
    let second = builder.intern_type(Type::TypeParam { owner, param_index: 1 });
    let pair = builder.intern_type(Type::Tuple { elements: cons(first, single(second)) });
    let args = cons(ty::I32, single(ty::BOOL));
    let result = builder.substitute_type(pair, &args, MAX_DEPTH);
    assert_eq!(builder.ty(result), Type::Tuple { elements: cons(ty::I32, single(ty::BOOL)) });
    assert_eq!(builder.substitute_type(first, &args, MAX_DEPTH), ty::I32);
    assert_eq!(builder.substitute_type(second, &single(ty::I32), MAX_DEPTH), second);
    assert_eq!(builder.substitute_type(first, &single(ty::ERROR), MAX_DEPTH), first);
    assert_eq!(builder.substitute_type(result, &args, MAX_DEPTH), result);
}

#[test]
fn substitution_undoes_a_match() {
    let (interner, names) = prepared();
    let mut builder = Builder::new(interner, names, 0);
    let owner = TypeParamOwner::ImplBlock(0);
    let first = builder.intern_type(Type::TypeParam { owner, param_index: 0 });
    let second = builder.intern_type(Type::TypeParam { owner, param_index: 1 });
    let inner = builder.intern_type(Type::Tuple { elements: cons(second, single(first)) });
    let pattern =
        builder.intern_type(Type::Struct { struct_index: 0, args: cons(first, single(inner)) });
    let part = builder.intern_type(Type::Tuple { elements: cons(ty::BOOL, single(ty::I32)) });
    let actual =
        builder.intern_type(Type::Struct { struct_index: 0, args: cons(ty::I32, single(part)) });
    let other =
        builder.intern_type(Type::Struct { struct_index: 0, args: cons(ty::I64, single(part)) });
    let open = cons(ty::INFER, single(ty::INFER));
    let found = builder.match_type(open, pattern, actual, MAX_DEPTH).unwrap();
    assert_eq!(found, cons(ty::I32, single(ty::BOOL)));
    let types = builder.types.len();
    assert_eq!(builder.substitute_type(pattern, &found, MAX_DEPTH), actual);
    assert_eq!(builder.types.len(), types);
    let open = cons(ty::INFER, single(ty::INFER));
    assert_eq!(builder.match_type(open, pattern, other, MAX_DEPTH), None);
}

#[test]
fn coercion_goes_on_from_type_to_type() {
    let (interner, names) = prepared();
    let mut builder = Builder::new(interner, names, 0);
    let memory = builder.intern_type(Type::Memory { kind: ty::U32, id: 7 });
    let readable = builder.intern_type(Type::Pointer { to: ty::I32, memory, mutable: false });
    let writable = builder.intern_type(Type::Pointer { to: ty::I32, memory, mutable: true });
    assert!(builder.coercible_to(ty::NEVER, writable));
    assert!(builder.coercible_to(writable, readable));
    assert!(builder.coercible_to(ty::NEVER, readable));
}

#[test]
fn inference_fixes_open_parameters() {
    let (interner, names) = prepared();
    let mut builder = Builder::new(interner, names, 0);
    let owner = TypeParamOwner::Function(1);
    let first = builder.intern_type(Type::TypeParam { owner, param_index: 0 });
    let second = builder.intern_type(Type::TypeParam { owner, param_index: 1 });
    let pattern = builder.intern_type(Type::Tuple { elements: cons(first, single(second)) });
    let actual = builder.intern_type(Type::Tuple { elements: cons(ty::I32, single(ty::BOOL)) });
    let open = cons(ty::INFER, single(ty::INFER));
    assert_eq!(
        builder.infer_type_args(open, pattern, actual),
        cons(ty::I32, single(ty::BOOL))
    );
    let fixed = cons(ty::U8, single(ty::INFER));
    assert_eq!(
        builder.infer_type_args(fixed, pattern, actual),
        cons(ty::U8, single(ty::BOOL))
    );
    assert_eq!(
        builder.infer_type_args(single(ty::INFER), first, ty::INTEGER),
        single(ty::INFER)
    );
}

#[test]
fn annotation_with_holes() {
    let (interner, names) = prepared();
    let mut builder = Builder::new(interner, names, 0);
    let hole = builder.intern_type(Type::Tuple { elements: cons(ty::INFER, single(ty::BOOL)) });
    let good = builder.intern_type(Type::Tuple { elements: cons(ty::I32, single(ty::BOOL)) });
    let bad = builder.intern_type(Type::Tuple { elements: cons(ty::I32, single(ty::CHAR)) });
    let short = builder.intern_type(Type::Tuple { elements: single(ty::I32) });
    assert!(builder.contains_infer(hole));
    assert!(!builder.contains_infer(good));
    assert!(builder.type_satisfies_annotation(good, hole));
    assert!(!builder.type_satisfies_annotation(bad, hole));
    assert!(!builder.type_satisfies_annotation(short, hole));
    assert!(builder.type_satisfies_annotation(bad, ty::INFER));
    assert!(builder.contains_comptime_number(ty::INTEGER));
    assert!(!builder.contains_comptime_number(good));
}

#[test]
fn scalars_of_types() {
    let (interner, names) = prepared();
    let mut builder = Builder::new(interner, names, 0);
    assert_eq!(builder.type_scalar(ty::BOOL), Some(WasmScalar::I32));
    assert_eq!(builder.type_scalar(ty::CHAR), Some(WasmScalar::I32));
    assert_eq!(builder.type_scalar(ty::U64), Some(WasmScalar::I64));
    assert_eq!(builder.type_scalar(ty::F32), Some(WasmScalar::F32));
    assert_eq!(builder.type_scalar(ty::F64), Some(WasmScalar::F64));
    assert_eq!(builder.type_scalar(ty::UNIT), None);
    assert!(builder.are_scalar_compatible(ty::U32, ty::CHAR));
    assert!(builder.are_scalar_compatible(ty::CHAR, ty::U32));
    assert!(!builder.are_scalar_compatible(ty::U32, ty::U64));
    assert!(builder.are_scalar_compatible(ty::UNIT, ty::UNIT));
    let function = builder.intern_type(Type::Function {
        signature: FunctionSignature { params: List::Nil, result: ty::UNIT },
    });
    assert_eq!(builder.type_scalar(function), Some(WasmScalar::I32));
}

#[test]
fn function_type_of_parameters() {
    let (interner, names) = prepared();
    let mut builder = Builder::new(interner, names, 0);
    let param = FunctionParam {
        mut_span: None,
        name: spanned(names.size),
        ty: spanned(ty::I32),
    };
    let params = single(param);
    let with_result = builder.intern_function(&params, Some(spanned(ty::BOOL)));
    assert_eq!(
        builder.ty(with_result),
        Type::Function {
            signature: FunctionSignature { params: single(ty::I32), result: ty::BOOL },
        }
    );
    let without = builder.intern_function(&List::Nil, None);
    assert_eq!(
        builder.ty(without),
        Type::Function { signature: FunctionSignature { params: List::Nil, result: ty::UNIT } }
    );
}

#[test]
fn integer_ranges() {
    assert_eq!(
        IntegerRange::for_integer_type(ty::U8),
        Some(IntegerRange { min: 0, max: 255 })
    );
    assert_eq!(
        IntegerRange::for_integer_type(ty::I16),
        Some(IntegerRange { min: -32768, max: 32767 })
    );
    assert_eq!(
        IntegerRange::for_integer_type(ty::U64),
        Some(IntegerRange { min: 0, max: u64::MAX })
    );
    assert_eq!(IntegerRange::for_integer_type(ty::BOOL), None);
    let small = IntegerRange { min: -5, max: 10 };
    let other = IntegerRange { min: 0, max: 20 };
    assert_eq!(small.intersect(other), IntegerRange { min: 0, max: 10 });
    assert_eq!(IntegerRange::widest().intersect(small), small);
    assert!(small.contains(-5));
    assert!(small.contains(10));
    assert!(!small.contains(11));
    assert!(!small.contains(-6));
    assert!(IntegerRange::widest().contains(i64::MIN));
}

#[test]
fn hole_in_a_slice_an_array_or_a_function_fits_any_type() {
    let (interner, names) = prepared();
    let mut builder = Builder::new(interner, names, 0);
    let memory = ty::U32;
    let slice = |of, mutable| Type::Slice { of, memory, mutable };
    let hole = builder.intern_type(slice(ty::INFER, false));
    let bytes = builder.intern_type(slice(ty::U8, false));
    let writable = builder.intern_type(slice(ty::U8, true));
    let asked = builder.intern_type(slice(ty::INFER, true));
    assert!(builder.type_satisfies_annotation(bytes, hole));
    assert!(builder.type_satisfies_annotation(writable, hole));
    assert!(!builder.type_satisfies_annotation(bytes, asked));
    let array = |of, size| Type::Array { of, size, memory, mutable: false };
    let hole = builder.intern_type(array(ty::INFER, 3));
    let three = builder.intern_type(array(ty::I64, 3));
    let four = builder.intern_type(array(ty::I64, 4));
    assert!(builder.type_satisfies_annotation(three, hole));
    assert!(!builder.type_satisfies_annotation(four, hole));
    let function = |param, result| Type::Function {
        signature: FunctionSignature { params: single(param), result },
    };
    let hole = builder.intern_type(function(ty::I32, ty::INFER));
    let good = builder.intern_type(function(ty::I32, ty::BOOL));
    let bad = builder.intern_type(function(ty::I64, ty::BOOL));
    assert!(builder.type_satisfies_annotation(good, hole));
    assert!(!builder.type_satisfies_annotation(bad, hole));
}

#[test]
fn hole_is_found_in_a_function_item_and_in_a_projection() {
    let (interner, names) = prepared();
    let mut builder = Builder::new(interner, names, 0);
    let item = builder.intern_type(Type::FunctionItem { id: 4, type_args: single(ty::INFER) });
    let full = builder.intern_type(Type::FunctionItem { id: 4, type_args: single(ty::I32) });
    let open = builder.intern_type(Type::AssocTypeProjection {
        base: ty::INFER,
        assoc_name: 1,
        trait_index: 0,
    });
    let closed = builder.intern_type(Type::AssocTypeProjection {
        base: ty::I32,
        assoc_name: 1,
        trait_index: 0,
    });
    assert!(builder.contains_infer(item));
    assert!(!builder.contains_infer(full));
    assert!(builder.contains_infer(open));
    assert!(!builder.contains_infer(closed));
}

#[test]
fn poisoned_type_keeps_all_but_its_parameters() {
    let (interner, names) = prepared();
    let mut builder = Builder::new(interner, names, 0);
    let owner = TypeParamOwner::Struct(9);
    let param = builder.intern_type(Type::TypeParam { owner, param_index: 0 });
    let projected = builder.intern_type(Type::AssocTypeProjection {
        base: param,
        assoc_name: 1,
        trait_index: 0,
    });
    let plain = builder.intern_type(Type::Tuple { elements: cons(ty::I32, single(ty::BOOL)) });
    let mixed = builder.intern_type(Type::Tuple {
        elements: cons(param, cons(plain, single(projected))),
    });
    assert_eq!(builder.poison_type(param, MAX_DEPTH), ty::ERROR);
    assert_eq!(builder.poison_type(projected, MAX_DEPTH), ty::ERROR);
    assert_eq!(builder.poison_type(plain, MAX_DEPTH), plain);
    let poisoned = builder.poison_type(mixed, MAX_DEPTH);
    assert_eq!(
        builder.ty(poisoned),
        Type::Tuple { elements: cons(ty::ERROR, cons(plain, single(ty::ERROR))) }
    );
    assert!(builder.diagnostics.is_empty());
}

fn namespace(name: u32, parent: Option<usize>) -> ModuleNamespace {
    ModuleNamespace {
        name,
        parent,
        declaration: ModuleDeclarationKind::Crate(0),
        wildcard_imports: List::Nil,
    }
}

#[test]
fn name_is_looked_for_outwards() {
    let (interner, names) = prepared();
    let mut builder = Builder::new(interner, names, 0);
    let name = names.size;
    let space = SymbolNamespace::Type;
    builder.add_namespace(namespace(name, Some(1)));
    builder.add_namespace(namespace(name, Some(2)));
    builder.add_namespace(namespace(name, None));
    assert_eq!(builder.lookup_global_symbol(Some(0), space, name), None);
    builder.insert_symbol(None, space, name, SymbolKind::Pending(4));
    assert_eq!(builder.lookup_global_symbol(Some(0), space, name), Some(SymbolKind::Pending(4)));
    builder.insert_symbol(Some(2), space, name, SymbolKind::Pending(5));
    assert_eq!(builder.lookup_global_symbol(Some(0), space, name), Some(SymbolKind::Pending(5)));
    builder.insert_symbol(Some(1), space, name, SymbolKind::Pending(6));
    assert_eq!(builder.lookup_global_symbol(Some(0), space, name), Some(SymbolKind::Pending(6)));
    assert_eq!(builder.lookup_global_symbol(Some(2), space, name), Some(SymbolKind::Pending(5)));
    assert_eq!(builder.lookup_global_symbol(None, space, name), Some(SymbolKind::Pending(4)));
}

#[test]
fn namespace_lies_within_each_around_it() {
    let (interner, names) = prepared();
    let mut builder = Builder::new(interner, names, 0);
    builder.add_namespace(namespace(names.size, Some(1)));
    builder.add_namespace(namespace(names.size, Some(2)));
    builder.add_namespace(namespace(names.size, None));
    builder.add_namespace(namespace(names.size, None));
    assert!(builder.is_within(Some(0), Some(0)));
    assert!(builder.is_within(Some(0), Some(1)));
    assert!(builder.is_within(Some(0), Some(2)));
    assert!(builder.is_within(Some(0), None));
    assert!(!builder.is_within(Some(2), Some(0)));
    assert!(!builder.is_within(Some(0), Some(3)));
    assert!(!builder.is_within(None, Some(0)));
}

#[test]
fn part_of_a_type_may_come_after_it() {
    let (interner, names) = prepared();
    let mut builder = Builder::new(interner, names, 0);
    let owner = TypeParamOwner::ImplBlock(0);
    let whole = builder.types.len();
    let param = whole + 1;
    builder.types.push(Type::Tuple { elements: single(param) });
    builder.types.push(Type::TypeParam { owner, param_index: 0 });
    let args = single(ty::I32);
    let replaced = builder.substitute_type(whole, &args, MAX_DEPTH);
    assert_eq!(builder.ty(replaced), Type::Tuple { elements: single(ty::I32) });
    let poisoned = builder.poison_type(whole, MAX_DEPTH);
    assert_eq!(builder.ty(poisoned), Type::Tuple { elements: single(ty::ERROR) });
    let open = single(ty::INFER);
    assert_eq!(builder.match_type(open, whole, replaced, MAX_DEPTH), Some(single(ty::I32)));
    let open = single(ty::INFER);
    assert_eq!(builder.infer_type_args(open, whole, replaced), single(ty::I32));
    let outer = builder.types.len();
    builder.types.push(Type::Tuple { elements: single(outer + 1) });
    builder.types.push(Type::Tuple { elements: cons(ty::INFER, single(ty::INTEGER)) });
    assert!(builder.contains_infer(outer));
    assert!(builder.contains_comptime_number(outer));
    let number = builder.intern_type(Type::Tuple { elements: cons(ty::BOOL, single(ty::INTEGER)) });
    let nested = builder.intern_type(Type::Tuple { elements: single(number) });
    assert!(builder.type_satisfies_annotation(nested, outer));
    assert!(!builder.type_satisfies_annotation(replaced, outer));
}
