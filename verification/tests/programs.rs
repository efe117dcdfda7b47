//! Whole programs: what is built of them and what is reported.

use wx_tir::ast;
use wx_tir::ast::{
    BinaryOp, BoundExpression, Item, MatchArm, Param, PathSegment, Statement, StatementKind,
    TypeExpression, TypeParam, UnaryOp,
};
use wx_tir::diagnostics::{DiagnosticCode, Severity};
use wx_tir::interner::Interner;
use wx_tir::list::{cons, List};
use wx_tir::members::TraitMemberError;
use wx_tir::program::{build, Program, SourceCrate, SourceModule};
use wx_tir::span::{DefId, Spanned, Symbol, TextSpan};
use wx_tir::state::{Builder, WellKnown};
use wx_tir::tir::{
    ComputeState, ConstValue, EnumVariant, ExportTarget, ExprKind, Expression, ImplEntry,
    ResolveContext,
};
use wx_tir::ty;
use wx_tir::types::{FunctionSignature, Type};

type Code = DiagnosticCode;
type Expr = Spanned<ast::Expression>;
type Ty = Spanned<TypeExpression>;

/// Makes syntax: each name gets a place of its own.
struct Source {
    interner: Interner,
    names: WellKnown,
    next_id: DefId,
    position: u32,
}

impl Source {
    fn new() -> Source {
        let mut interner = Interner::new();
        let names = interner.well_known();
        Source { interner, names, next_id: 1, position: 0 }
    }

    fn symbol(&mut self, text: &str) -> Symbol {
        self.interner.get_or_intern(text)
    }

    fn id(&mut self) -> DefId {
        self.next_id += 1;
        self.next_id
    }

    fn span(&mut self) -> TextSpan {
        self.position += 2;
        TextSpan { start: self.position, end: self.position + 1 }
    }

    fn at<T>(&mut self, inner: T) -> Spanned<T> {
        Spanned { inner, span: self.span() }
    }

    fn name(&mut self, text: &str) -> Spanned<Symbol> {
        let symbol = self.symbol(text);
        self.at(symbol)
    }

    /// A name that the source writes in quotes.
    fn quoted(&mut self, text: &str) -> Spanned<Symbol> {
        self.name(&format!("\"{}\"", text))
    }

    fn path(&mut self, text: &str) -> List<PathSegment> {
        let segments = text
            .split("::")
            .map(|part| PathSegment { ident: self.name(part), type_args: List::Nil })
            .collect();
        list(segments)
    }

    fn ty(&mut self, text: &str) -> Ty {
        let path = self.path(text);
        self.at(TypeExpression::Path(path))
    }

    fn applied(&mut self, name: &str, args: Vec<Ty>) -> Ty {
        let segment = PathSegment { ident: self.name(name), type_args: list(args) };
        self.at(TypeExpression::Path(list(vec![segment])))
    }

    fn infer(&mut self) -> Ty {
        self.at(TypeExpression::Infer)
    }

    // expressions

    fn number(&mut self, value: i64) -> Expr {
        self.at(ast::Expression::Int { value })
    }

    fn float(&mut self, value: f64) -> Expr {
        self.at(ast::Expression::Float { bits: value.to_bits() })
    }

    fn truth(&mut self, value: bool) -> Expr {
        self.at(if value { ast::Expression::True } else { ast::Expression::False })
    }

    fn chr(&mut self, raw: &str) -> Expr {
        self.at(ast::Expression::Char { raw: raw.to_string() })
    }

    fn var(&mut self, text: &str) -> Expr {
        let path = self.path(text);
        self.at(ast::Expression::Path(path))
    }

    fn binary(&mut self, operator: BinaryOp, left: Expr, right: Expr) -> Expr {
        let operator = self.at(operator);
        self.at(ast::Expression::Binary {
            operator,
            left: Box::new(left),
            right: Box::new(right),
        })
    }

    fn unary(&mut self, operator: UnaryOp, operand: Expr) -> Expr {
        let operator = self.at(operator);
        self.at(ast::Expression::Unary { operator, operand: Box::new(operand) })
    }

    fn call(&mut self, callee: Expr, arguments: Vec<Expr>) -> Expr {
        self.at(ast::Expression::Call { callee: Box::new(callee), arguments: list(arguments) })
    }

    fn method(&mut self, object: Expr, method: &str, arguments: Vec<Expr>) -> Expr {
        let method = self.name(method);
        self.at(ast::Expression::MethodCall {
            object: Box::new(object),
            method,
            type_args: List::Nil,
            arguments: list(arguments),
        })
    }

    fn field(&mut self, object: Expr, member: &str) -> Expr {
        let member = self.name(member);
        self.at(ast::Expression::ObjectAccess { object: Box::new(object), member })
    }

    fn ret(&mut self, value: Option<Expr>) -> Expr {
        self.at(ast::Expression::Return { value: value.map(Box::new) })
    }

    fn cast(&mut self, value: Expr, ty: Ty) -> Expr {
        self.at(ast::Expression::Cast { value: Box::new(value), ty })
    }

    fn block(&mut self, statements: Vec<Statement>) -> Expr {
        self.at(ast::Expression::Block { statements: list(statements) })
    }

    fn if_else(
        &mut self,
        condition: Expr,
        then_block: Vec<Statement>,
        else_block: Option<Vec<Statement>>,
    ) -> Expr {
        let then_span = self.span();
        let else_block = else_block.map(|statements| self.at(list(statements)));
        self.at(ast::Expression::IfElse {
            condition: Box::new(condition),
            then_block: list(then_block),
            then_span,
            else_block,
        })
    }

    fn looped(&mut self, statements: Vec<Statement>) -> Expr {
        let body_span = self.span();
        self.at(ast::Expression::Loop { statements: list(statements), body_span })
    }

    fn labelled(&mut self, label: &str, block: Expr) -> Expr {
        let label = self.name(label);
        self.at(ast::Expression::Label { label, block: Box::new(block) })
    }

    fn brk(&mut self, label: Option<&str>, value: Option<Expr>) -> Expr {
        let label = label.map(|text| self.name(text));
        self.at(ast::Expression::Break { label, value: value.map(Box::new) })
    }

    fn cont(&mut self) -> Expr {
        self.at(ast::Expression::Continue { label: None })
    }

    fn matched(&mut self, scrutinee: Expr, arms: Vec<(Expr, Vec<Statement>)>) -> Expr {
        let arms = arms
            .into_iter()
            .map(|(pattern, body)| MatchArm { pattern, body: list(body), body_span: self.span() })
            .collect();
        self.at(ast::Expression::Match { scrutinee: Box::new(scrutinee), arms: list(arms) })
    }

    fn wild(&mut self) -> Expr {
        self.at(ast::Expression::Placeholder)
    }

    fn init(&mut self, path: &str, fields: Vec<(&str, Expr)>) -> Expr {
        let path = self.path(path);
        let fields = fields
            .into_iter()
            .map(|(name, value)| ast::StructInitField {
                name: self.name(name),
                value: Some(Box::new(value)),
            })
            .collect();
        self.at(ast::Expression::StructInit { path, fields: list(fields) })
    }

    fn tuple(&mut self, elements: Vec<Expr>) -> Expr {
        self.at(ast::Expression::Tuple { elements: list(elements) })
    }

    // statements

    fn stmt(&mut self, expr: Expr) -> Statement {
        Statement {
            span: expr.span,
            kind: StatementKind::Expression(Box::new(expr)),
            separated: true,
        }
    }

    fn result(&mut self, expr: Expr) -> Statement {
        Statement {
            span: expr.span,
            kind: StatementKind::Expression(Box::new(expr)),
            separated: false,
        }
    }

    fn local(&mut self, name: &str, ty: Option<Ty>, value: Expr) -> Statement {
        self.define(name, false, ty, value)
    }

    fn local_mut(&mut self, name: &str, ty: Option<Ty>, value: Expr) -> Statement {
        self.define(name, true, ty, value)
    }

    fn define(&mut self, name: &str, mutable: bool, ty: Option<Ty>, value: Expr) -> Statement {
        let name = self.name(name);
        let mut_span = if mutable { Some(self.span()) } else { None };
        let pattern = self.at(ast::Pattern::Binding { mut_span, name });
        Statement {
            span: self.span(),
            kind: StatementKind::LocalDefinition { pattern, ty, value: Box::new(value) },
            separated: true,
        }
    }

    // items

    fn signature(
        &mut self,
        name: &str,
        type_params: Vec<TypeParam>,
        params: Vec<(&str, Ty)>,
        result: Option<Ty>,
    ) -> ast::FunctionSignature {
        let name = self.name(name);
        let params = params
            .into_iter()
            .map(|(param, ty)| Param { mut_span: None, name: self.name(param), ty: Some(ty) })
            .collect();
        ast::FunctionSignature {
            name,
            type_params: list(type_params),
            params: list(params),
            result,
        }
    }

    fn param(&mut self, name: &str, bounds: Option<&str>) -> TypeParam {
        let name = self.name(name);
        let bounds = bounds.map(|text| self.bound(text));
        TypeParam { name, bounds }
    }

    fn bound(&mut self, text: &str) -> Spanned<BoundExpression> {
        let path = self.path(text);
        self.at(BoundExpression::Path(path))
    }

    fn function(
        &mut self,
        name: &str,
        params: Vec<(&str, Ty)>,
        result: Option<Ty>,
        body: Vec<Statement>,
    ) -> Item {
        self.generic_function(name, vec![], params, result, body)
    }

    fn generic_function(
        &mut self,
        name: &str,
        type_params: Vec<TypeParam>,
        params: Vec<(&str, Ty)>,
        result: Option<Ty>,
        body: Vec<Statement>,
    ) -> Item {
        let signature = self.signature(name, type_params, params, result);
        let block = self.at(list(body));
        Item::Function {
            id: self.id(),
            pub_span: Some(self.span()),
            attributes: List::Nil,
            signature,
            block,
        }
    }

    fn hidden_function(&mut self, name: &str, body: Vec<Statement>) -> Item {
        let signature = self.signature(name, vec![], vec![], None);
        let block = self.at(list(body));
        Item::Function { id: self.id(), pub_span: None, attributes: List::Nil, signature, block }
    }

    fn structure(&mut self, name: &str, type_params: Vec<TypeParam>, fields: Vec<(&str, Ty)>) -> Item {
        let name = self.name(name);
        let fields = fields
            .into_iter()
            .map(|(field, ty)| ast::StructField {
                pub_span: Some(self.span()),
                name: self.name(field),
                ty,
            })
            .collect();
        Item::Struct {
            id: self.id(),
            pub_span: Some(self.span()),
            attributes: List::Nil,
            name,
            type_params: list(type_params),
            fields: list(fields),
        }
    }

    fn enumeration(&mut self, name: &str, repr: Option<&str>, variants: Vec<(&str, Option<Expr>)>) -> Item {
        let name = self.name(name);
        let repr = repr.map(|text| self.ty(text));
        let variants = variants
            .into_iter()
            .map(|(variant, value)| ast::EnumVariant { name: self.name(variant), value })
            .collect();
        Item::Enum {
            id: self.id(),
            pub_span: Some(self.span()),
            name,
            repr,
            variants: list(variants),
        }
    }

    fn constant(&mut self, name: &str, ty: &str, value: Expr) -> Item {
        let name = self.name(name);
        let ty = Some(self.ty(ty));
        Item::Const { id: self.id(), pub_span: Some(self.span()), name, ty, value }
    }

    fn global(&mut self, name: &str, mutable: bool, ty: &str, value: Expr) -> Item {
        let name = self.name(name);
        let ty = Some(self.ty(ty));
        let mut_span = if mutable { Some(self.span()) } else { None };
        Item::Global { id: self.id(), pub_span: Some(self.span()), mut_span, name, ty, value }
    }

    fn alias(&mut self, name: &str, type_params: Vec<TypeParam>, ty: Ty) -> Item {
        let name = self.name(name);
        Item::TypeAlias {
            id: self.id(),
            pub_span: Some(self.span()),
            name,
            type_params: list(type_params),
            ty,
        }
    }

    fn typeset(&mut self, name: &str, members: Vec<&str>) -> Item {
        let name = self.name(name);
        let members = members.into_iter().map(|text| self.ty(text)).collect();
        Item::TypeSet {
            id: self.id(),
            pub_span: Some(self.span()),
            attributes: List::Nil,
            name,
            members: list(members),
        }
    }

    fn interface(&mut self, name: &str, supertraits: Option<&str>, items: Vec<ast::TraitItem>) -> Item {
        let name = self.name(name);
        let supertraits = supertraits.map(|text| self.bound(text));
        Item::Trait {
            id: self.id(),
            attributes: List::Nil,
            name,
            supertraits,
            items: list(items),
        }
    }

    fn required(&mut self, name: &str, params: Vec<(&str, Ty)>, result: Option<Ty>) -> ast::TraitItem {
        let signature = self.signature(name, vec![], params, result);
        ast::TraitItem::Function { id: self.id(), attributes: List::Nil, signature, body: None }
    }

    fn assoc_type(&mut self, name: &str, bounds: Option<&str>) -> ast::TraitItem {
        let name = self.name(name);
        let bounds = bounds.map(|text| self.bound(text));
        ast::TraitItem::AssociatedType { id: self.id(), attributes: List::Nil, name, bounds }
    }

    fn member(
        &mut self,
        name: &str,
        params: Vec<(&str, Ty)>,
        result: Option<Ty>,
        body: Vec<Statement>,
    ) -> ast::ImplItem {
        let signature = self.signature(name, vec![], params, result);
        let block = self.at(list(body));
        ast::ImplItem::Function {
            id: self.id(),
            pub_span: Some(self.span()),
            attributes: List::Nil,
            signature,
            block,
        }
    }

    fn assoc_value(&mut self, name: &str, ty: &str) -> ast::ImplItem {
        let name = self.name(name);
        let ty = self.ty(ty);
        ast::ImplItem::AssociatedType { id: self.id(), name, ty }
    }

    fn inherent(&mut self, target: Ty, items: Vec<ast::ImplItem>) -> Item {
        Item::InherentImpl {
            id: self.id(),
            type_params: List::Nil,
            target,
            items: list(items),
        }
    }

    fn implementation(&mut self, name: &str, target: Ty, items: Vec<ast::ImplItem>) -> Item {
        let trait_name = self.path(name);
        Item::TraitImpl {
            id: self.id(),
            type_params: List::Nil,
            trait_name,
            target,
            items: list(items),
        }
    }

    fn module(&mut self, name: &str, items: Vec<Item>) -> Item {
        let name = self.name(name);
        Item::Module { name, pub_span: None, items: list(items) }
    }

    fn export(&mut self, entries: Vec<(&str, Option<&str>)>) -> Item {
        let entries = entries
            .into_iter()
            .map(|(name, alias)| ast::ExportEntry {
                name: self.name(name),
                alias: alias.map(|text| self.quoted(text)),
            })
            .collect();
        Item::Export { entries: list(entries) }
    }

    fn import(&mut self, module: &str, alias: Option<&str>, entries: Vec<ast::ImportDeclaration>) -> Item {
        let module = self.quoted(module);
        let alias = alias.map(|text| self.name(text));
        Item::Import { module, alias, entries: list(entries) }
    }

    fn wildcard(&mut self, path: &str) -> Item {
        let parts: Vec<Spanned<Symbol>> = path.split("::").map(|part| self.name(part)).collect();
        Item::Use { path: list(parts) }
    }

    /// Builds the program of these items and looks at what came of it.
    fn check(self, items: Vec<Item>, look: impl FnOnce(&Builder, &Interner)) {
        let module = SourceModule { file_id: 0, path: List::Nil, items: list(items) };
        let only = SourceCrate { name: None, root_file: 0, modules: list(vec![module]) };
        let program = Program { crates: list(vec![only]), next_id: self.next_id + 1 };
        let built = build(&program, self.interner, self.names);
        look(&built, &built.interner);
    }

    /// Builds the program and compares what is reported.
    fn expect(self, items: Vec<Item>, codes: Vec<Code>) {
        self.check(items, |built, _| assert_eq!(reported(built), codes));
    }
}

fn list<T>(elements: Vec<T>) -> List<T> {
    let mut result = List::Nil;
    for element in elements.into_iter().rev() {
        result = cons(element, result);
    }
    result
}

fn reported(built: &Builder) -> Vec<Code> {
    built.diagnostics.iter().filter_map(|diagnostic| diagnostic.code).collect()
}

/// The last expression of a function's body.
fn body_result<'a>(built: &'a Builder, index: usize) -> &'a Expression {
    match &built.functions[index].body.as_ref().unwrap().block.kind {
        ExprKind::Block { result: Some(result), .. } => result,
        other => panic!("not a block with a result: {:?}", other),
    }
}

fn assert_has(built: &Builder, code: &Code) {
    let codes = reported(built);
    assert!(codes.contains(code), "{:?} is not in {:?}", code, codes);
}

// ------------------------------------------------------------------ functions

#[test]
fn function_that_adds_is_built() {
    let mut s = Source::new();
    let (a, b) = (s.ty("i32"), s.ty("i32"));
    let result = s.ty("i32");
    let (x, y) = (s.var("a"), s.var("b"));
    let sum = s.binary(BinaryOp::Add, x, y);
    let body = vec![s.result(sum)];
    let item = s.function("add", vec![("a", a), ("b", b)], Some(result), body);
    s.check(vec![item], |built, _| {
        assert_eq!(reported(built), vec![]);
        assert_eq!(built.functions.len(), 1);
        let function = &built.functions[0];
        assert_eq!(
            built.ty(function.signature_index),
            Type::Function {
                signature: FunctionSignature {
                    params: list(vec![ty::I32, ty::I32]),
                    result: ty::I32,
                },
            }
        );
        let body = function.body.as_ref().unwrap();
        assert_eq!(body.block.ty, ty::I32);
        match &body.block.kind {
            ExprKind::Block { result: Some(result), .. } => {
                assert!(matches!(result.kind, ExprKind::Binary { .. }));
                assert_eq!(result.ty, ty::I32);
            }
            other => panic!("not a block with a result: {:?}", other),
        }
        assert_eq!(built.sig_states, vec![ComputeState::Done]);
    });
}

#[test]
fn literal_takes_the_type_of_the_result() {
    let mut s = Source::new();
    let result = s.ty("u8");
    let value = s.number(200);
    let body = vec![s.result(value)];
    let item = s.function("f", vec![], Some(result), body);
    s.check(vec![item], |built, _| {
        assert_eq!(reported(built), vec![]);
        let body = built.functions[0].body.as_ref().unwrap();
        assert_eq!(body.block.ty, ty::U8);
    });
}

#[test]
fn literal_out_of_range_is_reported() {
    let mut s = Source::new();
    let result = s.ty("u8");
    let value = s.number(256);
    let body = vec![s.result(value)];
    let item = s.function("f", vec![], Some(result), body);
    s.expect(vec![item], vec![Code::IntegerLiteralOutOfRange]);
}

#[test]
fn wrong_result_type_is_reported() {
    let mut s = Source::new();
    let result = s.ty("i32");
    let value = s.truth(true);
    let body = vec![s.result(value)];
    let item = s.function("f", vec![], Some(result), body);
    s.expect(vec![item], vec![Code::TypeMistmatch]);
}

#[test]
fn unknown_name_is_reported() {
    let mut s = Source::new();
    let value = s.var("missing");
    let body = vec![s.stmt(value)];
    let item = s.function("f", vec![], None, body);
    s.expect(vec![item], vec![Code::UndeclaredIdentifier]);
}

#[test]
fn unknown_type_is_reported() {
    let mut s = Source::new();
    let a = s.ty("Missing");
    let item = s.function("f", vec![("a", a)], None, vec![]);
    s.check(vec![item], |built, _| {
        assert_has(built, &Code::UndeclaredType);
        assert_eq!(built.functions[0].params.get(0).unwrap().ty.inner, ty::ERROR);
    });
}

#[test]
fn second_definition_of_a_name_is_reported_and_still_built() {
    let mut s = Source::new();
    let first = s.function("f", vec![], None, vec![]);
    let value = s.var("missing");
    let body = vec![s.stmt(value)];
    let second = s.function("f", vec![], None, body);
    s.check(vec![first, second], |built, _| {
        assert_eq!(
            reported(built),
            vec![Code::DuplicateDefinition, Code::UndeclaredIdentifier]
        );
        assert_eq!(built.functions.len(), 2);
        assert_eq!(built.nodes.len(), 2);
    });
}

#[test]
fn call_with_wrong_number_of_arguments_is_reported() {
    let mut s = Source::new();
    let a = s.ty("i32");
    let callee = s.function("g", vec![("_a", a)], None, vec![]);
    let target = s.var("g");
    let call = s.call(target, vec![]);
    let body = vec![s.stmt(call)];
    let caller = s.function("f", vec![], None, body);
    s.expect(vec![callee, caller], vec![Code::ArgumentCountMismatch]);
}

#[test]
fn call_of_a_number_is_reported() {
    let mut s = Source::new();
    let a = s.ty("i32");
    let target = s.var("a");
    let call = s.call(target, vec![]);
    let body = vec![s.stmt(call)];
    let item = s.function("f", vec![("a", a)], None, body);
    s.expect(vec![item], vec![Code::CannotCallExpression]);
}

#[test]
fn function_without_body_needs_an_attribute() {
    let mut s = Source::new();
    let signature = s.signature("f", vec![], vec![], None);
    let item = Item::FunctionDeclaration {
        id: s.id(),
        pub_span: Some(s.span()),
        attributes: List::Nil,
        signature,
    };
    s.expect(vec![item], vec![Code::MissingFunctionBody]);
}

#[test]
fn intrinsic_function_needs_no_body() {
    let mut s = Source::new();
    let signature = s.signature("f", vec![], vec![], None);
    let name = s.name("intrinsic");
    let attribute = ast::Attribute { name, value: ast::AttributeValue::Word };
    let item = Item::FunctionDeclaration {
        id: s.id(),
        pub_span: Some(s.span()),
        attributes: list(vec![attribute]),
        signature,
    };
    s.expect(vec![item], vec![]);
}

#[test]
fn function_that_nothing_uses_is_reported() {
    let mut s = Source::new();
    let item = s.hidden_function("lonely", vec![]);
    s.check(vec![item], |built, _| {
        assert_eq!(reported(built), vec![Code::UnusedItem]);
        assert_eq!(built.diagnostics[0].severity, Severity::Warning);
    });
}

#[test]
fn function_that_is_called_is_used() {
    let mut s = Source::new();
    let item = s.hidden_function("helper", vec![]);
    let target = s.var("helper");
    let call = s.call(target, vec![]);
    let body = vec![s.stmt(call)];
    let caller = s.function("f", vec![], None, body);
    s.expect(vec![item, caller], vec![]);
}

#[test]
fn exported_function_is_used() {
    let mut s = Source::new();
    let item = s.hidden_function("run", vec![]);
    let export = s.export(vec![("run", Some("start"))]);
    s.check(vec![item, export], |built, interner| {
        assert_eq!(reported(built), vec![]);
        assert_eq!(built.exports.len(), 1);
        assert_eq!(built.exports[0].target, ExportTarget::Function(built.functions[0].id));
        assert_eq!(interner.resolve(built.exports[0].name().inner), Some("start"));
    });
}

#[test]
fn name_can_be_exported_once() {
    let mut s = Source::new();
    let first = s.function("a", vec![], None, vec![]);
    let second = s.function("b", vec![], None, vec![]);
    let export = s.export(vec![("a", None), ("b", Some("a"))]);
    s.expect(vec![first, second, export], vec![Code::DuplicateExport]);
}

#[test]
fn struct_cannot_be_exported() {
    let mut s = Source::new();
    let item = s.structure("Point", vec![], vec![]);
    let export = s.export(vec![("Point", None)]);
    s.check(vec![item, export], |built, _| {
        assert_eq!(built.exports.len(), 0);
        assert_eq!(built.diagnostics.len(), 1, "{:?}", built.diagnostics);
    });
}

// ------------------------------------------------------------------ locals and control

#[test]
fn unused_local_is_reported() {
    let mut s = Source::new();
    let (ty, value) = (s.ty("i32"), s.number(1));
    let body = vec![s.local("x", Some(ty), value)];
    let item = s.function("f", vec![], None, body);
    s.expect(vec![item], vec![Code::UnusedVariable]);
}

#[test]
fn unnecessary_mut_is_reported() {
    let mut s = Source::new();
    let (ty, value) = (s.ty("i32"), s.number(1));
    let definition = s.local_mut("x", Some(ty), value);
    let result = s.ty("i32");
    let read = s.var("x");
    let read = s.result(read);
    let item = s.function("f", vec![], Some(result), vec![definition, read]);
    s.expect(vec![item], vec![Code::UnnecessaryMutability]);
}

#[test]
fn assignment_to_an_immutable_local_is_reported() {
    let mut s = Source::new();
    let (ty, value) = (s.ty("i32"), s.number(1));
    let definition = s.local("x", Some(ty), value);
    let (left, right) = (s.var("x"), s.number(2));
    let assign = s.binary(BinaryOp::Assign, left, right);
    let assign = s.stmt(assign);
    let result = s.ty("i32");
    let read = s.var("x");
    let read = s.result(read);
    let item = s.function("f", vec![], Some(result), vec![definition, assign, read]);
    s.expect(vec![item], vec![Code::CannotMutateImmutable]);
}

#[test]
fn assignment_to_a_mutable_local_is_built() {
    let mut s = Source::new();
    let (ty, value) = (s.ty("i32"), s.number(1));
    let definition = s.local_mut("x", Some(ty), value);
    let (left, right) = (s.var("x"), s.number(2));
    let assign = s.binary(BinaryOp::AddAssign, left, right);
    let assign = s.stmt(assign);
    let result = s.ty("i32");
    let read = s.var("x");
    let read = s.result(read);
    let item = s.function("f", vec![], Some(result), vec![definition, assign, read]);
    s.expect(vec![item], vec![]);
}

#[test]
fn assignment_to_a_call_is_reported() {
    let mut s = Source::new();
    let result = s.ty("i32");
    let value = s.number(1);
    let body = vec![s.result(value)];
    let callee = s.function("g", vec![], Some(result), body);
    let target = s.var("g");
    let left = s.call(target, vec![]);
    let right = s.number(2);
    let assign = s.binary(BinaryOp::Assign, left, right);
    let body = vec![s.stmt(assign)];
    let item = s.function("f", vec![], None, body);
    s.expect(vec![callee, item], vec![Code::InvalidAssignmentTarget]);
}

#[test]
fn literal_without_a_type_needs_an_annotation() {
    let mut s = Source::new();
    let value = s.number(1);
    let body = vec![s.local("_x", None, value)];
    let item = s.function("f", vec![], None, body);
    s.expect(vec![item], vec![Code::TypeAnnotationRequired]);
}

#[test]
fn unused_value_is_reported() {
    let mut s = Source::new();
    let a = s.ty("i32");
    let value = s.var("a");
    let body = vec![s.stmt(value)];
    let item = s.function("f", vec![("a", a)], None, body);
    s.expect(vec![item], vec![Code::UnusedValue]);
}

#[test]
fn code_after_return_is_unreachable() {
    let mut s = Source::new();
    let result = s.ty("i32");
    let one = s.number(1);
    let leave = s.ret(Some(one));
    let leave = s.stmt(leave);
    let two = s.number(2);
    let again = s.ret(Some(two));
    let again = s.stmt(again);
    let item = s.function("f", vec![], Some(result), vec![leave, again]);
    s.expect(vec![item], vec![Code::UnreachableCode]);
}

#[test]
fn operator_on_a_number_and_a_struct_is_reported() {
    let mut s = Source::new();
    let item = point(&mut s);
    let a = s.ty("Point");
    let (left, right) = (s.number(1), s.var("a"));
    let sum = s.binary(BinaryOp::Add, left, right);
    let body = vec![s.stmt(sum)];
    let function = s.function("f", vec![("a", a)], None, body);
    s.expect(vec![item, function], vec![Code::BinaryOperatorCannotBeApplied]);
}

#[test]
fn operands_must_agree() {
    let mut s = Source::new();
    let (a, b) = (s.ty("i32"), s.ty("i64"));
    let (left, right) = (s.var("a"), s.var("b"));
    let sum = s.binary(BinaryOp::Add, left, right);
    let result = s.ty("i32");
    let body = vec![s.result(sum)];
    let item = s.function("f", vec![("a", a), ("b", b)], Some(result), body);
    s.check(vec![item], |built, _| {
        assert_eq!(built.diagnostics.len(), 1, "{:?}", built.diagnostics);
    });
}

#[test]
fn literal_operand_takes_the_type_of_the_other() {
    let mut s = Source::new();
    let a = s.ty("u64");
    let (left, right) = (s.number(1), s.var("a"));
    let sum = s.binary(BinaryOp::Add, left, right);
    let result = s.ty("u64");
    let body = vec![s.result(sum)];
    let item = s.function("f", vec![("a", a)], Some(result), body);
    s.expect(vec![item], vec![]);
}

#[test]
fn comparison_of_two_literals_needs_a_type() {
    let mut s = Source::new();
    let (left, right) = (s.number(1), s.number(2));
    let less = s.binary(BinaryOp::Less, left, right);
    let result = s.ty("bool");
    let body = vec![s.result(less)];
    let item = s.function("f", vec![], Some(result), body);
    s.expect(vec![item], vec![Code::ComparisonTypeAnnotationRequired]);
}

#[test]
fn comparison_is_a_bool() {
    let mut s = Source::new();
    let (a, b) = (s.ty("i32"), s.ty("i32"));
    let (left, right) = (s.var("a"), s.var("b"));
    let less = s.binary(BinaryOp::Less, left, right);
    let result = s.ty("bool");
    let body = vec![s.result(less)];
    let item = s.function("f", vec![("a", a), ("b", b)], Some(result), body);
    s.expect(vec![item], vec![]);
}

#[test]
fn negation_of_a_struct_is_reported() {
    let mut s = Source::new();
    let item = point(&mut s);
    let a = s.ty("Point");
    let operand = s.var("a");
    let negated = s.unary(UnaryOp::InvertSign, operand);
    let body = vec![s.stmt(negated)];
    let function = s.function("f", vec![("a", a)], None, body);
    s.check(vec![item, function], |built, _| {
        assert_has(built, &Code::UnaryOperatorCannotBeApplied);
    });
}

#[test]
fn if_without_else_has_no_value() {
    let mut s = Source::new();
    let result = s.ty("i32");
    let condition = s.truth(true);
    let value = s.number(1);
    let then_block = vec![s.result(value)];
    let choice = s.if_else(condition, then_block, None);
    let body = vec![s.result(choice)];
    let item = s.function("f", vec![], Some(result), body);
    s.check(vec![item], |built, _| {
        assert_eq!(reported(built), vec![Code::MissingElseBlock]);
    });
}

#[test]
fn branches_take_one_type() {
    let mut s = Source::new();
    let result = s.ty("i64");
    let a = s.ty("i64");
    let condition = s.truth(true);
    let one = s.number(1);
    let then_block = vec![s.result(one)];
    let other = s.var("a");
    let else_block = vec![s.result(other)];
    let choice = s.if_else(condition, then_block, Some(else_block));
    let body = vec![s.result(choice)];
    let item = s.function("f", vec![("a", a)], Some(result), body);
    s.check(vec![item], |built, _| {
        assert_eq!(reported(built), vec![]);
        assert_eq!(built.functions[0].body.as_ref().unwrap().block.ty, ty::I64);
    });
}

#[test]
fn loop_without_break_never_ends() {
    let mut s = Source::new();
    let result = s.ty("i32");
    let forever = s.looped(vec![]);
    let body = vec![s.result(forever)];
    let item = s.function("f", vec![], Some(result), body);
    s.expect(vec![item], vec![]);
}

#[test]
fn loop_has_the_type_of_its_breaks() {
    let mut s = Source::new();
    let result = s.ty("i32");
    let value = s.number(3);
    let leave = s.brk(None, Some(value));
    let leave = s.stmt(leave);
    let search = s.looped(vec![leave]);
    let body = vec![s.result(search)];
    let item = s.function("f", vec![], Some(result), body);
    s.check(vec![item], |built, _| {
        assert_eq!(reported(built), vec![]);
    });
}

#[test]
fn break_outside_of_a_loop_is_reported() {
    let mut s = Source::new();
    let leave = s.brk(None, None);
    let body = vec![s.stmt(leave)];
    let item = s.function("f", vec![], None, body);
    s.expect(vec![item], vec![Code::BreakOutsideOfLoop]);
}

#[test]
fn continue_outside_of_a_loop_is_reported() {
    let mut s = Source::new();
    let next = s.cont();
    let body = vec![s.stmt(next)];
    let item = s.function("f", vec![], None, body);
    s.expect(vec![item], vec![Code::ContinueOutsideOfLoop]);
}

#[test]
fn break_to_an_unknown_label_is_reported() {
    let mut s = Source::new();
    let leave = s.brk(Some("outer"), None);
    let leave = s.stmt(leave);
    let search = s.looped(vec![leave]);
    let body = vec![s.stmt(search)];
    let item = s.function("f", vec![], None, body);
    s.check(vec![item], |built, _| {
        assert_has(built, &Code::UndeclaredLabel);
    });
}

#[test]
fn label_that_nothing_uses_is_reported() {
    let mut s = Source::new();
    let block = s.block(vec![]);
    let labelled = s.labelled("outer", block);
    let body = vec![s.stmt(labelled)];
    let item = s.function("f", vec![], None, body);
    s.expect(vec![item], vec![Code::UnusedLabel]);
}

#[test]
fn impossible_cast_is_reported() {
    let mut s = Source::new();
    let value = s.truth(true);
    let target = s.ty("Unit");
    let alias_target = s.at(TypeExpression::Tuple { elements: List::Nil });
    let alias = s.alias("Unit", vec![], alias_target);
    let cast = s.cast(value, target);
    let body = vec![s.stmt(cast)];
    let item = s.function("f", vec![], None, body);
    s.check(vec![alias, item], |built, _| {
        assert_has(built, &Code::InvalidCast);
    });
}

#[test]
fn cast_between_integers_is_built() {
    let mut s = Source::new();
    let a = s.ty("i32");
    let result = s.ty("u32");
    let value = s.var("a");
    let target = s.ty("u32");
    let cast = s.cast(value, target);
    let body = vec![s.result(cast)];
    let item = s.function("f", vec![("a", a)], Some(result), body);
    s.expect(vec![item], vec![]);
}

#[test]
fn bad_character_literals_are_reported() {
    let mut s = Source::new();
    let empty = s.chr("''");
    let empty = s.stmt(empty);
    let item = s.function("f", vec![], None, vec![empty]);
    let long = s.chr("'ab'");
    let long = s.stmt(long);
    let other = s.function("g", vec![], None, vec![long]);
    s.expect(vec![item, other], vec![Code::InvalidLiteral, Code::InvalidLiteral]);
}

// ------------------------------------------------------------------ matches and enums

fn color(s: &mut Source) -> Item {
    let variants = vec![("Red", None), ("Green", None), ("Blue", None)];
    s.enumeration("Color", Some("u8"), variants)
}

#[test]
fn enum_values_count_up() {
    let mut s = Source::new();
    let five = s.number(5);
    let item = s.enumeration("E", Some("u8"), vec![("A", None), ("B", Some(five)), ("C", None)]);
    s.check(vec![item], |built, _| {
        let variants = &built.enums[0].variants;
        assert_eq!(variants.get(0).unwrap().const_value, Some(0));
        assert_eq!(variants.get(1).unwrap().const_value, Some(5));
        assert_eq!(variants.get(2).unwrap().const_value, Some(6));
        assert_eq!(reported(built), vec![Code::UnusedEnumVariant]);
    });
}

#[test]
fn shared_enum_value_is_reported_once() {
    let mut s = Source::new();
    let (one, same) = (s.number(1), s.number(1));
    let variants = vec![("A", Some(one)), ("B", Some(same)), ("C", None)];
    let item = s.enumeration("E", Some("u8"), variants);
    s.check(vec![item], |built, _| {
        assert_eq!(
            reported(built),
            vec![Code::EnumDuplicateValue, Code::UnusedEnumVariant]
        );
        assert_eq!(built.diagnostics[0].labels.len(), 3);
    });
}

#[test]
fn enum_needs_an_integer_type() {
    let mut s = Source::new();
    let missing = s.enumeration("E", None, vec![]);
    let wrong = s.enumeration("F", Some("bool"), vec![]);
    s.expect(vec![missing, wrong], vec![Code::MissingEnumRepr, Code::EnumReprNotInteger]);
}

fn color_match(s: &mut Source, names: &[&str], wildcard: bool) -> Item {
    let a = s.ty("Color");
    let result = s.ty("i32");
    let scrutinee = s.var("a");
    let mut arms = vec![];
    for name in names {
        let pattern = s.var(&format!("Color::{}", name));
        let value = s.number(1);
        let body = vec![s.result(value)];
        arms.push((pattern, body));
    }
    if wildcard {
        let pattern = s.wild();
        let value = s.number(2);
        let body = vec![s.result(value)];
        arms.push((pattern, body));
    }
    let matched = s.matched(scrutinee, arms);
    let body = vec![s.result(matched)];
    s.function("f", vec![("a", a)], Some(result), body)
}

#[test]
fn match_with_every_variant_is_exhaustive() {
    let mut s = Source::new();
    let item = color(&mut s);
    let function = color_match(&mut s, &["Red", "Green", "Blue"], false);
    s.expect(vec![item, function], vec![]);
}

#[test]
fn match_without_a_variant_is_reported() {
    let mut s = Source::new();
    let item = color(&mut s);
    let function = color_match(&mut s, &["Red", "Blue"], false);
    s.check(vec![item, function], |built, _| {
        assert_has(built, &Code::NonExhaustiveMatch);
    });
}

#[test]
fn match_with_a_wildcard_is_exhaustive() {
    let mut s = Source::new();
    let item = color(&mut s);
    let function = color_match(&mut s, &["Red"], true);
    s.check(vec![item, function], |built, _| {
        assert!(!reported(built).contains(&Code::NonExhaustiveMatch));
    });
}

#[test]
fn repeated_arm_is_unreachable() {
    let mut s = Source::new();
    let item = color(&mut s);
    let function = color_match(&mut s, &["Red", "Green", "Red", "Blue"], false);
    s.expect(vec![item, function], vec![Code::UnreachableMatchArm]);
}

// ------------------------------------------------------------------ structs

fn point(s: &mut Source) -> Item {
    let (x, y) = (s.ty("i32"), s.ty("i32"));
    s.structure("Point", vec![], vec![("x", x), ("y", y)])
}

#[test]
fn struct_is_initialised_and_read() {
    let mut s = Source::new();
    let item = point(&mut s);
    let (one, two) = (s.number(1), s.number(2));
    let init = s.init("Point", vec![("x", one), ("y", two)]);
    let definition = s.local("p", None, init);
    let result = s.ty("i32");
    let (left, right) = (s.var("p"), s.var("p"));
    let (left, right) = (s.field(left, "x"), s.field(right, "y"));
    let sum = s.binary(BinaryOp::Add, left, right);
    let sum = s.result(sum);
    let function = s.function("f", vec![], Some(result), vec![definition, sum]);
    s.expect(vec![item, function], vec![]);
}

#[test]
fn missing_fields_are_reported() {
    let mut s = Source::new();
    let item = point(&mut s);
    let one = s.number(1);
    let init = s.init("Point", vec![("x", one)]);
    let body = vec![s.local("_p", None, init)];
    let function = s.function("f", vec![], None, body);
    s.check(vec![item, function], |built, _| {
        assert_has(built, &Code::MissingStructFields);
    });
}

#[test]
fn unknown_and_repeated_fields_are_reported() {
    let mut s = Source::new();
    let item = point(&mut s);
    let (one, two, three, four) = (s.number(1), s.number(2), s.number(3), s.number(4));
    let init = s.init("Point", vec![("x", one), ("x", two), ("y", three), ("z", four)]);
    let body = vec![s.local("_p", None, init)];
    let function = s.function("f", vec![], None, body);
    s.check(vec![item, function], |built, _| {
        let codes = reported(built);
        assert!(codes.contains(&Code::DuplicateStructFieldInit));
        assert!(codes.contains(&Code::UnknownStructField));
    });
}

#[test]
fn struct_with_a_field_twice_is_reported() {
    let mut s = Source::new();
    let (a, b) = (s.ty("i32"), s.ty("i32"));
    let item = s.structure("Twice", vec![], vec![("a", a), ("a", b)]);
    s.check(vec![item], |built, _| {
        assert_has(built, &Code::DuplicateStructField);
    });
}

#[test]
fn struct_that_contains_itself_is_reported() {
    let mut s = Source::new();
    let inner = s.ty("Node");
    let item = s.structure("Node", vec![], vec![("next", inner)]);
    s.check(vec![item], |built, _| {
        assert_has(built, &Code::CyclicTypeDependency);
    });
}

#[test]
fn struct_that_contains_itself_in_a_tuple_is_reported() {
    let mut s = Source::new();
    let (number, inner) = (s.ty("i32"), s.ty("Node"));
    let pair = s.at(TypeExpression::Tuple { elements: list(vec![number, inner]) });
    let item = s.structure("Node", vec![], vec![("next", pair)]);
    s.check(vec![item], |built, _| {
        assert_has(built, &Code::CyclicTypeDependency);
    });
}

#[test]
fn structs_that_contain_each_other_are_reported() {
    let mut s = Source::new();
    let inner = s.ty("B");
    let first = s.structure("A", vec![], vec![("b", inner)]);
    let inner = s.ty("A");
    let second = s.structure("B", vec![], vec![("a", inner)]);
    s.check(vec![first, second], |built, _| {
        assert_has(built, &Code::CyclicTypeDependency);
    });
}

#[test]
fn struct_that_points_to_itself_has_a_size() {
    let mut s = Source::new();
    let declaration = s.memory_trait();
    let heap = s.memory("heap");
    let inner = s.ty("Node");
    let next = s.pointer(false, inner);
    let item = s.structure("Node", vec![], vec![("next", next)]);
    s.check(vec![declaration, heap, item], |built, _| {
        assert!(!reported(built).contains(&Code::CyclicTypeDependency));
        assert_eq!(built.structs[0].fields.len(), 1);
    });
}

#[test]
fn alias_of_itself_is_reported() {
    let mut s = Source::new();
    let target = s.ty("Loop");
    let alias = s.alias("Loop", vec![], target);
    s.check(vec![alias], |built, _| {
        assert_has(built, &Code::CyclicTypeDependency);
    });
}

#[test]
fn inner_local_ends_with_its_block() {
    let mut s = Source::new();
    let (ty, value) = (s.ty("i32"), s.number(1));
    let outer = s.local("x", Some(ty), value);
    let (ty, value) = (s.ty("bool"), s.truth(true));
    let inner = s.local("x", Some(ty), value);
    let read = s.var("x");
    let discard = s.wild();
    let read = s.binary(BinaryOp::Assign, discard, read);
    let read = s.stmt(read);
    let block = s.block(vec![inner, read]);
    let block = s.stmt(block);
    let result = s.ty("i32");
    let last = s.var("x");
    let last = s.result(last);
    let function = s.function("f", vec![], Some(result), vec![outer, block, last]);
    s.check(vec![function], |built, _| {
        assert_eq!(reported(built), vec![]);
        assert_eq!(body_result(built, 0).ty, ty::I32);
        let stack = &built.functions[0].body.as_ref().unwrap().stack;
        assert_eq!(stack.scopes.len(), 2);
        assert_eq!(stack.scopes.get(0).unwrap().locals.len(), 1);
        assert_eq!(stack.scopes.get(1).unwrap().parent, Some(0));
    });
}

#[test]
fn method_of_the_type_comes_before_that_of_a_trait() {
    let mut s = Source::new();
    let declaration = shape(&mut s);
    let given = shape_for(&mut s, "Point", 1);
    let item = point(&mut s);
    let receiver = s.ty("Self");
    let result = s.ty("bool");
    let value = s.truth(true);
    let body = vec![s.result(value)];
    let method = s.member("area", vec![("self", receiver)], Some(result), body);
    let target = s.ty("Point");
    let own = s.inherent(target, vec![method]);
    let p = s.ty("Point");
    let result = s.ty("bool");
    let object = s.var("p");
    let call = s.method(object, "area", vec![]);
    let body = vec![s.result(call)];
    let function = s.function("f", vec![("p", p)], Some(result), body);
    s.check(vec![declaration, given, item, own, function], |built, _| {
        assert!(!reported(built).contains(&Code::TypeMistmatch));
        assert!(!reported(built).contains(&Code::AmbiguousTraitMember));
    });
}

#[test]
fn looking_for_unused_items_changes_no_table() {
    let mut s = Source::new();
    let item = s.hidden_function("idle", vec![]);
    let module = SourceModule { file_id: 0, path: List::Nil, items: list(vec![item]) };
    let only = SourceCrate { name: None, root_file: 0, modules: list(vec![module]) };
    let program = Program { crates: list(vec![only]), next_id: s.next_id + 1 };
    let mut built = build(&program, s.interner, s.names);
    let (types, accesses) = (built.types.len(), built.accesses.len());
    assert_eq!(reported(&built), vec![Code::UnusedItem]);
    built.report_unused_items();
    assert_eq!(reported(&built), vec![Code::UnusedItem, Code::UnusedItem]);
    assert_eq!(built.types.len(), types);
    assert_eq!(built.accesses.len(), accesses);
    assert_eq!(built.functions.len(), 1);
}

#[test]
fn generic_struct_needs_all_its_arguments() {
    let mut s = Source::new();
    let (first, second) = (s.param("A", None), s.param("B", None));
    let (a, b) = (s.ty("A"), s.ty("B"));
    let item = s.structure("Pair", vec![first, second], vec![("a", a), ("b", b)]);
    let one = s.ty("i32");
    let wrong = s.applied("Pair", vec![one]);
    let function = s.function("f", vec![("_p", wrong)], None, vec![]);
    s.check(vec![item, function], |built, _| {
        assert_has(built, &Code::TypeArgCountMismatch);
        let index = built.functions[0].params.get(0).unwrap().ty.inner;
        assert_eq!(
            built.ty(index),
            Type::Struct { struct_index: 0, args: list(vec![ty::ERROR, ty::ERROR]) }
        );
    });
}

#[test]
fn alias_stands_for_its_type() {
    let mut s = Source::new();
    let (first, second) = (s.param("A", None), s.param("B", None));
    let (a, b) = (s.ty("A"), s.ty("B"));
    let item = s.structure("Pair", vec![first, second], vec![("a", a), ("b", b)]);
    let param = s.param("T", None);
    let (t, u) = (s.ty("T"), s.ty("T"));
    let template = s.applied("Pair", vec![t, u]);
    let alias = s.alias("Twin", vec![param], template);
    let argument = s.ty("i32");
    let written = s.applied("Twin", vec![argument]);
    let function = s.function("f", vec![("_p", written)], None, vec![]);
    s.check(vec![item, alias, function], |built, _| {
        let index = built.functions[0].params.get(0).unwrap().ty.inner;
        assert_eq!(
            built.ty(index),
            Type::Struct { struct_index: 0, args: list(vec![ty::I32, ty::I32]) }
        );
    });
}

#[test]
fn hole_in_a_signature_is_reported() {
    let mut s = Source::new();
    let hole = s.infer();
    let function = s.function("f", vec![("_p", hole)], None, vec![]);
    s.expect(vec![function], vec![Code::InferInSignature]);
}

#[test]
fn unknown_field_is_reported() {
    let mut s = Source::new();
    let item = point(&mut s);
    let p = s.ty("Point");
    let object = s.var("p");
    let read = s.field(object, "z");
    let body = vec![s.stmt(read)];
    let function = s.function("f", vec![("p", p)], None, body);
    s.check(vec![item, function], |built, _| {
        let codes = reported(built);
        assert!(codes.contains(&Code::NotAField) || codes.contains(&Code::UndeclaredIdentifier));
    });
}

#[test]
fn tuple_takes_the_types_of_its_elements() {
    let mut s = Source::new();
    let (first, second) = (s.ty("i32"), s.ty("bool"));
    let result = s.at(TypeExpression::Tuple { elements: list(vec![first, second]) });
    let (one, yes) = (s.number(1), s.truth(true));
    let pair = s.tuple(vec![one, yes]);
    let body = vec![s.result(pair)];
    let function = s.function("f", vec![], Some(result), body);
    s.check(vec![function], |built, _| {
        assert_eq!(reported(built), vec![]);
        let index = built.functions[0].body.as_ref().unwrap().block.ty;
        assert_eq!(built.ty(index), Type::Tuple { elements: list(vec![ty::I32, ty::BOOL]) });
    });
}

// ------------------------------------------------------------------ constants and globals

#[test]
fn constant_is_folded() {
    let mut s = Source::new();
    let (two, three) = (s.number(2), s.number(3));
    let product = s.binary(BinaryOp::Mul, two, three);
    let negated = s.unary(UnaryOp::InvertSign, product);
    let item = s.constant("C", "i32", negated);
    s.check(vec![item], |built, _| {
        assert_eq!(reported(built), vec![]);
        assert_eq!(built.constants[0].const_value, Some(ConstValue::Int(-6)));
    });
}

#[test]
fn constant_of_a_constant_is_folded() {
    let mut s = Source::new();
    let (one, other) = (s.number(1), s.var("B"));
    let sum = s.binary(BinaryOp::Add, one, other);
    let first = s.constant("A", "i32", sum);
    let forty = s.number(41);
    let second = s.constant("B", "i32", forty);
    s.check(vec![second, first], |built, _| {
        assert_eq!(reported(built), vec![]);
        assert_eq!(built.constants[1].const_value, Some(ConstValue::Int(42)));
    });
}

#[test]
fn constant_needs_a_constant_value() {
    let mut s = Source::new();
    let result = s.ty("i32");
    let one = s.number(1);
    let body = vec![s.result(one)];
    let function = s.function("g", vec![], Some(result), body);
    let target = s.var("g");
    let call = s.call(target, vec![]);
    let item = s.constant("C", "i32", call);
    s.expect(vec![function, item], vec![Code::NotConstEvaluatable]);
}

#[test]
fn immutable_global_needs_a_constant_value() {
    let mut s = Source::new();
    let result = s.ty("i32");
    let one = s.number(1);
    let body = vec![s.result(one)];
    let function = s.function("g", vec![], Some(result), body);
    let target = s.var("g");
    let call = s.call(target, vec![]);
    let item = s.global("state", false, "i32", call);
    s.expect(vec![function, item], vec![Code::NonConstantGlobalInitializer, Code::UnusedItem]);
}

#[test]
fn mutable_global_is_written() {
    let mut s = Source::new();
    let one = s.number(1);
    let item = s.global("state", true, "i32", one);
    let (left, right) = (s.var("state"), s.number(2));
    let assign = s.binary(BinaryOp::Assign, left, right);
    let body = vec![s.stmt(assign)];
    let function = s.function("f", vec![], None, body);
    s.expect(vec![item, function], vec![]);
}

#[test]
fn immutable_global_is_not_written() {
    let mut s = Source::new();
    let one = s.number(1);
    let item = s.global("state", false, "i32", one);
    let (left, right) = (s.var("state"), s.number(2));
    let assign = s.binary(BinaryOp::Assign, left, right);
    let body = vec![s.stmt(assign)];
    let function = s.function("f", vec![], None, body);
    s.expect(vec![item, function], vec![Code::CannotMutateImmutable]);
}

#[test]
fn float_literal_does_not_become_an_integer() {
    let mut s = Source::new();
    let result = s.ty("i32");
    let half = s.float(0.5);
    let body = vec![s.result(half)];
    let function = s.function("f", vec![], Some(result), body);
    s.check(vec![function], |built, _| {
        assert_eq!(built.diagnostics.len(), 1, "{:?}", built.diagnostics);
    });
}

#[test]
fn float_literal_keeps_its_bits() {
    let mut s = Source::new();
    let half = s.float(0.5);
    let item = s.constant("HALF", "f64", half);
    s.check(vec![item], |built, _| {
        assert_eq!(reported(built), vec![]);
        assert_eq!(built.constants[0].const_value, Some(ConstValue::Float(0.5f64.to_bits())));
    });
}

// ------------------------------------------------------------------ methods and traits

#[test]
fn method_is_called_on_a_value_and_on_its_type() {
    let mut s = Source::new();
    let item = point(&mut s);
    let receiver = s.ty("Self");
    let result = s.ty("i32");
    let object = s.var("self");
    let (left, other) = (s.field(object, "x"), s.var("self"));
    let right = s.field(other, "y");
    let sum = s.binary(BinaryOp::Add, left, right);
    let body = vec![s.result(sum)];
    let method = s.member("sum", vec![("self", receiver)], Some(result), body);
    let target = s.ty("Point");
    let block = s.inherent(target, vec![method]);
    let p = s.ty("Point");
    let result = s.ty("i32");
    let object = s.var("p");
    let call = s.method(object, "sum", vec![]);
    let argument = s.var("p");
    let path = s.var("Point::sum");
    let other = s.call(path, vec![argument]);
    let total = s.binary(BinaryOp::Add, call, other);
    let body = vec![s.result(total)];
    let function = s.function("f", vec![("p", p)], Some(result), body);
    s.expect(vec![item, block, function], vec![]);
}

#[test]
fn unknown_method_is_reported() {
    let mut s = Source::new();
    let a = s.ty("i32");
    let object = s.var("a");
    let call = s.method(object, "nothing", vec![]);
    let body = vec![s.stmt(call)];
    let function = s.function("f", vec![("a", a)], None, body);
    s.expect(vec![function], vec![Code::MethodNotFound]);
}

#[test]
fn associated_type_has_no_place_in_an_inherent_impl() {
    let mut s = Source::new();
    let item = point(&mut s);
    let value = s.assoc_value("Item", "i32");
    let target = s.ty("Point");
    let block = s.inherent(target, vec![value]);
    s.check(vec![item, block], |built, _| {
        assert_eq!(reported(built)[0], Code::AssociatedTypeInInherentImpl);
    });
}

fn shape(s: &mut Source) -> Item {
    let receiver = s.ty("Self");
    let result = s.ty("i32");
    let area = s.required("area", vec![("self", receiver)], Some(result));
    s.interface("Shape", None, vec![area])
}

fn shape_for(s: &mut Source, target: &str, value: i64) -> Item {
    let receiver = s.ty("Self");
    let result = s.ty("i32");
    let value = s.number(value);
    let body = vec![s.result(value)];
    let method = s.member("area", vec![("self", receiver)], Some(result), body);
    let target = s.ty(target);
    s.implementation("Shape", target, vec![method])
}

#[test]
fn trait_method_is_found_through_a_bound() {
    let mut s = Source::new();
    let declaration = shape(&mut s);
    let implementation = shape_for(&mut s, "i32", 4);
    let param = s.param("T", Some("Shape"));
    let a = s.ty("T");
    let result = s.ty("i32");
    let object = s.var("a");
    let call = s.method(object, "area", vec![]);
    let body = vec![s.result(call)];
    let generic = s.generic_function("measure", vec![param], vec![("a", a)], Some(result), body);
    let b = s.ty("i32");
    let result = s.ty("i32");
    let (callee, argument) = (s.var("measure"), s.var("b"));
    let call = s.call(callee, vec![argument]);
    let body = vec![s.result(call)];
    let function = s.function("f", vec![("b", b)], Some(result), body);
    s.check(vec![declaration, implementation, generic, function], |built, _| {
        assert_eq!(reported(built), vec![]);
        assert_eq!(built.trait_dispatch.len(), 1);
    });
}

#[test]
fn argument_that_misses_a_bound_is_reported() {
    let mut s = Source::new();
    let declaration = shape(&mut s);
    let param = s.param("T", Some("Shape"));
    let a = s.ty("T");
    let generic = s.generic_function("measure", vec![param], vec![("_a", a)], None, vec![]);
    let b = s.ty("bool");
    let (callee, argument) = (s.var("measure"), s.var("b"));
    let call = s.call(callee, vec![argument]);
    let body = vec![s.stmt(call)];
    let function = s.function("f", vec![("b", b)], None, body);
    s.expect(vec![declaration, generic, function], vec![Code::TraitBoundViolation]);
}

#[test]
fn second_impl_for_a_type_is_reported() {
    let mut s = Source::new();
    let declaration = shape(&mut s);
    let first = shape_for(&mut s, "i32", 1);
    let second = shape_for(&mut s, "i32", 2);
    s.check(vec![declaration, first, second], |built, _| {
        assert_has(built, &Code::DuplicateTraitImpl);
        assert_eq!(built.trait_impls.len(), 2);
        assert_eq!(built.trait_dispatch.len(), 1);
        assert_eq!(built.trait_dispatch[0].impl_index, 0);
    });
}

#[test]
fn missing_member_of_an_impl_is_reported() {
    let mut s = Source::new();
    let declaration = shape(&mut s);
    let target = s.ty("i32");
    let implementation = s.implementation("Shape", target, vec![]);
    s.expect(vec![declaration, implementation], vec![Code::MissingTraitImplItem]);
}

#[test]
fn supertrait_must_be_implemented() {
    let mut s = Source::new();
    let base = s.interface("Base", None, vec![]);
    let derived = s.interface("Derived", Some("Base"), vec![]);
    let target = s.ty("i32");
    let implementation = s.implementation("Derived", target, vec![]);
    s.expect(vec![base, derived, implementation], vec![Code::MissingSupertraitImpl]);
}

#[test]
fn associated_type_is_resolved() {
    let mut s = Source::new();
    let item = s.assoc_type("Item", None);
    let declaration = s.interface("Holder", None, vec![item]);
    let value = s.assoc_value("Item", "u8");
    let target = s.ty("bool");
    let implementation = s.implementation("Holder", target, vec![value]);
    let result = s.ty("bool::Item");
    let one = s.number(1);
    let body = vec![s.result(one)];
    let function = s.function("f", vec![], Some(result), body);
    s.check(vec![declaration, implementation, function], |built, _| {
        assert_eq!(reported(built), vec![]);
        let result = built.functions.last().unwrap().result.unwrap();
        assert_eq!(result.inner, ty::U8);
    });
}

#[test]
fn associated_type_must_meet_its_bound() {
    let mut s = Source::new();
    let declaration = shape(&mut s);
    let item = s.assoc_type("Item", Some("Shape"));
    let holder = s.interface("Holder", None, vec![item]);
    let value = s.assoc_value("Item", "u8");
    let target = s.ty("bool");
    let implementation = s.implementation("Holder", target, vec![value]);
    s.check(vec![declaration, holder, implementation], |built, _| {
        assert_eq!(built.diagnostics.len(), 1, "{:?}", built.diagnostics);
    });
}

// ------------------------------------------------------------------ generics and typesets

#[test]
fn type_argument_is_inferred_from_the_argument() {
    let mut s = Source::new();
    let param = s.param("T", None);
    let (a, result) = (s.ty("T"), s.ty("T"));
    let value = s.var("a");
    let body = vec![s.result(value)];
    let generic = s.generic_function("same", vec![param], vec![("a", a)], Some(result), body);
    let b = s.ty("i64");
    let result = s.ty("i64");
    let (callee, argument) = (s.var("same"), s.var("b"));
    let call = s.call(callee, vec![argument]);
    let body = vec![s.result(call)];
    let function = s.function("f", vec![("b", b)], Some(result), body);
    s.check(vec![generic, function], |built, _| {
        assert_eq!(reported(built), vec![]);
        match &built.functions[1].body.as_ref().unwrap().block.kind {
            ExprKind::Block { result: Some(result), .. } => match &result.kind {
                ExprKind::GenericCall { type_args, .. } => {
                    assert_eq!(*type_args, list(vec![ty::I64]));
                }
                other => panic!("not a generic call: {:?}", other),
            },
            other => panic!("not a block with a result: {:?}", other),
        }
    });
}

#[test]
fn type_argument_that_nothing_fixes_is_reported() {
    let mut s = Source::new();
    let param = s.param("T", None);
    let generic = s.generic_function("phantom", vec![param], vec![], None, vec![]);
    let callee = s.var("phantom");
    let call = s.call(callee, vec![]);
    let body = vec![s.stmt(call)];
    let function = s.function("f", vec![], None, body);
    s.check(vec![generic, function], |built, _| {
        assert_has(built, &Code::TypeAnnotationRequired);
        assert_has(built, &Code::UnusedTypeParam);
    });
}

#[test]
fn typeset_bound_is_checked() {
    let mut s = Source::new();
    let set = s.typeset("Word", vec!["u32", "u64"]);
    let param = s.param("T", Some("Word"));
    let a = s.ty("T");
    let generic = s.generic_function("take", vec![param], vec![("_a", a)], None, vec![]);
    let (b, c) = (s.ty("u32"), s.ty("u8"));
    let (callee, argument) = (s.var("take"), s.var("b"));
    let good = s.call(callee, vec![argument]);
    let good = s.stmt(good);
    let (callee, argument) = (s.var("take"), s.var("c"));
    let bad = s.call(callee, vec![argument]);
    let bad = s.stmt(bad);
    let function = s.function("f", vec![("b", b), ("c", c)], None, vec![good, bad]);
    s.check(vec![set, generic, function], |built, _| {
        assert_eq!(reported(built), vec![Code::TypesetBoundViolation]);
        assert_eq!(built.typesets[0].intersection_range.min, 0);
        assert_eq!(built.typesets[0].intersection_range.max, u32::MAX as u64);
    });
}

#[test]
fn typeset_holds_integers_only() {
    let mut s = Source::new();
    let set = s.typeset("Word", vec!["u32", "bool"]);
    s.check(vec![set], |built, _| {
        assert_has(built, &Code::TypesetMemberNotInteger);
    });
}

// ------------------------------------------------------------------ modules, imports, crates

#[test]
fn module_is_walked_by_its_path() {
    let mut s = Source::new();
    let result = s.ty("i32");
    let one = s.number(1);
    let body = vec![s.result(one)];
    let inner = s.function("one", vec![], Some(result), body);
    let module = s.module("numbers", vec![inner]);
    let result = s.ty("i32");
    let callee = s.var("numbers::one");
    let call = s.call(callee, vec![]);
    let body = vec![s.result(call)];
    let function = s.function("f", vec![], Some(result), body);
    s.expect(vec![module, function], vec![]);
}

#[test]
fn wildcard_import_brings_names_into_scope() {
    let mut s = Source::new();
    let result = s.ty("i32");
    let one = s.number(1);
    let body = vec![s.result(one)];
    let inner = s.function("one", vec![], Some(result), body);
    let module = s.module("numbers", vec![inner]);
    let import = s.wildcard("numbers");
    let result = s.ty("i32");
    let callee = s.var("one");
    let call = s.call(callee, vec![]);
    let body = vec![s.result(call)];
    let function = s.function("f", vec![], Some(result), body);
    s.expect(vec![module, import, function], vec![]);
}

#[test]
fn imported_function_is_called() {
    let mut s = Source::new();
    let a = s.ty("i32");
    let signature = s.signature("log", vec![], vec![("a", a)], None);
    let entry = ast::ImportDeclaration::Function { id: s.id(), signature };
    let import = s.import("env", Some("host"), vec![entry]);
    let b = s.ty("i32");
    let (callee, argument) = (s.var("host::log"), s.var("b"));
    let call = s.call(callee, vec![argument]);
    let body = vec![s.stmt(call)];
    let function = s.function("f", vec![("b", b)], None, body);
    s.check(vec![import, function], |built, interner| {
        assert_eq!(reported(built), vec![]);
        let lookup = &built.import_decls[0].lookup;
        assert_eq!(lookup.len(), 1);
        assert_eq!(interner.resolve(lookup.get(0).unwrap().name), Some("log"));
        assert_eq!(interner.resolve(built.import_decls[0].external_name.inner), Some("env"));
    });
}

#[test]
fn import_needs_an_alias() {
    let mut s = Source::new();
    let import = s.import("env", None, vec![]);
    s.expect(vec![import], vec![Code::MissingImportAlias]);
}

#[test]
fn library_crate_lives_under_its_name() {
    let mut s = Source::new();
    let result = s.ty("i32");
    let one = s.number(1);
    let body = vec![s.result(one)];
    let inner = s.function("one", vec![], Some(result), body);
    let result = s.ty("i32");
    let callee = s.var("lib::math::one");
    let call = s.call(callee, vec![]);
    let body = vec![s.result(call)];
    let function = s.function("f", vec![], Some(result), body);
    let (lib, math) = (s.symbol("lib"), s.symbol("math"));
    let library_module =
        SourceModule { file_id: 1, path: list(vec![math]), items: list(vec![inner]) };
    let library =
        SourceCrate { name: Some(lib), root_file: 1, modules: list(vec![library_module]) };
    let main_module = SourceModule { file_id: 0, path: List::Nil, items: list(vec![function]) };
    let main = SourceCrate { name: None, root_file: 0, modules: list(vec![main_module]) };
    let program = Program { crates: list(vec![library, main]), next_id: s.next_id + 1 };
    let built = build(&program, s.interner, s.names);
    assert_eq!(reported(&built), vec![]);
    assert_eq!(built.namespaces.len(), 2);
    assert_eq!(built.functions[0].namespace, Some(1));
}

#[test]
fn built_program_keeps_the_built_in_types() {
    let mut s = Source::new();
    let item = point(&mut s);
    s.check(vec![item], |built, _| {
        assert_eq!(built.ty(ty::I32), Type::I32);
        assert_eq!(built.ty(ty::CHAR), Type::Char);
        for i in 0..built.types.len() {
            for j in 0..i {
                assert_ne!(built.types[i], built.types[j]);
            }
        }
    });
}

#[test]
fn signature_is_resolved_once() {
    let mut s = Source::new();
    let item = point(&mut s);
    let module = SourceModule { file_id: 0, path: List::Nil, items: list(vec![item]) };
    let only = SourceCrate { name: None, root_file: 0, modules: list(vec![module]) };
    let program = Program { crates: list(vec![only]), next_id: s.next_id + 1 };
    let mut built = build(&program, s.interner, s.names);
    let (types, reports) = (built.types.len(), built.diagnostics.len());
    let id = built.nodes[0].def_id;
    built.ensure_signature(id, 10);
    assert_eq!(built.types.len(), types);
    assert_eq!(built.diagnostics.len(), reports);
    assert_eq!(built.structs[0].fields.len(), 2);
}

// ------------------------------------------------------------------ memories

impl Source {
    /// `trait Memory { type Size; }` and `memory heap: Memory where { Size = u32 }`.
    fn memory(&mut self, name: &str) -> Item {
        let path = self.path("Memory");
        let size = self.name("Size");
        let address = self.ty("u32");
        let binding = ast::WhereBinding { name: size, rhs: ast::BindingExpression::Equals(address) };
        let kind = self.at(BoundExpression::WithBindings {
            path: Box::new(BoundExpression::Path(path)),
            bindings: list(vec![binding]),
        });
        let name = self.name(name);
        let config = Some(ast::MemoryConfig { min_pages: Some(1), max_pages: None });
        Item::Memory { id: self.id(), name, kind, config }
    }

    fn memory_trait(&mut self) -> Item {
        let size = self.assoc_type("Size", None);
        self.interface("Memory", None, vec![size])
    }

    fn pointer(&mut self, mutable: bool, inner: Ty) -> Ty {
        let mutability = if mutable { Some(self.span()) } else { None };
        self.at(TypeExpression::Pointer { mutability, inner: Box::new(inner) })
    }

    fn slice(&mut self, inner: Ty) -> Ty {
        self.at(TypeExpression::Slice { mutability: None, inner: Box::new(inner) })
    }

    fn array(&mut self, size: u32, inner: Ty) -> Ty {
        self.at(TypeExpression::Array { size, mutability: None, inner: Box::new(inner) })
    }

    fn deref(&mut self, pointer: Expr) -> Expr {
        self.at(ast::Expression::Deref { pointer: Box::new(pointer) })
    }

    fn address(&mut self, value: Expr, mutable: bool) -> Expr {
        let mut_span = if mutable { Some(self.span()) } else { None };
        self.at(ast::Expression::AddressOf { value: Box::new(value), mut_span })
    }

    fn index(&mut self, object: Expr, index: Expr) -> Expr {
        self.at(ast::Expression::Index { object: Box::new(object), index: Box::new(index) })
    }

    fn elements(&mut self, elements: Vec<Expr>) -> Expr {
        self.at(ast::Expression::ArrayList { elements: list(elements) })
    }
}

#[test]
fn memory_has_its_address_type() {
    let mut s = Source::new();
    let declaration = s.memory_trait();
    let heap = s.memory("heap");
    s.check(vec![declaration, heap], |built, _| {
        assert_eq!(reported(built), vec![]);
        assert_eq!(built.memories[0].kind, ty::U32);
        assert_eq!(built.memories[0].min_pages, Some(1));
        assert_eq!(built.memories[0].max_pages, None);
        assert_eq!(built.trait_dispatch.len(), 1);
    });
}

#[test]
fn memory_of_an_unknown_kind_is_reported() {
    let mut s = Source::new();
    let heap = s.memory("heap");
    s.check(vec![heap], |built, _| {
        assert_has(built, &Code::InvalidMemoryKind);
    });
}

#[test]
fn pointer_is_read_and_written() {
    let mut s = Source::new();
    let declaration = s.memory_trait();
    let heap = s.memory("heap");
    let inner = s.ty("i32");
    let p = s.pointer(true, inner);
    let target = s.var("p");
    let left = s.deref(target);
    let right = s.number(7);
    let assign = s.binary(BinaryOp::Assign, left, right);
    let assign = s.stmt(assign);
    let result = s.ty("i32");
    let source = s.var("p");
    let read = s.deref(source);
    let read = s.result(read);
    let function = s.function("f", vec![("p", p)], Some(result), vec![assign, read]);
    s.check(vec![declaration, heap, function], |built, _| {
        assert_eq!(reported(built), vec![]);
    });
}

#[test]
fn pointer_without_the_right_to_write_is_not_written() {
    let mut s = Source::new();
    let declaration = s.memory_trait();
    let heap = s.memory("heap");
    let inner = s.ty("i32");
    let p = s.pointer(false, inner);
    let target = s.var("p");
    let left = s.deref(target);
    let right = s.number(7);
    let assign = s.binary(BinaryOp::Assign, left, right);
    let assign = s.stmt(assign);
    let function = s.function("f", vec![("p", p)], None, vec![assign]);
    s.expect(vec![declaration, heap, function], vec![Code::CannotMutateImmutable]);
}

#[test]
fn pointer_needs_a_memory() {
    let mut s = Source::new();
    let inner = s.ty("i32");
    let p = s.pointer(false, inner);
    let function = s.function("f", vec![("_p", p)], None, vec![]);
    s.expect(vec![function], vec![Code::NoMemoryForPointer]);
}

#[test]
fn pointer_with_two_memories_is_ambiguous() {
    let mut s = Source::new();
    let declaration = s.memory_trait();
    let (first, second) = (s.memory("first"), s.memory("second"));
    let inner = s.ty("i32");
    let p = s.pointer(false, inner);
    let function = s.function("f", vec![("_p", p)], None, vec![]);
    s.expect(vec![declaration, first, second, function], vec![Code::AmbiguousPointerMemory]);
}

#[test]
fn dereference_of_a_number_is_reported() {
    let mut s = Source::new();
    let a = s.ty("i32");
    let object = s.var("a");
    let read = s.deref(object);
    let body = vec![s.stmt(read)];
    let function = s.function("f", vec![("a", a)], None, body);
    s.expect(vec![function], vec![Code::CannotDerefNonPointer]);
}

/// `fn f(p: *T) -> *T { p.*.& }` with or without `mut` at each place.
fn address_program(pointee_mutable: bool, address_mutable: bool, expected: Vec<Code>) {
    let mut s = Source::new();
    let declaration = s.memory_trait();
    let heap = s.memory("heap");
    let inner = s.ty("i32");
    let p = s.pointer(pointee_mutable, inner);
    let inner = s.ty("i32");
    let result = s.pointer(address_mutable, inner);
    let object = s.var("p");
    let place = s.deref(object);
    let taken = s.address(place, address_mutable);
    let body = vec![s.result(taken)];
    let function = s.function("f", vec![("p", p)], Some(result), body);
    s.expect(vec![declaration, heap, function], expected);
}

#[test]
fn address_of_a_place_is_a_pointer() {
    address_program(false, false, vec![]);
    address_program(true, false, vec![]);
    address_program(true, true, vec![]);
}

#[test]
fn mutable_address_of_an_immutable_place_is_reported() {
    address_program(false, true, vec![Code::CannotMutateImmutable]);
}

#[test]
fn address_of_a_value_is_reported() {
    let mut s = Source::new();
    let a = s.ty("i32");
    let object = s.var("a");
    let taken = s.address(object, false);
    let body = vec![s.stmt(taken)];
    let function = s.function("f", vec![("a", a)], None, body);
    s.expect(vec![function], vec![Code::InvalidAssignmentTarget]);
}

#[test]
fn slice_is_indexed() {
    let mut s = Source::new();
    let declaration = s.memory_trait();
    let heap = s.memory("heap");
    let inner = s.ty("u8");
    let bytes = s.slice(inner);
    let result = s.ty("u8");
    let (object, place) = (s.var("bytes"), s.number(0));
    let read = s.index(object, place);
    let body = vec![s.result(read)];
    let function = s.function("f", vec![("bytes", bytes)], Some(result), body);
    s.expect(vec![declaration, heap, function], vec![]);
}

#[test]
fn index_into_a_number_is_reported() {
    let mut s = Source::new();
    let a = s.ty("i32");
    let (object, place) = (s.var("a"), s.number(0));
    let read = s.index(object, place);
    let body = vec![s.stmt(read)];
    let function = s.function("f", vec![("a", a)], None, body);
    s.check(vec![function], |built, _| {
        assert_has(built, &Code::IndexOnNonIndexable);
    });
}

#[test]
fn string_literal_is_a_slice_of_bytes() {
    let mut s = Source::new();
    let declaration = s.memory_trait();
    let heap = s.memory("heap");
    let inner = s.ty("u8");
    let result = s.slice(inner);
    let literal = s.at(ast::Expression::String { raw: "\"hi\\n\"".to_string() });
    let body = vec![s.result(literal)];
    let function = s.function("f", vec![], Some(result), body);
    s.check(vec![declaration, heap, function], |built, interner| {
        assert_eq!(reported(built), vec![]);
        let symbol = match body_result(built, 0).kind {
            ExprKind::String { symbol } => symbol,
            _ => panic!("no string"),
        };
        assert_eq!(interner.resolve(symbol), Some("hi\n"));
        assert_eq!(interner.get("\"hi\\n\""), None);
    });
}

#[test]
fn equal_string_literals_share_a_symbol() {
    let mut s = Source::new();
    let declaration = s.memory_trait();
    let heap = s.memory("heap");
    let mut functions = vec![declaration, heap];
    for name in ["f", "g"] {
        let inner = s.ty("u8");
        let result = s.slice(inner);
        let literal = s.at(ast::Expression::String { raw: "\"same\"".to_string() });
        let body = vec![s.result(literal)];
        functions.push(s.function(name, vec![], Some(result), body));
    }
    s.check(functions, |built, _| {
        assert_eq!(reported(built), vec![]);
        let symbols: Vec<Symbol> = [0, 1]
            .iter()
            .map(|&index| match body_result(built, index).kind {
                ExprKind::String { symbol } => symbol,
                _ => panic!("no string"),
            })
            .collect();
        assert_eq!(symbols[0], symbols[1]);
    });
}

#[test]
fn tag_is_unquoted() {
    let mut s = Source::new();
    let name = s.name("tag");
    let value = s.quoted("pointer_size");
    let attribute = ast::Attribute { name, value: ast::AttributeValue::NameValue(value) };
    let set = match s.typeset("Address", vec!["u32", "u64"]) {
        Item::TypeSet { id, pub_span, name, members, .. } => {
            Item::TypeSet { id, pub_span, attributes: list(vec![attribute]), name, members }
        }
        other => other,
    };
    s.check(vec![set], |built, interner| {
        assert_eq!(built.tagged_items.len(), 1);
        assert_eq!(built.tagged_items[0].key, built.names.pointer_size);
        assert_eq!(interner.resolve(built.tagged_items[0].key), Some("pointer_size"));
    });
}

#[test]
fn array_has_the_expected_size() {
    let mut s = Source::new();
    let declaration = s.memory_trait();
    let heap = s.memory("heap");
    let inner = s.ty("i32");
    let result = s.array(2, inner);
    let (one, two) = (s.number(1), s.number(2));
    let literal = s.elements(vec![one, two]);
    let body = vec![s.result(literal)];
    let good = s.function("f", vec![], Some(result), body);
    let inner = s.ty("i32");
    let result = s.array(3, inner);
    let (one, two) = (s.number(1), s.number(2));
    let literal = s.elements(vec![one, two]);
    let body = vec![s.result(literal)];
    let bad = s.function("g", vec![], Some(result), body);
    s.check(vec![declaration, heap, good, bad], |built, _| {
        assert_eq!(reported(built)[0], Code::ArraySizeMismatch);
        let index = built.functions[0].body.as_ref().unwrap().block.ty;
        match built.ty(index) {
            Type::Array { of, size, .. } => {
                assert_eq!(of, ty::I32);
                assert_eq!(size, 2);
            }
            other => panic!("not an array: {:?}", other),
        }
    });
}

// ------------------------------------------------------------------ patterns

#[test]
fn tuple_is_taken_apart() {
    let mut s = Source::new();
    let (first, second) = (s.ty("i32"), s.ty("i32"));
    let pair = s.at(TypeExpression::Tuple { elements: list(vec![first, second]) });
    let (a, b) = (s.name("a"), s.name("b"));
    let a = s.at(ast::Pattern::Binding { mut_span: None, name: a });
    let b = s.at(ast::Pattern::Binding { mut_span: None, name: b });
    let pattern = s.at(ast::Pattern::Tuple { elements: list(vec![a, b]) });
    let value = s.var("pair");
    let definition = Statement {
        span: s.span(),
        kind: StatementKind::LocalDefinition { pattern, ty: None, value: Box::new(value) },
        separated: true,
    };
    let result = s.ty("i32");
    let (left, right) = (s.var("a"), s.var("b"));
    let sum = s.binary(BinaryOp::Add, left, right);
    let sum = s.result(sum);
    let function = s.function("f", vec![("pair", pair)], Some(result), vec![definition, sum]);
    s.expect(vec![function], vec![]);
}

#[test]
fn tuple_pattern_for_a_number_is_reported() {
    let mut s = Source::new();
    let number = s.ty("i32");
    let a = s.name("_a");
    let a = s.at(ast::Pattern::Binding { mut_span: None, name: a });
    let pattern = s.at(ast::Pattern::Tuple { elements: list(vec![a]) });
    let value = s.var("n");
    let definition = Statement {
        span: s.span(),
        kind: StatementKind::LocalDefinition { pattern, ty: None, value: Box::new(value) },
        separated: true,
    };
    let function = s.function("f", vec![("n", number)], None, vec![definition]);
    s.check(vec![function], |built, _| {
        assert_eq!(built.diagnostics.len(), 1, "{:?}", built.diagnostics);
    });
}

#[test]
fn struct_is_taken_apart() {
    let mut s = Source::new();
    let item = point(&mut s);
    let p = s.ty("Point");
    let (x, y) = (s.name("x"), s.name("y"));
    let fields = vec![
        ast::PatternField { name: x, pattern: None },
        ast::PatternField { name: y, pattern: None },
    ];
    let path = s.path("Point");
    let pattern = s.at(ast::Pattern::Struct { path, fields: list(fields), rest: None });
    let value = s.var("p");
    let definition = Statement {
        span: s.span(),
        kind: StatementKind::LocalDefinition { pattern, ty: None, value: Box::new(value) },
        separated: true,
    };
    let result = s.ty("i32");
    let (left, right) = (s.var("x"), s.var("y"));
    let sum = s.binary(BinaryOp::Add, left, right);
    let sum = s.result(sum);
    let function = s.function("f", vec![("p", p)], Some(result), vec![definition, sum]);
    s.expect(vec![item, function], vec![]);
}

// ------------------------------------------------------------------ generic impls

#[test]
fn method_of_a_generic_impl_takes_the_types_of_its_receiver() {
    let mut s = Source::new();
    let param = s.param("T", None);
    let value = s.ty("T");
    let item = s.structure("Cell", vec![param], vec![("value", value)]);
    let block_param = s.param("U", None);
    let argument = s.ty("U");
    let target = s.applied("Cell", vec![argument]);
    let receiver = s.ty("Self");
    let result = s.ty("U");
    let object = s.var("self");
    let read = s.field(object, "value");
    let body = vec![s.result(read)];
    let method = s.member("get", vec![("self", receiver)], Some(result), body);
    let block = Item::InherentImpl {
        id: s.id(),
        type_params: list(vec![block_param]),
        target,
        items: list(vec![method]),
    };
    let argument = s.ty("bool");
    let cell = s.applied("Cell", vec![argument]);
    let result = s.ty("bool");
    let object = s.var("cell");
    let call = s.method(object, "get", vec![]);
    let body = vec![s.result(call)];
    let function = s.function("f", vec![("cell", cell)], Some(result), body);
    s.expect(vec![item, block, function], vec![]);
}

#[test]
fn constant_has_no_place_in_a_generic_impl() {
    let mut s = Source::new();
    let param = s.param("T", None);
    let value = s.ty("T");
    let item = s.structure("Cell", vec![param], vec![("value", value)]);
    let block_param = s.param("U", None);
    let argument = s.ty("U");
    let target = s.applied("Cell", vec![argument]);
    let name = s.name("SIZE");
    let ty = Some(s.ty("i32"));
    let value = s.number(4);
    let place = name.span;
    let constant = ast::ImplItem::Constant { id: s.id(), name, ty, value };
    let block = Item::InherentImpl {
        id: s.id(),
        type_params: list(vec![block_param]),
        target,
        items: list(vec![constant]),
    };
    s.check(vec![item, block], |built, _| {
        let report = &built.diagnostics[0];
        assert_eq!(report.code, None);
        assert_eq!(report.labels.get(0).unwrap().at.span, place);
        assert_eq!(built.constants.len(), 0);
    });
}

#[test]
fn member_of_two_traits_is_ambiguous() {
    let mut s = Source::new();
    let receiver = s.ty("Self");
    let go = s.required("go", vec![("self", receiver)], None);
    let first = s.interface("First", None, vec![go]);
    let receiver = s.ty("Self");
    let go = s.required("go", vec![("self", receiver)], None);
    let second = s.interface("Second", None, vec![go]);
    let mut items = vec![first, second];
    for name in ["First", "Second"] {
        let receiver = s.ty("Self");
        let method = s.member("go", vec![("self", receiver)], None, vec![]);
        let target = s.ty("i32");
        items.push(s.implementation(name, target, vec![method]));
    }
    let a = s.ty("i32");
    let object = s.var("a");
    let call = s.method(object, "go", vec![]);
    let body = vec![s.stmt(call)];
    items.push(s.function("f", vec![("a", a)], None, body));
    s.check(items, |built, _| {
        assert_has(built, &Code::AmbiguousTraitMember);
    });
}

#[test]
fn namespace_is_no_value() {
    let mut s = Source::new();
    let item = point(&mut s);
    let value = s.var("Point");
    let body = vec![s.stmt(value)];
    let function = s.function("f", vec![], None, body);
    s.check(vec![item, function], |built, _| {
        assert_eq!(built.diagnostics.len(), 1, "{:?}", built.diagnostics);
    });
}

#[test]
fn where_clause_is_checked_at_the_call() {
    let mut s = Source::new();
    let shape_item = shape(&mut s);
    let item = s.assoc_type("Item", None);
    let holder = s.interface("Holder", None, vec![item]);
    let value = s.assoc_value("Item", "u8");
    let target = s.ty("bool");
    let implementation = s.implementation("Holder", target, vec![value]);
    let path = s.path("Holder");
    let name = s.name("Item");
    let inner = s.bound("Shape");
    let binding = ast::WhereBinding { name, rhs: ast::BindingExpression::Bound(inner) };
    let bound = s.at(BoundExpression::WithBindings {
        path: Box::new(BoundExpression::Path(path)),
        bindings: list(vec![binding]),
    });
    let name = s.name("T");
    let param = TypeParam { name, bounds: Some(bound) };
    let a = s.ty("T");
    let generic = s.generic_function("take", vec![param], vec![("_a", a)], None, vec![]);
    let b = s.ty("bool");
    let (callee, argument) = (s.var("take"), s.var("b"));
    let call = s.call(callee, vec![argument]);
    let body = vec![s.stmt(call)];
    let function = s.function("f", vec![("b", b)], None, body);
    s.check(vec![shape_item, holder, implementation, generic, function], |built, _| {
        assert_eq!(reported(built), vec![Code::TraitBoundViolation]);
    });
}

// ------------------------------------------------------------------ further reports

#[test]
fn generic_function_cannot_be_exported() {
    let mut s = Source::new();
    let param = s.param("T", None);
    let a = s.ty("T");
    let item = s.generic_function("g", vec![param], vec![("_a", a)], None, vec![]);
    let export = s.export(vec![("g", None)]);
    s.check(vec![item, export], |built, _| {
        assert_has(built, &Code::CannotExportItem);
        assert_eq!(built.exports.len(), 0);
    });
}

#[test]
fn impl_needs_a_trait() {
    let mut s = Source::new();
    let item = point(&mut s);
    let target = s.ty("i32");
    let implementation = s.implementation("Point", target, vec![]);
    s.check(vec![item, implementation], |built, _| {
        assert_eq!(built.diagnostics.len(), 1, "{:?}", built.diagnostics);
        assert_has(built, &Code::ExpectedTrait);
    });
}

#[test]
fn trait_is_no_type() {
    let mut s = Source::new();
    let declaration = shape(&mut s);
    let a = s.ty("Shape");
    let function = s.function("f", vec![("_a", a)], None, vec![]);
    s.check(vec![declaration, function], |built, _| {
        assert_eq!(built.diagnostics.len(), 1, "{:?}", built.diagnostics);
        assert_eq!(built.functions[0].params.get(0).unwrap().ty.inner, ty::ERROR);
    });
}

#[test]
fn match_on_a_struct_is_reported() {
    let mut s = Source::new();
    let item = point(&mut s);
    let p = s.ty("Point");
    let scrutinee = s.var("p");
    let pattern = s.wild();
    let matched = s.matched(scrutinee, vec![(pattern, vec![])]);
    let body = vec![s.stmt(matched)];
    let function = s.function("f", vec![("p", p)], None, body);
    s.expect(vec![item, function], vec![Code::InvalidMatchScrutineeType]);
}

#[test]
fn call_is_no_pattern() {
    let mut s = Source::new();
    let result = s.ty("i32");
    let one = s.number(1);
    let body = vec![s.result(one)];
    let callee = s.function("g", vec![], Some(result), body);
    let a = s.ty("i32");
    let scrutinee = s.var("a");
    let target = s.var("g");
    let pattern = s.call(target, vec![]);
    let other = s.wild();
    let matched = s.matched(scrutinee, vec![(pattern, vec![]), (other, vec![])]);
    let body = vec![s.stmt(matched)];
    let function = s.function("f", vec![("a", a)], None, body);
    s.check(vec![callee, function], |built, _| {
        assert_has(built, &Code::InvalidPattern);
    });
}

#[test]
fn receiver_must_be_of_the_type() {
    let mut s = Source::new();
    let item = point(&mut s);
    let receiver = s.ty("bool");
    let method = s.member("odd", vec![("self", receiver)], None, vec![]);
    let target = s.ty("Point");
    let block = s.inherent(target, vec![method]);
    s.check(vec![item, block], |built, _| {
        assert_has(built, &Code::InvalidSelfType);
    });
}

#[test]
fn function_of_a_type_is_no_method() {
    let mut s = Source::new();
    let item = point(&mut s);
    let member = s.member("make", vec![], None, vec![]);
    let target = s.ty("Point");
    let block = s.inherent(target, vec![member]);
    let p = s.ty("Point");
    let object = s.var("p");
    let call = s.method(object, "make", vec![]);
    let body = vec![s.stmt(call)];
    let function = s.function("f", vec![("p", p)], None, body);
    s.check(vec![item, block, function], |built, _| {
        assert_has(built, &Code::NotAMethod);
    });
}

#[test]
fn integer_literal_is_no_float() {
    let mut s = Source::new();
    let result = s.ty("f32");
    let one = s.number(1);
    let body = vec![s.result(one)];
    let function = s.function("f", vec![], Some(result), body);
    s.check(vec![function], |built, _| {
        assert_has(built, &Code::LiteralTypeMismatch);
    });
}

#[test]
fn literal_does_not_become_a_bool() {
    let mut s = Source::new();
    let result = s.ty("bool");
    let one = s.number(1);
    let body = vec![s.result(one)];
    let function = s.function("f", vec![], Some(result), body);
    s.check(vec![function], |built, _| {
        assert_has(built, &Code::UnableToCoerce);
    });
}

#[test]
fn field_that_is_never_read_is_reported() {
    let mut s = Source::new();
    let name = s.name("Holder");
    let field = s.name("hidden");
    let ty = s.ty("i32");
    let item = Item::Struct {
        id: s.id(),
        pub_span: Some(s.span()),
        attributes: List::Nil,
        name,
        type_params: List::Nil,
        fields: list(vec![ast::StructField { pub_span: None, name: field, ty }]),
    };
    let one = s.number(1);
    let init = s.init("Holder", vec![("hidden", one)]);
    let body = vec![s.local("_h", None, init)];
    let function = s.function("f", vec![], None, body);
    s.expect(vec![item, function], vec![Code::UnusedStructField]);
}

#[test]
fn parameter_has_one_typeset() {
    let mut s = Source::new();
    let first = s.typeset("First", vec!["u32"]);
    let second = s.typeset("Second", vec!["u64"]);
    let (a, b) = (s.bound("First"), s.bound("Second"));
    let both = s.at(BoundExpression::BoundList(list(vec![a, b])));
    let name = s.name("T");
    let param = TypeParam { name, bounds: Some(both) };
    let value = s.ty("T");
    let function = s.generic_function("f", vec![param], vec![("_a", value)], None, vec![]);
    s.check(vec![first, second, function], |built, _| {
        assert_has(built, &Code::MultipleTypesetBounds);
    });
}

#[test]
fn impl_for_a_function_type_is_reported() {
    let mut s = Source::new();
    let declaration = s.interface("Marker", None, vec![]);
    let target = s.at(TypeExpression::Function { params: List::Nil, result: None });
    let implementation = s.implementation("Marker", target, vec![]);
    s.check(vec![declaration, implementation], |built, _| {
        assert_has(built, &Code::InvalidImplTarget);
        assert_eq!(built.trait_dispatch.len(), 0);
    });
}

#[test]
fn repeat_count_must_be_known() {
    let mut s = Source::new();
    let declaration = s.memory_trait();
    let heap = s.memory("heap");
    let n = s.ty("u32");
    let inner = s.ty("i32");
    let result = s.array(2, inner);
    let (value, count) = (s.number(0), s.var("n"));
    let repeat =
        s.at(ast::Expression::ArrayRepeat { value: Box::new(value), count: Box::new(count) });
    let body = vec![s.result(repeat)];
    let function = s.function("f", vec![("n", n)], Some(result), body);
    s.check(vec![declaration, heap, function], |built, _| {
        assert_has(built, &Code::ArrayRepeatCountNotConst);
    });
}

#[test]
fn member_of_one_trait_is_looked_up() {
    let mut s = Source::new();
    let declaration = shape(&mut s);
    let implementation = shape_for(&mut s, "i32", 4);
    let (area, other) = (s.symbol("area"), s.symbol("volume"));
    s.check(vec![declaration, implementation], |built, _| {
        let found = built.resolve_trait_member(ty::I32, 0, area);
        assert!(found.is_ok());
        assert!(matches!(
            built.resolve_trait_member(ty::BOOL, 0, area),
            Err(TraitMemberError::NotImplemented)
        ));
        assert!(matches!(
            built.resolve_trait_member(ty::I32, 0, other),
            Err(TraitMemberError::NoSuchMember)
        ));
    });
}

#[test]
fn local_shadows_an_earlier_one() {
    let mut s = Source::new();
    let (ty, value) = (s.ty("i32"), s.number(1));
    let first = s.local("x", Some(ty), value);
    let ty = s.ty("bool");
    let old = s.var("x");
    let one = s.number(1);
    let same = s.binary(BinaryOp::Eq, old, one);
    let second = s.local("x", Some(ty), same);
    let result = s.ty("bool");
    let read = s.var("x");
    let read = s.result(read);
    let function = s.function("f", vec![], Some(result), vec![first, second, read]);
    s.expect(vec![function], vec![]);
}

#[test]
fn use_through_a_bound_reaches_every_impl() {
    let mut s = Source::new();
    let receiver = s.ty("Self");
    let go = s.required("go", vec![("self", receiver)], None);
    let declaration = s.interface("Runner", None, vec![go]);
    let mut items = vec![declaration];
    for target in ["i32", "bool"] {
        let receiver = s.ty("Self");
        let signature = s.signature("go", vec![], vec![("self", receiver)], None);
        let block = s.at(List::Nil);
        let method = ast::ImplItem::Function {
            id: s.id(),
            pub_span: None,
            attributes: List::Nil,
            signature,
            block,
        };
        let target = s.ty(target);
        items.push(s.implementation("Runner", target, vec![method]));
    }
    let param = s.param("T", Some("Runner"));
    let a = s.ty("T");
    let object = s.var("a");
    let call = s.method(object, "go", vec![]);
    let body = vec![s.stmt(call)];
    items.push(s.generic_function("f", vec![param], vec![("a", a)], None, body));
    s.expect(items, vec![]);
}

// ------------------------------------------------------------------ poisoned aliases

#[test]
fn alias_with_too_few_arguments_keeps_its_struct() {
    let mut s = Source::new();
    let (first, second) = (s.param("A", None), s.param("B", None));
    let (a, b) = (s.ty("A"), s.ty("B"));
    let item = s.structure("Pair", vec![first, second], vec![("a", a), ("b", b)]);
    let param = s.param("T", None);
    let (t, i) = (s.ty("T"), s.ty("i32"));
    let template = s.applied("Pair", vec![t, i]);
    let alias = s.alias("Half", vec![param], template);
    let (x, y) = (s.ty("u8"), s.ty("u8"));
    let written = s.applied("Half", vec![x, y]);
    let function = s.function("f", vec![("_p", written)], None, vec![]);
    s.check(vec![item, alias, function], |built, _| {
        assert_eq!(reported(built), vec![Code::TypeArgCountMismatch]);
        let index = built.functions[0].params.get(0).unwrap().ty.inner;
        assert_eq!(
            built.ty(index),
            Type::Struct { struct_index: 0, args: list(vec![ty::ERROR, ty::I32]) }
        );
    });
}

#[test]
fn bare_alias_in_a_signature_is_poisoned() {
    let mut s = Source::new();
    let only = s.param("A", None);
    let a = s.ty("A");
    let item = s.structure("Box", vec![only], vec![("a", a)]);
    let param = s.param("T", None);
    let t = s.ty("T");
    let template = s.applied("Box", vec![t]);
    let alias = s.alias("Own", vec![param], template);
    let written = s.ty("Own");
    let function = s.function("f", vec![("_p", written)], None, vec![]);
    s.check(vec![item, alias, function], |built, _| {
        assert_eq!(reported(built), vec![Code::TypeArgCountMismatch]);
        let index = built.functions[0].params.get(0).unwrap().ty.inner;
        assert_eq!(
            built.ty(index),
            Type::Struct { struct_index: 0, args: list(vec![ty::ERROR]) }
        );
    });
}

// ------------------------------------------------------------------ private fields

impl Source {
    fn with_private_field(&mut self, name: &str, field: &str, ty: &str) -> Item {
        let ty = self.ty(ty);
        let name = self.name(name);
        let fields = list(vec![ast::StructField { pub_span: None, name: self.name(field), ty }]);
        Item::Struct {
            id: self.id(),
            pub_span: Some(self.span()),
            attributes: List::Nil,
            name,
            type_params: List::Nil,
            fields,
        }
    }

    fn reader(&mut self, name: &str, path: &str, field: &str, result: &str) -> Item {
        let (p, result) = (self.ty(path), self.ty(result));
        let object = self.var("p");
        let value = self.field(object, field);
        let body = vec![self.result(value)];
        self.function(name, vec![("p", p)], Some(result), body)
    }
}

#[test]
fn private_field_is_reported_from_outside_and_keeps_its_type() {
    let mut s = Source::new();
    let item = s.with_private_field("Secret", "code", "i32");
    let inside = s.reader("inside", "Secret", "code", "i32");
    let module = s.module("vault", vec![item, inside]);
    let outside = s.reader("outside", "vault::Secret", "code", "i32");
    s.check(vec![module, outside], |built, _| {
        assert_eq!(reported(built), vec![Code::PrivateField]);
        assert_eq!(built.diagnostics[0].labels.len(), 2);
        let last = built.functions.len() - 1;
        assert_eq!(body_result(built, last).ty, ty::I32);
    });
}

#[test]
fn private_field_is_accessible_below_its_namespace() {
    let mut s = Source::new();
    let item = s.with_private_field("Secret", "code", "i32");
    let below = s.reader("below", "Secret", "code", "i32");
    let inner = s.module("deep", vec![below]);
    let module = s.module("vault", vec![item, inner]);
    s.expect(vec![module], vec![]);
}

#[test]
fn private_field_is_not_accessible_beside_its_namespace() {
    let mut s = Source::new();
    let item = s.with_private_field("Secret", "code", "i32");
    let inside = s.reader("inside", "Secret", "code", "i32");
    let module = s.module("vault", vec![item, inside]);
    let beside = s.reader("beside", "vault::Secret", "code", "i32");
    let other = s.module("street", vec![beside]);
    s.expect(vec![module, other], vec![Code::PrivateField]);
}

#[test]
fn private_field_is_not_initialised_from_outside() {
    let mut s = Source::new();
    let item = s.with_private_field("Secret", "code", "i32");
    let inside = s.reader("inside", "Secret", "code", "i32");
    let module = s.module("vault", vec![item, inside]);
    let result = s.ty("vault::Secret");
    let value = s.number(3);
    let made = s.init("vault::Secret", vec![("code", value)]);
    let body = vec![s.result(made)];
    let function = s.function("make", vec![], Some(result), body);
    s.expect(vec![module, function], vec![Code::PrivateField]);
}

#[test]
fn public_field_is_accessible_from_outside() {
    let mut s = Source::new();
    let ty = s.ty("i32");
    let item = s.structure("Open", vec![], vec![("code", ty)]);
    let module = s.module("vault", vec![item]);
    let outside = s.reader("outside", "vault::Open", "code", "i32");
    s.expect(vec![module, outside], vec![]);
}

#[test]
fn namespace_comes_after_the_one_around_it() {
    let mut s = Source::new();
    let innermost = s.module("innermost", vec![]);
    let inner = s.module("inner", vec![innermost]);
    let outer = s.module("outer", vec![inner]);
    let other = s.module("other", vec![]);
    s.check(vec![outer, other], |built, _| {
        let parents: Vec<Option<usize>> = built.namespaces.iter().map(|n| n.parent).collect();
        assert_eq!(parents, vec![None, Some(0), Some(1), None]);
        assert!(built.is_within(Some(2), Some(0)));
        assert!(built.is_within(Some(3), None));
        assert!(!built.is_within(Some(2), Some(3)));
    });
}

#[test]
fn scope_of_a_body_comes_after_the_one_around_it() {
    let mut s = Source::new();
    let stop = s.brk(None, None);
    let body = vec![s.stmt(stop)];
    let inner = s.looped(body);
    let stop = s.brk(None, None);
    let body = vec![s.stmt(inner), s.stmt(stop)];
    let outer = s.looped(body);
    let body = vec![s.stmt(outer)];
    let function = s.function("f", vec![], None, body);
    s.check(vec![function], |built, _| {
        let body = built.functions[0].body.as_ref().unwrap();
        assert_eq!(body.stack.scopes.len(), 3);
        assert_eq!(body.stack.scopes.get(0).unwrap().parent, None);
        assert_eq!(body.stack.scopes.get(1).unwrap().parent, Some(0));
        assert_eq!(body.stack.scopes.get(2).unwrap().parent, Some(1));
    });
}

// ------------------------------------------------------------------ required members

#[test]
fn missing_associated_function_is_reported() {
    let mut s = Source::new();
    let result = s.ty("Self");
    let make = s.required("make", vec![], Some(result));
    let declaration = s.interface("Made", None, vec![make]);
    let target = s.ty("i32");
    let implementation = s.implementation("Made", target, vec![]);
    s.expect(vec![declaration, implementation], vec![Code::MissingTraitImplItem]);
}

#[test]
fn provided_associated_function_is_accepted() {
    let mut s = Source::new();
    let result = s.ty("Self");
    let make = s.required("make", vec![], Some(result));
    let declaration = s.interface("Made", None, vec![make]);
    let result = s.ty("i32");
    let value = s.number(7);
    let body = vec![s.result(value)];
    let given = s.member("make", vec![], Some(result), body);
    let target = s.ty("i32");
    let implementation = s.implementation("Made", target, vec![given]);
    s.check(vec![declaration, implementation], |built, _| {
        assert!(!reported(built).contains(&Code::MissingTraitImplItem));
    });
}

#[test]
fn constant_is_no_fallback() {
    let mut s = Source::new();
    let value = s.number(3);
    let item = s.constant("LIMIT", "i32", value);
    s.check(vec![item], |built, _| {
        assert!(built.constants[0].value.is_some());
        assert!(!built.entry_has_body(ImplEntry::AssocConstant(0)));
        assert!(!built.entry_has_body(ImplEntry::AssocType { ty: ty::I32 }));
    });
}

// ------------------------------------------------------------------ shared values

fn variant(start: u32, value: Option<i64>) -> EnumVariant {
    EnumVariant {
        name: Spanned { inner: start, span: TextSpan { start, end: start + 1 } },
        value: None,
        const_value: value,
    }
}

#[test]
fn shared_values_are_reported_in_source_order() {
    let mut s = Source::new();
    let names = s.interner.well_known();
    let mut builder = Builder::new(s.interner, names, 0);
    let context = ResolveContext::new(0, None);
    let variants = list(vec![
        variant(40, Some(1)),
        variant(10, Some(2)),
        variant(50, Some(1)),
        variant(30, Some(2)),
        variant(20, Some(3)),
        variant(60, None),
    ]);
    builder.report_enum_duplicate_values(context, TextSpan { start: 1, end: 2 }, &variants);
    assert_eq!(reported(&builder), vec![Code::EnumDuplicateValue, Code::EnumDuplicateValue]);
    let places: Vec<u32> = (0..2)
        .map(|i| builder.diagnostics[i].labels.get(1).unwrap().at.span.start)
        .collect();
    assert_eq!(places, vec![10, 40]);
    assert_eq!(builder.diagnostics[0].labels.len(), 3);
    assert_eq!(builder.diagnostics[1].labels.len(), 3);
}

// ------------------------------------------------------------------ branches

#[test]
fn functions_agree_in_both_orders() {
    let mut s = Source::new();
    let mut items = vec![];
    for name in ["f", "g"] {
        let (a, result) = (s.ty("i32"), s.ty("i32"));
        let value = s.var("a");
        let body = vec![s.result(value)];
        items.push(s.function(name, vec![("a", a)], Some(result), body));
    }
    items.push(s.function("h", vec![], None, vec![]));
    let module = SourceModule { file_id: 0, path: List::Nil, items: list(items) };
    let only = SourceCrate { name: None, root_file: 0, modules: list(vec![module]) };
    let program = Program { crates: list(vec![only]), next_id: s.next_id + 1 };
    let mut built = build(&program, s.interner, s.names);
    let mut found = vec![];
    for index in 0..3 {
        let id = built.functions[index].id;
        found.push(built.intern_type(Type::FunctionItem { id, type_args: List::Nil }));
    }
    let common = built.unify(found[0], found[1]);
    assert!(common.is_some());
    assert_eq!(built.unify(found[1], found[0]), common);
    assert_eq!(built.unify(found[0], found[2]), None);
    assert_eq!(built.unify(found[2], found[0]), None);
}
