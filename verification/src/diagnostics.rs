//! Diagnostics as plain values: a severity, a code, a message made of pieces,
//! the labelled places and the notes.

use vstd::prelude::*;

use crate::list::{cons, single, List};
use crate::span::{FileId, SourceSpan, Symbol, TextSpan};
use crate::types::TypeIndex;

verus! {

/// What a diagnostic is about.
#[derive(Clone, Copy, Debug, PartialEq, Eq, Structural)]
pub enum DiagnosticCode {
    AmbiguousPointerMemory,
    AmbiguousTraitMember,
    ArgumentCountMismatch,
    ArrayElementNotConst,
    ArrayRepeatCountNotConst,
    ArraySizeMismatch,
    AssociatedTypeInInherentImpl,
    BinaryOperatorCannotBeApplied,
    BreakOutsideOfLoop,
    CannotCallExpression,
    CannotDerefNonPointer,
    CannotExportItem,
    CannotMutateImmutable,
    ComparisonTypeAnnotationRequired,
    ContinueOutsideOfLoop,
    CyclicTypeDependency,
    DuplicateAssocTypeBinding,
    DuplicateDefinition,
    DuplicateExport,
    DuplicateStructField,
    DuplicateStructFieldInit,
    DuplicateTraitImpl,
    EnumDuplicateValue,
    EnumReprNotInteger,
    ExpectedTrait,
    ExpectedTraitBound,
    IndexOnNonIndexable,
    InferInSignature,
    IntegerLiteralOutOfRange,
    InvalidAssignmentTarget,
    InvalidCast,
    InvalidImplTarget,
    InvalidLiteral,
    InvalidMatchScrutineeType,
    InvalidMemoryKind,
    InvalidPattern,
    InvalidSelfType,
    LiteralTypeMismatch,
    MethodNotFound,
    MissingElseBlock,
    MissingEnumRepr,
    MissingFunctionBody,
    MissingImportAlias,
    MissingStructFields,
    MissingSupertraitImpl,
    MissingTraitImplItem,
    MultipleTypesetBounds,
    NamespaceUsedAsValue,
    NoMemoryForPointer,
    NonConstantGlobalInitializer,
    NonExhaustiveMatch,
    NotAField,
    NotAMethod,
    NotATraitMember,
    NotConstEvaluatable,
    PrivateField,
    TraitBoundViolation,
    TypeAnnotationRequired,
    TypeArgCountMismatch,
    TypeMistmatch,
    TypesetBoundViolation,
    TypesetMemberNotInteger,
    UnableToCoerce,
    UnaryOperatorCannotBeApplied,
    UndeclaredIdentifier,
    UndeclaredLabel,
    UndeclaredType,
    UnknownStructField,
    UnnecessaryMutability,
    UnreachableCode,
    UnreachableMatchArm,
    UnusedEnumVariant,
    UnusedItem,
    UnusedLabel,
    UnusedStructField,
    UnusedTypeParam,
    UnusedValue,
    UnusedVariable,
}

#[derive(Clone, Copy, Debug, PartialEq, Eq, Structural)]
pub enum Severity {
    Error,
    Warning,
}

/// A part of a message: fixed text, or a value that is written out when the
/// message is shown.
#[derive(Clone, Copy, Debug, PartialEq, Eq)]
pub enum Piece {
    /// Fixed text.
    Text(&'static str),
    /// The text of an interned name.
    Name(Symbol),
    /// A type, written as in the source language.
    Type(TypeIndex),
    /// A signed number in decimal.
    Int(i64),
    /// A count in decimal.
    Count(usize),
    /// The largest value of an integer range in decimal.
    Limit(u64),
}

/// A message: its pieces are written one after the other.
pub type Message = List<Piece>;

#[derive(Clone, Copy, Debug, PartialEq, Eq, Structural)]
pub enum LabelStyle {
    Primary,
    Secondary,
}

/// A place that a diagnostic points at.
#[derive(Debug, PartialEq, Eq)]
pub struct Label {
    pub style: LabelStyle,
    pub at: SourceSpan,
    pub message: Message,
}

#[derive(Debug, PartialEq, Eq)]
pub struct Diagnostic {
    pub severity: Severity,
    pub code: Option<DiagnosticCode>,
    pub message: Message,
    pub labels: List<Label>,
    pub notes: List<Message>,
}

/// The message that is `text` alone.
#[verifier::allow_in_spec]
pub fn text(text: &'static str) -> (result: Message)
    returns
        single(Piece::Text(text)),
{
    single(Piece::Text(text))
}

/// The message that starts with `before` and `value` and goes on with `rest`.
#[verifier::allow_in_spec]
pub fn with_piece(before: &'static str, value: Piece, rest: Message) -> (result: Message)
    returns
        cons(Piece::Text(before), cons(value, rest)),
{
    cons(Piece::Text(before), cons(value, rest))
}

impl SourceSpan {
    #[verifier::allow_in_spec]
    pub fn primary_label(self) -> (result: Label)
        returns
            (Label { style: LabelStyle::Primary, at: self, message: List::Nil }),
    {
        Label { style: LabelStyle::Primary, at: self, message: List::Nil }
    }

    #[verifier::allow_in_spec]
    pub fn secondary_label(self) -> (result: Label)
        returns
            (Label { style: LabelStyle::Secondary, at: self, message: List::Nil }),
    {
        Label { style: LabelStyle::Secondary, at: self, message: List::Nil }
    }
}

impl Label {
    #[verifier::allow_in_spec]
    pub fn primary(file_id: FileId, span: TextSpan) -> (result: Label)
        returns
            SourceSpan::new(file_id, span).primary_label(),
    {
        SourceSpan::new(file_id, span).primary_label()
    }

    #[verifier::allow_in_spec]
    pub fn secondary(file_id: FileId, span: TextSpan) -> (result: Label)
        returns
            SourceSpan::new(file_id, span).secondary_label(),
    {
        SourceSpan::new(file_id, span).secondary_label()
    }

    #[verifier::allow_in_spec]
    pub fn with_message(self, message: Message) -> (result: Label)
        returns
            (Label { style: self.style, at: self.at, message }),
    {
        Label { style: self.style, at: self.at, message }
    }
}

impl Diagnostic {
    #[verifier::allow_in_spec]
    pub fn error() -> (result: Diagnostic)
        returns
            (Diagnostic {
                severity: Severity::Error,
                code: None,
                message: List::Nil,
                labels: List::Nil,
                notes: List::Nil,
            }),
    {
        Diagnostic {
            severity: Severity::Error,
            code: None,
            message: List::Nil,
            labels: List::Nil,
            notes: List::Nil,
        }
    }

    #[verifier::allow_in_spec]
    pub fn warning() -> (result: Diagnostic)
        returns
            (Diagnostic {
                severity: Severity::Warning,
                code: None,
                message: List::Nil,
                labels: List::Nil,
                notes: List::Nil,
            }),
    {
        Diagnostic {
            severity: Severity::Warning,
            code: None,
            message: List::Nil,
            labels: List::Nil,
            notes: List::Nil,
        }
    }

    #[verifier::allow_in_spec]
    pub fn with_code(self, code: DiagnosticCode) -> (result: Diagnostic)
        returns
            (Diagnostic { code: Some(code), ..self }),
    {
        Diagnostic { code: Some(code), ..self }
    }

    #[verifier::allow_in_spec]
    pub fn with_message(self, message: Message) -> (result: Diagnostic)
        returns
            (Diagnostic { message, ..self }),
    {
        Diagnostic { message, ..self }
    }

    /// Adds a label after those already there.
    #[verifier::allow_in_spec]
    pub fn with_label(self, label: Label) -> (result: Diagnostic)
        returns
            (Diagnostic { labels: self.labels.snoc(label), ..self }),
    {
        Diagnostic { labels: self.labels.push(label), ..self }
    }

    /// Adds a note after those already there.
    #[verifier::allow_in_spec]
    pub fn with_note(self, note: Message) -> (result: Diagnostic)
        returns
            (Diagnostic { notes: self.notes.snoc(note), ..self }),
    {
        Diagnostic { notes: self.notes.push(note), ..self }
    }
}

} // verus!
