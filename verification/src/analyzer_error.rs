use vstd::prelude::*;
use crate::location::Location;

verus! {

/// What went wrong while analyzing an expression.
#[derive(Debug, Clone, Copy, PartialEq, Eq, Structural)]
pub enum AnalyzerErrorKind {
    DeclarationTypeNotFound,
    TypeNotFound,
    NotAStructType,
    StructFieldMissing,
    StructHasExtraFields,
    ReturnTypeMismatch,
    ContinueOutsideLoop,
    BreakOutsideLoop,
    IfConditionNotBool,
    IfBranchTypeMismatch,
    IfWithoutElseNotUnit,
    LoopInitNotUnit,
    LoopConditionNotBool,
    LoopStepNotUnitOrInteger,
    LoopBodyNotUnit,
    BreakTypeMismatch,
    DeclarationTypeMismatch,
    VariableAlreadyDeclared,
    StructFieldTypeMismatch,
    MathUnaryNotInteger,
    LogicalNotNotBool,
    InvalidBorrow,
    DereferenceNotPointer,
    InvalidIncrement,
    IncrementNotInteger,
    InvalidDecrement,
    DecrementNotInteger,
    CastTypeNotFound,
    InvalidCast,
    MemberOfNonStruct,
    MemberNotFound,
    IndexNotInteger,
    IndexNotPointer,
    MathLeftNotInteger,
    MathOperandMismatch,
    LogicLeftNotBool,
    LogicRightNotBool,
    ComparisonNotComparable,
    ComparisonOperandMismatch,
    InvalidAssign,
    AssignTypeMismatch,
    InvalidMathAssign,
    MathAssignNotInteger,
    MathAssignTypeMismatch,
    InvalidLogicAssign,
    LogicAssignLeftNotBool,
    LogicAssignRightNotBool,
    SizeofTypeNotFound,
    GenericArgumentNotFound,
    FunctionNotFound,
    EnumVariantNotFound,
    ExpectedModuleLocal,
    VariableOrFunctionNotFound,
    ExpectedCallable,
    AmbiguousGenericArgument,
    TypeMismatch,
    NotAssignable,
}

/// An analysis error: its kind, where it was found, the text of the names and types it
/// reports and, for errors reported while analyzing a part of an expression, the error
/// of that part.
#[derive(Debug)]
pub struct AnalyzerError {
    pub kind: AnalyzerErrorKind,
    pub location: Location,
    pub cause: Option<Box<AnalyzerError>>,
    pub details: Vec<String>,
}

/// Model of an analysis error.
pub struct ErrorView {
    pub kind: AnalyzerErrorKind,
    pub location: Location,
    pub cause: Option<Box<ErrorView>>,
    pub details: Seq<Seq<char>>,
}

/// The texts of strings.
pub open spec fn texts(s: Seq<String>) -> Seq<Seq<char>> {
    Seq::new(s.len(), |i: int| s[i]@)
}

#[verifier::opaque]
pub open spec fn error_view(e: AnalyzerError) -> ErrorView
    decreases e,
{
    ErrorView {
        kind: e.kind,
        location: e.location,
        cause: match e.cause {
            Some(c) => Some(Box::new(error_view(*c))),
            None => None,
        },
        details: texts(e.details@),
    }
}

impl View for AnalyzerError {
    type V = ErrorView;

    open spec fn view(&self) -> ErrorView {
        error_view(*self)
    }
}

/// An error that reports the given texts and has no underlying cause.
pub open spec fn error_with(kind: AnalyzerErrorKind, location: Location, details: Seq<Seq<char>>) -> ErrorView {
    ErrorView { kind, location, cause: None, details }
}

/// An error with no underlying cause that reports nothing more.
pub open spec fn error_at(kind: AnalyzerErrorKind, location: Location) -> ErrorView {
    error_with(kind, location, Seq::empty())
}

pub fn make_error(kind: AnalyzerErrorKind, location: &Location) -> (e: AnalyzerError)
    ensures
        e@ == error_at(kind, *location),
{
    let e = AnalyzerError { kind, location: *location, cause: None, details: Vec::new() };
    proof {
        reveal_with_fuel(error_view, 1);
    }
    assert(texts(e.details@) =~= Seq::<Seq<char>>::empty());
    e
}

/// An error that reports the texts `details`.
pub fn make_error_with(kind: AnalyzerErrorKind, location: &Location, details: Vec<String>) -> (e: AnalyzerError)
    ensures
        e@ == error_with(kind, *location, texts(details@)),
{
    let e = AnalyzerError { kind, location: *location, cause: None, details };
    proof {
        reveal_with_fuel(error_view, 1);
    }
    e
}

/// An error that reports one text.
pub fn make_error1(kind: AnalyzerErrorKind, location: &Location, a: String) -> (e: AnalyzerError)
    ensures
        e@ == error_with(kind, *location, seq![a@]),
{
    let ghost t = a@;
    let mut details: Vec<String> = Vec::new();
    details.push(a);
    assert(texts(details@) =~= seq![t]);
    make_error_with(kind, location, details)
}

/// An error that reports two texts.
pub fn make_error2(kind: AnalyzerErrorKind, location: &Location, a: String, b: String) -> (e: AnalyzerError)
    ensures
        e@ == error_with(kind, *location, seq![a@, b@]),
{
    let ghost ta = a@;
    let ghost tb = b@;
    let mut details: Vec<String> = Vec::new();
    details.push(a);
    details.push(b);
    assert(texts(details@) =~= seq![ta, tb]);
    make_error_with(kind, location, details)
}

/// An error that reports three texts.
pub fn make_error3(kind: AnalyzerErrorKind, location: &Location, a: String, b: String, c: String) -> (e:
    AnalyzerError)
    ensures
        e@ == error_with(kind, *location, seq![a@, b@, c@]),
{
    let ghost ta = a@;
    let ghost tb = b@;
    let ghost tc = c@;
    let mut details: Vec<String> = Vec::new();
    details.push(a);
    details.push(b);
    details.push(c);
    assert(texts(details@) =~= seq![ta, tb, tc]);
    make_error_with(kind, location, details)
}

/// An error that reports a failure to analyze a part of an expression.
pub open spec fn error_with_cause(kind: AnalyzerErrorKind, location: Location, cause: ErrorView) -> ErrorView {
    ErrorView { kind, location, cause: Some(Box::new(cause)), details: Seq::empty() }
}

pub fn wrap_error(kind: AnalyzerErrorKind, location: &Location, cause: AnalyzerError) -> (e: AnalyzerError)
    ensures
        e@ == error_with_cause(kind, *location, cause@),
{
    let e = AnalyzerError { kind, location: *location, cause: Some(Box::new(cause)), details: Vec::new() };
    proof {
        reveal_with_fuel(error_view, 2);
    }
    assert(texts(e.details@) =~= Seq::<Seq<char>>::empty());
    e
}

} // verus!
