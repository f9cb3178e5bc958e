//! What can go wrong with a request.

use vstd::prelude::*;

verus! {

/// `hyper::Error`, a failure of the transport. It is carried, never read.
#[verifier::external_type_specification]
#[verifier::external_body]
pub struct ExHttpError(hyper::Error);

/// `hyper::error::UriError`, why a text is no URI. It is carried, never read.
#[verifier::external_type_specification]
#[verifier::external_body]
pub struct ExUriError(hyper::error::UriError);

/// `serde_json::Error`, the diagnostic of the reader of JSON texts. It is
/// carried, never read.
#[verifier::external_type_specification]
#[verifier::external_body]
pub struct ExSyntaxError(serde_json::Error);

/// `std::io::Error`. It is carried, never read.
#[verifier::external_type_specification]
#[verifier::external_body]
pub struct ExIoError(std::io::Error);

/// One step on the way from a document to a value inside it.
#[derive(Debug, PartialEq)]
pub enum Step {
    /// Into the member of this name.
    Member(String),
    /// Into the item at this place.
    Item(usize),
}

/// The mathematical value of a [`Step`].
pub enum StepView {
    Member(Seq<char>),
    Item(usize),
}

impl DeepView for Step {
    type V = StepView;

    open spec fn deep_view(&self) -> StepView {
        match self {
            Step::Member(name) => StepView::Member(name@),
            Step::Item(place) => StepView::Item(*place),
        }
    }
}

impl View for Step {
    type V = StepView;

    open spec fn view(&self) -> StepView {
        self.deep_view()
    }
}

/// What is wrong with a value in a document.
#[derive(Debug, PartialEq)]
pub enum Problem {
    /// A member that has to be there is not.
    Missing,
    /// The value is of another kind than the one asked for.
    Mistyped,
    /// The name of the member occurs more than once in its object.
    Repeated,
}

/// Why a document does not have the shape asked for: the way to the first
/// value that is at fault, and what is wrong with it.
#[derive(Debug, PartialEq)]
pub struct SchemaError {
    /// The steps from the document to the value, outermost first. For a
    /// missing member, the last step names it.
    pub path: Vec<Step>,
    pub problem: Problem,
}

/// The mathematical value of a [`SchemaError`].
pub struct SchemaErrorView {
    pub path: Seq<StepView>,
    pub problem: Problem,
}

impl DeepView for SchemaError {
    type V = SchemaErrorView;

    open spec fn deep_view(&self) -> SchemaErrorView {
        SchemaErrorView { path: self.path.deep_view(), problem: self.problem }
    }
}

impl View for SchemaError {
    type V = SchemaErrorView;

    open spec fn view(&self) -> SchemaErrorView {
        self.deep_view()
    }
}

/// The fault `problem` in the value at hand.
pub open spec fn here(problem: Problem) -> SchemaErrorView {
    SchemaErrorView { path: seq![], problem }
}

/// The fault `fault`, found one step further in.
pub open spec fn under(step: StepView, fault: SchemaErrorView) -> SchemaErrorView {
    SchemaErrorView { path: seq![step] + fault.path, problem: fault.problem }
}

impl SchemaError {
    /// The fault `problem` in the value at hand.
    pub fn here(problem: Problem) -> (r: SchemaError)
        ensures
            r@ == here(problem),
    {
        let r = SchemaError { path: Vec::new(), problem };
        assert(r@.path =~= seq![]);
        r
    }

    /// This fault, seen from one step further out.
    pub fn under(self, step: Step) -> (r: SchemaError)
        ensures
            r@ == under(step@, self@),
    {
        let SchemaError { mut path, problem } = self;
        let ghost before = path.deep_view();
        let ghost first = step@;
        path.insert(0, step);
        let r = SchemaError { path, problem };
        assert(r@.path =~= seq![first] + before);
        r
    }
}

/// Why a body could not be decoded.
#[derive(Debug)]
pub enum CodecError {
    /// The body holds no JSON document; the reader's diagnostic says why.
    Syntax(serde_json::Error),
    /// The body holds a JSON document, but not one of the shape asked for.
    Schema(SchemaError),
}

/// The kinds of failure.
#[derive(Debug)]
pub enum ErrorKind {
    /// A failure that is only described in words. The service's refusal of a
    /// request is reported this way.
    Msg(String),
    /// The body of a response could not be decoded.
    Codec(CodecError),
    /// The transport failed.
    Http(hyper::Error),
    /// An I/O failure next to the transport, handed through as it came.
    IO(std::io::Error),
    /// The address of the request is no URI.
    URI(hyper::error::UriError),
}

/// A failed request.
#[derive(Debug)]
pub struct ApiError(pub ErrorKind);

/// The outcome of a request.
pub type Result<T> = core::result::Result<T, ApiError>;

impl ApiError {
    /// The kind of failure.
    pub fn kind(&self) -> (kind: &ErrorKind)
        ensures
            *kind == self.0,
    {
        &self.0
    }
}

} // verus!
