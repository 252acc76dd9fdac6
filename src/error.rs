//! Errors: of schema construction, and of requests to the service.

use vstd::prelude::*;

verus! {

/// Why a declaration cannot be turned into a schema.
#[derive(Clone, Copy, Debug, PartialEq, Eq, Structural)]
pub enum ErrorKind {
    /// A field type is not a primitive, `Vec<T>`, `Option<T>` or a named type,
    /// or it wraps a named type in `Vec` or `Option`.
    UnsupportedTypeShape,
    /// An enum variant carries data.
    NonUnitVariant,
    /// Integer discriminants are present but no integer `repr` is declared.
    NumericWithoutRepresentation,
    /// A description stands on a field of a referenced type, or on an enum variant.
    MisplacedDescription,
    /// A type other than a struct was asked for as a root document.
    UnsupportedRootType,
    /// A referenced type is not registered.
    UnresolvedReference,
    /// A referenced struct contains itself, directly or through other structs.
    RecursiveReference,
    /// A `repr` item other than an integer type, `align` or `packed`.
    UnsupportedRepresentation,
    /// A `serde` annotation on the type itself.
    TopLevelSerdeAttribute,
    /// The declaration is neither a struct nor an enum.
    UnsupportedDeclaration,
}

/// A construction error together with the name of the declaration it concerns.
pub struct SchemaError {
    pub kind: ErrorKind,
    pub subject: String,
}

impl View for SchemaError {
    type V = (ErrorKind, Seq<char>);

    open spec fn view(&self) -> (ErrorKind, Seq<char>) {
        (self.kind, self.subject@)
    }
}

impl SchemaError {
    pub fn new(kind: ErrorKind, subject: &str) -> (r: SchemaError)
        ensures
            r@ == (kind, subject@),
    {
        SchemaError { kind, subject: String::from_str(subject) }
    }
}

/// A construction result with its error seen through its view.
pub open spec fn err_view<T>(r: Result<T, SchemaError>) -> Result<T, (ErrorKind, Seq<char>)> {
    match r {
        Ok(v) => Ok(v),
        Err(e) => Err(e@),
    }
}

#[verifier::external_type_specification]
#[verifier::external_body]
pub struct ExReqwestError(reqwest::Error);

/// The payload of an error that the service reports.
pub struct OpenAIAPIErrorData {
    /// The message of the error.
    pub message: String,
    /// Any associated data with the error.
    pub param: Option<String>,
    /// The code of the error.
    pub code: Option<String>,
}

/// The text of an error payload: its message, then its parameter and its
/// code where present.
pub open spec fn error_data_text(m: Seq<char>, param: Option<Seq<char>>, code: Option<Seq<char>>) -> Seq<
    char,
> {
    "message: "@ + m + match param {
        Some(p) => ", param: "@ + p,
        None => seq![],
    } + match code {
        Some(c) => ", code: "@ + c,
        None => seq![],
    }
}

impl OpenAIAPIErrorData {
    /// The payload as text: `message: M`, then `, param: P` and `, code: C`
    /// where present.
    pub fn describe(&self) -> (r: String)
        ensures
            r@ == error_data_text(
                self.message@,
                crate::text::opt_view(self.param),
                crate::text::opt_view(self.code),
            ),
    {
        let mut out = String::from_str("message: ");
        out.append(self.message.as_str());
        let ghost head = out@;
        match &self.param {
            Some(p) => {
                out.append(", param: ");
                out.append(p.as_str());
            },
            None => {
                assert(out@ =~= head + seq![]);
            },
        }
        let ghost mid = out@;
        match &self.code {
            Some(c) => {
                out.append(", code: ");
                out.append(c.as_str());
            },
            None => {
                assert(out@ =~= mid + seq![]);
            },
        }
        assert(out@ =~= error_data_text(
            self.message@,
            crate::text::opt_view(self.param),
            crate::text::opt_view(self.code),
        ));
        out
    }
}

/// An error that the service reports, by its type.
pub enum OpenAIAPIError {
    ContextLengthExceeded(OpenAIAPIErrorData),
    CfServiceUnavailable(OpenAIAPIErrorData),
    ServerError(OpenAIAPIErrorData),
    CfBadGateway(OpenAIAPIErrorData),
    QuotaExceeded(OpenAIAPIErrorData),
    InternalError(OpenAIAPIErrorData),
    InvalidRequestError(OpenAIAPIErrorData),
}

impl OpenAIAPIError {
    /// The payload of the error.
    pub fn data(&self) -> (r: &OpenAIAPIErrorData)
        ensures
            match self {
                OpenAIAPIError::ContextLengthExceeded(d) => r == d,
                OpenAIAPIError::CfServiceUnavailable(d) => r == d,
                OpenAIAPIError::ServerError(d) => r == d,
                OpenAIAPIError::CfBadGateway(d) => r == d,
                OpenAIAPIError::QuotaExceeded(d) => r == d,
                OpenAIAPIError::InternalError(d) => r == d,
                OpenAIAPIError::InvalidRequestError(d) => r == d,
            },
    {
        match self {
            OpenAIAPIError::ContextLengthExceeded(d) => d,
            OpenAIAPIError::CfServiceUnavailable(d) => d,
            OpenAIAPIError::ServerError(d) => d,
            OpenAIAPIError::CfBadGateway(d) => d,
            OpenAIAPIError::QuotaExceeded(d) => d,
            OpenAIAPIError::InternalError(d) => d,
            OpenAIAPIError::InvalidRequestError(d) => d,
        }
    }

    /// The prefix that names the kind of error in its text.
    pub fn label(&self) -> (r: &'static str)
        ensures
            r@ == error_label(*self),
    {
        match self {
            OpenAIAPIError::ContextLengthExceeded(_) => "model context length exceeded: ",
            OpenAIAPIError::CfServiceUnavailable(_) => "cloudflare service unavailable: ",
            OpenAIAPIError::ServerError(_) => "transient server error: ",
            OpenAIAPIError::CfBadGateway(_) => "cloudflare bad gateway: ",
            OpenAIAPIError::QuotaExceeded(_) => "quota exceeded: ",
            OpenAIAPIError::InternalError(_) => "internal error: ",
            OpenAIAPIError::InvalidRequestError(_) => "invalid request error: ",
        }
    }

    /// The error as text: its kind, then its payload.
    pub fn describe(&self) -> (r: String)
        ensures
            r@ == error_label(*self) + error_data_text(
                self.data_spec().message@,
                crate::text::opt_view(self.data_spec().param),
                crate::text::opt_view(self.data_spec().code),
            ),
    {
        let mut out = String::from_str(self.label());
        let d = self.data().describe();
        out.append(d.as_str());
        out
    }

    pub open spec fn data_spec(&self) -> OpenAIAPIErrorData {
        match self {
            OpenAIAPIError::ContextLengthExceeded(d) => *d,
            OpenAIAPIError::CfServiceUnavailable(d) => *d,
            OpenAIAPIError::ServerError(d) => *d,
            OpenAIAPIError::CfBadGateway(d) => *d,
            OpenAIAPIError::QuotaExceeded(d) => *d,
            OpenAIAPIError::InternalError(d) => *d,
            OpenAIAPIError::InvalidRequestError(d) => *d,
        }
    }
}

/// The prefix that names the kind of a service error in its text.
pub open spec fn error_label(e: OpenAIAPIError) -> Seq<char> {
    match e {
        OpenAIAPIError::ContextLengthExceeded(_) => "model context length exceeded: "@,
        OpenAIAPIError::CfServiceUnavailable(_) => "cloudflare service unavailable: "@,
        OpenAIAPIError::ServerError(_) => "transient server error: "@,
        OpenAIAPIError::CfBadGateway(_) => "cloudflare bad gateway: "@,
        OpenAIAPIError::QuotaExceeded(_) => "quota exceeded: "@,
        OpenAIAPIError::InternalError(_) => "internal error: "@,
        OpenAIAPIError::InvalidRequestError(_) => "invalid request error: "@,
    }
}

/// Any error that can come of a request to the service.
pub enum OpenAIError {
    /// An error at the HTTP or request level.
    Reqwest(reqwest::Error),
    /// A response that could not be decoded, with its text.
    Serde(String, serde_json::Error),
    /// No auth token was provided.
    MissingAuthToken,
    /// The service reported an error.
    API(OpenAIAPIError),
    /// The model refused to respond, or could not conform to the requested schema.
    Refusal(String),
}

pub type OpenAIResult<T> = Result<T, OpenAIError>;

impl From<reqwest::Error> for OpenAIError {
    fn from(err: reqwest::Error) -> (r: OpenAIError) {
        OpenAIError::Reqwest(err)
    }
}

impl vstd::std_specs::convert::FromSpecImpl<reqwest::Error> for OpenAIError {
    open spec fn obeys_from_spec() -> bool {
        true
    }

    open spec fn from_spec(v: reqwest::Error) -> OpenAIError {
        OpenAIError::Reqwest(v)
    }
}

} // verus!
