//! What a head tracker offers, and how its failures are told apart.

use vstd::prelude::*;
use vstd::std_specs::convert::FromSpecImpl;
use vstd::string::StringExecFns;
use crate::space::Space;

verus! {

/// A failure that fits none of the known kinds, with the platform's words.
#[derive(Debug)]
pub struct UnknownError(String);

/// A known reason for which head tracking cannot be had.
#[derive(Clone, Copy, Debug, PartialEq, Eq, Structural)]
pub enum ApiError {
    /// No eligible device, or a configuration that the platform does not
    /// support.
    NotAvailable,
    /// The user has not granted access to motion data.
    PermissionDenied,
}

/// Why a request for motion data failed.
#[derive(Debug)]
pub enum Error {
    Api(ApiError),
    Other(UnknownError),
}

impl View for UnknownError {
    type V = Seq<char>;

    closed spec fn view(&self) -> Seq<char> {
        self.0@
    }
}

impl UnknownError {
    pub fn new(description: String) -> (error: Self)
        ensures
            error@ == description@,
    {
        UnknownError(description)
    }

    /// The platform's words.
    pub fn description(&self) -> (description: &str)
        ensures
            description@ == self@,
    {
        self.0.as_str()
    }

    /// The error in words.
    pub fn message(&self) -> (message: String)
        ensures
            message@ == "unknown error occurred: "@ + self@,
    {
        String::from_str("unknown error occurred: ").concat(self.0.as_str())
    }
}

impl ApiError {
    /// The error in words.
    pub fn message(&self) -> (message: &'static str)
        ensures
            *self == ApiError::NotAvailable ==> message@
                == "not available (no eligible device or unsupported configuration)"@,
            *self == ApiError::PermissionDenied ==> message@
                == "access to motion data is denied (permission not granted)"@,
    {
        match self {
            ApiError::NotAvailable => {
                "not available (no eligible device or unsupported configuration)"
            },
            ApiError::PermissionDenied => {
                "access to motion data is denied (permission not granted)"
            },
        }
    }
}

impl Error {
    /// The error in words: a fixed text for a known kind, the unknown error's
    /// own message otherwise.
    pub fn message(&self) -> (message: String)
        ensures
            self is Api ==> message@ == "API error"@,
            self is Other ==> message@ == "unknown error occurred: "@ + self->Other_0@,
    {
        match self {
            Error::Api(_) => String::from_str("API error"),
            Error::Other(unknown) => unknown.message(),
        }
    }

    /// The known kind behind this error, if it has one.
    pub fn source(&self) -> (source: Option<ApiError>)
        ensures
            source == (match *self {
                Error::Api(api) => Some(api),
                Error::Other(_) => None,
            }),
    {
        match self {
            Error::Api(api) => Some(*api),
            Error::Other(_) => None,
        }
    }
}

impl From<ApiError> for Error {
    fn from(value: ApiError) -> (error: Self) {
        Error::Api(value)
    }
}

impl FromSpecImpl<ApiError> for Error {
    open spec fn obeys_from_spec() -> bool {
        true
    }

    open spec fn from_spec(value: ApiError) -> Self {
        Error::Api(value)
    }
}

impl From<UnknownError> for Error {
    fn from(value: UnknownError) -> (error: Self) {
        Error::Other(value)
    }
}

impl FromSpecImpl<UnknownError> for Error {
    open spec fn obeys_from_spec() -> bool {
        true
    }

    open spec fn from_spec(value: UnknownError) -> Self {
        Error::Other(value)
    }
}

/// A source of head orientations. Platforms implement it; nothing is known of
/// what a call returns beyond its type.
pub trait HeadTracker<S: Space> {
    /// Starts motion updates, after which `pull_orientation` has data.
    fn start_motion_updates(&self) -> Result<(), Error>;

    /// The latest orientation, if there is one.
    fn pull_orientation(&self) -> Option<S::Orientation>;

    /// Stops motion updates. They may be started again.
    fn stop_motion_updates(&self) -> Result<(), UnknownError>;
}

} // verus!
