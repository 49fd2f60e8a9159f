//! The two kinds of failure: those a client caused, and those it did not.

use vstd::prelude::*;

verus! {

/// Status of a request that the client must correct.
pub const BAD_REQUEST: u16 = 400;

/// Status of a request whose sender could not be authenticated.
pub const UNAUTHORIZED: u16 = 401;

/// Status reported for every failure the client did not cause.
pub const INTERNAL_SERVER_ERROR: u16 = 500;

/// A failure the client caused: the status to answer with, the message for the
/// client, and the reason kept for the operator.
#[derive(Debug, Clone, PartialEq, Eq)]
pub struct ExpectedError {
    pub status_code: u16,
    pub message: String,
    pub reason: String,
    pub metadata: Option<String>,
}

/// A failure of the registry's own surroundings: what the registry was doing,
/// and what the collaborator reported.
#[derive(Debug, Clone, PartialEq, Eq)]
pub struct UnexpectedError {
    pub context: String,
    pub cause: String,
}

#[derive(Debug, Clone, PartialEq, Eq)]
pub enum AppError {
    Expected(ExpectedError),
    Unexpected(UnexpectedError),
}

pub struct ExpectedErrorView {
    pub status_code: u16,
    pub message: Seq<char>,
    pub reason: Seq<char>,
    pub metadata: Option<Seq<char>>,
}

pub struct UnexpectedErrorView {
    pub context: Seq<char>,
    pub cause: Seq<char>,
}

pub enum AppErrorView {
    Expected(ExpectedErrorView),
    Unexpected(UnexpectedErrorView),
}

impl View for ExpectedError {
    type V = ExpectedErrorView;

    open spec fn view(&self) -> ExpectedErrorView {
        ExpectedErrorView {
            status_code: self.status_code,
            message: self.message@,
            reason: self.reason@,
            metadata: match self.metadata {
                Some(text) => Some(text@),
                None => None,
            },
        }
    }
}

impl View for UnexpectedError {
    type V = UnexpectedErrorView;

    open spec fn view(&self) -> UnexpectedErrorView {
        UnexpectedErrorView { context: self.context@, cause: self.cause@ }
    }
}

impl View for AppError {
    type V = AppErrorView;

    open spec fn view(&self) -> AppErrorView {
        match self {
            AppError::Expected(error) => AppErrorView::Expected(error@),
            AppError::Unexpected(error) => AppErrorView::Unexpected(error@),
        }
    }
}

/// The failure a client caused, without metadata.
pub open spec fn expected(status_code: u16, message: Seq<char>, reason: Seq<char>) -> AppErrorView {
    AppErrorView::Expected(ExpectedErrorView { status_code, message, reason, metadata: None })
}

/// The failure of a collaborator.
pub open spec fn unexpected(context: Seq<char>, cause: Seq<char>) -> AppErrorView {
    AppErrorView::Unexpected(UnexpectedErrorView { context, cause })
}

impl AppErrorView {
    /// The status the boundary answers with: the error's own where the client
    /// caused it, 500 otherwise.
    pub open spec fn status_code(self) -> u16 {
        match self {
            AppErrorView::Expected(error) => error.status_code,
            AppErrorView::Unexpected(_) => INTERNAL_SERVER_ERROR,
        }
    }

    /// What the client is told: the error's message where the client caused
    /// it, and nothing of the matter otherwise.
    pub open spec fn message(self) -> Seq<char> {
        match self {
            AppErrorView::Expected(error) => error.message,
            AppErrorView::Unexpected(_) => "Internal server error"@,
        }
    }
}

impl AppError {
    pub fn expected(status_code: u16, message: String, reason: String) -> (error: AppError)
        ensures
            error@ == expected(status_code, message@, reason@),
    {
        AppError::Expected(ExpectedError { status_code, message, reason, metadata: None })
    }

    pub fn unexpected(context: &str, cause: String) -> (error: AppError)
        ensures
            error@ == unexpected(context@, cause@),
    {
        AppError::Unexpected(UnexpectedError { context: context.to_owned(), cause })
    }

    pub fn is_expected(&self) -> (attributable: bool)
        ensures
            attributable == (self@ is Expected),
    {
        match self {
            AppError::Expected(_) => true,
            AppError::Unexpected(_) => false,
        }
    }

    pub fn status_code(&self) -> (status: u16)
        ensures
            status == self@.status_code(),
    {
        match self {
            AppError::Expected(error) => error.status_code,
            AppError::Unexpected(_) => INTERNAL_SERVER_ERROR,
        }
    }

    pub fn message(&self) -> (text: String)
        ensures
            text@ == self@.message(),
    {
        match self {
            AppError::Expected(error) => error.message.clone(),
            AppError::Unexpected(_) => "Internal server error".to_owned(),
        }
    }
}

} // verus!
