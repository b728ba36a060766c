//! Why a link could not be converted.
use vstd::prelude::*;

verus! {

/// A failed conversion. Each variant carries the link it was about.
#[derive(Clone, Debug)]
pub enum Error {
    /// No strategy claims the link, or the one that does found no
    /// recognised marketplace and item in it.
    NonConvertableUrl { given_url: String },
    /// A live lookup ran, but its result held no item.
    FailedToRedirectUrl { url: String },
    /// The page fetch or the browser itself failed.
    Transport { url: String, message: String },
    /// A piece of text shaped like a link is no absolute URL.
    InvalidUrl { input: String },
}

/// The mathematical value of an [`Error`].
pub enum ErrorView {
    NonConvertableUrl(Seq<char>),
    FailedToRedirectUrl(Seq<char>),
    Transport(Seq<char>, Seq<char>),
    InvalidUrl(Seq<char>),
}

impl View for Error {
    type V = ErrorView;

    open spec fn view(&self) -> ErrorView {
        match self {
            Error::NonConvertableUrl { given_url } => ErrorView::NonConvertableUrl(given_url@),
            Error::FailedToRedirectUrl { url } => ErrorView::FailedToRedirectUrl(url@),
            Error::Transport { url, message } => ErrorView::Transport(url@, message@),
            Error::InvalidUrl { input } => ErrorView::InvalidUrl(input@),
        }
    }
}

/// The value of a conversion outcome: a canonical link or an error.
pub type Outcome = Result<Seq<char>, ErrorView>;

pub open spec fn outcome_view(r: Result<String, Error>) -> Outcome {
    match r {
        Ok(s) => Ok(s@),
        Err(e) => Err(e@),
    }
}

impl Error {
    /// The link that could not be converted.
    pub fn non_convertable(url: &str) -> (r: Error)
        ensures
            r@ == ErrorView::NonConvertableUrl(url@),
    {
        Error::NonConvertableUrl { given_url: url.to_string() }
    }

    /// A live lookup whose result held no item.
    pub fn failed_to_redirect(url: &str) -> (r: Error)
        ensures
            r@ == ErrorView::FailedToRedirectUrl(url@),
    {
        Error::FailedToRedirectUrl { url: url.to_string() }
    }
}

} // verus!
