use vstd::prelude::*;
use vstd::string::StringExecFns;

verus! {

/// Everything that can stop the pipeline or fail one job.
///
/// Each variant carries the text of its cause; [`Error::message`] renders the
/// variant's heading in front of it.
#[derive(Debug)]
pub enum Error {
    /// The watcher reported one failure.
    Notify(String),
    /// The watcher reported a batch of failures.
    Notifies(String),
    /// The channel from the watcher was closed.
    MpscRecv(String),
    /// The watched path is a regular file.
    NotDirectory(String),
    /// The watched path is missing and could not be created.
    DirDoesNotExist(String),
    /// A spawned task did not run to its end.
    TokioJoin(String),
    /// A job file is not a job document.
    SerdeJson(String),
    /// A job's method is not an HTTP method token.
    InvalidMethod(String),
    /// A job's URL is not an absolute URL.
    UrlParse(String),
    /// A job's header name is not an HTTP header name.
    InvalidHeaderName(String),
    /// A job's header value holds a byte that no header value may hold.
    InvalidHeaderValue(String),
    /// A job has more headers than a header map takes.
    HeaderMapFull(String),
    /// The HTTP request failed.
    Reqwest(String),
    /// No processor is registered under the job's identifier.
    ProcessorNotFound(String),
}

impl Error {
    /// The heading that stands in front of the cause in the rendered message.
    pub open spec fn heading(self) -> Seq<char> {
        match self {
            Error::Notify(_) => "notify error: "@,
            Error::Notifies(_) => "notify errors: "@,
            Error::MpscRecv(_) => "mpsc recv error: "@,
            Error::NotDirectory(_) => "the specified path is a file: "@,
            Error::DirDoesNotExist(_) => "the specified path does not exist: "@,
            Error::TokioJoin(_) => "tokio join error: "@,
            Error::SerdeJson(_) => "serde_json error: "@,
            Error::InvalidMethod(_) => "invalid method: "@,
            Error::UrlParse(_) => "url parse error: "@,
            Error::InvalidHeaderName(_) => "invalid header name: "@,
            Error::InvalidHeaderValue(_) => "invalid header value: "@,
            Error::HeaderMapFull(_) => "header map is full: "@,
            Error::Reqwest(_) => "reqwest error: "@,
            Error::ProcessorNotFound(_) => "processor not found: "@,
        }
    }

    /// The cause that the variant carries.
    pub open spec fn cause(self) -> Seq<char> {
        match self {
            Error::Notify(s) => s@,
            Error::Notifies(s) => s@,
            Error::MpscRecv(s) => s@,
            Error::NotDirectory(s) => s@,
            Error::DirDoesNotExist(s) => s@,
            Error::TokioJoin(s) => s@,
            Error::SerdeJson(s) => s@,
            Error::InvalidMethod(s) => s@,
            Error::UrlParse(s) => s@,
            Error::InvalidHeaderName(s) => s@,
            Error::InvalidHeaderValue(s) => s@,
            Error::HeaderMapFull(s) => s@,
            Error::Reqwest(s) => s@,
            Error::ProcessorNotFound(s) => s@,
        }
    }

    /// The rendered message: heading, then cause.
    pub open spec fn spec_message(self) -> Seq<char> {
        self.heading() + self.cause()
    }

    /// Renders the error as one line of text.
    pub fn message(&self) -> (text: String)
        ensures
            text@ == self.spec_message(),
    {
        match self {
            Error::Notify(s) => String::from_str("notify error: ").concat(s.as_str()),
            Error::Notifies(s) => String::from_str("notify errors: ").concat(s.as_str()),
            Error::MpscRecv(s) => String::from_str("mpsc recv error: ").concat(s.as_str()),
            Error::NotDirectory(s) => String::from_str("the specified path is a file: ").concat(
                s.as_str(),
            ),
            Error::DirDoesNotExist(s) => String::from_str(
                "the specified path does not exist: ",
            ).concat(s.as_str()),
            Error::TokioJoin(s) => String::from_str("tokio join error: ").concat(s.as_str()),
            Error::SerdeJson(s) => String::from_str("serde_json error: ").concat(s.as_str()),
            Error::InvalidMethod(s) => String::from_str("invalid method: ").concat(s.as_str()),
            Error::UrlParse(s) => String::from_str("url parse error: ").concat(s.as_str()),
            Error::InvalidHeaderName(s) => String::from_str("invalid header name: ").concat(
                s.as_str(),
            ),
            Error::InvalidHeaderValue(s) => String::from_str("invalid header value: ").concat(
                s.as_str(),
            ),
            Error::HeaderMapFull(s) => String::from_str("header map is full: ").concat(
                s.as_str(),
            ),
            Error::Reqwest(s) => String::from_str("reqwest error: ").concat(s.as_str()),
            Error::ProcessorNotFound(s) => String::from_str("processor not found: ").concat(
                s.as_str(),
            ),
        }
    }
}

/// No error renders as the empty text: every heading has characters.
pub proof fn lemma_message_not_empty(error: Error)
    ensures
        error.spec_message().len() > 0,
{
    reveal_strlit("notify error: ");
    reveal_strlit("notify errors: ");
    reveal_strlit("mpsc recv error: ");
    reveal_strlit("the specified path is a file: ");
    reveal_strlit("the specified path does not exist: ");
    reveal_strlit("tokio join error: ");
    reveal_strlit("serde_json error: ");
    reveal_strlit("invalid method: ");
    reveal_strlit("url parse error: ");
    reveal_strlit("invalid header name: ");
    reveal_strlit("invalid header value: ");
    reveal_strlit("header map is full: ");
    reveal_strlit("reqwest error: ");
    reveal_strlit("processor not found: ");
}

} // verus!
