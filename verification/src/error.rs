//! The failures of an action, as they are reported to the operator.
//!
//! An error is a message with, possibly, a cause beneath it. The chain of an
//! error is the list of messages from the error itself down to the innermost
//! cause; what the operator reads is that chain without the blank message of
//! the outermost wrapper.

use vstd::prelude::*;

verus! {

/// The texts of a list of strings.
pub open spec fn texts(lines: Seq<String>) -> Seq<Seq<char>> {
    lines.map_values(|line: String| line@)
}

/// The message of a failed upload.
pub open spec fn upload_message() -> Seq<char> {
    "Failed to upload the specified file"@
}

/// The message of a failed download.
pub open spec fn download_message() -> Seq<char> {
    "Failed to download the requested file"@
}

/// Why a download failed, as the download engine reported it: its message, and
/// the messages of the causes beneath it, the nearest first. The messages are
/// carried along and never interpreted.
#[derive(Debug)]
pub struct DownloadCause {
    pub message: String,
    pub causes: Vec<String>,
}

/// A failure of an action.
#[derive(Debug)]
pub enum ActionError {
    /// The upload action failed. No cause is kept.
    Upload,
    /// The download action failed, for the cause given.
    Download(DownloadCause),
}

/// A failure of the program.
#[derive(Debug)]
pub enum Error {
    /// An action failed. The wrapper has no message of its own: the action's
    /// failure speaks for it.
    Action(ActionError),
}

impl DownloadCause {
    /// The messages from this cause down to the innermost one.
    pub open spec fn spec_chain(&self) -> Seq<Seq<char>> {
        seq![self.message@] + texts(self.causes@)
    }

    /// A cause with nothing beneath it.
    pub fn new(message: String) -> (cause: DownloadCause)
        ensures
            cause.message == message,
            cause.spec_chain() == seq![message@],
    {
        let cause = DownloadCause { message, causes: Vec::new() };
        assert(cause.spec_chain() =~= seq![message@]);
        cause
    }

    /// A cause with the messages of the causes beneath it, the nearest first.
    pub fn with_causes(message: String, causes: Vec<String>) -> (cause: DownloadCause)
        ensures
            cause.message == message,
            cause.causes == causes,
            cause.spec_chain() == seq![message@] + texts(causes@),
    {
        DownloadCause { message, causes }
    }

    /// The cause's own message.
    pub fn message(&self) -> (message: &str)
        ensures
            message@ == self.message@,
    {
        self.message.as_str()
    }

    /// Walks the chain: the cause's own message, then each cause beneath it.
    pub fn chain(&self) -> (lines: Vec<String>)
        ensures
            texts(lines@) == self.spec_chain(),
    {
        let mut lines: Vec<String> = Vec::new();
        lines.push(self.message.clone());
        let mut i: usize = 0;
        while i < self.causes.len()
            invariant
                i <= self.causes.len(),
                lines@.len() == i + 1,
                lines@[0]@ == self.message@,
                forall|j: int| 0 <= j < i ==> (#[trigger] lines@[j + 1])@ == self.causes@[j]@,
            decreases self.causes.len() - i,
        {
            lines.push(self.causes[i].clone());
            i += 1;
        }
        assert forall|k: int| 0 <= k < lines@.len() implies texts(lines@)[k]
            == self.spec_chain()[k] by {
            if k > 0 {
                assert(lines@[(k - 1) + 1]@ == self.causes@[k - 1]@);
            }
        }
        assert(texts(lines@) =~= self.spec_chain());
        lines
    }
}

impl ActionError {
    /// The error's own message, a fixed text for each kind of failure.
    pub open spec fn spec_message(&self) -> Seq<char> {
        match self {
            ActionError::Upload => upload_message(),
            ActionError::Download(_) => download_message(),
        }
    }

    /// The messages from this error down to the innermost cause.
    pub open spec fn spec_chain(&self) -> Seq<Seq<char>> {
        match self {
            ActionError::Upload => seq![upload_message()],
            ActionError::Download(cause) => seq![download_message()] + cause.spec_chain(),
        }
    }

    /// The failure of an upload.
    pub fn upload_failed() -> (error: ActionError)
        ensures
            error == ActionError::Upload,
    {
        ActionError::Upload
    }

    /// The failure of a download, with the cause that the engine gave. The
    /// cause is kept as it is.
    pub fn download_failed(cause: DownloadCause) -> (error: ActionError)
        ensures
            error == ActionError::Download(cause),
    {
        ActionError::Download(cause)
    }

    /// The error's own message.
    pub fn message(&self) -> (message: String)
        ensures
            message@ == self.spec_message(),
    {
        match self {
            ActionError::Upload => "Failed to upload the specified file".to_owned(),
            ActionError::Download(_) => "Failed to download the requested file".to_owned(),
        }
    }

    /// The cause beneath the error: none for an upload, the engine's for a
    /// download.
    pub fn cause(&self) -> (cause: Option<&DownloadCause>)
        ensures
            match self {
                ActionError::Upload => cause is None,
                ActionError::Download(inner) => cause == Some(inner),
            },
    {
        match self {
            ActionError::Upload => None,
            ActionError::Download(inner) => Some(inner),
        }
    }

    /// Walks the chain: the error's own message, then the chain of its cause.
    pub fn chain(&self) -> (lines: Vec<String>)
        ensures
            texts(lines@) == self.spec_chain(),
    {
        let mut lines: Vec<String> = match self {
            ActionError::Upload => Vec::new(),
            ActionError::Download(cause) => cause.chain(),
        };
        lines.insert(0, self.message());
        assert(texts(lines@) =~= self.spec_chain());
        lines
    }
}

impl Error {
    /// The wrapper's own message: blank.
    pub open spec fn spec_message(&self) -> Seq<char> {
        Seq::empty()
    }

    /// The messages from the wrapper down to the innermost cause.
    pub open spec fn spec_chain(&self) -> Seq<Seq<char>> {
        match self {
            Error::Action(inner) => seq![self.spec_message()] + inner.spec_chain(),
        }
    }

    /// What the operator reads: the chain below the wrapper.
    pub open spec fn spec_render(&self) -> Seq<Seq<char>> {
        match self {
            Error::Action(inner) => inner.spec_chain(),
        }
    }

    /// The wrapper's own message, which is blank.
    pub fn message(&self) -> (message: String)
        ensures
            message@ == self.spec_message(),
            message@.len() == 0,
    {
        String::new()
    }

    /// The failure that the wrapper holds.
    pub fn cause(&self) -> (cause: &ActionError)
        ensures
            *self == Error::Action(*cause),
    {
        match self {
            Error::Action(inner) => inner,
        }
    }

    /// Walks the chain: the blank message of the wrapper, then the chain of
    /// the failure it holds.
    pub fn chain(&self) -> (lines: Vec<String>)
        ensures
            texts(lines@) == self.spec_chain(),
    {
        let mut lines: Vec<String> = self.cause().chain();
        lines.insert(0, self.message());
        assert(texts(lines@) =~= self.spec_chain());
        lines
    }

    /// The lines for the operator: the message of the failed action, then the
    /// messages of its causes. The wrapper adds no line of its own.
    pub fn render(&self) -> (lines: Vec<String>)
        ensures
            texts(lines@) == self.spec_render(),
    {
        self.cause().chain()
    }

    /// A failed upload is reported in one line, its fixed message, with
    /// nothing after it.
    pub proof fn lemma_upload_renders_alone()
        ensures
            Error::Action(ActionError::Upload).spec_render() == seq![upload_message()],
    {
    }

    /// A failed download is reported as its fixed message followed by the
    /// chain of the cause it was given: the cause's own message comes second,
    /// and the report ends with the innermost cause.
    pub proof fn lemma_download_renders_cause(cause: DownloadCause)
        ensures
            Error::Action(ActionError::Download(cause)).spec_render() == seq![download_message()]
                + cause.spec_chain(),
            Error::Action(ActionError::Download(cause)).spec_render()[0] == download_message(),
            Error::Action(ActionError::Download(cause)).spec_render()[1] == cause.message@,
            Error::Action(ActionError::Download(cause)).spec_render().last()
                == cause.spec_chain().last(),
    {
    }

    /// The wrapper's own message is blank, and it stands once, at the head of
    /// the chain: below it the chain is what the operator reads, which begins
    /// with the message of the failed action.
    pub proof fn lemma_wrapper_is_silent(error: Error)
        ensures
            error.spec_message().len() == 0,
            error.spec_chain()[0] == error.spec_message(),
            error.spec_chain().skip(1) == error.spec_render(),
            error.spec_render().len() >= 1,
            error.spec_render()[0] == error->0.spec_message(),
    {
        assert(error.spec_chain().skip(1) =~= error.spec_render());
    }
}

} // verus!
