//! Where a credential comes from, and the file that is opened only when it is
//! first read.

use crate::engine::io_error;
use crate::engine::io_error_kind;
use crate::engine::io_error_payload;
use crate::engine::kind_of;
use crate::engine::quote_path;
use crate::engine::quoted_path;
use vstd::prelude::*;
use vstd::string::to_string_from_display_ensures;
use vstd::string::StringExecFns;

verus! {

/// A source of credential bytes: a file that is not touched before the build
/// asks for it, or bytes held in memory.
pub enum Source {
    /// The file at this path.
    File(String),
    /// These bytes.
    Memory(Vec<u8>),
}

/// A [`Source`] as a mathematical value.
pub enum SourceView {
    File(Seq<char>),
    Memory(Seq<u8>),
}

impl View for Source {
    type V = SourceView;

    open spec fn view(&self) -> SourceView {
        match self {
            Source::File(path) => SourceView::File(path@),
            Source::Memory(bytes) => SourceView::Memory(bytes@),
        }
    }
}

impl Source {
    /// The source that holds nothing.
    pub fn empty() -> (source: Source)
        ensures
            source@ == SourceView::Memory(Seq::<u8>::empty()),
    {
        Source::Memory(Vec::new())
    }

    /// The file at `path`. Nothing is opened.
    pub fn file(path: &str) -> (source: Source)
        ensures
            source@ == SourceView::File(path@),
    {
        Source::File(path.to_owned())
    }

    /// A copy of `bytes`.
    pub fn memory(bytes: &[u8]) -> (source: Source)
        ensures
            source@ == SourceView::Memory(bytes@),
    {
        Source::Memory(vstd::slice::slice_to_vec(bytes))
    }
}

/// What a [`LazyFile`] must do to serve a read.
#[derive(Clone, Copy, Debug, PartialEq, Eq, Structural)]
pub enum FileStep {
    /// Open the file, then read from the new handle.
    OpenThenRead,
    /// Read from the handle that is already open.
    Read,
}

/// A file that is opened by its first read and stays open after that.
///
/// This is the bookkeeping of such a file: its path and whether a handle is
/// open. Whoever holds the handle tells it when the open has succeeded.
pub struct LazyFile {
    path: String,
    open: bool,
}

impl LazyFile {
    /// The path of this file.
    pub closed spec fn spec_path(&self) -> Seq<char> {
        self.path@
    }

    /// Whether a handle is open.
    pub closed spec fn spec_is_open(&self) -> bool {
        self.open
    }

    /// What a read failure of this file reads as, given what its cause reads as.
    pub open spec fn failure_text(&self, cause: Seq<char>) -> Seq<char> {
        "error reading file ("@ + quoted_path(self.spec_path()) + "): "@ + cause
    }

    /// The file at `path`, not opened.
    pub fn new(path: &str) -> (file: LazyFile)
        ensures
            file.spec_path() == path@,
            !file.spec_is_open(),
    {
        LazyFile { path: path.to_owned(), open: false }
    }

    /// The path of this file.
    pub fn path(&self) -> (path: &str)
        ensures
            path@ == self.spec_path(),
    {
        self.path.as_str()
    }

    /// Whether a handle is open.
    #[verifier::when_used_as_spec(spec_is_open)]
    pub fn is_open(&self) -> (open: bool)
        ensures
            open == self.spec_is_open(),
    {
        self.open
    }

    /// What the next read must do: open the file first exactly when no handle
    /// is open yet.
    pub fn lazy_read(&self) -> (step: FileStep)
        ensures
            step == if self.spec_is_open() {
                FileStep::Read
            } else {
                FileStep::OpenThenRead
            },
    {
        if self.open {
            FileStep::Read
        } else {
            FileStep::OpenThenRead
        }
    }

    /// Records that the file has been opened. The path stays, and the file
    /// stays open from here on.
    pub fn opened(&mut self)
        ensures
            final(self).spec_is_open(),
            final(self).spec_path() == old(self).spec_path(),
    {
        self.open = true;
    }

    /// The message of a failure to open or read this file: it names the path
    /// and ends with what the cause reads as.
    pub fn failure_message(&self, cause: &std::io::Error) -> (message: String)
        ensures
            exists|text: String|
                #[trigger] to_string_from_display_ensures::<std::io::Error>(cause, text)
                    && message@ == self.failure_text(text@),
    {
        let text = cause.to_string();
        let quoted = quote_path(self.path.as_str());
        let message = String::from_str("error reading file (").concat(quoted.as_str()).concat(
            "): ",
        ).concat(text.as_str());
        assert(to_string_from_display_ensures::<std::io::Error>(cause, text));
        message
    }

    /// The error that a failed open or read of this file is reported as: of the
    /// kind of its cause, carrying [`LazyFile::failure_message`].
    pub fn read_failed(&self, cause: std::io::Error) -> (error: std::io::Error)
        ensures
            io_error_kind(error) == io_error_kind(cause),
            exists|text: String|
                #[trigger] to_string_from_display_ensures::<std::io::Error>(&cause, text)
                    && io_error_payload(error) == Some(self.failure_text(text@)),
    {
        let message = self.failure_message(&cause);
        io_error(kind_of(&cause), message)
    }
}

} // verus!
