//! One open document: its text and the file it is bound to.

use vstd::prelude::*;

verus! {

/// Why a document operation did not take effect.
#[derive(Clone, Copy, Debug, PartialEq, Eq, Structural)]
pub enum SessionError {
    /// The file could not be read (missing, not permitted, not valid text).
    ReadFailure,
    /// The file could not be written.
    WriteFailure,
    /// Save was asked for while no file is bound to the document.
    NoBackingPath,
}

/// The characters of an optional string.
pub open spec fn text_of(s: Option<String>) -> Option<Seq<char>> {
    match s {
        Some(t) => Some(t@),
        None => None,
    }
}

/// The abstract state of a document session.
pub struct SessionModel {
    /// The full text of the document.
    pub content: Seq<char>,
    /// The file that Save writes to; `None` for a document never saved.
    pub backing_path: Option<Seq<char>>,
    /// The text as last read from or written to a file (empty after New).
    pub saved_content: Seq<char>,
}

impl SessionModel {
    /// A new, empty document bound to no file.
    pub open spec fn fresh() -> SessionModel {
        SessionModel { content: Seq::empty(), backing_path: None, saved_content: Seq::empty() }
    }

    /// Whether the text differs from what was last read or written.
    pub open spec fn is_modified(self) -> bool {
        self.content != self.saved_content
    }

    /// The state after the text is edited to `text`; the file binding stays.
    pub open spec fn after_edit(self, text: Seq<char>) -> SessionModel {
        SessionModel { content: text, ..self }
    }

    /// The state after loading `path`, whose read gave `read` (`None` when it
    /// failed): the text is replaced and the document bound to `path`, or
    /// nothing changes.
    pub open spec fn after_load(self, path: Seq<char>, read: Option<Seq<char>>) -> SessionModel {
        match read {
            Some(text) => SessionModel {
                content: text,
                backing_path: Some(path),
                saved_content: text,
            },
            None => self,
        }
    }

    /// What Save writes, as (path, text): the whole text to the bound file,
    /// or nothing at all when no file is bound.
    pub open spec fn save_target(self) -> Option<(Seq<char>, Seq<char>)> {
        match self.backing_path {
            Some(p) => Some((p, self.content)),
            None => None,
        }
    }

    /// The state after Save, whose write succeeded iff `written`.
    pub open spec fn after_save(self, written: bool) -> SessionModel {
        if written && self.backing_path is Some {
            SessionModel { saved_content: self.content, ..self }
        } else {
            self
        }
    }

    /// The state after Save As to `path`, whose write succeeded iff `written`:
    /// on success the document is bound to `path`.
    pub open spec fn after_save_as(self, path: Seq<char>, written: bool) -> SessionModel {
        if written {
            SessionModel { backing_path: Some(path), saved_content: self.content, ..self }
        } else {
            self
        }
    }
}

/// A write that the session asks for: the whole `text` to the file at `path`.
#[derive(Debug)]
pub struct WriteRequest {
    pub path: String,
    pub text: String,
}

impl View for WriteRequest {
    type V = (Seq<char>, Seq<char>);

    open spec fn view(&self) -> (Seq<char>, Seq<char>) {
        (self.path@, self.text@)
    }
}

/// One open document: its text and, once loaded or saved, its file.
pub struct DocumentSession {
    content: String,
    backing_path: Option<String>,
    saved_content: String,
}

impl View for DocumentSession {
    type V = SessionModel;

    closed spec fn view(&self) -> SessionModel {
        SessionModel {
            content: self.content@,
            backing_path: text_of(self.backing_path),
            saved_content: self.saved_content@,
        }
    }
}

impl DocumentSession {
    /// Starts a session on an empty document bound to no file.
    pub fn new() -> (s: DocumentSession)
        ensures
            s@ == SessionModel::fresh(),
    {
        DocumentSession { content: String::new(), backing_path: None, saved_content: String::new() }
    }

    /// The full text of the document.
    pub fn content(&self) -> (r: &str)
        ensures
            r@ == self@.content,
    {
        self.content.as_str()
    }

    /// The file the document is bound to, if any.
    pub fn backing_path(&self) -> (r: Option<&str>)
        ensures
            r is Some <==> self@.backing_path is Some,
            r is Some ==> r->0@ == self@.backing_path->0,
    {
        match &self.backing_path {
            Some(p) => Some(p.as_str()),
            None => None,
        }
    }

    /// Whether the text differs from what was last read from or written to
    /// a file (from the empty text after New).
    pub fn is_modified(&self) -> (r: bool)
        ensures
            r == self@.is_modified(),
    {
        self.content != self.saved_content
    }

    /// Replaces the text by an edit made in the editing surface.
    pub fn set_content(&mut self, text: String)
        ensures
            final(self)@ == old(self)@.after_edit(text@),
    {
        self.content = text;
    }

    /// New: discards the text and the file binding, without asking.
    pub fn new_document(&mut self)
        ensures
            final(self)@ == SessionModel::fresh(),
    {
        self.content = String::new();
        self.backing_path = None;
        self.saved_content = String::new();
    }

    /// Load: takes the outcome of reading the file at `path` (`None` when the
    /// read failed). On success the text becomes what was read and the
    /// document is bound to `path`; on failure nothing changes.
    pub fn load(&mut self, path: String, read: Option<String>) -> (r: Result<(), SessionError>)
        ensures
            final(self)@ == old(self)@.after_load(path@, text_of(read)),
            r is Ok <==> read is Some,
            read is None ==> r == Err::<(), SessionError>(SessionError::ReadFailure),
    {
        match read {
            Some(text) => {
                self.saved_content = text.clone();
                self.content = text;
                self.backing_path = Some(path);
                Ok(())
            },
            None => Err(SessionError::ReadFailure),
        }
    }

    /// Save: the write to perform, the whole text to the bound file; with no
    /// file bound, no write at all and `NoBackingPath`.
    pub fn save(&self) -> (r: Result<WriteRequest, SessionError>)
        ensures
            self@.save_target() is Some <==> r is Ok,
            r is Ok ==> Some(r->Ok_0@) == self@.save_target(),
            self@.save_target() is None ==> r == Err::<WriteRequest, SessionError>(
                SessionError::NoBackingPath,
            ),
    {
        match &self.backing_path {
            Some(p) => Ok(WriteRequest { path: p.clone(), text: self.content.clone() }),
            None => Err(SessionError::NoBackingPath),
        }
    }

    /// Records the outcome of the write that `save` asked for.
    pub fn finish_save(&mut self, written: bool) -> (r: Result<(), SessionError>)
        ensures
            final(self)@ == old(self)@.after_save(written),
            r is Ok <==> (written && old(self)@.backing_path is Some),
            old(self)@.backing_path is None ==> r == Err::<(), SessionError>(
                SessionError::NoBackingPath,
            ),
            old(self)@.backing_path is Some && !written ==> r == Err::<(), SessionError>(
                SessionError::WriteFailure,
            ),
    {
        if self.backing_path.is_none() {
            return Err(SessionError::NoBackingPath);
        }
        if !written {
            return Err(SessionError::WriteFailure);
        }
        self.saved_content = self.content.clone();
        Ok(())
    }

    /// Save As: the write to perform, the whole text to `path`.
    pub fn save_as(&self, path: String) -> (r: WriteRequest)
        ensures
            r@ == (path@, self@.content),
    {
        WriteRequest { path, text: self.content.clone() }
    }

    /// Records the outcome of the write that `save_as(path)` asked for: on
    /// success the document is bound to `path`, on failure nothing changes.
    pub fn finish_save_as(&mut self, path: String, written: bool) -> (r: Result<(), SessionError>)
        ensures
            final(self)@ == old(self)@.after_save_as(path@, written),
            r is Ok <==> written,
            !written ==> r == Err::<(), SessionError>(SessionError::WriteFailure),
    {
        if !written {
            return Err(SessionError::WriteFailure);
        }
        self.saved_content = self.content.clone();
        self.backing_path = Some(path);
        Ok(())
    }
}

} // verus!
