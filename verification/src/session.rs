//! The stored record, the errors of the store, and the image of its file.

use vstd::prelude::*;
use vstd::string::*;

verus! {

/// The authentication record: three opaque strings.
#[derive(Debug, Clone)]
pub struct StoredSession {
    pub access_token: String,
    pub refresh_token: String,
    pub user_id: String,
}

/// What a `StoredSession` stands for in contracts.
pub ghost struct SessionView {
    pub access_token: Seq<char>,
    pub refresh_token: Seq<char>,
    pub user_id: Seq<char>,
}

impl View for StoredSession {
    type V = SessionView;

    open spec fn view(&self) -> SessionView {
        SessionView {
            access_token: self.access_token@,
            refresh_token: self.refresh_token@,
            user_id: self.user_id@,
        }
    }
}

impl Default for StoredSession {
    /// The record whose three fields are empty.
    fn default() -> (s: Self)
        ensures
            s@ == (SessionView {
                access_token: Seq::empty(),
                refresh_token: Seq::empty(),
                user_id: Seq::empty(),
            }),
    {
        StoredSession {
            access_token: String::new(),
            refresh_token: String::new(),
            user_id: String::new(),
        }
    }
}

/// Why the store could not do what was asked. Each variant carries a message
/// for a human reader.
#[derive(Debug, Clone)]
pub enum SessionError {
    /// The file could not be read or written.
    Io(String),
    /// The record could not be encoded.
    Serialization(String),
    /// The file holds something that is not a session record.
    Deserialization(String),
}

impl SessionError {
    /// The message that the error carries.
    pub open spec fn spec_message(&self) -> Seq<char> {
        match self {
            SessionError::Io(m) => m@,
            SessionError::Serialization(m) => m@,
            SessionError::Deserialization(m) => m@,
        }
    }

    /// The message that the error carries, as the caller of a command sees it.
    pub fn message(&self) -> (m: String)
        ensures
            m@ == self.spec_message(),
    {
        match self {
            SessionError::Io(m) => m.clone(),
            SessionError::Serialization(m) => m.clone(),
            SessionError::Deserialization(m) => m.clone(),
        }
    }
}

/// The name of the session file inside the application's data directory.
pub const SESSION_FILE_NAME: &'static str = "session.json";

/// An image of the session file: `None` while the file does not exist, else
/// all of its text.
pub struct SessionFile {
    pub contents: Option<String>,
}

impl View for SessionFile {
    type V = Option<Seq<char>>;

    open spec fn view(&self) -> Option<Seq<char>> {
        match self.contents {
            Some(text) => Some(text@),
            None => None,
        }
    }
}

impl SessionFile {
    /// The image of a file that was never created.
    pub fn new() -> (file: Self)
        ensures
            file@ is None,
    {
        SessionFile { contents: None }
    }
}

} // verus!
