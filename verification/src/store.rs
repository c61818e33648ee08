//! The two operations of the store, on an image of its file, and the laws
//! that hold of them.

use vstd::prelude::*;
use crate::codec::{
    decode_session,
    decoded_session,
    encode_session,
    lemma_three_members_give_record,
    session_text,
};
use crate::json::json_string_members;
use crate::session::{SessionError, SessionFile, SessionView, StoredSession};
use crate::text::{is_blank, is_blank_text, is_whitespace};

verus! {

/// What reading the file gives.
pub ghost enum ReadOutcome {
    /// No record is stored.
    Absent,
    /// This record is stored.
    Present(SessionView),
    /// The file holds text that is no record.
    Corrupt,
}

/// The file after an attempt to store a record: the record's text and
/// nothing else; or the file as it was, where the record cannot be encoded.
pub open spec fn file_after_store(before: Option<Seq<char>>, s: SessionView) -> Option<Seq<char>> {
    match session_text(s) {
        Some(text) => Some(text),
        None => before,
    }
}

/// What reading a file gives: nothing where the file is missing, empty or
/// blank; else the record that its text decodes to, if it decodes to one.
pub open spec fn read_session(file: Option<Seq<char>>) -> ReadOutcome {
    match file {
        None => ReadOutcome::Absent,
        Some(text) => if is_blank(text) {
            ReadOutcome::Absent
        } else {
            match decoded_session(text) {
                Some(s) => ReadOutcome::Present(s),
                None => ReadOutcome::Corrupt,
            }
        },
    }
}

/// Stores a record made of the three strings, in place of whatever the file
/// held. Fails, and leaves the file as it was, only where the record cannot
/// be encoded.
pub fn store_session(
    file: &mut SessionFile,
    access_token: String,
    refresh_token: String,
    user_id: String,
) -> (r: Result<(), SessionError>)
    ensures
        final(file)@ == file_after_store(
            old(file)@,
            SessionView {
                access_token: access_token@,
                refresh_token: refresh_token@,
                user_id: user_id@,
            },
        ),
        match session_text(
            SessionView {
                access_token: access_token@,
                refresh_token: refresh_token@,
                user_id: user_id@,
            },
        ) {
            Some(text) => r is Ok,
            None => r matches Err(e) && e is Serialization,
        },
{
    let data = StoredSession { access_token, refresh_token, user_id };
    match encode_session(&data) {
        Ok(text) => {
            file.contents = Some(text);
            Ok(())
        },
        Err(e) => Err(e),
    }
}

/// Reads the stored record. A missing, empty or blank file holds none, which
/// is no error; any other text either decodes to a record or is an error.
pub fn get_session(file: &SessionFile) -> (r: Result<Option<StoredSession>, SessionError>)
    ensures
        match read_session(file@) {
            ReadOutcome::Absent => r matches Ok(None),
            ReadOutcome::Present(s) => r matches Ok(Some(found)) && found@ == s,
            ReadOutcome::Corrupt => r matches Err(e) && e is Deserialization,
        },
        file@ is None ==> r matches Ok(None),
        file@ is Some && is_blank(file@.unwrap()) ==> r matches Ok(None),
        file@ is Some && !is_blank(file@.unwrap()) && decoded_session(file@.unwrap()) is None ==> (
        r matches Err(e) && e is Deserialization),
{
    match &file.contents {
        None => Ok(None),
        Some(text) => {
            if is_blank_text(text.as_str()) {
                Ok(None)
            } else {
                match decode_session(text.as_str()) {
                    Ok(session) => Ok(Some(session)),
                    Err(e) => Err(e),
                }
            }
        },
    }
}

/// The members that are written for a record: its three fields by name.
pub open spec fn written_members(s: SessionView) -> Seq<(Seq<char>, Seq<char>)> {
    seq![
        ("access_token"@, s.access_token),
        ("refresh_token"@, s.refresh_token),
        ("user_id"@, s.user_id),
    ]
}

/// Storing the same record twice leaves the file, and so what is read from
/// it, as storing it once does.
pub proof fn law_store_twice_is_store_once(file: Option<Seq<char>>, s: SessionView)
    ensures
        file_after_store(file_after_store(file, s), s) == file_after_store(file, s),
        read_session(file_after_store(file_after_store(file, s), s)) == read_session(
            file_after_store(file, s),
        ),
{
}

/// A record that is stored replaces the one stored before, with nothing
/// merged: where the second record can be encoded, the file holds its text
/// alone, as it would had the second record been stored into any other file,
/// and the same is read from both. What is read is the second record,
/// wherever the parser reads from its text the three members written into it.
pub proof fn law_store_replaces(
    file: Option<Seq<char>>,
    other: Option<Seq<char>>,
    first: SessionView,
    second: SessionView,
)
    ensures
        session_text(second) is Some ==> {
            &&& file_after_store(file_after_store(file, first), second) == session_text(second)
            &&& file_after_store(file_after_store(file, first), second) == file_after_store(
                other,
                second,
            )
            &&& read_session(file_after_store(file_after_store(file, first), second))
                == read_session(file_after_store(other, second))
        },
        session_text(second) is Some && json_string_members(session_text(second).unwrap()) == Some(
            written_members(second),
        ) ==> read_session(file_after_store(file_after_store(file, first), second))
            == ReadOutcome::Present(second),
{
    law_get_after_store(file_after_store(file, first), second);
}

/// The text that is stored for a record is never blank, so a stored record
/// is never taken for an empty file.
pub proof fn law_stored_text_is_not_blank(s: SessionView)
    ensures
        session_text(s) is Some ==> !is_blank(session_text(s).unwrap()),
{
    reveal_strlit("{\"access_token\":");
    if session_text(s) is Some {
        let t = session_text(s).unwrap();
        assert(t[0] == '{');
        assert(!is_whitespace(t[0]));
    }
}

/// Reading after a store gives the stored record, wherever the parser reads
/// from the stored text the three members that were written into it.
pub proof fn law_get_after_store(file: Option<Seq<char>>, s: SessionView)
    ensures
        session_text(s) is Some && json_string_members(session_text(s).unwrap()) == Some(
            written_members(s),
        ) ==> read_session(file_after_store(file, s)) == ReadOutcome::Present(s),
{
    law_stored_text_is_not_blank(s);
    lemma_three_members_give_record(s);
}

} // verus!
