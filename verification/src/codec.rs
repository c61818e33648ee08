//! The text of the session file: how a record is written, and which texts
//! are read back as a record.

use vstd::prelude::*;
use vstd::string::*;
use crate::json::{
    json_error_message,
    json_string_literal,
    json_string_members,
    members_view,
    string_members_from_json,
    string_to_json,
};
use crate::session::{SessionError, SessionView, StoredSession};

verus! {

/// The file's text for three JSON string literals: one object, the three
/// fields in their fixed order, no white space.
pub open spec fn framed_session(
    access_token: Seq<char>,
    refresh_token: Seq<char>,
    user_id: Seq<char>,
) -> Seq<char> {
    "{\"access_token\":"@ + access_token + ",\"refresh_token\":"@ + refresh_token
        + ",\"user_id\":"@ + user_id + "}"@
}

/// The file's text for a record; `None` where one of its strings cannot be
/// encoded.
pub open spec fn session_text(s: SessionView) -> Option<Seq<char>> {
    match (
        json_string_literal(s.access_token),
        json_string_literal(s.refresh_token),
        json_string_literal(s.user_id),
    ) {
        (Some(a), Some(r), Some(u)) => Some(framed_session(a, r, u)),
        _ => None,
    }
}

/// The value of the first member called `name`, if there is one.
pub open spec fn member_value(members: Seq<(Seq<char>, Seq<char>)>, name: Seq<char>) -> Option<
    Seq<char>,
>
    decreases members.len(),
{
    if members.len() == 0 {
        None
    } else if members[0].0 == name {
        Some(members[0].1)
    } else {
        member_value(members.drop_first(), name)
    }
}

/// The record that a list of members stands for: there are exactly three,
/// and each of the three fields is among them.
pub open spec fn session_of_members(members: Seq<(Seq<char>, Seq<char>)>) -> Option<SessionView> {
    let a = member_value(members, "access_token"@);
    let r = member_value(members, "refresh_token"@);
    let u = member_value(members, "user_id"@);
    if members.len() == 3 && a is Some && r is Some && u is Some {
        Some(SessionView { access_token: a.unwrap(), refresh_token: r.unwrap(), user_id: u.unwrap() })
    } else {
        None
    }
}

/// The record that a text decodes to; `None` where the text is no JSON
/// object of strings, or is one of another shape.
pub open spec fn decoded_session(text: Seq<char>) -> Option<SessionView> {
    match json_string_members(text) {
        Some(members) => session_of_members(members),
        None => None,
    }
}

/// What the error says where the text is JSON of another shape.
pub open spec fn wrong_shape_message() -> Seq<char> {
    "expected an object with exactly the string fields access_token, refresh_token and user_id"@
}

/// Puts three JSON string literals into the object that the file holds.
pub fn frame_session(access_token: &str, refresh_token: &str, user_id: &str) -> (text: String)
    ensures
        text@ == framed_session(access_token@, refresh_token@, user_id@),
{
    let mut text = String::from_str("{\"access_token\":");
    text.append(access_token);
    text.append(",\"refresh_token\":");
    text.append(refresh_token);
    text.append(",\"user_id\":");
    text.append(user_id);
    text.append("}");
    text
}

/// Encodes one string of a record, with the store's own error.
fn encode_field(s: &str) -> (r: Result<String, SessionError>)
    ensures
        match json_string_literal(s@) {
            Some(t) => r matches Ok(lit) && lit@ == t,
            None => r matches Err(e) && e is Serialization,
        },
{
    match string_to_json(s) {
        Ok(lit) => Ok(lit),
        Err(e) => Err(SessionError::Serialization(json_error_message(&e))),
    }
}

/// Writes a record as the text of the session file.
pub fn encode_session(session: &StoredSession) -> (r: Result<String, SessionError>)
    ensures
        match session_text(session@) {
            Some(t) => r matches Ok(text) && text@ == t,
            None => r matches Err(e) && e is Serialization,
        },
{
    let a = encode_field(session.access_token.as_str())?;
    let r = encode_field(session.refresh_token.as_str())?;
    let u = encode_field(session.user_id.as_str())?;
    Ok(frame_session(a.as_str(), r.as_str(), u.as_str()))
}

/// Looks a member up by its name and hands out a copy of its value.
pub fn find_member(members: &Vec<(String, String)>, name: &str) -> (r: Option<String>)
    ensures
        match member_value(members_view(members@), name@) {
            Some(v) => r matches Some(found) && found@ == v,
            None => r is None,
        },
{
    let wanted = String::from_str(name);
    let ghost all = members_view(members@);
    let mut i: usize = 0;
    proof {
        assert(all.skip(0) =~= all);
    }
    while i < members.len()
        invariant
            i <= members.len(),
            wanted@ == name@,
            all == members_view(members@),
            member_value(all, name@) == member_value(all.skip(i as int), name@),
        decreases members.len() - i,
    {
        proof {
            assert(all.skip(i as int).drop_first() =~= all.skip(i + 1));
            assert(all.skip(i as int)[0] == all[i as int]);
        }
        if members[i].0 == wanted {
            return Some(members[i].1.clone());
        }
        i = i + 1;
    }
    None
}

/// Builds the record from the members of a JSON object.
pub fn session_from_members(members: &Vec<(String, String)>) -> (r: Option<StoredSession>)
    ensures
        match session_of_members(members_view(members@)) {
            Some(v) => r matches Some(s) && s@ == v,
            None => r is None,
        },
{
    if members.len() != 3 {
        return None;
    }
    match (
        find_member(members, "access_token"),
        find_member(members, "refresh_token"),
        find_member(members, "user_id"),
    ) {
        (Some(access_token), Some(refresh_token), Some(user_id)) => Some(
            StoredSession { access_token, refresh_token, user_id },
        ),
        _ => None,
    }
}

/// Reads a record from the text of the session file.
pub fn decode_session(text: &str) -> (r: Result<StoredSession, SessionError>)
    ensures
        match decoded_session(text@) {
            Some(v) => r matches Ok(s) && s@ == v,
            None => r matches Err(e) && e is Deserialization,
        },
        json_string_members(text@) is Some && decoded_session(text@) is None ==> (r matches Err(e)
            && e.spec_message() == wrong_shape_message()),
{
    match string_members_from_json(text) {
        Ok(members) => match session_from_members(&members) {
            Some(session) => Ok(session),
            None => Err(
                SessionError::Deserialization(
                    String::from_str(
                        "expected an object with exactly the string fields access_token, refresh_token and user_id",
                    ),
                ),
            ),
        },
        Err(e) => Err(SessionError::Deserialization(json_error_message(&e))),
    }
}

/// Whatever three strings a record holds, the three members that are
/// written for it are read back as that record.
pub proof fn lemma_three_members_give_record(s: SessionView)
    ensures
        session_of_members(
            seq![
                ("access_token"@, s.access_token),
                ("refresh_token"@, s.refresh_token),
                ("user_id"@, s.user_id),
            ],
        ) == Some(s),
{
    reveal_strlit("access_token");
    reveal_strlit("refresh_token");
    reveal_strlit("user_id");
    let m = seq![
        ("access_token"@, s.access_token),
        ("refresh_token"@, s.refresh_token),
        ("user_id"@, s.user_id),
    ];
    let m1 = m.drop_first();
    let m2 = m1.drop_first();
    assert(m1[0] == m[1]);
    assert(m2[0] == m[2]);
    assert("access_token"@.len() == 12);
    assert("refresh_token"@.len() == 13);
    assert("user_id"@.len() == 7);
    reveal_with_fuel(member_value, 4);
}

} // verus!
