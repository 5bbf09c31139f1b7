//! Session identifiers.
//!
//! A session id reads `session-{channel}-{unix seconds}-{six hex digits}`.

use vstd::prelude::*;
use vstd::string::*;
use crate::clock::unix_secs;
use crate::slack::types::ChannelId;
use crate::text::{decimal, push_decimal};
use uuid::Uuid;

verus! {

/// Whether `c` is a digit or one of `a` to `f`.
pub open spec fn is_lower_hex(c: char) -> bool {
    ('0' <= c && c <= '9') || ('a' <= c && c <= 'f')
}

/// Whether `s` has the hyphenated lower-case form of a UUID: 36 characters,
/// hyphens at 8, 13, 18 and 23, hexadecimal digits elsewhere.
pub open spec fn is_hyphenated_uuid(s: Seq<char>) -> bool {
    s.len() == 36 && forall|i: int|
        0 <= i < 36 ==> if i == 8 || i == 13 || i == 18 || i == 23 {
            #[trigger] s[i] == '-'
        } else {
            is_lower_hex(s[i])
        }
}

/// Whether `s` can be the random tail of a session id.
pub open spec fn is_session_tag(s: Seq<char>) -> bool {
    s.len() == 6 && forall|i: int| 0 <= i < 6 ==> is_lower_hex(#[trigger] s[i])
}

/// The session id of `channel`, started at `timestamp`, with the tail `tag`.
pub open spec fn session_id_text(channel: Seq<char>, timestamp: u64, tag: Seq<char>) -> Seq<
    char,
> {
    "session-"@ + channel + "-"@ + decimal(timestamp as nat) + "-"@ + tag
}

/// A fresh random UUID, written in its hyphenated lower-case form.
///
/// Trusted: `Uuid::new_v4` returns a UUID, and its `Display` writes the 36
/// characters of the hyphenated form with lower-case digits. Nothing is
/// claimed of which UUID it is.
#[verifier::external_body]
fn random_uuid_text() -> (res: String)
    ensures
        is_hyphenated_uuid(res@),
{
    Uuid::new_v4().to_string()
}

/// The session id made of the three given parts.
pub fn compose_session_id(channel_id: &ChannelId, timestamp: u64, tag: &str) -> (res: String)
    ensures
        res@ == session_id_text(channel_id@, timestamp, tag@),
{
    let mut id = String::from_str("session-");
    id.append(channel_id.as_str());
    id.append("-");
    push_decimal(&mut id, timestamp as u128);
    id.append("-");
    id.append(tag);
    id
}

/// A new session id for the channel: the present time and six random
/// hexadecimal digits make it differ from every earlier one.
pub fn generate_session_id(channel_id: &ChannelId) -> (res: String)
    ensures
        exists|timestamp: u64, tag: Seq<char>|
            is_session_tag(tag) && res@ == #[trigger] session_id_text(
                channel_id@,
                timestamp,
                tag,
            ),
{
    let timestamp = unix_secs();
    let uuid = random_uuid_text();
    let tag = uuid.as_str().substring_char(0, 6);
    proof {
        assert forall|i: int| 0 <= i < 6 implies is_lower_hex(#[trigger] tag@[i]) by {
            assert(tag@[i] == uuid@[i]);
        }
    }
    let id = compose_session_id(channel_id, timestamp, tag);
    assert(is_session_tag(tag@));
    id
}

} // verus!
