//! The form that posts a line of chat back to a room.

use crate::config::{BulletScreenConfig, RoomConfig, UserConfig};
use crate::text::{decimal, i64_to_decimal, signed_decimal, u64_to_decimal};
use vstd::prelude::*;

verus! {

/// At most the first ten characters of `s`.
pub open spec fn first_ten(s: Seq<char>) -> Seq<char> {
    if s.len() > 10 {
        s.subrange(0, 10)
    } else {
        s
    }
}

/// The fields of the chat form, in order: colour, font size, mode, the
/// message, a nonce (the first ten digits of the time in milliseconds), the
/// room, the bubble style, and the CSRF token twice.
pub open spec fn form_of(
    msg: Seq<char>,
    room: RoomConfig,
    user: UserConfig,
    danmu: BulletScreenConfig,
    now_millis: u64,
) -> Seq<(Seq<char>, Seq<char>)> {
    seq![
        ("color"@, signed_decimal(danmu.danmu.color as int)),
        ("fontsize"@, "25"@),
        ("mode"@, signed_decimal(danmu.danmu.mode as int)),
        ("msg"@, msg),
        ("rnd"@, first_ten(decimal(now_millis as nat))),
        ("roomid"@, signed_decimal(room.room_init.room_id as int)),
        ("bubble"@, signed_decimal(danmu.bubble as int)),
        ("csrf_token"@, user.cookie.bili_jct@),
        ("csrf"@, user.cookie.bili_jct@),
    ]
}

/// The characters of each key and value.
pub open spec fn pairs_view(v: Seq<(String, String)>) -> Seq<(Seq<char>, Seq<char>)> {
    v.map_values(|p: (String, String)| (p.0@, p.1@))
}

fn pair(key: &str, value: String) -> (r: (String, String))
    ensures
        r.0@ == key@,
        r.1@ == value@,
{
    (key.to_string(), value)
}

/// Builds the chat form for `msg`, sent at `now_millis`.
pub fn build_form(
    msg: String,
    room: &RoomConfig,
    user: &UserConfig,
    danmu: &BulletScreenConfig,
    now_millis: u64,
) -> (r: Vec<(String, String)>)
    ensures
        pairs_view(r@) == form_of(msg@, *room, *user, *danmu, now_millis),
{
    let ghost m = msg@;
    let time = u64_to_decimal(now_millis);
    let rnd = if time.unicode_len() > 10 {
        time.as_str().substring_char(0, 10).to_string()
    } else {
        time
    };
    let mut form: Vec<(String, String)> = Vec::new();
    form.push(pair("color", i64_to_decimal(danmu.danmu.color)));
    form.push(pair("fontsize", "25".to_string()));
    form.push(pair("mode", i64_to_decimal(danmu.danmu.mode)));
    form.push(pair("msg", msg));
    form.push(pair("rnd", rnd));
    form.push(pair("roomid", i64_to_decimal(room.room_init.room_id)));
    form.push(pair("bubble", i64_to_decimal(danmu.bubble)));
    form.push(pair("csrf_token", user.cookie.bili_jct.clone()));
    form.push(pair("csrf", user.cookie.bili_jct.clone()));
    assert(pairs_view(form@) =~= form_of(m, *room, *user, *danmu, now_millis));
    form
}

} // verus!
