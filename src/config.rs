//! Session and room configuration records, and the parsing of a raw login
//! cookie into the fields the platform's APIs need.

use crate::json::str_eq;
use crate::text::{i64_to_decimal, signed_decimal};
use vstd::prelude::*;

verus! {

/// The logged-in user's profile.
#[derive(Debug, Clone)]
pub struct User {
    pub uid: u64,
    pub uname: String,
    pub silver: u64,
    pub gold: u64,
    pub face: String,
    pub achieve: u64,
    pub vip: u64,
    pub svip: u64,
    pub user_level: u64,
    pub user_next_level: u64,
    pub user_intimacy: u64,
    pub user_next_intimacy: u64,
    pub user_level_rank: u64,
    pub user_charged: u64,
    #[allow(non_snake_case)]
    pub billCoin: u64,
}

/// The fields of a login cookie that the platform's APIs read.
#[derive(Debug, Clone)]
#[allow(non_snake_case)]
pub struct Cookie {
    pub DedeUserID: String,
    pub bili_jct: String,
    pub DedeUserID__ckMd5: String,
    pub sid: String,
    pub SESSDATA: String,
}

/// The raw cookie, the user it logs in, and its parsed fields.
#[derive(Debug, Clone)]
pub struct UserConfig {
    pub raw_cookie: String,
    pub user: User,
    pub cookie: Cookie,
}

/// The ids of a room as its init query reports them.
#[derive(Debug, Clone)]
pub struct RoomInit {
    pub room_id: i64,
    pub short_id: i64,
    pub uid: i64,
    pub need_p2p: i32,
    pub is_hidden: bool,
    pub is_locked: bool,
    pub is_portrait: bool,
    /// 0: live; 1: not live; 2: playing a recording.
    pub live_status: i32,
    pub hidden_till: i32,
    pub lock_till: i32,
    pub encrypted: bool,
    pub pwd_verified: bool,
    pub live_time: i64,
    pub room_shield: i32,
    pub is_sp: i32,
    pub special_type: i32,
}

impl RoomInit {
    /// The id the room is addressed by: its short id when it has one.
    pub fn effective_room_id(&self) -> (r: i64)
        ensures
            r == if self.short_id > 0 {
                self.short_id
            } else {
                self.room_id
            },
    {
        if self.short_id > 0 {
            self.short_id
        } else {
            self.room_id
        }
    }
}

/// A room's public description.
#[derive(Debug, Clone)]
pub struct Room {
    pub roomid: String,
    pub uid: String,
    pub content: String,
    pub ctime: String,
    pub status: String,
    pub uname: String,
}

/// The room last connected to.
#[derive(Debug, Clone)]
pub struct RoomConfig {
    pub room_init: RoomInit,
    pub room: Room,
}

/// One websocket server of the platform.
#[derive(Debug, Clone)]
pub struct WsHost {
    pub host: String,
    pub port: i64,
    pub wss_port: i64,
    pub ws_port: i64,
}

/// The address of a websocket server: `<scheme>://<host>:<port>/sub`.
pub open spec fn server_url(scheme: Seq<char>, host: Seq<char>, port: i64) -> Seq<char> {
    scheme + "://"@ + host + ":"@ + signed_decimal(port as int) + "/sub"@
}

impl WsHost {
    /// The plain websocket address of this server.
    pub fn ws_url(&self) -> (r: String)
        ensures
            r@ == server_url("ws"@, self.host@, self.ws_port),
    {
        url_of("ws", self.host.as_str(), self.ws_port)
    }

    /// The TLS websocket address of this server.
    pub fn wss_url(&self) -> (r: String)
        ensures
            r@ == server_url("wss"@, self.host@, self.wss_port),
    {
        url_of("wss", self.host.as_str(), self.wss_port)
    }
}

fn url_of(scheme: &str, host: &str, port: i64) -> (r: String)
    ensures
        r@ == server_url(scheme@, host@, port),
{
    let mut s = String::from_str(scheme);
    s.append("://");
    s.append(host);
    s.append(":");
    let p = i64_to_decimal(port);
    s.append(p.as_str());
    s.append("/sub");
    s
}

/// The address of the server at `pick` (taken modulo the number of
/// servers, so that any drawn number will do); `None` when there is none.
pub fn pick_ws_url(hosts: &Vec<WsHost>, pick: usize, secure: bool) -> (r: Option<String>)
    ensures
        hosts@.len() == 0 <==> r is None,
        r matches Some(u) ==> {
            let h = hosts@[(pick as int) % (hosts@.len() as int)];
            u@ == if secure {
                server_url("wss"@, h.host@, h.wss_port)
            } else {
                server_url("ws"@, h.host@, h.ws_port)
            }
        },
{
    if hosts.len() == 0 {
        return None;
    }
    let host = &hosts[pick % hosts.len()];
    if secure {
        Some(host.wss_url())
    } else {
        Some(host.ws_url())
    }
}

/// How the user's comments are displayed.
#[derive(Debug, Clone)]
pub struct BulletScreen {
    pub color: i64,
    pub length: i64,
    pub mode: i64,
    pub room_id: i64,
}

/// The user's comment settings in a room.
#[derive(Debug, Clone)]
pub struct BulletScreenConfig {
    pub bubble: i64,
    pub bubble_color: String,
    pub danmu: BulletScreen,
    pub uname_color: String,
}

/// A login QR code: where it points and the key that polls it.
#[derive(Debug, Clone)]
#[allow(non_snake_case)]
pub struct QrCode {
    pub url: String,
    pub oauthKey: String,
}

/// `s` cut at every `sep`, as `str::split` cuts it: `n` separators give
/// `n + 1` pieces, empty ones included.
pub open spec fn split(s: Seq<char>, sep: char) -> Seq<Seq<char>>
    decreases s.len(),
{
    if s.len() == 0 {
        seq![Seq::<char>::empty()]
    } else {
        let r = split(s.drop_last(), sep);
        if s.last() == sep {
            r.push(Seq::<char>::empty())
        } else {
            r.update(r.len() - 1, r.last().push(s.last()))
        }
    }
}

/// The characters of each string.
pub open spec fn strings_view(v: Seq<String>) -> Seq<Seq<char>> {
    v.map_values(|x: String| x@)
}

/// Cuts `s` at every `sep`.
pub fn split_str(s: &str, sep: char) -> (r: Vec<String>)
    ensures
        strings_view(r@) == split(s@, sep),
{
    let n = s.unicode_len();
    let mut pieces: Vec<String> = Vec::new();
    let mut start: usize = 0;
    let mut i: usize = 0;
    assert(s@.subrange(0, 0) =~= Seq::<char>::empty());
    assert(strings_view(pieces@).push(s@.subrange(0, 0)) =~= split(s@.subrange(0, 0), sep));
    while i < n
        invariant
            n == s@.len(),
            start <= i <= n,
            strings_view(pieces@).push(s@.subrange(start as int, i as int)) == split(
                s@.subrange(0, i as int),
                sep,
            ),
        decreases n - i,
    {
        let c = s.get_char(i);
        let ghost prefix = s@.subrange(0, i + 1);
        assert(prefix.drop_last() =~= s@.subrange(0, i as int));
        assert(prefix.last() == c);
        if c == sep {
            let piece = s.substring_char(start, i).to_string();
            let ghost before = pieces@;
            pieces.push(piece);
            assert(strings_view(pieces@) =~= strings_view(before).push(s@.subrange(start as int, i as int)));
            start = i + 1;
            assert(s@.subrange(start as int, i + 1) =~= Seq::<char>::empty());
            assert(strings_view(pieces@).push(s@.subrange(start as int, i + 1)) =~= split(
                prefix,
                sep,
            ));
        } else {
            assert(s@.subrange(start as int, i + 1) =~= s@.subrange(start as int, i as int).push(
                c,
            ));
            assert(strings_view(pieces@).push(s@.subrange(start as int, i + 1)) =~= split(
                prefix,
                sep,
            ));
        }
        i += 1;
    }
    let last = s.substring_char(start, n).to_string();
    pieces.push(last);
    assert(s@.subrange(0, n as int) =~= s@);
    assert(strings_view(pieces@) =~= split(s@, sep));
    pieces
}

/// The value that the cookie's `key=value` pairs give `key`: the last pair
/// for it wins, and a piece that is not exactly one `=` apart is skipped.
pub open spec fn cookie_value(pieces: Seq<Seq<char>>, key: Seq<char>) -> Option<Seq<char>>
    decreases pieces.len(),
{
    if pieces.len() == 0 {
        None
    } else {
        let kv = split(pieces.last(), '=');
        if kv.len() == 2 && kv[0] == key {
            Some(kv[1])
        } else {
            cookie_value(pieces.drop_last(), key)
        }
    }
}

fn cookie_get(pieces: &Vec<String>, key: &str) -> (r: Option<String>)
    ensures
        r matches Some(v) ==> cookie_value(strings_view(pieces@), key@) == Some(v@),
        r is None ==> cookie_value(strings_view(pieces@), key@) is None,
{
    let mut i: usize = pieces.len();
    assert(strings_view(pieces@).subrange(0, i as int) =~= strings_view(pieces@));
    while i > 0
        invariant
            i <= pieces@.len(),
            cookie_value(strings_view(pieces@), key@) == cookie_value(
                strings_view(pieces@).subrange(0, i as int),
                key@,
            ),
        decreases i,
    {
        let ghost sub = strings_view(pieces@).subrange(0, i as int);
        assert(sub.last() == pieces@[i - 1]@);
        assert(sub.drop_last() =~= strings_view(pieces@).subrange(0, i - 1));
        let kv = split_str(pieces[i - 1].as_str(), '=');
        assert(strings_view(kv@).len() == kv@.len());
        if kv.len() == 2 {
            assert(strings_view(kv@)[0] == kv@[0]@);
            assert(strings_view(kv@)[1] == kv@[1]@);
            if str_eq(kv[0].as_str(), key) {
                return Some(kv[1].clone());
            }
        }
        i -= 1;
    }
    None
}

/// A field of the login cookie.
#[derive(Debug, Clone, Copy, PartialEq, Eq, Structural)]
pub enum CookieField {
    DedeUserID,
    BiliJct,
    DedeUserIDCkMd5,
    Sid,
    SESSDATA,
}

/// The cookie lacks a field the platform needs.
#[derive(Debug, Clone, Copy, PartialEq, Eq, Structural)]
pub enum CookieError {
    Missing(CookieField),
}

pub struct CookieView {
    pub dede_user_id: Seq<char>,
    pub bili_jct: Seq<char>,
    pub dede_user_id_ck_md5: Seq<char>,
    pub sid: Seq<char>,
    pub sessdata: Seq<char>,
}

impl View for Cookie {
    type V = CookieView;

    open spec fn view(&self) -> CookieView {
        CookieView {
            dede_user_id: self.DedeUserID@,
            bili_jct: self.bili_jct@,
            dede_user_id_ck_md5: self.DedeUserID__ckMd5@,
            sid: self.sid@,
            sessdata: self.SESSDATA@,
        }
    }
}

/// What a raw cookie parses to: its five fields, or the first of them
/// (in the order of `CookieField`) that it lacks.
pub open spec fn parse_cookie(raw: Seq<char>) -> Result<CookieView, CookieField> {
    let p = split(raw, ';');
    let a = cookie_value(p, "DedeUserID"@);
    let b = cookie_value(p, "bili_jct"@);
    let c = cookie_value(p, "DedeUserID__ckMd5"@);
    let d = cookie_value(p, "sid"@);
    let e = cookie_value(p, "SESSDATA"@);
    if a is None {
        Err(CookieField::DedeUserID)
    } else if b is None {
        Err(CookieField::BiliJct)
    } else if c is None {
        Err(CookieField::DedeUserIDCkMd5)
    } else if d is None {
        Err(CookieField::Sid)
    } else if e is None {
        Err(CookieField::SESSDATA)
    } else {
        Ok(
            CookieView {
                dede_user_id: a.unwrap(),
                bili_jct: b.unwrap(),
                dede_user_id_ck_md5: c.unwrap(),
                sid: d.unwrap(),
                sessdata: e.unwrap(),
            },
        )
    }
}

impl Cookie {
    /// Parses a raw cookie: `key=value` pairs separated by `;`, taken as
    /// they stand (no whitespace is trimmed).
    pub fn from_str(raw_cookie: &str) -> (r: Result<Cookie, CookieError>)
        ensures
            r matches Ok(c) ==> parse_cookie(raw_cookie@) == Ok::<CookieView, CookieField>(c@),
            r matches Err(CookieError::Missing(f)) ==> parse_cookie(raw_cookie@) == Err::<
                CookieView,
                CookieField,
            >(f),
    {
        let pieces = split_str(raw_cookie, ';');
        let a = match cookie_get(&pieces, "DedeUserID") {
            Some(v) => v,
            None => return Err(CookieError::Missing(CookieField::DedeUserID)),
        };
        let b = match cookie_get(&pieces, "bili_jct") {
            Some(v) => v,
            None => return Err(CookieError::Missing(CookieField::BiliJct)),
        };
        let c = match cookie_get(&pieces, "DedeUserID__ckMd5") {
            Some(v) => v,
            None => return Err(CookieError::Missing(CookieField::DedeUserIDCkMd5)),
        };
        let d = match cookie_get(&pieces, "sid") {
            Some(v) => v,
            None => return Err(CookieError::Missing(CookieField::Sid)),
        };
        let e = match cookie_get(&pieces, "SESSDATA") {
            Some(v) => v,
            None => return Err(CookieError::Missing(CookieField::SESSDATA)),
        };
        Ok(Cookie { DedeUserID: a, bili_jct: b, DedeUserID__ckMd5: c, sid: d, SESSDATA: e })
    }
}

} // verus!
