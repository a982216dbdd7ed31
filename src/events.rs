//! Domain events and the normalizer that reads them out of notification
//! documents. Every positional field falls back to a default when it is
//! missing or of another JSON type.

use crate::codec::{BiliWebsocketInner, BiliWebsocketMessageBody};
use crate::json::{
    array_len_at, array_len_of, field, field_at, item, item_at, str_at, str_eq, str_of, u64_at,
    u64_of, JsonValue,
};
use vstd::prelude::*;

verus! {

/// A viewer's paid-subscription rank in a room.
#[derive(Debug, Clone, Copy, PartialEq, Eq, Structural)]
pub enum GuardType {
    NoGuard,
    Captain,
    Admiral,
    Governor,
}

/// The guard tier of a numeric code: 1, 2 and 3 from the highest tier down.
pub open spec fn guard_of_code(n: u64) -> GuardType {
    if n == 1 {
        GuardType::Governor
    } else if n == 2 {
        GuardType::Admiral
    } else if n == 3 {
        GuardType::Captain
    } else {
        GuardType::NoGuard
    }
}

impl GuardType {
    pub fn from_code(n: u64) -> (r: GuardType)
        ensures
            r == guard_of_code(n),
    {
        if n == 1 {
            GuardType::Governor
        } else if n == 2 {
            GuardType::Admiral
        } else if n == 3 {
            GuardType::Captain
        } else {
            GuardType::NoGuard
        }
    }
}

impl From<u64> for GuardType {
    fn from(n: u64) -> (r: GuardType) {
        GuardType::from_code(n)
    }
}

impl vstd::std_specs::convert::FromSpecImpl<u64> for GuardType {
    open spec fn obeys_from_spec() -> bool {
        true
    }

    open spec fn from_spec(n: u64) -> GuardType {
        guard_of_code(n)
    }
}

/// A fan badge, tied to a streamer's room.
#[derive(Debug, Clone)]
pub struct Medal {
    pub level: u64,
    pub name: String,
    pub streamer_name: String,
    pub streamer_roomid: u64,
}

pub struct MedalView {
    pub level: u64,
    pub name: Seq<char>,
    pub streamer_name: Seq<char>,
    pub streamer_roomid: u64,
}

impl View for Medal {
    type V = MedalView;

    open spec fn view(&self) -> MedalView {
        MedalView {
            level: self.level,
            name: self.name@,
            streamer_name: self.streamer_name@,
            streamer_roomid: self.streamer_roomid,
        }
    }
}

/// A chat comment.
#[derive(Debug, Clone)]
pub struct DanmuMessage {
    pub uid: u64,
    pub uname: String,
    pub content: String,
    /// Generated by the platform on behalf of a gift.
    pub is_gift_auto: bool,
    pub sent_time: u64,
    pub is_manager: bool,
    pub is_vip: bool,
    pub is_svip: bool,
    pub is_full_member: bool,
    pub medal: Option<Medal>,
    /// User level and the label of its rank.
    pub ul: u64,
    pub ul_rank: String,
    pub guard: GuardType,
}

pub struct DanmuView {
    pub uid: u64,
    pub uname: Seq<char>,
    pub content: Seq<char>,
    pub is_gift_auto: bool,
    pub sent_time: u64,
    pub is_manager: bool,
    pub is_vip: bool,
    pub is_svip: bool,
    pub is_full_member: bool,
    pub medal: Option<MedalView>,
    pub ul: u64,
    pub ul_rank: Seq<char>,
    pub guard: GuardType,
}

/// The view of an optional badge.
pub open spec fn medal_view(m: Option<Medal>) -> Option<MedalView> {
    match m {
        Some(x) => Some(x@),
        None => None,
    }
}

impl View for DanmuMessage {
    type V = DanmuView;

    open spec fn view(&self) -> DanmuView {
        DanmuView {
            uid: self.uid,
            uname: self.uname@,
            content: self.content@,
            is_gift_auto: self.is_gift_auto,
            sent_time: self.sent_time,
            is_manager: self.is_manager,
            is_vip: self.is_vip,
            is_svip: self.is_svip,
            is_full_member: self.is_full_member,
            medal: medal_view(self.medal),
            ul: self.ul,
            ul_rank: self.ul_rank@,
            guard: self.guard,
        }
    }
}

/// A gift sent to the room.
#[derive(Debug, Clone)]
pub struct GiftMessage {
    pub uid: u64,
    pub uname: String,
    pub guard: GuardType,
    pub gift_id: u64,
    pub gift_name: String,
    pub gift_num: u64,
}

pub struct GiftView {
    pub uid: u64,
    pub uname: Seq<char>,
    pub guard: GuardType,
    pub gift_id: u64,
    pub gift_name: Seq<char>,
    pub gift_num: u64,
}

impl View for GiftMessage {
    type V = GiftView;

    open spec fn view(&self) -> GiftView {
        GiftView {
            uid: self.uid,
            uname: self.uname@,
            guard: self.guard,
            gift_id: self.gift_id,
            gift_name: self.gift_name@,
            gift_num: self.gift_num,
        }
    }
}

/// The events handed to subscribers.
#[derive(Debug, Clone)]
pub enum BiliMessage {
    Danmu(DanmuMessage),
    Gift(GiftMessage),
    RoomPopularity(i32),
}

pub enum MessageView {
    Danmu(DanmuView),
    Gift(GiftView),
    RoomPopularity(i32),
}

impl View for BiliMessage {
    type V = MessageView;

    open spec fn view(&self) -> MessageView {
        match self {
            BiliMessage::Danmu(d) => MessageView::Danmu(d@),
            BiliMessage::Gift(g) => MessageView::Gift(g@),
            BiliMessage::RoomPopularity(n) => MessageView::RoomPopularity(*n),
        }
    }
}

/// `v` as a non-negative integer, or `d`.
pub open spec fn u64_or(v: Option<JsonValue>, d: u64) -> u64 {
    match u64_of(v) {
        Some(n) => n,
        None => d,
    }
}

/// `v` as a string, or `d`.
pub open spec fn str_or(v: Option<JsonValue>, d: Seq<char>) -> Seq<char> {
    match str_of(v) {
        Some(s) => s,
        None => d,
    }
}

/// Whether `v` is the number `n`.
pub open spec fn is_code(v: Option<JsonValue>, n: u64) -> bool {
    u64_of(v) == Some(n)
}

/// The badge at `info[3]`: present when it is an array of at least four elements.
pub open spec fn medal_of(m: Option<JsonValue>) -> Option<MedalView> {
    match array_len_of(m) {
        Some(len) => if len >= 4 {
            Some(
                MedalView {
                    level: u64_or(item(m, 0), 0),
                    name: str_or(item(m, 1), ""@),
                    streamer_name: str_or(item(m, 2), ""@),
                    streamer_roomid: u64_or(item(m, 3), 0),
                },
            )
        } else {
            None
        },
        None => None,
    }
}

/// The name given to a sender whose name is missing.
pub open spec fn placeholder_uname() -> Seq<char> {
    "B站用户"@
}

/// The rank label of a user whose level is missing.
pub open spec fn unranked_label() -> Seq<char> {
    ">50000"@
}

/// The comment that a `DANMU_MSG` document describes: present whenever its
/// `info` is an array.
pub open spec fn danmu_of(j: JsonValue) -> Option<DanmuView> {
    let info = field(Some(j), "info"@);
    let d = item(info, 0);
    let s = item(info, 2);
    let ul = item(info, 4);
    if array_len_of(info) is None {
        None
    } else {
        Some(
            DanmuView {
                uid: u64_or(item(s, 0), 0),
                uname: str_or(item(s, 1), placeholder_uname()),
                content: str_or(item(info, 1), ""@),
                is_gift_auto: is_code(item(d, 9), 2),
                sent_time: u64_or(item(d, 4), 0),
                is_manager: is_code(item(s, 2), 1),
                is_vip: is_code(item(s, 3), 1),
                is_svip: is_code(item(s, 4), 1),
                is_full_member: is_code(item(s, 5), 10000),
                medal: medal_of(item(info, 3)),
                ul: if array_len_of(ul) is Some {
                    u64_or(item(ul, 0), 0)
                } else {
                    0
                },
                ul_rank: if array_len_of(ul) is Some {
                    str_or(item(ul, 1), ""@)
                } else {
                    unranked_label()
                },
                guard: guard_of_code(u64_or(item(info, 7), 0)),
            },
        )
    }
}

/// A gift read from the given places; `None` when the sender's id or name,
/// or the gift's id, name or count, is missing.
pub open spec fn gift_from(
    uid: Option<JsonValue>,
    uname: Option<JsonValue>,
    guard: Option<JsonValue>,
    gift_id: Option<JsonValue>,
    gift_name: Option<JsonValue>,
    gift_num: Option<JsonValue>,
) -> Option<GiftView> {
    if u64_of(uid) is Some && str_of(uname) is Some && u64_of(gift_id) is Some && str_of(
        gift_name,
    ) is Some && u64_of(gift_num) is Some {
        Some(
            GiftView {
                uid: u64_or(uid, 0),
                uname: str_or(uname, ""@),
                guard: guard_of_code(u64_or(guard, 0)),
                gift_id: u64_or(gift_id, 0),
                gift_name: str_or(gift_name, ""@),
                gift_num: u64_or(gift_num, 0),
            },
        )
    } else {
        None
    }
}

/// The gift of a `SEND_GIFT` document.
pub open spec fn send_gift_of(j: JsonValue) -> Option<GiftView> {
    let data = field(Some(j), "data"@);
    let combo = field(data, "combo_send"@);
    gift_from(
        field(data, "uid"@),
        field(data, "uname"@),
        field(data, "guard_level"@),
        field(combo, "gift_id"@),
        field(combo, "gift_name"@),
        field(combo, "gift_num"@),
    )
}

/// The gift of a `COMBO_SEND` document.
pub open spec fn combo_gift_of(j: JsonValue) -> Option<GiftView> {
    let data = field(Some(j), "data"@);
    gift_from(
        field(data, "uid"@),
        field(data, "uname"@),
        field(field(data, "medal_info"@), "guard_level"@),
        field(data, "gift_id"@),
        field(data, "gift_name"@),
        field(data, "combo_num"@),
    )
}

/// The `cmd` string of a notification.
pub open spec fn cmd_of(j: JsonValue) -> Option<Seq<char>> {
    str_of(field(Some(j), "cmd"@))
}

/// The event that a notification document normalizes to.
pub open spec fn notification_event(j: JsonValue) -> Option<MessageView> {
    match cmd_of(j) {
        Some(c) => if c == "DANMU_MSG"@ {
            match danmu_of(j) {
                Some(d) => Some(MessageView::Danmu(d)),
                None => None,
            }
        } else if c == "SEND_GIFT"@ {
            match send_gift_of(j) {
                Some(g) => Some(MessageView::Gift(g)),
                None => None,
            }
        } else if c == "COMBO_SEND"@ {
            match combo_gift_of(j) {
                Some(g) => Some(MessageView::Gift(g)),
                None => None,
            }
        } else {
            None
        },
        None => None,
    }
}

/// The event that a decoded frame normalizes to.
pub open spec fn frame_event(body: BiliWebsocketMessageBody) -> Option<MessageView> {
    match body {
        BiliWebsocketMessageBody::RoomPopularity(n) => Some(MessageView::RoomPopularity(n)),
        BiliWebsocketMessageBody::Notification(j) => notification_event(j),
        BiliWebsocketMessageBody::EntryReply => None,
    }
}

/// The view of an optional value.
pub open spec fn opt_view<T: View>(r: Option<T>) -> Option<T::V> {
    match r {
        Some(x) => Some(x@),
        None => None,
    }
}

fn u64_or_at(v: Option<&JsonValue>, d: u64) -> (r: u64)
    ensures
        r == u64_or(crate::json::unref(v), d),
{
    match u64_at(v) {
        Some(n) => n,
        None => d,
    }
}

fn string_or_at(v: Option<&JsonValue>, d: &str) -> (r: String)
    ensures
        r@ == str_or(crate::json::unref(v), d@),
{
    match str_at(v) {
        Some(s) => s.to_string(),
        None => d.to_string(),
    }
}

fn is_code_at(v: Option<&JsonValue>, n: u64) -> (r: bool)
    ensures
        r == is_code(crate::json::unref(v), n),
{
    match u64_at(v) {
        Some(x) => x == n,
        None => false,
    }
}

fn medal_at(m: Option<&JsonValue>) -> (r: Option<Medal>)
    ensures
        medal_view(r) == medal_of(crate::json::unref(m)),
{
    match array_len_at(m) {
        Some(len) => if len >= 4 {
            Some(
                Medal {
                    level: u64_or_at(item_at(m, 0), 0),
                    name: string_or_at(item_at(m, 1), ""),
                    streamer_name: string_or_at(item_at(m, 2), ""),
                    streamer_roomid: u64_or_at(item_at(m, 3), 0),
                },
            )
        } else {
            None
        },
        None => None,
    }
}


/// The sample comment, whatever its time.
pub open spec fn is_sample_danmu(r: DanmuMessage) -> bool {
    &&& r.uid == 0
    &&& r.uname@ == "测试用户"@
    &&& r.content@ == "你好Bilibili"@
    &&& !r.is_gift_auto
    &&& r.is_manager && r.is_vip && r.is_svip && r.is_full_member
    &&& r.medal matches Some(m) && m.level == 40 && m.name@ == "哈哈哈"@ && m.streamer_name@ == ""@
        && m.streamer_roomid == 0
    &&& r.ul == 37
    &&& r.ul_rank@ == ""@
    &&& r.guard == GuardType::Captain
}

impl DanmuMessage {
    /// Reads a `DANMU_MSG` document.
    pub fn from_raw(value: &JsonValue) -> (r: Option<DanmuMessage>)
        ensures
            opt_view(r) == danmu_of(*value),
    {
        let info = field_at(Some(value), "info");
        if array_len_at(info).is_none() {
            return None;
        }
        let d = item_at(info, 0);
        let s = item_at(info, 2);
        let ul_info = item_at(info, 4);
        let has_ul = array_len_at(ul_info).is_some();
        let ul = if has_ul {
            u64_or_at(item_at(ul_info, 0), 0)
        } else {
            0
        };
        let ul_rank = if has_ul {
            string_or_at(item_at(ul_info, 1), "")
        } else {
            ">50000".to_string()
        };
        let msg = DanmuMessage {
            uid: u64_or_at(item_at(s, 0), 0),
            uname: string_or_at(item_at(s, 1), "B站用户"),
            content: string_or_at(item_at(info, 1), ""),
            is_gift_auto: is_code_at(item_at(d, 9), 2),
            sent_time: u64_or_at(item_at(d, 4), 0),
            is_manager: is_code_at(item_at(s, 2), 1),
            is_vip: is_code_at(item_at(s, 3), 1),
            is_svip: is_code_at(item_at(s, 4), 1),
            is_full_member: is_code_at(item_at(s, 5), 10000),
            medal: medal_at(item_at(info, 3)),
            ul,
            ul_rank,
            guard: GuardType::from_code(u64_or_at(item_at(info, 7), 0)),
        };
        Some(msg)
    }

    pub fn has_medal(&self) -> (r: bool)
        ensures
            r == self.medal.is_some(),
    {
        self.medal.is_some()
    }

    pub fn medal_level(&self) -> (r: Option<u64>)
        ensures
            r == (match self.medal {
                Some(m) => Some(m.level),
                None => None::<u64>,
            }),
    {
        match &self.medal {
            Some(m) => Some(m.level),
            None => None,
        }
    }

    pub fn medal_name(&self) -> (r: Option<&str>)
        ensures
            r matches Some(s) ==> (self.medal matches Some(m) && s@ == m.name@),
            r is None ==> self.medal is None,
    {
        match &self.medal {
            Some(m) => Some(m.name.as_str()),
            None => None,
        }
    }

    pub fn medal_streamer_name(&self) -> (r: Option<&str>)
        ensures
            r matches Some(s) ==> (self.medal matches Some(m) && s@ == m.streamer_name@),
            r is None ==> self.medal is None,
    {
        match &self.medal {
            Some(m) => Some(m.streamer_name.as_str()),
            None => None,
        }
    }

    pub fn medal_streamer_roomid(&self) -> (r: Option<u64>)
        ensures
            r == (match self.medal {
                Some(m) => Some(m.streamer_roomid),
                None => None::<u64>,
            }),
    {
        match &self.medal {
            Some(m) => Some(m.streamer_roomid),
            None => None,
        }
    }

    /// A sample comment sent at `sent_time`.
    pub fn default_message_at(sent_time: u64) -> (r: DanmuMessage)
        ensures
            is_sample_danmu(r),
            r.sent_time == sent_time,
    {
        DanmuMessage {
            uid: 0,
            uname: "测试用户".to_string(),
            content: "你好Bilibili".to_string(),
            is_gift_auto: false,
            sent_time,
            is_manager: true,
            is_vip: true,
            is_svip: true,
            is_full_member: true,
            medal: Some(
                Medal {
                    level: 40,
                    name: "哈哈哈".to_string(),
                    streamer_name: "".to_string(),
                    streamer_roomid: 0,
                },
            ),
            ul: 37,
            ul_rank: "".to_string(),
            guard: GuardType::Captain,
        }
    }

    /// A sample comment sent now.
    pub fn default_message() -> (r: DanmuMessage)
        ensures
            is_sample_danmu(r),
    {
        DanmuMessage::default_message_at(unix_millis())
    }
}

/// Relies on std::time::SystemTime::elapsed, from the Unix epoch: the clock's
/// time in milliseconds (0 for a clock set before the epoch); nothing is
/// known of the value.
#[verifier::external_body]
fn unix_millis() -> u64 {
    std::time::UNIX_EPOCH.elapsed().map_or(0, |d| d.as_millis() as u64)
}

impl GiftMessage {
    /// Reads a `SEND_GIFT` document.
    pub fn from_raw(value: &JsonValue) -> (r: Option<GiftMessage>)
        ensures
            opt_view(r) == send_gift_of(*value),
    {
        let data = field_at(Some(value), "data");
        let combo = field_at(data, "combo_send");
        gift_at(
            field_at(data, "uid"),
            field_at(data, "uname"),
            field_at(data, "guard_level"),
            field_at(combo, "gift_id"),
            field_at(combo, "gift_name"),
            field_at(combo, "gift_num"),
        )
    }

    /// Reads a `COMBO_SEND` document.
    pub fn from_raw_combo(value: &JsonValue) -> (r: Option<GiftMessage>)
        ensures
            opt_view(r) == combo_gift_of(*value),
    {
        let data = field_at(Some(value), "data");
        gift_at(
            field_at(data, "uid"),
            field_at(data, "uname"),
            field_at(field_at(data, "medal_info"), "guard_level"),
            field_at(data, "gift_id"),
            field_at(data, "gift_name"),
            field_at(data, "combo_num"),
        )
    }

    /// A sample gift: one 小花花 from 测试用户.
    pub fn default_message() -> (r: GiftMessage)
        ensures
            r.uid == 0,
            r.uname@ == "测试用户"@,
            r.guard == GuardType::Captain,
            r.gift_id == 0,
            r.gift_name@ == "小花花"@,
            r.gift_num == 1,
    {
        GiftMessage {
            uid: 0,
            uname: "测试用户".to_string(),
            guard: GuardType::Captain,
            gift_id: 0,
            gift_name: "小花花".to_string(),
            gift_num: 1,
        }
    }
}

fn gift_at(
    uid: Option<&JsonValue>,
    uname: Option<&JsonValue>,
    guard: Option<&JsonValue>,
    gift_id: Option<&JsonValue>,
    gift_name: Option<&JsonValue>,
    gift_num: Option<&JsonValue>,
) -> (r: Option<GiftMessage>)
    ensures
        opt_view(r) == gift_from(
            crate::json::unref(uid),
            crate::json::unref(uname),
            crate::json::unref(guard),
            crate::json::unref(gift_id),
            crate::json::unref(gift_name),
            crate::json::unref(gift_num),
        ),
{
    let uid = match u64_at(uid) {
        Some(n) => n,
        None => return None,
    };
    let uname = match str_at(uname) {
        Some(s) => s.to_string(),
        None => return None,
    };
    let gift_id = match u64_at(gift_id) {
        Some(n) => n,
        None => return None,
    };
    let gift_name = match str_at(gift_name) {
        Some(s) => s.to_string(),
        None => return None,
    };
    let gift_num = match u64_at(gift_num) {
        Some(n) => n,
        None => return None,
    };
    Some(
        GiftMessage {
            uid,
            uname,
            guard: GuardType::from_code(u64_or_at(guard, 0)),
            gift_id,
            gift_name,
            gift_num,
        },
    )
}

impl BiliMessage {
    /// Normalizes a notification document: comments and gifts by their
    /// `cmd`; any other or missing `cmd` gives no event.
    pub fn from_notification(j: &JsonValue) -> (r: Option<BiliMessage>)
        ensures
            opt_view(r) == notification_event(*j),
    {
        let cmd = match str_at(field_at(Some(j), "cmd")) {
            Some(c) => c,
            None => return None,
        };
        if str_eq(cmd, "DANMU_MSG") {
            match DanmuMessage::from_raw(j) {
                Some(d) => Some(BiliMessage::Danmu(d)),
                None => None,
            }
        } else if str_eq(cmd, "SEND_GIFT") {
            match GiftMessage::from_raw(j) {
                Some(g) => Some(BiliMessage::Gift(g)),
                None => None,
            }
        } else if str_eq(cmd, "COMBO_SEND") {
            match GiftMessage::from_raw_combo(j) {
                Some(g) => Some(BiliMessage::Gift(g)),
                None => None,
            }
        } else {
            None
        }
    }

    /// Normalizes a decoded frame: a viewer-count pulse passes through, a
    /// notification is read by its `cmd`, and the handshake reply gives no event.
    pub fn from_raw_wesocket_message(msg: BiliWebsocketInner) -> (r: Option<BiliMessage>)
        ensures
            opt_view(r) == frame_event(msg.body),
    {
        match msg.into_body() {
            BiliWebsocketMessageBody::RoomPopularity(n) => Some(BiliMessage::RoomPopularity(n)),
            BiliWebsocketMessageBody::Notification(j) => BiliMessage::from_notification(&j),
            BiliWebsocketMessageBody::EntryReply => None,
        }
    }
}


/// A comment whose badge slot is the empty array still normalizes to a
/// comment, one without a badge.
pub proof fn lemma_empty_badge(j: JsonValue)
    requires
        cmd_of(j) == Some("DANMU_MSG"@),
        array_len_of(field(Some(j), "info"@)) is Some,
        array_len_of(item(field(Some(j), "info"@), 3)) == Some(0int),
    ensures
        notification_event(j) matches Some(MessageView::Danmu(d)) && d.medal is None,
{
}

/// A comment without a user-level array normalizes to level 0 and the rank
/// label ">50000".
pub proof fn lemma_missing_level(j: JsonValue)
    requires
        cmd_of(j) == Some("DANMU_MSG"@),
        array_len_of(field(Some(j), "info"@)) is Some,
        item(field(Some(j), "info"@), 4) is None,
    ensures
        notification_event(j) matches Some(MessageView::Danmu(d)) && d.ul == 0 && d.ul_rank
            == ">50000"@,
{
}

/// A `SEND_GIFT` and a `COMBO_SEND` document that carry the same sender,
/// guard level, gift and count, each at its own place, normalize to the same
/// event; and to a gift, once sender id and name and gift id, name and count
/// are all there.
pub proof fn lemma_gift_equivalence(single: JsonValue, combo: JsonValue)
    requires
        cmd_of(single) == Some("SEND_GIFT"@),
        cmd_of(combo) == Some("COMBO_SEND"@),
        u64_of(field(field(Some(single), "data"@), "uid"@)) == u64_of(
            field(field(Some(combo), "data"@), "uid"@),
        ),
        str_of(field(field(Some(single), "data"@), "uname"@)) == str_of(
            field(field(Some(combo), "data"@), "uname"@),
        ),
        u64_of(field(field(Some(single), "data"@), "guard_level"@)) == u64_of(
            field(field(field(Some(combo), "data"@), "medal_info"@), "guard_level"@),
        ),
        u64_of(field(field(field(Some(single), "data"@), "combo_send"@), "gift_id"@)) == u64_of(
            field(field(Some(combo), "data"@), "gift_id"@),
        ),
        str_of(field(field(field(Some(single), "data"@), "combo_send"@), "gift_name"@)) == str_of(
            field(field(Some(combo), "data"@), "gift_name"@),
        ),
        u64_of(field(field(field(Some(single), "data"@), "combo_send"@), "gift_num"@)) == u64_of(
            field(field(Some(combo), "data"@), "combo_num"@),
        ),
    ensures
        notification_event(single) == notification_event(combo),
        send_gift_of(single) is Some ==> notification_event(single) matches Some(
            MessageView::Gift(_),
        ),
{
    reveal_strlit("SEND_GIFT");
    reveal_strlit("COMBO_SEND");
    reveal_strlit("DANMU_MSG");
    assert("SEND_GIFT"@ != "DANMU_MSG"@) by {
        assert("SEND_GIFT"@[0] != "DANMU_MSG"@[0]);
    }
    assert("COMBO_SEND"@ != "DANMU_MSG"@) by {
        assert("COMBO_SEND"@[0] != "DANMU_MSG"@[0]);
    }
    assert("COMBO_SEND"@ != "SEND_GIFT"@) by {
        assert("COMBO_SEND"@[0] != "SEND_GIFT"@[0]);
    }
}

/// A notification whose `cmd` is missing or not one of the three that are
/// read normalizes to no event; a frame that carries it yields no event.
pub proof fn lemma_unknown_cmd(j: JsonValue, h: crate::codec::BiliWebsocketHeader)
    requires
        match cmd_of(j) {
            Some(c) => c != "DANMU_MSG"@ && c != "SEND_GIFT"@ && c != "COMBO_SEND"@,
            None => true,
        },
    ensures
        notification_event(j) is None,
        frame_event(BiliWebsocketMessageBody::Notification(j)) is None,
        crate::worker::events_of(
            seq![Ok(BiliWebsocketInner { header: h, body: BiliWebsocketMessageBody::Notification(j) })],
        ) == Seq::<MessageView>::empty(),
{
    let ds = seq![
        Ok::<BiliWebsocketInner, crate::codec::FrameError>(
            BiliWebsocketInner { header: h, body: BiliWebsocketMessageBody::Notification(j) },
        ),
    ];
    assert(ds.drop_first() =~= Seq::<crate::codec::Decoded>::empty());
    assert(crate::worker::events_of(ds.drop_first()) == Seq::<MessageView>::empty());
    assert(frame_event(ds[0]->Ok_0.body) is None);
    assert(crate::worker::events_of(ds) =~= Seq::<MessageView>::empty() + Seq::<MessageView>::empty());
}

} // verus!
