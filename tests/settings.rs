use danmuji::{Cookie, CookieError, CookieField, RoomInit};

fn room_init(room_id: i64, short_id: i64) -> RoomInit {
    RoomInit {
        room_id,
        short_id,
        uid: 1,
        need_p2p: 0,
        is_hidden: false,
        is_locked: false,
        is_portrait: false,
        live_status: 1,
        hidden_till: 0,
        lock_till: 0,
        encrypted: false,
        pwd_verified: false,
        live_time: 0,
        room_shield: 0,
        is_sp: 0,
        special_type: 0,
    }
}

#[test]
fn effective_room_id_prefers_short_id() {
    assert_eq!(room_init(21452505, 0).effective_room_id(), 21452505);
    assert_eq!(room_init(21452505, 5440).effective_room_id(), 5440);
    assert_eq!(room_init(21452505, -1).effective_room_id(), 21452505);
}

#[test]
fn cookie_parses_all_fields() {
    let raw = "DedeUserID=123;bili_jct=abc;DedeUserID__ckMd5=md5;sid=s1;SESSDATA=sess;other=1=2";
    let c = Cookie::from_str(raw).unwrap();
    assert_eq!(c.DedeUserID, "123");
    assert_eq!(c.bili_jct, "abc");
    assert_eq!(c.DedeUserID__ckMd5, "md5");
    assert_eq!(c.sid, "s1");
    assert_eq!(c.SESSDATA, "sess");
}

#[test]
fn cookie_last_pair_wins() {
    let raw = "DedeUserID=1;DedeUserID=2;bili_jct=a;DedeUserID__ckMd5=b;sid=c;SESSDATA=d";
    assert_eq!(Cookie::from_str(raw).unwrap().DedeUserID, "2");
}

#[test]
fn cookie_reports_first_missing_field() {
    let raw = "DedeUserID=1;DedeUserID__ckMd5=b;sid=c";
    assert_eq!(
        Cookie::from_str(raw).unwrap_err(),
        CookieError::Missing(CookieField::BiliJct)
    );
    assert_eq!(
        Cookie::from_str("").unwrap_err(),
        CookieError::Missing(CookieField::DedeUserID)
    );
    let spaced = "DedeUserID=1; bili_jct=a";
    assert_eq!(
        Cookie::from_str(spaced).unwrap_err(),
        CookieError::Missing(CookieField::BiliJct)
    );
}

#[test]
fn split_keeps_empty_pieces() {
    assert_eq!(danmuji::config::split_str("a;;b;", ';'), vec!["a", "", "b", ""]);
    assert_eq!(danmuji::config::split_str("", ';'), vec![""]);
}

#[test]
fn decimal_text() {
    assert_eq!(danmuji::text::u64_to_decimal(0), "0");
    assert_eq!(danmuji::text::u64_to_decimal(1234567890123), "1234567890123");
    assert_eq!(danmuji::text::i64_to_decimal(-42), "-42");
    assert_eq!(danmuji::text::i64_to_decimal(i64::MIN), "-9223372036854775808");
}

#[test]
fn user_ids_are_stable() {
    let mut g = danmuji::plugins::UserIdGenerator::default();
    assert_eq!(g.generate("alice"), "User0");
    assert_eq!(g.generate("bob"), "User1");
    assert_eq!(g.generate("alice"), "User0");
    assert_eq!(g.generate("carol"), "User2");
}

fn sample_configs() -> (danmuji::RoomConfig, danmuji::UserConfig, danmuji::BulletScreenConfig) {
    let room = danmuji::RoomConfig {
        room_init: room_init(21452505, 5440),
        room: danmuji::Room {
            roomid: "21452505".to_string(),
            uid: "1".to_string(),
            content: "".to_string(),
            ctime: "".to_string(),
            status: "".to_string(),
            uname: "streamer".to_string(),
        },
    };
    let user = danmuji::UserConfig {
        raw_cookie: "x".to_string(),
        user: danmuji::User {
            uid: 1,
            uname: "me".to_string(),
            silver: 0,
            gold: 0,
            face: "".to_string(),
            achieve: 0,
            vip: 0,
            svip: 0,
            user_level: 0,
            user_next_level: 0,
            user_intimacy: 0,
            user_next_intimacy: 0,
            user_level_rank: 0,
            user_charged: 0,
            billCoin: 0,
        },
        cookie: Cookie::from_str("DedeUserID=1;bili_jct=tok;DedeUserID__ckMd5=m;sid=s;SESSDATA=d").unwrap(),
    };
    let danmu = danmuji::BulletScreenConfig {
        bubble: 0,
        bubble_color: "".to_string(),
        danmu: danmuji::BulletScreen { color: 16777215, length: 20, mode: 1, room_id: 21452505 },
        uname_color: "".to_string(),
    };
    (room, user, danmu)
}

#[test]
fn chat_form_fields() {
    let (room, user, danmu) = sample_configs();
    let form = danmuji::outbound::build_form("hi".to_string(), &room, &user, &danmu, 1690000000123);
    let expected: Vec<(String, String)> = [
        ("color", "16777215"),
        ("fontsize", "25"),
        ("mode", "1"),
        ("msg", "hi"),
        ("rnd", "1690000000"),
        ("roomid", "21452505"),
        ("bubble", "0"),
        ("csrf_token", "tok"),
        ("csrf", "tok"),
    ]
    .iter()
    .map(|(k, v)| (k.to_string(), v.to_string()))
    .collect();
    assert_eq!(form, expected);
    let early = danmuji::outbound::build_form("x".to_string(), &room, &user, &danmu, 42);
    assert_eq!(early[4].1, "42");
}

#[test]
fn server_urls() {
    let hosts = vec![
        danmuji::WsHost { host: "a.example".to_string(), port: 2243, wss_port: 443, ws_port: 2244 },
        danmuji::WsHost { host: "b.example".to_string(), port: 2243, wss_port: 8443, ws_port: 80 },
    ];
    assert_eq!(hosts[0].ws_url(), "ws://a.example:2244/sub");
    assert_eq!(hosts[1].wss_url(), "wss://b.example:8443/sub");
    assert_eq!(
        danmuji::config::pick_ws_url(&hosts, 3, false),
        Some("ws://b.example:80/sub".to_string())
    );
    assert_eq!(
        danmuji::config::pick_ws_url(&hosts, 0, true),
        Some("wss://a.example:443/sub".to_string())
    );
    assert_eq!(danmuji::config::pick_ws_url(&Vec::new(), 0, true), None);
}
