use danmuji::events::{BiliMessage, GuardType};
use danmuji::{process_frame, BiliWebsocketMessage, GiftMessage, GiftThankConfig, OpType};

fn events_of(json: &str) -> Vec<BiliMessage> {
    let bytes = BiliWebsocketMessage::new(json.as_bytes().to_vec(), OpType::Notification, 0).to_vec();
    let outcome = process_frame(bytes);
    assert!(outcome.errors.is_empty());
    outcome.events
}

fn one_event(json: &str) -> BiliMessage {
    let mut events = events_of(json);
    assert_eq!(events.len(), 1);
    events.remove(0)
}

const FULL_DANMU: &str = r#"{"cmd":"DANMU_MSG","info":[[0,1,25,16777215,1690000000123,0,0,"",0,2],"hello",[1234,"alice",1,0,1,10000],[12,"fans","streamer",5440],[21,"123"],0,0,3]}"#;

#[test]
fn full_comment() {
    match one_event(FULL_DANMU) {
        BiliMessage::Danmu(d) => {
            assert_eq!(d.uid, 1234);
            assert_eq!(d.uname, "alice");
            assert_eq!(d.content, "hello");
            assert!(d.is_gift_auto);
            assert_eq!(d.sent_time, 1690000000123);
            assert!(d.is_manager);
            assert!(!d.is_vip);
            assert!(d.is_svip);
            assert!(d.is_full_member);
            assert!(d.has_medal());
            assert_eq!(d.medal_level(), Some(12));
            assert_eq!(d.medal_name(), Some("fans"));
            assert_eq!(d.medal_streamer_name(), Some("streamer"));
            assert_eq!(d.medal_streamer_roomid(), Some(5440));
            assert_eq!(d.ul, 21);
            assert_eq!(d.ul_rank, "123");
            assert_eq!(d.guard, GuardType::Captain);
        }
        other => panic!("unexpected event {:?}", other),
    }
}

#[test]
fn comment_with_empty_badge() {
    let json = r#"{"cmd":"DANMU_MSG","info":[[0,1,25,0,5,0,0,"",0,0],"hi",[7,"bob",0,0,0,5000],[],[3,"99"],0,0,0]}"#;
    match one_event(json) {
        BiliMessage::Danmu(d) => {
            assert!(!d.has_medal());
            assert_eq!(d.medal_level(), None);
            assert_eq!(d.medal_name(), None);
            assert!(!d.is_gift_auto);
            assert!(!d.is_full_member);
            assert_eq!(d.guard, GuardType::NoGuard);
        }
        other => panic!("unexpected event {:?}", other),
    }
}

#[test]
fn comment_without_user_level() {
    let json = r#"{"cmd":"DANMU_MSG","info":[[0,1,25,0,5],"hi",[7,"bob"],[]]}"#;
    match one_event(json) {
        BiliMessage::Danmu(d) => {
            assert_eq!(d.ul, 0);
            assert_eq!(d.ul_rank, ">50000");
            assert_eq!(d.sent_time, 5);
            assert!(!d.is_manager);
        }
        other => panic!("unexpected event {:?}", other),
    }
}

#[test]
fn comment_fields_default() {
    let json = r#"{"cmd":"DANMU_MSG","info":[]}"#;
    match one_event(json) {
        BiliMessage::Danmu(d) => {
            assert_eq!(d.uid, 0);
            assert_eq!(d.uname, "B站用户");
            assert_eq!(d.content, "");
            assert_eq!(d.sent_time, 0);
            assert!(!d.has_medal());
            assert_eq!(d.ul_rank, ">50000");
        }
        other => panic!("unexpected event {:?}", other),
    }
    assert!(events_of(r#"{"cmd":"DANMU_MSG"}"#).is_empty());
}

#[test]
fn guard_codes() {
    assert_eq!(GuardType::from(1u64), GuardType::Governor);
    assert_eq!(GuardType::from(2u64), GuardType::Admiral);
    assert_eq!(GuardType::from(3u64), GuardType::Captain);
    assert_eq!(GuardType::from(0u64), GuardType::NoGuard);
    assert_eq!(GuardType::from(4u64), GuardType::NoGuard);
}

fn gift(event: BiliMessage) -> GiftMessage {
    match event {
        BiliMessage::Gift(g) => g,
        other => panic!("unexpected event {:?}", other),
    }
}

#[test]
fn single_and_combo_gifts_agree() {
    let single = r#"{"cmd":"SEND_GIFT","data":{"uid":88,"uname":"carol","guard_level":2,"combo_send":{"gift_id":31036,"gift_name":"小花花","gift_num":5}}}"#;
    let combo = r#"{"cmd":"COMBO_SEND","data":{"uid":88,"uname":"carol","medal_info":{"guard_level":2},"gift_id":31036,"gift_name":"小花花","combo_num":5}}"#;
    let a = gift(one_event(single));
    let b = gift(one_event(combo));
    for g in [&a, &b] {
        assert_eq!(g.uid, 88);
        assert_eq!(g.uname, "carol");
        assert_eq!(g.guard, GuardType::Admiral);
        assert_eq!(g.gift_id, 31036);
        assert_eq!(g.gift_name, "小花花");
        assert_eq!(g.gift_num, 5);
    }
}

#[test]
fn gift_missing_required_field_is_dropped() {
    let no_name = r#"{"cmd":"SEND_GIFT","data":{"uid":88,"combo_send":{"gift_id":1,"gift_name":"x","gift_num":5}}}"#;
    assert!(events_of(no_name).is_empty());
    let no_count = r#"{"cmd":"COMBO_SEND","data":{"uid":88,"uname":"c","gift_id":1,"gift_name":"x"}}"#;
    assert!(events_of(no_count).is_empty());
    let no_guard = r#"{"cmd":"SEND_GIFT","data":{"uid":88,"uname":"c","combo_send":{"gift_id":1,"gift_name":"x","gift_num":5}}}"#;
    assert_eq!(gift(one_event(no_guard)).guard, GuardType::NoGuard);
}

#[test]
fn unknown_or_missing_cmd_gives_no_event() {
    assert!(events_of(r#"{"cmd":"INTERACT_WORD","data":{}}"#).is_empty());
    assert!(events_of(r#"{"cmd":42}"#).is_empty());
    assert!(events_of(r#"{}"#).is_empty());
    assert!(events_of(r#"[1,2]"#).is_empty());
}

#[test]
fn popularity_passes_through() {
    let bytes = BiliWebsocketMessage::new(vec![0, 0, 0, 9], OpType::HeartBeatReply, 1).to_vec();
    let outcome = process_frame(bytes);
    assert_eq!(outcome.events.len(), 1);
    assert!(matches!(outcome.events[0], BiliMessage::RoomPopularity(9)));
}

#[test]
fn frame_errors_are_collected() {
    let outcome = process_frame(vec![1, 2, 3]);
    assert!(outcome.events.is_empty());
    assert_eq!(outcome.errors, vec![danmuji::FrameError::TruncatedHeader]);
    let bad = BiliWebsocketMessage::new(b"{nope".to_vec(), OpType::Notification, 0).to_vec();
    assert_eq!(process_frame(bad).errors, vec![danmuji::FrameError::JsonParseFailure]);
}

#[test]
fn test_template_basics() {
    let test_msg = BiliMessage::Gift(GiftMessage::default_message());
    let config: GiftThankConfig = Default::default();
    assert_eq!(
        Some("感谢测试用户投喂的1个小花花~".to_string()),
        config.get_thank_message(&test_msg)
    );
}

#[test]
fn thanker_closed_or_not_a_gift() {
    let closed = GiftThankConfig { template: "thanks".to_string(), open: false };
    assert_eq!(closed.get_thank_message(&BiliMessage::Gift(GiftMessage::default_message())), None);
    let config: GiftThankConfig = Default::default();
    assert_eq!(config.get_thank_message(&BiliMessage::RoomPopularity(3)), None);
    let broken = GiftThankConfig { template: "{uname".to_string(), open: true };
    assert_eq!(broken.get_thank_message(&BiliMessage::Gift(GiftMessage::default_message())), None);
    let guard = GiftThankConfig { template: "{guard}/{uid}/{gift_id}".to_string(), open: true };
    assert_eq!(
        guard.get_thank_message(&BiliMessage::Gift(GiftMessage::default_message())),
        Some("Captain/0/0".to_string())
    );
}

#[test]
fn sample_messages() {
    let g = GiftMessage::default_message();
    assert_eq!(g.uname, "测试用户");
    assert_eq!(g.gift_num, 1);
    let d = danmuji::DanmuMessage::default_message_at(17);
    assert_eq!(d.sent_time, 17);
    assert_eq!(d.medal_level(), Some(40));
    assert_eq!(d.medal_name(), Some("哈哈哈"));
    assert_eq!(d.guard, GuardType::Captain);
    let now = danmuji::DanmuMessage::default_message();
    assert!(now.sent_time > 0);
    assert_eq!(now.content, "你好Bilibili");
}

#[test]
fn unsafe_templates_give_no_reply() {
    let gift = BiliMessage::Gift(GiftMessage::default_message());
    for template in ["{#}", "{{ if not }}x{{ endif }}", "{{ if not€ }}x{{ endif }}", "thanks\\", "{uname}\\"] {
        let config = GiftThankConfig { template: template.to_string(), open: true };
        assert_eq!(config.get_thank_message(&gift), None, "template {:?}", template);
        assert!(!danmuji::plugins::template_is_safe(template));
    }
}

#[test]
fn safe_templates_with_blocks_still_render() {
    let gift = BiliMessage::Gift(GiftMessage::default_message());
    let config = GiftThankConfig {
        template: "{{ if not gift_id }}free {{ endif }}{gift_name}{# nothing #}".to_string(),
        open: true,
    };
    assert!(danmuji::plugins::template_is_safe(&config.template));
    assert_eq!(config.get_thank_message(&gift), Some("free 小花花".to_string()));
}
