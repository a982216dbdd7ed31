//! Connector for a live-streaming platform's binary websocket chat protocol:
//! the frame codec, the normalizer that turns notifications into typed events,
//! the per-room connection state machine and the room registry.

pub mod codec;
pub mod json;
pub mod events;
pub mod worker;
pub mod registry;
pub mod config;
pub mod plugins;
pub mod control;
pub mod text;
pub mod outbound;

pub use codec::{
    BiliWebsocketHeader, BiliWebsocketInner, BiliWebsocketMessage, BiliWebsocketMessageBody,
    FrameError, OpType,
};
pub use config::{
    BulletScreen, BulletScreenConfig, Cookie, CookieError, CookieField, QrCode, Room, RoomConfig,
    RoomInit, User, UserConfig, WsHost,
};
pub use control::{Command, Connected, DanmuMonitor, Init, LoggedIn};
pub use events::{BiliMessage, DanmuMessage, GiftMessage, GuardType, Medal};
pub use json::{JsonNumber, JsonValue};
pub use plugins::{DanmujiPlugin, GiftThankConfig};
pub use registry::RoomRegistry;
pub use worker::{
    process_frame, ConnectionState, FrameOutcome, WorkerAction, WorkerEvent, WorkerSession,
};
