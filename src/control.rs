//! The commands a front end sends to the relay, and the stages of a relay
//! session.

use vstd::prelude::*;

verus! {

/// A request from the front end.
#[derive(Debug, Clone)]
pub enum Command {
    /// Log in with the given raw cookie.
    UserLogin(String),
    /// Log out, if logged in.
    UserUnLog,
    /// Connect to the given room.
    ConnectRoom(u64),
    /// Disconnect, if connected.
    Disconnect,
    /// Settings changed.
    ConfigChange,
}

/// A session that has neither a user nor a room.
#[derive(Debug, Clone, Copy)]
pub struct Init;

/// A session with a logged-in user.
#[derive(Debug, Clone, Copy)]
pub struct LoggedIn;

/// A session with a user and a connected room.
#[derive(Debug, Clone, Copy)]
pub struct Connected;

/// Watches a room's comments on behalf of the logged-in user.
#[derive(Debug, Clone, Copy)]
pub struct DanmuMonitor {}

} // verus!
