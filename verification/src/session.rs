//! Plain records describing a playback session's user and player.
//!
//! These carry already-decoded values only; the boundary that talks to the
//! server fills them in.

use vstd::prelude::*;

verus! {

/// The account a playback session belongs to.
#[derive(Debug, Clone)]
pub struct SessionUser {
    pub id: u32,
    pub thumb: String,
    pub title: String,
}

/// The client device a playback session runs on.
#[derive(Debug, Clone)]
pub struct Player {
    pub address: String,
    pub device: String,
    pub machine_identifier: String,
    pub model: Option<String>,
    pub platform: String,
    pub platform_version: String,
    pub product: String,
    pub remote_public_address: String,
    pub state: String,
    pub title: String,
    pub vendor: Option<String>,
    pub version: String,
    pub local: bool,
    pub relayed: bool,
    pub secure: bool,
    pub user_id: u32,
}

} // verus!
