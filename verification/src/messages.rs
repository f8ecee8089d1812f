//! The events that the streaming connection delivers.
//!
//! These are plain records: whoever decodes the wire format fills them in
//! and hands them over; this crate only routes them.

use vstd::prelude::*;

verus! {

/// One pixel that changed on the canvas.
#[derive(Debug, Clone, Copy, PartialEq, Eq)]
pub struct Pixel {
    pub x: usize,
    pub y: usize,
    pub color: u8,
}

#[derive(Debug, Clone, PartialEq, Eq)]
pub struct Notification {
    pub id: usize,
    pub time: u64,
    pub expiry: Option<u64>,
    pub who: String,
    pub title: String,
    pub content: String,
}

#[derive(Debug, Clone, PartialEq, Eq)]
pub struct Purge {
    pub initiator: String,
    pub reason: String,
}

#[derive(Debug, Clone, PartialEq, Eq)]
pub struct Badge {
    pub display_name: String,
    pub tooltip: String,
    pub css_icon: Option<String>,
}

#[derive(Debug, Clone, PartialEq, Eq)]
pub struct StrippedFaction {
    pub id: usize,
    pub name: String,
    pub tag: Option<String>,
    pub color: u32,
}

#[derive(Debug, Clone, PartialEq, Eq)]
pub struct ChatMessage {
    pub id: u64,
    pub author: String,
    pub date: u64,
    pub message_raw: String,
    pub purge: Option<Purge>,
    pub badges: Vec<Badge>,
    pub author_name_color: i32,
    pub author_was_shadow_banned: Option<bool>,
    pub stripped_faction: Option<StrippedFaction>,
}

/// The properties of a chat user that changed. A property that the update does
/// not mention is `None`; a faction that the update clears is `Some(None)`.
#[derive(Debug, Clone, PartialEq, Eq)]
pub struct UserUpdate {
    pub name_color: Option<isize>,
    pub displayed_faction: Option<Option<UserFaction>>,
}

#[derive(Debug, Clone, PartialEq, Eq)]
pub struct UserFaction {
    pub id: usize,
    pub color: u32,
    pub name: String,
    pub tag: String,
    pub owner: String,
    pub canvas_code: String,
    pub creation_ms: u64,
    pub member_count: usize,
    pub user_joined: bool,
}

#[allow(non_snake_case)]
#[derive(Debug, Clone, PartialEq, Eq)]
pub struct User {
    pub id: usize,
    pub stacked: usize,
    pub chat_name_color: isize,
    pub signup_time: u64,
    pub username: String,
    pub cooldown_expiry: u64,
    pub login_with_IP: bool,
    pub signup_IP: String,
    pub pixel_count: usize,
    pub pixel_count_all_time: usize,
    pub ban_expiry: Option<u64>,
    pub is_perma_chatbanned: bool,
    pub shadow_banned: bool,
    pub chatban_expiry: u64,
    pub is_rename_requested: bool,
    pub discord_name: String,
    pub chatban_reason: String,
    pub displayed_faction: Option<usize>,
    pub faction_blocked: Option<bool>,
}

#[derive(Debug, Clone, PartialEq, Eq)]
pub struct ChatBan {
    pub id: usize,
    pub target: usize,
    pub initiator: usize,
    pub when: u64,
    pub kind: String,
    pub expiry: u64,
    pub reason: String,
    pub purged: bool,
    pub target_name: String,
    pub initiator_name: String,
}

#[derive(Debug, Clone, Copy, PartialEq, Eq)]
pub enum AcknowledgeType {
    Place,
    Undo,
}

#[derive(Debug, Clone, Copy, PartialEq, Eq)]
pub struct PlacementOverrides {
    pub ignore_cooldown: Option<bool>,
    pub can_place_any_color: Option<bool>,
    pub ignore_placemap: Option<bool>,
}

#[derive(Debug, PartialEq, Eq)]
pub struct Role {
    pub id: usize,
    pub name: String,
    pub guest: bool,
    pub default_role: bool,
    pub inherits: Vec<Role>,
    pub badges: Vec<Badge>,
    pub permissions: Vec<String>,
}

/// A decoded frame of the streaming connection, one variant per kind of event.
#[allow(non_snake_case)]
#[allow(inconsistent_fields)]
#[derive(Debug, PartialEq, Eq)]
pub enum Message {
    Pixel { pixels: Vec<Pixel> },
    Users { count: usize },
    Alert { sender: String, message: String },
    Notification { notification: Notification },
    ChatMessage { message: ChatMessage },
    ChatUserUpdate { who: String, updates: UserUpdate },
    FactionUpdate { faction: UserFaction },
    FactionClear { fid: usize },
    ChatHistory { messages: Vec<ChatMessage> },
    MessageCooldown { diff: usize, message: String },
    ChatLookup { target: User, history: Vec<ChatMessage>, chatbans: Vec<ChatBan> },
    ChatBan { permanent: bool, reason: String, expiry: u64 },
    ChatBanState { permanent: bool, reason: String, expiry: u64 },
    ChatPurge { target: String, initiator: String, amount: usize, reason: String, announce: bool },
    ChatPurgeSpecific {
        target: String,
        initiator: String,
        IDs: Vec<usize>,
        reason: String,
        announce: bool,
    },
    Acknowledge { ack_for: AcknowledgeType, x: usize, y: usize },
    AdminPlacementOverrides { placement_overrides: PlacementOverrides },
    CaptchaRequired,
    CaptchaStatus { success: bool },
    CanUndo { time: u64 },
    /// Seconds to wait, as the bit pattern of a single-precision number.
    Cooldown { wait_bits: u32 },
    ReceivedReport { report_id: usize, report_type: String },
    Pixels { count: usize, cause: String },
    Userinfo {
        username: String,
        roles: Vec<Role>,
        pixel_count: usize,
        pixel_count_all_time: usize,
        banned: bool,
        ban_expiry: Option<u64>,
        ban_reason: Option<String>,
        method: String,
        placement_overrides: PlacementOverrides,
        chat_banned: bool,
        chatban_reason: Option<String>,
        chatban_is_perma: Option<bool>,
        chatban_expiry: Option<u64>,
        rename_requested: bool,
        discord_name: Option<String>,
        chat_name_color: isize,
    },
    PixelCounts { pixel_count: usize, pixel_count_all_time: usize },
    Rename { requested: bool },
    RenameSuccess { new_name: String },
}

/// What the session tells its consumer: one notification per thing that happened.
#[derive(Debug, PartialEq, Eq)]
pub enum Event {
    /// The connection is up and the canvas metadata is cached.
    Ready,
    /// The stream ended.
    Disconnect,
    /// A frame that decoded to a known event.
    Message(Message),
    /// A frame that did not decode, carried verbatim.
    Unknown(String),
}

/// The keys of a user update that carry a property.
#[derive(Debug, Clone, Copy, PartialEq, Eq)]
pub enum UserUpdateKey {
    NameColor,
    DisplayedFaction,
    /// Any other key: its value is skipped.
    Other,
}

} // verus!
