//! Verified core of a client for a shared, real-time pixel canvas.
//!
//! The crate holds what such a client decides and computes: the buffer cache
//! with its single-flight fetches, the reconstruction of per-pixel timestamps,
//! the application of streamed pixel changes, and the life of the connection.
//! It performs no input or output. A driver makes the requests, reads the
//! clock and the socket, and hands what it got to the session.

pub mod board;
pub mod cache;
pub mod client;
pub mod decode;
pub mod endpoint;
pub mod error;
pub mod messages;
pub mod stats;
pub mod time;
pub mod timestamps;
pub mod update;

pub use board::{
    ActivityCooldown, AuthService, BoardInfo, Color, CooldownInfo, CooldownType, Emoji,
};
pub use cache::{Buffer, ClientCache, Entry, Lookup, Slot, Ticket};
pub use client::{Attempt, Client, ClientBuidler, Delivery, Phase, Retry};
pub use endpoint::BufferType;
pub use error::{ClientBuildError, ConnectError, ConsistencyError, DecodeError, RequestError};
pub use messages::{
    AcknowledgeType, Badge, ChatBan, ChatMessage, Event, Message, Notification, Pixel,
    PlacementOverrides, Purge, Role, StrippedFaction, User, UserFaction, UserUpdate,
    UserUpdateKey,
};
pub use stats::{
    Stats, StatsBoardInfo, StatsBreakdown, StatsBreakdowns, StatsColorEntry, StatsFactionEntry,
    StatsGeneral, StatsMilestoneEntry, StatsTimestamp, StatsTopList, StatsUserEntry,
};
pub use time::{TimeSpan, UnixTime};
