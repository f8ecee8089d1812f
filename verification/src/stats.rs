//! The statistics document.

use crate::board::Color;
use vstd::prelude::*;

verus! {

#[derive(Debug, Clone, PartialEq, Eq)]
pub struct StatsMilestoneEntry {
    pub pretty: String,
    pub intval: u64,
    pub user: Option<String>,
}

#[derive(Debug, Clone, PartialEq, Eq)]
pub struct StatsGeneral {
    pub total_users: u64,
    pub total_pixels_placed: u64,
    pub users_active_this_canvas: u64,
    pub total_factions: u64,
    pub nth_list: Vec<StatsMilestoneEntry>,
}

#[derive(Debug, Clone, PartialEq, Eq)]
pub struct StatsUserEntry {
    pub username: String,
    pub pixels: u64,
    pub place: usize,
}

#[derive(Debug, Clone, Copy, PartialEq, Eq)]
pub struct StatsColorEntry {
    pub color_id: usize,
    pub count: u64,
    pub place: usize,
}

#[derive(Debug, Clone, PartialEq, Eq)]
pub struct StatsFactionEntry {
    pub fid: usize,
    pub faction: String,
    pub canvas_pixels: u64,
    pub alltime_pixels: u64,
    pub member_count: u64,
}

#[derive(Debug, Clone, PartialEq, Eq)]
pub struct StatsBreakdown {
    pub users: Vec<StatsUserEntry>,
    pub colors: Vec<StatsColorEntry>,
}

#[derive(Debug, Clone, PartialEq, Eq)]
pub struct StatsBreakdowns {
    pub last_15m: StatsBreakdown,
    pub last_hour: StatsBreakdown,
    pub last_day: StatsBreakdown,
    pub last_week: StatsBreakdown,
}

#[derive(Debug, Clone, PartialEq, Eq)]
pub struct StatsTopList {
    pub alltime: Vec<StatsUserEntry>,
    pub canvas: Vec<StatsUserEntry>,
}

#[derive(Debug, Clone, PartialEq, Eq)]
pub struct StatsBoardInfo {
    pub width: usize,
    pub height: usize,
    pub palette: Vec<Color>,
}

/// The instant at which a statistics document was generated: seconds since
/// the Unix epoch, and the name of the time zone it was written in.
#[derive(Debug, Clone, PartialEq, Eq)]
pub struct StatsTimestamp {
    pub seconds: i64,
    pub timezone: String,
}

#[derive(Debug, Clone, PartialEq, Eq)]
pub struct Stats {
    pub general: StatsGeneral,
    pub breakdown: StatsBreakdowns,
    pub toplist: StatsTopList,
    pub factions: Vec<StatsFactionEntry>,
    pub board_info: StatsBoardInfo,
    pub generated_at: StatsTimestamp,
}

} // verus!
