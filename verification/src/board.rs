//! Canvas metadata.

use std::collections::HashMap;
use vstd::prelude::*;

verus! {

/// A palette entry: its name and its red, green and blue parts.
#[derive(Debug, Clone, PartialEq, Eq)]
pub struct Color {
    pub name: String,
    pub value: [u8; 3],
}

#[derive(Debug, Clone, Copy, PartialEq, Eq)]
pub enum CooldownType {
    Activity,
    Static,
}

/// Parameters of the activity cooldown. The steepness is kept as the bit
/// pattern of a single-precision number.
#[derive(Debug, Clone, Copy, PartialEq, Eq)]
pub struct ActivityCooldown {
    pub steepness_bits: u32,
}

#[derive(Debug, Clone, Copy, PartialEq, Eq)]
pub struct CooldownInfo {
    pub kind: CooldownType,
    pub static_cooldown_seconds: usize,
    pub activity_cooldown: ActivityCooldown,
}

#[derive(Debug, Clone, PartialEq, Eq)]
pub struct AuthService {
    pub id: String,
    pub name: String,
    pub registration_enabled: bool,
}

#[derive(Debug, Clone, PartialEq, Eq)]
pub struct Emoji {
    pub emoji: String,
    pub name: String,
}

/// The canvas metadata. `width` and `height` give the size of every per-pixel
/// buffer; `heatmap_cooldown` is the number of seconds the heatmap looks back.
#[derive(Debug, Clone, PartialEq, Eq)]
pub struct BoardInfo {
    pub canvas_code: String,
    pub width: usize,
    pub height: usize,
    pub palette: Vec<Color>,
    pub cooldown_info: CooldownInfo,
    pub captcha_key: String,
    pub heatmap_cooldown: usize,
    pub max_stacked: usize,
    pub auth_services: HashMap<String, AuthService>,
    pub registration_enabled: bool,
    pub chat_enabled: bool,
    pub chat_respects_canvas_ban: bool,
    pub chat_character_limit: usize,
    pub chat_banner_text: Vec<String>,
    pub snip_mode: bool,
    pub custom_emoji: Vec<Emoji>,
    pub cors_base: String,
    pub cors_param: Option<String>,
    pub chat_ratelimit_message: String,
}

impl BoardInfo {
    /// Number of pixels of the canvas.
    pub open spec fn area(self) -> int {
        self.width * self.height
    }

    /// Number of pixels of the canvas, when it fits the machine word.
    pub fn pixel_count(&self) -> (r: Option<usize>)
        ensures
            r is Some <==> self.area() <= usize::MAX,
            r matches Some(n) ==> n == self.area(),
    {
        self.width.checked_mul(self.height)
    }
}

} // verus!
