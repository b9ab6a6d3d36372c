//! User settings and their normalisation into the ranges the interface supports.

use vstd::prelude::*;

verus! {

/// Clamps `v` into `[lo, hi]` (with `lo <= hi`).
pub open spec fn clamp_spec(v: int, lo: int, hi: int) -> int {
    if v < lo {
        lo
    } else if v > hi {
        hi
    } else {
        v
    }
}

/// User settings, persisted between runs.
#[derive(Clone, Debug)]
pub struct AppSettings {
    pub dark_mode: bool,
    pub accent_index: i32,
    pub week_start_day: i32,
    pub cell_size_index: i32,
}

/// Highest accent colour index the palettes offer.
pub const MAX_ACCENT_INDEX: i32 = 11;

/// Highest week start day (Saturday; Sunday is 0).
pub const MAX_WEEK_START_DAY: i32 = 6;

/// Highest cell size index (0 small, 1 medium, 2 large).
pub const MAX_CELL_SIZE_INDEX: i32 = 2;

fn clamp_i32(v: i32, lo: i32, hi: i32) -> (r: i32)
    requires
        lo <= hi,
    ensures
        r == clamp_spec(v as int, lo as int, hi as int),
{
    if v < lo {
        lo
    } else if v > hi {
        hi
    } else {
        v
    }
}

impl AppSettings {
    /// Whether every index lies in the range the interface supports.
    pub open spec fn is_valid(&self) -> bool {
        &&& 0 <= self.accent_index <= MAX_ACCENT_INDEX
        &&& 0 <= self.week_start_day <= MAX_WEEK_START_DAY
        &&& 0 <= self.cell_size_index <= MAX_CELL_SIZE_INDEX
    }

    /// The settings with each index clamped into its supported range.
    pub open spec fn validated(self) -> AppSettings {
        AppSettings {
            dark_mode: self.dark_mode,
            accent_index: clamp_spec(self.accent_index as int, 0, MAX_ACCENT_INDEX as int) as i32,
            week_start_day: clamp_spec(self.week_start_day as int, 0, MAX_WEEK_START_DAY as int) as i32,
            cell_size_index: clamp_spec(self.cell_size_index as int, 0, MAX_CELL_SIZE_INDEX as int) as i32,
        }
    }

    /// Clamps every index into its supported range: accent 0..=11,
    /// week start 0..=6, cell size 0..=2. The dark mode flag is kept.
    pub fn validate(self) -> (r: Self)
        ensures
            r == self.validated(),
            r.is_valid(),
    {
        AppSettings {
            dark_mode: self.dark_mode,
            accent_index: clamp_i32(self.accent_index, 0, MAX_ACCENT_INDEX),
            week_start_day: clamp_i32(self.week_start_day, 0, MAX_WEEK_START_DAY),
            cell_size_index: clamp_i32(self.cell_size_index, 0, MAX_CELL_SIZE_INDEX),
        }
    }
}

/// The settings of a first run: light mode, first accent colour, weeks
/// starting on Sunday, medium cells.
pub open spec fn default_settings() -> AppSettings {
    AppSettings { dark_mode: false, accent_index: 0, week_start_day: 0, cell_size_index: 1 }
}

impl Default for AppSettings {
    /// Light mode, first accent colour, weeks starting on Sunday, medium cells.
    fn default() -> (r: Self)
        ensures
            r == default_settings(),
    {
        AppSettings { dark_mode: false, accent_index: 0, week_start_day: 0, cell_size_index: 1 }
    }
}

/// Validating twice is validating once; settings already in range are kept
/// as they are; the first-run settings are in range.
pub proof fn lemma_validate_normalises(settings: AppSettings)
    ensures
        settings.validated().validated() == settings.validated(),
        settings.is_valid() ==> settings.validated() == settings,
        default_settings().is_valid(),
{
}

} // verus!
