use vstd::prelude::*;

verus! {

/// Logical grid dimensions of the board.
#[derive(Debug, Clone, Copy, PartialEq, Eq, Structural)]
pub struct GridSize {
    pub width: u16,
    pub height: u16,
}

impl GridSize {
    /// Number of cells on the board, as a mathematical integer.
    pub open spec fn cells(self) -> nat {
        (self.width as nat) * (self.height as nat)
    }

    /// Returns the total number of cells in the grid.
    pub fn total_cells(self) -> (r: usize)
        ensures
            r as nat == self.cells(),
    {
        proof {
            assert(self.cells() <= 65535 * 65535) by (nonlinear_arith)
                requires
                    self.width <= 65535,
                    self.height <= 65535,
                    self.cells() == (self.width as nat) * (self.height as nat),
            ;
        }
        (self.width as usize) * (self.height as usize)
    }
}

/// Horizontal margin (columns) around the gameplay viewport.
pub const PLAY_AREA_MARGIN_X: u16 = 2;

/// Vertical margin (rows) around the gameplay viewport.
pub const PLAY_AREA_MARGIN_Y: u16 = 1;

/// Bottom margin (rows) below the HUD.
pub const HUD_BOTTOM_MARGIN_Y: u16 = 1;

/// Rows the HUD takes below the play area (one more with the debug line).
pub open spec fn hud_rows(debug_enabled: bool) -> int {
    2 + (if debug_enabled {
        1int
    } else {
        0
    }) + HUD_BOTTOM_MARGIN_Y
}

/// Smallest terminal that can hold a one-cell board and the HUD.
pub open spec fn fits_terminal(width: u16, height: u16, debug_enabled: bool) -> bool {
    width >= 2 * PLAY_AREA_MARGIN_X + 1 && height >= hud_rows(debug_enabled) + 2
        * PLAY_AREA_MARGIN_Y + 1
}

/// Board dimensions for a terminal of `width` x `height` cells: the width
/// less the side margins, and twice the rows left after the HUD and the
/// vertical margins (each terminal row shows two board rows). `None` when
/// the terminal is too small. Rows beyond what `u16` holds are cut off.
pub fn grid_bounds_for_terminal(width: u16, height: u16, debug_enabled: bool) -> (r: Option<
    GridSize,
>)
    ensures
        r is None <==> !fits_terminal(width, height, debug_enabled),
        r matches Some(b) ==> {
            let rows = height - hud_rows(debug_enabled) - 2 * PLAY_AREA_MARGIN_Y;
            &&& b.width == width - 2 * PLAY_AREA_MARGIN_X
            &&& b.height == if 2 * rows > u16::MAX {
                u16::MAX as int
            } else {
                2 * rows
            }
        },
{
    let hud: u16 = 2 + (if debug_enabled {
        1
    } else {
        0
    }) + HUD_BOTTOM_MARGIN_Y;
    let min_w: u16 = PLAY_AREA_MARGIN_X * 2 + 1;
    let min_h: u16 = hud + PLAY_AREA_MARGIN_Y * 2 + 1;
    if width < min_w || height < min_h {
        return None;
    }
    let viewport_w: u16 = width - PLAY_AREA_MARGIN_X * 2;
    let viewport_h: u16 = height - hud - PLAY_AREA_MARGIN_Y * 2;
    let game_h: u16 = if viewport_h > u16::MAX / 2 {
        u16::MAX
    } else {
        viewport_h * 2
    };
    Some(GridSize { width: viewport_w, height: game_h })
}

/// Base tick interval in milliseconds.
pub const DEFAULT_TICK_INTERVAL_MS: u64 = 200;

/// Minimum tick interval in milliseconds.
pub const MIN_TICK_INTERVAL_MS: u64 = 60;

/// Food items eaten per speed level increase.
pub const FOOD_PER_SPEED_LEVEL: u32 = 5;

/// Minimum selectable starting speed level.
pub const MIN_START_SPEED_LEVEL: u32 = 1;

/// Maximum selectable starting speed level.
pub const MAX_START_SPEED_LEVEL: u32 = 15;

/// Glyph set used by the renderer.
#[derive(Debug, Clone, Copy, PartialEq, Eq, Structural)]
pub enum GlyphMode {
    Unicode,
    Ascii,
}

/// Glyphs used by rendering paths.
#[derive(Debug, Clone, Copy, PartialEq, Eq)]
pub struct GlyphPalette {
    pub half_upper: &'static str,
    pub half_lower: &'static str,
    pub solid: &'static str,
    pub table_separator: &'static str,
}

impl GlyphPalette {
    /// The palette that belongs to `mode`.
    pub fn for_mode(mode: GlyphMode) -> (r: GlyphPalette)
        ensures
            mode == GlyphMode::Ascii ==> r.solid@ == "#"@ && r.table_separator@ == "|"@
                && r.half_upper@ == "#"@ && r.half_lower@ == "#"@,
            mode == GlyphMode::Unicode ==> r.solid@ == "█"@ && r.table_separator@ == "│"@
                && r.half_upper@ == "▀"@ && r.half_lower@ == "▄"@,
    {
        match mode {
            GlyphMode::Unicode => GlyphPalette {
                half_upper: "▀",
                half_lower: "▄",
                solid: "█",
                table_separator: "│",
            },
            GlyphMode::Ascii => GlyphPalette {
                half_upper: "#",
                half_lower: "#",
                solid: "#",
                table_separator: "|",
            },
        }
    }
}

/// ASCII lower-casing of one character; other characters are unchanged.
pub open spec fn ascii_lower(c: char) -> char {
    if 'A' <= c && c <= 'Z' {
        ((c as u32) + 32) as char
    } else {
        c
    }
}

/// ASCII lower-casing of a whole string.
pub open spec fn ascii_lower_seq(s: Seq<char>) -> Seq<char> {
    s.map_values(|c: char| ascii_lower(c))
}

/// Relies on str::eq_ignore_ascii_case: equal after ASCII lower-casing both sides.
#[verifier::external_body]
fn eq_ignore_ascii_case(a: &str, b: &str) -> (r: bool)
    ensures
        r == (ascii_lower_seq(a@) == ascii_lower_seq(b@)),
{
    a.eq_ignore_ascii_case(b)
}

/// Whether a glyph override value asks for ASCII glyphs.
pub open spec fn requests_ascii(value: Seq<char>) -> bool {
    ascii_lower_seq(value) == "ascii"@
}

/// Chooses the glyph mode from the command-line flag and an optional override value.
pub fn glyph_mode_from_inputs(force_ascii: bool, env_value: Option<&str>) -> (r: GlyphMode)
    ensures
        r == (if force_ascii || (env_value.is_some() && requests_ascii(env_value.unwrap()@)) {
            GlyphMode::Ascii
        } else {
            GlyphMode::Unicode
        }),
{
    if force_ascii {
        return GlyphMode::Ascii;
    }
    match env_value {
        Some(value) => {
            proof {
                reveal_strlit("ascii");
                assert(ascii_lower_seq("ascii"@) =~= "ascii"@);
            }
            if eq_ignore_ascii_case(value, "ascii") {
                GlyphMode::Ascii
            } else {
                GlyphMode::Unicode
            }
        },
        None => GlyphMode::Unicode,
    }
}

} // verus!
