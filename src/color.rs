use vstd::prelude::*;

verus! {

/// `channel` moved 30% of the way to full brightness, rounded to nearest.
pub open spec fn brightened(channel: u8) -> nat {
    let remaining = 255 - channel;
    (channel + (remaining * 30 + 50) / 100) as nat
}

/// Brightens one colour channel by 30% of its distance to 255.
pub fn brighten_channel_30_percent(channel: u8) -> (r: u8)
    ensures
        r == brightened(channel),
        r >= channel,
{
    let remaining: u16 = 255 - channel as u16;
    let increase: u16 = (remaining * 30 + 50) / 100;
    (channel as u16 + increase) as u8
}

/// Intensity of one step of the xterm 6x6x6 colour cube.
pub open spec fn cube_level(v: int) -> int {
    if v == 0 {
        0
    } else {
        55 + v * 40
    }
}

/// The 16 basic ANSI colours as xterm draws them.
pub open spec fn ansi16(index: int) -> (int, int, int) {
    if index == 0 {
        (0, 0, 0)
    } else if index == 1 {
        (128, 0, 0)
    } else if index == 2 {
        (0, 128, 0)
    } else if index == 3 {
        (128, 128, 0)
    } else if index == 4 {
        (0, 0, 128)
    } else if index == 5 {
        (128, 0, 128)
    } else if index == 6 {
        (0, 128, 128)
    } else if index == 7 {
        (192, 192, 192)
    } else if index == 8 {
        (128, 128, 128)
    } else if index == 9 {
        (255, 0, 0)
    } else if index == 10 {
        (0, 255, 0)
    } else if index == 11 {
        (255, 255, 0)
    } else if index == 12 {
        (0, 0, 255)
    } else if index == 13 {
        (255, 0, 255)
    } else if index == 14 {
        (0, 255, 255)
    } else {
        (255, 255, 255)
    }
}

/// RGB value of an xterm 256-colour palette index: the basic colours, then
/// the 6x6x6 cube, then a 24-step grey ramp.
pub open spec fn xterm_rgb(index: u8) -> (int, int, int) {
    if index < 16 {
        ansi16(index as int)
    } else if index <= 231 {
        let i = index - 16;
        (cube_level(i / 36), cube_level((i % 36) / 6), cube_level(i % 6))
    } else {
        let grey = 8 + (index - 232) * 10;
        (grey, grey, grey)
    }
}

fn cube_step(v: u8) -> (r: u8)
    requires
        v < 6,
    ensures
        r == cube_level(v as int),
{
    if v == 0 {
        0
    } else {
        55 + v * 40
    }
}

/// Returns the RGB value of an xterm 256-colour palette index.
pub fn xterm_index_to_rgb(index: u8) -> (r: (u8, u8, u8))
    ensures
        (r.0 as int, r.1 as int, r.2 as int) == xterm_rgb(index),
{
    if index < 16 {
        let table: [(u8, u8, u8); 16] = [
            (0, 0, 0),
            (128, 0, 0),
            (0, 128, 0),
            (128, 128, 0),
            (0, 0, 128),
            (128, 0, 128),
            (0, 128, 128),
            (192, 192, 192),
            (128, 128, 128),
            (255, 0, 0),
            (0, 255, 0),
            (255, 255, 0),
            (0, 0, 255),
            (255, 0, 255),
            (0, 255, 255),
            (255, 255, 255),
        ];
        return table[index as usize];
    }
    if index <= 231 {
        let i = index - 16;
        return (cube_step(i / 36), cube_step((i % 36) / 6), cube_step(i % 6));
    }
    let grey = 8 + (index - 232) * 10;
    (grey, grey, grey)
}

} // verus!
