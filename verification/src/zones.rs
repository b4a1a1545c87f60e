//! The zones of the square and the pixel that each band pixel shows.
//!
//! Everything here is stated over a band thickness `bw` and a band length
//! `bl`; the square has `2 * bw + bl` pixels a side. A destination pixel is
//! `(x, y)`, a pixel of the source frame `(fx, fy)`; the frame is `bl` pixels
//! wide and `bw` pixels high.

use crate::geometry::HologramConfig;
use vstd::prelude::*;

verus! {

/// One of the six regions that make up the square.
#[derive(Clone, Copy, Debug, PartialEq, Eq)]
pub enum Zone {
    /// The four squares in the corners, black.
    Corner,
    /// The square in the middle, black.
    Center,
    /// The band that shows the frame as it is.
    Top,
    /// The band that shows the frame turned by a quarter.
    Left,
    /// The band that shows the frame upside down.
    Bottom,
    /// The band that shows the frame turned by a quarter the other way.
    Right,
}

impl Zone {
    /// Whether the zone shows the frame.
    pub open spec fn is_band(self) -> bool {
        self is Top || self is Left || self is Bottom || self is Right
    }
}

/// The corner where both coordinates fall short of the bands.
pub open spec fn in_top_left(bw: int, bl: int, x: int, y: int) -> bool {
    x < bw && y < bw
}

/// The corner where `x` falls short of the bands and `y` lies beyond them.
pub open spec fn in_top_right(bw: int, bl: int, x: int, y: int) -> bool {
    x < bw && y >= bw + bl
}

/// The corner where `x` lies beyond the bands and `y` falls short of them.
pub open spec fn in_bottom_left(bw: int, bl: int, x: int, y: int) -> bool {
    x >= bl + bw && y < bw
}

/// The corner where both coordinates lie beyond the bands.
pub open spec fn in_bottom_right(bw: int, bl: int, x: int, y: int) -> bool {
    x >= bl + bw && y >= bw + bl
}

/// The square that the four bands enclose.
pub open spec fn in_center(bw: int, bl: int, x: int, y: int) -> bool {
    bw <= x < bl + bw && bw <= y < bl + bw
}

/// The band along the first rows.
pub open spec fn in_top_band(bw: int, bl: int, x: int, y: int) -> bool {
    bw <= x < bl + bw && y < bw
}

/// The band along the first columns.
pub open spec fn in_left_band(bw: int, bl: int, x: int, y: int) -> bool {
    x < bw && bw <= y < bl + bw
}

/// The band along the last rows.
pub open spec fn in_bottom_band(bw: int, bl: int, x: int, y: int) -> bool {
    bw <= x < bl + bw && y >= bl + bw
}

/// The band along the last columns.
pub open spec fn in_right_band(bw: int, bl: int, x: int, y: int) -> bool {
    x >= bl + bw && bw <= y < bl + bw
}

/// Whether `(x, y)` lies in the given zone.
pub open spec fn in_zone(zone: Zone, bw: int, bl: int, x: int, y: int) -> bool {
    match zone {
        Zone::Corner => in_top_left(bw, bl, x, y) || in_top_right(bw, bl, x, y) || in_bottom_left(
            bw,
            bl,
            x,
            y,
        ) || in_bottom_right(bw, bl, x, y),
        Zone::Center => in_center(bw, bl, x, y),
        Zone::Top => in_top_band(bw, bl, x, y),
        Zone::Left => in_left_band(bw, bl, x, y),
        Zone::Bottom => in_bottom_band(bw, bl, x, y),
        Zone::Right => in_right_band(bw, bl, x, y),
    }
}

/// How many of the nine region predicates hold of `(x, y)`.
pub open spec fn regions_matched(bw: int, bl: int, x: int, y: int) -> int {
    one_if(in_top_left(bw, bl, x, y)) + one_if(in_top_right(bw, bl, x, y)) + one_if(
        in_bottom_left(bw, bl, x, y),
    ) + one_if(in_bottom_right(bw, bl, x, y)) + one_if(in_center(bw, bl, x, y)) + one_if(
        in_top_band(bw, bl, x, y),
    ) + one_if(in_left_band(bw, bl, x, y)) + one_if(in_bottom_band(bw, bl, x, y)) + one_if(
        in_right_band(bw, bl, x, y),
    )
}

/// One for a predicate that holds, zero for one that does not.
pub open spec fn one_if(holds: bool) -> int {
    if holds {
        1
    } else {
        0
    }
}

/// The first zone, in the order of the declaration, that `(x, y)` lies in.
pub open spec fn zone_of(bw: int, bl: int, x: int, y: int) -> Zone {
    if in_zone(Zone::Corner, bw, bl, x, y) {
        Zone::Corner
    } else if in_zone(Zone::Center, bw, bl, x, y) {
        Zone::Center
    } else if in_zone(Zone::Top, bw, bl, x, y) {
        Zone::Top
    } else if in_zone(Zone::Left, bw, bl, x, y) {
        Zone::Left
    } else if in_zone(Zone::Bottom, bw, bl, x, y) {
        Zone::Bottom
    } else {
        Zone::Right
    }
}

/// Whether `(x, y)` is a pixel of the square.
pub open spec fn in_grid(bw: int, bl: int, x: int, y: int) -> bool {
    0 <= x < 2 * bw + bl && 0 <= y < 2 * bw + bl
}

/// Whether `(fx, fy)` is a pixel of the source frame.
pub open spec fn in_frame(bw: int, bl: int, fx: int, fy: int) -> bool {
    0 <= fx < bl && 0 <= fy < bw
}

/// The frame pixel that `(x, y)` shows if it lies in the given band; nothing
/// for a black zone.
pub open spec fn source_of(zone: Zone, bw: int, bl: int, x: int, y: int) -> Option<(int, int)> {
    match zone {
        Zone::Corner | Zone::Center => None,
        Zone::Top => Some((x - bw, y)),
        Zone::Left => Some((bl + bw - y - 1, x)),
        Zone::Bottom => Some((bl + bw - x - 1, bl + 2 * bw - y - 1)),
        Zone::Right => Some((y - bw, bl + 2 * bw - x - 1)),
    }
}

/// The pixel of the given band that shows the frame pixel `(fx, fy)`; nothing
/// for a black zone.
pub open spec fn dest_of(zone: Zone, bw: int, bl: int, fx: int, fy: int) -> Option<(int, int)> {
    match zone {
        Zone::Corner | Zone::Center => None,
        Zone::Top => Some((fx + bw, fy)),
        Zone::Left => Some((fy, bl + bw - fx - 1)),
        Zone::Bottom => Some((bl + bw - fx - 1, bl + 2 * bw - fy - 1)),
        Zone::Right => Some((bl + 2 * bw - fy - 1, fx + bw)),
    }
}

/// The frame pixel that the pixel `(x, y)` of the square shows; nothing for a
/// black pixel and for a point outside the square.
pub open spec fn source_pixel(bw: int, bl: int, x: int, y: int) -> Option<(int, int)> {
    if in_grid(bw, bl, x, y) {
        source_of(zone_of(bw, bl, x, y), bw, bl, x, y)
    } else {
        None
    }
}

/// The zones part the plane: every point matches exactly one of the nine
/// region predicates, and lies in exactly one zone, which is `zone_of`. This
/// holds in particular of every pixel of the square of every valid geometry.
pub proof fn lemma_zones_partition(bw: int, bl: int, x: int, y: int)
    requires
        0 <= bl,
    ensures
        regions_matched(bw, bl, x, y) == 1,
        forall|zone: Zone| in_zone(zone, bw, bl, x, y) <==> zone == zone_of(bw, bl, x, y),
{
}

/// Each band's coordinate map is a bijection from the band's pixels onto the
/// pixels of the frame: it sends every pixel of the band into the frame,
/// `dest_of` undoes it, and every pixel of the frame is shown by the pixel of
/// the band that `dest_of` names.
pub proof fn lemma_band_bijection(zone: Zone, bw: int, bl: int)
    requires
        0 <= bw,
        0 <= bl,
        zone.is_band(),
    ensures
        forall|x: int, y: int|
            #![trigger source_of(zone, bw, bl, x, y)]
            in_grid(bw, bl, x, y) && in_zone(zone, bw, bl, x, y) ==> {
                &&& source_of(zone, bw, bl, x, y) matches Some(f)
                &&& in_frame(bw, bl, f.0, f.1)
                &&& dest_of(zone, bw, bl, f.0, f.1) == Some((x, y))
            },
        forall|fx: int, fy: int|
            #![trigger dest_of(zone, bw, bl, fx, fy)]
            in_frame(bw, bl, fx, fy) ==> {
                &&& dest_of(zone, bw, bl, fx, fy) matches Some(d)
                &&& in_grid(bw, bl, d.0, d.1)
                &&& in_zone(zone, bw, bl, d.0, d.1)
                &&& source_of(zone, bw, bl, d.0, d.1) == Some((fx, fy))
            },
{
}

/// Every pixel of the square that shows a frame pixel shows one inside the
/// frame.
pub proof fn lemma_source_pixel_in_frame(bw: int, bl: int, x: int, y: int)
    requires
        0 <= bw,
        0 <= bl,
    ensures
        source_pixel(bw, bl, x, y) matches Some(f) ==> in_frame(bw, bl, f.0, f.1),
{
}

impl HologramConfig {
    /// The zone that the point `(x, y)` lies in.
    pub fn zone(&self, x: u32, y: u32) -> (zone: Zone)
        ensures
            zone == zone_of(self@.band_width as int, self@.band_length as int, x as int, y as int),
            in_zone(zone, self@.band_width as int, self@.band_length as int, x as int, y as int),
    {
        proof {
            use_type_invariant(self);
        }
        let near: u32 = self.band_width();
        let far: u32 = self.band_width() + self.band_length();
        if x < near {
            if y < near || y >= far {
                Zone::Corner
            } else {
                Zone::Left
            }
        } else if x < far {
            if y < near {
                Zone::Top
            } else if y < far {
                Zone::Center
            } else {
                Zone::Bottom
            }
        } else {
            if y < near || y >= far {
                Zone::Corner
            } else {
                Zone::Right
            }
        }
    }

    /// The frame pixel that the pixel `(x, y)` of the square shows, if any.
    pub fn source_pixel(&self, x: u32, y: u32) -> (source: Option<(u32, u32)>)
        ensures
            match source {
                Some((fx, fy)) => source_pixel(
                    self@.band_width as int,
                    self@.band_length as int,
                    x as int,
                    y as int,
                ) == Some((fx as int, fy as int)) && fx < self@.band_length && fy
                    < self@.band_width,
                None => source_pixel(
                    self@.band_width as int,
                    self@.band_length as int,
                    x as int,
                    y as int,
                ) is None,
            },
    {
        proof {
            use_type_invariant(self);
        }
        let size: u32 = self.size();
        if x >= size || y >= size {
            return None;
        }
        let bw: u32 = self.band_width();
        let bl: u32 = self.band_length();
        match self.zone(x, y) {
            Zone::Corner | Zone::Center => None,
            Zone::Top => Some((x - bw, y)),
            Zone::Left => Some((bl + bw - y - 1, x)),
            Zone::Bottom => Some((bl + bw - x - 1, bl + 2 * bw - y - 1)),
            Zone::Right => Some((y - bw, bl + 2 * bw - x - 1)),
        }
    }
}

} // verus!
