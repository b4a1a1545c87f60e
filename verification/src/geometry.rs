//! The geometry of a hologram: a square of `size` pixels a side, framed by four
//! bands of thickness `band_width` and length `band_length`.

use vstd::prelude::*;

verus! {

/// Side length, in pixels, of the square that a session draws.
pub const HOLOGRAM_SIZE: u32 = 512;

/// Ticks per second of a session.
pub const HOLOGRAM_FPS: u32 = 60;

/// Why a geometry was refused.
#[derive(Clone, Copy, Debug, PartialEq, Eq)]
pub enum GeometryError {
    /// The source has a height of zero, so it has no aspect ratio and no
    /// band width can be taken from it.
    ZeroSourceHeight,
    /// A frame rate of zero has no tick period.
    ZeroFrameRate,
    /// A buffer of `size * size` RGBA pixels is longer than any buffer can be.
    SizeTooLarge,
    /// Two bands of this thickness do not fit side by side in the square.
    BandTooWide,
}

/// The mathematical content of a [`HologramConfig`].
pub struct Geometry {
    pub size: nat,
    pub frame_rate: nat,
    pub band_width: nat,
    pub band_length: nat,
}

impl Geometry {
    /// Two bands and the square between them span the side exactly, and the
    /// frame rate has a period.
    pub open spec fn valid(self) -> bool {
        &&& 2 * self.band_width + self.band_length == self.size
        &&& self.frame_rate > 0
    }

    /// Each dimension fits in 32 bits, and the whole square fits in one
    /// buffer.
    pub open spec fn in_range(self) -> bool {
        &&& self.size <= u32::MAX
        &&& self.frame_rate <= u32::MAX
        &&& self.buffer_len() <= isize::MAX
    }

    /// Length in bytes of the RGBA buffer that holds the whole square.
    pub open spec fn buffer_len(self) -> nat {
        4 * self.size * self.size
    }

    /// Length in bytes of the RGBA frame that one band shows.
    pub open spec fn frame_len(self) -> nat {
        4 * self.band_length * self.band_width
    }

    /// Milliseconds between two ticks: `1000 / frame_rate`, rounded down.
    pub open spec fn tick_period_ms(self) -> nat {
        (1000nat / self.frame_rate) as nat
    }
}

/// The geometry with the given band thickness, or the reason why there is none.
pub open spec fn checked_geometry(size: nat, frame_rate: nat, band_width: nat) -> Result<
    Geometry,
    GeometryError,
> {
    if frame_rate == 0 {
        Err(GeometryError::ZeroFrameRate)
    } else if 4 * size * size > isize::MAX {
        Err(GeometryError::SizeTooLarge)
    } else if 2 * band_width > size {
        Err(GeometryError::BandTooWide)
    } else {
        Ok(
            Geometry {
                size,
                frame_rate,
                band_width,
                band_length: (size - 2 * band_width) as nat,
            },
        )
    }
}

/// The geometry of one session, fixed when the session starts.
#[derive(Clone, Copy, Debug, PartialEq, Eq)]
pub struct HologramConfig {
    size: u32,
    frame_rate: u32,
    band_width: u32,
    band_length: u32,
}

impl View for HologramConfig {
    type V = Geometry;

    closed spec fn view(&self) -> Geometry {
        Geometry {
            size: self.size as nat,
            frame_rate: self.frame_rate as nat,
            band_width: self.band_width as nat,
            band_length: self.band_length as nat,
        }
    }
}

impl HologramConfig {
    /// What holds of every configuration: the geometry is valid and in
    /// range.
    #[verifier::type_invariant]
    pub open spec fn wf(&self) -> bool {
        &&& self@.valid()
        &&& self@.in_range()
    }

    /// A configuration with bands of the given thickness.
    pub fn new(size: u32, frame_rate: u32, band_width: u32) -> (result: Result<
        HologramConfig,
        GeometryError,
    >)
        ensures
            match result {
                Ok(config) => config.wf() && checked_geometry(
                    size as nat,
                    frame_rate as nat,
                    band_width as nat,
                ) == Ok::<Geometry, GeometryError>(config@),
                Err(e) => checked_geometry(size as nat, frame_rate as nat, band_width as nat)
                    == Err::<Geometry, GeometryError>(e),
            },
    {
        if frame_rate == 0 {
            return Err(GeometryError::ZeroFrameRate);
        }
        let side: u64 = size as u64;
        assert(side * side <= 0xffff_ffff * 0xffff_ffff) by (nonlinear_arith)
            requires
                side <= 0xffff_ffff,
        ;
        let pixels: u64 = side * side;
        assert(4 * (size as nat) * (size as nat) == 4 * pixels) by (nonlinear_arith)
            requires
                pixels == side * side,
                side == size,
        ;
        if pixels > (isize::MAX as u64) / 4 {
            return Err(GeometryError::SizeTooLarge);
        }
        if band_width > size / 2 {
            return Err(GeometryError::BandTooWide);
        }
        Ok(HologramConfig { size, frame_rate, band_width, band_length: size - 2 * band_width })
    }

    /// Side length of the square, in pixels.
    pub fn size(&self) -> (size: u32)
        ensures
            size == self@.size,
    {
        self.size
    }

    /// Ticks per second.
    pub fn frame_rate(&self) -> (frame_rate: u32)
        ensures
            frame_rate == self@.frame_rate,
    {
        self.frame_rate
    }

    /// Thickness of each band, in pixels.
    pub fn band_width(&self) -> (band_width: u32)
        ensures
            band_width == self@.band_width,
    {
        self.band_width
    }

    /// Length of each band, in pixels.
    pub fn band_length(&self) -> (band_length: u32)
        ensures
            band_length == self@.band_length,
    {
        self.band_length
    }

    /// Milliseconds between two ticks: `1000 / frame_rate`, rounded down.
    pub fn tick_period_ms(&self) -> (period: u32)
        ensures
            period == self@.tick_period_ms(),
    {
        proof {
            use_type_invariant(self);
        }
        1000 / self.frame_rate
    }
}

} // verus!
