//! The processor: a geometry and the buffer that it draws holograms into.

use crate::geometry::{Geometry, HologramConfig};
use crate::hologram::{hologram, hologram_byte, lemma_frame_index};
use vstd::prelude::*;

verus! {

/// Why a tick did not end in a picture on the screen.
#[derive(Clone, Copy, Debug, PartialEq, Eq)]
pub enum RenderError {
    /// The source could not hand out its current image.
    CaptureFailed,
    /// The frame handed in has not the length of `band_length * band_width`
    /// RGBA pixels.
    FrameSizeMismatch,
    /// The display did not take the picture.
    PresentFailed,
}

/// The mathematical content of a [`Processor`].
pub struct ProcessorState {
    pub geometry: Geometry,
    /// The buffer, row by row, four bytes to a pixel.
    pub pixels: Seq<u8>,
}

impl ProcessorState {
    /// The state after a frame was handed in: the buffer holds the frame's
    /// hologram, provided that the frame has the right length.
    pub open spec fn compute_frame(self, frame: Seq<u8>) -> Result<ProcessorState, RenderError> {
        if frame.len() == self.geometry.frame_len() {
            Ok(ProcessorState { geometry: self.geometry, pixels: hologram(self.geometry, frame) })
        } else {
            Err(RenderError::FrameSizeMismatch)
        }
    }
}

/// Drawing the same frame again leaves the buffer as the first drawing left
/// it, byte for byte.
pub proof fn lemma_compute_frame_idempotent(state: ProcessorState, frame: Seq<u8>)
    requires
        state.compute_frame(frame) is Ok,
    ensures
        state.compute_frame(frame)->Ok_0.compute_frame(frame) == state.compute_frame(frame),
{
}

/// Nothing of an earlier picture is carried over: two processors of one
/// geometry that draw the same frame hold the same picture afterwards,
/// whatever their buffers held before.
pub proof fn lemma_compute_frame_forgets(
    first: ProcessorState,
    second: ProcessorState,
    frame: Seq<u8>,
)
    requires
        first.geometry == second.geometry,
    ensures
        first.compute_frame(frame) == second.compute_frame(frame),
{
}

/// A geometry together with the buffer of `size * size` RGBA pixels that is
/// allocated once and overwritten by every frame.
pub struct Processor {
    config: HologramConfig,
    pixels: Vec<u8>,
}

impl View for Processor {
    type V = ProcessorState;

    closed spec fn view(&self) -> ProcessorState {
        ProcessorState { geometry: self.config@, pixels: self.pixels@ }
    }
}

impl Processor {
    /// What holds of every processor: its geometry is valid and in range,
    /// and its buffer holds exactly the pixels of the square.
    #[verifier::type_invariant]
    pub open spec fn wf(&self) -> bool {
        &&& self@.geometry.valid()
        &&& self@.geometry.in_range()
        &&& self@.pixels.len() == self@.geometry.buffer_len()
    }

    /// A processor for the given geometry. Its buffer holds zeros until the
    /// first frame is drawn.
    pub fn new(config: HologramConfig) -> (processor: Processor)
        ensures
            processor.wf(),
            processor@.geometry == config@,
            processor@.pixels == Seq::new(config@.buffer_len(), |i: int| 0u8),
    {
        proof {
            use_type_invariant(&config);
        }
        let size: usize = config.size() as usize;
        assert(4 * size * size == 4 * (size * size) && size * size <= 4 * (size * size))
            by (nonlinear_arith);
        let pixels: Vec<u8> = vec![0u8; 4 * (size * size)];
        assert(pixels@ =~= Seq::new(config@.buffer_len(), |i: int| 0u8));
        Processor { config, pixels }
    }

    /// The geometry.
    pub fn config(&self) -> (config: &HologramConfig)
        ensures
            config@ == self@.geometry,
            config.wf(),
    {
        proof {
            use_type_invariant(self);
        }
        &self.config
    }

    /// The buffer: the picture that was drawn last.
    pub fn pixels(&self) -> (pixels: &[u8])
        ensures
            pixels@ == self@.pixels,
            pixels@.len() == self@.geometry.buffer_len(),
    {
        proof {
            use_type_invariant(self);
        }
        self.pixels.as_slice()
    }

    /// Draws the hologram of `frame` into the buffer. A frame of another
    /// length than `band_length * band_width` RGBA pixels is refused, and
    /// the buffer stays as it was.
    pub fn compute_frame(&mut self, frame: &[u8]) -> (result: Result<(), RenderError>)
        ensures
            match result {
                Ok(()) => old(self)@.compute_frame(frame@) == Ok::<ProcessorState, RenderError>(
                    final(self)@,
                ),
                Err(e) => old(self)@.compute_frame(frame@) == Err::<ProcessorState, RenderError>(e)
                    && final(self)@ == old(self)@,
            },
    {
        proof {
            use_type_invariant(&*self);
        }
        let ghost geometry = self@.geometry;
        let size: usize = self.config.size() as usize;
        let bw: usize = self.config.band_width() as usize;
        let bl: usize = self.config.band_length() as usize;
        assert(4 * bl * bw == 4 * (bl * bw) && 4 * size * size == 4 * (size * size) && bl * bw
            <= size * size) by (nonlinear_arith)
            requires
                2 * bw + bl == size,
        ;
        if frame.len() != 4 * (bl * bw) {
            return Err(RenderError::FrameSizeMismatch);
        }
        let count: usize = size * size;
        let mut pixel: usize = 0;
        while pixel < count
            invariant
                self.config == old(self).config,
                self@.geometry == geometry,
                geometry.valid(),
                geometry.in_range(),
                size == geometry.size,
                bw == geometry.band_width,
                bl == geometry.band_length,
                count == size * size,
                geometry.buffer_len() == 4 * count,
                self.pixels@.len() == 4 * count,
                frame@.len() == geometry.frame_len(),
                frame.len() == 4 * (bl * bw),
                pixel <= count,
                forall|i: int|
                    0 <= i < 4 * pixel ==> self.pixels@[i] == hologram_byte(geometry, frame@, i),
            decreases count - pixel,
        {
            assert(pixel / size < size && pixel % size < size) by (nonlinear_arith)
                requires
                    pixel < size * size,
            ;
            let x: u32 = (pixel % size) as u32;
            let y: u32 = (pixel / size) as u32;
            let color: [u8; 4] = match self.config.source_pixel(x, y) {
                Some((fx, fy)) => {
                    proof {
                        lemma_frame_index(geometry, fx as int, fy as int);
                    }
                    assert(bl * fy <= bl * bw) by (nonlinear_arith)
                        requires
                            fy < bw,
                    ;
                    let at: usize = 4 * (fx as usize + bl * fy as usize);
                    [frame[at], frame[at + 1], frame[at + 2], frame[at + 3]]
                },
                None => [0, 0, 0, 255],
            };
            let ghost before = self.pixels@;
            Self::set_pixel(&mut self.pixels, pixel, color);
            assert forall|i: int| 0 <= i < 4 * (pixel + 1) implies self.pixels@[i] == hologram_byte(
                geometry,
                frame@,
                i,
            ) by {
                if i >= 4 * pixel {
                    assert(i / 4 == pixel);
                    assert(self.pixels@[i] == color[i % 4]);
                } else {
                    assert(self.pixels@[i] == before[i]);
                }
            }
            pixel += 1;
        }
        assert(self.pixels@ =~= hologram(geometry, frame@));
        Ok(())
    }

    /// Writes `color` to the four bytes of the pixel with the given number.
    pub fn set_pixel(vec: &mut Vec<u8>, pixel: usize, color: [u8; 4])
        requires
            4 * pixel + 4 <= old(vec).len(),
        ensures
            final(vec)@ == old(vec)@.update(4 * pixel, color[0]).update(
                4 * pixel + 1,
                color[1],
            ).update(4 * pixel + 2, color[2]).update(4 * pixel + 3, color[3]),
        no_unwind
    {
        vec[pixel * 4] = color[0];
        vec[pixel * 4 + 1] = color[1];
        vec[pixel * 4 + 2] = color[2];
        vec[pixel * 4 + 3] = color[3];
    }
}

} // verus!
