//! The step-indexed driver of a run.
//!
//! An external clock calls `tick` once per frame. While the counter is below
//! the configured step count the compositor draws one glyph per tick —
//! random position, random character, random size, colored by sampling the
//! source image — and composites it onto the canvas. At the terminal step it
//! asks the caller to capture (export) the canvas, exactly once; one tick
//! later it signals completion, and the clock stops.

use vstd::prelude::*;
use crate::palette::GlyphPalette;
use crate::rng::rand_below;
use crate::sampler;
use crate::sampler::{CanvasDimensions, CanvasPoint};
use crate::source::{PixelColor, SourceImage};

verus! {

/// Smallest glyph size drawn, inclusive.
pub const MIN_FONT_SIZE: u8 = 10;

/// Bound on the glyph size, exclusive.
pub const MAX_FONT_SIZE: u8 = 20;

/// The phase of a run; a pure function of the tick counter and the
/// configured step count (see `phase_of`).
#[derive(Debug, Clone, Copy, PartialEq, Eq, Structural)]
pub enum Phase {
    Drawing,
    Capturing,
    Finished,
}

/// `Drawing` while `counter < steps`, `Capturing` at `counter == steps`,
/// `Finished` beyond; the driving clock stops after `steps + 2` ticks, so no
/// counter beyond `steps + 1` is ever processed.
pub open spec fn phase_of(counter: int, steps: int) -> Phase {
    if counter < steps {
        Phase::Drawing
    } else if counter == steps {
        Phase::Capturing
    } else {
        Phase::Finished
    }
}

/// One composited glyph: where it was sampled, which character, how large,
/// and in which sampled color.
#[derive(Debug, Clone, Copy, PartialEq, Eq, Structural)]
pub struct Glyph {
    /// The sampled canvas point (origin at the canvas middle, `+y` up).
    pub position: CanvasPoint,
    /// The character drawn.
    pub ch: char,
    /// Font size, in `MIN_FONT_SIZE..MAX_FONT_SIZE`.
    pub size: u8,
    /// The color sampled from the source pixel under the glyph.
    pub color: PixelColor,
}

impl Glyph {
    /// Where the glyph is drawn: the drawing surface's vertical axis points
    /// opposite to the sampling convention, so the sampled `y` is negated at
    /// draw time. With the flip applied exactly once, the sampled pixel and
    /// the drawn glyph sit at visually matching positions.
    pub fn draw_position(&self) -> (p: (i64, i64))
        requires
            self.position.y != i64::MIN,
        ensures
            p.0 == self.position.x,
            p.1 == -self.position.y,
    {
        (self.position.x, -self.position.y)
    }
}

/// The accumulating canvas: its dimensions and every glyph composited so
/// far, in drawing order; never cleared, never shrunk.
pub struct Canvas {
    pub dims: CanvasDimensions,
    pub glyphs: Vec<Glyph>,
}

/// What one tick of the run did.
#[derive(Debug, Clone, Copy, PartialEq, Eq, Structural)]
pub enum TickOutcome {
    /// One glyph was drawn and composited onto the canvas.
    Drew(Glyph),
    /// The canvas is complete; the caller must export it now, exactly once.
    Capture,
    /// The run is over; the caller may show its completion notice.
    Done,
}

/// The step-indexed state machine driving one run.
pub struct Compositor {
    /// Ticks processed so far; starts at 0, advances by exactly 1 per tick.
    pub counter: u64,
    /// The configured number of glyphs to draw.
    pub steps: u64,
    /// The (resized) source image; read-only for the whole run.
    pub source: SourceImage,
    /// The candidate characters; read-only for the whole run.
    pub palette: GlyphPalette,
    /// The canvas being composited; mutated only while Drawing.
    pub canvas: Canvas,
}

impl Compositor {
    /// A glyph the compositor could have drawn: on the canvas, from the
    /// palette, within the size range, and colored by the source pixel at
    /// the glyph's image-space position.
    pub open spec fn glyph_wf(self, g: Glyph) -> bool {
        &&& self.canvas.dims.contains_point(g.position)
        &&& self.palette@.contains(g.ch)
        &&& MIN_FONT_SIZE <= g.size < MAX_FONT_SIZE
        &&& g.color == self.source.pixel_at(
            g.position.x + self.canvas.dims.width as int / 2,
            g.position.y + self.canvas.dims.height as int / 2,
        )
    }

    /// Well-formed: the canvas and the source grid are the same size, the
    /// palette is non-empty, the counter never runs more than one tick past
    /// the capture, the canvas holds exactly one glyph per Drawing tick
    /// processed, and every glyph on it is one the compositor could draw.
    pub open spec fn wf(self) -> bool {
        &&& self.source.wf()
        &&& self.palette@.len() >= 1
        &&& self.canvas.dims.width == self.source.width
        &&& self.canvas.dims.height == self.source.height
        &&& self.steps <= u64::MAX - 2
        &&& self.counter <= self.steps + 2
        &&& self.canvas.glyphs@.len() == (if self.counter <= self.steps {
            self.counter as int
        } else {
            self.steps as int
        })
        &&& forall|i: int|
            0 <= i < self.canvas.glyphs@.len() ==> self.glyph_wf(#[trigger] self.canvas.glyphs@[i])
    }

    /// A fresh run over `source` and `palette`: counter at zero, canvas
    /// blank, dimensions identical to the source grid's.
    pub fn new(source: SourceImage, palette: GlyphPalette, steps: u64) -> (c: Self)
        requires
            source.wf(),
            palette@.len() >= 1,
            steps <= u64::MAX - 2,
        ensures
            c.wf(),
            c.counter == 0,
            c.steps == steps,
            c.source == source,
            c.palette == palette,
            c.canvas.glyphs@.len() == 0,
            c.canvas.dims.width == source.width,
            c.canvas.dims.height == source.height,
    {
        let dims = CanvasDimensions { width: source.width, height: source.height };
        Compositor {
            counter: 0,
            steps,
            source,
            palette,
            canvas: Canvas { dims, glyphs: Vec::new() },
        }
    }

    /// The phase the next tick will process.
    pub fn phase(&self) -> (p: Phase)
        ensures
            p == phase_of(self.counter as int, self.steps as int),
    {
        if self.counter < self.steps {
            Phase::Drawing
        } else if self.counter == self.steps {
            Phase::Capturing
        } else {
            Phase::Finished
        }
    }

    /// Processes one external tick. While Drawing, exactly one freshly drawn
    /// glyph is appended to the canvas; at Capturing and beyond the canvas
    /// is left untouched. The counter advances by exactly 1 through the
    /// `steps + 2` ticks of a run and then stays put, so any further call is
    /// an error-free, idempotent no-op that reports `Done` again.
    pub fn tick(&mut self) -> (o: TickOutcome)
        requires
            old(self).wf(),
        ensures
            final(self).wf(),
            final(self).counter == (if old(self).counter <= old(self).steps + 1 {
                old(self).counter + 1
            } else {
                old(self).counter as int
            }),
            final(self).steps == old(self).steps,
            final(self).source == old(self).source,
            final(self).palette == old(self).palette,
            final(self).canvas.dims == old(self).canvas.dims,
            ({
                let ph = phase_of(old(self).counter as int, old(self).steps as int);
                match o {
                    TickOutcome::Drew(g) => ph == Phase::Drawing && final(self).canvas.glyphs@
                        == old(self).canvas.glyphs@.push(g) && old(self).glyph_wf(g),
                    TickOutcome::Capture => ph == Phase::Capturing && final(self).canvas.glyphs@
                        == old(self).canvas.glyphs@,
                    TickOutcome::Done => ph == Phase::Finished && final(self).canvas.glyphs@ == old(
                        self,
                    ).canvas.glyphs@,
                }
            }),
    {
        if self.counter < self.steps {
            let dims = self.canvas.dims;
            let p = sampler::random_canvas_point(&dims);
            let (ix, iy) = sampler::to_image_coords(p, &dims);
            let color = self.source.pixel_unchecked(ix, iy);
            let ch = self.palette.random_char();
            let off = rand_below((MAX_FONT_SIZE - MIN_FONT_SIZE) as u64);
            let size: u8 = MIN_FONT_SIZE + (off as u8);
            let g = Glyph { position: p, ch, size, color };
            self.canvas.glyphs.push(g);
            self.counter = self.counter + 1;
            TickOutcome::Drew(g)
        } else if self.counter == self.steps {
            self.counter = self.counter + 1;
            TickOutcome::Capture
        } else {
            if self.counter <= self.steps + 1 {
                self.counter = self.counter + 1;
            }
            TickOutcome::Done
        }
    }
}

/// Each run reaches Capturing on exactly one tick and Finished on exactly
/// one: the counter starts at 0 and advances by exactly 1 per tick (see
/// `tick`), so over the `steps + 2` ticks of a run it passes each value
/// once, and of those values exactly `steps` is Capturing and exactly
/// `steps + 1` is Finished — for every step count, zero included.
pub proof fn lemma_single_capture_single_finish(steps: int, c: int)
    requires
        0 <= c <= steps + 1,
    ensures
        (phase_of(c, steps) == Phase::Capturing) <==> (c == steps),
        (phase_of(c, steps) == Phase::Finished) <==> (c == steps + 1),
{
}

} // verus!
