//! The render surface of one output: its frame-callback state, its slot for
//! the one frame that may be in flight on the GPU, and its energy feed.
//!
//! A draw is split in two around the GPU work: `begin_draw` says whether a
//! frame may be encoded and with which uniforms, `finish_draw` takes the
//! submitted frame. `present` hands the frame back to be waited on and shown.
//! The frame type `F` is whatever the renderer needs to present it later (a
//! swapchain texture and its submission index).

use crate::energy::{EnergyBands, EnergyFeed, ENERGY_ONE};
use crate::frame_callback::FrameCallbackState;
use vstd::prelude::*;

verus! {

/// The values that one draw writes into the shader's uniforms.
#[derive(Clone, Copy, Debug, PartialEq, Eq, Structural)]
pub struct UniformSnapshot {
    /// The shader's clock, in milliseconds: the time since the surface was
    /// created, plus the time by which audio readings moved its origin back.
    pub time_ms: u64,
    /// Audio energies, in fixed point.
    pub energy: EnergyBands,
    /// Size of the surface in pixels.
    pub width: u32,
    pub height: u32,
}

/// What a render surface is, as its contracts speak of it.
pub struct SurfaceModel<F> {
    pub callback: FrameCallbackState,
    pub in_flight: Option<F>,
    pub feed: EnergyFeed,
    pub start_ms: u64,
    pub time_boost_ms: u64,
    pub width: u32,
    pub height: u32,
    pub redraw_wanted: bool,
}

/// One call on a render surface, for stating what a sequence of calls does.
pub enum SurfaceOp<F> {
    Draw(F),
    Present,
}

/// `a + b`, or the largest `u64` where the sum exceeds it.
pub open spec fn saturating_sum(a: u64, b: u64) -> u64 {
    if a + b > u64::MAX {
        u64::MAX
    } else {
        (a + b) as u64
    }
}

/// How far a reading moves the shader clock's origin back: a tenth of a
/// second per unit of low-band energy, in whole milliseconds.
pub open spec fn boost_of(low: u32) -> u64 {
    (low as int * 100 / ENERGY_ONE as int) as u64
}

/// Milliseconds from `start` to `now`; zero for a `now` before `start`.
pub open spec fn elapsed_ms(start: u64, now: u64) -> u64 {
    if now >= start {
        (now - start) as u64
    } else {
        0
    }
}

impl<F> SurfaceModel<F> {
    pub open spec fn fresh(width: u32, height: u32, start_ms: u64) -> SurfaceModel<F> {
        SurfaceModel {
            callback: FrameCallbackState::Idle,
            in_flight: None,
            feed: EnergyFeed::empty_spec(),
            start_ms,
            time_boost_ms: 0,
            width,
            height,
            redraw_wanted: false,
        }
    }

    pub open spec fn with_callback(self, callback: FrameCallbackState) -> SurfaceModel<F> {
        SurfaceModel { callback, ..self }
    }

    pub open spec fn after_request(self) -> SurfaceModel<F> {
        self.with_callback(FrameCallbackState::Requested)
    }

    pub open spec fn after_callback_done(self) -> SurfaceModel<F> {
        self.with_callback(FrameCallbackState::Received)
    }

    /// A fired callback is consumed, the redraw it allows is no longer
    /// wanted, and the next callback is requested at once.
    pub open spec fn after_render_if_ready(self) -> SurfaceModel<F> {
        if self.callback == FrameCallbackState::Received {
            SurfaceModel {
                callback: FrameCallbackState::Requested,
                redraw_wanted: false,
                ..self
            }
        } else {
            self
        }
    }

    /// A scheduler tick wants a redraw and requests a callback if none is
    /// registered or pending consumption.
    pub open spec fn after_tick(self) -> SurfaceModel<F> {
        SurfaceModel {
            redraw_wanted: true,
            callback: if self.callback == FrameCallbackState::Idle {
                FrameCallbackState::Requested
            } else {
                self.callback
            },
            ..self
        }
    }

    /// A reading is kept for the next draw, and moves the clock's origin
    /// back by `boost_of(b.low)`.
    pub open spec fn after_push(self, b: EnergyBands) -> SurfaceModel<F> {
        SurfaceModel {
            feed: self.feed.after_push(b),
            time_boost_ms: saturating_sum(self.time_boost_ms, boost_of(b.low)),
            ..self
        }
    }

    /// The uniforms of a draw made at `now_ms`.
    pub open spec fn snapshot(self, now_ms: u64) -> UniformSnapshot {
        UniformSnapshot {
            time_ms: saturating_sum(elapsed_ms(self.start_ms, now_ms), self.time_boost_ms),
            energy: self.feed.current_spec(),
            width: self.width,
            height: self.height,
        }
    }

    /// A submitted frame is kept only when none is in flight; a draw while
    /// one is in flight changes nothing.
    pub open spec fn after_draw(self, frame: F) -> SurfaceModel<F> {
        if self.in_flight is None {
            SurfaceModel { in_flight: Some(frame), feed: self.feed.after_draw(), ..self }
        } else {
            self
        }
    }

    pub open spec fn after_present(self) -> SurfaceModel<F> {
        SurfaceModel { in_flight: None, ..self }
    }

    pub open spec fn outstanding(self) -> nat {
        if self.in_flight is Some {
            1
        } else {
            0
        }
    }

    pub open spec fn apply(self, op: SurfaceOp<F>) -> SurfaceModel<F> {
        match op {
            SurfaceOp::Draw(f) => self.after_draw(f),
            SurfaceOp::Present => self.after_present(),
        }
    }

    /// Whether `op` takes effect in this state.
    pub open spec fn accepts(self, op: SurfaceOp<F>) -> bool {
        match op {
            SurfaceOp::Draw(_) => self.in_flight is None,
            SurfaceOp::Present => self.in_flight is Some,
        }
    }

    pub open spec fn run(self, ops: Seq<SurfaceOp<F>>) -> SurfaceModel<F>
        decreases ops.len(),
    {
        if ops.len() == 0 {
            self
        } else {
            self.run(ops.drop_last()).apply(ops.last())
        }
    }

    /// Draws that took effect minus presents that took effect, over `ops`.
    pub open spec fn frames_outstanding(self, ops: Seq<SurfaceOp<F>>) -> int
        decreases ops.len(),
    {
        if ops.len() == 0 {
            0
        } else {
            let before = self.run(ops.drop_last());
            self.frames_outstanding(ops.drop_last()) + if before.accepts(ops.last()) {
                match ops.last() {
                    SurfaceOp::Draw(_) => 1int,
                    SurfaceOp::Present => -1int,
                }
            } else {
                0int
            }
        }
    }

    pub open spec fn after_ticks(self, n: nat) -> SurfaceModel<F>
        decreases n,
    {
        if n == 0 {
            self
        } else {
            self.after_ticks((n - 1) as nat).after_tick()
        }
    }

    /// The number of callbacks registered by `n` ticks.
    pub open spec fn tick_registrations(self, n: nat) -> nat
        decreases n,
    {
        if n == 0 {
            0
        } else {
            self.tick_registrations((n - 1) as nat) + if self.after_ticks(
                (n - 1) as nat,
            ).callback == FrameCallbackState::Idle {
                1nat
            } else {
                0nat
            }
        }
    }
}

/// The render surface of one output.
pub struct OutputSurface<F> {
    callback: FrameCallbackState,
    in_flight: Option<F>,
    feed: EnergyFeed,
    start_ms: u64,
    time_boost_ms: u64,
    width: u32,
    height: u32,
    redraw_wanted: bool,
}

impl<F> View for OutputSurface<F> {
    type V = SurfaceModel<F>;

    closed spec fn view(&self) -> SurfaceModel<F> {
        SurfaceModel {
            callback: self.callback,
            in_flight: self.in_flight,
            feed: self.feed,
            start_ms: self.start_ms,
            time_boost_ms: self.time_boost_ms,
            width: self.width,
            height: self.height,
            redraw_wanted: self.redraw_wanted,
        }
    }
}

impl<F> OutputSurface<F> {
    /// A surface of `width` x `height` pixels whose clock starts at `start_ms`,
    /// with no callback registered and no frame in flight.
    pub fn new(width: u32, height: u32, start_ms: u64) -> (r: OutputSurface<F>)
        ensures
            r@ == SurfaceModel::<F>::fresh(width, height, start_ms),
    {
        OutputSurface {
            callback: FrameCallbackState::new(),
            in_flight: None,
            feed: EnergyFeed::new(),
            start_ms,
            time_boost_ms: 0,
            width,
            height,
            redraw_wanted: false,
        }
    }

    pub fn callback_state(&self) -> (r: FrameCallbackState)
        ensures
            r == self@.callback,
    {
        self.callback
    }

    pub fn has_frame_in_flight(&self) -> (r: bool)
        ensures
            r == self@.in_flight is Some,
    {
        self.in_flight.is_some()
    }

    pub fn redraw_wanted(&self) -> (r: bool)
        ensures
            r == self@.redraw_wanted,
    {
        self.redraw_wanted
    }

    pub fn width(&self) -> (r: u32)
        ensures
            r == self@.width,
    {
        self.width
    }

    pub fn height(&self) -> (r: u32)
        ensures
            r == self@.height,
    {
        self.height
    }

    /// The energies that the next draw will use.
    pub fn energy(&self) -> (r: EnergyBands)
        ensures
            r == self@.feed.current_spec(),
    {
        self.feed.current()
    }

    /// Asks for a frame callback; returns whether the caller must register
    /// one with the compositor (not while one is outstanding).
    pub fn request_callback(&mut self) -> (register: bool)
        ensures
            register == old(self)@.callback.registers(),
            final(self)@ == old(self)@.after_request(),
    {
        self.callback.request_callback()
    }

    /// Records that the compositor fired this surface's frame callback.
    pub fn callback_done(&mut self)
        ensures
            final(self)@ == old(self)@.after_callback_done(),
    {
        self.callback.callback_done();
    }

    /// Returns whether the surface may render now, which it may only after
    /// its frame callback fired. If so the fired callback is consumed and a
    /// new one requested: the caller then draws, presents and registers that
    /// callback with the compositor.
    pub fn render_if_ready(&mut self) -> (ready: bool)
        ensures
            ready == (old(self)@.callback == FrameCallbackState::Received),
            final(self)@ == old(self)@.after_render_if_ready(),
    {
        let ready = self.callback.take_received();
        if ready {
            let register = self.callback.request_callback();
            assert(register);
            self.redraw_wanted = false;
        }
        ready
    }

    /// A tick of the frame scheduler: a redraw is wanted, and a callback is
    /// requested if none is outstanding or waiting to be consumed. Returns
    /// whether the caller must register a callback with the compositor.
    pub fn tick(&mut self) -> (register: bool)
        ensures
            register == (old(self)@.callback == FrameCallbackState::Idle),
            final(self)@ == old(self)@.after_tick(),
    {
        self.redraw_wanted = true;
        if self.callback == FrameCallbackState::Idle {
            self.callback.request_callback()
        } else {
            false
        }
    }

    /// Records an audio reading, the energies of the low and the high band,
    /// for the next draw; the last one before a draw wins. Each reading also
    /// moves the shader clock's origin back by a tenth of a second per unit
    /// of low-band energy, so that the shader runs faster with the bass.
    pub fn set_fft(&mut self, low: u32, high: u32)
        ensures
            final(self)@ == old(self)@.after_push(EnergyBands { low, high }),
            final(self)@.time_boost_ms == saturating_sum(old(self)@.time_boost_ms, boost_of(low)),
    {
        self.feed.push_energy_bands(low, high);
        let boost = (low as u64) * 100 / (ENERGY_ONE as u64);
        self.time_boost_ms = saturating_add_u64(self.time_boost_ms, boost);
    }

    /// The first half of a draw at `now_ms`: `None` while a frame is in
    /// flight (the draw is then skipped), else the uniforms to write.
    pub fn begin_draw(&self, now_ms: u64) -> (r: Option<UniformSnapshot>)
        ensures
            r == (if self@.in_flight is Some {
                None
            } else {
                Some(self@.snapshot(now_ms))
            }),
    {
        if self.in_flight.is_some() {
            return None;
        }
        let elapsed = if now_ms >= self.start_ms {
            now_ms - self.start_ms
        } else {
            0
        };
        let time_ms = saturating_add_u64(elapsed, self.time_boost_ms);
        Some(
            UniformSnapshot {
                time_ms,
                energy: self.feed.current(),
                width: self.width,
                height: self.height,
            },
        )
    }

    /// The second half of a draw: keeps the submitted frame as the one in
    /// flight and decays the energies it used. A frame submitted while
    /// another is in flight is handed back and nothing changes.
    pub fn finish_draw(&mut self, frame: F) -> (rejected: Option<F>)
        ensures
            final(self)@ == old(self)@.after_draw(frame),
            rejected == (if old(self)@.in_flight is Some {
                Some(frame)
            } else {
                None
            }),
    {
        if self.in_flight.is_some() {
            return Some(frame);
        }
        self.feed.consume();
        self.in_flight = Some(frame);
        None
    }

    /// Hands over the frame in flight, if any, to be waited on and shown,
    /// and empties the slot. With no frame in flight nothing changes.
    pub fn present(&mut self) -> (r: Option<F>)
        ensures
            r == old(self)@.in_flight,
            final(self)@ == old(self)@.after_present(),
            old(self)@.in_flight is None ==> final(self)@ == old(self)@,
    {
        self.in_flight.take()
    }
}

fn saturating_add_u64(a: u64, b: u64) -> (r: u64)
    ensures
        r == saturating_sum(a, b),
{
    if a > u64::MAX - b {
        u64::MAX
    } else {
        a + b
    }
}

/// At most one frame is in flight on a surface, whatever draws and presents
/// are made on it: from a surface with none, the draws that took effect
/// exceed the presents that took effect by the frames outstanding, 0 or 1;
/// and a draw while a frame is in flight leaves the surface unchanged.
pub proof fn lemma_at_most_one_in_flight<F>(m: SurfaceModel<F>, ops: Seq<SurfaceOp<F>>, frame: F)
    requires
        m.in_flight is None,
    ensures
        m.frames_outstanding(ops) == m.run(ops).outstanding(),
        m.run(ops).outstanding() <= 1,
        m.run(ops).in_flight is Some ==> m.run(ops).after_draw(frame) == m.run(ops),
    decreases ops.len(),
{
    if ops.len() > 0 {
        lemma_at_most_one_in_flight(m, ops.drop_last(), frame);
    }
}

/// A fired frame callback gives exactly one draw and one present: from a
/// surface whose callback fired and that has no frame in flight, which is how
/// every render cycle leaves it, the surface may render, its draw is taken,
/// the present hands back that very frame, and the cycle ends with no frame
/// in flight and the next callback requested, one registration.
pub proof fn lemma_render_cycle<F>(m: SurfaceModel<F>, frame: F)
    requires
        m.callback == FrameCallbackState::Received,
        m.in_flight is None,
    ensures
        m.after_render_if_ready().in_flight is None,
        m.after_render_if_ready().accepts(SurfaceOp::Draw(frame)),
        m.after_render_if_ready().after_draw(frame).in_flight == Some(frame),
        m.after_render_if_ready().after_draw(frame).after_present().in_flight is None,
        m.after_render_if_ready().after_draw(frame).after_present().callback
            == FrameCallbackState::Requested,
        m.after_render_if_ready().after_draw(frame).after_present().feed == m.feed.after_draw(),
        FrameCallbackState::Idle.registers(),
{
}

/// A new surface has no frame in flight, so its first fired callback renders
/// (see `lemma_render_cycle`).
pub proof fn lemma_fresh_has_no_frame<F>(width: u32, height: u32, start_ms: u64)
    ensures
        SurfaceModel::<F>::fresh(width, height, start_ms).in_flight is None,
        SurfaceModel::<F>::fresh(width, height, start_ms).after_request().in_flight is None,
{
}

/// Ticks of the scheduler before any callback fires keep exactly one callback
/// outstanding: `n >= 1` ticks register one callback if none was registered
/// and none if one was, and they draw nothing.
pub proof fn lemma_ticks_keep_one_request<F>(m: SurfaceModel<F>, n: nat)
    requires
        n >= 1,
        m.callback != FrameCallbackState::Received,
    ensures
        m.after_ticks(n).callback == FrameCallbackState::Requested,
        m.tick_registrations(n) == (if m.callback == FrameCallbackState::Idle {
            1nat
        } else {
            0nat
        }),
        m.after_ticks(n).in_flight == m.in_flight,
        m.after_ticks(n).feed == m.feed,
        m.after_ticks(n).redraw_wanted,
    decreases n,
{
    let n1 = (n - 1) as nat;
    assert(m.after_ticks(n) == m.after_ticks(n1).after_tick());
    assert(m.tick_registrations(n) == m.tick_registrations(n1) + if m.after_ticks(
        n1,
    ).callback == FrameCallbackState::Idle {
        1nat
    } else {
        0nat
    });
    if n1 > 0 {
        lemma_ticks_keep_one_request(m, n1);
    } else {
        assert(m.after_ticks(0) == m);
        assert(m.tick_registrations(0) == 0);
    }
}

} // verus!
