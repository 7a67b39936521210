//! The output registry: one entry per display output, keyed by the output's
//! protocol id, holding the layer surface made for it and, once the
//! compositor configured that surface, its render surface. Compositor events
//! and scheduler ticks are routed here to the surface they address.

use crate::energy::EnergyBands;
use crate::frame_callback::FrameCallbackState;
use crate::render_surface::{OutputSurface, SurfaceModel, UniformSnapshot};
use vstd::prelude::*;

verus! {

/// One output and what was made for it.
pub struct Background<F> {
    /// Protocol id of the output.
    pub output: u32,
    /// Protocol id of the layer surface that covers the output.
    pub surface: u32,
    /// Logical size of the output.
    pub width: u32,
    pub height: u32,
    /// The render surface, once the compositor configured the layer surface.
    pub renderer: Option<OutputSurface<F>>,
}

/// An output entry as the registry's contracts speak of it.
pub struct EntryModel<F> {
    pub output: u32,
    pub surface: u32,
    pub width: u32,
    pub height: u32,
    pub renderer: Option<SurfaceModel<F>>,
}

/// What a configure event of a layer surface led to.
#[derive(Clone, Copy, Debug, PartialEq, Eq, Structural)]
pub enum ConfigureAction {
    /// No output has a layer surface of that id: nothing changed.
    Unknown,
    /// The render surface was made, and it requested its first frame
    /// callback. The caller sets up the GPU side, registers that callback,
    /// and draws and presents the first frame.
    Created,
    /// The surface already had a render surface: nothing changed, as a
    /// change of size is not supported.
    Unchanged,
}

impl<F> Background<F> {
    pub open spec fn view_entry(self) -> EntryModel<F> {
        EntryModel {
            output: self.output,
            surface: self.surface,
            width: self.width,
            height: self.height,
            renderer: match self.renderer {
                Some(r) => Some(r@),
                None => None,
            },
        }
    }
}

impl<F> EntryModel<F> {
    pub open spec fn with_renderer(self, r: SurfaceModel<F>) -> EntryModel<F> {
        EntryModel { renderer: Some(r), ..self }
    }

    /// The entry after a scheduler tick.
    pub open spec fn ticked(self) -> EntryModel<F> {
        match self.renderer {
            Some(r) => self.with_renderer(r.after_tick()),
            None => self,
        }
    }

    /// The entry after an audio reading arrived.
    pub open spec fn pushed(self, b: EnergyBands) -> EntryModel<F> {
        match self.renderer {
            Some(r) => self.with_renderer(r.after_push(b)),
            None => self,
        }
    }

    /// Whether a tick asks this entry's surface for a new frame callback.
    pub open spec fn tick_registers(self) -> bool {
        &&& self.renderer is Some
        &&& self.renderer.unwrap().callback == FrameCallbackState::Idle
    }
}

/// Whether entry `i` of `s` holds the layer surface `surface`.
pub open spec fn surface_at<F>(s: Seq<EntryModel<F>>, surface: u32, i: int) -> bool {
    0 <= i < s.len() && s[i].surface == surface
}

/// Whether entry `i` of `s` holds the layer surface `surface`, configured.
pub open spec fn renderer_at<F>(s: Seq<EntryModel<F>>, surface: u32, i: int) -> bool {
    surface_at(s, surface, i) && s[i].renderer is Some
}

pub open spec fn has_output<F>(s: Seq<EntryModel<F>>, output: u32) -> bool {
    exists|i: int| 0 <= i < s.len() && #[trigger] s[i].output == output
}

pub open spec fn has_surface<F>(s: Seq<EntryModel<F>>, surface: u32) -> bool {
    exists|i: int| #[trigger] surface_at(s, surface, i)
}

pub open spec fn has_renderer<F>(s: Seq<EntryModel<F>>, surface: u32) -> bool {
    exists|i: int| #[trigger] renderer_at(s, surface, i)
}

/// Output ids and surface ids each name at most one entry.
pub open spec fn ids_unique<F>(s: Seq<EntryModel<F>>) -> bool {
    forall|i: int, j: int|
        #![trigger s[i], s[j]]
        0 <= i < s.len() && 0 <= j < s.len() && i != j ==> s[i].output != s[j].output && s[i].surface
            != s[j].surface
}

/// The number of entries that have a render surface.
pub open spec fn renderer_count<F>(s: Seq<EntryModel<F>>) -> nat
    decreases s.len(),
{
    if s.len() == 0 {
        0
    } else {
        renderer_count(s.drop_last()) + if s.last().renderer is Some {
            1nat
        } else {
            0nat
        }
    }
}

/// The surfaces, in registry order, that a tick asks to register a callback.
pub open spec fn tick_requests<F>(s: Seq<EntryModel<F>>) -> Seq<u32>
    decreases s.len(),
{
    if s.len() == 0 {
        Seq::empty()
    } else if s.last().tick_registers() {
        tick_requests(s.drop_last()).push(s.last().surface)
    } else {
        tick_requests(s.drop_last())
    }
}

/// The registry of outputs.
pub struct BackgroundLayer<F> {
    entries: Vec<Background<F>>,
}

impl<F> View for BackgroundLayer<F> {
    type V = Seq<EntryModel<F>>;

    closed spec fn view(&self) -> Seq<EntryModel<F>> {
        self.entries@.map_values(|e: Background<F>| e.view_entry())
    }
}

impl<F> BackgroundLayer<F> {
    pub open spec fn wf(&self) -> bool {
        ids_unique(self@)
    }

    pub fn new() -> (r: BackgroundLayer<F>)
        ensures
            r.wf(),
            r@ == Seq::<EntryModel<F>>::empty(),
    {
        let r = BackgroundLayer { entries: Vec::new() };
        assert(r@ =~= Seq::<EntryModel<F>>::empty());
        r
    }

    /// The number of outputs known.
    pub fn output_count(&self) -> (r: usize)
        ensures
            r == self@.len(),
    {
        self.entries.len()
    }

    /// The number of render surfaces made so far.
    pub fn surface_count(&self) -> (r: usize)
        ensures
            r == renderer_count(self@),
    {
        let mut n: usize = 0;
        let mut i: usize = 0;
        while i < self.entries.len()
            invariant
                i <= self.entries@.len(),
                n == renderer_count(self@.subrange(0, i as int)),
                n <= i,
            decreases self.entries@.len() - i,
        {
            proof {
                assert(self@.subrange(0, i + 1).drop_last() =~= self@.subrange(0, i as int));
            }
            if self.entries[i].renderer.is_some() {
                n = n + 1;
            }
            i = i + 1;
        }
        proof {
            assert(self@.subrange(0, i as int) =~= self@);
        }
        n
    }

    /// Whether an entry exists for `output`.
    pub fn contains_output(&self, output: u32) -> (r: bool)
        ensures
            r == has_output(self@, output),
    {
        self.find_output(output).is_some()
    }

    /// The index of the entry of layer surface `surface`, if any.
    fn find_surface(&self, surface: u32) -> (r: Option<usize>)
        ensures
            match r {
                Some(i) => surface_at(self@, surface, i as int),
                None => !has_surface(self@, surface),
            },
    {
        let mut i: usize = 0;
        while i < self.entries.len()
            invariant
                i <= self.entries@.len(),
                forall|j: int| 0 <= j < i ==> self@[j].surface != surface,
            decreases self.entries@.len() - i,
        {
            if self.entries[i].surface == surface {
                return Some(i);
            }
            i = i + 1;
        }
        None
    }

    /// Takes out entry `i`.
    fn take_entry(&mut self, i: usize) -> (e: Background<F>)
        requires
            i < old(self)@.len(),
        ensures
            e.view_entry() == old(self)@[i as int],
            final(self)@ == old(self)@.remove(i as int),
    {
        let e = self.entries.remove(i);
        proof {
            assert(self@ =~= old(self)@.remove(i as int));
        }
        e
    }

    /// Puts `e` back as entry `i`.
    fn put_entry(&mut self, i: usize, e: Background<F>)
        requires
            i <= old(self)@.len(),
        ensures
            final(self)@ == old(self)@.insert(i as int, e.view_entry()),
    {
        self.entries.insert(i, e);
        proof {
            assert(self@ =~= old(self)@.insert(i as int, e.view_entry()));
        }
    }

    /// Adds `output`, covered by the layer surface `surface`, with its
    /// logical size. Nothing changes when the output, or the surface, is
    /// already known: a second configuration of an output makes nothing new.
    pub fn configure_output(&mut self, output: u32, surface: u32, width: u32, height: u32) -> (added:
        bool)
        requires
            old(self).wf(),
        ensures
            final(self).wf(),
            added == !(has_output(old(self)@, output) || has_surface(old(self)@, surface)),
            added ==> final(self)@ == old(self)@.push(
                EntryModel { output, surface, width, height, renderer: None },
            ),
            !added ==> final(self)@ == old(self)@,
    {
        if self.contains_output(output) {
            return false;
        }
        if self.find_surface(surface).is_some() {
            return false;
        }
        let e = Background { output, surface, width, height, renderer: None };
        self.entries.push(e);
        proof {
            assert(self@ =~= old(self)@.push(e.view_entry()));
            assert(!has_output(old(self)@, output));
            assert forall|j: int| 0 <= j < old(self)@.len() implies old(self)@[j].surface
                != surface by {
                if old(self)@[j].surface == surface {
                    assert(surface_at(old(self)@, surface, j));
                }
            }
        }
        true
    }

    /// Handles the compositor's configure event of layer surface `surface`,
    /// negotiated at `width` x `height` pixels, at `now_ms`. The first one
    /// makes the surface's render surface, which requests its first frame
    /// callback at once; later ones change nothing.
    pub fn dispatch_configure(&mut self, surface: u32, width: u32, height: u32, now_ms: u64) -> (action:
        ConfigureAction)
        requires
            old(self).wf(),
        ensures
            final(self).wf(),
            !has_surface(old(self)@, surface) ==> action == ConfigureAction::Unknown && final(self)@
                == old(self)@,
            forall|i: int| #[trigger]
                surface_at(old(self)@, surface, i) ==> if old(self)@[i].renderer is Some {
                    action == ConfigureAction::Unchanged && final(self)@ == old(self)@
                } else {
                    action == ConfigureAction::Created && final(self)@ == old(self)@.update(
                        i,
                        old(self)@[i].with_renderer(
                            SurfaceModel::<F>::fresh(width, height, now_ms).after_request(),
                        ),
                    )
                },
    {
        let i = match self.find_surface(surface) {
            Some(i) => i,
            None => {
                return ConfigureAction::Unknown;
            },
        };
        proof {
            lemma_surface_index_unique(self@, surface, i as int);
        }
        if self.entries[i].renderer.is_some() {
            return ConfigureAction::Unchanged;
        }
        let mut e = self.take_entry(i);
        let mut r = OutputSurface::new(width, height, now_ms);
        r.request_callback();
        e.renderer = Some(r);
        self.put_entry(i, e);
        proof {
            lemma_update_keeps_ids(old(self)@, i as int, e.view_entry());
            assert(self@ =~= old(self)@.update(i as int, e.view_entry()));
        }
        ConfigureAction::Created
    }

    /// Takes out entry `i` and its render surface.
    fn take_surface(&mut self, i: usize) -> (r: (Background<F>, OutputSurface<F>))
        requires
            i < old(self)@.len(),
            old(self)@[i as int].renderer is Some,
        ensures
            r.0.renderer is None,
            r.0.view_entry().with_renderer(r.1@) == old(self)@[i as int],
            final(self)@ == old(self)@.remove(i as int),
    {
        let e = self.take_entry(i);
        let Background { output, surface, width, height, renderer } = e;
        let r = renderer.unwrap();
        (Background { output, surface, width, height, renderer: None }, r)
    }

    /// Puts entry `e`, with render surface `r`, back as entry `i`.
    fn put_surface(&mut self, i: usize, e: Background<F>, r: OutputSurface<F>)
        requires
            i <= old(self)@.len(),
        ensures
            final(self)@ == old(self)@.insert(i as int, e.view_entry().with_renderer(r@)),
    {
        let Background { output, surface, width, height, renderer: _ } = e;
        self.put_entry(i, Background { output, surface, width, height, renderer: Some(r) });
    }

    /// Records that the compositor fired the frame callback of `surface`.
    /// Returns whether that surface has a render surface; if not, nothing
    /// changes.
    pub fn dispatch_frame_event(&mut self, surface: u32) -> (found: bool)
        requires
            old(self).wf(),
        ensures
            final(self).wf(),
            found == has_renderer(old(self)@, surface),
            !found ==> final(self)@ == old(self)@,
            forall|i: int| #[trigger]
                renderer_at(old(self)@, surface, i) ==> final(self)@ == old(self)@.update(
                    i,
                    old(self)@[i].with_renderer(old(self)@[i].renderer.unwrap().after_callback_done()),
                ),
    {
        let i = match self.find_renderer(surface) {
            Some(i) => i,
            None => {
                return false;
            },
        };
        let (e, mut r) = self.take_surface(i);
        r.callback_done();
        self.put_surface(i, e, r);
        proof {
            lemma_reinsert(old(self)@, surface, i as int, e.view_entry().with_renderer(r@));
        }
        true
    }

    /// Lets `surface` render if its frame callback fired (see
    /// `OutputSurface::render_if_ready`). Returns whether it may render; a
    /// surface unknown or not configured may not, and nothing changes.
    pub fn render_if_ready(&mut self, surface: u32) -> (ready: bool)
        requires
            old(self).wf(),
        ensures
            final(self).wf(),
            !has_renderer(old(self)@, surface) ==> !ready && final(self)@ == old(self)@,
            forall|i: int| #[trigger]
                renderer_at(old(self)@, surface, i) ==> ready == (old(self)@[i].renderer.unwrap().callback
                    == FrameCallbackState::Received) && final(self)@ == old(self)@.update(
                    i,
                    old(self)@[i].with_renderer(old(self)@[i].renderer.unwrap().after_render_if_ready()),
                ),
    {
        let i = match self.find_renderer(surface) {
            Some(i) => i,
            None => {
                return false;
            },
        };
        let (e, mut r) = self.take_surface(i);
        let ready = r.render_if_ready();
        self.put_surface(i, e, r);
        proof {
            lemma_reinsert(old(self)@, surface, i as int, e.view_entry().with_renderer(r@));
        }
        ready
    }

    /// The first half of a draw of `surface` at `now_ms` (see
    /// `OutputSurface::begin_draw`); `None` for a surface unknown or not
    /// configured.
    pub fn begin_draw(&self, surface: u32, now_ms: u64) -> (r: Option<UniformSnapshot>)
        requires
            self.wf(),
        ensures
            !has_renderer(self@, surface) ==> r is None,
            forall|i: int| #[trigger]
                renderer_at(self@, surface, i) ==> r == (if self@[i].renderer.unwrap().in_flight is Some {
                    None
                } else {
                    Some(self@[i].renderer.unwrap().snapshot(now_ms))
                }),
    {
        match self.find_renderer(surface) {
            Some(i) => {
                proof {
                    lemma_surface_index_unique(self@, surface, i as int);
                }
                match &self.entries[i].renderer {
                    Some(r) => r.begin_draw(now_ms),
                    None => None,
                }
            },
            None => None,
        }
    }

    /// The second half of a draw of `surface` (see
    /// `OutputSurface::finish_draw`). The frame is handed back, and nothing
    /// changes, when the surface is unknown, not configured, or has a frame
    /// in flight.
    pub fn finish_draw(&mut self, surface: u32, frame: F) -> (rejected: Option<F>)
        requires
            old(self).wf(),
        ensures
            final(self).wf(),
            !has_renderer(old(self)@, surface) ==> rejected == Some(frame) && final(self)@ == old(
                self,
            )@,
            forall|i: int| #[trigger]
                renderer_at(old(self)@, surface, i) ==> rejected == (if old(
                    self,
                )@[i].renderer.unwrap().in_flight is Some {
                    Some(frame)
                } else {
                    None
                }) && final(self)@ == old(self)@.update(
                    i,
                    old(self)@[i].with_renderer(old(self)@[i].renderer.unwrap().after_draw(frame)),
                ),
    {
        let i = match self.find_renderer(surface) {
            Some(i) => i,
            None => {
                return Some(frame);
            },
        };
        let (e, mut r) = self.take_surface(i);
        let rejected = r.finish_draw(frame);
        self.put_surface(i, e, r);
        proof {
            lemma_reinsert(old(self)@, surface, i as int, e.view_entry().with_renderer(r@));
        }
        rejected
    }

    /// Hands over the frame in flight on `surface`, if any, to be waited on
    /// and shown (see `OutputSurface::present`).
    pub fn present(&mut self, surface: u32) -> (r: Option<F>)
        requires
            old(self).wf(),
        ensures
            final(self).wf(),
            !has_renderer(old(self)@, surface) ==> r is None && final(self)@ == old(self)@,
            forall|i: int| #[trigger]
                renderer_at(old(self)@, surface, i) ==> r == old(self)@[i].renderer.unwrap().in_flight
                    && final(self)@ == old(self)@.update(
                    i,
                    old(self)@[i].with_renderer(old(self)@[i].renderer.unwrap().after_present()),
                ),
    {
        let i = match self.find_renderer(surface) {
            Some(i) => i,
            None => {
                return None;
            },
        };
        let (e, mut r) = self.take_surface(i);
        let frame = r.present();
        self.put_surface(i, e, r);
        proof {
            lemma_reinsert(old(self)@, surface, i as int, e.view_entry().with_renderer(r@));
        }
        frame
    }

    /// A tick of the frame scheduler, for every render surface (see
    /// `OutputSurface::tick`). Returns the surfaces, in registry order, for
    /// which the caller must register a frame callback.
    pub fn tick(&mut self) -> (register: Vec<u32>)
        requires
            old(self).wf(),
        ensures
            final(self).wf(),
            final(self)@ == old(self)@.map_values(|e: EntryModel<F>| e.ticked()),
            register@ == tick_requests(old(self)@),
    {
        let mut register: Vec<u32> = Vec::new();
        let n = self.entries.len();
        let mut i: usize = 0;
        while i < n
            invariant
                n == old(self)@.len(),
                self@.len() == n,
                i <= n,
                forall|j: int| 0 <= j < i ==> self@[j] == old(self)@[j].ticked(),
                forall|j: int| i <= j < n ==> self@[j] == old(self)@[j],
                register@ == tick_requests(old(self)@.subrange(0, i as int)),
            decreases n - i,
        {
            proof {
                assert(old(self)@.subrange(0, i + 1).drop_last() =~= old(self)@.subrange(0, i as int));
            }
            if self.entries[i].renderer.is_some() {
                let ghost before = self@;
                let (e, mut r) = self.take_surface(i);
                let reg = r.tick();
                let id = e.surface;
                self.put_surface(i, e, r);
                proof {
                    assert(before.remove(i as int).insert(i as int, e.view_entry().with_renderer(r@))
                        =~= before.update(i as int, e.view_entry().with_renderer(r@)));
                }
                if reg {
                    register.push(id);
                }
            }
            i = i + 1;
        }
        proof {
            assert(self@ =~= old(self)@.map_values(|e: EntryModel<F>| e.ticked()));
            assert(old(self)@.subrange(0, n as int) =~= old(self)@);
            lemma_map_keeps_ids(old(self)@, self@);
        }
        register
    }

    /// Hands an audio reading to every render surface; the last reading
    /// before a surface draws wins.
    pub fn set_fft(&mut self, low: u32, high: u32)
        requires
            old(self).wf(),
        ensures
            final(self).wf(),
            final(self)@ == old(self)@.map_values(
                |e: EntryModel<F>| e.pushed(EnergyBands { low, high }),
            ),
    {
        let ghost b = EnergyBands { low, high };
        let n = self.entries.len();
        let mut i: usize = 0;
        while i < n
            invariant
                n == old(self)@.len(),
                self@.len() == n,
                i <= n,
                b == (EnergyBands { low, high }),
                forall|j: int| 0 <= j < i ==> self@[j] == old(self)@[j].pushed(b),
                forall|j: int| i <= j < n ==> self@[j] == old(self)@[j],
            decreases n - i,
        {
            if self.entries[i].renderer.is_some() {
                let ghost before = self@;
                let (e, mut r) = self.take_surface(i);
                r.set_fft(low, high);
                self.put_surface(i, e, r);
                proof {
                    assert(before.remove(i as int).insert(i as int, e.view_entry().with_renderer(r@))
                        =~= before.update(i as int, e.view_entry().with_renderer(r@)));
                }
            }
            i = i + 1;
        }
        proof {
            assert(self@ =~= old(self)@.map_values(|e: EntryModel<F>| e.pushed(b)));
            lemma_map_keeps_ids(old(self)@, self@);
        }
    }

    /// The index of the entry of `output`, if any.
    fn find_output(&self, output: u32) -> (r: Option<usize>)
        ensures
            match r {
                Some(i) => i < self@.len() && self@[i as int].output == output,
                None => !has_output(self@, output),
            },
    {
        let mut i: usize = 0;
        while i < self.entries.len()
            invariant
                i <= self.entries@.len(),
                forall|j: int| 0 <= j < i ==> self@[j].output != output,
            decreases self.entries@.len() - i,
        {
            if self.entries[i].output == output {
                return Some(i);
            }
            i = i + 1;
        }
        None
    }

    /// Drops the entry of `output`, which the compositor destroyed, and
    /// returns it, with its render surface, for its GPU side to be released.
    pub fn remove(&mut self, output: u32) -> (removed: Option<Background<F>>)
        requires
            old(self).wf(),
        ensures
            final(self).wf(),
            !has_output(old(self)@, output) ==> removed is None && final(self)@ == old(self)@,
            forall|i: int|
                0 <= i < old(self)@.len() && #[trigger] old(self)@[i].output == output ==> removed is Some
                    && removed.unwrap().view_entry() == old(self)@[i] && final(self)@ == old(
                    self,
                )@.remove(i),
    {
        let i = match self.find_output(output) {
            Some(i) => i,
            None => {
                return None;
            },
        };
        let e = self.take_entry(i);
        proof {
            let s = old(self)@;
            assert forall|j: int| 0 <= j < s.len() && #[trigger] s[j].output == output implies j
                == i by {
                if j != i {
                    assert(s[i as int].output != s[j].output);
                }
            }
            let t = s.remove(i as int);
            assert forall|a: int, b: int|
                #![trigger t[a], t[b]]
                0 <= a < t.len() && 0 <= b < t.len() && a != b implies t[a].output != t[b].output
                && t[a].surface != t[b].surface by {
                let a2 = if a < i {
                    a
                } else {
                    a + 1
                };
                let b2 = if b < i {
                    b
                } else {
                    b + 1
                };
                assert(t[a] == s[a2] && t[b] == s[b2]);
                assert(s[a2].output != s[b2].output);
            }
        }
        Some(e)
    }

    /// The index of the configured entry of `surface`, if any.
    fn find_renderer(&self, surface: u32) -> (r: Option<usize>)
        requires
            self.wf(),
        ensures
            match r {
                Some(i) => renderer_at(self@, surface, i as int),
                None => !has_renderer(self@, surface),
            },
    {
        match self.find_surface(surface) {
            Some(i) => {
                if self.entries[i].renderer.is_some() {
                    Some(i)
                } else {
                    proof {
                        assert forall|j: int| !renderer_at(self@, surface, j) by {
                            if renderer_at(self@, surface, j) {
                                assert(j == i);
                            }
                        }
                    }
                    None
                }
            },
            None => None,
        }
    }
}

/// Entry `i` is the only one of layer surface `surface`.
proof fn lemma_surface_index_unique<F>(s: Seq<EntryModel<F>>, surface: u32, i: int)
    requires
        ids_unique(s),
        surface_at(s, surface, i),
    ensures
        forall|j: int| #[trigger] surface_at(s, surface, j) ==> j == i,
{
    assert forall|j: int| #[trigger] surface_at(s, surface, j) implies j == i by {
        if j != i {
            assert(s[i].surface != s[j].surface);
        }
    }
}

/// Taking out the one entry of `surface` and putting back `x` with the same
/// ids is an update that keeps the ids unique.
proof fn lemma_reinsert<F>(s: Seq<EntryModel<F>>, surface: u32, i: int, x: EntryModel<F>)
    requires
        ids_unique(s),
        surface_at(s, surface, i),
        x.output == s[i].output,
        x.surface == s[i].surface,
    ensures
        s.remove(i).insert(i, x) == s.update(i, x),
        ids_unique(s.update(i, x)),
        forall|j: int| #[trigger] surface_at(s, surface, j) ==> j == i,
{
    assert(s.remove(i).insert(i, x) =~= s.update(i, x));
    lemma_update_keeps_ids(s, i, x);
    lemma_surface_index_unique(s, surface, i);
}

/// A change of every entry that keeps each one's ids keeps the ids unique.
proof fn lemma_map_keeps_ids<F>(s: Seq<EntryModel<F>>, t: Seq<EntryModel<F>>)
    requires
        ids_unique(s),
        t.len() == s.len(),
        forall|j: int| 0 <= j < s.len() ==> #[trigger] t[j].output == s[j].output && t[j].surface
            == s[j].surface,
    ensures
        ids_unique(t),
{
    assert forall|a: int, b: int|
        #![trigger t[a], t[b]]
        0 <= a < t.len() && 0 <= b < t.len() && a != b implies t[a].output != t[b].output
        && t[a].surface != t[b].surface by {
        assert(t[a].output == s[a].output && t[b].output == s[b].output);
        assert(s[a].output != s[b].output);
    }
}

/// Replacing an entry by one with the same ids keeps the ids unique.
proof fn lemma_update_keeps_ids<F>(s: Seq<EntryModel<F>>, i: int, x: EntryModel<F>)
    requires
        ids_unique(s),
        0 <= i < s.len(),
        x.output == s[i].output,
        x.surface == s[i].surface,
    ensures
        ids_unique(s.update(i, x)),
{
    let t = s.update(i, x);
    assert forall|a: int, b: int|
        0 <= a < t.len() && 0 <= b < t.len() && a != b implies #[trigger] t[a].output
        != #[trigger] t[b].output && t[a].surface != t[b].surface by {
        assert(s[a].output != s[b].output && s[a].surface != s[b].surface);
    }
}

} // verus!
