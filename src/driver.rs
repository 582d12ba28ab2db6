//! The per-cycle decisions of the host loop: what to resize, draw, present
//! and release, and in which order. The caller performs the actions that a
//! cycle returns, in order, and feeds the next poll back in.

use vstd::prelude::*;
use crate::geometry::{LogicalSize, PhysicalSize, ScaleFactor};
use crate::events::{ControlSignals, RawEvent, any_close, last_resize, signals_of};
use crate::ui::RedrawGate;

verus! {

/// Largest value of an `i32`.
pub const I32_MAX: u64 = 0x7FFF_FFFF;

/// Where the decoder draws its frame: from `(x, y)`, `width` wide and
/// `height` high. The height is negative: the decoder counts rows from the
/// top, the graphics context from the bottom, so the frame is flipped.
#[derive(Clone, Copy, Debug, PartialEq, Eq, Structural)]
pub struct VideoViewport {
    pub x: i32,
    pub y: i32,
    pub width: i32,
    pub height: i32,
}

/// `x`, or the largest `i32` where `x` is larger.
pub open spec fn clamp_i32(x: u64) -> i32 {
    if x <= I32_MAX {
        x as i32
    } else {
        I32_MAX as i32
    }
}

pub open spec fn video_viewport_spec(dims: PhysicalSize) -> VideoViewport {
    VideoViewport { x: 0, y: 0, width: clamp_i32(dims.width), height: -clamp_i32(dims.height) as i32 }
}

/// The viewport for a video frame that fills `dims`, flipped vertically:
/// the height term is the negated physical height.
pub fn video_viewport(dims: &PhysicalSize) -> (r: VideoViewport)
    ensures
        r == video_viewport_spec(*dims),
        r.x == 0 && r.y == 0,
        r.width >= 0 && r.height <= 0,
        dims.width <= I32_MAX ==> r.width == dims.width,
        dims.height <= I32_MAX ==> r.height == -dims.height,
{
    let w: i32 = if dims.width <= I32_MAX { dims.width as i32 } else { I32_MAX as i32 };
    let h: i32 = if dims.height <= I32_MAX { dims.height as i32 } else { I32_MAX as i32 };
    VideoViewport { x: 0, y: 0, width: w, height: -h }
}

/// One thing the host does to its window, context, decoder or widget layer.
#[derive(Clone, Copy, Debug, PartialEq, Eq, Structural)]
pub enum Action {
    /// Rebuild the color and depth targets at this physical size.
    ResizeTargets(PhysicalSize),
    /// Hand the rebuilt color target to the widget renderer.
    RebuildUiTarget,
    /// Have the decoder draw its current frame into this viewport.
    DrawVideo(VideoViewport),
    /// Upload and draw the widget primitives over a framebuffer of this size.
    CompositeUi(PhysicalSize),
    /// Present the framebuffer.
    Swap,
    /// Release the playback engine and what it holds in the context.
    ReleasePlayback,
    /// Destroy the graphics context and its window.
    DestroyContext,
}

#[derive(Clone, Copy, Debug, PartialEq, Eq, Structural)]
pub enum Phase {
    Running,
    Terminating,
}

/// The host loop's state between cycles.
#[derive(Clone, Copy, Debug, PartialEq, Eq, Structural)]
pub struct FrameDriver {
    pub phase: Phase,
    /// The physical size that the render targets were last built at.
    pub targets: PhysicalSize,
    pub ui: RedrawGate,
    /// Whether the video plays; a playing video is drawn every cycle.
    pub playing: bool,
}

pub open spec fn resize_actions(resized: Option<PhysicalSize>) -> Seq<Action> {
    match resized {
        Some(p) => seq![Action::ResizeTargets(p), Action::RebuildUiTarget],
        None => seq![],
    }
}

pub open spec fn teardown_actions() -> Seq<Action> {
    seq![Action::ReleasePlayback, Action::DestroyContext]
}

/// The drawing of one cycle: the video if it plays, the widgets if asked
/// to, and one swap if anything was drawn.
pub open spec fn frame_actions(playing: bool, draw_ui: bool, dims: PhysicalSize) -> Seq<Action> {
    let video = if playing { seq![Action::DrawVideo(video_viewport_spec(dims))] } else { seq![] };
    let ui = if draw_ui { seq![Action::CompositeUi(dims)] } else { seq![] };
    let swap = if playing || draw_ui { seq![Action::Swap] } else { seq![] };
    video + ui + swap
}

impl FrameDriver {
    /// The state after a cycle and the actions of that cycle.
    ///
    /// A resize rebuilds the targets first. A close request, or a window
    /// whose size can no longer be read, ends the loop: the playback is
    /// released, then the context destroyed, and nothing is drawn. Otherwise
    /// the video is drawn, and the widgets are drawn over it whenever the
    /// video was drawn or their state changed.
    pub open spec fn cycle_spec(
        self,
        sig: ControlSignals,
        inner: Option<LogicalSize>,
        s: ScaleFactor,
    ) -> (FrameDriver, Seq<Action>) {
        match self.phase {
            Phase::Terminating => (self, seq![]),
            Phase::Running => {
                let targets = match sig.resized {
                    Some(p) => p,
                    None => self.targets,
                };
                let ui = self.ui.after_input(sig.ui_changed);
                let pre = resize_actions(sig.resized);
                match inner {
                    Some(l) if !sig.close => {
                        let draw_ui = ui.yields(self.playing);
                        (
                            FrameDriver { phase: Phase::Running, targets, ui: ui.after_draw(), playing: self.playing },
                            pre + frame_actions(self.playing, draw_ui, l.to_physical_spec(s)),
                        )
                    },
                    _ => (
                        FrameDriver { phase: Phase::Terminating, targets, ui, playing: self.playing },
                        pre + teardown_actions(),
                    ),
                }
            },
        }
    }

    pub open spec fn shutdown_spec(self) -> (FrameDriver, Seq<Action>) {
        match self.phase {
            Phase::Terminating => (self, seq![]),
            Phase::Running => (FrameDriver { phase: Phase::Terminating, ..self }, teardown_actions()),
        }
    }

    /// A running loop over targets of size `initial`, with the video playing
    /// and the widgets not yet drawn.
    pub fn new(initial: PhysicalSize) -> (r: FrameDriver)
        ensures
            r.phase == Phase::Running,
            r.targets == initial,
            r.playing,
            r.ui.dirty,
    {
        FrameDriver { phase: Phase::Running, targets: initial, ui: RedrawGate::new(), playing: true }
    }

    /// Starts or pauses the video; a paused video is not drawn, and the
    /// widgets are then drawn only when their state changed.
    pub fn set_playing(&mut self, playing: bool)
        ensures
            *final(self) == (FrameDriver { playing, ..*old(self) }),
    {
        self.playing = playing;
    }

    pub fn is_running(&self) -> (r: bool)
        ensures
            r == (self.phase == Phase::Running),
    {
        match self.phase {
            Phase::Running => true,
            Phase::Terminating => false,
        }
    }

    /// Decides one cycle from the signals of the poll, the window's logical
    /// size (`None` once the window is gone) and its scale factor.
    pub fn cycle(&mut self, sig: &ControlSignals, inner: Option<LogicalSize>, s: &ScaleFactor) -> (r: Vec<Action>)
        requires
            s.wf(),
        ensures
            (*final(self), r@) == old(self).cycle_spec(*sig, inner, *s),
    {
        let mut acts: Vec<Action> = Vec::new();
        if !self.is_running() {
            return acts;
        }
        if let Some(p) = sig.resized {
            self.targets = p;
            acts.push(Action::ResizeTargets(p));
            acts.push(Action::RebuildUiTarget);
        }
        self.ui.handle_input(sig.ui_changed);
        let ghost pre = acts@;
        match inner {
            Some(l) if !sig.close => {
                let dims = l.to_physical(s);
                if self.playing {
                    acts.push(Action::DrawVideo(video_viewport(&dims)));
                }
                let draw_ui = self.ui.maybe_draw(self.playing);
                if draw_ui {
                    acts.push(Action::CompositeUi(dims));
                }
                if self.playing || draw_ui {
                    acts.push(Action::Swap);
                }
                assert(acts@ =~= pre + frame_actions(self.playing, draw_ui, dims));
            },
            _ => {
                self.phase = Phase::Terminating;
                acts.push(Action::ReleasePlayback);
                acts.push(Action::DestroyContext);
                assert(acts@ =~= pre + teardown_actions());
            },
        }
        assert(pre =~= resize_actions(sig.resized));
        acts
    }

    /// Ends a loop that is still running, whatever the reason: the playback
    /// is released, then the context destroyed. A loop that already ended
    /// has nothing left to release.
    pub fn shutdown(&mut self) -> (r: Vec<Action>)
        ensures
            (*final(self), r@) == old(self).shutdown_spec(),
    {
        let mut acts: Vec<Action> = Vec::new();
        if self.is_running() {
            self.phase = Phase::Terminating;
            acts.push(Action::ReleasePlayback);
            acts.push(Action::DestroyContext);
            assert(acts@ =~= teardown_actions());
        }
        acts
    }
}

/// The actions after opening a window failed: the playback, if it was
/// created, is released before the context is destroyed.
pub fn abort_open(playback_created: bool) -> (r: Vec<Action>)
    ensures
        playback_created ==> r@ == teardown_actions(),
        !playback_created ==> r@ == seq![Action::DestroyContext],
{
    let mut acts: Vec<Action> = Vec::new();
    if playback_created {
        acts.push(Action::ReleasePlayback);
    }
    acts.push(Action::DestroyContext);
    assert(playback_created ==> acts@ =~= teardown_actions());
    assert(!playback_created ==> acts@ =~= seq![Action::DestroyContext]);
    acts
}

pub open spec fn is_teardown(a: Action) -> bool {
    a is ReleasePlayback || a is DestroyContext
}

pub open spec fn is_draw(a: Action) -> bool {
    a is DrawVideo || a is CompositeUi || a is Swap
}

/// Every destruction of the context comes after a release of the playback,
/// and no release comes after a destruction.
pub open spec fn release_before_destroy(acts: Seq<Action>) -> bool {
    &&& forall|j: int|
        0 <= j < acts.len() && #[trigger] acts[j] is DestroyContext ==> exists|i: int|
            0 <= i < j && #[trigger] acts[i] is ReleasePlayback
    &&& forall|i: int, j: int|
        0 <= i < acts.len() && 0 <= j < acts.len() && #[trigger] acts[i] is ReleasePlayback
            && #[trigger] acts[j] is DestroyContext ==> i < j
}

proof fn lemma_plain_ordered(pre: Seq<Action>)
    requires
        forall|k: int| 0 <= k < pre.len() ==> !is_teardown(#[trigger] pre[k]),
    ensures
        release_before_destroy(pre),
        release_before_destroy(pre + teardown_actions()),
{
    let acts = pre + teardown_actions();
    assert forall|j: int| 0 <= j < acts.len() && #[trigger] acts[j] is DestroyContext implies exists|i: int|
        0 <= i < j && #[trigger] acts[i] is ReleasePlayback by {
        if j < pre.len() {
            assert(!is_teardown(pre[j]));
        }
        assert(acts[pre.len() as int] is ReleasePlayback);
    }
    assert forall|i: int, j: int|
        0 <= i < acts.len() && 0 <= j < acts.len() && #[trigger] acts[i] is ReleasePlayback
            && #[trigger] acts[j] is DestroyContext implies i < j by {
        if i < pre.len() {
            assert(!is_teardown(pre[i]));
        }
        if j < pre.len() {
            assert(!is_teardown(pre[j]));
        }
    }
    assert forall|j: int| 0 <= j < pre.len() && #[trigger] pre[j] is DestroyContext implies exists|i: int|
        0 <= i < j && #[trigger] pre[i] is ReleasePlayback by {
        assert(!is_teardown(pre[j]));
    }
}

proof fn lemma_frame_has_no_teardown(playing: bool, draw_ui: bool, dims: PhysicalSize, resized: Option<PhysicalSize>)
    ensures
        forall|k: int| 0 <= k < resize_actions(resized).len() ==> !is_teardown(#[trigger] resize_actions(resized)[k]),
        forall|k: int| 0 <= k < resize_actions(resized).len() ==> !is_draw(#[trigger] resize_actions(resized)[k]),
        forall|k: int|
            0 <= k < (resize_actions(resized) + frame_actions(playing, draw_ui, dims)).len() ==> !is_teardown(
                #[trigger] (resize_actions(resized) + frame_actions(playing, draw_ui, dims))[k],
            ),
{
    let pre = resize_actions(resized);
    let f = frame_actions(playing, draw_ui, dims);
    assert forall|k: int| 0 <= k < (pre + f).len() implies !is_teardown(#[trigger] (pre + f)[k]) by {
        if k >= pre.len() {
            let video = if playing { seq![Action::DrawVideo(video_viewport_spec(dims))] } else { seq![] };
            let ui = if draw_ui { seq![Action::CompositeUi(dims)] } else { seq![] };
            let swap = if playing || draw_ui { seq![Action::Swap] } else { seq![] };
            assert(f == video + ui + swap);
            assert((pre + f)[k] == f[k - pre.len()]);
        }
    }
}

/// Whatever ends the loop (a close request, the loss of the window, or a
/// shutdown of a running loop) and whatever an open that failed leaves
/// behind: the playback is released strictly before the context is
/// destroyed.
pub proof fn lemma_teardown_order(
    d: FrameDriver,
    sig: ControlSignals,
    inner: Option<LogicalSize>,
    s: ScaleFactor,
)
    ensures
        release_before_destroy(d.cycle_spec(sig, inner, s).1),
        release_before_destroy(d.shutdown_spec().1),
        release_before_destroy(teardown_actions()),
{
    lemma_plain_ordered(seq![]);
    assert(seq![] + teardown_actions() =~= teardown_actions());
    if d.phase == Phase::Running {
        let ui = d.ui.after_input(sig.ui_changed);
        let pre = resize_actions(sig.resized);
        let dims = match inner {
            Some(l) => l.to_physical_spec(s),
            None => d.targets,
        };
        lemma_frame_has_no_teardown(d.playing, ui.yields(d.playing), dims, sig.resized);
        lemma_plain_ordered(pre);
        lemma_plain_ordered(pre + frame_actions(d.playing, ui.yields(d.playing), dims));
    }
}

/// A close request among the events of a poll makes that poll's cycle the
/// last: the loop stops, nothing is drawn or presented in that cycle, and
/// any later cycle does nothing.
pub proof fn lemma_close_ends_loop(
    d: FrameDriver,
    events: Seq<RawEvent>,
    inner: Option<LogicalSize>,
    s: ScaleFactor,
    later: ControlSignals,
    later_inner: Option<LogicalSize>,
    later_s: ScaleFactor,
)
    requires
        d.phase == Phase::Running,
        exists|i: int| 0 <= i < events.len() && events[i] is CloseRequested,
    ensures
        ({
            let (next, acts) = d.cycle_spec(signals_of(events, s), inner, s);
            &&& next.phase == Phase::Terminating
            &&& forall|k: int| 0 <= k < acts.len() ==> !is_draw(#[trigger] acts[k])
            &&& next.cycle_spec(later, later_inner, later_s).1 == Seq::<Action>::empty()
        }),
{
    let sig = signals_of(events, s);
    assert(any_close(events));
    let pre = resize_actions(sig.resized);
    lemma_frame_has_no_teardown(true, true, d.targets, sig.resized);
    let acts = pre + teardown_actions();
    assert forall|k: int| 0 <= k < acts.len() implies !is_draw(#[trigger] acts[k]) by {
        if k < pre.len() {
            assert(!is_draw(pre[k]));
        }
    }
}

/// After a cycle, the render targets have the physical size of the last
/// resize of that cycle's poll (its logical size times the scale factor),
/// and they are rebuilt before anything else happens in the cycle.
pub proof fn lemma_targets_follow_last_resize(
    d: FrameDriver,
    events: Seq<RawEvent>,
    inner: Option<LogicalSize>,
    s: ScaleFactor,
)
    requires
        d.phase == Phase::Running,
    ensures
        ({
            let (next, acts) = d.cycle_spec(signals_of(events, s), inner, s);
            match last_resize(events) {
                Some(l) => {
                    &&& next.targets == l.to_physical_spec(s)
                    &&& acts[0] == Action::ResizeTargets(l.to_physical_spec(s))
                    &&& acts[1] == Action::RebuildUiTarget
                },
                None => next.targets == d.targets,
            }
        }),
{
    let sig = signals_of(events, s);
    let pre = resize_actions(sig.resized);
    let dims = match inner {
        Some(l) => l.to_physical_spec(s),
        None => d.targets,
    };
    let ui = d.ui.after_input(sig.ui_changed);
    assert((pre + teardown_actions())[0] == pre[0] || pre.len() == 0);
    assert((pre + frame_actions(d.playing, ui.yields(d.playing), dims))[0] == pre[0] || pre.len() == 0);
    if pre.len() > 0 {
        assert((pre + teardown_actions())[1] == pre[1]);
        assert((pre + frame_actions(d.playing, ui.yields(d.playing), dims))[1] == pre[1]);
    }
}

/// Every video draw of a cycle covers the window's physical size with the
/// height negated: the width term is never negative, the height term never
/// positive, and the height term is exactly minus the physical height.
pub proof fn lemma_video_flipped(d: FrameDriver, sig: ControlSignals, l: LogicalSize, s: ScaleFactor)
    ensures
        ({
            let acts = d.cycle_spec(sig, Some(l), s).1;
            let dims = l.to_physical_spec(s);
            forall|k: int|
                0 <= k < acts.len() && #[trigger] acts[k] is DrawVideo ==> {
                    let v = acts[k]->DrawVideo_0;
                    &&& v == video_viewport_spec(dims)
                    &&& v.width >= 0 && v.height <= 0
                    &&& dims.height <= I32_MAX ==> v.height == -dims.height
                    &&& dims.width <= I32_MAX ==> v.width == dims.width
                }
        }),
{
    if d.phase == Phase::Running && !sig.close {
        let ui = d.ui.after_input(sig.ui_changed);
        let draw_ui = ui.yields(d.playing);
        let dims = l.to_physical_spec(s);
        let pre = resize_actions(sig.resized);
        let f = frame_actions(d.playing, draw_ui, dims);
        let acts = pre + f;
        assert forall|k: int| 0 <= k < acts.len() && #[trigger] acts[k] is DrawVideo implies acts[k]->DrawVideo_0
            == video_viewport_spec(dims) by {
            if k >= pre.len() {
                assert(acts[k] == f[k - pre.len()]);
            }
        }
    } else if d.phase == Phase::Running {
        let acts = resize_actions(sig.resized) + teardown_actions();
        assert forall|k: int| 0 <= k < acts.len() implies !(#[trigger] acts[k] is DrawVideo) by {
            if k >= resize_actions(sig.resized).len() {
                assert(acts[k] == teardown_actions()[k - resize_actions(sig.resized).len()]);
            }
        }
    }
}

} // verus!
