use vstd::prelude::*;
use crate::gif_processor::GifData;

verus! {

/// Nanoseconds in a millisecond.
pub const NANOS_PER_MILLI: u64 = 1_000_000;

/// Milliseconds a frame with the given delay (in hundredths of a second) is
/// shown: a delay of 0 stands for 100 ms.
pub open spec fn spec_frame_duration_ms(delay: u16) -> int {
    if delay == 0 {
        100
    } else {
        delay * 10
    }
}

/// Number of milliseconds a frame with the given delay (in hundredths of a
/// second) is shown; a delay of 0 stands for 100 ms.
pub fn frame_duration_ms(delay: u16) -> (ms: u64)
    ensures
        ms == spec_frame_duration_ms(delay),
{
    if delay == 0 {
        100
    } else {
        delay as u64 * 10
    }
}

/// The same duration in nanoseconds.
pub fn frame_duration_nanos(delay: u16) -> (nanos: u64)
    ensures
        nanos == spec_frame_duration_ms(delay) * NANOS_PER_MILLI,
{
    frame_duration_ms(delay) * NANOS_PER_MILLI
}

/// Time from `earlier` to `later`, or zero when `later` comes first.
pub open spec fn elapsed(later: u64, earlier: u64) -> int {
    if later >= earlier {
        later - earlier
    } else {
        0
    }
}

/// The globals of the compositor that the viewer binds.
#[derive(Debug, Clone, Copy, PartialEq, Eq, Structural)]
pub enum GlobalInterface {
    Compositor,
    Shm,
    WmBase,
    Other,
}

/// The global that an interface name announced by the registry stands for.
pub open spec fn spec_global_interface(name: Seq<char>) -> GlobalInterface {
    if name == "wl_compositor"@ {
        GlobalInterface::Compositor
    } else if name == "wl_shm"@ {
        GlobalInterface::Shm
    } else if name == "xdg_wm_base"@ {
        GlobalInterface::WmBase
    } else {
        GlobalInterface::Other
    }
}

impl GlobalInterface {
    /// Classifies an interface name announced by the registry.
    pub fn from_name(name: &String) -> (kind: GlobalInterface)
        ensures
            kind == spec_global_interface(name@),
    {
        if *name == "wl_compositor".to_owned() {
            GlobalInterface::Compositor
        } else if *name == "wl_shm".to_owned() {
            GlobalInterface::Shm
        } else if *name == "xdg_wm_base".to_owned() {
            GlobalInterface::WmBase
        } else {
            GlobalInterface::Other
        }
    }
}


/// What the viewer knows: the GIF shown, where the animation stands, and which
/// objects of the compositor exist.
pub struct ViewerModel {
    pub gif: Option<GifData>,
    pub frame_index: usize,
    pub needs_redraw: bool,
    /// When the frame shown was last changed, in nanoseconds on the caller's clock.
    pub last_frame_time: Option<u64>,
    /// A frame callback was requested and has not fired yet.
    pub callback_pending: bool,
    pub has_compositor: bool,
    pub has_shm: bool,
    pub has_wm_base: bool,
    pub has_surface: bool,
    pub has_shm_pool: bool,
    pub has_buffer: bool,
}

/// Number of frames of the GIF shown, or 0 when none is loaded.
pub open spec fn frame_count(m: ViewerModel) -> int {
    match m.gif {
        Some(gif) => gif.frames_bgra@.len() as int,
        None => 0,
    }
}

/// Delay of the frame shown; meaningful when `frame_count(m) > 0`.
pub open spec fn current_delay(m: ViewerModel) -> u16 {
    m.gif->0.frame_delays@[m.frame_index as int]
}

/// The state of a GIF viewer: everything its decisions read.
pub struct ViewerState {
    gif: Option<GifData>,
    frame_index: usize,
    needs_redraw: bool,
    last_frame_time: Option<u64>,
    callback_pending: bool,
    has_compositor: bool,
    has_shm: bool,
    has_wm_base: bool,
    has_surface: bool,
    has_shm_pool: bool,
    has_buffer: bool,
}

impl View for ViewerState {
    type V = ViewerModel;

    closed spec fn view(&self) -> ViewerModel {
        ViewerModel {
            gif: self.gif,
            frame_index: self.frame_index,
            needs_redraw: self.needs_redraw,
            last_frame_time: self.last_frame_time,
            callback_pending: self.callback_pending,
            has_compositor: self.has_compositor,
            has_shm: self.has_shm,
            has_wm_base: self.has_wm_base,
            has_surface: self.has_surface,
            has_shm_pool: self.has_shm_pool,
            has_buffer: self.has_buffer,
        }
    }
}

/// Every GIF frame has a delay, and the frame shown is one of the GIF's
/// frames (the first when there is no GIF).
pub open spec fn model_wf(m: ViewerModel) -> bool {
    match m.gif {
        Some(gif) => {
            &&& gif.frames_bgra@.len() == gif.frame_delays@.len()
            &&& (gif.frames_bgra@.len() > 0 ==> m.frame_index < gif.frames_bgra@.len())
            &&& (gif.frames_bgra@.len() == 0 ==> m.frame_index == 0)
        },
        None => m.frame_index == 0,
    }
}

impl ViewerState {
    #[verifier::type_invariant]
    closed spec fn inv(self) -> bool {
        model_wf(self@)
    }
}

/// The state of a viewer that has just started: nothing loaded or bound, and a
/// redraw wanted.
pub open spec fn initial_model() -> ViewerModel {
    ViewerModel {
        gif: None,
        frame_index: 0,
        needs_redraw: true,
        last_frame_time: None,
        callback_pending: false,
        has_compositor: false,
        has_shm: false,
        has_wm_base: false,
        has_surface: false,
        has_shm_pool: false,
        has_buffer: false,
    }
}

/// How long the frame shown stays on screen, in nanoseconds.
pub open spec fn current_frame_nanos(m: ViewerModel) -> int {
    spec_frame_duration_ms(current_delay(m)) * NANOS_PER_MILLI
}

/// The animation step at time `now`: once the frame shown has been on screen
/// for its duration, the next frame (wrapping to the first) is shown and a
/// redraw is wanted; the first step starts the clock and wants a redraw.
pub open spec fn animation_step(m: ViewerModel, now: u64) -> ViewerModel {
    if frame_count(m) > 0 {
        match m.last_frame_time {
            Some(last) => if elapsed(now, last) >= current_frame_nanos(m) {
                ViewerModel {
                    frame_index: ((m.frame_index + 1) % frame_count(m)) as usize,
                    needs_redraw: true,
                    last_frame_time: Some(now),
                    ..m
                }
            } else {
                m
            },
            None => ViewerModel { needs_redraw: true, last_frame_time: Some(now), ..m },
        }
    } else {
        m
    }
}

/// How long the viewer sleeps at time `now`, in nanoseconds, before any lower
/// bound: 1 ms while a frame callback is pending, else the rest of the frame
/// shown (1 ms when it is over or the clock has not started), and 100 ms when
/// there is nothing to animate.
pub open spec fn raw_sleep_nanos(m: ViewerModel, now: u64) -> int {
    if m.callback_pending {
        NANOS_PER_MILLI as int
    } else if frame_count(m) > 0 {
        match m.last_frame_time {
            Some(last) => if elapsed(now, last) < current_frame_nanos(m) {
                current_frame_nanos(m) - elapsed(now, last)
            } else {
                NANOS_PER_MILLI as int
            },
            None => NANOS_PER_MILLI as int,
        }
    } else {
        100 * NANOS_PER_MILLI
    }
}

/// How long the viewer sleeps at time `now`: never less than 1 ms.
pub open spec fn spec_sleep_nanos(m: ViewerModel, now: u64) -> int {
    if raw_sleep_nanos(m, now) < NANOS_PER_MILLI {
        NANOS_PER_MILLI as int
    } else {
        raw_sleep_nanos(m, now)
    }
}

impl ViewerState {
    /// A viewer that has just started: no GIF, no compositor objects, first
    /// frame selected and a redraw wanted.
    pub fn new() -> (state: ViewerState)
        ensures
            state@ == initial_model(),
    {
        ViewerState {
            gif: None,
            frame_index: 0,
            needs_redraw: true,
            last_frame_time: None,
            callback_pending: false,
            has_compositor: false,
            has_shm: false,
            has_wm_base: false,
            has_surface: false,
            has_shm_pool: false,
            has_buffer: false,
        }
    }

    /// Makes `gif` the GIF shown, from its first frame.
    pub fn load_gif(&mut self, gif: GifData)
        requires
            gif.frames_bgra@.len() == gif.frame_delays@.len(),
        ensures
            final(self)@ == (ViewerModel { gif: Some(gif), frame_index: 0, ..old(self)@ }),
    {
        proof {
            use_type_invariant(&*self);
        }
        self.frame_index = 0;
        self.gif = Some(gif);
    }

    /// Advances the animation at time `now` (nanoseconds on the caller's clock).
    pub fn advance_animation(&mut self, now: u64)
        ensures
            final(self)@ == animation_step(old(self)@, now),
    {
        proof {
            use_type_invariant(&*self);
        }
        let count = match &self.gif {
            Some(gif) => gif.frames_bgra.len(),
            None => 0,
        };
        if count > 0 {
            match self.last_frame_time {
                Some(last) => {
                    let delay = match &self.gif {
                        Some(gif) => gif.frame_delays[self.frame_index],
                        None => 0,
                    };
                    let since = if now >= last { now - last } else { 0 };
                    if since >= frame_duration_nanos(delay) {
                        self.frame_index = (self.frame_index + 1) % count;
                        self.needs_redraw = true;
                        self.last_frame_time = Some(now);
                    }
                },
                None => {
                    self.needs_redraw = true;
                    self.last_frame_time = Some(now);
                },
            }
        }
    }

    /// How long to sleep at time `now`, in nanoseconds.
    pub fn sleep_nanos(&self, now: u64) -> (nanos: u64)
        ensures
            nanos == spec_sleep_nanos(self@, now),
    {
        proof {
            use_type_invariant(self);
        }
        let mut sleep: u64 = if self.callback_pending {
            NANOS_PER_MILLI
        } else {
            match &self.gif {
                Some(gif) => {
                    if gif.frames_bgra.len() > 0 {
                        match self.last_frame_time {
                            Some(last) => {
                                let target = frame_duration_nanos(gif.frame_delays[self.frame_index]);
                                let since = if now >= last { now - last } else { 0 };
                                if since < target {
                                    target - since
                                } else {
                                    NANOS_PER_MILLI
                                }
                            },
                            None => NANOS_PER_MILLI,
                        }
                    } else {
                        100 * NANOS_PER_MILLI
                    }
                },
                None => 100 * NANOS_PER_MILLI,
            }
        };
        if sleep < NANOS_PER_MILLI {
            sleep = NANOS_PER_MILLI;
        }
        sleep
    }
}

/// Why a frame cannot be drawn.
#[derive(Debug, Clone, Copy, PartialEq, Eq, Structural)]
pub enum DrawError {
    /// No surface has been created yet.
    SurfaceMissing,
    /// The shared-memory global has not been bound.
    ShmMissing,
    /// No GIF is loaded.
    GifMissing,
    /// The GIF has no frame.
    NoFrames,
    /// The frame index does not name a frame of the GIF.
    FrameIndexOutOfRange { index: usize, frame_count: usize },
}

/// How to put the frame shown on screen: a shared-memory buffer of
/// `height` rows of `stride` bytes (BGRA, four bytes per pixel).
#[derive(Debug, Clone, Copy, PartialEq, Eq, Structural)]
pub struct FramePresentation {
    pub frame_index: usize,
    pub width: i32,
    pub height: i32,
    pub stride: i32,
    pub size: i32,
    /// No shared-memory pool exists yet: create one (with its backing file).
    pub create_pool: bool,
    /// A buffer from an earlier frame exists: destroy it first.
    pub destroy_old_buffer: bool,
    /// No frame callback is pending: request one.
    pub request_frame_callback: bool,
}

/// What drawing the frame shown amounts to.
#[derive(Debug, Clone, Copy, PartialEq, Eq, Structural)]
pub enum DrawPlan {
    /// The frame has no pixel data: nothing is drawn.
    SkipEmptyFrame { frame_index: usize },
    /// Write the frame into a buffer, attach it, damage it and commit.
    Present(FramePresentation),
}

/// Whether drawing gets as far as laying out the buffer: a surface and the
/// shared-memory global exist, and the frame shown is a non-empty frame of
/// the loaded GIF.
pub open spec fn draw_reaches_layout(m: ViewerModel) -> bool {
    &&& m.has_surface
    &&& m.has_shm
    &&& m.gif is Some
    &&& m.frame_index < frame_count(m)
    &&& m.gif->0.frames_bgra@[m.frame_index as int]@.len() > 0
}

/// Whether the buffer's byte count, `4 * width * height`, fits in an `i32`
/// wherever drawing needs it.
pub open spec fn spec_draw_sizes_fit(m: ViewerModel) -> bool {
    draw_reaches_layout(m) ==> 4 * m.gif->0.width * m.gif->0.height <= i32::MAX
}

/// The decision of drawing the frame shown.
pub open spec fn spec_plan_draw(m: ViewerModel) -> Result<DrawPlan, DrawError> {
    if !m.has_surface {
        Err(DrawError::SurfaceMissing)
    } else if !m.has_shm {
        Err(DrawError::ShmMissing)
    } else {
        match m.gif {
            None => Err(DrawError::GifMissing),
            Some(gif) => if gif.frames_bgra@.len() == 0 {
                Err(DrawError::NoFrames)
            } else if m.frame_index >= gif.frames_bgra@.len() {
                Err(
                    DrawError::FrameIndexOutOfRange {
                        index: m.frame_index,
                        frame_count: gif.frames_bgra@.len() as usize,
                    },
                )
            } else if gif.frames_bgra@[m.frame_index as int]@.len() == 0 {
                Ok(DrawPlan::SkipEmptyFrame { frame_index: m.frame_index })
            } else {
                Ok(
                    DrawPlan::Present(
                        FramePresentation {
                            frame_index: m.frame_index,
                            width: gif.width as i32,
                            height: gif.height as i32,
                            stride: (4 * gif.width) as i32,
                            size: (4 * gif.width * gif.height) as i32,
                            create_pool: !m.has_shm_pool,
                            destroy_old_buffer: m.has_buffer,
                            request_frame_callback: !m.callback_pending,
                        },
                    ),
                )
            }
        }
    }
}

impl ViewerState {
    /// Records a global bound from the registry.
    pub fn record_global(&mut self, kind: GlobalInterface)
        ensures
            final(self)@ == (match kind {
                GlobalInterface::Compositor => ViewerModel { has_compositor: true, ..old(self)@ },
                GlobalInterface::Shm => ViewerModel { has_shm: true, ..old(self)@ },
                GlobalInterface::WmBase => ViewerModel { has_wm_base: true, ..old(self)@ },
                GlobalInterface::Other => old(self)@,
            }),
    {
        proof {
            use_type_invariant(&*self);
        }
        match kind {
            GlobalInterface::Compositor => self.has_compositor = true,
            GlobalInterface::Shm => self.has_shm = true,
            GlobalInterface::WmBase => self.has_wm_base = true,
            GlobalInterface::Other => {},
        }
    }

    /// Records that the window's surface was created.
    pub fn record_surface_created(&mut self)
        ensures
            final(self)@ == (ViewerModel { has_surface: true, ..old(self)@ }),
    {
        proof {
            use_type_invariant(&*self);
        }
        self.has_surface = true;
    }

    /// The compositor's frame callback fired: it is ready for the next frame.
    pub fn on_frame_done(&mut self)
        ensures
            final(self)@ == (ViewerModel { callback_pending: false, ..old(self)@ }),
    {
        proof {
            use_type_invariant(&*self);
        }
        self.callback_pending = false;
    }

    /// The surface was (re)configured: its content must be drawn again.
    pub fn on_configure(&mut self)
        ensures
            final(self)@ == (ViewerModel { needs_redraw: true, ..old(self)@ }),
    {
        proof {
            use_type_invariant(&*self);
        }
        self.needs_redraw = true;
    }

    /// Whether to draw now: a redraw is wanted and the compositor is ready.
    pub fn should_draw(&self) -> (draw: bool)
        ensures
            draw == (self@.needs_redraw && !self@.callback_pending),
    {
        self.needs_redraw && !self.callback_pending
    }

    /// The wanted redraw has been handled.
    pub fn finish_redraw(&mut self)
        ensures
            final(self)@ == (ViewerModel { needs_redraw: false, ..old(self)@ }),
    {
        proof {
            use_type_invariant(&*self);
        }
        self.needs_redraw = false;
    }

    /// Whether `plan_draw` may be called: the buffer's byte count fits in an
    /// `i32` wherever drawing needs it.
    pub fn draw_sizes_fit(&self) -> (fits: bool)
        ensures
            fits == spec_draw_sizes_fit(self@),
    {
        proof {
            use_type_invariant(self);
        }
        if !self.has_surface || !self.has_shm {
            return true;
        }
        match &self.gif {
            None => true,
            Some(gif) => {
                if self.frame_index >= gif.frames_bgra.len() || gif.frames_bgra[self.frame_index].len() == 0 {
                    true
                } else {
                    let width = gif.width as u64;
                    let height = gif.height as u64;
                    assert(width * height <= 0xffff * 0xffff && width * height * 4 == 4 * width * height)
                        by (nonlinear_arith)
                        requires
                            width <= 0xffff,
                            height <= 0xffff,
                    ;
                    width * height * 4 <= i32::MAX as u64
                }
            },
        }
    }

    /// Decides how to draw the frame shown.
    pub fn plan_draw(&self) -> (plan: Result<DrawPlan, DrawError>)
        requires
            spec_draw_sizes_fit(self@),
        ensures
            plan == spec_plan_draw(self@),
    {
        proof {
            use_type_invariant(self);
        }
        if !self.has_surface {
            return Err(DrawError::SurfaceMissing);
        }
        if !self.has_shm {
            return Err(DrawError::ShmMissing);
        }
        let gif = match &self.gif {
            Some(gif) => gif,
            None => {
                return Err(DrawError::GifMissing);
            },
        };
        if gif.frames_bgra.len() == 0 {
            return Err(DrawError::NoFrames);
        }
        if self.frame_index >= gif.frames_bgra.len() {
            return Err(
                DrawError::FrameIndexOutOfRange {
                    index: self.frame_index,
                    frame_count: gif.frames_bgra.len(),
                },
            );
        }
        if gif.frames_bgra[self.frame_index].len() == 0 {
            return Ok(DrawPlan::SkipEmptyFrame { frame_index: self.frame_index });
        }
        let width = gif.width as i32;
        let height = gif.height as i32;
        let stride = width * 4;
        assert(stride * height <= i32::MAX) by (nonlinear_arith)
            requires
                stride == 4 * gif.width,
                height == gif.height,
                4 * gif.width * gif.height <= i32::MAX,
        ;
        let size = stride * height;
        Ok(
            DrawPlan::Present(
                FramePresentation {
                    frame_index: self.frame_index,
                    width,
                    height,
                    stride,
                    size,
                    create_pool: !self.has_shm_pool,
                    destroy_old_buffer: self.has_buffer,
                    request_frame_callback: !self.callback_pending,
                },
            ),
        )
    }

    /// Records that the shared-memory pool (and its backing file) now exists.
    pub fn record_pool_created(&mut self)
        ensures
            final(self)@ == (ViewerModel { has_shm_pool: true, ..old(self)@ }),
    {
        proof {
            use_type_invariant(&*self);
        }
        self.has_shm_pool = true;
    }

    /// Records that a frame was presented: a buffer is attached and a frame
    /// callback is pending.
    pub fn record_frame_presented(&mut self)
        ensures
            final(self)@ == (ViewerModel { has_buffer: true, callback_pending: true, ..old(self)@ }),
    {
        proof {
            use_type_invariant(&*self);
        }
        self.has_buffer = true;
        self.callback_pending = true;
    }
}

impl ViewerState {
    /// The GIF shown, if one is loaded.
    pub fn gif_data(&self) -> (gif: &Option<GifData>)
        ensures
            *gif == self@.gif,
    {
        &self.gif
    }

    /// Index of the frame shown.
    pub fn current_frame_index(&self) -> (index: usize)
        ensures
            index == self@.frame_index,
            index < frame_count(self@) || index == 0,
    {
        proof {
            use_type_invariant(self);
        }
        self.frame_index
    }

    /// Whether the content must be drawn again.
    pub fn needs_redraw(&self) -> (redraw: bool)
        ensures
            redraw == self@.needs_redraw,
    {
        self.needs_redraw
    }

    /// When the frame shown was last changed, in nanoseconds on the caller's clock.
    pub fn last_frame_time(&self) -> (time: Option<u64>)
        ensures
            time == self@.last_frame_time,
    {
        self.last_frame_time
    }

    /// Whether a frame callback has been requested and has not fired yet.
    pub fn frame_callback_pending(&self) -> (pending: bool)
        ensures
            pending == self@.callback_pending,
    {
        self.callback_pending
    }

    /// Whether the compositor global has been bound.
    pub fn has_compositor(&self) -> (bound: bool)
        ensures
            bound == self@.has_compositor,
    {
        self.has_compositor
    }

    /// Whether the shared-memory global has been bound.
    pub fn has_shm(&self) -> (bound: bool)
        ensures
            bound == self@.has_shm,
    {
        self.has_shm
    }

    /// Whether the window-manager base global has been bound.
    pub fn has_wm_base(&self) -> (bound: bool)
        ensures
            bound == self@.has_wm_base,
    {
        self.has_wm_base
    }

    /// Whether the window's surface exists.
    pub fn has_surface(&self) -> (created: bool)
        ensures
            created == self@.has_surface,
    {
        self.has_surface
    }

    /// Whether the shared-memory pool exists.
    pub fn has_shm_pool(&self) -> (created: bool)
        ensures
            created == self@.has_shm_pool,
    {
        self.has_shm_pool
    }

    /// Whether a buffer from an earlier frame exists.
    pub fn has_buffer(&self) -> (created: bool)
        ensures
            created == self@.has_buffer,
    {
        self.has_buffer
    }
}

/// The frame index reached from `index` after `steps` frame changes in a GIF of
/// `count` frames, each change going to the next frame and wrapping to the first.
pub open spec fn frames_ahead(index: int, count: int, steps: nat) -> int
    decreases steps,
{
    if steps == 0 {
        index
    } else {
        (frames_ahead(index, count, (steps - 1) as nat) + 1) % count
    }
}

/// After `steps` frame changes the index is `(index + steps) % count`.
pub proof fn lemma_frames_ahead(index: int, count: int, steps: nat)
    requires
        0 <= index < count,
    ensures
        frames_ahead(index, count, steps) == (index + steps) % count,
    decreases steps,
{
    if steps > 0 {
        lemma_frames_ahead(index, count, (steps - 1) as nat);
        vstd::arithmetic::div_mod::lemma_add_mod_noop(index + steps - 1, 1, count);
        if count > 1 {
            vstd::arithmetic::div_mod::lemma_small_mod(1, count as nat);
        } else {
            vstd::arithmetic::div_mod::lemma_mod_self_0(1);
        }
    } else {
        vstd::arithmetic::div_mod::lemma_small_mod(index as nat, count as nat);
    }
}

/// The animation loops: after as many frame changes as the GIF has frames, the
/// frame shown is the one it started from.
pub proof fn lemma_animation_loops(index: int, count: int)
    requires
        0 <= index < count,
    ensures
        frames_ahead(index, count, count as nat) == index,
{
    lemma_frames_ahead(index, count, count as nat);
    vstd::arithmetic::div_mod::lemma_add_mod_noop(index, count, count);
    vstd::arithmetic::div_mod::lemma_mod_self_0(count);
    vstd::arithmetic::div_mod::lemma_small_mod(index as nat, count as nat);
}

/// An animation step keeps the state well formed, and changes the frame shown
/// only to the next one (wrapping to the first), at which point it wants a
/// redraw and restarts the frame's clock.
pub proof fn lemma_animation_step(m: ViewerModel, now: u64)
    requires
        model_wf(m),
    ensures
        model_wf(animation_step(m, now)),
        animation_step(m, now).frame_index == m.frame_index
            || animation_step(m, now).frame_index == frames_ahead(m.frame_index as int, frame_count(m), 1),
        animation_step(m, now).frame_index != m.frame_index ==> {
            &&& animation_step(m, now).needs_redraw
            &&& animation_step(m, now).last_frame_time == Some(now)
        },
{
    reveal_with_fuel(frames_ahead, 2);
    let n = frame_count(m);
    if n > 0 {
        // The frame count is the length of a vector, so it fits in a `usize`.
        assert(m.gif->0.frames_bgra.len() == n);
    }
}

/// The frame shown stays on screen until its duration has passed.
pub proof fn lemma_frame_held_until_due(m: ViewerModel, now: u64)
    requires
        m.last_frame_time matches Some(last) && elapsed(now, last) < current_frame_nanos(m),
    ensures
        animation_step(m, now) == m,
{
}

/// The viewer always sleeps at least 1 ms and at most the longest frame
/// duration (655.35 s).
pub proof fn lemma_sleep_bounds(m: ViewerModel, now: u64)
    ensures
        NANOS_PER_MILLI <= spec_sleep_nanos(m, now) <= 655_350 * NANOS_PER_MILLI,
{
}

/// A planned presentation covers the whole logical screen with four bytes per
/// pixel: `stride == 4 * width` and `size == stride * height`.
pub proof fn lemma_presentation_layout(m: ViewerModel)
    requires
        spec_draw_sizes_fit(m),
        spec_plan_draw(m) matches Ok(DrawPlan::Present(_)),
    ensures
        spec_plan_draw(m) matches Ok(DrawPlan::Present(p)) && {
            &&& p.frame_index == m.frame_index
            &&& p.width == m.gif->0.width
            &&& p.height == m.gif->0.height
            &&& p.stride == 4 * p.width
            &&& p.size == p.stride * p.height
        },
{
}

/// An animation step at time `now` once the clock has started: when the
/// frame shown has been on screen for at least its own duration (its delay in
/// hundredths of a second, 100 ms for a delay of 0), the next frame is shown
/// (wrapping to the first), a redraw is wanted and the clock restarts at
/// `now`; before that nothing changes. Time running backwards counts as none.
pub proof fn lemma_frame_changes_when_due(m: ViewerModel, now: u64, last: u64)
    requires
        m.gif is Some,
        m.gif->0.frames_bgra@.len() > 0,
        m.last_frame_time == Some(last),
    ensures
        ({
            let count = m.gif->0.frames_bgra@.len() as int;
            let delay = m.gif->0.frame_delays@[m.frame_index as int];
            let due = (if delay == 0 { 100int } else { delay * 10 }) * 1_000_000;
            let waited = if now >= last { now - last } else { 0int };
            &&& waited >= due ==> animation_step(m, now) == ViewerModel {
                frame_index: ((m.frame_index + 1) % count) as usize,
                needs_redraw: true,
                last_frame_time: Some(now),
                ..m
            }
            &&& waited < due ==> animation_step(m, now) == m
        }),
{
}

/// The first animation step with frames starts the clock at `now` and wants a
/// redraw; without a GIF, or with a GIF without frames, nothing changes.
pub proof fn lemma_clock_starts(m: ViewerModel, now: u64)
    ensures
        (m.gif is Some && m.gif->0.frames_bgra@.len() > 0 && m.last_frame_time is None) ==> animation_step(m, now)
            == (ViewerModel { needs_redraw: true, last_frame_time: Some(now), ..m }),
        (m.gif is None || m.gif->0.frames_bgra@.len() == 0) ==> animation_step(m, now) == m,
{
}

/// How long the viewer sleeps: 1 ms while a frame callback is pending; with
/// frames and a started clock, what is left of the duration of the frame
/// shown (its delay in hundredths of a second, 100 ms for a delay of 0), but
/// at least 1 ms, and 1 ms once that duration is over; 1 ms before the clock
/// starts; 100 ms when there is nothing to animate.
pub proof fn lemma_sleep_waits_out_the_frame(m: ViewerModel, now: u64)
    ensures
        m.callback_pending ==> spec_sleep_nanos(m, now) == 1_000_000,
        !m.callback_pending && (m.gif is None || m.gif->0.frames_bgra@.len() == 0) ==> spec_sleep_nanos(m, now)
            == 100_000_000,
        !m.callback_pending && m.gif is Some && m.gif->0.frames_bgra@.len() > 0 && m.last_frame_time is None
            ==> spec_sleep_nanos(m, now) == 1_000_000,
        !m.callback_pending && m.gif is Some && m.gif->0.frames_bgra@.len() > 0 ==> (
        m.last_frame_time matches Some(last) ==> {
            let delay = m.gif->0.frame_delays@[m.frame_index as int];
            let due = (if delay == 0 { 100int } else { delay * 10 }) * 1_000_000;
            let waited = if now >= last { now - last } else { 0int };
            &&& waited < due && due - waited >= 1_000_000 ==> spec_sleep_nanos(m, now) == due - waited
            &&& waited < due && due - waited < 1_000_000 ==> spec_sleep_nanos(m, now) == 1_000_000
            &&& waited >= due ==> spec_sleep_nanos(m, now) == 1_000_000
        }),
{
}

/// Planning a draw: the errors come in order (surface, shared memory, GIF,
/// frames, frame index); an empty frame is skipped; otherwise the frame shown
/// is presented in a buffer of the logical screen, a pool is created exactly
/// when none exists, an old buffer is destroyed exactly when one exists, and a
/// frame callback is requested exactly when none is pending.
pub proof fn lemma_plan_draw_decisions(m: ViewerModel)
    requires
        spec_draw_sizes_fit(m),
    ensures
        !m.has_surface ==> spec_plan_draw(m) matches Err(DrawError::SurfaceMissing),
        m.has_surface && !m.has_shm ==> spec_plan_draw(m) matches Err(DrawError::ShmMissing),
        m.has_surface && m.has_shm && m.gif is None ==> spec_plan_draw(m) matches Err(DrawError::GifMissing),
        m.has_surface && m.has_shm && m.gif is Some && m.gif->0.frames_bgra@.len() == 0 ==> spec_plan_draw(m) matches Err(DrawError::NoFrames),
        m.has_surface && m.has_shm && m.gif is Some && m.frame_index < m.gif->0.frames_bgra@.len()
            && m.gif->0.frames_bgra@[m.frame_index as int]@.len() == 0 ==> (spec_plan_draw(m) matches Ok(
            DrawPlan::SkipEmptyFrame { frame_index }) && frame_index == m.frame_index),
        (spec_plan_draw(m) matches Ok(DrawPlan::Present(_))) <==> (m.has_surface && m.has_shm && m.gif is Some
            && m.frame_index < m.gif->0.frames_bgra@.len() && m.gif->0.frames_bgra@[m.frame_index as int]@.len()
            > 0),
        spec_plan_draw(m) matches Ok(DrawPlan::Present(p)) ==> {
            &&& p.frame_index == m.frame_index
            &&& p.width == m.gif->0.width
            &&& p.height == m.gif->0.height
            &&& p.stride == 4 * m.gif->0.width
            &&& p.size == 4 * m.gif->0.width * m.gif->0.height
            &&& p.create_pool == !m.has_shm_pool
            &&& p.destroy_old_buffer == m.has_buffer
            &&& p.request_frame_callback == !m.callback_pending
        },
{
}

/// Only the exact names `wl_compositor`, `wl_shm` and `xdg_wm_base` stand for
/// the globals the viewer binds; every other name is `Other`.
pub proof fn lemma_global_names(name: Seq<char>)
    ensures
        (spec_global_interface(name) == GlobalInterface::Compositor) <==> name == "wl_compositor"@,
        (spec_global_interface(name) == GlobalInterface::Shm) <==> name == "wl_shm"@,
        (spec_global_interface(name) == GlobalInterface::WmBase) <==> name == "xdg_wm_base"@,
        (spec_global_interface(name) == GlobalInterface::Other) <==> (name != "wl_compositor"@ && name
            != "wl_shm"@ && name != "xdg_wm_base"@),
{
    reveal_strlit("wl_compositor");
    reveal_strlit("wl_shm");
    reveal_strlit("xdg_wm_base");
    assert("wl_compositor"@.len() == 13);
    assert("wl_shm"@.len() == 6);
    assert("xdg_wm_base"@.len() == 11);
}

/// A frame with delay `d` (hundredths of a second) is shown for `10 * d` ms,
/// and a frame with delay 0 for 100 ms; so every frame is shown at least
/// 10 ms, and a longer delay never gives a shorter duration.
pub proof fn lemma_frame_duration(delay: u16, other: u16)
    ensures
        delay == 0 ==> spec_frame_duration_ms(delay) == 100,
        delay > 0 ==> spec_frame_duration_ms(delay) == 10 * delay,
        spec_frame_duration_ms(delay) >= 10,
        0 < delay <= other ==> spec_frame_duration_ms(delay) <= spec_frame_duration_ms(other),
{
}

} // verus!
