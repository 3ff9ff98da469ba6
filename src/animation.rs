//! The animation: a steady color or a crossfade, advanced once per refresh.
use vstd::prelude::*;
use crate::color::Color;

verus! {

/// How long a steady color is held before its frame is sent again, in
/// milliseconds (one hour).
pub const STEADY_SLEEP_MS: u64 = 3_600_000;

/// Default time between two refreshes of a crossfade, in milliseconds.
pub const REFRESH_MS: u64 = 50;

/// Number of commands that the command queue holds before a sender waits.
pub const COMMAND_CAPACITY: usize = 2;

/// Full scale of the crossfade ratio.
pub const RATIO_MAX: u32 = 256;

/// A mode change for the LED.
#[derive(Clone, Copy, Debug, PartialEq, Eq, Structural)]
pub enum Cmd {
    /// Hold one color.
    Steady(Color),
    /// Fade back and forth between two colors; `period` is the length of
    /// one fade, in milliseconds.
    Blinky { color0: Color, color1: Color, period: u64 },
}

impl Cmd {
    /// A crossfade needs a positive period.
    pub open spec fn wf(self) -> bool {
        match self {
            Cmd::Steady(_) => true,
            Cmd::Blinky { period, .. } => period > 0,
        }
    }
}

/// The animation: the command being shown, the direction of the fade and
/// the time spent in the current fade, in milliseconds.
#[derive(Clone, Copy, Debug, PartialEq, Eq, Structural)]
pub struct AnimationState {
    pub current: Cmd,
    pub forward: bool,
    pub elapsed: u64,
}

/// `(a * ratio + b * (256 - ratio)) / 256`, truncated.
pub open spec fn lerp_spec(a: u8, b: u8, ratio: int) -> int {
    (a * ratio + b * (256 - ratio)) / 256
}

/// The color whose channels are `lerp_spec` of the two colors' channels.
pub open spec fn blend(c0: Color, c1: Color, ratio: int) -> Color {
    Color {
        r: lerp_spec(c0.r, c1.r, ratio) as u8,
        g: lerp_spec(c0.g, c1.g, ratio) as u8,
        b: lerp_spec(c0.b, c1.b, ratio) as u8,
    }
}

/// Time spent in the fade, scaled to `[0, 256]`.
pub open spec fn raw_ratio(elapsed: u64, period: u64) -> int {
    elapsed * 256 / (period as int)
}

/// The state a new command starts in.
pub open spec fn after_command(cmd: Cmd) -> AnimationState {
    AnimationState { current: cmd, forward: true, elapsed: 0 }
}

impl AnimationState {
    /// The fade's time lies within its period.
    pub open spec fn wf(self) -> bool {
        &&& self.current.wf()
        &&& match self.current {
            Cmd::Steady(_) => true,
            Cmd::Blinky { period, .. } => self.elapsed <= period,
        }
    }

    /// The crossfade ratio of a fading state: the raw ratio going forward,
    /// its complement going back.
    pub open spec fn ratio(self) -> int {
        match self.current {
            Cmd::Steady(_) => 0,
            Cmd::Blinky { period, .. } => if self.forward {
                raw_ratio(self.elapsed, period)
            } else {
                256 - raw_ratio(self.elapsed, period)
            },
        }
    }

    /// The color that a tick in this state emits.
    pub open spec fn color(self) -> Color {
        match self.current {
            Cmd::Steady(c) => c,
            Cmd::Blinky { color0, color1, .. } => blend(color0, color1, self.ratio()),
        }
    }

    /// How long to wait after a tick in this state.
    pub open spec fn sleep(self, refresh: u64) -> u64 {
        match self.current {
            Cmd::Steady(_) => STEADY_SLEEP_MS,
            Cmd::Blinky { .. } => refresh,
        }
    }

    /// The state after a tick: time advances up to the period, and the
    /// direction turns at either end of the fade.
    pub open spec fn next(self, refresh: u64) -> AnimationState {
        match self.current {
            Cmd::Steady(_) => self,
            Cmd::Blinky { period, .. } => if self.forward && self.ratio() == 256 {
                AnimationState { forward: false, elapsed: 0, ..self }
            } else if !self.forward && self.ratio() == 0 {
                AnimationState { forward: true, elapsed: 0, ..self }
            } else if self.elapsed + refresh <= period {
                AnimationState { elapsed: (self.elapsed + refresh) as u64, ..self }
            } else {
                AnimationState { elapsed: period, ..self }
            },
        }
    }

    /// The state after `n` ticks.
    pub open spec fn ticks(self, refresh: u64, n: nat) -> AnimationState
        decreases n,
    {
        if n == 0 {
            self
        } else {
            self.next(refresh).ticks(refresh, (n - 1) as nat)
        }
    }

    /// The state at start-up: steady, all channels off.
    pub fn new() -> (s: AnimationState)
        ensures
            s == after_command(Cmd::Steady(Color { r: 0, g: 0, b: 0 })),
            s.wf(),
    {
        AnimationState { current: Cmd::Steady(Color::off()), forward: true, elapsed: 0 }
    }

    /// Replaces the current command; the new one starts from the beginning
    /// of its first forward fade.
    pub fn apply_command(&mut self, cmd: Cmd)
        requires
            cmd.wf(),
        ensures
            *final(self) == after_command(cmd),
            final(self).wf(),
    {
        self.current = cmd;
        self.forward = true;
        self.elapsed = 0;
    }

    /// Emits the color to show now and how long to wait before the next
    /// tick, and advances the fade by `refresh` milliseconds.
    pub fn tick(&mut self, refresh: u64) -> (r: (u64, Color))
        requires
            old(self).wf(),
        ensures
            r.0 == old(self).sleep(refresh),
            r.1 == old(self).color(),
            *final(self) == old(self).next(refresh),
            final(self).wf(),
    {
        match self.current {
            Cmd::Steady(c) => (STEADY_SLEEP_MS, c),
            Cmd::Blinky { color0, color1, period } => {
                let raw = scaled_ratio(self.elapsed, period);
                let ratio: u32 = if self.forward { raw } else { RATIO_MAX - raw };
                assert(ratio == self.ratio());
                let color = Color {
                    r: lerp(color0.r, color1.r, ratio),
                    g: lerp(color0.g, color1.g, ratio),
                    b: lerp(color0.b, color1.b, ratio),
                };
                if self.forward && ratio == RATIO_MAX {
                    self.forward = false;
                    self.elapsed = 0;
                } else if !self.forward && ratio == 0 {
                    self.forward = true;
                    self.elapsed = 0;
                } else if refresh <= period - self.elapsed {
                    self.elapsed = self.elapsed + refresh;
                } else {
                    self.elapsed = period;
                }
                (refresh, color)
            },
        }
    }
}

/// `elapsed * 256 / period`, which lies in `[0, 256]`.
fn scaled_ratio(elapsed: u64, period: u64) -> (r: u32)
    requires
        0 < period,
        elapsed <= period,
    ensures
        r == raw_ratio(elapsed, period),
        r <= 256,
{
    let q: u128 = (elapsed as u128) * 256 / (period as u128);
    assert(q <= 256) by (nonlinear_arith)
        requires
            q == (elapsed as int) * 256 / (period as int),
            0 < period,
            elapsed <= period,
    ;
    q as u32
}

/// Blends one channel: `(a * ratio + b * (256 - ratio)) / 256`, so that a
/// ratio of 256 gives `a` and a ratio of 0 gives `b`.
pub fn lerp(a: u8, b: u8, ratio: u32) -> (r: u8)
    requires
        ratio <= 256,
    ensures
        r == lerp_spec(a, b, ratio as int),
{
    proof {
        lemma_lerp_in_range(a, b, ratio as int);
    }
    let mixed: u32 = (a as u32) * ratio + (b as u32) * (RATIO_MAX - ratio);
    (mixed / RATIO_MAX) as u8
}

/// For every ratio in `[0, 256]`, blending two channel values gives a
/// channel value again.
pub proof fn lemma_lerp_in_range(a: u8, b: u8, ratio: int)
    requires
        0 <= ratio <= 256,
    ensures
        0 <= lerp_spec(a, b, ratio) <= 255,
{
    assert(0 <= a * ratio + b * (256 - ratio) <= 255 * 256) by (nonlinear_arith)
        requires
            0 <= ratio <= 256,
            0 <= a <= 255,
            0 <= b <= 255,
    ;
}

/// In a well-formed crossfade the ratio stays in `[0, 256]`, so every color
/// it emits is a blend of the two channel values.
pub proof fn lemma_ratio_in_range(s: AnimationState)
    requires
        s.wf(),
        s.current is Blinky,
    ensures
        0 <= s.ratio() <= 256,
{
    if let Cmd::Blinky { period, .. } = s.current {
        assert(0 <= raw_ratio(s.elapsed, period) <= 256) by (nonlinear_arith)
            requires
                raw_ratio(s.elapsed, period) == (s.elapsed as int) * 256 / (period as int),
                0 < period,
                s.elapsed <= period,
        ;
    }
}

/// At a ratio of 256 a blend gives its first value, at 0 its second.
pub proof fn lemma_lerp_ends(a: u8, b: u8)
    ensures
        lerp_spec(a, b, 256) == a,
        lerp_spec(a, b, 0) == b,
{
    assert(lerp_spec(a, b, 256) == a) by (nonlinear_arith);
    assert(lerp_spec(a, b, 0) == b) by (nonlinear_arith);
}

/// Blending a channel value with itself gives it back, at every ratio.
pub proof fn lemma_lerp_same(a: u8, ratio: int)
    requires
        0 <= ratio <= 256,
    ensures
        lerp_spec(a, a, ratio) == a,
{
    assert(a * ratio + a * (256 - ratio) == a * 256) by (nonlinear_arith);
    assert((a * 256) / 256 == a) by (nonlinear_arith);
}

/// A crossfade starts at the beginning of its forward fade, where it shows
/// its second color.
pub proof fn lemma_blinky_starts_at_color1(color0: Color, color1: Color, period: u64)
    requires
        period > 0,
    ensures
        after_command(Cmd::Blinky { color0, color1, period }).color() == color1,
{
    lemma_lerp_ends(color0.r, color1.r);
    lemma_lerp_ends(color0.g, color1.g);
    lemma_lerp_ends(color0.b, color1.b);
    assert(raw_ratio(0, period) == 0);
}

/// A new command takes effect at once: the state it leaves does not depend
/// on the state before (see `apply_command`), the fade restarts forward from zero, and the next tick shows the
/// command's starting color (a crossfade between one color and itself
/// stands for crossfades in general, whose first frame shows `color1`).
pub proof fn lemma_command_preempts(cmd: Cmd)
    requires
        cmd.wf(),
        match cmd {
            Cmd::Steady(_) => true,
            Cmd::Blinky { color0, color1, .. } => color0 == color1,
        },
    ensures
        after_command(cmd).wf(),
        after_command(cmd).forward,
        after_command(cmd).elapsed == 0,
        match cmd {
            Cmd::Steady(c) => after_command(cmd).color() == c,
            Cmd::Blinky { color0, .. } => after_command(cmd).color() == color0,
        },
{
    if let Cmd::Blinky { color0, color1, period } = cmd {
        lemma_blinky_starts_at_color1(color0, color1, period);
    }
}

/// A steady color stays: every tick leaves the state as it was, emits the
/// same color and waits the long steady time, however many ticks pass.
pub proof fn lemma_steady_holds(s: AnimationState, c: Color, refresh: u64, n: nat)
    requires
        s.wf(),
        s.current == Cmd::Steady(c),
    ensures
        s.ticks(refresh, n) == s,
        s.ticks(refresh, n).color() == c,
        s.ticks(refresh, n).sleep(refresh) == STEADY_SLEEP_MS,
    decreases n,
{
    if n > 0 {
        lemma_steady_holds(s.next(refresh), c, refresh, (n - 1) as nat);
    }
}

} // verus!
