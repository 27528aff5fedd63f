//! The sprite-frame animation state machine: a fixed-rate frame timer, a
//! two-state forward/reverse sub-machine, an iteration budget, and an
//! optional total-duration budget. The alternate directions are only the
//! initial bias; they normalize to forward or reverse and flip at the
//! frame boundaries.

use vstd::prelude::*;
use crate::style::AnimationDirection;

verus! {

/// The mutable state of one running animation.
#[derive(Clone, Copy, Debug, PartialEq, Eq, Structural)]
pub struct ActiveAnimation {
    /// Accumulated time toward the next frame step.
    pub timer_ms: u32,
    /// The fixed frame interval (one second over the frame rate).
    pub interval_ms: u32,
    /// The current position in the frame source.
    pub frame: usize,
    /// Remaining boundary crossings; zero freezes the animation and a
    /// negative budget never runs out.
    pub iterations: i64,
    /// Remaining total-duration budget, meaningful only when the
    /// configured duration is positive.
    pub duration_left_ms: i64,
    /// The current run direction: always `Forward` or `Reverse`.
    pub direction: AnimationDirection,
}

/// The fixed configuration an animation runs under.
#[derive(Clone, Copy, Debug, PartialEq, Eq, Structural)]
pub struct AnimationConfig {
    /// How many frames the frame source holds: the explicit list's
    /// length, or columns times rows of the atlas.
    pub frame_count: usize,
    /// The direction the style configured; an alternate value makes the
    /// run flip at boundaries instead of wrapping.
    pub configured: AnimationDirection,
    /// The configured total duration in milliseconds; zero means no
    /// budget.
    pub duration_ms: u32,
}

/// Whether the configured direction flips at boundaries.
pub open spec fn spec_is_alternate(d: AnimationDirection) -> bool {
    d == AnimationDirection::AlternateForward || d == AnimationDirection::AlternateReverse
}

/// The starting frame for a direction: the first frame going forward,
/// the last going backward.
pub open spec fn spec_starting_frame(start: int, end: int, d: AnimationDirection) -> int {
    match d {
        AnimationDirection::Forward => start,
        AnimationDirection::Reverse => end,
        AnimationDirection::AlternateForward => start,
        AnimationDirection::AlternateReverse => end,
    }
}

/// Executable counterpart of [`spec_starting_frame`].
pub fn calculate_starting_frame(start: usize, end: usize, direction: &AnimationDirection) -> (r:
    usize)
    ensures
        r as int == spec_starting_frame(start as int, end as int, *direction),
{
    match direction {
        AnimationDirection::Forward => start,
        AnimationDirection::Reverse => end,
        AnimationDirection::AlternateForward => start,
        AnimationDirection::AlternateReverse => end,
    }
}

/// One frame step: at a boundary an alternate configuration flips the
/// run and steps to the adjacent interior frame (never repeating the
/// boundary frame), any other configuration wraps to the opposite end;
/// both consume one iteration. Away from boundaries the frame moves one
/// step in the run direction.
pub open spec fn spec_advance_frame(a: ActiveAnimation, cfg: AnimationConfig) -> ActiveAnimation {
    let n = cfg.frame_count as int;
    let dec = if a.iterations == i64::MIN {
        a.iterations as int
    } else {
        a.iterations - 1
    };
    match a.direction {
        AnimationDirection::Forward => {
            if a.frame as int >= n - 1 {
                if spec_is_alternate(cfg.configured) {
                    ActiveAnimation {
                        direction: AnimationDirection::Reverse,
                        frame: if n >= 2 {
                            (n - 2) as usize
                        } else {
                            0
                        },
                        iterations: dec as i64,
                        ..a
                    }
                } else {
                    ActiveAnimation { frame: 0, iterations: dec as i64, ..a }
                }
            } else {
                ActiveAnimation { frame: (a.frame + 1) as usize, ..a }
            }
        },
        AnimationDirection::Reverse => {
            if a.frame == 0 {
                if spec_is_alternate(cfg.configured) {
                    ActiveAnimation {
                        direction: AnimationDirection::Forward,
                        frame: if n >= 2 {
                            1
                        } else {
                            0
                        },
                        iterations: dec as i64,
                        ..a
                    }
                } else {
                    ActiveAnimation {
                        frame: if n >= 1 {
                            (n - 1) as usize
                        } else {
                            0
                        },
                        iterations: dec as i64,
                        ..a
                    }
                }
            } else {
                ActiveAnimation { frame: (a.frame - 1) as usize, ..a }
            }
        },
        _ => a,
    }
}

/// One tick: a frozen animation (no iterations left, or an exhausted
/// duration budget) holds its frame; otherwise the duration budget
/// counts down, the frame timer accumulates, and each completed interval
/// advances one frame. A single-frame explicit list never advances.
pub open spec fn spec_animation_tick(
    a: ActiveAnimation,
    cfg: AnimationConfig,
    single_explicit_frame: bool,
    delta_ms: u32,
) -> ActiveAnimation {
    if a.iterations == 0 {
        a
    } else {
        let a1 = if cfg.duration_ms > 0 {
            ActiveAnimation {
                duration_left_ms: if a.duration_left_ms - delta_ms < i64::MIN {
                    i64::MIN
                } else {
                    (a.duration_left_ms - delta_ms) as i64
                },
                ..a
            }
        } else {
            a
        };
        if cfg.duration_ms > 0 && a1.duration_left_ms <= 0 {
            a1
        } else {
            let timer = a1.timer_ms as int + delta_ms as int;
            if single_explicit_frame {
                ActiveAnimation {
                    timer_ms: if timer > u32::MAX {
                        u32::MAX
                    } else {
                        timer as u32
                    },
                    ..a1
                }
            } else if a1.interval_ms > 0 && timer >= a1.interval_ms {
                let a2 = ActiveAnimation {
                    timer_ms: (timer % (a1.interval_ms as int)) as u32,
                    ..a1
                };
                spec_advance_frame(a2, cfg)
            } else {
                ActiveAnimation {
                    timer_ms: if timer > u32::MAX {
                        u32::MAX
                    } else {
                        timer as u32
                    },
                    ..a1
                }
            }
        }
    }
}

impl ActiveAnimation {
    /// A fresh animation: the normalized run direction, the starting
    /// frame for it, the full iteration and duration budgets.
    pub fn new(cfg: &AnimationConfig, iterations: i64, fps: i64) -> (r: ActiveAnimation)
        ensures
            r.direction == (if cfg.configured == AnimationDirection::Reverse || cfg.configured
                == AnimationDirection::AlternateReverse {
                AnimationDirection::Reverse
            } else {
                AnimationDirection::Forward
            }),
            r.iterations == iterations,
            r.frame as int == spec_starting_frame(
                0,
                if cfg.frame_count >= 1 {
                    cfg.frame_count - 1
                } else {
                    0
                },
                cfg.configured,
            ),
            r.duration_left_ms == cfg.duration_ms,
            r.timer_ms == 0,
            fps >= 1 ==> r.interval_ms as int == 1000int / (fps as int),
            fps < 1 ==> r.interval_ms == 1000,
    {
        let direction = match cfg.configured {
            AnimationDirection::Reverse => AnimationDirection::Reverse,
            AnimationDirection::AlternateReverse => AnimationDirection::Reverse,
            AnimationDirection::Forward => AnimationDirection::Forward,
            AnimationDirection::AlternateForward => AnimationDirection::Forward,
        };
        let last = if cfg.frame_count >= 1 {
            cfg.frame_count - 1
        } else {
            0
        };
        let frame = calculate_starting_frame(0, last, &cfg.configured);
        let interval_ms: u32 = if fps >= 1 {
            proof {
                assert(1000int / (fps as int) <= 1000) by (nonlinear_arith)
                    requires
                        fps as int >= 1,
                ;
                assert(1000int / (fps as int) >= 0) by (nonlinear_arith)
                    requires
                        fps as int >= 1,
                ;
            }
            (1000i64 / fps) as u32
        } else {
            1000
        };
        ActiveAnimation {
            timer_ms: 0,
            interval_ms,
            frame,
            iterations,
            duration_left_ms: cfg.duration_ms as i64,
            direction,
        }
    }

    /// Runs one tick; the result is exactly [`spec_animation_tick`].
    pub fn tick(&mut self, cfg: &AnimationConfig, single_explicit_frame: bool, delta_ms: u32)
        ensures
            *final(self) == spec_animation_tick(*old(self), *cfg, single_explicit_frame, delta_ms),
    {
        if self.iterations == 0 {
            return ;
        }
        if cfg.duration_ms > 0 {
            self.duration_left_ms = wrapping_sub_i64(self.duration_left_ms, delta_ms);
            if self.duration_left_ms <= 0 {
                return ;
            }
        }
        let timer = self.timer_ms as u64 + delta_ms as u64;
        if single_explicit_frame {
            self.timer_ms = if timer > u32::MAX as u64 {
                u32::MAX
            } else {
                timer as u32
            };
            return ;
        }
        if self.interval_ms > 0 && timer >= self.interval_ms as u64 {
            self.timer_ms = (timer % (self.interval_ms as u64)) as u32;
            self.advance_frame(cfg);
        } else {
            self.timer_ms = if timer > u32::MAX as u64 {
                u32::MAX
            } else {
                timer as u32
            };
        }
    }

    /// Advances one frame; the result is exactly [`spec_advance_frame`].
    pub fn advance_frame(&mut self, cfg: &AnimationConfig)
        ensures
            *final(self) == spec_advance_frame(*old(self), *cfg),
    {
        let n = cfg.frame_count;
        let dec = if self.iterations == i64::MIN {
            self.iterations
        } else {
            self.iterations - 1
        };
        match self.direction {
            AnimationDirection::Forward => {
                if n == 0 || self.frame >= n - 1 {
                    if is_alternate(&cfg.configured) {
                        self.direction = AnimationDirection::Reverse;
                        self.frame = if n >= 2 {
                            n - 2
                        } else {
                            0
                        };
                    } else {
                        self.frame = 0;
                    }
                    self.iterations = dec;
                } else {
                    self.frame = self.frame + 1;
                }
            },
            AnimationDirection::Reverse => {
                if self.frame == 0 {
                    if is_alternate(&cfg.configured) {
                        self.direction = AnimationDirection::Forward;
                        self.frame = if n >= 2 {
                            1
                        } else {
                            0
                        };
                    } else {
                        self.frame = if n >= 1 {
                            n - 1
                        } else {
                            0
                        };
                    }
                    self.iterations = dec;
                } else {
                    self.frame = self.frame - 1;
                }
            },
            _ => {},
        }
    }
}

/// Saturating subtraction of a small delta from a budget.
fn wrapping_sub_i64(v: i64, delta: u32) -> (r: i64)
    ensures
        r as int == if v - delta < i64::MIN {
            i64::MIN as int
        } else {
            v - delta
        },
{
    if v >= i64::MIN + delta as i64 {
        v - delta as i64
    } else {
        i64::MIN
    }
}

/// Executable counterpart of [`spec_is_alternate`].
pub fn is_alternate(d: &AnimationDirection) -> (r: bool)
    ensures
        r == spec_is_alternate(*d),
{
    match d {
        AnimationDirection::AlternateForward => true,
        AnimationDirection::AlternateReverse => true,
        _ => false,
    }
}

/// Law: an unbounded animation never stops. A negative iteration budget
/// stays negative through every tick (it never reaches the frozen state
/// at zero), and with no duration budget configured nothing else can
/// freeze it, however many ticks elapse.
pub proof fn lemma_unbounded_never_stops(
    a: ActiveAnimation,
    cfg: AnimationConfig,
    single_explicit_frame: bool,
    delta_ms: u32,
)
    requires
        a.iterations < 0,
    ensures
        spec_animation_tick(a, cfg, single_explicit_frame, delta_ms).iterations < 0,
{
}


/// The number of cells an atlas grid offers, clamped to the machine
/// limit.
pub open spec fn spec_grid_count(atlas: Option<crate::style::Atlas>) -> usize {
    match atlas {
        Option::Some(a) => {
            if a.columns * a.rows > usize::MAX {
                usize::MAX
            } else {
                (a.columns * a.rows) as usize
            }
        },
        Option::None => 0,
    }
}

/// The animation configuration a computed style describes: the frame
/// source is the explicit frame list when one was given, else the
/// contiguous atlas grid; the configured direction and duration budget
/// come along unchanged.
pub open spec fn spec_animation_config(c: crate::styles::SpecComputedStyle) -> AnimationConfig {
    AnimationConfig {
        frame_count: if c.frames.len() > 0 {
            if c.frames.len() > usize::MAX {
                usize::MAX
            } else {
                c.frames.len() as usize
            }
        } else {
            spec_grid_count(c.atlas)
        },
        configured: c.direction,
        duration_ms: c.duration,
    }
}

/// Builds the animation configuration of a style; a style without an
/// atlas describes no animation.
pub fn animation_config_of(c: &crate::styles::ComputedStyle) -> (r: Option<AnimationConfig>)
    ensures
        match r {
            Some(cfg) => c@.atlas is Some && cfg == spec_animation_config(c@),
            None => c@.atlas is None,
        },
{
    match c.atlas {
        Some(a) => {
            let frame_count: usize = if c.frames.len() > 0 {
                c.frames.len()
            } else {
                proof {
                    assert(a.columns as int * (a.rows as int) < 18446744073709551616)
                        by (nonlinear_arith)
                        requires
                            a.columns as int <= 0xffff_ffff,
                            a.rows as int <= 0xffff_ffff,
                            0 <= a.columns as int,
                            0 <= a.rows as int,
                    ;
                }
                let cells = a.columns as u64 * a.rows as u64;
                if cells > usize::MAX as u64 {
                    usize::MAX
                } else {
                    cells as usize
                }
            };
            Some(
                AnimationConfig { frame_count, configured: c.direction, duration_ms: c.duration },
            )
        },
        None => None,
    }
}

/// Whether the style's explicit frame list holds exactly one frame, so
/// the animation never advances.
pub fn single_explicit_frame_of(c: &crate::styles::ComputedStyle) -> (r: bool)
    ensures
        r == (c@.frames.len() == 1),
{
    c.frames.len() == 1
}

/// The atlas cell an animation position displays: the raw position for a
/// contiguous source, or the frame list's entry at it (a negative entry
/// reads as cell zero, an entry beyond the machine limit clamps).
pub open spec fn spec_displayed_index(frames: Seq<i64>, frame: int) -> int {
    if frames.len() == 0 {
        frame
    } else if 0 <= frame < frames.len() {
        if frames[frame] < 0 {
            0
        } else if frames[frame] > usize::MAX {
            usize::MAX as int
        } else {
            frames[frame] as int
        }
    } else {
        0
    }
}

/// Executable counterpart of [`spec_displayed_index`].
pub fn displayed_index(frames: &Vec<i64>, frame: usize) -> (r: usize)
    ensures
        r as int == spec_displayed_index(frames@, frame as int),
{
    if frames.len() == 0 {
        frame
    } else if frame < frames.len() {
        let v = frames[frame];
        if v < 0 {
            0
        } else if (v as u64) > (usize::MAX as u64) {
            usize::MAX
        } else {
            v as usize
        }
    } else {
        0
    }
}

} // verus!
