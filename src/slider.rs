//! Slider: from a pointer press to a value and a fill width.
use vstd::prelude::*;
use crate::components::UiSlider;
use crate::geometry::{Point, Rect};
use crate::input::Interaction;

verus! {

/// `n / d` rounded to the nearest whole number, halves upwards.
pub open spec fn round_div(n: int, d: int) -> int {
    (2 * n + d) / (2 * d)
}

/// `v` raised to `lo`, then lowered to `hi`.
pub open spec fn clamp(v: int, lo: int, hi: int) -> int {
    if v < lo {
        lo
    } else if v > hi {
        hi
    } else {
        v
    }
}

/// Width of a track, zero for a degenerate rectangle.
pub open spec fn track_width(track: Rect) -> int {
    if track.max.x > track.min.x {
        track.max.x - track.min.x
    } else {
        0
    }
}

/// Horizontal distance of the pointer from the track's left edge, kept on the track.
pub open spec fn track_offset(track: Rect, x: int) -> int {
    clamp(x - track.min.x, 0, track_width(track))
}

/// The value that a press at `offset` pixels along a track of `width` pixels
/// selects: the offset mapped linearly onto `min..=max`, rounded to the
/// nearest step above `min` (to the nearest whole number without a step or
/// with a step of zero), then clamped to the range.
pub open spec fn value_at(min: int, max: int, step: Option<u32>, offset: int, width: int) -> int {
    let span = max - min;
    let steps: int = match step {
        Some(s) => if s > 0 { s as int } else { 1 },
        None => 1,
    };
    let k = if width == 0 { 0 } else { round_div(span * offset, width * steps) };
    clamp(min + k * steps, min, max)
}

/// Width of the fill, in percent of the track, for `value` in `min..=max`.
pub open spec fn fill_percent(value: int, min: int, max: int) -> int {
    if max <= min {
        0
    } else {
        (clamp(value, min, max) - min) * 100 / (max - min)
    }
}

proof fn lemma_round_div_bounds(n: int, d: int, hi: int)
    requires
        0 <= n <= hi * d,
        d > 0,
        hi >= 0,
    ensures
        0 <= round_div(n, d) <= hi + 1,
{
    assert(2 * n + d <= (hi + 1) * (2 * d)) by (nonlinear_arith)
        requires
            0 <= n <= hi * d,
            d > 0,
    ;
    vstd::arithmetic::div_mod::lemma_div_is_ordered(2 * n + d, (hi + 1) * (2 * d), 2 * d);
    vstd::arithmetic::div_mod::lemma_div_multiples_vanish(hi + 1, 2 * d);
    vstd::arithmetic::div_mod::lemma_div_pos_is_pos(2 * n + d, 2 * d);
}

/// The value that a press at horizontal position `pointer_x` on `track` selects.
pub fn slider_value_at(slider: &UiSlider, pointer_x: i64, track: Rect) -> (v: i32)
    requires
        slider.min <= slider.max,
    ensures
        v == value_at(
            slider.min as int,
            slider.max as int,
            slider.step,
            track_offset(track, pointer_x as int),
            track_width(track),
        ),
        slider.min <= v <= slider.max,
        (match slider.step {
            Some(s) => s > 0 && (slider.max - slider.min) % (s as int) == 0 ==> (v - slider.min) % (
            s as int) == 0,
            None => true,
        }),
{
    let width: u128 = if track.max.x > track.min.x {
        (track.max.x as i128 - track.min.x as i128) as u128
    } else {
        0
    };
    let rel: i128 = pointer_x as i128 - track.min.x as i128;
    let offset: u128 = if rel < 0 {
        0
    } else if rel as u128 > width {
        width
    } else {
        rel as u128
    };
    let span: u128 = (slider.max as i128 - slider.min as i128) as u128;
    let steps: u128 = match slider.step {
        Some(s) => if s > 0 {
            s as u128
        } else {
            1
        },
        None => 1,
    };
    assert(width == track_width(track));
    assert(offset == track_offset(track, pointer_x as int));
    let k: u128 = if width == 0 {
        0
    } else {
        assert(span * offset <= 0x1_0000_0000 * 0x1_0000_0000_0000_0000) by (nonlinear_arith)
            requires
                span < 0x1_0000_0000,
                offset <= width,
                width < 0x1_0000_0000_0000_0000,
        ;
        assert(width * steps <= 0x1_0000_0000_0000_0000 * 0x1_0000_0000) by (nonlinear_arith)
            requires
                steps < 0x1_0000_0000,
                width < 0x1_0000_0000_0000_0000,
        ;
        let n: u128 = span * offset;
        let d: u128 = width * steps;
        assert(n <= span * d) by (nonlinear_arith)
            requires
                n == span * offset,
                d == width * steps,
                offset <= width,
                steps >= 1,
        ;
        assert(d > 0) by (nonlinear_arith)
            requires
                d == width * steps,
                width > 0,
                steps >= 1,
        ;
        proof {
            lemma_round_div_bounds(n as int, d as int, span as int);
        }
        (2 * n + d) / (2 * d)
    };
    assert(k * steps <= 0x1_0000_0001 * 0x1_0000_0000) by (nonlinear_arith)
        requires
            k <= span + 1,
            span < 0x1_0000_0000,
            steps < 0x1_0000_0000,
    ;
    let cand: i128 = slider.min as i128 + (k * steps) as i128;
    proof {
        if let Some(s) = slider.step {
            if s > 0 {
                vstd::arithmetic::div_mod::lemma_mod_multiples_basic(k as int, s as int);
            }
        }
    }
    if cand < slider.min as i128 {
        slider.min
    } else if cand > slider.max as i128 {
        slider.max
    } else {
        cand as i32
    }
}

/// Width of the fill for `value`, in percent of the track.
pub fn slider_fill_percent(value: i32, min: i32, max: i32) -> (p: u32)
    ensures
        p == fill_percent(value as int, min as int, max as int),
        p <= 100,
{
    if max <= min {
        0
    } else {
        let v: i64 = if value < min {
            min as i64
        } else if value > max {
            max as i64
        } else {
            value as i64
        };
        let num: i64 = (v - min as i64) * 100;
        let den: i64 = max as i64 - min as i64;
        assert(num <= den * 100);
        proof {
            vstd::arithmetic::div_mod::lemma_div_is_ordered(num as int, den * 100, den as int);
            vstd::arithmetic::div_mod::lemma_div_multiples_vanish(100, den as int);
            vstd::arithmetic::div_mod::lemma_div_pos_is_pos(num as int, den as int);
        }
        (num / den) as u32
    }
}

/// A slider after a change to `interaction` with the pointer at `pointer`
/// on `track`: a press on an enabled slider with a non-empty range sets the
/// value there.
pub open spec fn slider_after(
    slider: UiSlider,
    interaction: Interaction,
    pointer: Option<Point>,
    track: Rect,
) -> UiSlider {
    match (interaction, pointer) {
        (Interaction::Pressed, Some(p)) => if slider.disabled || slider.min > slider.max {
            slider
        } else {
            UiSlider {
                value: value_at(
                    slider.min as int,
                    slider.max as int,
                    slider.step,
                    track_offset(track, p.x as int),
                    track_width(track),
                ) as i32,
                ..slider
            }
        },
        _ => slider,
    }
}

/// The step divides the range (always so without a step).
pub open spec fn step_divides_range(slider: UiSlider) -> bool {
    match slider.step {
        Some(s) => s > 0 ==> (slider.max - slider.min) % (s as int) == 0,
        None => true,
    }
}

proof fn lemma_value_at_bounds(min: int, max: int, step: Option<u32>, offset: int, width: int)
    requires
        min <= max,
        0 <= offset,
        0 <= width,
    ensures
        min <= value_at(min, max, step, offset, width) <= max,
        match step {
            Some(s) => s > 0 && (max - min) % (s as int) == 0 ==> (value_at(
                min,
                max,
                step,
                offset,
                width,
            ) - min) % (s as int) == 0,
            None => true,
        },
{
    let steps: int = match step {
        Some(s) => if s > 0 { s as int } else { 1 },
        None => 1,
    };
    let span = max - min;
    if width != 0 {
        assert(span * offset >= 0) by (nonlinear_arith)
            requires
                span >= 0,
                offset >= 0,
        ;
        assert(width * steps > 0) by (nonlinear_arith)
            requires
                width > 0,
                steps > 0,
        ;
        vstd::arithmetic::div_mod::lemma_div_pos_is_pos(2 * (span * offset) + width * steps, 2 * (width * steps));
    }
    let k = if width == 0 { 0 } else { round_div(span * offset, width * steps) };
    assert(k * steps >= 0) by (nonlinear_arith)
        requires
            k >= 0,
            steps > 0,
    ;
    vstd::arithmetic::div_mod::lemma_mod_multiples_basic(k, steps);
}

/// Sliders keep their range: a press on a slider whose range is not empty
/// leaves its value between `min` and `max`, and, where the step divides
/// the range, `min` plus a whole number of steps; hovering and leaving keep
/// the value. So a slider that starts so stays so under any sequence of
/// interactions.
pub proof fn lemma_slider_stays_in_range(
    slider: UiSlider,
    interaction: Interaction,
    pointer: Option<Point>,
    track: Rect,
)
    requires
        slider.min <= slider.max,
        slider.in_range(),
    ensures
        slider_after(slider, interaction, pointer, track).in_range(),
        slider.on_step() && step_divides_range(slider) ==> slider_after(
            slider,
            interaction,
            pointer,
            track,
        ).on_step(),
{
    if let Some(p) = pointer {
        lemma_value_at_bounds(
            slider.min as int,
            slider.max as int,
            slider.step,
            track_offset(track, p.x as int),
            track_width(track),
        );
    }
}

/// One interaction handed to a slider: the state, the pointer, the track.
#[derive(Clone, Copy, Debug)]
pub struct SliderInput {
    pub interaction: Interaction,
    pub pointer: Option<Point>,
    pub track: Rect,
}

/// A slider after each of `inputs`, in order.
pub open spec fn slider_after_all(slider: UiSlider, inputs: Seq<SliderInput>) -> UiSlider
    decreases inputs.len(),
{
    if inputs.len() == 0 {
        slider
    } else {
        let last = inputs.last();
        slider_after(slider_after_all(slider, inputs.drop_last()), last.interaction, last.pointer, last.track)
    }
}

/// Sliders keep their range under any sequence of interactions: a slider
/// whose value starts within its range stays within it, and on a step of a
/// step that divides the range.
pub proof fn lemma_slider_range_kept(slider: UiSlider, inputs: Seq<SliderInput>)
    requires
        slider.min <= slider.max,
        slider.in_range(),
    ensures
        slider_after_all(slider, inputs).in_range(),
        slider_after_all(slider, inputs).min == slider.min,
        slider_after_all(slider, inputs).max == slider.max,
        slider_after_all(slider, inputs).step == slider.step,
        slider.on_step() && step_divides_range(slider) ==> slider_after_all(slider, inputs).on_step(),
    decreases inputs.len(),
{
    if inputs.len() > 0 {
        lemma_slider_range_kept(slider, inputs.drop_last());
        let last = inputs.last();
        lemma_slider_stays_in_range(
            slider_after_all(slider, inputs.drop_last()),
            last.interaction,
            last.pointer,
            last.track,
        );
    }
}

/// The slider handler does not drift: handling the same press at the same
/// place a second time leaves the slider as the first time left it.
pub proof fn lemma_slider_idempotent(
    slider: UiSlider,
    interaction: Interaction,
    pointer: Option<Point>,
    track: Rect,
)
    ensures
        slider_after(slider_after(slider, interaction, pointer, track), interaction, pointer, track)
            == slider_after(slider, interaction, pointer, track),
{
}

/// Handles one change of a slider's interaction state.
///
/// A press sets the value from the pointer's horizontal position on the
/// track (see [`value_at`]); hovering and leaving keep it. A disabled
/// slider, one whose `min` exceeds its `max`, or a press without a pointer
/// position, keeps its value. The result is the fill width, in percent of
/// the track, for the value after the call.
pub fn slider_interaction_system(
    interaction: Interaction,
    slider: &mut UiSlider,
    pointer: Option<Point>,
    track: Rect,
) -> (fill: u32)
    ensures
        *final(slider) == slider_after(*old(slider), interaction, pointer, track),
        fill == fill_percent(final(slider).value as int, final(slider).min as int, final(slider).max as int),
{
    if !slider.disabled && slider.min <= slider.max {
        if let Interaction::Pressed = interaction {
            if let Some(p) = pointer {
                let v = slider_value_at(slider, p.x, track);
                slider.value = v;
            }
        }
    }
    slider_fill_percent(slider.value, slider.min, slider.max)
}

} // verus!
