//! Pointer-driven bounded value control.
//!
//! A slider occupies a horizontal strip of pixels and shows a value between
//! zero and full scale.  A pointer click or drag inside the strip selects a
//! new value proportional to the pointer's position; pointer positions
//! outside the strip clamp to its edges.  Values are held in fixed point:
//! one unit is a hundredth of a percent, so `SLIDER_VALUE_MAX` units stand
//! for the full value.

use vstd::prelude::*;

verus! {

/// Full scale of a slider value, in hundredths of a percent.
pub const SLIDER_VALUE_MAX: u32 = 10000;

/// The horizontal strip of pixels currently occupied by a control.  It is
/// recomputed from the available layout width on every render pass; it is a
/// value, not an entity.
pub struct InteractionRegion {
    /// Leftmost pixel column of the strip.
    pub left: i32,
    /// Width of the strip in pixels; zero for a collapsed control.
    pub width: i32,
}

impl InteractionRegion {
    /// A region is well formed when its width is non-negative and its right
    /// edge still fits in `i32`.
    pub open spec fn wf(&self) -> bool {
        0 <= self.width && self.left + self.width <= i32::MAX
    }

    /// Rightmost pixel column of the strip.
    pub open spec fn right_edge(&self) -> int {
        self.left + self.width
    }

    pub fn new(left: i32, width: i32) -> (r: InteractionRegion)
        requires
            0 <= width,
            left + width <= i32::MAX,
        ensures
            r.left == left,
            r.width == width,
            r.wf(),
    {
        InteractionRegion { left, width }
    }
}

/// Pointer position clamped into the strip, as an offset from its left edge.
pub open spec fn clamped_offset(p: int, left: int, width: int) -> int {
    if p < left {
        0
    } else if p > left + width {
        width
    } else {
        p - left
    }
}

/// The value selected by a pointer at column `p` within a strip of the given
/// extent: the clamped offset, scaled to the value range.
pub open spec fn value_at_pointer(p: int, left: int, width: int) -> int
    recommends
        0 < width,
{
    clamped_offset(p, left, width) * (SLIDER_VALUE_MAX as int) / width
}

/// For every pointer position, clamping it into the strip before the ratio
/// computation keeps the selected value within bounds.
pub proof fn lemma_pointer_value_in_bounds(p: int, left: int, width: int)
    requires
        0 < width,
    ensures
        0 <= value_at_pointer(p, left, width) <= SLIDER_VALUE_MAX,
{
    let d = clamped_offset(p, left, width);
    let scale = SLIDER_VALUE_MAX as int;
    assert(0 <= d <= width);
    vstd::arithmetic::mul::lemma_mul_inequality(d, width, scale);
    vstd::arithmetic::div_mod::lemma_div_is_ordered(d * scale, width * scale, width);
    vstd::arithmetic::div_mod::lemma_div_multiples_vanish(scale, width);
    assert(width * scale == scale * width) by (nonlinear_arith);
    vstd::arithmetic::div_mod::lemma_div_pos_is_pos(d * scale, width);
    assert(0 <= d * scale) by (nonlinear_arith)
        requires
            0 <= d,
            0 <= scale,
    ;
}

/// Apply a pointer event to the current value.  A strip of zero width makes
/// the control inert: the value is returned unchanged and no division by the
/// width is ever reached.
pub fn value_from_pointer(current: u32, pointer_x: i32, region: &InteractionRegion) -> (v: u32)
    requires
        region.wf(),
        current <= SLIDER_VALUE_MAX,
    ensures
        region.width == 0 ==> v == current,
        0 < region.width ==> v == value_at_pointer(
            pointer_x as int,
            region.left as int,
            region.width as int,
        ),
        v <= SLIDER_VALUE_MAX,
{
    if region.width == 0 {
        return current;
    }
    let left: i64 = region.left as i64;
    let width: i64 = region.width as i64;
    let p: i64 = pointer_x as i64;
    let off: i64 = if p < left {
        0
    } else if p > left + width {
        width
    } else {
        p - left
    };
    assert(off == clamped_offset(pointer_x as int, region.left as int, region.width as int));
    assert(0 <= off <= width);
    proof {
        vstd::arithmetic::mul::lemma_mul_inequality(
            off as int,
            i32::MAX as int,
            SLIDER_VALUE_MAX as int,
        );
    }
    let numerator: u64 = (off as u64) * (SLIDER_VALUE_MAX as u64);
    let v64: u64 = numerator / (width as u64);
    proof {
        lemma_pointer_value_in_bounds(pointer_x as int, region.left as int, region.width as int);
    }
    v64 as u32
}

/// Horizontal extent of the filled part of the track: the width scaled by
/// the value.
pub open spec fn filled_extent(v: int, width: int) -> int {
    width * v / (SLIDER_VALUE_MAX as int)
}

/// The filled part never extends outside the track.
pub proof fn lemma_filled_extent_bounds(v: int, width: int)
    requires
        0 <= v <= SLIDER_VALUE_MAX,
        0 <= width,
    ensures
        0 <= filled_extent(v, width) <= width,
{
    let scale = SLIDER_VALUE_MAX as int;
    assert(width * v <= scale * width) by (nonlinear_arith)
        requires
            0 <= v <= scale,
            0 <= width,
    ;
    assert(0 <= width * v) by (nonlinear_arith)
        requires
            0 <= v,
            0 <= width,
    ;
    vstd::arithmetic::div_mod::lemma_div_is_ordered(width * v, scale * width, scale);
    vstd::arithmetic::div_mod::lemma_div_multiples_vanish(width, scale);
    vstd::arithmetic::div_mod::lemma_div_pos_is_pos(width * v, scale);
}

/// Thumb center before clamping: the left edge plus the filled extent.
pub open spec fn thumb_track_x(v: int, left: int, width: int) -> int {
    left + filled_extent(v, width)
}

/// Thumb center clamped so that the thumb's own size never pushes it
/// outside the track bounds.
pub open spec fn thumb_clamped_x(v: int, left: int, width: int, thumb: int) -> int {
    let x = thumb_track_x(v, left, width);
    let lo = left + thumb / 2;
    let hi = left + width - thumb / 2;
    if x < lo {
        lo
    } else if x > hi {
        hi
    } else {
        x
    }
}

/// The thumb center always stays within half a thumb size of either track
/// edge, for every value.
pub proof fn lemma_thumb_center_within_track(v: int, left: int, width: int, thumb: int)
    requires
        0 <= thumb <= width,
    ensures
        left + thumb / 2 <= thumb_clamped_x(v, left, width, thumb) <= left + width - thumb / 2,
{
    vstd::arithmetic::div_mod::lemma_fundamental_div_mod(thumb, 2);
    assert(thumb / 2 + thumb / 2 <= width);
}

/// Pixel width of the filled part of the track for the given value.
pub fn filled_width(value: u32, region: &InteractionRegion) -> (w: i32)
    requires
        region.wf(),
        value <= SLIDER_VALUE_MAX,
    ensures
        w == filled_extent(value as int, region.width as int),
        0 <= w <= region.width,
{
    proof {
        vstd::arithmetic::mul::lemma_mul_upper_bound(
            region.width as int,
            i32::MAX as int,
            value as int,
            SLIDER_VALUE_MAX as int,
        );
        lemma_filled_extent_bounds(value as int, region.width as int);
    }
    let numerator: u64 = (region.width as u64) * (value as u64);
    let w64: u64 = numerator / (SLIDER_VALUE_MAX as u64);
    w64 as i32
}

/// Pixel column of the thumb center, clamped into the track.  The thumb
/// size must not exceed the track width, or no position could keep the
/// thumb inside.
pub fn thumb_center_x(value: u32, region: &InteractionRegion, thumb: i32) -> (x: i32)
    requires
        region.wf(),
        value <= SLIDER_VALUE_MAX,
        0 <= thumb <= region.width,
    ensures
        x == thumb_clamped_x(value as int, region.left as int, region.width as int, thumb as int),
        region.left + thumb / 2 <= x <= region.right_edge() - thumb / 2,
{
    let fill = filled_width(value, region);
    let half: i64 = ((thumb as u32) / 2) as i64;
    let x0: i64 = region.left as i64 + fill as i64;
    let lo: i64 = region.left as i64 + half;
    let hi: i64 = region.left as i64 + region.width as i64 - half;
    let xc: i64 = if x0 < lo {
        lo
    } else if x0 > hi {
        hi
    } else {
        x0
    };
    proof {
        lemma_thumb_center_within_track(
            value as int,
            region.left as int,
            region.width as int,
            thumb as int,
        );
    }
    xc as i32
}

/// A value constrained to the slider's range.  It is owned by the control
/// that displays it and is only changed through pointer interaction; each
/// process start begins from the same default.
pub struct BoundedValue {
    /// Current value in hundredths of a percent.
    pub units: u32,
}

impl BoundedValue {
    /// A value is well formed when it does not exceed full scale.
    pub open spec fn wf(&self) -> bool {
        self.units <= SLIDER_VALUE_MAX
    }

    pub fn new(units: u32) -> (b: BoundedValue)
        requires
            units <= SLIDER_VALUE_MAX,
        ensures
            b.units == units,
            b.wf(),
    {
        BoundedValue { units }
    }

    /// Move the value to wherever the pointer selects; a zero-width region
    /// leaves it unchanged.
    pub fn set_from_pointer(&mut self, pointer_x: i32, region: &InteractionRegion)
        requires
            old(self).wf(),
            region.wf(),
        ensures
            final(self).wf(),
            region.width == 0 ==> final(self).units == old(self).units,
            0 < region.width ==> final(self).units == value_at_pointer(
                pointer_x as int,
                region.left as int,
                region.width as int,
            ),
    {
        self.units = value_from_pointer(self.units, pointer_x, region);
    }
}

impl Default for BoundedValue {
    /// Half of full scale: the value every control starts from.
    fn default() -> (b: BoundedValue)
        ensures
            b.units == SLIDER_VALUE_MAX / 2,
            b.wf(),
    {
        BoundedValue { units: SLIDER_VALUE_MAX / 2 }
    }
}

/// A slider paired with the icon glyph painted on its track and an optional
/// caption shown above it.
pub struct IconSlider {
    pub value: BoundedValue,
    pub icon: String,
    pub title: Option<String>,
}

impl IconSlider {
    pub fn new(value: BoundedValue, icon: String) -> (s: IconSlider)
        ensures
            s.value == value,
            s.icon == icon,
            s.title is None,
    {
        IconSlider { value, icon, title: None }
    }

    pub fn with_title(self, title: &str) -> (s: IconSlider)
        ensures
            s.value == self.value,
            s.icon == self.icon,
            s.title matches Some(t) && t@ == title@,
    {
        IconSlider { title: Some(title.to_owned()), ..self }
    }
}

} // verus!
