//! From a model to the picture of its gauge.
//!
//! The gauge is a rectangle that stands for the address range of the stack,
//! its top edge for the high end. A band that hangs from the top shows how
//! much of the stack is in use, a line marks the stack pointer, and a second
//! band below the line reaches down to the high-water mark. `compute` gives
//! the sizes, positions and colours of these parts as exact fractions of
//! pixels; it draws nothing.

use vstd::prelude::*;
use crate::fraction::{Fraction, Ratio};
use crate::model::{Address, Model, StackView};

verus! {

/// Width of the gauge in the standard layout, in pixels.
pub const STACK_WIDTH: u32 = 100;

/// Height of the gauge in the standard layout, in pixels.
pub const STACK_HEIGHT: u32 = 400;

/// The fixed measures of the drawing, in pixels.
#[derive(Clone, Copy, Debug, PartialEq, Eq)]
pub struct Layout {
    /// Width of the gauge.
    pub width: u32,
    /// Height of the gauge.
    pub height: u32,
    /// Left edge of the gauge.
    pub x0: i32,
    /// Top edge of the gauge.
    pub y0: i32,
    /// Stroke width of the lines.
    pub line_width: u32,
    /// Font size of the labels.
    pub font_size: u32,
}

impl Layout {
    /// The layout that the gauge is drawn in unless the host asks for
    /// another.
    pub fn standard() -> (r: Layout)
        ensures
            r == (Layout {
                width: STACK_WIDTH,
                height: STACK_HEIGHT,
                x0: 2,
                y0: 2,
                line_width: 1,
                font_size: 12,
            }),
    {
        Layout {
            width: STACK_WIDTH,
            height: STACK_HEIGHT,
            x0: 2,
            y0: 2,
            line_width: 1,
            font_size: 12,
        }
    }
}

/// The two colours of the gauge.
#[derive(Clone, Copy, Debug, PartialEq, Eq)]
pub enum Color {
    /// Nothing to report.
    Normal,
    /// The stack has overflowed or is close to it.
    Warning,
}

impl Color {
    /// The name under which a style sheet knows the colour.
    pub open spec fn spec_name(self) -> Seq<char> {
        match self {
            Color::Normal => "black"@,
            Color::Warning => "red"@,
        }
    }

    /// The name under which a style sheet knows the colour.
    pub fn name(&self) -> (r: &'static str)
        ensures
            r@ == self.spec_name(),
    {
        match self {
            Color::Normal => "black",
            Color::Warning => "red",
        }
    }
}

/// The two opacities of the band that shows the use of the stack.
#[derive(Clone, Copy, Debug, PartialEq, Eq)]
pub enum Opacity {
    /// The faint fill of a stack within its range.
    Low,
    /// The strong fill of a stack that has overflowed.
    High,
}

impl Opacity {
    /// The opacity in hundredths.
    pub open spec fn spec_percent(self) -> int {
        match self {
            Opacity::Low => 25,
            Opacity::High => 75,
        }
    }

    /// The opacity in hundredths.
    pub fn percent(&self) -> (r: u8)
        ensures
            r == self.spec_percent(),
    {
        match self {
            Opacity::Low => 25,
            Opacity::High => 75,
        }
    }
}

/// What a host needs to paint the gauge. Heights and the position of the
/// pointer line are in pixels, measured downward from the top of the drawing.
#[derive(Clone, Copy, Debug, PartialEq, Eq)]
pub struct VisualParameters {
    /// The stack pointer is below the range.
    pub overflow: bool,
    /// The part of the range that is in use.
    pub used_fraction: Fraction,
    /// The part of the range between the stack pointer and the high-water
    /// mark: room that was in use once and is free now. Negative where the
    /// pointer is below the mark.
    pub past_used_fraction: Fraction,
    /// Height of the band that shows what is in use.
    pub in_use_height_px: Fraction,
    /// Height of the band that shows what was in use. Negative where
    /// `past_used_fraction` is; a painter clamps it.
    pub past_use_height_px: Fraction,
    /// Vertical position of the line that marks the stack pointer.
    pub stack_pointer_y: Fraction,
    /// Fill colour of the band that shows what is in use.
    pub use_color: Color,
    /// Fill opacity of the band that shows what is in use.
    pub use_opacity: Opacity,
    /// Fill colour of the band that shows what was in use.
    pub past_use_color: Color,
}

/// The level above which use and past use together count as close to
/// overflow: nine tenths of the range.
pub open spec fn threshold() -> Ratio {
    Ratio { num: 9, den: 10 }
}

/// The part of the range in use: the distance of the stack pointer from the
/// high end, over the size of the range. An overflowed stack counts as fully
/// used.
pub open spec fn used_fraction(s: StackView) -> Ratio {
    if s.overflows() {
        Ratio::whole(1)
    } else {
        Ratio { num: s.high - s.sp, den: s.size() }
    }
}

/// The part of the range between the stack pointer and the high-water mark,
/// over the size of the range. An overflowed stack has none.
pub open spec fn past_used_fraction(s: StackView) -> Ratio {
    if s.overflows() {
        Ratio::whole(0)
    } else {
        Ratio { num: s.sp - s.highmark, den: s.size() }
    }
}

/// Height of the band that shows what is in use.
pub open spec fn in_use_height(s: StackView, layout: Layout) -> Ratio {
    used_fraction(s).times(layout.height as int)
}

/// Height of the band that shows what was in use.
pub open spec fn past_use_height(s: StackView, layout: Layout) -> Ratio {
    past_used_fraction(s).times(layout.height as int)
}

/// Position of the pointer line: at the lower edge of the band in use, and
/// at the bottom of the gauge once the stack has overflowed.
pub open spec fn stack_pointer_y(s: StackView, layout: Layout) -> Ratio {
    if s.overflows() {
        Ratio::whole(layout.y0 + layout.height)
    } else {
        Ratio::whole(layout.y0 as int).plus(in_use_height(s, layout))
    }
}

/// Colour of the band in use.
pub open spec fn use_color(s: StackView) -> Color {
    if s.overflows() {
        Color::Warning
    } else {
        Color::Normal
    }
}

/// Opacity of the band in use.
pub open spec fn use_opacity(s: StackView) -> Opacity {
    if s.overflows() {
        Opacity::High
    } else {
        Opacity::Low
    }
}

/// Colour of the band of past use: a warning as soon as use and past use
/// together exceed the threshold.
pub open spec fn past_use_color(s: StackView) -> Color {
    if used_fraction(s).plus(past_used_fraction(s)).exceeds(threshold()) {
        Color::Warning
    } else {
        Color::Normal
    }
}

/// Two fractions over one denominator exceed nine tenths together exactly if
/// ten times the sum of their numerators exceeds nine times the denominator.
proof fn lemma_sum_over_threshold(a: int, b: int, d: int)
    by (nonlinear_arith)
    requires
        d > 0,
    ensures
        (Ratio { num: a, den: d }).plus(Ratio { num: b, den: d }).exceeds(threshold()) <==> (a + b)
            * 10 > 9 * d,
{
}

/// The product of a distance between two addresses and a pixel height.
proof fn lemma_height_bounds(a: int, h: int)
    by (nonlinear_arith)
    requires
        -0x1_0000_0000 < a < 0x1_0000_0000,
        0 <= h < 0x1_0000_0000,
    ensures
        -0x1_0000_0000_0000_0000 < a * h < 0x1_0000_0000_0000_0000,
{
}

/// The product of a pixel coordinate and the size of a range.
proof fn lemma_origin_bounds(y: int, d: int)
    by (nonlinear_arith)
    requires
        -0x8000_0000 <= y < 0x8000_0000,
        0 < d <= 0x1_0000_0000,
    ensures
        -0x8000_0000_0000_0000 <= y * d < 0x8000_0000_0000_0000,
{
}

/// The picture of `model` in `layout`.
///
/// The first nine clauses say what each field is. The rest spells out what
/// follows from them:
/// - every fraction has a positive denominator;
/// - overflow is a stack pointer below the range, and an overflowed stack is
///   shown as fully used, without past use, its pointer line at the bottom of
///   the gauge;
/// - the band in use has the warning colour and the high opacity exactly on
///   overflow, and the band of past use has the warning colour exactly where
///   use and past use together exceed the threshold;
/// - the heights are the fractions multiplied by the height of the gauge;
/// - while the pointer is inside the range, the fraction in use lies between
///   zero and one;
/// - without overflow, past use is negative exactly where the pointer is
///   below the high-water mark.
pub fn compute(model: &Model, layout: &Layout) -> (r: VisualParameters)
    ensures
        r.overflow == model@.stack.overflows(),
        r.used_fraction@ == used_fraction(model@.stack),
        r.past_used_fraction@ == past_used_fraction(model@.stack),
        r.in_use_height_px@ == in_use_height(model@.stack, *layout),
        r.past_use_height_px@ == past_use_height(model@.stack, *layout),
        r.stack_pointer_y@ == stack_pointer_y(model@.stack, *layout),
        r.use_color == use_color(model@.stack),
        r.use_opacity == use_opacity(model@.stack),
        r.past_use_color == past_use_color(model@.stack),
        r.used_fraction@.wf(),
        r.past_used_fraction@.wf(),
        r.in_use_height_px@.wf(),
        r.past_use_height_px@.wf(),
        r.stack_pointer_y@.wf(),
        r.overflow <==> model@.stack.sp < model@.stack.low,
        r.overflow ==> r.used_fraction@ == Ratio::whole(1),
        r.overflow ==> r.past_used_fraction@ == Ratio::whole(0),
        r.overflow ==> r.stack_pointer_y@ == Ratio::whole(layout.y0 + layout.height),
        r.use_color == Color::Warning <==> r.overflow,
        r.use_opacity == Opacity::High <==> r.overflow,
        r.past_use_color == Color::Warning <==> r.used_fraction@.plus(
            r.past_used_fraction@,
        ).exceeds(threshold()),
        r.in_use_height_px@ == r.used_fraction@.times(layout.height as int),
        r.past_use_height_px@ == r.past_used_fraction@.times(layout.height as int),
        model@.stack.low <= model@.stack.sp <= model@.stack.high ==> Ratio::whole(0).at_most(
            r.used_fraction@,
        ) && r.used_fraction@.at_most(Ratio::whole(1)),
        !r.overflow ==> (r.past_used_fraction@.num < 0 <==> model@.stack.sp
            < model@.stack.highmark),
{
    let stack = model.stack();
    proof {
        use_type_invariant(stack);
    }
    let range: (Address, Address) = stack.range();
    let low: Address = range.0;
    let high: Address = range.1;
    let sp: Address = stack.sp();
    let highmark: Address = stack.highmark();
    let height: i128 = layout.height as i128;
    let y0: i128 = layout.y0 as i128;
    if sp < low {
        VisualParameters {
            overflow: true,
            used_fraction: Fraction { num: 1, den: 1 },
            past_used_fraction: Fraction { num: 0, den: 1 },
            in_use_height_px: Fraction { num: height, den: 1 },
            past_use_height_px: Fraction { num: 0, den: 1 },
            stack_pointer_y: Fraction { num: y0 + height, den: 1 },
            use_color: Color::Warning,
            use_opacity: Opacity::High,
            past_use_color: Color::Warning,
        }
    } else {
        let size: u64 = (high - low) as u64 + 1;
        let used: i128 = high as i128 - sp as i128;
        let past: i128 = sp as i128 - highmark as i128;
        proof {
            lemma_height_bounds(used as int, height as int);
            lemma_height_bounds(past as int, height as int);
            lemma_origin_bounds(y0 as int, size as int);
            lemma_sum_over_threshold(used as int, past as int, size as int);
        }
        let in_use: i128 = used * height;
        let past_use: i128 = past * height;
        let past_use_color = if (used + past) * 10 > 9 * (size as i128) {
            Color::Warning
        } else {
            Color::Normal
        };
        VisualParameters {
            overflow: false,
            used_fraction: Fraction { num: used, den: size },
            past_used_fraction: Fraction { num: past, den: size },
            in_use_height_px: Fraction { num: in_use, den: size },
            past_use_height_px: Fraction { num: past_use, den: size },
            stack_pointer_y: Fraction { num: y0 * (size as i128) + in_use, den: size },
            use_color: Color::Normal,
            use_opacity: Opacity::Low,
            past_use_color,
        }
    }
}

/// Below the high end of the range, moving the stack pointer up by one
/// address never raises the fraction in use, and lowers it as soon as the
/// pointer arrives inside the range. Between two pointers inside the range
/// the numerator drops by one over the same denominator.
pub proof fn lemma_increment_lowers_use(s: StackView)
    requires
        s.wf(),
        s.sp < s.high,
    ensures
        used_fraction(s.incremented()).at_most(used_fraction(s)),
        s.low <= s.sp + 1 ==> used_fraction(s).exceeds(used_fraction(s.incremented())),
        s.low <= s.sp ==> used_fraction(s.incremented()) == (Ratio {
            num: used_fraction(s).num - 1,
            den: used_fraction(s).den,
        }),
{
    let d = s.size();
    let a = s.high - s.sp;
    assert(a * d > (a - 1) * d) by (nonlinear_arith)
        requires
            d > 0,
    ;
}

/// While the stack pointer is inside the range, its line lies inside the
/// gauge: not above the top edge and not below the bottom edge. In a gauge
/// with a height it stays strictly above the bottom edge, where the line of
/// an overflowed stack is drawn.
pub proof fn lemma_pointer_line_within_gauge(s: StackView, layout: Layout)
    requires
        s.wf(),
        s.low <= s.sp <= s.high,
    ensures
        Ratio::whole(layout.y0 as int).at_most(stack_pointer_y(s, layout)),
        stack_pointer_y(s, layout).at_most(Ratio::whole(layout.y0 + layout.height)),
        layout.height > 0 ==> Ratio::whole(layout.y0 + layout.height).exceeds(
            stack_pointer_y(s, layout),
        ),
{
    let d = s.size();
    let a = s.high - s.sp;
    let h = layout.height as int;
    let y = layout.y0 as int;
    assert(0 <= a * h <= d * h && (h > 0 ==> a * h < d * h)) by (nonlinear_arith)
        requires
            0 <= a < d,
            0 <= h,
    ;
    assert((y + h) * d == y * d + d * h) by (nonlinear_arith);
}

} // verus!
