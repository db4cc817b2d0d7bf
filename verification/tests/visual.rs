use stack_gauge::fraction::Fraction;
use stack_gauge::model::{Address, Model, Stack};
use stack_gauge::visual::{
    compute, Color, Layout, Opacity, VisualParameters, STACK_HEIGHT, STACK_WIDTH,
};

fn picture(range: (Address, Address), highmark: Address, sp: Address, layout: &Layout)
    -> VisualParameters {
    let stack = Stack::new(range, highmark, sp, String::from("sp")).unwrap();
    compute(&Model::new(String::from("gauge"), stack), layout)
}

fn layout(height: u32, y0: i32) -> Layout {
    Layout { width: 10, height, x0: 0, y0, line_width: 1, font_size: 8 }
}

#[test]
fn standard_layout() {
    let l = Layout::standard();
    assert_eq!(STACK_WIDTH, 100);
    assert_eq!(STACK_HEIGHT, 400);
    assert_eq!(
        l,
        Layout { width: 100, height: 400, x0: 2, y0: 2, line_width: 1, font_size: 12 }
    );
}

#[test]
fn colour_names() {
    assert_eq!(Color::Normal.name(), "black");
    assert_eq!(Color::Warning.name(), "red");
}

#[test]
fn opacities_in_hundredths() {
    assert_eq!(Opacity::Low.percent(), 25);
    assert_eq!(Opacity::High.percent(), 75);
}

#[test]
fn use_is_the_distance_from_the_high_end() {
    let l = layout(100, 0);
    assert_eq!(picture((0, 99), 0, 99, &l).used_fraction, Fraction { num: 0, den: 100 });
    assert_eq!(picture((0, 99), 0, 98, &l).used_fraction, Fraction { num: 1, den: 100 });
    assert_eq!(picture((0, 99), 0, 50, &l).used_fraction, Fraction { num: 49, den: 100 });
    assert_eq!(picture((0, 99), 0, 0, &l).used_fraction, Fraction { num: 99, den: 100 });
    assert_eq!(picture((1000, 1099), 0, 1025, &l).used_fraction, Fraction { num: 74, den: 100 });
}

#[test]
fn use_lies_between_zero_and_one_inside_the_range() {
    let l = layout(37, 5);
    for sp in 20..=60 {
        let p = picture((20, 60), 20, sp, &l);
        assert!(!p.overflow);
        assert_eq!(p.used_fraction.den, 41);
        assert!(p.used_fraction.num >= 0);
        assert!(p.used_fraction.num <= i128::from(p.used_fraction.den));
        assert_eq!(p.in_use_height_px.num, p.used_fraction.num * 37);
        assert_eq!(p.in_use_height_px.den, p.used_fraction.den);
        assert_eq!(p.past_use_height_px.num, p.past_used_fraction.num * 37);
        assert_eq!(p.past_use_height_px.den, p.past_used_fraction.den);
    }
}

#[test]
fn overflow_is_a_pointer_below_the_low_end() {
    let l = layout(50, 3);
    assert!(picture((20, 60), 20, 19, &l).overflow);
    assert!(picture((20, 60), 20, 0, &l).overflow);
    assert!(!picture((20, 60), 20, 20, &l).overflow);
    assert!(!picture((20, 60), 20, 60, &l).overflow);
    assert!(!picture((20, 60), 20, 61, &l).overflow);
    assert!(!picture((0, 60), 20, 0, &l).overflow);
}

#[test]
fn overflow_saturates_the_gauge() {
    let l = layout(50, -7);
    for sp in [0, 5, 19] {
        let p = picture((20, 60), 30, sp, &l);
        assert!(p.overflow);
        assert_eq!(p.used_fraction, Fraction { num: 1, den: 1 });
        assert_eq!(p.past_used_fraction, Fraction { num: 0, den: 1 });
        assert_eq!(p.in_use_height_px, Fraction { num: 50, den: 1 });
        assert_eq!(p.past_use_height_px, Fraction { num: 0, den: 1 });
        assert_eq!(p.stack_pointer_y, Fraction { num: 43, den: 1 });
    }
}

#[test]
fn colours_of_the_band_in_use() {
    let l = layout(50, 0);
    let over = picture((20, 60), 20, 19, &l);
    assert_eq!(over.use_color, Color::Warning);
    assert_eq!(over.use_opacity, Opacity::High);
    for sp in [20, 40, 60, 61] {
        let p = picture((20, 60), 20, sp, &l);
        assert_eq!(p.use_color, Color::Normal);
        assert_eq!(p.use_opacity, Opacity::Low);
    }
}

#[test]
fn colour_of_the_band_of_past_use() {
    let l = layout(50, 0);
    for highmark in 0..=30 {
        for sp in [0, 10, 19] {
            let p = picture((0, 19), highmark, sp, &l);
            let sum = p.used_fraction.num + p.past_used_fraction.num;
            assert_eq!(sum, 19 - i128::from(highmark));
            let expected = if sum * 10 > 9 * 20 { Color::Warning } else { Color::Normal };
            assert_eq!(p.past_use_color, expected);
        }
    }
    assert_eq!(picture((0, 19), 0, 10, &l).past_use_color, Color::Warning);
    assert_eq!(picture((0, 19), 1, 10, &l).past_use_color, Color::Normal);
    assert_eq!(picture((0, 19), 2, 10, &l).past_use_color, Color::Normal);
    assert_eq!(picture((5, 19), 2, 3, &l).past_use_color, Color::Warning);
}

#[test]
fn past_use_reaches_down_to_the_high_water_mark() {
    let l = layout(200, 10);
    let p = picture((0, 999), 250, 400, &l);
    assert_eq!(p.past_used_fraction, Fraction { num: 150, den: 1000 });
    assert_eq!(p.past_use_height_px, Fraction { num: 30000, den: 1000 });
    let p = picture((0, 999), 400, 400, &l);
    assert_eq!(p.past_used_fraction, Fraction { num: 0, den: 1000 });
}

#[test]
fn past_use_is_negative_below_the_high_water_mark() {
    let l = layout(200, 10);
    let p = picture((0, 999), 400, 250, &l);
    assert!(!p.overflow);
    assert_eq!(p.past_used_fraction, Fraction { num: -150, den: 1000 });
    assert_eq!(p.past_use_height_px, Fraction { num: -30000, den: 1000 });
    assert_eq!(p.past_use_height_px.clamp_non_negative(), Fraction { num: 0, den: 1000 });
    assert_eq!(p.used_fraction, Fraction { num: 749, den: 1000 });
}

#[test]
fn pointer_above_the_high_end_gives_negative_use() {
    let l = layout(8, 1);
    let p = picture((0x8000, 0x8fff), 0x8230, 0x9000, &l);
    assert!(!p.overflow);
    assert_eq!(p.used_fraction, Fraction { num: -1, den: 4096 });
    assert_eq!(p.in_use_height_px, Fraction { num: -8, den: 4096 });
    assert_eq!(p.stack_pointer_y, Fraction { num: 4096 - 8, den: 4096 });
    assert_eq!(p.use_color, Color::Normal);
}

#[test]
fn pointer_line_follows_the_band_in_use() {
    let l = layout(400, 2);
    let p = picture((0, 3), 0, 1, &l);
    assert_eq!(p.used_fraction, Fraction { num: 2, den: 4 });
    assert_eq!(p.in_use_height_px, Fraction { num: 800, den: 4 });
    assert_eq!(p.stack_pointer_y, Fraction { num: 808, den: 4 });
    let l = layout(400, -300);
    let p = picture((0, 3), 0, 1, &l);
    assert_eq!(p.stack_pointer_y, Fraction { num: -400, den: 4 });
}

#[test]
fn pointer_line_stays_inside_the_gauge() {
    let l = layout(33, -4);
    for sp in 100..=107 {
        let p = picture((100, 107), 100, sp, &l);
        let top = -4 * i128::from(p.stack_pointer_y.den);
        let bottom = 29 * i128::from(p.stack_pointer_y.den);
        assert!(top <= p.stack_pointer_y.num);
        assert!(p.stack_pointer_y.num < bottom);
    }
}

#[test]
fn range_of_one_address() {
    let l = layout(10, 0);
    let p = picture((7, 7), 7, 7, &l);
    assert!(!p.overflow);
    assert_eq!(p.used_fraction, Fraction { num: 0, den: 1 });
    assert_eq!(p.past_used_fraction, Fraction { num: 0, den: 1 });
    assert_eq!(p.stack_pointer_y, Fraction { num: 0, den: 1 });
    assert_eq!(p.past_use_color, Color::Normal);
}

#[test]
fn whole_address_space() {
    let l = layout(u32::MAX, i32::MIN);
    let p = picture((0, Address::MAX), Address::MAX, 0, &l);
    assert!(!p.overflow);
    let size: u64 = 1 << 32;
    assert_eq!(p.used_fraction, Fraction { num: i128::from(u32::MAX), den: size });
    assert_eq!(p.past_used_fraction, Fraction { num: -i128::from(u32::MAX), den: size });
    assert_eq!(
        p.in_use_height_px,
        Fraction { num: i128::from(u32::MAX) * i128::from(u32::MAX), den: size }
    );
    assert_eq!(
        p.stack_pointer_y,
        Fraction {
            num: i128::from(i32::MIN) * i128::from(size)
                + i128::from(u32::MAX) * i128::from(u32::MAX),
            den: size,
        }
    );
    assert_eq!(p.past_use_color, Color::Normal);
}

#[test]
fn largest_distances_do_not_overflow() {
    let l = layout(u32::MAX, i32::MAX);
    let p = picture((0, 0), 0, Address::MAX, &l);
    assert!(!p.overflow);
    assert_eq!(p.used_fraction, Fraction { num: -i128::from(u32::MAX), den: 1 });
    assert_eq!(p.past_used_fraction, Fraction { num: i128::from(u32::MAX), den: 1 });
    assert_eq!(
        p.stack_pointer_y.num,
        i128::from(i32::MAX) - i128::from(u32::MAX) * i128::from(u32::MAX)
    );
    let p = picture((Address::MAX, Address::MAX), 0, 0, &l);
    assert!(p.overflow);
    assert_eq!(p.stack_pointer_y.num, i128::from(i32::MAX) + i128::from(u32::MAX));
}

#[test]
fn gauge_without_height() {
    let l = layout(0, 9);
    let p = picture((0, 9), 2, 5, &l);
    assert_eq!(p.in_use_height_px, Fraction { num: 0, den: 10 });
    assert_eq!(p.past_use_height_px, Fraction { num: 0, den: 10 });
    assert_eq!(p.stack_pointer_y, Fraction { num: 90, den: 10 });
}
