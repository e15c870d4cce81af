use bevy_css::length::{AbsoluteLength, CssContext, FontRelativeLength, Fraction, LengthPercentage, NoCalcLength, Percentage, ViewportRelativeLength};
use bevy_css::errors::{AllowedValues, BevyCssParsingErrorKind};
use bevy_css::number::{parse_numeric, Number};
use bevy_css::ratio::Ratio;
use bevy_css::rules::parse_str;
use bevy_css::values::{MaybeAuto, NonNegative, Numeric, SidedValue};

fn num(m: i64, s: u32) -> Number {
    Number { mantissa: m, scale: s }
}

fn ratio_from(a: Number, b: Number) -> Ratio {
    Ratio(NonNegative(a), NonNegative(b))
}

fn same(f: Fraction, num: i128, den: i128) -> bool {
    f.num * den == num * f.den
}

#[test]
fn test_one_value() {
    assert_eq!(SidedValue::<usize>::new_1(1), SidedValue { top: 1, right: 1, bottom: 1, left: 1 })
}

#[test]
fn test_two_values() {
    assert_eq!(SidedValue::<usize>::new_2(1, 2), SidedValue { top: 1, right: 2, bottom: 1, left: 2 })
}

#[test]
fn test_three_values() {
    assert_eq!(SidedValue::<usize>::new_3(1, 2, 3), SidedValue { top: 1, right: 2, bottom: 3, left: 2 })
}

#[test]
fn test_four_values() {
    assert_eq!(SidedValue::<usize>::new_4(1, 2, 3, 4), SidedValue { top: 1, right: 2, bottom: 3, left: 4 })
}

#[test]
fn test_parse() {
    assert_eq!(parse_str::<SidedValue<Number>>("1").unwrap(), SidedValue::new_1(num(1, 0)));
    assert_eq!(parse_str::<SidedValue<Number>>("1 2").unwrap(), SidedValue::new_2(num(1, 0), num(2, 0)));
    assert_eq!(parse_str::<SidedValue<Number>>("1 2 3").unwrap(), SidedValue::new_3(num(1, 0), num(2, 0), num(3, 0)));
    assert_eq!(
        parse_str::<SidedValue<Number>>("1 2 3 4").unwrap(),
        SidedValue::new_4(num(1, 0), num(2, 0), num(3, 0), num(4, 0))
    );
}

#[test]
#[should_panic]
fn test_bad_parse() {
    parse_str::<SidedValue<Number>>("").unwrap();
}

#[test]
fn test_raw_value() {
    assert_eq!(AbsoluteLength::Px(num(1, 0)).raw_value(), num(1, 0));
    assert_eq!(AbsoluteLength::Mm(num(2, 0)).raw_value(), num(2, 0));
    assert_eq!(AbsoluteLength::Cm(num(3, 0)).raw_value(), num(3, 0));
    assert_eq!(AbsoluteLength::Q(num(4, 0)).raw_value(), num(4, 0));
    assert_eq!(AbsoluteLength::In(num(5, 0)).raw_value(), num(5, 0));
    assert_eq!(AbsoluteLength::Pc(num(6, 0)).raw_value(), num(6, 0));
    assert_eq!(AbsoluteLength::Pt(num(7, 0)).raw_value(), num(7, 0));
}

#[test]
fn test_to_px() {
    assert!(same(AbsoluteLength::Px(num(1, 0)).to_px(), 1, 1));
    assert!(same(AbsoluteLength::Mm(num(254, 0)).to_px(), 10, 1));
    assert!(same(AbsoluteLength::Cm(num(127, 0)).to_px(), 50, 1));
    assert!(same(AbsoluteLength::Q(num(508, 0)).to_px(), 5, 1));
    assert!(same(AbsoluteLength::In(num(5, 0)).to_px(), 480, 1));
    assert!(same(AbsoluteLength::Pc(num(6, 0)).to_px(), 96, 1));
    assert!(same(AbsoluteLength::Pt(num(9, 0)).to_px(), 12, 1));
}

#[test]
fn test_numeric() {
    assert_eq!(AbsoluteLength::zero(), AbsoluteLength::Px(num(0, 0)));
    assert_eq!(AbsoluteLength::one(), AbsoluteLength::Px(num(1, 0)));
    assert!(AbsoluteLength::zero().is_zero());
    assert!(!AbsoluteLength::one().is_zero());
    assert!(!AbsoluteLength::Px(num(-1, 0)).is_zero());
    assert!(!AbsoluteLength::zero().is_negative());
    assert!(!AbsoluteLength::one().is_negative());
    assert!(AbsoluteLength::Px(num(-1, 0)).is_negative());
    assert!(!AbsoluteLength::zero().is_infinite());
    assert!(!AbsoluteLength::one().is_infinite());
}

#[test]
fn font_and_viewport_lengths_resolve() {
    let sixteen = num(16, 0);
    let twenty = num(20, 0);
    assert!(same(FontRelativeLength::Em(num(2, 0)).to_px(sixteen, false, twenty), 32, 1));
    assert!(same(FontRelativeLength::Rem(num(2, 0)).to_px(sixteen, false, twenty), 40, 1));
    assert!(same(FontRelativeLength::Ex(num(2, 0)).to_px(sixteen, false, twenty), 16, 1));
    assert!(same(FontRelativeLength::Ch(num(2, 0)).to_px(sixteen, false, twenty), 16, 1));
    assert!(same(FontRelativeLength::Ch(num(2, 0)).to_px(sixteen, true, twenty), 32, 1));
    let (w, h) = (num(801, 0), num(600, 0));
    assert_eq!(ViewportRelativeLength::Vw(num(50, 0)).to_px(w, h), Fraction { num: 400, den: 1 });
    assert_eq!(ViewportRelativeLength::Vh(num(10, 0)).to_px(w, h), Fraction { num: 60, den: 1 });
    assert_eq!(ViewportRelativeLength::Vmin(num(10, 0)).to_px(w, h), Fraction { num: 60, den: 1 });
    assert_eq!(ViewportRelativeLength::Vmax(num(10, 0)).to_px(w, h), Fraction { num: 80, den: 1 });
    assert_eq!(ViewportRelativeLength::Vw(num(-50, 0)).to_px(w, h), Fraction { num: -400, den: 1 });
    let context = CssContext::default();
    assert!(same(NoCalcLength::FontRelative(FontRelativeLength::Em(num(15, 1))).to_computed_px(&context), 18, 1));
}

#[test]
fn test_degenerate() {
    assert!(ratio_from(num(1, 0), num(0, 0)).is_degenerate());
    assert!(ratio_from(num(0, 0), num(1, 0)).is_degenerate());
    assert!(ratio_from(num(0, 0), num(0, 0)).is_degenerate());
    assert!(!ratio_from(num(1, 0), num(1, 0)).is_degenerate());
    assert!(!ratio_from(num(1, 0), num(2, 0)).is_degenerate());
}

#[test]
fn test_fraction() {
    assert!(same(ratio_from(num(1, 0), num(1, 0)).as_fraction(), 1, 1));
    assert!(same(ratio_from(num(2, 0), num(1, 0)).as_fraction(), 2, 1));
    assert!(same(ratio_from(num(1, 0), num(2, 0)).as_fraction(), 1, 2));
}

#[test]
fn test_parse_degenerate() {
    for text in ["1 / 0", "1.0 / 0", "1 / 0.0", "1.0 / 0.0", "0 / 1", "0.0 / 1", "0 / 1.0", "0.0 / 1.0", "0 / 0", "0.0 / 0", "0 / 0.0", "0.0 / 0.0"] {
        assert!(parse_str::<Ratio>(text).unwrap().is_degenerate(), "{}", text);
    }
    for text in ["1 / 1", "1.0 / 1", "1 / 1.0", "1.0 / 1.0", "1 / 2", "1.0 / 2", "1 / 2.0", "1.0 / 2.0"] {
        assert!(!parse_str::<Ratio>(text).unwrap().is_degenerate(), "{}", text);
    }
}

#[test]
fn test_parse_fraction() {
    for (text, n, d) in [
        ("1 / 1", 1, 1), ("1.0 / 1", 1, 1), ("1 / 1.0", 1, 1), ("1.0 / 1.0", 1, 1), ("1.0", 1, 1),
        ("2 / 1", 2, 1), ("2.0 / 1", 2, 1), ("2 / 1.0", 2, 1), ("2.0 / 1.0", 2, 1), ("2.0", 2, 1),
        ("1 / 2", 1, 2), ("1.0 / 2", 1, 2), ("1 / 2.0", 1, 2), ("1.0 / 2.0", 1, 2), ("0.5", 1, 2),
    ] {
        assert!(same(parse_str::<Ratio>(text).unwrap().as_fraction(), n, d), "{}", text);
    }
}

#[test]
#[should_panic]
fn test_bad_ratio() {
    parse_str::<Ratio>("-1 / 1").unwrap();
}

#[test]
fn negative_ratio_sides_are_out_of_range() {
    for text in ["-1 / 1", "1 / -1", "-1 / -1", "-1"] {
        assert_eq!(parse_str::<Ratio>(text), Err(BevyCssParsingErrorKind::OutOfRange(AllowedValues::NonNegative)));
    }
    assert_eq!(parse_str::<Ratio>(""), Err(BevyCssParsingErrorKind::EndOfInput));
}

#[test]
fn auto_for_every_wrapped_type() {
    assert_eq!(parse_str::<MaybeAuto<LengthPercentage>>("auto").unwrap(), MaybeAuto::Auto);
    assert_eq!(parse_str::<MaybeAuto<Number>>("AUTO").unwrap(), MaybeAuto::Auto);
    assert_eq!(parse_str::<MaybeAuto<Ratio>>("auto").unwrap(), MaybeAuto::Auto);
    let auto: MaybeAuto<Number> = MaybeAuto::auto();
    assert!(auto.is_auto());
    assert!(!auto.is_zero() && !auto.is_negative() && !auto.is_infinite());
    assert_eq!(auto.non_auto(), None);
    assert_eq!(auto.auto_eval(|| num(3, 0)), num(3, 0));
    let zero: MaybeAuto<Number> = MaybeAuto::NotAuto(num(0, 0));
    assert!(zero.is_zero() && !zero.is_auto());
    assert_eq!(zero.non_auto(), Some(num(0, 0)));
    assert_eq!(zero.auto_eval(|| num(3, 0)), num(0, 0));
}

#[test]
fn numbers_are_read_exactly() {
    assert_eq!(parse_numeric("12.50px"), Some((num(1250, 2), 5)));
    assert_eq!(parse_numeric("-0.5"), Some((num(-5, 1), 4)));
    assert_eq!(parse_numeric("+.25%"), Some((num(25, 2), 4)));
    assert_eq!(parse_numeric("px"), None);
    assert_eq!(parse_numeric("1234567890123456"), None);
    assert!(num(10, 1).same_value(&num(1, 0)));
    assert!(num(5, 1).less_than(&num(1, 0)));
}

#[test]
fn allowed_values_and_percentages() {
    assert!(AllowedValues::NonNegative.is_ok(&num(0, 0)));
    assert!(!AllowedValues::NonNegative.is_ok(&num(-1, 1)));
    assert!(AllowedValues::AtLeastOne.is_ok(&num(10, 1)));
    assert!(!AllowedValues::AtLeastOne.is_ok(&num(9, 1)));
    assert_eq!(AllowedValues::NonNegative.clamp(num(-3, 0)), num(0, 0));
    assert_eq!(AllowedValues::AtLeastOne.clamp(num(5, 1)), num(1, 0));
    assert!(Percentage::hundred().is_hundred());
    assert!(!Percentage::new(num(99, 0)).is_hundred());
    let clamped = Percentage { percent: num(-5, 0), clamping: Some(AllowedValues::NonNegative) };
    assert!(clamped.is_calc());
    assert_eq!(clamped.get(), num(0, 0));
}

#[test]
fn test_partial_ord() {
    let zero = AbsoluteLength::zero();
    let one = AbsoluteLength::one();
    assert!(zero.partial_cmp(&zero).unwrap().is_eq());
    assert!(zero.partial_cmp(&one).unwrap().is_lt());
    assert!(one.partial_cmp(&zero).unwrap().is_gt());
    assert!(AbsoluteLength::In(num(1, 0)).partial_cmp(&AbsoluteLength::Px(num(96, 0))).unwrap().is_eq());
}

#[test]
fn scaling_and_comparing_lengths() {
    let em = NoCalcLength::FontRelative(FontRelativeLength::Em(num(15, 1)));
    assert_eq!(em.mul(&num(2, 0)), Some(NoCalcLength::FontRelative(FontRelativeLength::Em(num(30, 1)))));
    assert_eq!(em.mul(&num(999_999_999_999_999, 0)), None);
    let rem = NoCalcLength::FontRelative(FontRelativeLength::Rem(num(1, 0)));
    assert_eq!(em.partial_cmp(&rem), None);
    assert!(em.partial_cmp(&NoCalcLength::FontRelative(FontRelativeLength::Em(num(2, 0)))).unwrap().is_lt());
    let pc = LengthPercentage::Percentage(Percentage::new(num(50, 0)));
    assert_eq!(pc.mul(&num(5, 1)), Some(LengthPercentage::Percentage(Percentage::new(num(250, 1)))));
    assert_eq!(pc.partial_cmp(&LengthPercentage::Length(em)), None);
    assert!(num(1, 0).compare(&num(10, 1)).is_eq());
}

#[test]
fn none_percentage_and_plain_length_values() {
    assert_eq!(parse_str::<Option<Number>>("none"), Ok(None));
    assert_eq!(parse_str::<Option<Number>>("2.5"), Ok(Some(num(25, 1))));
    assert_eq!(parse_str::<Percentage>("12.5%"), Ok(Percentage::new(num(125, 1))));
    assert_eq!(parse_str::<Percentage>("12px"), Err(BevyCssParsingErrorKind::UnexpectedToken(bevy_css::tokens::Tok::Dimension("px".to_string()))));
    assert_eq!(
        parse_str::<NonNegative<bevy_css::length::Length>>("-2px"),
        Err(BevyCssParsingErrorKind::OutOfRange(AllowedValues::NonNegative))
    );
}

#[test]
fn percentage_arithmetic() {
    let a = Percentage::new(num(125, 1));
    let b = Percentage::new(num(30, 0));
    assert_eq!(a.try_sum(&b), Some(Percentage::new(num(425, 1))));
    assert_eq!(a.reverse(), Some(Percentage::new(num(875, 1))));
    assert_eq!(Percentage::new(num(150, 0)).limit_to_hundred(), Percentage::hundred());
    assert_eq!(a.limit_to_hundred(), a);
    assert_eq!(num(999_999_999_999_999, 0).add(&num(1, 0)), None);
}

#[test]
fn named_value_parsers() {
    let toks: Vec<bevy_css::tokens::ValueToken> = Vec::new();
    assert_eq!(Number::parse_internal(&toks, 0, AllowedValues::All), Err(BevyCssParsingErrorKind::EndOfInput));
    assert_eq!(parse_str::<SidedValue<MaybeAuto<LengthPercentage>>>("auto 5%").unwrap().right,
        MaybeAuto::NotAuto(LengthPercentage::Percentage(Percentage::new(num(5, 0)))));
}

#[test]
fn numbers_with_exponents() {
    assert_eq!(parse_numeric("1e3px"), Some((num(1000, 0), 3)));
    assert_eq!(parse_numeric("2.5E-3"), Some((num(25, 4), 6)));
    assert_eq!(parse_numeric("-1.5e+2"), Some((num(-150, 0), 7)));
    assert_eq!(parse_numeric("0e500"), Some((num(0, 0), 5)));
    assert_eq!(parse_numeric("1e16"), None);
    assert_eq!(parse_numeric("1e-13"), None);
    assert_eq!(parse_numeric("5em"), Some((num(5, 0), 1)));
    assert_eq!(
        bevy_css::rules::parse_property_value("width", "1e1px").unwrap(),
        bevy_css::declaration::BevyPropertyDeclaration::Width(MaybeAuto::NotAuto(LengthPercentage::Length(
            NoCalcLength::Absolute(AbsoluteLength::Px(num(10, 0)))
        )))
    );
}

#[test]
fn summing_lengths() {
    let a = NoCalcLength::Absolute(AbsoluteLength::Mm(num(15, 1)));
    let b = NoCalcLength::Absolute(AbsoluteLength::Mm(num(2, 0)));
    assert_eq!(a.try_sum(&b), Some(NoCalcLength::Absolute(AbsoluteLength::Mm(num(35, 1)))));
    let c = NoCalcLength::Absolute(AbsoluteLength::Px(num(2, 0)));
    assert_eq!(a.try_sum(&c), None);
    let p = LengthPercentage::Percentage(Percentage::new(num(10, 0)));
    assert_eq!(p.try_sum(&p), Some(LengthPercentage::Percentage(Percentage::new(num(20, 0)))));
    assert_eq!(p.try_sum(&LengthPercentage::Length(c)), None);
}
