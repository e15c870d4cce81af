use bevy_css::color::Color;
use bevy_css::declaration::BevyPropertyDeclaration;
use bevy_css::diagnostics::{BevyCssContextualError, BevyCssParsingError};
use bevy_css::errors::BevyCssParsingErrorKind;
use bevy_css::keywords::{AlignContent, AlignItems, AlignSelf, Direction, Display, FlexDirection, FlexWrap, JustifyContent, Overflow, PositionType};
use bevy_css::length::{AbsoluteLength, LengthPercentage, LengthPercentageOrAuto, NoCalcLength, Percentage};
use bevy_css::number::Number;
use bevy_css::ratio::{Ratio, RatioOrAuto};
use bevy_css::rules::parse_property_value;
use bevy_css::values::{MaybeAuto, NonNegative, NonNegativeNumber, SidedValue};

fn num(m: i64, s: u32) -> Number {
    Number { mantissa: m, scale: s }
}

fn parse(property: &str, value: &str) -> BevyPropertyDeclaration {
    match parse_property_value(property, value) {
        Ok(d) => d,
        Err(e) => panic!("{:?}", e),
    }
}

fn check_all<V: Copy>(property: &str, variant: impl Fn(V) -> BevyPropertyDeclaration, values: Vec<(&str, V)>) {
    for (text, value) in values {
        assert_eq!(parse(property, text), variant(value));
    }
}

fn zero() -> LengthPercentageOrAuto {
    MaybeAuto::NotAuto(LengthPercentage::Length(NoCalcLength::Absolute(AbsoluteLength::Px(num(0, 0)))))
}

fn px10() -> LengthPercentageOrAuto {
    MaybeAuto::NotAuto(LengthPercentage::Length(NoCalcLength::Absolute(AbsoluteLength::Px(num(10, 0)))))
}

fn pc10() -> LengthPercentageOrAuto {
    MaybeAuto::NotAuto(LengthPercentage::Percentage(Percentage::new(num(10, 0))))
}

fn auto_lengths<'a>() -> Vec<(&'a str, LengthPercentageOrAuto)> {
    vec![("auto", MaybeAuto::Auto), ("0", zero()), ("10px", px10()), ("10%", pc10())]
}

fn non_neg_numbers<'a>() -> Vec<(&'a str, NonNegativeNumber)> {
    vec![("0", NonNegative(num(0, 0))), ("1", NonNegative(num(1, 0))), ("10", NonNegative(num(10, 0)))]
}

fn sided<'a>() -> Vec<(&'a str, SidedValue<LengthPercentageOrAuto>)> {
    vec![
        ("10px", SidedValue::new_1(px10())),
        ("10% 10px", SidedValue::new_2(pc10(), px10())),
        ("10px auto 10%", SidedValue::new_3(px10(), MaybeAuto::Auto, pc10())),
        ("10px 10% auto 0", SidedValue::new_4(px10(), pc10(), MaybeAuto::Auto, zero())),
    ]
}

#[test]
#[should_panic]
fn bad_value_test() {
    parse("display", "bad string");
}

#[test]
#[should_panic]
fn bad_property_test() {
    parse("bad_string", "auto");
}

#[test]
fn test_display() {
    check_all("display", BevyPropertyDeclaration::Display, vec![("flex", Display::Flex), ("none", Display::NotDisplayed)]);
}

#[test]
fn test_direction() {
    check_all(
        "direction",
        BevyPropertyDeclaration::Direction,
        vec![("ltr", Direction::LeftToRight), ("rtl", Direction::RightToLeft), ("inherit", Direction::Inherit)],
    );
}

#[test]
fn test_width() {
    check_all("width", BevyPropertyDeclaration::Width, auto_lengths());
}

#[test]
fn test_min_width() {
    check_all("min-width", BevyPropertyDeclaration::MinWidth, auto_lengths());
}

#[test]
fn test_max_width() {
    check_all("max-width", BevyPropertyDeclaration::MaxWidth, auto_lengths());
}

#[test]
fn test_height() {
    check_all("height", BevyPropertyDeclaration::Height, auto_lengths());
}

#[test]
fn test_min_height() {
    check_all("min-height", BevyPropertyDeclaration::MinHeight, auto_lengths());
}

#[test]
fn test_max_height() {
    check_all("max-height", BevyPropertyDeclaration::MaxHeight, auto_lengths());
}

#[test]
fn test_overflow() {
    check_all("overflow", BevyPropertyDeclaration::Overflow, vec![("visible", Overflow::Visible), ("hidden", Overflow::Hidden)]);
}

#[test]
fn test_position() {
    check_all(
        "position",
        BevyPropertyDeclaration::Position,
        vec![("relative", PositionType::Relative), ("absolute", PositionType::Absolute)],
    );
}

#[test]
fn test_top() {
    check_all("top", BevyPropertyDeclaration::Top, auto_lengths());
}

#[test]
fn test_right() {
    check_all("right", BevyPropertyDeclaration::Right, auto_lengths());
}

#[test]
fn test_bottom() {
    check_all("bottom", BevyPropertyDeclaration::Bottom, auto_lengths());
}

#[test]
fn test_left() {
    check_all("left", BevyPropertyDeclaration::Left, auto_lengths());
}

#[test]
fn test_flex_direction() {
    check_all(
        "flex-direction",
        BevyPropertyDeclaration::FlexDirection,
        vec![
            ("row", FlexDirection::Row),
            ("row-reverse", FlexDirection::RowReverse),
            ("column", FlexDirection::Column),
            ("column-reverse", FlexDirection::ColumnReverse),
        ],
    );
}

#[test]
fn test_flex_wrap() {
    check_all(
        "flex-wrap",
        BevyPropertyDeclaration::FlexWrap,
        vec![("nowrap", FlexWrap::NoWrap), ("wrap", FlexWrap::Wrap), ("wrap-reverse", FlexWrap::WrapReverse)],
    );
}

#[test]
fn test_flex_grow() {
    check_all("flex-grow", BevyPropertyDeclaration::FlexGrow, non_neg_numbers());
}

#[test]
#[should_panic]
fn test_flex_grow_negative() {
    parse("flex-grow", "-1");
}

#[test]
fn test_flex_shrink() {
    check_all("flex-shrink", BevyPropertyDeclaration::FlexShrink, non_neg_numbers());
}

#[test]
#[should_panic]
fn test_flex_shrink_negative() {
    parse("flex-shrink", "-1");
}

#[test]
fn test_flex_basis() {
    check_all("flex-basis", BevyPropertyDeclaration::FlexBasis, auto_lengths());
}

#[test]
fn test_aspect_ratio() {
    let ratio = |a: Number, b: Number| RatioOrAuto::NotAuto(Ratio(NonNegative(a), NonNegative(b)));
    check_all(
        "aspect-ratio",
        BevyPropertyDeclaration::AspectRatio,
        vec![
            ("auto", RatioOrAuto::Auto),
            ("1 / 1", ratio(num(1, 0), num(1, 0))),
            ("0 / 1", ratio(num(0, 0), num(1, 0))),
            ("1 / 0", ratio(num(1, 0), num(0, 0))),
            ("0.5", ratio(num(5, 1), num(1, 0))),
            ("2", ratio(num(2, 0), num(1, 0))),
        ],
    );
}

#[test]
#[should_panic]
fn test_aspect_ratio_negative() {
    parse("aspect-ratio", "-1");
}

#[test]
fn test_align_items() {
    check_all(
        "align-items",
        BevyPropertyDeclaration::AlignItems,
        vec![
            ("stretch", AlignItems::Stretch),
            ("center", AlignItems::Center),
            ("flex-start", AlignItems::FlexStart),
            ("flex-end", AlignItems::FlexEnd),
            ("baseline", AlignItems::Baseline),
        ],
    );
}

#[test]
fn test_align_self() {
    check_all(
        "align-self",
        BevyPropertyDeclaration::AlignSelf,
        vec![
            ("auto", AlignSelf::Auto),
            ("stretch", AlignSelf::Stretch),
            ("center", AlignSelf::Center),
            ("flex-start", AlignSelf::FlexStart),
            ("flex-end", AlignSelf::FlexEnd),
            ("baseline", AlignSelf::Baseline),
        ],
    );
}

#[test]
fn test_align_content() {
    check_all(
        "align-content",
        BevyPropertyDeclaration::AlignContent,
        vec![
            ("stretch", AlignContent::Stretch),
            ("center", AlignContent::Center),
            ("flex-start", AlignContent::FlexStart),
            ("flex-end", AlignContent::FlexEnd),
            ("space-between", AlignContent::SpaceBetween),
            ("space-around", AlignContent::SpaceAround),
        ],
    );
}

#[test]
fn test_justify_content() {
    check_all(
        "justify-content",
        BevyPropertyDeclaration::JustifyContent,
        vec![
            ("flex-start", JustifyContent::FlexStart),
            ("flex-end", JustifyContent::FlexEnd),
            ("center", JustifyContent::Center),
            ("space-between", JustifyContent::SpaceBetween),
            ("space-around", JustifyContent::SpaceAround),
            ("space-evenly", JustifyContent::SpaceEvenly),
        ],
    );
}

#[test]
fn test_margin() {
    check_all("margin", BevyPropertyDeclaration::Margin, sided());
}

#[test]
fn test_margin_top() {
    check_all("margin-top", BevyPropertyDeclaration::MarginTop, auto_lengths());
}

#[test]
fn test_margin_right() {
    check_all("margin-right", BevyPropertyDeclaration::MarginRight, auto_lengths());
}

#[test]
fn test_margin_bottom() {
    check_all("margin-bottom", BevyPropertyDeclaration::MarginBottom, auto_lengths());
}

#[test]
fn test_margin_left() {
    check_all("margin-left", BevyPropertyDeclaration::MarginLeft, auto_lengths());
}

#[test]
fn test_padding() {
    check_all("padding", BevyPropertyDeclaration::Padding, sided());
}

#[test]
fn test_padding_top() {
    check_all("padding-top", BevyPropertyDeclaration::PaddingTop, auto_lengths());
}

#[test]
fn test_padding_right() {
    check_all("padding-right", BevyPropertyDeclaration::PaddingRight, auto_lengths());
}

#[test]
fn test_padding_bottom() {
    check_all("padding-bottom", BevyPropertyDeclaration::PaddingBottom, auto_lengths());
}

#[test]
fn test_padding_left() {
    check_all("padding-left", BevyPropertyDeclaration::PaddingLeft, auto_lengths());
}

#[test]
fn test_border_width() {
    check_all("border-width", BevyPropertyDeclaration::BorderWidth, sided());
}

#[test]
fn test_border_width_top() {
    check_all("border-width-top", BevyPropertyDeclaration::BorderWidthTop, auto_lengths());
}

#[test]
fn test_border_width_right() {
    check_all("border-width-right", BevyPropertyDeclaration::BorderWidthRight, auto_lengths());
}

#[test]
fn test_border_width_bottom() {
    check_all("border-width-bottom", BevyPropertyDeclaration::BorderWidthBottom, auto_lengths());
}

#[test]
fn test_border_width_left() {
    check_all("border-width-left", BevyPropertyDeclaration::BorderWidthLeft, auto_lengths());
}

#[test]
fn test_color() {
    check_all(
        "color",
        BevyPropertyDeclaration::Color,
        vec![
            ("none", Color::none()),
            ("transparent", Color::none()),
            ("rgb(10, 20, 30)", Color::rgb_u8(10, 20, 30)),
            ("rgba(10, 20, 30, 0.5)", Color::rgba_u8(10, 20, 30, 128)),
            ("hsl(180, 60%, 70%)", Color::rgb_u8(133, 224, 224)),
            ("hsla(180, 60%, 70%, 0.5)", Color::rgba_u8(133, 224, 224, 128)),
            ("#ba55d3", Color::rgb_u8(186, 85, 211)),
            ("#abc", Color::rgb_u8(170, 187, 204)),
            ("red", Color::rgb_u8(255, 0, 0)),
            ("lightsalmon", Color::rgb_u8(255, 160, 122)),
        ],
    );
}

#[test]
fn wrong_kind_of_value_is_an_invalid_value() {
    for (property, value) in [("display", "5px"), ("width", "flex"), ("flex-grow", "auto"), ("margin", "red"), ("aspect-ratio", "10px")] {
        let err = parse_property_value(property, value).unwrap_err();
        assert!(!matches!(err, BevyCssParsingErrorKind::UnknownProperty(_)));
        let report = BevyCssContextualError::for_declaration(value.to_string(), BevyCssParsingError { kind: err, line: 0, column: 1 });
        assert!(matches!(report, BevyCssContextualError::InvalidValue(_, _)));
    }
}

#[test]
fn unknown_property_is_its_own_error() {
    let err = parse_property_value("colour", "red").unwrap_err();
    assert_eq!(err, BevyCssParsingErrorKind::UnknownProperty("colour".to_string()));
    let report = BevyCssContextualError::for_declaration("colour: red".to_string(), BevyCssParsingError { kind: err, line: 0, column: 1 });
    assert!(matches!(report, BevyCssContextualError::UnsupportedProperty(_, _)));
}

#[test]
fn property_names_ignore_ascii_case() {
    assert_eq!(parse("WIDTH", "10PX"), BevyPropertyDeclaration::Width(px10()));
}

#[test]
fn five_sided_values_leave_input() {
    assert_eq!(
        parse_property_value("margin", "1px 2px 3px 4px 5px"),
        Err(BevyCssParsingErrorKind::DeclarationValueNotExhausted)
    );
}

#[test]
fn important_is_accepted() {
    assert_eq!(parse("width", "10px !important"), BevyPropertyDeclaration::Width(px10()));
    assert_eq!(parse_property_value("width", "10px !nope"), Err(BevyCssParsingErrorKind::DeclarationValueNotExhausted));
}

#[test]
fn calc_is_not_supported() {
    for property in ["width", "margin", "flex-grow", "aspect-ratio", "padding-left"] {
        assert_eq!(
            parse_property_value(property, "calc(10px + 5%)"),
            Err(BevyCssParsingErrorKind::FunctionNotSupported("calc".to_string()))
        );
    }
}

#[test]
fn bare_number_needs_a_unit() {
    assert_eq!(parse_property_value("width", "10"), Err(BevyCssParsingErrorKind::MissingDimension));
    assert_eq!(
        parse_property_value("width", "10furlongs"),
        Err(BevyCssParsingErrorKind::UnexpectedDimension("furlongs".to_string()))
    );
}
