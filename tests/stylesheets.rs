use bevy_css::diagnostics::BevyCssContextualError;
use bevy_css::rules::BevyPropertyListParser;
use bevy_css::color::Color;
use bevy_css::keywords::JustifyContent;
use bevy_css::length::{CssContext, Fraction};
use bevy_css::number::Number;
use bevy_css::selectors::{BevySelectorList, CssTag};
use bevy_css::style::{Style, UiColor, Val};
use bevy_css::stylesheet::{CssStyle, CssStylesheet};
use bevy_css::tokens::tokenize;

fn tag(id: &str, classes: &[&str]) -> CssTag {
    CssTag::new_id(id.to_string()).with_classes(classes.iter().map(|c| c.to_string()).collect())
}

fn selectors(text: &str) -> BevySelectorList {
    BevySelectorList::parse(&tokenize(text)).unwrap()
}

#[test]
fn test_css_style_style() {
    let context = CssContext::default();
    let style = CssStyle("width: 100%; height: 100px; justify-content: space-between;");
    let mut expected = Style::default();
    expected.size.width = Val::Percent(Number { mantissa: 100, scale: 0 });
    expected.size.height = Val::Px(Fraction { num: 100, den: 1 });
    expected.justify_content = JustifyContent::SpaceBetween;
    assert_eq!(style.to_style(&context), expected)
}

#[test]
fn test_css_style_color() {
    let style = CssStyle("color: rgb(65, 75, 85);");
    let res = UiColor(Color::rgb_u8(65, 75, 85));
    assert_eq!(style.to_ui_color().0, res.0)
}

#[test]
fn selector_matching() {
    let a = selectors("#a");
    assert!(a.matches(&tag("a", &[])));
    assert!(!a.matches(&tag("b", &[])));
    assert!(!a.matches(&tag("", &["a"])));
    let x = selectors(".x");
    assert!(x.matches(&tag("", &["y", "x", "z"])));
    assert!(x.matches(&tag("q", &["x"])));
    assert!(!x.matches(&tag("x", &["X"])));
    let all = selectors("*");
    assert!(all.matches(&tag("", &[])));
    assert!(all.matches(&tag("a", &["x"])));
    let both = selectors("#a.x.y");
    assert!(both.matches(&tag("a", &["y", "x"])));
    assert!(!both.matches(&tag("a", &["x"])));
    let either = selectors(" #b , .y ");
    assert!(either.matches(&tag("", &["y"])));
    assert!(either.matches(&tag("b", &[])));
    assert!(!either.matches(&tag("c", &["x"])));
}

#[test]
fn unsupported_selectors_are_refused() {
    for text in ["#a .b", "div", "", "#a,", "a > b", ".", "#a:hover"] {
        assert!(BevySelectorList::parse(&tokenize(text)).is_none(), "{}", text);
    }
}

#[test]
fn specificity_counts_ids_then_classes() {
    let s = selectors("#a.x.y*");
    assert_eq!(s.0[0].specificity(), (1 << 20) | (2 << 10));
    assert_eq!(selectors("*").0[0].specificity(), 0);
}

#[test]
fn stylesheet_rules_apply_in_order() {
    let sheet = CssStylesheet::new(
        "@import url(x.css); #a { width: 10px; color: red } .x { width: 20%; bogus: 1 } \
         #b { height: 5px } div { width: 1px } .x { margin: 1px 2px; }",
    );
    assert_eq!(sheet.rules.len(), 4);
    let context = CssContext::default();
    let mut style = Style::default();
    let mut color = UiColor::default();
    sheet.apply(&tag("a", &["x"]), &context, &mut style, &mut color);
    assert_eq!(style.size.width, Val::Percent(Number { mantissa: 20, scale: 0 }));
    assert_eq!(style.size.height, Val::Auto);
    assert_eq!(style.margin.top, Val::Px(Fraction { num: 1, den: 1 }));
    assert_eq!(style.margin.left, Val::Px(Fraction { num: 2, den: 1 }));
    assert_eq!(color, UiColor(Color::rgb_u8(255, 0, 0)));
}

#[test]
fn longhand_after_shorthand_wins() {
    let style = CssStyle("padding: 4px; padding-left: 1em; border-width: 1px 2px 3px").to_style(&CssContext::default());
    assert_eq!(style.padding.top, Val::Px(Fraction { num: 4, den: 1 }));
    assert_eq!(style.padding.left, Val::Px(Fraction { num: 12, den: 1 }));
    assert_eq!(style.border.bottom, Val::Px(Fraction { num: 3, den: 1 }));
    assert_eq!(style.border.left, Val::Px(Fraction { num: 2, den: 1 }));
}

#[test]
fn bad_declarations_are_skipped() {
    let decls = CssStyle("width: 5px; display: 5px; colour: red; height: auto").parse_inline();
    assert_eq!(decls.len(), 2);
}

#[test]
fn failed_declarations_are_reported_with_place_and_message() {
    let toks = tokenize("width: 5px;\n  colour: red;\n  display: 5px");
    let errors = BevyPropertyListParser::parse_errors(&toks);
    assert_eq!(errors.len(), 2);
    assert!(matches!(errors[0], BevyCssContextualError::UnsupportedProperty(_, _)));
    assert!(matches!(errors[1], BevyCssContextualError::InvalidValue(_, _)));
    assert_eq!(
        errors[0].error_string_with_location(),
        "Failed to parse css at (line: 1, col: 3): Unsupported/unrecognised property name (colour: red), Unknown property colour"
    );
    assert_eq!(
        errors[1].error_string_with_location(),
        "Failed to parse css at (line: 2, col: 3): The value of a property is invalid: An unexpected dimension with unit px was found"
    );
}

#[test]
fn tags_from_class_strings() {
    let t = CssTag::new_class_str("  a  b\tc ");
    assert_eq!(t.classes.to_vec(), vec!["a".to_string(), "b".to_string(), "c".to_string()]);
    assert!(t.id.is_none());
    assert_eq!(CssTag::new_class_str("").classes.len(), 0);
    let t = CssTag::new_id_str("main").class("x y".to_string());
    assert_eq!(t.id, Some("main".to_string()));
    assert_eq!(t.classes.len(), 2);
    assert!(bevy_css::selectors::no_whitespace("abc"));
    assert!(!bevy_css::selectors::no_whitespace("a c"));
}

#[test]
fn tags_from_selector_strings() {
    let t = CssTag::from_selectors("#id.class1.class2");
    assert_eq!(t.id, Some("id".to_string()));
    assert_eq!(t.classes.to_vec(), vec!["class1".to_string(), "class2".to_string()]);
    let t = CssTag::from_selectors("x#a#b.c");
    assert_eq!(t.id, Some("b".to_string()));
    assert_eq!(t.classes.to_vec(), vec!["c".to_string()]);
    let t = CssTag::from_selectors(".a");
    assert_eq!(t.id, None);
    assert_eq!(t.classes.to_vec(), vec!["a".to_string()]);
}

#[test]
fn selectors_write_back() {
    assert_eq!(selectors(" #a.x ,*,.y").to_css_string(), "#a.x, *, .y");
    assert_eq!(selectors("#a.x").0[0].to_css_string(), "#a.x");
}

#[test]
fn failed_rules_are_reported() {
    let errors = CssStylesheet::parse_errors("@import url(x.css);\ndiv { width: 1px }\n#a { colour: red; width: 2px }");
    assert_eq!(errors.len(), 3);
    assert!(matches!(errors[0], BevyCssContextualError::UnsupportedAtRule(_, _)));
    assert!(matches!(errors[1], BevyCssContextualError::InvalidValue(_, _)));
    assert!(matches!(errors[2], BevyCssContextualError::UnsupportedProperty(_, _)));
    assert_eq!(errors[1].parsing_error().line, 1);
    assert_eq!(
        errors[2].error_string_with_location(),
        "Failed to parse css at (line: 2, col: 6): Unsupported/unrecognised property name (colour: red), Unknown property colour"
    );
}
