//! The style that declarations are applied to, and how each declaration changes it.

use vstd::prelude::*;
use crate::color::Color;
use crate::declaration::BevyPropertyDeclaration;
use crate::keywords::{AlignContent, AlignItems, AlignSelf, Direction, Display, FlexDirection, FlexWrap, JustifyContent, Overflow, PositionType};
use crate::length::{CssContext, Fraction, LengthPercentage, LengthPercentageOrAuto};
use crate::number::Number;
use crate::ratio::RatioOrAuto;
use crate::values::{MaybeAuto, SidedValue};

verus! {

/// A resolved size or offset.
#[derive(Clone, Copy, Debug, PartialEq, Eq, Structural)]
pub enum Val {
    Undefined,
    Auto,
    /// Pixels, exact.
    Px(Fraction),
    /// A percentage, as the number before the `%`.
    Percent(Number),
}

/// Values for the four sides of a box.
#[derive(Clone, Copy, Debug, PartialEq, Eq, Structural)]
pub struct Sides {
    pub left: Val,
    pub right: Val,
    pub top: Val,
    pub bottom: Val,
}

/// A width and a height.
#[derive(Clone, Copy, Debug, PartialEq, Eq, Structural)]
pub struct Size {
    pub width: Val,
    pub height: Val,
}

/// The layout fields that declarations set.
#[derive(Clone, Copy, Debug, PartialEq, Eq, Structural)]
pub struct Style {
    pub display: Display,
    pub position_type: PositionType,
    pub direction: Direction,
    pub flex_direction: FlexDirection,
    pub flex_wrap: FlexWrap,
    pub align_items: AlignItems,
    pub align_self: AlignSelf,
    pub align_content: AlignContent,
    pub justify_content: JustifyContent,
    pub position: Sides,
    pub margin: Sides,
    pub padding: Sides,
    pub border: Sides,
    pub flex_grow: Number,
    pub flex_shrink: Number,
    pub flex_basis: Val,
    pub size: Size,
    pub min_size: Size,
    pub max_size: Size,
    /// Width over height, where one is set.
    pub aspect_ratio: Option<Fraction>,
    pub overflow: Overflow,
}

/// The fill colour that `color` declarations set.
#[derive(Clone, Copy, Debug, PartialEq, Eq, Structural)]
pub struct UiColor(pub Color);

impl UiColor {
    pub open spec fn default_spec() -> UiColor {
        UiColor(Color { red: 255, green: 255, blue: 255, alpha: 255 })
    }

    /// Opaque white.
    pub fn default() -> (r: UiColor)
        ensures
            r == UiColor::default_spec(),
    {
        UiColor(Color::rgb_u8(255, 255, 255))
    }
}

pub open spec fn undefined_sides() -> Sides {
    Sides { left: Val::Undefined, right: Val::Undefined, top: Val::Undefined, bottom: Val::Undefined }
}

pub open spec fn auto_size() -> Size {
    Size { width: Val::Auto, height: Val::Auto }
}

impl Style {
    pub open spec fn default_spec() -> Style {
        Style {
            display: Display::Flex,
            position_type: PositionType::Relative,
            direction: Direction::Inherit,
            flex_direction: FlexDirection::Row,
            flex_wrap: FlexWrap::NoWrap,
            align_items: AlignItems::Stretch,
            align_self: AlignSelf::Auto,
            align_content: AlignContent::Stretch,
            justify_content: JustifyContent::FlexStart,
            position: undefined_sides(),
            margin: undefined_sides(),
            padding: undefined_sides(),
            border: undefined_sides(),
            flex_grow: Number { mantissa: 0, scale: 0 },
            flex_shrink: Number { mantissa: 1, scale: 0 },
            flex_basis: Val::Auto,
            size: auto_size(),
            min_size: auto_size(),
            max_size: auto_size(),
            aspect_ratio: None,
            overflow: Overflow::Visible,
        }
    }

    /// The style before any declaration: a flex row, sizes `auto`, offsets and box sides
    /// undefined.
    pub fn default() -> (r: Style)
        ensures
            r == Style::default_spec(),
    {
        let undefined = Sides { left: Val::Undefined, right: Val::Undefined, top: Val::Undefined, bottom: Val::Undefined };
        let auto = Size { width: Val::Auto, height: Val::Auto };
        Style {
            display: Display::Flex,
            position_type: PositionType::Relative,
            direction: Direction::Inherit,
            flex_direction: FlexDirection::Row,
            flex_wrap: FlexWrap::NoWrap,
            align_items: AlignItems::Stretch,
            align_self: AlignSelf::Auto,
            align_content: AlignContent::Stretch,
            justify_content: JustifyContent::FlexStart,
            position: undefined,
            margin: undefined,
            padding: undefined,
            border: undefined,
            flex_grow: Number::zero(),
            flex_shrink: Number::one(),
            flex_basis: Val::Auto,
            size: auto,
            min_size: auto,
            max_size: auto,
            aspect_ratio: None,
            overflow: Overflow::Visible,
        }
    }
}

/// What a length, percentage or `auto` resolves to under `context`.
pub open spec fn val_spec(v: LengthPercentageOrAuto, context: CssContext) -> Val {
    match v {
        MaybeAuto::Auto => Val::Auto,
        MaybeAuto::NotAuto(LengthPercentage::Length(l)) => {
            let p = l.px(context);
            Val::Px(Fraction { num: p.0 as i128, den: p.1 as i128 })
        },
        MaybeAuto::NotAuto(LengthPercentage::Percentage(p)) => Val::Percent(p.percent),
    }
}

pub fn lpa_to_val(v: LengthPercentageOrAuto, context: &CssContext) -> (r: Val)
    requires
        match v {
            MaybeAuto::Auto => true,
            MaybeAuto::NotAuto(x) => x.wf(),
        },
        context.wf(),
    ensures
        r == val_spec(v, *context),
{
    match v {
        MaybeAuto::Auto => Val::Auto,
        MaybeAuto::NotAuto(LengthPercentage::Length(l)) => Val::Px(l.to_computed_px(context)),
        MaybeAuto::NotAuto(LengthPercentage::Percentage(p)) => Val::Percent(p.percent),
    }
}

pub open spec fn sides_spec(v: SidedValue<LengthPercentageOrAuto>, context: CssContext) -> Sides {
    Sides {
        left: val_spec(v.left, context),
        right: val_spec(v.right, context),
        top: val_spec(v.top, context),
        bottom: val_spec(v.bottom, context),
    }
}

pub open spec fn lpa_valid(v: LengthPercentageOrAuto) -> bool {
    match v {
        MaybeAuto::Auto => true,
        MaybeAuto::NotAuto(x) => x.wf(),
    }
}

pub fn sides_to_val(v: SidedValue<LengthPercentageOrAuto>, context: &CssContext) -> (r: Sides)
    requires
        lpa_valid(v.left) && lpa_valid(v.right) && lpa_valid(v.top) && lpa_valid(v.bottom),
        context.wf(),
    ensures
        r == sides_spec(v, *context),
{
    Sides {
        left: lpa_to_val(v.left, context),
        right: lpa_to_val(v.right, context),
        top: lpa_to_val(v.top, context),
        bottom: lpa_to_val(v.bottom, context),
    }
}

pub open spec fn ratio_spec(v: RatioOrAuto) -> Option<Fraction> {
    match v {
        MaybeAuto::Auto => None,
        MaybeAuto::NotAuto(r) => Some(Fraction {
            num: (r.0.0.num() * r.1.0.den()) as i128,
            den: (r.1.0.num() * r.0.0.den()) as i128,
        }),
    }
}

pub fn ratio_value(v: RatioOrAuto) -> (r: Option<Fraction>)
    requires
        match v {
            MaybeAuto::Auto => true,
            MaybeAuto::NotAuto(x) => x.wf(),
        },
    ensures
        r == ratio_spec(v),
{
    match v {
        MaybeAuto::Auto => None,
        MaybeAuto::NotAuto(x) => Some(x.as_fraction()),
    }
}

impl BevyPropertyDeclaration {
    /// The style after this declaration: the one field it names set, the others kept.
    pub open spec fn applied(self, style: Style, context: CssContext) -> Style {
        match self {
            BevyPropertyDeclaration::Width(x) => Style { size: Size { width: val_spec(x, context), ..style.size }, ..style },
            BevyPropertyDeclaration::Height(x) => Style { size: Size { height: val_spec(x, context), ..style.size }, ..style },
            BevyPropertyDeclaration::MinWidth(x) => Style { min_size: Size { width: val_spec(x, context), ..style.min_size }, ..style },
            BevyPropertyDeclaration::MinHeight(x) => Style { min_size: Size { height: val_spec(x, context), ..style.min_size }, ..style },
            BevyPropertyDeclaration::MaxWidth(x) => Style { max_size: Size { width: val_spec(x, context), ..style.max_size }, ..style },
            BevyPropertyDeclaration::MaxHeight(x) => Style { max_size: Size { height: val_spec(x, context), ..style.max_size }, ..style },
            BevyPropertyDeclaration::Top(x) => Style { position: Sides { top: val_spec(x, context), ..style.position }, ..style },
            BevyPropertyDeclaration::Right(x) => Style { position: Sides { right: val_spec(x, context), ..style.position }, ..style },
            BevyPropertyDeclaration::Bottom(x) => Style { position: Sides { bottom: val_spec(x, context), ..style.position }, ..style },
            BevyPropertyDeclaration::Left(x) => Style { position: Sides { left: val_spec(x, context), ..style.position }, ..style },
            BevyPropertyDeclaration::MarginTop(x) => Style { margin: Sides { top: val_spec(x, context), ..style.margin }, ..style },
            BevyPropertyDeclaration::MarginRight(x) => Style { margin: Sides { right: val_spec(x, context), ..style.margin }, ..style },
            BevyPropertyDeclaration::MarginBottom(x) => Style { margin: Sides { bottom: val_spec(x, context), ..style.margin }, ..style },
            BevyPropertyDeclaration::MarginLeft(x) => Style { margin: Sides { left: val_spec(x, context), ..style.margin }, ..style },
            BevyPropertyDeclaration::PaddingTop(x) => Style { padding: Sides { top: val_spec(x, context), ..style.padding }, ..style },
            BevyPropertyDeclaration::PaddingRight(x) => Style { padding: Sides { right: val_spec(x, context), ..style.padding }, ..style },
            BevyPropertyDeclaration::PaddingBottom(x) => Style { padding: Sides { bottom: val_spec(x, context), ..style.padding }, ..style },
            BevyPropertyDeclaration::PaddingLeft(x) => Style { padding: Sides { left: val_spec(x, context), ..style.padding }, ..style },
            BevyPropertyDeclaration::BorderWidthTop(x) => Style { border: Sides { top: val_spec(x, context), ..style.border }, ..style },
            BevyPropertyDeclaration::BorderWidthRight(x) => Style { border: Sides { right: val_spec(x, context), ..style.border }, ..style },
            BevyPropertyDeclaration::BorderWidthBottom(x) => Style { border: Sides { bottom: val_spec(x, context), ..style.border }, ..style },
            BevyPropertyDeclaration::BorderWidthLeft(x) => Style { border: Sides { left: val_spec(x, context), ..style.border }, ..style },
            BevyPropertyDeclaration::Display(x) => Style { display: x, ..style },
            BevyPropertyDeclaration::Direction(x) => Style { direction: x, ..style },
            BevyPropertyDeclaration::Overflow(x) => Style { overflow: x, ..style },
            BevyPropertyDeclaration::Position(x) => Style { position_type: x, ..style },
            BevyPropertyDeclaration::FlexDirection(x) => Style { flex_direction: x, ..style },
            BevyPropertyDeclaration::FlexWrap(x) => Style { flex_wrap: x, ..style },
            BevyPropertyDeclaration::AlignItems(x) => Style { align_items: x, ..style },
            BevyPropertyDeclaration::AlignSelf(x) => Style { align_self: x, ..style },
            BevyPropertyDeclaration::AlignContent(x) => Style { align_content: x, ..style },
            BevyPropertyDeclaration::JustifyContent(x) => Style { justify_content: x, ..style },
            BevyPropertyDeclaration::Margin(x) => Style { margin: sides_spec(x, context), ..style },
            BevyPropertyDeclaration::Padding(x) => Style { padding: sides_spec(x, context), ..style },
            BevyPropertyDeclaration::BorderWidth(x) => Style { border: sides_spec(x, context), ..style },
            BevyPropertyDeclaration::FlexGrow(x) => Style { flex_grow: x.0, ..style },
            BevyPropertyDeclaration::FlexShrink(x) => Style { flex_shrink: x.0, ..style },
            BevyPropertyDeclaration::FlexBasis(x) => Style { flex_basis: val_spec(x, context), ..style },
            BevyPropertyDeclaration::AspectRatio(x) => Style { aspect_ratio: ratio_spec(x), ..style },
            BevyPropertyDeclaration::Color(_) => style,
        }
    }

    /// Sets the field of `style` that this declaration names; a colour leaves it as it is.
    #[verifier::rlimit(100)]
    #[verifier::spinoff_prover]
    pub fn modify_style(&self, context: &CssContext, style: &mut Style)
        requires
            self.valid(),
            context.wf(),
        ensures
            *final(style) == self.applied(*old(style), *context),
    {
        match *self {
            BevyPropertyDeclaration::Width(x) => style.size.width = lpa_to_val(x, context),
            BevyPropertyDeclaration::Height(x) => style.size.height = lpa_to_val(x, context),
            BevyPropertyDeclaration::MinWidth(x) => style.min_size.width = lpa_to_val(x, context),
            BevyPropertyDeclaration::MinHeight(x) => style.min_size.height = lpa_to_val(x, context),
            BevyPropertyDeclaration::MaxWidth(x) => style.max_size.width = lpa_to_val(x, context),
            BevyPropertyDeclaration::MaxHeight(x) => style.max_size.height = lpa_to_val(x, context),
            BevyPropertyDeclaration::Top(x) => style.position.top = lpa_to_val(x, context),
            BevyPropertyDeclaration::Right(x) => style.position.right = lpa_to_val(x, context),
            BevyPropertyDeclaration::Bottom(x) => style.position.bottom = lpa_to_val(x, context),
            BevyPropertyDeclaration::Left(x) => style.position.left = lpa_to_val(x, context),
            BevyPropertyDeclaration::MarginTop(x) => style.margin.top = lpa_to_val(x, context),
            BevyPropertyDeclaration::MarginRight(x) => style.margin.right = lpa_to_val(x, context),
            BevyPropertyDeclaration::MarginBottom(x) => style.margin.bottom = lpa_to_val(x, context),
            BevyPropertyDeclaration::MarginLeft(x) => style.margin.left = lpa_to_val(x, context),
            BevyPropertyDeclaration::PaddingTop(x) => style.padding.top = lpa_to_val(x, context),
            BevyPropertyDeclaration::PaddingRight(x) => style.padding.right = lpa_to_val(x, context),
            BevyPropertyDeclaration::PaddingBottom(x) => style.padding.bottom = lpa_to_val(x, context),
            BevyPropertyDeclaration::PaddingLeft(x) => style.padding.left = lpa_to_val(x, context),
            BevyPropertyDeclaration::BorderWidthTop(x) => style.border.top = lpa_to_val(x, context),
            BevyPropertyDeclaration::BorderWidthRight(x) => style.border.right = lpa_to_val(x, context),
            BevyPropertyDeclaration::BorderWidthBottom(x) => style.border.bottom = lpa_to_val(x, context),
            BevyPropertyDeclaration::BorderWidthLeft(x) => style.border.left = lpa_to_val(x, context),
            BevyPropertyDeclaration::Display(x) => style.display = x,
            BevyPropertyDeclaration::Direction(x) => style.direction = x,
            BevyPropertyDeclaration::Overflow(x) => style.overflow = x,
            BevyPropertyDeclaration::Position(x) => style.position_type = x,
            BevyPropertyDeclaration::FlexDirection(x) => style.flex_direction = x,
            BevyPropertyDeclaration::FlexWrap(x) => style.flex_wrap = x,
            BevyPropertyDeclaration::AlignItems(x) => style.align_items = x,
            BevyPropertyDeclaration::AlignSelf(x) => style.align_self = x,
            BevyPropertyDeclaration::AlignContent(x) => style.align_content = x,
            BevyPropertyDeclaration::JustifyContent(x) => style.justify_content = x,
            BevyPropertyDeclaration::Margin(x) => style.margin = sides_to_val(x, context),
            BevyPropertyDeclaration::Padding(x) => style.padding = sides_to_val(x, context),
            BevyPropertyDeclaration::BorderWidth(x) => style.border = sides_to_val(x, context),
            BevyPropertyDeclaration::FlexGrow(x) => style.flex_grow = x.0,
            BevyPropertyDeclaration::FlexShrink(x) => style.flex_shrink = x.0,
            BevyPropertyDeclaration::FlexBasis(x) => style.flex_basis = lpa_to_val(x, context),
            BevyPropertyDeclaration::AspectRatio(x) => style.aspect_ratio = ratio_value(x),
            BevyPropertyDeclaration::Color(_) => {},
        }
    }

    /// Sets the colour where this is a `color` declaration.
    pub fn modify_color(&self, ui_color: &mut UiColor)
        ensures
            *final(ui_color) == match *self {
                BevyPropertyDeclaration::Color(c) => UiColor(c),
                _ => *old(ui_color),
            },
    {
        match *self {
            BevyPropertyDeclaration::Color(c) => ui_color.0 = c,
            _ => {},
        }
    }
}

/// The style after the declarations of `decls`, in order.
pub open spec fn apply_all(style: Style, decls: Seq<BevyPropertyDeclaration>, context: CssContext) -> Style
    decreases decls.len(),
{
    if decls.len() == 0 {
        style
    } else {
        decls.last().applied(apply_all(style, decls.drop_last(), context), context)
    }
}

/// The colour after the declarations of `decls`, in order: the last `color` wins.
pub open spec fn color_all(color: UiColor, decls: Seq<BevyPropertyDeclaration>) -> UiColor
    decreases decls.len(),
{
    if decls.len() == 0 {
        color
    } else {
        match decls.last() {
            BevyPropertyDeclaration::Color(c) => UiColor(c),
            _ => color_all(color, decls.drop_last()),
        }
    }
}

/// Applies each declaration of `decls` to `style`, in order.
pub fn apply_declarations(decls: &Vec<BevyPropertyDeclaration>, context: &CssContext, style: &mut Style)
    requires
        forall|k: int| 0 <= k < decls@.len() ==> (#[trigger] decls@[k]).valid(),
        context.wf(),
    ensures
        *final(style) == apply_all(*old(style), decls@, *context),
{
    let ghost start = *style;
    let mut i: usize = 0;
    while i < decls.len()
        invariant
            i <= decls@.len(),
            forall|k: int| 0 <= k < decls@.len() ==> (#[trigger] decls@[k]).valid(),
            context.wf(),
            *style == apply_all(start, decls@.subrange(0, i as int), *context),
        decreases decls@.len() - i,
    {
        proof {
            assert(decls@.subrange(0, i + 1).drop_last() =~= decls@.subrange(0, i as int));
        }
        decls[i].modify_style(context, style);
        i = i + 1;
    }
    proof {
        assert(decls@.subrange(0, i as int) =~= decls@);
    }
}

/// Applies the `color` declarations of `decls` to `color`, in order.
pub fn apply_colors(decls: &Vec<BevyPropertyDeclaration>, color: &mut UiColor)
    ensures
        *final(color) == color_all(*old(color), decls@),
{
    let ghost start = *color;
    let mut i: usize = 0;
    while i < decls.len()
        invariant
            i <= decls@.len(),
            *color == color_all(start, decls@.subrange(0, i as int)),
        decreases decls@.len() - i,
    {
        proof {
            assert(decls@.subrange(0, i + 1).drop_last() =~= decls@.subrange(0, i as int));
        }
        decls[i].modify_color(color);
        i = i + 1;
    }
    proof {
        assert(decls@.subrange(0, i as int) =~= decls@);
    }
}

} // verus!
