//! Laws that hold across the library, proved from the contracts of its functions.

use vstd::prelude::*;
use crate::declaration::{BevyPropertyDeclaration, PropertyId};
use crate::errors::{AllowedValues, BevyCssParsingErrorKind};
use crate::length::{LengthPercentage, LengthPercentageOrAuto, NoCalcLength};
use crate::number::Number;
use crate::parse::{is_ident, length_spec, number_spec, token_number, Parse};
use crate::ratio::{is_delim, Ratio};
use crate::selectors::{compound_matches, has_class, simple_matches, SimpleSelector};
use crate::text::same_ci;
use crate::tokens::ValueToken;
use crate::values::{expand_sides, MaybeAuto, Numeric, SidedValue};
use crate::length::CssContext;
use crate::style::{apply_all, val_spec, Style};

verus! {

/// Pixels per unit of each absolute unit, by its name in any case.
pub open spec fn absolute_unit_ratio(unit: Seq<char>) -> Option<(int, int)> {
    if same_ci(unit, "px"@) {
        Some((1, 1))
    } else if same_ci(unit, "cm"@) {
        Some((50, 127))
    } else if same_ci(unit, "mm"@) {
        Some((5, 127))
    } else if same_ci(unit, "q"@) {
        Some((5, 508))
    } else if same_ci(unit, "in"@) {
        Some((96, 1))
    } else if same_ci(unit, "pc"@) {
        Some((16, 1))
    } else if same_ci(unit, "pt"@) {
        Some((4, 3))
    } else {
        None
    }
}

/// A literal `v<unit>` in an absolute unit reads as a length whose size in pixels is
/// `v` times the unit's ratio to the pixel.
pub proof fn lemma_absolute_literal_px(toks: Seq<ValueToken>, pos: int)
    requires
        0 <= pos < toks.len(),
        toks[pos].tok is Dimension,
        absolute_unit_ratio(toks[pos].tok->Dimension_0@) is Some,
        token_number(toks[pos]) is Ok,
    ensures
        ({
            let v = token_number(toks[pos])->Ok_0;
            let (a, b) = absolute_unit_ratio(toks[pos].tok->Dimension_0@)->Some_0;
            match length_spec(toks, pos, AllowedValues::All, true) {
                Ok((LengthPercentage::Length(NoCalcLength::Absolute(l)), e)) =>
                    e == pos + 1 && l.raw() == v && l.px_ratio() == (a, b),
                _ => false,
            }
        }),
{
}

/// A declared property never fails as an unknown one: a value of the wrong kind is an
/// invalid value.
pub proof fn lemma_known_property_value_errors(id: PropertyId, toks: Seq<ValueToken>)
    ensures
        !(BevyPropertyDeclaration::declaration_spec(id, toks) matches Err(BevyCssParsingErrorKind::UnknownProperty(_))),
{
}

/// A keyword property given a token that is no identifier fails, with that token or
/// with the end of the input.
pub proof fn lemma_keyword_property_wants_ident(id: PropertyId, toks: Seq<ValueToken>)
    requires
        id is Display || id is Direction || id is Overflow || id is Position || id is FlexDirection
            || id is FlexWrap || id is AlignItems || id is AlignSelf || id is AlignContent
            || id is JustifyContent,
        toks.len() == 0 || !(toks[0].tok is Ident),
    ensures
        BevyPropertyDeclaration::declaration_spec(id, toks) is Err,
        toks.len() > 0 ==> BevyPropertyDeclaration::declaration_spec(id, toks)
            == Err::<BevyPropertyDeclaration, BevyCssParsingErrorKind>(BevyCssParsingErrorKind::UnexpectedToken(toks[0].tok)),
{
}

/// The shorthand rule: one value gives all four sides, two give top and bottom then
/// right and left, three give top, right and left, bottom, four give each side.
pub proof fn lemma_sided_expansion<T>(a: T, b: T, c: T, d: T)
    ensures
        expand_sides(seq![a]) == (SidedValue { top: a, right: a, bottom: a, left: a }),
        expand_sides(seq![a, b]) == (SidedValue { top: a, right: b, bottom: a, left: b }),
        expand_sides(seq![a, b, c]) == (SidedValue { top: a, right: b, bottom: c, left: b }),
        expand_sides(seq![a, b, c, d]) == (SidedValue { top: a, right: b, bottom: c, left: d }),
{
}

/// Four-sided values are read greedily: as many values as follow, up to four, spread
/// over the sides by the shorthand rule.
pub proof fn lemma_sided_reads_values<T: Parse + Copy>(
    toks: Seq<ValueToken>,
    a: T,
    e1: int,
    b: T,
    e2: int,
    c: T,
    e3: int,
    d: T,
    e4: int,
)
    requires
        T::parse_spec(toks, 0) == Ok::<(T, int), BevyCssParsingErrorKind>((a, e1)),
    ensures
        T::parse_spec(toks, e1) is Err ==> <SidedValue<T> as Parse>::parse_spec(toks, 0)
            == Ok::<(SidedValue<T>, int), BevyCssParsingErrorKind>((SidedValue { top: a, right: a, bottom: a, left: a }, e1)),
        T::parse_spec(toks, e1) == Ok::<(T, int), BevyCssParsingErrorKind>((b, e2)) && T::parse_spec(toks, e2) is Err
            ==> <SidedValue<T> as Parse>::parse_spec(toks, 0)
            == Ok::<(SidedValue<T>, int), BevyCssParsingErrorKind>((SidedValue { top: a, right: b, bottom: a, left: b }, e2)),
        T::parse_spec(toks, e1) == Ok::<(T, int), BevyCssParsingErrorKind>((b, e2))
            && T::parse_spec(toks, e2) == Ok::<(T, int), BevyCssParsingErrorKind>((c, e3)) && T::parse_spec(toks, e3) is Err
            ==> <SidedValue<T> as Parse>::parse_spec(toks, 0)
            == Ok::<(SidedValue<T>, int), BevyCssParsingErrorKind>((SidedValue { top: a, right: b, bottom: c, left: b }, e3)),
        T::parse_spec(toks, e1) == Ok::<(T, int), BevyCssParsingErrorKind>((b, e2))
            && T::parse_spec(toks, e2) == Ok::<(T, int), BevyCssParsingErrorKind>((c, e3))
            && T::parse_spec(toks, e3) == Ok::<(T, int), BevyCssParsingErrorKind>((d, e4))
            ==> <SidedValue<T> as Parse>::parse_spec(toks, 0)
            == Ok::<(SidedValue<T>, int), BevyCssParsingErrorKind>((SidedValue { top: a, right: b, bottom: c, left: d }, e4)),
{
}

/// A fifth length after four of `margin`, `padding` or `border-width` leaves the
/// declaration unfinished.
pub proof fn lemma_fifth_side_value_fails(id: PropertyId, toks: Seq<ValueToken>, e4: int)
    requires
        id is Margin || id is Padding || id is BorderWidth,
        ({
            match <SidedValue<LengthPercentageOrAuto> as Parse>::parse_spec(toks, 0) {
                Ok((_, e)) => e == e4,
                Err(_) => false,
            }
        }),
        <LengthPercentageOrAuto as Parse>::parse_spec(toks, e4) is Ok,
    ensures
        BevyPropertyDeclaration::declaration_spec(id, toks)
            == Err::<BevyPropertyDeclaration, BevyCssParsingErrorKind>(BevyCssParsingErrorKind::DeclarationValueNotExhausted),
{
    assert(0 <= e4 < toks.len());
    assert(!is_delim(toks, e4, '!'));
}

/// `auto` reads as `Auto` whatever the wrapped type, and `Auto` is neither zero nor
/// negative.
pub proof fn lemma_auto_for_every_type<T: Parse + Numeric + Copy>(toks: Seq<ValueToken>, pos: int)
    requires
        is_ident(toks, pos, "auto"@),
    ensures
        <MaybeAuto<T> as Parse>::parse_spec(toks, pos)
            == Ok::<(MaybeAuto<T>, int), BevyCssParsingErrorKind>((MaybeAuto::Auto, pos + 1)),
        !MaybeAuto::<T>::Auto.spec_is_zero(),
        !MaybeAuto::<T>::Auto.spec_is_negative(),
{
}

/// `#name` matches exactly the identities whose id is `name`.
pub proof fn lemma_id_selector(n: String, id: Option<String>, classes: Seq<String>)
    ensures
        compound_matches(seq![SimpleSelector::Id(n)], id, classes) == (id is Some && id->Some_0@ == n@),
{
    assert(simple_matches(seq![SimpleSelector::Id(n)][0], id, classes) == (id is Some && id->Some_0@ == n@));
}

/// `.name` matches an identity when `name` is among its classes, whatever their order
/// and whatever other classes there are.
pub proof fn lemma_class_selector(n: String, id: Option<String>, classes: Seq<String>, other: Seq<String>)
    requires
        forall|c: Seq<char>| has_class(classes, c) <==> has_class(other, c),
    ensures
        compound_matches(seq![SimpleSelector::Class(n)], id, classes) == has_class(classes, n@),
        compound_matches(seq![SimpleSelector::Class(n)], id, classes)
            == compound_matches(seq![SimpleSelector::Class(n)], id, other),
{
    assert(simple_matches(seq![SimpleSelector::Class(n)][0], id, classes) == has_class(classes, n@));
    assert(simple_matches(seq![SimpleSelector::Class(n)][0], id, other) == has_class(other, n@));
}

/// `*` matches every identity, one without id or classes too.
pub proof fn lemma_universal_selector(id: Option<String>, classes: Seq<String>)
    ensures
        compound_matches(seq![SimpleSelector::Universal], id, classes),
{
    assert(simple_matches(seq![SimpleSelector::Universal][0], id, classes));
}

/// A function such as `calc(` where a number, length or percentage is expected fails as
/// not supported, also behind `auto`.
pub proof fn lemma_functions_not_supported(toks: Seq<ValueToken>, pos: int, allowed: AllowedValues, with_percentage: bool)
    requires
        0 <= pos < toks.len(),
        toks[pos].tok is Function,
    ensures
        number_spec(toks, pos, allowed)
            == Err::<(Number, int), BevyCssParsingErrorKind>(BevyCssParsingErrorKind::FunctionNotSupported(toks[pos].tok->Function_0)),
        length_spec(toks, pos, allowed, with_percentage)
            == Err::<(LengthPercentage, int), BevyCssParsingErrorKind>(BevyCssParsingErrorKind::FunctionNotSupported(toks[pos].tok->Function_0)),
        <LengthPercentageOrAuto as Parse>::parse_spec(toks, pos)
            == Err::<(LengthPercentageOrAuto, int), BevyCssParsingErrorKind>(BevyCssParsingErrorKind::FunctionNotSupported(toks[pos].tok->Function_0)),
        <MaybeAuto<Ratio> as Parse>::parse_spec(toks, pos)
            == Err::<(MaybeAuto<Ratio>, int), BevyCssParsingErrorKind>(BevyCssParsingErrorKind::FunctionNotSupported(toks[pos].tok->Function_0)),
{
}

/// A ratio is degenerate exactly when a side is zero (an exact number is never infinite).
pub proof fn lemma_degenerate_ratio(r: Ratio)
    ensures
        r.degenerate() == (r.0.spec_is_zero() || r.1.spec_is_zero()),
{
}

/// Applying declarations in order, the last one that sets a field decides it: a `width`,
/// `height` or `justify-content` declaration at the end sets its field to its value.
pub proof fn lemma_last_declaration_wins(style: Style, decls: Seq<BevyPropertyDeclaration>, context: CssContext)
    requires
        decls.len() > 0,
    ensures
        decls.last() matches BevyPropertyDeclaration::Width(x)
            ==> apply_all(style, decls, context).size.width == val_spec(x, context),
        decls.last() matches BevyPropertyDeclaration::Height(x)
            ==> apply_all(style, decls, context).size.height == val_spec(x, context),
        decls.last() matches BevyPropertyDeclaration::JustifyContent(x)
            ==> apply_all(style, decls, context).justify_content == x,
{
}

} // verus!
