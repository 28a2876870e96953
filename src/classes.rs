//! Modifier tokens of a `layout` attribute: `name` or `name:value`, and the
//! modifier each one stands for.
use vstd::prelude::*;

use crate::text::{chars_of, has_prefix, starts_with, str_eq};

verus! {

/// The named modifiers that a `layout` attribute can hold.
#[derive(Debug, Clone, Copy, PartialEq, Eq, Hash, Structural)]
pub enum Modifier {
    MaxWidth,
    MinCellWidth,
    MinCols,
    MaxCols,
    Gap,
    GapX,
    GapY,
    GapDir,
    Scale,
    Align,
    Position,
    Top,
    Bottom,
    Left,
    Right,
    Height,
    ItemWidth,
    MinHeight,
    MaxHeight,
    Side,
    SideWidth,
    ContentMin,
    Threshold,
    Limit,
    Justify,
    Template,
    Recursive,
    Screen,
    TwinWidth,
    NoWrap,
    HideBar,
    AndText,
    Grow,
    KeepP,
    KeepPL,
    KeepPR,
    KeepCenter,
    Shrink,
    Reverse,
    Rows,
    Cols,
    AlignSelf,
    BgImg,
    FlexBasis,
    FlexGrow,
    FlexShrink,
    FontSize,
    H,
    HideOver,
    HideUnder,
    LineHeight,
    P,
    PT,
    PB,
    PL,
    PR,
    PX,
    PY,
    PChild,
    PTChild,
    PBChild,
    PLChild,
    PRChild,
    PXChild,
    PYChild,
    PRecursive,
    PTRecursive,
    PBRecursive,
    PLRecursive,
    PRRecursive,
    PXRecursive,
    PYRecursive,
    Ratio,
    W,
    ZIndex,
    Relative,
}

/// A classified modifier as plain values: which modifier, and its payload
/// (empty for a flag).
pub struct ClassModel {
    pub modifier: Modifier,
    pub value: Seq<char>,
}

/// Whether the modifier carries no value.
pub open spec fn is_flag(m: Modifier) -> bool {
    match m {
        Modifier::Recursive | Modifier::Screen | Modifier::TwinWidth | Modifier::NoWrap | Modifier::HideBar | Modifier::AndText | Modifier::Grow | Modifier::KeepP | Modifier::KeepPL | Modifier::KeepPR | Modifier::KeepCenter | Modifier::Shrink | Modifier::Reverse | Modifier::Relative => true,
        _ => false,
    }
}

/// Whether the modifier is an independent utility, which never sets a field of
/// a component.
pub open spec fn is_utility(m: Modifier) -> bool {
    match m {
        Modifier::AlignSelf | Modifier::BgImg | Modifier::FlexBasis | Modifier::FlexGrow
        | Modifier::FlexShrink | Modifier::FontSize | Modifier::H | Modifier::HideOver
        | Modifier::HideUnder | Modifier::LineHeight | Modifier::P | Modifier::PT
        | Modifier::PB | Modifier::PL | Modifier::PR | Modifier::PX
        | Modifier::PY | Modifier::PChild | Modifier::PTChild | Modifier::PBChild
        | Modifier::PLChild | Modifier::PRChild | Modifier::PXChild | Modifier::PYChild
        | Modifier::PRecursive | Modifier::PTRecursive | Modifier::PBRecursive | Modifier::PLRecursive
        | Modifier::PRRecursive | Modifier::PXRecursive | Modifier::PYRecursive | Modifier::Ratio
        | Modifier::W | Modifier::ZIndex | Modifier::Relative
        => true,
        _ => false,
    }
}

/// Whether the modifier is one of the two positional families, whose payload
/// is the whole token.
pub open spec fn is_positional(m: Modifier) -> bool {
    m == Modifier::Rows || m == Modifier::Cols
}

/// The name a modifier is written with; for a positional family, its prefix.
pub open spec fn modifier_name(m: Modifier) -> Seq<char> {
    match m {
        Modifier::MaxWidth => "max-width"@,
        Modifier::MinCellWidth => "min-cell-width"@,
        Modifier::MinCols => "min-cols"@,
        Modifier::MaxCols => "max-cols"@,
        Modifier::Gap => "gap"@,
        Modifier::GapX => "gap-x"@,
        Modifier::GapY => "gap-y"@,
        Modifier::GapDir => "gap-dir"@,
        Modifier::Scale => "scale"@,
        Modifier::Align => "align"@,
        Modifier::Position => "position"@,
        Modifier::Top => "top"@,
        Modifier::Bottom => "bottom"@,
        Modifier::Left => "left"@,
        Modifier::Right => "right"@,
        Modifier::Height => "height"@,
        Modifier::ItemWidth => "item-width"@,
        Modifier::MinHeight => "min-height"@,
        Modifier::MaxHeight => "max-height"@,
        Modifier::Side => "side"@,
        Modifier::SideWidth => "side-width"@,
        Modifier::ContentMin => "content-min"@,
        Modifier::Threshold => "threshold"@,
        Modifier::Limit => "limit"@,
        Modifier::Justify => "justify"@,
        Modifier::Template => "template"@,
        Modifier::Recursive => "recursive"@,
        Modifier::Screen => "screen"@,
        Modifier::TwinWidth => "twin-width"@,
        Modifier::NoWrap => "nowrap"@,
        Modifier::HideBar => "hide-bar"@,
        Modifier::AndText => "and-text"@,
        Modifier::Grow => "grow"@,
        Modifier::KeepP => "keep-p"@,
        Modifier::KeepPL => "keep-pl"@,
        Modifier::KeepPR => "keep-pr"@,
        Modifier::KeepCenter => "keep-center"@,
        Modifier::Shrink => "shrink"@,
        Modifier::Reverse => "reverse"@,
        Modifier::Rows => "rows-"@,
        Modifier::Cols => "cols-"@,
        Modifier::AlignSelf => "align-self"@,
        Modifier::BgImg => "bg-img"@,
        Modifier::FlexBasis => "flex-basis"@,
        Modifier::FlexGrow => "flex-grow"@,
        Modifier::FlexShrink => "flex-shrink"@,
        Modifier::FontSize => "font-size"@,
        Modifier::H => "h"@,
        Modifier::HideOver => "hide-over"@,
        Modifier::HideUnder => "hide-under"@,
        Modifier::LineHeight => "line-height"@,
        Modifier::P => "p"@,
        Modifier::PT => "pt"@,
        Modifier::PB => "pb"@,
        Modifier::PL => "pl"@,
        Modifier::PR => "pr"@,
        Modifier::PX => "px"@,
        Modifier::PY => "py"@,
        Modifier::PChild => "p-child"@,
        Modifier::PTChild => "pt-child"@,
        Modifier::PBChild => "pb-child"@,
        Modifier::PLChild => "pl-child"@,
        Modifier::PRChild => "pr-child"@,
        Modifier::PXChild => "px-child"@,
        Modifier::PYChild => "py-child"@,
        Modifier::PRecursive => "p-recursive"@,
        Modifier::PTRecursive => "pt-recursive"@,
        Modifier::PBRecursive => "pb-recursive"@,
        Modifier::PLRecursive => "pl-recursive"@,
        Modifier::PRRecursive => "pr-recursive"@,
        Modifier::PXRecursive => "px-recursive"@,
        Modifier::PYRecursive => "py-recursive"@,
        Modifier::Ratio => "ratio"@,
        Modifier::W => "w"@,
        Modifier::ZIndex => "z-index"@,
        Modifier::Relative => "relative"@,
    }
}

/// The value-bearing modifier written `name`, if any.
pub open spec fn valued_named(name: Seq<char>) -> Option<Modifier> {
    if name == "max-width"@ {
        Some(Modifier::MaxWidth)
    } else if name == "min-cell-width"@ {
        Some(Modifier::MinCellWidth)
    } else if name == "min-cols"@ {
        Some(Modifier::MinCols)
    } else if name == "max-cols"@ {
        Some(Modifier::MaxCols)
    } else if name == "gap"@ {
        Some(Modifier::Gap)
    } else if name == "gap-x"@ {
        Some(Modifier::GapX)
    } else if name == "gap-y"@ {
        Some(Modifier::GapY)
    } else if name == "gap-dir"@ {
        Some(Modifier::GapDir)
    } else if name == "scale"@ {
        Some(Modifier::Scale)
    } else if name == "align"@ {
        Some(Modifier::Align)
    } else if name == "position"@ {
        Some(Modifier::Position)
    } else if name == "top"@ {
        Some(Modifier::Top)
    } else if name == "bottom"@ {
        Some(Modifier::Bottom)
    } else if name == "left"@ {
        Some(Modifier::Left)
    } else if name == "right"@ {
        Some(Modifier::Right)
    } else if name == "height"@ {
        Some(Modifier::Height)
    } else if name == "item-width"@ {
        Some(Modifier::ItemWidth)
    } else if name == "min-height"@ {
        Some(Modifier::MinHeight)
    } else if name == "max-height"@ {
        Some(Modifier::MaxHeight)
    } else if name == "side"@ {
        Some(Modifier::Side)
    } else if name == "side-width"@ {
        Some(Modifier::SideWidth)
    } else if name == "content-min"@ {
        Some(Modifier::ContentMin)
    } else if name == "threshold"@ {
        Some(Modifier::Threshold)
    } else if name == "limit"@ {
        Some(Modifier::Limit)
    } else if name == "justify"@ {
        Some(Modifier::Justify)
    } else if name == "template"@ {
        Some(Modifier::Template)
    } else if name == "align-self"@ {
        Some(Modifier::AlignSelf)
    } else if name == "bg-img"@ {
        Some(Modifier::BgImg)
    } else if name == "flex-basis"@ {
        Some(Modifier::FlexBasis)
    } else if name == "flex-grow"@ {
        Some(Modifier::FlexGrow)
    } else if name == "flex-shrink"@ {
        Some(Modifier::FlexShrink)
    } else if name == "font-size"@ {
        Some(Modifier::FontSize)
    } else if name == "h"@ {
        Some(Modifier::H)
    } else if name == "hide-over"@ {
        Some(Modifier::HideOver)
    } else if name == "hide-under"@ {
        Some(Modifier::HideUnder)
    } else if name == "line-height"@ {
        Some(Modifier::LineHeight)
    } else if name == "p"@ {
        Some(Modifier::P)
    } else if name == "pt"@ {
        Some(Modifier::PT)
    } else if name == "pb"@ {
        Some(Modifier::PB)
    } else if name == "pl"@ {
        Some(Modifier::PL)
    } else if name == "pr"@ {
        Some(Modifier::PR)
    } else if name == "px"@ {
        Some(Modifier::PX)
    } else if name == "py"@ {
        Some(Modifier::PY)
    } else if name == "p-child"@ {
        Some(Modifier::PChild)
    } else if name == "pt-child"@ {
        Some(Modifier::PTChild)
    } else if name == "pb-child"@ {
        Some(Modifier::PBChild)
    } else if name == "pl-child"@ {
        Some(Modifier::PLChild)
    } else if name == "pr-child"@ {
        Some(Modifier::PRChild)
    } else if name == "px-child"@ {
        Some(Modifier::PXChild)
    } else if name == "py-child"@ {
        Some(Modifier::PYChild)
    } else if name == "p-recursive"@ {
        Some(Modifier::PRecursive)
    } else if name == "pt-recursive"@ {
        Some(Modifier::PTRecursive)
    } else if name == "pb-recursive"@ {
        Some(Modifier::PBRecursive)
    } else if name == "pl-recursive"@ {
        Some(Modifier::PLRecursive)
    } else if name == "pr-recursive"@ {
        Some(Modifier::PRRecursive)
    } else if name == "px-recursive"@ {
        Some(Modifier::PXRecursive)
    } else if name == "py-recursive"@ {
        Some(Modifier::PYRecursive)
    } else if name == "ratio"@ {
        Some(Modifier::Ratio)
    } else if name == "w"@ {
        Some(Modifier::W)
    } else if name == "z-index"@ {
        Some(Modifier::ZIndex)
    } else {
        None
    }
}

/// The flag modifier written `name`, if any.
pub open spec fn flag_named(name: Seq<char>) -> Option<Modifier> {
    if name == "recursive"@ {
        Some(Modifier::Recursive)
    } else if name == "screen"@ {
        Some(Modifier::Screen)
    } else if name == "twin-width"@ {
        Some(Modifier::TwinWidth)
    } else if name == "nowrap"@ {
        Some(Modifier::NoWrap)
    } else if name == "hide-bar"@ {
        Some(Modifier::HideBar)
    } else if name == "and-text"@ {
        Some(Modifier::AndText)
    } else if name == "grow"@ {
        Some(Modifier::Grow)
    } else if name == "keep-p"@ {
        Some(Modifier::KeepP)
    } else if name == "keep-pl"@ {
        Some(Modifier::KeepPL)
    } else if name == "keep-pr"@ {
        Some(Modifier::KeepPR)
    } else if name == "keep-center"@ {
        Some(Modifier::KeepCenter)
    } else if name == "shrink"@ {
        Some(Modifier::Shrink)
    } else if name == "reverse"@ {
        Some(Modifier::Reverse)
    } else if name == "relative"@ {
        Some(Modifier::Relative)
    } else {
        None
    }
}

/// Whether `i` is the position of the first colon of `t`.
pub open spec fn is_first_colon(t: Seq<char>, i: int) -> bool {
    0 <= i < t.len() && t[i] == ':' && forall|k: int| 0 <= k < i ==> t[k] != ':'
}

/// The position of the first colon of `t`, if it has one.
pub open spec fn first_colon(t: Seq<char>) -> Option<int> {
    if exists|i: int| is_first_colon(t, i) {
        Some(choose|i: int| is_first_colon(t, i))
    } else {
        None
    }
}

/// What a token classifies to. With a colon, the name before the first colon
/// is looked up among the value-bearing modifiers and the rest is the value;
/// an empty value rejects the token, and a name that begins with `rows-` or
/// `cols-` gives a positional modifier that keeps the whole token. Without a
/// colon, the token is looked up among the flags.
pub open spec fn classified(t: Seq<char>) -> Option<ClassModel> {
    match first_colon(t) {
        Some(i) => {
            let name = t.take(i);
            let value = t.skip(i + 1);
            if value.len() == 0 {
                None
            } else {
                match valued_named(name) {
                    Some(m) => Some(ClassModel { modifier: m, value }),
                    None => if has_prefix(name, "rows-"@) {
                        Some(ClassModel { modifier: Modifier::Rows, value: t })
                    } else if has_prefix(name, "cols-"@) {
                        Some(ClassModel { modifier: Modifier::Cols, value: t })
                    } else {
                        None
                    },
                }
            }
        },
        None => match flag_named(t) {
            Some(m) => Some(ClassModel { modifier: m, value: Seq::empty() }),
            None => None,
        },
    }
}

/// The token that writes a classified modifier.
pub open spec fn token_text(c: ClassModel) -> Seq<char> {
    if is_positional(c.modifier) {
        c.value
    } else if is_flag(c.modifier) {
        modifier_name(c.modifier)
    } else {
        modifier_name(c.modifier) + seq![':'] + c.value
    }
}

pub proof fn lemma_first_colon(t: Seq<char>, i: int)
    requires
        is_first_colon(t, i),
    ensures
        first_colon(t) == Some(i),
{
    let j = choose|j: int| is_first_colon(t, j);
    assert(is_first_colon(t, j));
    if j < i {
        assert(t[j] != ':');
    }
    if i < j {
        assert(t[i] != ':');
    }
}

/// Classifying a token and writing the result out again gives back the token:
/// a value-bearing modifier splits at the first colon into its name and its
/// value. A token whose first colon ends it is always rejected.
pub proof fn lemma_classify_round_trip(t: Seq<char>)
    ensures
        classified(t) matches Some(c) ==> token_text(c) == t,
        classified(t) matches Some(c) ==> (!is_positional(c.modifier) && !is_flag(c.modifier)
            ==> (first_colon(t) matches Some(i) && modifier_name(c.modifier) == t.take(i)
            && c.value == t.skip(i + 1))),
        first_colon(t) == Some(t.len() - 1) ==> classified(t) is None,
{
    match first_colon(t) {
        Some(i) => {
            let j = choose|j: int| is_first_colon(t, j);
            assert(is_first_colon(t, j));
            lemma_first_colon(t, j);
            assert(t =~= t.take(i) + seq![':'] + t.skip(i + 1));
        },
        None => {},
    }
}

/// A modifier classified from a token of a layout attribute.
#[derive(Debug, Clone, Copy, PartialEq, Eq, Hash)]
pub enum LayoutClass<'a> {
    MaxWidth(&'a str),
    MinCellWidth(&'a str),
    MinCols(&'a str),
    MaxCols(&'a str),
    Gap(&'a str),
    GapX(&'a str),
    GapY(&'a str),
    GapDir(&'a str),
    Scale(&'a str),
    Align(&'a str),
    Position(&'a str),
    Top(&'a str),
    Bottom(&'a str),
    Left(&'a str),
    Right(&'a str),
    Height(&'a str),
    ItemWidth(&'a str),
    MinHeight(&'a str),
    MaxHeight(&'a str),
    Side(&'a str),
    SideWidth(&'a str),
    ContentMin(&'a str),
    Threshold(&'a str),
    Limit(&'a str),
    Justify(&'a str),
    Template(&'a str),
    Recursive,
    Screen,
    TwinWidth,
    NoWrap,
    HideBar,
    AndText,
    Grow,
    KeepP,
    KeepPL,
    KeepPR,
    KeepCenter,
    Shrink,
    Reverse,
    Rows(&'a str),
    Cols(&'a str),
    AlignSelf(&'a str),
    BgImg(&'a str),
    FlexBasis(&'a str),
    FlexGrow(&'a str),
    FlexShrink(&'a str),
    FontSize(&'a str),
    H(&'a str),
    HideOver(&'a str),
    HideUnder(&'a str),
    LineHeight(&'a str),
    P(&'a str),
    PT(&'a str),
    PB(&'a str),
    PL(&'a str),
    PR(&'a str),
    PX(&'a str),
    PY(&'a str),
    PChild(&'a str),
    PTChild(&'a str),
    PBChild(&'a str),
    PLChild(&'a str),
    PRChild(&'a str),
    PXChild(&'a str),
    PYChild(&'a str),
    PRecursive(&'a str),
    PTRecursive(&'a str),
    PBRecursive(&'a str),
    PLRecursive(&'a str),
    PRRecursive(&'a str),
    PXRecursive(&'a str),
    PYRecursive(&'a str),
    Ratio(&'a str),
    W(&'a str),
    ZIndex(&'a str),
    Relative,
}

impl<'a> View for LayoutClass<'a> {
    type V = ClassModel;

    open spec fn view(&self) -> ClassModel {
        match self {
            LayoutClass::MaxWidth(x) => ClassModel { modifier: Modifier::MaxWidth, value: x@ },
            LayoutClass::MinCellWidth(x) => ClassModel { modifier: Modifier::MinCellWidth, value: x@ },
            LayoutClass::MinCols(x) => ClassModel { modifier: Modifier::MinCols, value: x@ },
            LayoutClass::MaxCols(x) => ClassModel { modifier: Modifier::MaxCols, value: x@ },
            LayoutClass::Gap(x) => ClassModel { modifier: Modifier::Gap, value: x@ },
            LayoutClass::GapX(x) => ClassModel { modifier: Modifier::GapX, value: x@ },
            LayoutClass::GapY(x) => ClassModel { modifier: Modifier::GapY, value: x@ },
            LayoutClass::GapDir(x) => ClassModel { modifier: Modifier::GapDir, value: x@ },
            LayoutClass::Scale(x) => ClassModel { modifier: Modifier::Scale, value: x@ },
            LayoutClass::Align(x) => ClassModel { modifier: Modifier::Align, value: x@ },
            LayoutClass::Position(x) => ClassModel { modifier: Modifier::Position, value: x@ },
            LayoutClass::Top(x) => ClassModel { modifier: Modifier::Top, value: x@ },
            LayoutClass::Bottom(x) => ClassModel { modifier: Modifier::Bottom, value: x@ },
            LayoutClass::Left(x) => ClassModel { modifier: Modifier::Left, value: x@ },
            LayoutClass::Right(x) => ClassModel { modifier: Modifier::Right, value: x@ },
            LayoutClass::Height(x) => ClassModel { modifier: Modifier::Height, value: x@ },
            LayoutClass::ItemWidth(x) => ClassModel { modifier: Modifier::ItemWidth, value: x@ },
            LayoutClass::MinHeight(x) => ClassModel { modifier: Modifier::MinHeight, value: x@ },
            LayoutClass::MaxHeight(x) => ClassModel { modifier: Modifier::MaxHeight, value: x@ },
            LayoutClass::Side(x) => ClassModel { modifier: Modifier::Side, value: x@ },
            LayoutClass::SideWidth(x) => ClassModel { modifier: Modifier::SideWidth, value: x@ },
            LayoutClass::ContentMin(x) => ClassModel { modifier: Modifier::ContentMin, value: x@ },
            LayoutClass::Threshold(x) => ClassModel { modifier: Modifier::Threshold, value: x@ },
            LayoutClass::Limit(x) => ClassModel { modifier: Modifier::Limit, value: x@ },
            LayoutClass::Justify(x) => ClassModel { modifier: Modifier::Justify, value: x@ },
            LayoutClass::Template(x) => ClassModel { modifier: Modifier::Template, value: x@ },
            LayoutClass::Recursive => ClassModel { modifier: Modifier::Recursive, value: Seq::empty() },
            LayoutClass::Screen => ClassModel { modifier: Modifier::Screen, value: Seq::empty() },
            LayoutClass::TwinWidth => ClassModel { modifier: Modifier::TwinWidth, value: Seq::empty() },
            LayoutClass::NoWrap => ClassModel { modifier: Modifier::NoWrap, value: Seq::empty() },
            LayoutClass::HideBar => ClassModel { modifier: Modifier::HideBar, value: Seq::empty() },
            LayoutClass::AndText => ClassModel { modifier: Modifier::AndText, value: Seq::empty() },
            LayoutClass::Grow => ClassModel { modifier: Modifier::Grow, value: Seq::empty() },
            LayoutClass::KeepP => ClassModel { modifier: Modifier::KeepP, value: Seq::empty() },
            LayoutClass::KeepPL => ClassModel { modifier: Modifier::KeepPL, value: Seq::empty() },
            LayoutClass::KeepPR => ClassModel { modifier: Modifier::KeepPR, value: Seq::empty() },
            LayoutClass::KeepCenter => ClassModel { modifier: Modifier::KeepCenter, value: Seq::empty() },
            LayoutClass::Shrink => ClassModel { modifier: Modifier::Shrink, value: Seq::empty() },
            LayoutClass::Reverse => ClassModel { modifier: Modifier::Reverse, value: Seq::empty() },
            LayoutClass::Rows(x) => ClassModel { modifier: Modifier::Rows, value: x@ },
            LayoutClass::Cols(x) => ClassModel { modifier: Modifier::Cols, value: x@ },
            LayoutClass::AlignSelf(x) => ClassModel { modifier: Modifier::AlignSelf, value: x@ },
            LayoutClass::BgImg(x) => ClassModel { modifier: Modifier::BgImg, value: x@ },
            LayoutClass::FlexBasis(x) => ClassModel { modifier: Modifier::FlexBasis, value: x@ },
            LayoutClass::FlexGrow(x) => ClassModel { modifier: Modifier::FlexGrow, value: x@ },
            LayoutClass::FlexShrink(x) => ClassModel { modifier: Modifier::FlexShrink, value: x@ },
            LayoutClass::FontSize(x) => ClassModel { modifier: Modifier::FontSize, value: x@ },
            LayoutClass::H(x) => ClassModel { modifier: Modifier::H, value: x@ },
            LayoutClass::HideOver(x) => ClassModel { modifier: Modifier::HideOver, value: x@ },
            LayoutClass::HideUnder(x) => ClassModel { modifier: Modifier::HideUnder, value: x@ },
            LayoutClass::LineHeight(x) => ClassModel { modifier: Modifier::LineHeight, value: x@ },
            LayoutClass::P(x) => ClassModel { modifier: Modifier::P, value: x@ },
            LayoutClass::PT(x) => ClassModel { modifier: Modifier::PT, value: x@ },
            LayoutClass::PB(x) => ClassModel { modifier: Modifier::PB, value: x@ },
            LayoutClass::PL(x) => ClassModel { modifier: Modifier::PL, value: x@ },
            LayoutClass::PR(x) => ClassModel { modifier: Modifier::PR, value: x@ },
            LayoutClass::PX(x) => ClassModel { modifier: Modifier::PX, value: x@ },
            LayoutClass::PY(x) => ClassModel { modifier: Modifier::PY, value: x@ },
            LayoutClass::PChild(x) => ClassModel { modifier: Modifier::PChild, value: x@ },
            LayoutClass::PTChild(x) => ClassModel { modifier: Modifier::PTChild, value: x@ },
            LayoutClass::PBChild(x) => ClassModel { modifier: Modifier::PBChild, value: x@ },
            LayoutClass::PLChild(x) => ClassModel { modifier: Modifier::PLChild, value: x@ },
            LayoutClass::PRChild(x) => ClassModel { modifier: Modifier::PRChild, value: x@ },
            LayoutClass::PXChild(x) => ClassModel { modifier: Modifier::PXChild, value: x@ },
            LayoutClass::PYChild(x) => ClassModel { modifier: Modifier::PYChild, value: x@ },
            LayoutClass::PRecursive(x) => ClassModel { modifier: Modifier::PRecursive, value: x@ },
            LayoutClass::PTRecursive(x) => ClassModel { modifier: Modifier::PTRecursive, value: x@ },
            LayoutClass::PBRecursive(x) => ClassModel { modifier: Modifier::PBRecursive, value: x@ },
            LayoutClass::PLRecursive(x) => ClassModel { modifier: Modifier::PLRecursive, value: x@ },
            LayoutClass::PRRecursive(x) => ClassModel { modifier: Modifier::PRRecursive, value: x@ },
            LayoutClass::PXRecursive(x) => ClassModel { modifier: Modifier::PXRecursive, value: x@ },
            LayoutClass::PYRecursive(x) => ClassModel { modifier: Modifier::PYRecursive, value: x@ },
            LayoutClass::Ratio(x) => ClassModel { modifier: Modifier::Ratio, value: x@ },
            LayoutClass::W(x) => ClassModel { modifier: Modifier::W, value: x@ },
            LayoutClass::ZIndex(x) => ClassModel { modifier: Modifier::ZIndex, value: x@ },
            LayoutClass::Relative => ClassModel { modifier: Modifier::Relative, value: Seq::empty() },
        }
    }
}

/// The value-bearing modifier written `name`, if any.
fn valued_modifier(name: &str) -> (r: Option<Modifier>)
    ensures
        r == valued_named(name@),
{
    if str_eq(name, "max-width") {
        Some(Modifier::MaxWidth)
    } else if str_eq(name, "min-cell-width") {
        Some(Modifier::MinCellWidth)
    } else if str_eq(name, "min-cols") {
        Some(Modifier::MinCols)
    } else if str_eq(name, "max-cols") {
        Some(Modifier::MaxCols)
    } else if str_eq(name, "gap") {
        Some(Modifier::Gap)
    } else if str_eq(name, "gap-x") {
        Some(Modifier::GapX)
    } else if str_eq(name, "gap-y") {
        Some(Modifier::GapY)
    } else if str_eq(name, "gap-dir") {
        Some(Modifier::GapDir)
    } else if str_eq(name, "scale") {
        Some(Modifier::Scale)
    } else if str_eq(name, "align") {
        Some(Modifier::Align)
    } else if str_eq(name, "position") {
        Some(Modifier::Position)
    } else if str_eq(name, "top") {
        Some(Modifier::Top)
    } else if str_eq(name, "bottom") {
        Some(Modifier::Bottom)
    } else if str_eq(name, "left") {
        Some(Modifier::Left)
    } else if str_eq(name, "right") {
        Some(Modifier::Right)
    } else if str_eq(name, "height") {
        Some(Modifier::Height)
    } else if str_eq(name, "item-width") {
        Some(Modifier::ItemWidth)
    } else if str_eq(name, "min-height") {
        Some(Modifier::MinHeight)
    } else if str_eq(name, "max-height") {
        Some(Modifier::MaxHeight)
    } else if str_eq(name, "side") {
        Some(Modifier::Side)
    } else if str_eq(name, "side-width") {
        Some(Modifier::SideWidth)
    } else if str_eq(name, "content-min") {
        Some(Modifier::ContentMin)
    } else if str_eq(name, "threshold") {
        Some(Modifier::Threshold)
    } else if str_eq(name, "limit") {
        Some(Modifier::Limit)
    } else if str_eq(name, "justify") {
        Some(Modifier::Justify)
    } else if str_eq(name, "template") {
        Some(Modifier::Template)
    } else if str_eq(name, "align-self") {
        Some(Modifier::AlignSelf)
    } else if str_eq(name, "bg-img") {
        Some(Modifier::BgImg)
    } else if str_eq(name, "flex-basis") {
        Some(Modifier::FlexBasis)
    } else if str_eq(name, "flex-grow") {
        Some(Modifier::FlexGrow)
    } else if str_eq(name, "flex-shrink") {
        Some(Modifier::FlexShrink)
    } else if str_eq(name, "font-size") {
        Some(Modifier::FontSize)
    } else if str_eq(name, "h") {
        Some(Modifier::H)
    } else if str_eq(name, "hide-over") {
        Some(Modifier::HideOver)
    } else if str_eq(name, "hide-under") {
        Some(Modifier::HideUnder)
    } else if str_eq(name, "line-height") {
        Some(Modifier::LineHeight)
    } else if str_eq(name, "p") {
        Some(Modifier::P)
    } else if str_eq(name, "pt") {
        Some(Modifier::PT)
    } else if str_eq(name, "pb") {
        Some(Modifier::PB)
    } else if str_eq(name, "pl") {
        Some(Modifier::PL)
    } else if str_eq(name, "pr") {
        Some(Modifier::PR)
    } else if str_eq(name, "px") {
        Some(Modifier::PX)
    } else if str_eq(name, "py") {
        Some(Modifier::PY)
    } else if str_eq(name, "p-child") {
        Some(Modifier::PChild)
    } else if str_eq(name, "pt-child") {
        Some(Modifier::PTChild)
    } else if str_eq(name, "pb-child") {
        Some(Modifier::PBChild)
    } else if str_eq(name, "pl-child") {
        Some(Modifier::PLChild)
    } else if str_eq(name, "pr-child") {
        Some(Modifier::PRChild)
    } else if str_eq(name, "px-child") {
        Some(Modifier::PXChild)
    } else if str_eq(name, "py-child") {
        Some(Modifier::PYChild)
    } else if str_eq(name, "p-recursive") {
        Some(Modifier::PRecursive)
    } else if str_eq(name, "pt-recursive") {
        Some(Modifier::PTRecursive)
    } else if str_eq(name, "pb-recursive") {
        Some(Modifier::PBRecursive)
    } else if str_eq(name, "pl-recursive") {
        Some(Modifier::PLRecursive)
    } else if str_eq(name, "pr-recursive") {
        Some(Modifier::PRRecursive)
    } else if str_eq(name, "px-recursive") {
        Some(Modifier::PXRecursive)
    } else if str_eq(name, "py-recursive") {
        Some(Modifier::PYRecursive)
    } else if str_eq(name, "ratio") {
        Some(Modifier::Ratio)
    } else if str_eq(name, "w") {
        Some(Modifier::W)
    } else if str_eq(name, "z-index") {
        Some(Modifier::ZIndex)
    } else {
        None
    }
}

/// The flag modifier written `name`, if any.
fn flag_modifier(name: &str) -> (r: Option<Modifier>)
    ensures
        r == flag_named(name@),
{
    if str_eq(name, "recursive") {
        Some(Modifier::Recursive)
    } else if str_eq(name, "screen") {
        Some(Modifier::Screen)
    } else if str_eq(name, "twin-width") {
        Some(Modifier::TwinWidth)
    } else if str_eq(name, "nowrap") {
        Some(Modifier::NoWrap)
    } else if str_eq(name, "hide-bar") {
        Some(Modifier::HideBar)
    } else if str_eq(name, "and-text") {
        Some(Modifier::AndText)
    } else if str_eq(name, "grow") {
        Some(Modifier::Grow)
    } else if str_eq(name, "keep-p") {
        Some(Modifier::KeepP)
    } else if str_eq(name, "keep-pl") {
        Some(Modifier::KeepPL)
    } else if str_eq(name, "keep-pr") {
        Some(Modifier::KeepPR)
    } else if str_eq(name, "keep-center") {
        Some(Modifier::KeepCenter)
    } else if str_eq(name, "shrink") {
        Some(Modifier::Shrink)
    } else if str_eq(name, "reverse") {
        Some(Modifier::Reverse)
    } else if str_eq(name, "relative") {
        Some(Modifier::Relative)
    } else {
        None
    }
}

impl<'a> LayoutClass<'a> {
    /// The modifier this class stands for.
    pub fn modifier(&self) -> (r: Modifier)
        ensures
            r == self@.modifier,
    {
        match self {
            LayoutClass::MaxWidth(_) => Modifier::MaxWidth,
            LayoutClass::MinCellWidth(_) => Modifier::MinCellWidth,
            LayoutClass::MinCols(_) => Modifier::MinCols,
            LayoutClass::MaxCols(_) => Modifier::MaxCols,
            LayoutClass::Gap(_) => Modifier::Gap,
            LayoutClass::GapX(_) => Modifier::GapX,
            LayoutClass::GapY(_) => Modifier::GapY,
            LayoutClass::GapDir(_) => Modifier::GapDir,
            LayoutClass::Scale(_) => Modifier::Scale,
            LayoutClass::Align(_) => Modifier::Align,
            LayoutClass::Position(_) => Modifier::Position,
            LayoutClass::Top(_) => Modifier::Top,
            LayoutClass::Bottom(_) => Modifier::Bottom,
            LayoutClass::Left(_) => Modifier::Left,
            LayoutClass::Right(_) => Modifier::Right,
            LayoutClass::Height(_) => Modifier::Height,
            LayoutClass::ItemWidth(_) => Modifier::ItemWidth,
            LayoutClass::MinHeight(_) => Modifier::MinHeight,
            LayoutClass::MaxHeight(_) => Modifier::MaxHeight,
            LayoutClass::Side(_) => Modifier::Side,
            LayoutClass::SideWidth(_) => Modifier::SideWidth,
            LayoutClass::ContentMin(_) => Modifier::ContentMin,
            LayoutClass::Threshold(_) => Modifier::Threshold,
            LayoutClass::Limit(_) => Modifier::Limit,
            LayoutClass::Justify(_) => Modifier::Justify,
            LayoutClass::Template(_) => Modifier::Template,
            LayoutClass::Recursive => Modifier::Recursive,
            LayoutClass::Screen => Modifier::Screen,
            LayoutClass::TwinWidth => Modifier::TwinWidth,
            LayoutClass::NoWrap => Modifier::NoWrap,
            LayoutClass::HideBar => Modifier::HideBar,
            LayoutClass::AndText => Modifier::AndText,
            LayoutClass::Grow => Modifier::Grow,
            LayoutClass::KeepP => Modifier::KeepP,
            LayoutClass::KeepPL => Modifier::KeepPL,
            LayoutClass::KeepPR => Modifier::KeepPR,
            LayoutClass::KeepCenter => Modifier::KeepCenter,
            LayoutClass::Shrink => Modifier::Shrink,
            LayoutClass::Reverse => Modifier::Reverse,
            LayoutClass::Rows(_) => Modifier::Rows,
            LayoutClass::Cols(_) => Modifier::Cols,
            LayoutClass::AlignSelf(_) => Modifier::AlignSelf,
            LayoutClass::BgImg(_) => Modifier::BgImg,
            LayoutClass::FlexBasis(_) => Modifier::FlexBasis,
            LayoutClass::FlexGrow(_) => Modifier::FlexGrow,
            LayoutClass::FlexShrink(_) => Modifier::FlexShrink,
            LayoutClass::FontSize(_) => Modifier::FontSize,
            LayoutClass::H(_) => Modifier::H,
            LayoutClass::HideOver(_) => Modifier::HideOver,
            LayoutClass::HideUnder(_) => Modifier::HideUnder,
            LayoutClass::LineHeight(_) => Modifier::LineHeight,
            LayoutClass::P(_) => Modifier::P,
            LayoutClass::PT(_) => Modifier::PT,
            LayoutClass::PB(_) => Modifier::PB,
            LayoutClass::PL(_) => Modifier::PL,
            LayoutClass::PR(_) => Modifier::PR,
            LayoutClass::PX(_) => Modifier::PX,
            LayoutClass::PY(_) => Modifier::PY,
            LayoutClass::PChild(_) => Modifier::PChild,
            LayoutClass::PTChild(_) => Modifier::PTChild,
            LayoutClass::PBChild(_) => Modifier::PBChild,
            LayoutClass::PLChild(_) => Modifier::PLChild,
            LayoutClass::PRChild(_) => Modifier::PRChild,
            LayoutClass::PXChild(_) => Modifier::PXChild,
            LayoutClass::PYChild(_) => Modifier::PYChild,
            LayoutClass::PRecursive(_) => Modifier::PRecursive,
            LayoutClass::PTRecursive(_) => Modifier::PTRecursive,
            LayoutClass::PBRecursive(_) => Modifier::PBRecursive,
            LayoutClass::PLRecursive(_) => Modifier::PLRecursive,
            LayoutClass::PRRecursive(_) => Modifier::PRRecursive,
            LayoutClass::PXRecursive(_) => Modifier::PXRecursive,
            LayoutClass::PYRecursive(_) => Modifier::PYRecursive,
            LayoutClass::Ratio(_) => Modifier::Ratio,
            LayoutClass::W(_) => Modifier::W,
            LayoutClass::ZIndex(_) => Modifier::ZIndex,
            LayoutClass::Relative => Modifier::Relative,
        }
    }

    /// The payload of a value-bearing class; `None` for a flag.
    pub fn value(&self) -> (r: Option<&'a str>)
        ensures
            r is Some <==> !is_flag(self@.modifier),
            r matches Some(v) ==> v@ == self@.value,
    {
        match self {
            LayoutClass::MaxWidth(x) => Some(*x),
            LayoutClass::MinCellWidth(x) => Some(*x),
            LayoutClass::MinCols(x) => Some(*x),
            LayoutClass::MaxCols(x) => Some(*x),
            LayoutClass::Gap(x) => Some(*x),
            LayoutClass::GapX(x) => Some(*x),
            LayoutClass::GapY(x) => Some(*x),
            LayoutClass::GapDir(x) => Some(*x),
            LayoutClass::Scale(x) => Some(*x),
            LayoutClass::Align(x) => Some(*x),
            LayoutClass::Position(x) => Some(*x),
            LayoutClass::Top(x) => Some(*x),
            LayoutClass::Bottom(x) => Some(*x),
            LayoutClass::Left(x) => Some(*x),
            LayoutClass::Right(x) => Some(*x),
            LayoutClass::Height(x) => Some(*x),
            LayoutClass::ItemWidth(x) => Some(*x),
            LayoutClass::MinHeight(x) => Some(*x),
            LayoutClass::MaxHeight(x) => Some(*x),
            LayoutClass::Side(x) => Some(*x),
            LayoutClass::SideWidth(x) => Some(*x),
            LayoutClass::ContentMin(x) => Some(*x),
            LayoutClass::Threshold(x) => Some(*x),
            LayoutClass::Limit(x) => Some(*x),
            LayoutClass::Justify(x) => Some(*x),
            LayoutClass::Template(x) => Some(*x),
            LayoutClass::Recursive => None,
            LayoutClass::Screen => None,
            LayoutClass::TwinWidth => None,
            LayoutClass::NoWrap => None,
            LayoutClass::HideBar => None,
            LayoutClass::AndText => None,
            LayoutClass::Grow => None,
            LayoutClass::KeepP => None,
            LayoutClass::KeepPL => None,
            LayoutClass::KeepPR => None,
            LayoutClass::KeepCenter => None,
            LayoutClass::Shrink => None,
            LayoutClass::Reverse => None,
            LayoutClass::Rows(x) => Some(*x),
            LayoutClass::Cols(x) => Some(*x),
            LayoutClass::AlignSelf(x) => Some(*x),
            LayoutClass::BgImg(x) => Some(*x),
            LayoutClass::FlexBasis(x) => Some(*x),
            LayoutClass::FlexGrow(x) => Some(*x),
            LayoutClass::FlexShrink(x) => Some(*x),
            LayoutClass::FontSize(x) => Some(*x),
            LayoutClass::H(x) => Some(*x),
            LayoutClass::HideOver(x) => Some(*x),
            LayoutClass::HideUnder(x) => Some(*x),
            LayoutClass::LineHeight(x) => Some(*x),
            LayoutClass::P(x) => Some(*x),
            LayoutClass::PT(x) => Some(*x),
            LayoutClass::PB(x) => Some(*x),
            LayoutClass::PL(x) => Some(*x),
            LayoutClass::PR(x) => Some(*x),
            LayoutClass::PX(x) => Some(*x),
            LayoutClass::PY(x) => Some(*x),
            LayoutClass::PChild(x) => Some(*x),
            LayoutClass::PTChild(x) => Some(*x),
            LayoutClass::PBChild(x) => Some(*x),
            LayoutClass::PLChild(x) => Some(*x),
            LayoutClass::PRChild(x) => Some(*x),
            LayoutClass::PXChild(x) => Some(*x),
            LayoutClass::PYChild(x) => Some(*x),
            LayoutClass::PRecursive(x) => Some(*x),
            LayoutClass::PTRecursive(x) => Some(*x),
            LayoutClass::PBRecursive(x) => Some(*x),
            LayoutClass::PLRecursive(x) => Some(*x),
            LayoutClass::PRRecursive(x) => Some(*x),
            LayoutClass::PXRecursive(x) => Some(*x),
            LayoutClass::PYRecursive(x) => Some(*x),
            LayoutClass::Ratio(x) => Some(*x),
            LayoutClass::W(x) => Some(*x),
            LayoutClass::ZIndex(x) => Some(*x),
            LayoutClass::Relative => None,
        }
    }

    /// The class of a value-bearing modifier with its payload.
    fn with_value(m: Modifier, v: &'a str) -> (r: Self)
        requires
            !is_flag(m),
        ensures
            r@ == (ClassModel { modifier: m, value: v@ }),
    {
        match m {
            Modifier::MaxWidth => LayoutClass::MaxWidth(v),
            Modifier::MinCellWidth => LayoutClass::MinCellWidth(v),
            Modifier::MinCols => LayoutClass::MinCols(v),
            Modifier::MaxCols => LayoutClass::MaxCols(v),
            Modifier::Gap => LayoutClass::Gap(v),
            Modifier::GapX => LayoutClass::GapX(v),
            Modifier::GapY => LayoutClass::GapY(v),
            Modifier::GapDir => LayoutClass::GapDir(v),
            Modifier::Scale => LayoutClass::Scale(v),
            Modifier::Align => LayoutClass::Align(v),
            Modifier::Position => LayoutClass::Position(v),
            Modifier::Top => LayoutClass::Top(v),
            Modifier::Bottom => LayoutClass::Bottom(v),
            Modifier::Left => LayoutClass::Left(v),
            Modifier::Right => LayoutClass::Right(v),
            Modifier::Height => LayoutClass::Height(v),
            Modifier::ItemWidth => LayoutClass::ItemWidth(v),
            Modifier::MinHeight => LayoutClass::MinHeight(v),
            Modifier::MaxHeight => LayoutClass::MaxHeight(v),
            Modifier::Side => LayoutClass::Side(v),
            Modifier::SideWidth => LayoutClass::SideWidth(v),
            Modifier::ContentMin => LayoutClass::ContentMin(v),
            Modifier::Threshold => LayoutClass::Threshold(v),
            Modifier::Limit => LayoutClass::Limit(v),
            Modifier::Justify => LayoutClass::Justify(v),
            Modifier::Template => LayoutClass::Template(v),
            Modifier::Rows => LayoutClass::Rows(v),
            Modifier::Cols => LayoutClass::Cols(v),
            Modifier::AlignSelf => LayoutClass::AlignSelf(v),
            Modifier::BgImg => LayoutClass::BgImg(v),
            Modifier::FlexBasis => LayoutClass::FlexBasis(v),
            Modifier::FlexGrow => LayoutClass::FlexGrow(v),
            Modifier::FlexShrink => LayoutClass::FlexShrink(v),
            Modifier::FontSize => LayoutClass::FontSize(v),
            Modifier::H => LayoutClass::H(v),
            Modifier::HideOver => LayoutClass::HideOver(v),
            Modifier::HideUnder => LayoutClass::HideUnder(v),
            Modifier::LineHeight => LayoutClass::LineHeight(v),
            Modifier::P => LayoutClass::P(v),
            Modifier::PT => LayoutClass::PT(v),
            Modifier::PB => LayoutClass::PB(v),
            Modifier::PL => LayoutClass::PL(v),
            Modifier::PR => LayoutClass::PR(v),
            Modifier::PX => LayoutClass::PX(v),
            Modifier::PY => LayoutClass::PY(v),
            Modifier::PChild => LayoutClass::PChild(v),
            Modifier::PTChild => LayoutClass::PTChild(v),
            Modifier::PBChild => LayoutClass::PBChild(v),
            Modifier::PLChild => LayoutClass::PLChild(v),
            Modifier::PRChild => LayoutClass::PRChild(v),
            Modifier::PXChild => LayoutClass::PXChild(v),
            Modifier::PYChild => LayoutClass::PYChild(v),
            Modifier::PRecursive => LayoutClass::PRecursive(v),
            Modifier::PTRecursive => LayoutClass::PTRecursive(v),
            Modifier::PBRecursive => LayoutClass::PBRecursive(v),
            Modifier::PLRecursive => LayoutClass::PLRecursive(v),
            Modifier::PRRecursive => LayoutClass::PRRecursive(v),
            Modifier::PXRecursive => LayoutClass::PXRecursive(v),
            Modifier::PYRecursive => LayoutClass::PYRecursive(v),
            Modifier::Ratio => LayoutClass::Ratio(v),
            Modifier::W => LayoutClass::W(v),
            Modifier::ZIndex => LayoutClass::ZIndex(v),
            _ => LayoutClass::Relative,
        }
    }

    /// The class of a flag modifier.
    fn flag(m: Modifier) -> (r: Self)
        requires
            is_flag(m),
        ensures
            r@ == (ClassModel { modifier: m, value: Seq::empty() }),
    {
        match m {
            Modifier::Recursive => LayoutClass::Recursive,
            Modifier::Screen => LayoutClass::Screen,
            Modifier::TwinWidth => LayoutClass::TwinWidth,
            Modifier::NoWrap => LayoutClass::NoWrap,
            Modifier::HideBar => LayoutClass::HideBar,
            Modifier::AndText => LayoutClass::AndText,
            Modifier::Grow => LayoutClass::Grow,
            Modifier::KeepP => LayoutClass::KeepP,
            Modifier::KeepPL => LayoutClass::KeepPL,
            Modifier::KeepPR => LayoutClass::KeepPR,
            Modifier::KeepCenter => LayoutClass::KeepCenter,
            Modifier::Shrink => LayoutClass::Shrink,
            Modifier::Reverse => LayoutClass::Reverse,
            Modifier::Relative => LayoutClass::Relative,
            _ => LayoutClass::Relative,
        }
    }

    /// Classifies one token: `name` or `name:value`. `None` where the name is
    /// unknown, or where a colon is followed by nothing.
    pub fn classify(input: &'a str) -> (r: Option<LayoutClass<'a>>)
        ensures
            match r {
                Some(c) => classified(input@) == Some(c@),
                None => classified(input@) is None,
            },
    {
        let chars = chars_of(input);
        let n = chars.len();
        let mut i: usize = 0;
        while i < n && chars[i] != ':'
            invariant
                chars@ == input@,
                n == chars.len(),
                i <= n,
                forall|k: int| 0 <= k < i ==> chars@[k] != ':',
            decreases n - i,
        {
            i = i + 1;
        }
        if i < n {
            proof {
                lemma_first_colon(input@, i as int);
            }
            if n <= i + 1 {
                return None;
            }
            let name = input.substring_char(0, i);
            let value = input.substring_char(i + 1, n);
            assert(name@ == input@.take(i as int));
            match valued_modifier(name) {
                Some(m) => Some(LayoutClass::with_value(m, value)),
                None => {
                    if starts_with(name, "rows-") {
                        Some(LayoutClass::Rows(input))
                    } else if starts_with(name, "cols-") {
                        Some(LayoutClass::Cols(input))
                    } else {
                        None
                    }
                },
            }
        } else {
            assert(first_colon(input@) is None) by {
                if exists|j: int| is_first_colon(input@, j) {
                    let j = choose|j: int| is_first_colon(input@, j);
                    assert(chars@[j] != ':');
                }
            }
            match flag_modifier(input) {
                Some(m) => Some(LayoutClass::flag(m)),
                None => None,
            }
        }
    }
}

impl<'a> TryFrom<&'a str> for LayoutClass<'a> {
    type Error = ();

    fn try_from(input: &'a str) -> Result<LayoutClass<'a>, ()> {
        match LayoutClass::classify(input) {
            Some(c) => Ok(c),
            None => Err(()),
        }
    }
}

impl<'a> vstd::std_specs::convert::TryFromSpecImpl<&'a str> for LayoutClass<'a> {
    open spec fn obeys_try_from_spec() -> bool {
        false
    }

    open spec fn try_from_spec(v: &'a str) -> Result<LayoutClass<'a>, ()> {
        Err(())
    }
}

} // verus!
