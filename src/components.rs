//! The layout components a tag name can denote, and how a modifier sets one
//! of their fields.
use vstd::prelude::*;

use crate::classes::{ClassModel, LayoutClass, Modifier};
use crate::text::{opt_str, str_eq};

verus! {

/// The kinds of layout component.
#[derive(Debug, Clone, Copy, PartialEq, Eq, Hash, Structural)]
pub enum ComponentKind {
    Area,
    Box,
    Center,
    Extender,
    Grid,
    Icon,
    Ledge,
    Outsider,
    Rack,
    Sidebar,
    Slider,
    Stack,
    Switcher,
}

/// A layout component with the fields that modifiers have set.
#[derive(Debug, Clone, PartialEq, Eq, Hash)]
pub enum Component<'a> {
    Area {
        template: Option<&'a str>,
        rows: Vec<&'a str>,
        cols: Vec<&'a str>,
        gap: Option<&'a str>,
        gap_x: Option<&'a str>,
        gap_y: Option<&'a str>,
    },
    Box {
        max_width: Option<&'a str>,
        grow: bool,
    },
    Center {
        max_width: Option<&'a str>,
        and_text: bool,
        recursive: bool,
    },
    Extender {
        screen: bool,
        keep_center: bool,
        keep_p: bool,
        keep_pl: bool,
        keep_pr: bool,
    },
    Grid {
        min_cell_width: Option<&'a str>,
        min_cols: Option<&'a str>,
        max_cols: Option<&'a str>,
        gap: Option<&'a str>,
        gap_x: Option<&'a str>,
        gap_y: Option<&'a str>,
    },
    Icon {
        scale: Option<&'a str>,
        align: Option<&'a str>,
        gap_dir: Option<&'a str>,
        gap: Option<&'a str>,
    },
    Ledge {
        nowrap: bool,
        twin_width: bool,
        direction: Option<&'a str>,
        justify: Option<&'a str>,
        align: Option<&'a str>,
        gap: Option<&'a str>,
        gap_x: Option<&'a str>,
        gap_y: Option<&'a str>,
    },
    Outsider {
        position: Option<&'a str>,
        top: Option<&'a str>,
        bottom: Option<&'a str>,
        left: Option<&'a str>,
        right: Option<&'a str>,
    },
    Rack {
        height: Option<&'a str>,
        min_height: Option<&'a str>,
        max_height: Option<&'a str>,
        gap: Option<&'a str>,
    },
    Sidebar {
        reverse: bool,
        shrink: bool,
        side: Option<&'a str>,
        side_width: Option<&'a str>,
        content_min: Option<&'a str>,
        gap: Option<&'a str>,
        gap_x: Option<&'a str>,
        gap_y: Option<&'a str>,
    },
    Slider {
        hide_bar: bool,
        item_width: Option<&'a str>,
        height: Option<&'a str>,
        gap: Option<&'a str>,
    },
    Stack {
        gap: Option<&'a str>,
        recursive: bool,
    },
    Switcher {
        threshold: Option<&'a str>,
        limit: Option<&'a str>,
        reverse: bool,
        gap: Option<&'a str>,
        gap_x: Option<&'a str>,
        gap_y: Option<&'a str>,
    },
}

/// A component as plain values.
pub enum ComponentModel {
    Area {
        template: Option<Seq<char>>,
        rows: Seq<Seq<char>>,
        cols: Seq<Seq<char>>,
        gap: Option<Seq<char>>,
        gap_x: Option<Seq<char>>,
        gap_y: Option<Seq<char>>,
    },
    Box {
        max_width: Option<Seq<char>>,
        grow: bool,
    },
    Center {
        max_width: Option<Seq<char>>,
        and_text: bool,
        recursive: bool,
    },
    Extender {
        screen: bool,
        keep_center: bool,
        keep_p: bool,
        keep_pl: bool,
        keep_pr: bool,
    },
    Grid {
        min_cell_width: Option<Seq<char>>,
        min_cols: Option<Seq<char>>,
        max_cols: Option<Seq<char>>,
        gap: Option<Seq<char>>,
        gap_x: Option<Seq<char>>,
        gap_y: Option<Seq<char>>,
    },
    Icon {
        scale: Option<Seq<char>>,
        align: Option<Seq<char>>,
        gap_dir: Option<Seq<char>>,
        gap: Option<Seq<char>>,
    },
    Ledge {
        nowrap: bool,
        twin_width: bool,
        direction: Option<Seq<char>>,
        justify: Option<Seq<char>>,
        align: Option<Seq<char>>,
        gap: Option<Seq<char>>,
        gap_x: Option<Seq<char>>,
        gap_y: Option<Seq<char>>,
    },
    Outsider {
        position: Option<Seq<char>>,
        top: Option<Seq<char>>,
        bottom: Option<Seq<char>>,
        left: Option<Seq<char>>,
        right: Option<Seq<char>>,
    },
    Rack {
        height: Option<Seq<char>>,
        min_height: Option<Seq<char>>,
        max_height: Option<Seq<char>>,
        gap: Option<Seq<char>>,
    },
    Sidebar {
        reverse: bool,
        shrink: bool,
        side: Option<Seq<char>>,
        side_width: Option<Seq<char>>,
        content_min: Option<Seq<char>>,
        gap: Option<Seq<char>>,
        gap_x: Option<Seq<char>>,
        gap_y: Option<Seq<char>>,
    },
    Slider {
        hide_bar: bool,
        item_width: Option<Seq<char>>,
        height: Option<Seq<char>>,
        gap: Option<Seq<char>>,
    },
    Stack {
        gap: Option<Seq<char>>,
        recursive: bool,
    },
    Switcher {
        threshold: Option<Seq<char>>,
        limit: Option<Seq<char>>,
        reverse: bool,
        gap: Option<Seq<char>>,
        gap_x: Option<Seq<char>>,
        gap_y: Option<Seq<char>>,
    },
}

/// The characters of each string of a list.
pub open spec fn list_view(l: Seq<&str>) -> Seq<Seq<char>> {
    l.map_values(|s: &str| s@)
}

impl<'a> View for Component<'a> {
    type V = ComponentModel;

    open spec fn view(&self) -> ComponentModel {
        match self {
            Component::Area { template, rows, cols, gap, gap_x, gap_y } => ComponentModel::Area {
                template: opt_str(*template),
                rows: list_view(rows@),
                cols: list_view(cols@),
                gap: opt_str(*gap),
                gap_x: opt_str(*gap_x),
                gap_y: opt_str(*gap_y),
            },
            Component::Box { max_width, grow } => ComponentModel::Box {
                max_width: opt_str(*max_width),
                grow: *grow,
            },
            Component::Center { max_width, and_text, recursive } => ComponentModel::Center {
                max_width: opt_str(*max_width),
                and_text: *and_text,
                recursive: *recursive,
            },
            Component::Extender { screen, keep_center, keep_p, keep_pl, keep_pr } => ComponentModel::Extender {
                screen: *screen,
                keep_center: *keep_center,
                keep_p: *keep_p,
                keep_pl: *keep_pl,
                keep_pr: *keep_pr,
            },
            Component::Grid { min_cell_width, min_cols, max_cols, gap, gap_x, gap_y } => ComponentModel::Grid {
                min_cell_width: opt_str(*min_cell_width),
                min_cols: opt_str(*min_cols),
                max_cols: opt_str(*max_cols),
                gap: opt_str(*gap),
                gap_x: opt_str(*gap_x),
                gap_y: opt_str(*gap_y),
            },
            Component::Icon { scale, align, gap_dir, gap } => ComponentModel::Icon {
                scale: opt_str(*scale),
                align: opt_str(*align),
                gap_dir: opt_str(*gap_dir),
                gap: opt_str(*gap),
            },
            Component::Ledge { nowrap, twin_width, direction, justify, align, gap, gap_x, gap_y } => ComponentModel::Ledge {
                nowrap: *nowrap,
                twin_width: *twin_width,
                direction: opt_str(*direction),
                justify: opt_str(*justify),
                align: opt_str(*align),
                gap: opt_str(*gap),
                gap_x: opt_str(*gap_x),
                gap_y: opt_str(*gap_y),
            },
            Component::Outsider { position, top, bottom, left, right } => ComponentModel::Outsider {
                position: opt_str(*position),
                top: opt_str(*top),
                bottom: opt_str(*bottom),
                left: opt_str(*left),
                right: opt_str(*right),
            },
            Component::Rack { height, min_height, max_height, gap } => ComponentModel::Rack {
                height: opt_str(*height),
                min_height: opt_str(*min_height),
                max_height: opt_str(*max_height),
                gap: opt_str(*gap),
            },
            Component::Sidebar { reverse, shrink, side, side_width, content_min, gap, gap_x, gap_y } => ComponentModel::Sidebar {
                reverse: *reverse,
                shrink: *shrink,
                side: opt_str(*side),
                side_width: opt_str(*side_width),
                content_min: opt_str(*content_min),
                gap: opt_str(*gap),
                gap_x: opt_str(*gap_x),
                gap_y: opt_str(*gap_y),
            },
            Component::Slider { hide_bar, item_width, height, gap } => ComponentModel::Slider {
                hide_bar: *hide_bar,
                item_width: opt_str(*item_width),
                height: opt_str(*height),
                gap: opt_str(*gap),
            },
            Component::Stack { gap, recursive } => ComponentModel::Stack {
                gap: opt_str(*gap),
                recursive: *recursive,
            },
            Component::Switcher { threshold, limit, reverse, gap, gap_x, gap_y } => ComponentModel::Switcher {
                threshold: opt_str(*threshold),
                limit: opt_str(*limit),
                reverse: *reverse,
                gap: opt_str(*gap),
                gap_x: opt_str(*gap_x),
                gap_y: opt_str(*gap_y),
            },
        }
    }
}

/// The kind of a component.
pub open spec fn kind_of(c: ComponentModel) -> ComponentKind {
    match c {
        ComponentModel::Area { .. } => ComponentKind::Area,
        ComponentModel::Box { .. } => ComponentKind::Box,
        ComponentModel::Center { .. } => ComponentKind::Center,
        ComponentModel::Extender { .. } => ComponentKind::Extender,
        ComponentModel::Grid { .. } => ComponentKind::Grid,
        ComponentModel::Icon { .. } => ComponentKind::Icon,
        ComponentModel::Ledge { .. } => ComponentKind::Ledge,
        ComponentModel::Outsider { .. } => ComponentKind::Outsider,
        ComponentModel::Rack { .. } => ComponentKind::Rack,
        ComponentModel::Sidebar { .. } => ComponentKind::Sidebar,
        ComponentModel::Slider { .. } => ComponentKind::Slider,
        ComponentModel::Stack { .. } => ComponentKind::Stack,
        ComponentModel::Switcher { .. } => ComponentKind::Switcher,
    }
}

/// The kind of component that a tag name denotes, if any.
pub open spec fn kind_named(tag: Seq<char>) -> Option<ComponentKind> {
    if tag == "area-l"@ {
        Some(ComponentKind::Area)
    } else if tag == "box-l"@ {
        Some(ComponentKind::Box)
    } else if tag == "center-l"@ {
        Some(ComponentKind::Center)
    } else if tag == "extender-l"@ {
        Some(ComponentKind::Extender)
    } else if tag == "grid-l"@ {
        Some(ComponentKind::Grid)
    } else if tag == "icon-l"@ {
        Some(ComponentKind::Icon)
    } else if tag == "ledge-l"@ || tag == "row-l"@ {
        Some(ComponentKind::Ledge)
    } else if tag == "outsider-l"@ {
        Some(ComponentKind::Outsider)
    } else if tag == "rack-l"@ {
        Some(ComponentKind::Rack)
    } else if tag == "sidebar-l"@ {
        Some(ComponentKind::Sidebar)
    } else if tag == "slider-l"@ {
        Some(ComponentKind::Slider)
    } else if tag == "stack-l"@ {
        Some(ComponentKind::Stack)
    } else if tag == "switcher-l"@ {
        Some(ComponentKind::Switcher)
    } else {
        None
    }
}

/// A component of the given kind with no field set.
pub open spec fn fresh(k: ComponentKind) -> ComponentModel {
    match k {
        ComponentKind::Area => ComponentModel::Area {
            template: None,
            rows: Seq::empty(),
            cols: Seq::empty(),
            gap: None,
            gap_x: None,
            gap_y: None,
        },
        ComponentKind::Box => ComponentModel::Box {
            max_width: None,
            grow: false,
        },
        ComponentKind::Center => ComponentModel::Center {
            max_width: None,
            and_text: false,
            recursive: false,
        },
        ComponentKind::Extender => ComponentModel::Extender {
            screen: false,
            keep_center: false,
            keep_p: false,
            keep_pl: false,
            keep_pr: false,
        },
        ComponentKind::Grid => ComponentModel::Grid {
            min_cell_width: None,
            min_cols: None,
            max_cols: None,
            gap: None,
            gap_x: None,
            gap_y: None,
        },
        ComponentKind::Icon => ComponentModel::Icon {
            scale: None,
            align: None,
            gap_dir: None,
            gap: None,
        },
        ComponentKind::Ledge => ComponentModel::Ledge {
            nowrap: false,
            twin_width: false,
            direction: None,
            justify: None,
            align: None,
            gap: None,
            gap_x: None,
            gap_y: None,
        },
        ComponentKind::Outsider => ComponentModel::Outsider {
            position: None,
            top: None,
            bottom: None,
            left: None,
            right: None,
        },
        ComponentKind::Rack => ComponentModel::Rack {
            height: None,
            min_height: None,
            max_height: None,
            gap: None,
        },
        ComponentKind::Sidebar => ComponentModel::Sidebar {
            reverse: false,
            shrink: false,
            side: None,
            side_width: None,
            content_min: None,
            gap: None,
            gap_x: None,
            gap_y: None,
        },
        ComponentKind::Slider => ComponentModel::Slider {
            hide_bar: false,
            item_width: None,
            height: None,
            gap: None,
        },
        ComponentKind::Stack => ComponentModel::Stack {
            gap: None,
            recursive: false,
        },
        ComponentKind::Switcher => ComponentModel::Switcher {
            threshold: None,
            limit: None,
            reverse: false,
            gap: None,
            gap_x: None,
            gap_y: None,
        },
    }
}

/// Whether a component of kind `k` has a field that modifier `m` sets.
pub open spec fn accepts(k: ComponentKind, m: Modifier) -> bool {
    match k {
        ComponentKind::Area => m == Modifier::Template || m == Modifier::Rows || m == Modifier::Cols || m == Modifier::Gap || m == Modifier::GapX || m == Modifier::GapY,
        ComponentKind::Box => m == Modifier::MaxWidth || m == Modifier::Grow,
        ComponentKind::Center => m == Modifier::MaxWidth || m == Modifier::AndText || m == Modifier::Recursive,
        ComponentKind::Extender => m == Modifier::Screen || m == Modifier::KeepCenter || m == Modifier::KeepP || m == Modifier::KeepPL || m == Modifier::KeepPR,
        ComponentKind::Grid => m == Modifier::MinCellWidth || m == Modifier::MinCols || m == Modifier::MaxCols || m == Modifier::Gap || m == Modifier::GapX || m == Modifier::GapY,
        ComponentKind::Icon => m == Modifier::Scale || m == Modifier::Align || m == Modifier::GapDir || m == Modifier::Gap,
        ComponentKind::Ledge => m == Modifier::NoWrap || m == Modifier::TwinWidth || m == Modifier::Justify || m == Modifier::Align || m == Modifier::Gap || m == Modifier::GapX || m == Modifier::GapY,
        ComponentKind::Outsider => m == Modifier::Position || m == Modifier::Top || m == Modifier::Bottom || m == Modifier::Left || m == Modifier::Right,
        ComponentKind::Rack => m == Modifier::Height || m == Modifier::MinHeight || m == Modifier::MaxHeight || m == Modifier::Gap,
        ComponentKind::Sidebar => m == Modifier::Reverse || m == Modifier::Shrink || m == Modifier::Side || m == Modifier::SideWidth || m == Modifier::ContentMin || m == Modifier::Gap || m == Modifier::GapX || m == Modifier::GapY,
        ComponentKind::Slider => m == Modifier::HideBar || m == Modifier::ItemWidth || m == Modifier::Height || m == Modifier::Gap,
        ComponentKind::Stack => m == Modifier::Gap || m == Modifier::Recursive,
        ComponentKind::Switcher => m == Modifier::Threshold || m == Modifier::Limit || m == Modifier::Reverse || m == Modifier::Gap || m == Modifier::GapX || m == Modifier::GapY,
    }
}

/// The component after modifier `x` has set its field: a list field gets the
/// value appended, a flag is raised, any other field takes the value.
pub open spec fn applied(c: ComponentModel, x: ClassModel) -> ComponentModel {
    match c {
        ComponentModel::Area { template, rows, cols, gap, gap_x, gap_y } => match x.modifier {
            Modifier::Template => ComponentModel::Area {
                template: Some(x.value),
                rows,
                cols,
                gap,
                gap_x,
                gap_y,
            },
            Modifier::Rows => ComponentModel::Area {
                template,
                rows: rows.push(x.value),
                cols,
                gap,
                gap_x,
                gap_y,
            },
            Modifier::Cols => ComponentModel::Area {
                template,
                rows,
                cols: cols.push(x.value),
                gap,
                gap_x,
                gap_y,
            },
            Modifier::Gap => ComponentModel::Area {
                template,
                rows,
                cols,
                gap: Some(x.value),
                gap_x,
                gap_y,
            },
            Modifier::GapX => ComponentModel::Area {
                template,
                rows,
                cols,
                gap,
                gap_x: Some(x.value),
                gap_y,
            },
            Modifier::GapY => ComponentModel::Area {
                template,
                rows,
                cols,
                gap,
                gap_x,
                gap_y: Some(x.value),
            },
            _ => c,
        },
        ComponentModel::Box { max_width, grow } => match x.modifier {
            Modifier::MaxWidth => ComponentModel::Box {
                max_width: Some(x.value),
                grow,
            },
            Modifier::Grow => ComponentModel::Box {
                max_width,
                grow: true,
            },
            _ => c,
        },
        ComponentModel::Center { max_width, and_text, recursive } => match x.modifier {
            Modifier::MaxWidth => ComponentModel::Center {
                max_width: Some(x.value),
                and_text,
                recursive,
            },
            Modifier::AndText => ComponentModel::Center {
                max_width,
                and_text: true,
                recursive,
            },
            Modifier::Recursive => ComponentModel::Center {
                max_width,
                and_text,
                recursive: true,
            },
            _ => c,
        },
        ComponentModel::Extender { screen, keep_center, keep_p, keep_pl, keep_pr } => match x.modifier {
            Modifier::Screen => ComponentModel::Extender {
                screen: true,
                keep_center,
                keep_p,
                keep_pl,
                keep_pr,
            },
            Modifier::KeepCenter => ComponentModel::Extender {
                screen,
                keep_center: true,
                keep_p,
                keep_pl,
                keep_pr,
            },
            Modifier::KeepP => ComponentModel::Extender {
                screen,
                keep_center,
                keep_p: true,
                keep_pl,
                keep_pr,
            },
            Modifier::KeepPL => ComponentModel::Extender {
                screen,
                keep_center,
                keep_p,
                keep_pl: true,
                keep_pr,
            },
            Modifier::KeepPR => ComponentModel::Extender {
                screen,
                keep_center,
                keep_p,
                keep_pl,
                keep_pr: true,
            },
            _ => c,
        },
        ComponentModel::Grid { min_cell_width, min_cols, max_cols, gap, gap_x, gap_y } => match x.modifier {
            Modifier::MinCellWidth => ComponentModel::Grid {
                min_cell_width: Some(x.value),
                min_cols,
                max_cols,
                gap,
                gap_x,
                gap_y,
            },
            Modifier::MinCols => ComponentModel::Grid {
                min_cell_width,
                min_cols: Some(x.value),
                max_cols,
                gap,
                gap_x,
                gap_y,
            },
            Modifier::MaxCols => ComponentModel::Grid {
                min_cell_width,
                min_cols,
                max_cols: Some(x.value),
                gap,
                gap_x,
                gap_y,
            },
            Modifier::Gap => ComponentModel::Grid {
                min_cell_width,
                min_cols,
                max_cols,
                gap: Some(x.value),
                gap_x,
                gap_y,
            },
            Modifier::GapX => ComponentModel::Grid {
                min_cell_width,
                min_cols,
                max_cols,
                gap,
                gap_x: Some(x.value),
                gap_y,
            },
            Modifier::GapY => ComponentModel::Grid {
                min_cell_width,
                min_cols,
                max_cols,
                gap,
                gap_x,
                gap_y: Some(x.value),
            },
            _ => c,
        },
        ComponentModel::Icon { scale, align, gap_dir, gap } => match x.modifier {
            Modifier::Scale => ComponentModel::Icon {
                scale: Some(x.value),
                align,
                gap_dir,
                gap,
            },
            Modifier::Align => ComponentModel::Icon {
                scale,
                align: Some(x.value),
                gap_dir,
                gap,
            },
            Modifier::GapDir => ComponentModel::Icon {
                scale,
                align,
                gap_dir: Some(x.value),
                gap,
            },
            Modifier::Gap => ComponentModel::Icon {
                scale,
                align,
                gap_dir,
                gap: Some(x.value),
            },
            _ => c,
        },
        ComponentModel::Ledge { nowrap, twin_width, direction, justify, align, gap, gap_x, gap_y } => match x.modifier {
            Modifier::NoWrap => ComponentModel::Ledge {
                nowrap: true,
                twin_width,
                direction,
                justify,
                align,
                gap,
                gap_x,
                gap_y,
            },
            Modifier::TwinWidth => ComponentModel::Ledge {
                nowrap,
                twin_width: true,
                direction,
                justify,
                align,
                gap,
                gap_x,
                gap_y,
            },
            Modifier::Justify => ComponentModel::Ledge {
                nowrap,
                twin_width,
                direction,
                justify: Some(x.value),
                align,
                gap,
                gap_x,
                gap_y,
            },
            Modifier::Align => ComponentModel::Ledge {
                nowrap,
                twin_width,
                direction,
                justify,
                align: Some(x.value),
                gap,
                gap_x,
                gap_y,
            },
            Modifier::Gap => ComponentModel::Ledge {
                nowrap,
                twin_width,
                direction,
                justify,
                align,
                gap: Some(x.value),
                gap_x,
                gap_y,
            },
            Modifier::GapX => ComponentModel::Ledge {
                nowrap,
                twin_width,
                direction,
                justify,
                align,
                gap,
                gap_x: Some(x.value),
                gap_y,
            },
            Modifier::GapY => ComponentModel::Ledge {
                nowrap,
                twin_width,
                direction,
                justify,
                align,
                gap,
                gap_x,
                gap_y: Some(x.value),
            },
            _ => c,
        },
        ComponentModel::Outsider { position, top, bottom, left, right } => match x.modifier {
            Modifier::Position => ComponentModel::Outsider {
                position: Some(x.value),
                top,
                bottom,
                left,
                right,
            },
            Modifier::Top => ComponentModel::Outsider {
                position,
                top: Some(x.value),
                bottom,
                left,
                right,
            },
            Modifier::Bottom => ComponentModel::Outsider {
                position,
                top,
                bottom: Some(x.value),
                left,
                right,
            },
            Modifier::Left => ComponentModel::Outsider {
                position,
                top,
                bottom,
                left: Some(x.value),
                right,
            },
            Modifier::Right => ComponentModel::Outsider {
                position,
                top,
                bottom,
                left,
                right: Some(x.value),
            },
            _ => c,
        },
        ComponentModel::Rack { height, min_height, max_height, gap } => match x.modifier {
            Modifier::Height => ComponentModel::Rack {
                height: Some(x.value),
                min_height,
                max_height,
                gap,
            },
            Modifier::MinHeight => ComponentModel::Rack {
                height,
                min_height: Some(x.value),
                max_height,
                gap,
            },
            Modifier::MaxHeight => ComponentModel::Rack {
                height,
                min_height,
                max_height: Some(x.value),
                gap,
            },
            Modifier::Gap => ComponentModel::Rack {
                height,
                min_height,
                max_height,
                gap: Some(x.value),
            },
            _ => c,
        },
        ComponentModel::Sidebar { reverse, shrink, side, side_width, content_min, gap, gap_x, gap_y } => match x.modifier {
            Modifier::Reverse => ComponentModel::Sidebar {
                reverse: true,
                shrink,
                side,
                side_width,
                content_min,
                gap,
                gap_x,
                gap_y,
            },
            Modifier::Shrink => ComponentModel::Sidebar {
                reverse,
                shrink: true,
                side,
                side_width,
                content_min,
                gap,
                gap_x,
                gap_y,
            },
            Modifier::Side => ComponentModel::Sidebar {
                reverse,
                shrink,
                side: Some(x.value),
                side_width,
                content_min,
                gap,
                gap_x,
                gap_y,
            },
            Modifier::SideWidth => ComponentModel::Sidebar {
                reverse,
                shrink,
                side,
                side_width: Some(x.value),
                content_min,
                gap,
                gap_x,
                gap_y,
            },
            Modifier::ContentMin => ComponentModel::Sidebar {
                reverse,
                shrink,
                side,
                side_width,
                content_min: Some(x.value),
                gap,
                gap_x,
                gap_y,
            },
            Modifier::Gap => ComponentModel::Sidebar {
                reverse,
                shrink,
                side,
                side_width,
                content_min,
                gap: Some(x.value),
                gap_x,
                gap_y,
            },
            Modifier::GapX => ComponentModel::Sidebar {
                reverse,
                shrink,
                side,
                side_width,
                content_min,
                gap,
                gap_x: Some(x.value),
                gap_y,
            },
            Modifier::GapY => ComponentModel::Sidebar {
                reverse,
                shrink,
                side,
                side_width,
                content_min,
                gap,
                gap_x,
                gap_y: Some(x.value),
            },
            _ => c,
        },
        ComponentModel::Slider { hide_bar, item_width, height, gap } => match x.modifier {
            Modifier::HideBar => ComponentModel::Slider {
                hide_bar: true,
                item_width,
                height,
                gap,
            },
            Modifier::ItemWidth => ComponentModel::Slider {
                hide_bar,
                item_width: Some(x.value),
                height,
                gap,
            },
            Modifier::Height => ComponentModel::Slider {
                hide_bar,
                item_width,
                height: Some(x.value),
                gap,
            },
            Modifier::Gap => ComponentModel::Slider {
                hide_bar,
                item_width,
                height,
                gap: Some(x.value),
            },
            _ => c,
        },
        ComponentModel::Stack { gap, recursive } => match x.modifier {
            Modifier::Gap => ComponentModel::Stack {
                gap: Some(x.value),
                recursive,
            },
            Modifier::Recursive => ComponentModel::Stack {
                gap,
                recursive: true,
            },
            _ => c,
        },
        ComponentModel::Switcher { threshold, limit, reverse, gap, gap_x, gap_y } => match x.modifier {
            Modifier::Threshold => ComponentModel::Switcher {
                threshold: Some(x.value),
                limit,
                reverse,
                gap,
                gap_x,
                gap_y,
            },
            Modifier::Limit => ComponentModel::Switcher {
                threshold,
                limit: Some(x.value),
                reverse,
                gap,
                gap_x,
                gap_y,
            },
            Modifier::Reverse => ComponentModel::Switcher {
                threshold,
                limit,
                reverse: true,
                gap,
                gap_x,
                gap_y,
            },
            Modifier::Gap => ComponentModel::Switcher {
                threshold,
                limit,
                reverse,
                gap: Some(x.value),
                gap_x,
                gap_y,
            },
            Modifier::GapX => ComponentModel::Switcher {
                threshold,
                limit,
                reverse,
                gap,
                gap_x: Some(x.value),
                gap_y,
            },
            Modifier::GapY => ComponentModel::Switcher {
                threshold,
                limit,
                reverse,
                gap,
                gap_x,
                gap_y: Some(x.value),
            },
            _ => c,
        },
    }
}

proof fn lemma_list_view_push(l: Seq<&str>, v: &str)
    ensures
        list_view(l.push(v)) == list_view(l).push(v@),
{
    assert(list_view(l.push(v)) =~= list_view(l).push(v@));
}

fn opt_eq(a: Option<&str>, b: Option<&str>) -> (r: bool)
    ensures
        r == (opt_str(a) == opt_str(b)),
{
    match (a, b) {
        (Some(x), Some(y)) => str_eq(x, y),
        (None, None) => true,
        _ => false,
    }
}

fn list_eq(a: &Vec<&str>, b: &Vec<&str>) -> (r: bool)
    ensures
        r == (list_view(a@) == list_view(b@)),
{
    if a.len() != b.len() {
        assert(list_view(a@).len() != list_view(b@).len());
        return false;
    }
    let mut i: usize = 0;
    while i < a.len()
        invariant
            a.len() == b.len(),
            i <= a.len(),
            forall|k: int| 0 <= k < i ==> list_view(a@)[k] == list_view(b@)[k],
        decreases a.len() - i,
    {
        if !str_eq(a[i], b[i]) {
            assert(list_view(a@)[i as int] != list_view(b@)[i as int]);
            return false;
        }
        i = i + 1;
    }
    assert(list_view(a@) =~= list_view(b@));
    true
}

impl<'a> Component<'a> {
    /// The component that a tag name denotes, with no field set; `None` for a
    /// tag name that denotes none.
    pub fn from_tag(s: &str) -> (r: Option<Component<'a>>)
        ensures
            match kind_named(s@) {
                Some(k) => r matches Some(c) && c@ == fresh(k),
                None => r is None,
            },
    {
        if str_eq(s, "area-l") {
            let r = Component::Area {
                template: None,
                rows: Vec::new(),
                cols: Vec::new(),
                gap: None,
                gap_x: None,
                gap_y: None,
            };
            assert(list_view(Seq::<&str>::empty()) =~= Seq::empty());
            Some(r)
        } else if str_eq(s, "box-l") {
            let r = Component::Box {
                max_width: None,
                grow: false,
            };
            Some(r)
        } else if str_eq(s, "center-l") {
            let r = Component::Center {
                max_width: None,
                and_text: false,
                recursive: false,
            };
            Some(r)
        } else if str_eq(s, "extender-l") {
            let r = Component::Extender {
                screen: false,
                keep_center: false,
                keep_p: false,
                keep_pl: false,
                keep_pr: false,
            };
            Some(r)
        } else if str_eq(s, "grid-l") {
            let r = Component::Grid {
                min_cell_width: None,
                min_cols: None,
                max_cols: None,
                gap: None,
                gap_x: None,
                gap_y: None,
            };
            Some(r)
        } else if str_eq(s, "icon-l") {
            let r = Component::Icon {
                scale: None,
                align: None,
                gap_dir: None,
                gap: None,
            };
            Some(r)
        } else if str_eq(s, "ledge-l") || str_eq(s, "row-l") {
            let r = Component::Ledge {
                nowrap: false,
                twin_width: false,
                direction: None,
                justify: None,
                align: None,
                gap: None,
                gap_x: None,
                gap_y: None,
            };
            Some(r)
        } else if str_eq(s, "outsider-l") {
            let r = Component::Outsider {
                position: None,
                top: None,
                bottom: None,
                left: None,
                right: None,
            };
            Some(r)
        } else if str_eq(s, "rack-l") {
            let r = Component::Rack {
                height: None,
                min_height: None,
                max_height: None,
                gap: None,
            };
            Some(r)
        } else if str_eq(s, "sidebar-l") {
            let r = Component::Sidebar {
                reverse: false,
                shrink: false,
                side: None,
                side_width: None,
                content_min: None,
                gap: None,
                gap_x: None,
                gap_y: None,
            };
            Some(r)
        } else if str_eq(s, "slider-l") {
            let r = Component::Slider {
                hide_bar: false,
                item_width: None,
                height: None,
                gap: None,
            };
            Some(r)
        } else if str_eq(s, "stack-l") {
            let r = Component::Stack {
                gap: None,
                recursive: false,
            };
            Some(r)
        } else if str_eq(s, "switcher-l") {
            let r = Component::Switcher {
                threshold: None,
                limit: None,
                reverse: false,
                gap: None,
                gap_x: None,
                gap_y: None,
            };
            Some(r)
        } else {
            None
        }
    }

    /// The kind of the component.
    pub fn kind(&self) -> (r: ComponentKind)
        ensures
            r == kind_of(self@),
    {
        match self {
            Component::Area { .. } => ComponentKind::Area,
            Component::Box { .. } => ComponentKind::Box,
            Component::Center { .. } => ComponentKind::Center,
            Component::Extender { .. } => ComponentKind::Extender,
            Component::Grid { .. } => ComponentKind::Grid,
            Component::Icon { .. } => ComponentKind::Icon,
            Component::Ledge { .. } => ComponentKind::Ledge,
            Component::Outsider { .. } => ComponentKind::Outsider,
            Component::Rack { .. } => ComponentKind::Rack,
            Component::Sidebar { .. } => ComponentKind::Sidebar,
            Component::Slider { .. } => ComponentKind::Slider,
            Component::Stack { .. } => ComponentKind::Stack,
            Component::Switcher { .. } => ComponentKind::Switcher,
        }
    }

    /// Writes `class` into the field of this component that it sets, where the
    /// component's kind has one; returns whether it did. A list field gets the
    /// value appended, a flag is raised, any other field takes the value.
    pub fn apply(&mut self, class: &LayoutClass<'a>) -> (r: bool)
        ensures
            r == accepts(kind_of(old(self)@), class@.modifier),
            r ==> final(self)@ == applied(old(self)@, class@),
            !r ==> *final(self) == *old(self),
    {
        match self {
            Component::Area { template, rows, cols, gap, gap_x, gap_y } => match class {
                LayoutClass::Template(v) => {
                    *template = Some(*v);
                    true
                },
                LayoutClass::Rows(v) => {
                    let ghost before = rows@;
                    rows.push(*v);
                    proof {
                        lemma_list_view_push(before, *v);
                    }
                    true
                },
                LayoutClass::Cols(v) => {
                    let ghost before = cols@;
                    cols.push(*v);
                    proof {
                        lemma_list_view_push(before, *v);
                    }
                    true
                },
                LayoutClass::Gap(v) => {
                    *gap = Some(*v);
                    true
                },
                LayoutClass::GapX(v) => {
                    *gap_x = Some(*v);
                    true
                },
                LayoutClass::GapY(v) => {
                    *gap_y = Some(*v);
                    true
                },
                _ => false,
            },
            Component::Box { max_width, grow } => match class {
                LayoutClass::MaxWidth(v) => {
                    *max_width = Some(*v);
                    true
                },
                LayoutClass::Grow => {
                    *grow = true;
                    true
                },
                _ => false,
            },
            Component::Center { max_width, and_text, recursive } => match class {
                LayoutClass::MaxWidth(v) => {
                    *max_width = Some(*v);
                    true
                },
                LayoutClass::AndText => {
                    *and_text = true;
                    true
                },
                LayoutClass::Recursive => {
                    *recursive = true;
                    true
                },
                _ => false,
            },
            Component::Extender { screen, keep_center, keep_p, keep_pl, keep_pr } => match class {
                LayoutClass::Screen => {
                    *screen = true;
                    true
                },
                LayoutClass::KeepCenter => {
                    *keep_center = true;
                    true
                },
                LayoutClass::KeepP => {
                    *keep_p = true;
                    true
                },
                LayoutClass::KeepPL => {
                    *keep_pl = true;
                    true
                },
                LayoutClass::KeepPR => {
                    *keep_pr = true;
                    true
                },
                _ => false,
            },
            Component::Grid { min_cell_width, min_cols, max_cols, gap, gap_x, gap_y } => match class {
                LayoutClass::MinCellWidth(v) => {
                    *min_cell_width = Some(*v);
                    true
                },
                LayoutClass::MinCols(v) => {
                    *min_cols = Some(*v);
                    true
                },
                LayoutClass::MaxCols(v) => {
                    *max_cols = Some(*v);
                    true
                },
                LayoutClass::Gap(v) => {
                    *gap = Some(*v);
                    true
                },
                LayoutClass::GapX(v) => {
                    *gap_x = Some(*v);
                    true
                },
                LayoutClass::GapY(v) => {
                    *gap_y = Some(*v);
                    true
                },
                _ => false,
            },
            Component::Icon { scale, align, gap_dir, gap } => match class {
                LayoutClass::Scale(v) => {
                    *scale = Some(*v);
                    true
                },
                LayoutClass::Align(v) => {
                    *align = Some(*v);
                    true
                },
                LayoutClass::GapDir(v) => {
                    *gap_dir = Some(*v);
                    true
                },
                LayoutClass::Gap(v) => {
                    *gap = Some(*v);
                    true
                },
                _ => false,
            },
            Component::Ledge { nowrap, twin_width, direction, justify, align, gap, gap_x, gap_y } => match class {
                LayoutClass::NoWrap => {
                    *nowrap = true;
                    true
                },
                LayoutClass::TwinWidth => {
                    *twin_width = true;
                    true
                },
                LayoutClass::Justify(v) => {
                    *justify = Some(*v);
                    true
                },
                LayoutClass::Align(v) => {
                    *align = Some(*v);
                    true
                },
                LayoutClass::Gap(v) => {
                    *gap = Some(*v);
                    true
                },
                LayoutClass::GapX(v) => {
                    *gap_x = Some(*v);
                    true
                },
                LayoutClass::GapY(v) => {
                    *gap_y = Some(*v);
                    true
                },
                _ => false,
            },
            Component::Outsider { position, top, bottom, left, right } => match class {
                LayoutClass::Position(v) => {
                    *position = Some(*v);
                    true
                },
                LayoutClass::Top(v) => {
                    *top = Some(*v);
                    true
                },
                LayoutClass::Bottom(v) => {
                    *bottom = Some(*v);
                    true
                },
                LayoutClass::Left(v) => {
                    *left = Some(*v);
                    true
                },
                LayoutClass::Right(v) => {
                    *right = Some(*v);
                    true
                },
                _ => false,
            },
            Component::Rack { height, min_height, max_height, gap } => match class {
                LayoutClass::Height(v) => {
                    *height = Some(*v);
                    true
                },
                LayoutClass::MinHeight(v) => {
                    *min_height = Some(*v);
                    true
                },
                LayoutClass::MaxHeight(v) => {
                    *max_height = Some(*v);
                    true
                },
                LayoutClass::Gap(v) => {
                    *gap = Some(*v);
                    true
                },
                _ => false,
            },
            Component::Sidebar { reverse, shrink, side, side_width, content_min, gap, gap_x, gap_y } => match class {
                LayoutClass::Reverse => {
                    *reverse = true;
                    true
                },
                LayoutClass::Shrink => {
                    *shrink = true;
                    true
                },
                LayoutClass::Side(v) => {
                    *side = Some(*v);
                    true
                },
                LayoutClass::SideWidth(v) => {
                    *side_width = Some(*v);
                    true
                },
                LayoutClass::ContentMin(v) => {
                    *content_min = Some(*v);
                    true
                },
                LayoutClass::Gap(v) => {
                    *gap = Some(*v);
                    true
                },
                LayoutClass::GapX(v) => {
                    *gap_x = Some(*v);
                    true
                },
                LayoutClass::GapY(v) => {
                    *gap_y = Some(*v);
                    true
                },
                _ => false,
            },
            Component::Slider { hide_bar, item_width, height, gap } => match class {
                LayoutClass::HideBar => {
                    *hide_bar = true;
                    true
                },
                LayoutClass::ItemWidth(v) => {
                    *item_width = Some(*v);
                    true
                },
                LayoutClass::Height(v) => {
                    *height = Some(*v);
                    true
                },
                LayoutClass::Gap(v) => {
                    *gap = Some(*v);
                    true
                },
                _ => false,
            },
            Component::Stack { gap, recursive } => match class {
                LayoutClass::Gap(v) => {
                    *gap = Some(*v);
                    true
                },
                LayoutClass::Recursive => {
                    *recursive = true;
                    true
                },
                _ => false,
            },
            Component::Switcher { threshold, limit, reverse, gap, gap_x, gap_y } => match class {
                LayoutClass::Threshold(v) => {
                    *threshold = Some(*v);
                    true
                },
                LayoutClass::Limit(v) => {
                    *limit = Some(*v);
                    true
                },
                LayoutClass::Reverse => {
                    *reverse = true;
                    true
                },
                LayoutClass::Gap(v) => {
                    *gap = Some(*v);
                    true
                },
                LayoutClass::GapX(v) => {
                    *gap_x = Some(*v);
                    true
                },
                LayoutClass::GapY(v) => {
                    *gap_y = Some(*v);
                    true
                },
                _ => false,
            },
        }
    }

    /// Whether two components are of the same kind with the same fields.
    pub fn same_as(&self, other: &Component<'a>) -> (r: bool)
        ensures
            r == (self@ == other@),
    {
        match (self, other) {
            (Component::Area { template: a_template, rows: a_rows, cols: a_cols, gap: a_gap, gap_x: a_gap_x, gap_y: a_gap_y }, Component::Area { template: b_template, rows: b_rows, cols: b_cols, gap: b_gap, gap_x: b_gap_x, gap_y: b_gap_y }) => {
                opt_eq(*a_template, *b_template)
                    && list_eq(a_rows, b_rows)
                    && list_eq(a_cols, b_cols)
                    && opt_eq(*a_gap, *b_gap)
                    && opt_eq(*a_gap_x, *b_gap_x)
                    && opt_eq(*a_gap_y, *b_gap_y)
            },
            (Component::Box { max_width: a_max_width, grow: a_grow }, Component::Box { max_width: b_max_width, grow: b_grow }) => {
                opt_eq(*a_max_width, *b_max_width)
                    && *a_grow == *b_grow
            },
            (Component::Center { max_width: a_max_width, and_text: a_and_text, recursive: a_recursive }, Component::Center { max_width: b_max_width, and_text: b_and_text, recursive: b_recursive }) => {
                opt_eq(*a_max_width, *b_max_width)
                    && *a_and_text == *b_and_text
                    && *a_recursive == *b_recursive
            },
            (Component::Extender { screen: a_screen, keep_center: a_keep_center, keep_p: a_keep_p, keep_pl: a_keep_pl, keep_pr: a_keep_pr }, Component::Extender { screen: b_screen, keep_center: b_keep_center, keep_p: b_keep_p, keep_pl: b_keep_pl, keep_pr: b_keep_pr }) => {
                *a_screen == *b_screen
                    && *a_keep_center == *b_keep_center
                    && *a_keep_p == *b_keep_p
                    && *a_keep_pl == *b_keep_pl
                    && *a_keep_pr == *b_keep_pr
            },
            (Component::Grid { min_cell_width: a_min_cell_width, min_cols: a_min_cols, max_cols: a_max_cols, gap: a_gap, gap_x: a_gap_x, gap_y: a_gap_y }, Component::Grid { min_cell_width: b_min_cell_width, min_cols: b_min_cols, max_cols: b_max_cols, gap: b_gap, gap_x: b_gap_x, gap_y: b_gap_y }) => {
                opt_eq(*a_min_cell_width, *b_min_cell_width)
                    && opt_eq(*a_min_cols, *b_min_cols)
                    && opt_eq(*a_max_cols, *b_max_cols)
                    && opt_eq(*a_gap, *b_gap)
                    && opt_eq(*a_gap_x, *b_gap_x)
                    && opt_eq(*a_gap_y, *b_gap_y)
            },
            (Component::Icon { scale: a_scale, align: a_align, gap_dir: a_gap_dir, gap: a_gap }, Component::Icon { scale: b_scale, align: b_align, gap_dir: b_gap_dir, gap: b_gap }) => {
                opt_eq(*a_scale, *b_scale)
                    && opt_eq(*a_align, *b_align)
                    && opt_eq(*a_gap_dir, *b_gap_dir)
                    && opt_eq(*a_gap, *b_gap)
            },
            (Component::Ledge { nowrap: a_nowrap, twin_width: a_twin_width, direction: a_direction, justify: a_justify, align: a_align, gap: a_gap, gap_x: a_gap_x, gap_y: a_gap_y }, Component::Ledge { nowrap: b_nowrap, twin_width: b_twin_width, direction: b_direction, justify: b_justify, align: b_align, gap: b_gap, gap_x: b_gap_x, gap_y: b_gap_y }) => {
                *a_nowrap == *b_nowrap
                    && *a_twin_width == *b_twin_width
                    && opt_eq(*a_direction, *b_direction)
                    && opt_eq(*a_justify, *b_justify)
                    && opt_eq(*a_align, *b_align)
                    && opt_eq(*a_gap, *b_gap)
                    && opt_eq(*a_gap_x, *b_gap_x)
                    && opt_eq(*a_gap_y, *b_gap_y)
            },
            (Component::Outsider { position: a_position, top: a_top, bottom: a_bottom, left: a_left, right: a_right }, Component::Outsider { position: b_position, top: b_top, bottom: b_bottom, left: b_left, right: b_right }) => {
                opt_eq(*a_position, *b_position)
                    && opt_eq(*a_top, *b_top)
                    && opt_eq(*a_bottom, *b_bottom)
                    && opt_eq(*a_left, *b_left)
                    && opt_eq(*a_right, *b_right)
            },
            (Component::Rack { height: a_height, min_height: a_min_height, max_height: a_max_height, gap: a_gap }, Component::Rack { height: b_height, min_height: b_min_height, max_height: b_max_height, gap: b_gap }) => {
                opt_eq(*a_height, *b_height)
                    && opt_eq(*a_min_height, *b_min_height)
                    && opt_eq(*a_max_height, *b_max_height)
                    && opt_eq(*a_gap, *b_gap)
            },
            (Component::Sidebar { reverse: a_reverse, shrink: a_shrink, side: a_side, side_width: a_side_width, content_min: a_content_min, gap: a_gap, gap_x: a_gap_x, gap_y: a_gap_y }, Component::Sidebar { reverse: b_reverse, shrink: b_shrink, side: b_side, side_width: b_side_width, content_min: b_content_min, gap: b_gap, gap_x: b_gap_x, gap_y: b_gap_y }) => {
                *a_reverse == *b_reverse
                    && *a_shrink == *b_shrink
                    && opt_eq(*a_side, *b_side)
                    && opt_eq(*a_side_width, *b_side_width)
                    && opt_eq(*a_content_min, *b_content_min)
                    && opt_eq(*a_gap, *b_gap)
                    && opt_eq(*a_gap_x, *b_gap_x)
                    && opt_eq(*a_gap_y, *b_gap_y)
            },
            (Component::Slider { hide_bar: a_hide_bar, item_width: a_item_width, height: a_height, gap: a_gap }, Component::Slider { hide_bar: b_hide_bar, item_width: b_item_width, height: b_height, gap: b_gap }) => {
                *a_hide_bar == *b_hide_bar
                    && opt_eq(*a_item_width, *b_item_width)
                    && opt_eq(*a_height, *b_height)
                    && opt_eq(*a_gap, *b_gap)
            },
            (Component::Stack { gap: a_gap, recursive: a_recursive }, Component::Stack { gap: b_gap, recursive: b_recursive }) => {
                opt_eq(*a_gap, *b_gap)
                    && *a_recursive == *b_recursive
            },
            (Component::Switcher { threshold: a_threshold, limit: a_limit, reverse: a_reverse, gap: a_gap, gap_x: a_gap_x, gap_y: a_gap_y }, Component::Switcher { threshold: b_threshold, limit: b_limit, reverse: b_reverse, gap: b_gap, gap_x: b_gap_x, gap_y: b_gap_y }) => {
                opt_eq(*a_threshold, *b_threshold)
                    && opt_eq(*a_limit, *b_limit)
                    && *a_reverse == *b_reverse
                    && opt_eq(*a_gap, *b_gap)
                    && opt_eq(*a_gap_x, *b_gap_x)
                    && opt_eq(*a_gap_y, *b_gap_y)
            },
            _ => false,
        }
    }
}

impl<'a> core::str::FromStr for Component<'a> {
    type Err = ();

    fn from_str(s: &str) -> Result<Self, ()> {
        match Component::from_tag(s) {
            Some(c) => Ok(c),
            None => Err(()),
        }
    }
}

} // verus!
