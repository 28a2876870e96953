//! The rule texts of the components, with the values of their fields in
//! place; a gap value comes both as written and as scaled by the harmonic
//! ratio.
use vstd::prelude::*;

verus! {

/// The rule of the `gap` of an area.
pub open spec fn area_gap_text(value: Seq<char>, harmonic: Seq<char>) -> Seq<char> {
    "area-l[layout~=\"gap:"@ + value + "\"]{\n    gap: "@ + harmonic + ";\n}\n"@
}

/// The rule of the `gap` of an area.
pub fn area_gap_style(value: &str, harmonic: String) -> (r: String)
    ensures
        r@ == area_gap_text(value@, harmonic@),
{
    let mut r = String::new();
    r.append("area-l[layout~=\"gap:");
    r.append(value);
    r.append("\"]{\n    gap: ");
    r.append(harmonic.as_str());
    r.append(";\n}\n");
    r
}

/// The rule of the `gap-x` of an area.
pub open spec fn area_gap_x_text(value: Seq<char>, harmonic: Seq<char>) -> Seq<char> {
    "area-l[layout~=\"gap-x:"@ + value + "\"]{\n    column-gap: "@ + harmonic + ";\n}\n"@
}

/// The rule of the `gap-x` of an area.
pub fn area_gap_x_style(value: &str, harmonic: String) -> (r: String)
    ensures
        r@ == area_gap_x_text(value@, harmonic@),
{
    let mut r = String::new();
    r.append("area-l[layout~=\"gap-x:");
    r.append(value);
    r.append("\"]{\n    column-gap: ");
    r.append(harmonic.as_str());
    r.append(";\n}\n");
    r
}

/// The rule of the `gap-y` of an area.
pub open spec fn area_gap_y_text(value: Seq<char>, harmonic: Seq<char>) -> Seq<char> {
    "area-l[layout~=\"gap-y:"@ + value + "\"]{\n    row-gap: "@ + harmonic + ";\n}\n"@
}

/// The rule of the `gap-y` of an area.
pub fn area_gap_y_style(value: &str, harmonic: String) -> (r: String)
    ensures
        r@ == area_gap_y_text(value@, harmonic@),
{
    let mut r = String::new();
    r.append("area-l[layout~=\"gap-y:");
    r.append(value);
    r.append("\"]{\n    row-gap: ");
    r.append(harmonic.as_str());
    r.append(";\n}\n");
    r
}

/// The rule of the `grid-template-areas` of an area.
pub open spec fn area_grid_template_areas_text(value: Seq<char>, template: Seq<char>) -> Seq<char> {
    "area-l[layout~=\"template:"@ + value + "\"] {\n        grid-template-areas: "@ + template
        + ";\n    }\n"@
}

/// The rule of the `grid-template-areas` of an area.
pub fn area_grid_template_areas_style(value: &str, template: String) -> (r: String)
    ensures
        r@ == area_grid_template_areas_text(value@, template@),
{
    let mut r = String::new();
    r.append("area-l[layout~=\"template:");
    r.append(value);
    r.append("\"] {\n        grid-template-areas: ");
    r.append(template.as_str());
    r.append(";\n    }\n");
    r
}

/// The rule of the `rows` of an area.
pub open spec fn area_rows_text(selector: Seq<char>, value: Seq<char>) -> Seq<char> {
    "area-l"@ + selector + "{\n    grid-template-rows: "@ + value + ";\n}\n"@
}

/// The rule of the `rows` of an area.
pub fn area_rows_style(selector: &str, value: &str) -> (r: String)
    ensures
        r@ == area_rows_text(selector@, value@),
{
    let mut r = String::new();
    r.append("area-l");
    r.append(selector);
    r.append("{\n    grid-template-rows: ");
    r.append(value);
    r.append(";\n}\n");
    r
}

/// The rule of the `cols` of an area.
pub open spec fn area_cols_text(selector: Seq<char>, value: Seq<char>) -> Seq<char> {
    "area-l"@ + selector + "{\n    grid-template-columns: "@ + value + ";\n}\n"@
}

/// The rule of the `cols` of an area.
pub fn area_cols_style(selector: &str, value: &str) -> (r: String)
    ensures
        r@ == area_cols_text(selector@, value@),
{
    let mut r = String::new();
    r.append("area-l");
    r.append(selector);
    r.append("{\n    grid-template-columns: ");
    r.append(value);
    r.append(";\n}\n");
    r
}

/// The rule of the `gap` of a grid.
pub open spec fn grid_gap_text(value: Seq<char>, harmonic: Seq<char>) -> Seq<char> {
    "grid-l[layout~=\"gap:"@ + value + "\"]{\n    gap: "@ + harmonic + ";\n}\n"@
}

/// The rule of the `gap` of a grid.
pub fn grid_gap_style(value: &str, harmonic: String) -> (r: String)
    ensures
        r@ == grid_gap_text(value@, harmonic@),
{
    let mut r = String::new();
    r.append("grid-l[layout~=\"gap:");
    r.append(value);
    r.append("\"]{\n    gap: ");
    r.append(harmonic.as_str());
    r.append(";\n}\n");
    r
}

/// The rule of the `gap-x` of a grid.
pub open spec fn grid_gap_x_text(value: Seq<char>, harmonic: Seq<char>) -> Seq<char> {
    "grid-l[layout~=\"gap-x:"@ + value + "\"]{\n    column-gap: "@ + harmonic + ";\n}\n"@
}

/// The rule of the `gap-x` of a grid.
pub fn grid_gap_x_style(value: &str, harmonic: String) -> (r: String)
    ensures
        r@ == grid_gap_x_text(value@, harmonic@),
{
    let mut r = String::new();
    r.append("grid-l[layout~=\"gap-x:");
    r.append(value);
    r.append("\"]{\n    column-gap: ");
    r.append(harmonic.as_str());
    r.append(";\n}\n");
    r
}

/// The rule of the `gap-y` of a grid.
pub open spec fn grid_gap_y_text(value: Seq<char>, harmonic: Seq<char>) -> Seq<char> {
    "grid-l[layout~=\"gap-y:"@ + value + "\"]{\n    row-gap: "@ + harmonic + ";\n}\n"@
}

/// The rule of the `gap-y` of a grid.
pub fn grid_gap_y_style(value: &str, harmonic: String) -> (r: String)
    ensures
        r@ == grid_gap_y_text(value@, harmonic@),
{
    let mut r = String::new();
    r.append("grid-l[layout~=\"gap-y:");
    r.append(value);
    r.append("\"]{\n    row-gap: ");
    r.append(harmonic.as_str());
    r.append(";\n}\n");
    r
}

/// The rule of a grid with a minimal cell width and no bound on its
/// columns.
pub open spec fn grid_group_empty_text(min_cell_width: Seq<char>) -> Seq<char> {
    "grid-l[layout*=\"min-cell-width:"@ + min_cell_width
        + "\"] {\n    grid-template-columns: repeat(auto-fit, minmax(min("@ + min_cell_width
        + ", 100%),1fr));\n}\n"@
}

/// The rule of a grid with a minimal cell width and no bound on its
/// columns.
pub fn grid_group_empty(min_cell_width: &str) -> (r: String)
    ensures
        r@ == grid_group_empty_text(min_cell_width@),
{
    let mut r = String::new();
    r.append("grid-l[layout*=\"min-cell-width:");
    r.append(min_cell_width);
    r.append("\"] {\n    grid-template-columns: repeat(auto-fit, minmax(min(");
    r.append(min_cell_width);
    r.append(", 100%),1fr));\n}\n");
    r
}

/// The rule of the `scale` of an icon.
pub open spec fn icon_scale_text(value: Seq<char>, harmonic: Seq<char>) -> Seq<char> {
    "icon-l[layout*=\"scale:"@ + value + "\"] >:nth-child(1){\n    height: "@ + harmonic + ";\n}\n"@
}

/// The rule of the `scale` of an icon.
pub fn icon_scale_style(value: &str, harmonic: String) -> (r: String)
    ensures
        r@ == icon_scale_text(value@, harmonic@),
{
    let mut r = String::new();
    r.append("icon-l[layout*=\"scale:");
    r.append(value);
    r.append("\"] >:nth-child(1){\n    height: ");
    r.append(harmonic.as_str());
    r.append(";\n}\n");
    r
}

/// The rule of the `align` of an icon.
pub open spec fn icon_align_text(value: Seq<char>) -> Seq<char> {
    "icon-l[layout~=\"align:"@ + value + "\"]{\n    vertical-align: "@ + value + ";\n}\n"@
}

/// The rule of the `align` of an icon.
pub fn icon_align_style(value: &str) -> (r: String)
    ensures
        r@ == icon_align_text(value@),
{
    let mut r = String::new();
    r.append("icon-l[layout~=\"align:");
    r.append(value);
    r.append("\"]{\n    vertical-align: ");
    r.append(value);
    r.append(";\n}\n");
    r
}

/// The rule of the gap between an icon and its text, on the side
/// `gap_dir`.
pub open spec fn icon_group_text(
    value: Seq<char>,
    gap_dir_selector: Seq<char>,
    gap_dir: Seq<char>,
    opposite_dir: Seq<char>,
    harmonic: Seq<char>,
) -> Seq<char> {
    "icon-l"@ + gap_dir_selector + "[layout*=\"gap:"@ + value
        + "\"] >:nth-child(1){\n    margin-inline-"@ + gap_dir + ": "@ + harmonic
        + ";\n    margin-inline-"@ + opposite_dir + ": initial;\n}\n"@
}

/// The rule of the gap between an icon and its text, on the side
/// `gap_dir`.
pub fn icon_group_style(
    value: &str,
    gap_dir_selector: &str,
    gap_dir: &str,
    opposite_dir: &str,
    harmonic: String,
) -> (r: String)
    ensures
        r@ == icon_group_text(value@, gap_dir_selector@, gap_dir@, opposite_dir@, harmonic@),
{
    let mut r = String::new();
    r.append("icon-l");
    r.append(gap_dir_selector);
    r.append("[layout*=\"gap:");
    r.append(value);
    r.append("\"] >:nth-child(1){\n    margin-inline-");
    r.append(gap_dir);
    r.append(": ");
    r.append(harmonic.as_str());
    r.append(";\n    margin-inline-");
    r.append(opposite_dir);
    r.append(": initial;\n}\n");
    r
}

/// The rule of the `direction` of a ledge.
pub open spec fn ledge_direction_text(value: Seq<char>) -> Seq<char> {
    "ledge-l[layout~=\"direction:"@ + value + "\"]{\n    flex-direction: "@ + value + ";\n}\n"@
}

/// The rule of the `direction` of a ledge.
pub fn ledge_direction_style(value: &str) -> (r: String)
    ensures
        r@ == ledge_direction_text(value@),
{
    let mut r = String::new();
    r.append("ledge-l[layout~=\"direction:");
    r.append(value);
    r.append("\"]{\n    flex-direction: ");
    r.append(value);
    r.append(";\n}\n");
    r
}

/// The rule of the `justify` of a ledge.
pub open spec fn ledge_justify_text(value: Seq<char>) -> Seq<char> {
    "ledge-l[layout~=\"justify:"@ + value + "\"]{\n    justify-content: "@ + value + ";\n}\n"@
}

/// The rule of the `justify` of a ledge.
pub fn ledge_justify_style(value: &str) -> (r: String)
    ensures
        r@ == ledge_justify_text(value@),
{
    let mut r = String::new();
    r.append("ledge-l[layout~=\"justify:");
    r.append(value);
    r.append("\"]{\n    justify-content: ");
    r.append(value);
    r.append(";\n}\n");
    r
}

/// The rule of the `align` of a ledge.
pub open spec fn ledge_align_text(value: Seq<char>) -> Seq<char> {
    "ledge-l[layout~=\"align:"@ + value + "\"]{\n    align-items: "@ + value + ";\n}\n"@
}

/// The rule of the `align` of a ledge.
pub fn ledge_align_style(value: &str) -> (r: String)
    ensures
        r@ == ledge_align_text(value@),
{
    let mut r = String::new();
    r.append("ledge-l[layout~=\"align:");
    r.append(value);
    r.append("\"]{\n    align-items: ");
    r.append(value);
    r.append(";\n}\n");
    r
}

/// The rule of the `gap` of a ledge.
pub open spec fn ledge_gap_text(value: Seq<char>, harmonic: Seq<char>) -> Seq<char> {
    "ledge-l[layout~=\"gap:"@ + value + "\"]{\n    gap: "@ + harmonic + ";\n}\n"@
}

/// The rule of the `gap` of a ledge.
pub fn ledge_gap_style(value: &str, harmonic: String) -> (r: String)
    ensures
        r@ == ledge_gap_text(value@, harmonic@),
{
    let mut r = String::new();
    r.append("ledge-l[layout~=\"gap:");
    r.append(value);
    r.append("\"]{\n    gap: ");
    r.append(harmonic.as_str());
    r.append(";\n}\n");
    r
}

/// The rule of the `gap-x` of a ledge.
pub open spec fn ledge_gap_x_text(value: Seq<char>, harmonic: Seq<char>) -> Seq<char> {
    "ledge-l[layout~=\"gap-x:"@ + value + "\"]{\n    column-gap: "@ + harmonic + ";\n}\n"@
}

/// The rule of the `gap-x` of a ledge.
pub fn ledge_gap_x_style(value: &str, harmonic: String) -> (r: String)
    ensures
        r@ == ledge_gap_x_text(value@, harmonic@),
{
    let mut r = String::new();
    r.append("ledge-l[layout~=\"gap-x:");
    r.append(value);
    r.append("\"]{\n    column-gap: ");
    r.append(harmonic.as_str());
    r.append(";\n}\n");
    r
}

/// The rule of the `gap-y` of a ledge.
pub open spec fn ledge_gap_y_text(value: Seq<char>, harmonic: Seq<char>) -> Seq<char> {
    "ledge-l[layout~=\"gap-y:"@ + value + "\"]{\n    row-gap: "@ + harmonic + ";\n}\n"@
}

/// The rule of the `gap-y` of a ledge.
pub fn ledge_gap_y_style(value: &str, harmonic: String) -> (r: String)
    ensures
        r@ == ledge_gap_y_text(value@, harmonic@),
{
    let mut r = String::new();
    r.append("ledge-l[layout~=\"gap-y:");
    r.append(value);
    r.append("\"]{\n    row-gap: ");
    r.append(harmonic.as_str());
    r.append(";\n}\n");
    r
}

/// The rule of the `position` of an outsider.
pub open spec fn outsider_position_text(value: Seq<char>) -> Seq<char> {
    "outsider-l[layout~=\"position:"@ + value + "\"]{\n    position:"@ + value + ";\n}\n"@
}

/// The rule of the `position` of an outsider.
pub fn outsider_position_style(value: &str) -> (r: String)
    ensures
        r@ == outsider_position_text(value@),
{
    let mut r = String::new();
    r.append("outsider-l[layout~=\"position:");
    r.append(value);
    r.append("\"]{\n    position:");
    r.append(value);
    r.append(";\n}\n");
    r
}

/// The rule of the `top` of an outsider.
pub open spec fn outsider_top_text(value: Seq<char>, harmonic: Seq<char>) -> Seq<char> {
    "outsider-l[layout~=\"top:"@ + value + "\"]{\n    top:"@ + harmonic + ";\n}\n"@
}

/// The rule of the `top` of an outsider.
pub fn outsider_top_style(value: &str, harmonic: String) -> (r: String)
    ensures
        r@ == outsider_top_text(value@, harmonic@),
{
    let mut r = String::new();
    r.append("outsider-l[layout~=\"top:");
    r.append(value);
    r.append("\"]{\n    top:");
    r.append(harmonic.as_str());
    r.append(";\n}\n");
    r
}

/// The rule of the `bottom` of an outsider.
pub open spec fn outsider_bottom_text(value: Seq<char>, harmonic: Seq<char>) -> Seq<char> {
    "outsider-l[layout~=\"bottom:"@ + value + "\"]{\n    bottom:"@ + harmonic + ";\n}\n"@
}

/// The rule of the `bottom` of an outsider.
pub fn outsider_bottom_style(value: &str, harmonic: String) -> (r: String)
    ensures
        r@ == outsider_bottom_text(value@, harmonic@),
{
    let mut r = String::new();
    r.append("outsider-l[layout~=\"bottom:");
    r.append(value);
    r.append("\"]{\n    bottom:");
    r.append(harmonic.as_str());
    r.append(";\n}\n");
    r
}

/// The rule of the `left` of an outsider.
pub open spec fn outsider_left_text(value: Seq<char>, harmonic: Seq<char>) -> Seq<char> {
    "outsider-l[layout~=\"left:"@ + value + "\"]{\n    left:"@ + harmonic + ";\n}\n"@
}

/// The rule of the `left` of an outsider.
pub fn outsider_left_style(value: &str, harmonic: String) -> (r: String)
    ensures
        r@ == outsider_left_text(value@, harmonic@),
{
    let mut r = String::new();
    r.append("outsider-l[layout~=\"left:");
    r.append(value);
    r.append("\"]{\n    left:");
    r.append(harmonic.as_str());
    r.append(";\n}\n");
    r
}

/// The rule of the `right` of an outsider.
pub open spec fn outsider_right_text(value: Seq<char>, harmonic: Seq<char>) -> Seq<char> {
    "outsider-l[layout~=\"right:"@ + value + "\"]{\n    right:"@ + harmonic + ";\n}\n"@
}

/// The rule of the `right` of an outsider.
pub fn outsider_right_style(value: &str, harmonic: String) -> (r: String)
    ensures
        r@ == outsider_right_text(value@, harmonic@),
{
    let mut r = String::new();
    r.append("outsider-l[layout~=\"right:");
    r.append(value);
    r.append("\"]{\n    right:");
    r.append(harmonic.as_str());
    r.append(";\n}\n");
    r
}

/// The rule of the `height` of a rack.
pub open spec fn rack_height_text(value: Seq<char>, harmonic: Seq<char>) -> Seq<char> {
    "rack-l[layout~=\"height:"@ + value + "\"]{\n    height: "@ + harmonic
        + ";\n    overflow-y: auto;\n}\n"@
}

/// The rule of the `height` of a rack.
pub fn rack_height_style(value: &str, harmonic: String) -> (r: String)
    ensures
        r@ == rack_height_text(value@, harmonic@),
{
    let mut r = String::new();
    r.append("rack-l[layout~=\"height:");
    r.append(value);
    r.append("\"]{\n    height: ");
    r.append(harmonic.as_str());
    r.append(";\n    overflow-y: auto;\n}\n");
    r
}

/// The rule of the `min-height` of a rack.
pub open spec fn rack_min_height_text(value: Seq<char>, harmonic: Seq<char>) -> Seq<char> {
    "rack-l[layout~=\"min-height:"@ + value + "\"]{\n    min-height: "@ + harmonic + ";\n}\n"@
}

/// The rule of the `min-height` of a rack.
pub fn rack_min_height_style(value: &str, harmonic: String) -> (r: String)
    ensures
        r@ == rack_min_height_text(value@, harmonic@),
{
    let mut r = String::new();
    r.append("rack-l[layout~=\"min-height:");
    r.append(value);
    r.append("\"]{\n    min-height: ");
    r.append(harmonic.as_str());
    r.append(";\n}\n");
    r
}

/// The rule of the `max-height` of a rack.
pub open spec fn rack_max_height_text(value: Seq<char>, harmonic: Seq<char>) -> Seq<char> {
    "rack-l[layout~=\"max-height:"@ + value + "\"]{\n    max-height: "@ + harmonic + ";\n}\n"@
}

/// The rule of the `max-height` of a rack.
pub fn rack_max_height_style(value: &str, harmonic: String) -> (r: String)
    ensures
        r@ == rack_max_height_text(value@, harmonic@),
{
    let mut r = String::new();
    r.append("rack-l[layout~=\"max-height:");
    r.append(value);
    r.append("\"]{\n    max-height: ");
    r.append(harmonic.as_str());
    r.append(";\n}\n");
    r
}

/// The rule of the `gap` of a rack.
pub open spec fn rack_gap_text(value: Seq<char>, harmonic: Seq<char>) -> Seq<char> {
    "rack-l[layout~=\"gap:"@ + value + "\"]{\n    gap: "@ + harmonic + ";\n}\n"@
}

/// The rule of the `gap` of a rack.
pub fn rack_gap_style(value: &str, harmonic: String) -> (r: String)
    ensures
        r@ == rack_gap_text(value@, harmonic@),
{
    let mut r = String::new();
    r.append("rack-l[layout~=\"gap:");
    r.append(value);
    r.append("\"]{\n    gap: ");
    r.append(harmonic.as_str());
    r.append(";\n}\n");
    r
}

/// The rule of the `direction` of a row.
pub open spec fn row_direction_text(value: Seq<char>) -> Seq<char> {
    "row-l[layout~=\"direction:"@ + value + "\"]{\n    flex-direction: "@ + value + ";\n}\n"@
}

/// The rule of the `direction` of a row.
pub fn row_direction_style(value: &str) -> (r: String)
    ensures
        r@ == row_direction_text(value@),
{
    let mut r = String::new();
    r.append("row-l[layout~=\"direction:");
    r.append(value);
    r.append("\"]{\n    flex-direction: ");
    r.append(value);
    r.append(";\n}\n");
    r
}

/// The rule of the `justify` of a row.
pub open spec fn row_justify_text(value: Seq<char>) -> Seq<char> {
    "row-l[layout~=\"justify:"@ + value + "\"]{\n    justify-content: "@ + value + ";\n}\n"@
}

/// The rule of the `justify` of a row.
pub fn row_justify_style(value: &str) -> (r: String)
    ensures
        r@ == row_justify_text(value@),
{
    let mut r = String::new();
    r.append("row-l[layout~=\"justify:");
    r.append(value);
    r.append("\"]{\n    justify-content: ");
    r.append(value);
    r.append(";\n}\n");
    r
}

/// The rule of the `align` of a row.
pub open spec fn row_align_text(value: Seq<char>) -> Seq<char> {
    "row-l[layout~=\"align:"@ + value + "\"]{\n    align-items: "@ + value + ";\n}\n"@
}

/// The rule of the `align` of a row.
pub fn row_align_style(value: &str) -> (r: String)
    ensures
        r@ == row_align_text(value@),
{
    let mut r = String::new();
    r.append("row-l[layout~=\"align:");
    r.append(value);
    r.append("\"]{\n    align-items: ");
    r.append(value);
    r.append(";\n}\n");
    r
}

/// The rule of the `gap` of a row.
pub open spec fn row_gap_text(value: Seq<char>, harmonic: Seq<char>) -> Seq<char> {
    "row-l[layout~=\"gap:"@ + value + "\"]{\n    gap: "@ + harmonic + ";\n}\n"@
}

/// The rule of the `gap` of a row.
pub fn row_gap_style(value: &str, harmonic: String) -> (r: String)
    ensures
        r@ == row_gap_text(value@, harmonic@),
{
    let mut r = String::new();
    r.append("row-l[layout~=\"gap:");
    r.append(value);
    r.append("\"]{\n    gap: ");
    r.append(harmonic.as_str());
    r.append(";\n}\n");
    r
}

/// The rule of the `gap-x` of a row.
pub open spec fn row_gap_x_text(value: Seq<char>, harmonic: Seq<char>) -> Seq<char> {
    "row-l[layout~=\"gap-x:"@ + value + "\"]{\n    column-gap: "@ + harmonic + ";\n}\n"@
}

/// The rule of the `gap-x` of a row.
pub fn row_gap_x_style(value: &str, harmonic: String) -> (r: String)
    ensures
        r@ == row_gap_x_text(value@, harmonic@),
{
    let mut r = String::new();
    r.append("row-l[layout~=\"gap-x:");
    r.append(value);
    r.append("\"]{\n    column-gap: ");
    r.append(harmonic.as_str());
    r.append(";\n}\n");
    r
}

/// The rule of the `gap-y` of a row.
pub open spec fn row_gap_y_text(value: Seq<char>, harmonic: Seq<char>) -> Seq<char> {
    "row-l[layout~=\"gap-y:"@ + value + "\"]{\n    row-gap: "@ + harmonic + ";\n}\n"@
}

/// The rule of the `gap-y` of a row.
pub fn row_gap_y_style(value: &str, harmonic: String) -> (r: String)
    ensures
        r@ == row_gap_y_text(value@, harmonic@),
{
    let mut r = String::new();
    r.append("row-l[layout~=\"gap-y:");
    r.append(value);
    r.append("\"]{\n    row-gap: ");
    r.append(harmonic.as_str());
    r.append(";\n}\n");
    r
}

/// The rule of the `gap` of a sidebar.
pub open spec fn sidebar_gap_text(value: Seq<char>, harmonic: Seq<char>) -> Seq<char> {
    "sidebar-l[layout~=\"gap:"@ + value + "\"]{\n    gap: "@ + harmonic + ";\n}\n"@
}

/// The rule of the `gap` of a sidebar.
pub fn sidebar_gap_style(value: &str, harmonic: String) -> (r: String)
    ensures
        r@ == sidebar_gap_text(value@, harmonic@),
{
    let mut r = String::new();
    r.append("sidebar-l[layout~=\"gap:");
    r.append(value);
    r.append("\"]{\n    gap: ");
    r.append(harmonic.as_str());
    r.append(";\n}\n");
    r
}

/// The rule of the `gap-x` of a sidebar.
pub open spec fn sidebar_gap_x_text(value: Seq<char>, harmonic: Seq<char>) -> Seq<char> {
    "sidebar-l[layout~=\"gap-x:"@ + value + "\"]{\n    column-gap: "@ + harmonic + ";\n}\n"@
}

/// The rule of the `gap-x` of a sidebar.
pub fn sidebar_gap_x_style(value: &str, harmonic: String) -> (r: String)
    ensures
        r@ == sidebar_gap_x_text(value@, harmonic@),
{
    let mut r = String::new();
    r.append("sidebar-l[layout~=\"gap-x:");
    r.append(value);
    r.append("\"]{\n    column-gap: ");
    r.append(harmonic.as_str());
    r.append(";\n}\n");
    r
}

/// The rule of the `gap-y` of a sidebar.
pub open spec fn sidebar_gap_y_text(value: Seq<char>, harmonic: Seq<char>) -> Seq<char> {
    "sidebar-l[layout~=\"gap-y:"@ + value + "\"]{\n    row-gap: "@ + harmonic + ";\n}\n"@
}

/// The rule of the `gap-y` of a sidebar.
pub fn sidebar_gap_y_style(value: &str, harmonic: String) -> (r: String)
    ensures
        r@ == sidebar_gap_y_text(value@, harmonic@),
{
    let mut r = String::new();
    r.append("sidebar-l[layout~=\"gap-y:");
    r.append(value);
    r.append("\"]{\n    row-gap: ");
    r.append(harmonic.as_str());
    r.append(";\n}\n");
    r
}

/// The rule of the `item-width` of a slider.
pub open spec fn slider_item_width_text(value: Seq<char>) -> Seq<char> {
    "slider-l[layout~=\"item-width:"@ + value + "\"] > *:not(outsider-l){\n    flex-basis:"@ + value
        + ";\n}\n"@
}

/// The rule of the `item-width` of a slider.
pub fn slider_item_width_style(value: &str) -> (r: String)
    ensures
        r@ == slider_item_width_text(value@),
{
    let mut r = String::new();
    r.append("slider-l[layout~=\"item-width:");
    r.append(value);
    r.append("\"] > *:not(outsider-l){\n    flex-basis:");
    r.append(value);
    r.append(";\n}\n");
    r
}

/// The rule of the `height` of a slider.
pub open spec fn slider_height_text(value: Seq<char>) -> Seq<char> {
    "slider-l[layout~=\"height:"@ + value + "\"] > *:not(outsider-l){\n    block-size:"@ + value
        + ";\n}\n"@
}

/// The rule of the `height` of a slider.
pub fn slider_height_style(value: &str) -> (r: String)
    ensures
        r@ == slider_height_text(value@),
{
    let mut r = String::new();
    r.append("slider-l[layout~=\"height:");
    r.append(value);
    r.append("\"] > *:not(outsider-l){\n    block-size:");
    r.append(value);
    r.append(";\n}\n");
    r
}

/// The rule of the `gap` of a slider.
pub open spec fn slider_gap_text(value: Seq<char>, harmonic: Seq<char>) -> Seq<char> {
    "slider-l[layout~=\"gap:"@ + value + "\"] {\n    gap: "@ + harmonic + ";\n}\n"@
}

/// The rule of the `gap` of a slider.
pub fn slider_gap_style(value: &str, harmonic: String) -> (r: String)
    ensures
        r@ == slider_gap_text(value@, harmonic@),
{
    let mut r = String::new();
    r.append("slider-l[layout~=\"gap:");
    r.append(value);
    r.append("\"] {\n    gap: ");
    r.append(harmonic.as_str());
    r.append(";\n}\n");
    r
}

/// The rule of the `gap` of a stack.
pub open spec fn stack_gap_text(value: Seq<char>, harmonic: Seq<char>) -> Seq<char> {
    "stack-l[layout~=\"gap:"@ + value + "\"] > *
        + *:not(outsider-l:not([layout~=\"disinherit\"])){\n    margin-block-start: "@ + harmonic
        + ";\n}\n"@
}

/// The rule of the `gap` of a stack.
pub fn stack_gap_style(value: &str, harmonic: String) -> (r: String)
    ensures
        r@ == stack_gap_text(value@, harmonic@),
{
    let mut r = String::new();
    r.append("stack-l[layout~=\"gap:");
    r.append(value);
    r.append("\"] > *
        + *:not(outsider-l:not([layout~=\"disinherit\"])){\n    margin-block-start: ");
    r.append(harmonic.as_str());
    r.append(";\n}\n");
    r
}

/// The rule of the `recursive` of a stack.
pub open spec fn stack_recursive_text(harmonic: Seq<char>) -> Seq<char> {
    "stack-l[layout~=\"recursive\"] *
        + *:not(outsider-l:not([layout~=\"disinherit\"])){\n    margin-block-start: "@ + harmonic
        + ";\n}\n"@
}

/// The rule of the `recursive` of a stack.
pub fn stack_recursive_style(harmonic: String) -> (r: String)
    ensures
        r@ == stack_recursive_text(harmonic@),
{
    let mut r = String::new();
    r.append("stack-l[layout~=\"recursive\"] *
        + *:not(outsider-l:not([layout~=\"disinherit\"])){\n    margin-block-start: ");
    r.append(harmonic.as_str());
    r.append(";\n}\n");
    r
}

/// The rule of the `threshold` of a switcher.
pub open spec fn switcher_threshold_text(value: Seq<char>) -> Seq<char> {
    "switcher-l[layout~=\"threshold:"@ + value
        + "\"] > *:not(outsider-l) {\n    flex-basis: calc(("@ + value + " - 100%) * 999);\n}\n"@
}

/// The rule of the `threshold` of a switcher.
pub fn switcher_threshold_style(value: &str) -> (r: String)
    ensures
        r@ == switcher_threshold_text(value@),
{
    let mut r = String::new();
    r.append("switcher-l[layout~=\"threshold:");
    r.append(value);
    r.append("\"] > *:not(outsider-l) {\n    flex-basis: calc((");
    r.append(value);
    r.append(" - 100%) * 999);\n}\n");
    r
}

/// The rule of the `limit` of a switcher.
pub open spec fn switcher_limit_text(value: Seq<char>) -> Seq<char> {
    "switcher-l[layout~=\"limit:"@ + value + "\"] > :nth-last-child(n+"@ + value
        + "):not(outsider-l),\nswitcher-l[layout~=\"limit:"@ + value + "\"] > :nth-last-child(n+"@
        + value + ") ~ *:not(outsider-l){\n    flex-basis: 100%;\n}\n"@
}

/// The rule of the `limit` of a switcher.
pub fn switcher_limit_style(value: &str) -> (r: String)
    ensures
        r@ == switcher_limit_text(value@),
{
    let mut r = String::new();
    r.append("switcher-l[layout~=\"limit:");
    r.append(value);
    r.append("\"] > :nth-last-child(n+");
    r.append(value);
    r.append("):not(outsider-l),\nswitcher-l[layout~=\"limit:");
    r.append(value);
    r.append("\"] > :nth-last-child(n+");
    r.append(value);
    r.append(") ~ *:not(outsider-l){\n    flex-basis: 100%;\n}\n");
    r
}

/// The rule of the `gap` of a switcher.
pub open spec fn switcher_gap_text(value: Seq<char>, harmonic: Seq<char>) -> Seq<char> {
    "switcher-l[layout~=\"gap:"@ + value + "\"]{\n    gap: "@ + harmonic + ";\n}\n"@
}

/// The rule of the `gap` of a switcher.
pub fn switcher_gap_style(value: &str, harmonic: String) -> (r: String)
    ensures
        r@ == switcher_gap_text(value@, harmonic@),
{
    let mut r = String::new();
    r.append("switcher-l[layout~=\"gap:");
    r.append(value);
    r.append("\"]{\n    gap: ");
    r.append(harmonic.as_str());
    r.append(";\n}\n");
    r
}

/// The rule of the `gap-x` of a switcher.
pub open spec fn switcher_gap_x_text(value: Seq<char>, harmonic: Seq<char>) -> Seq<char> {
    "switcher-l[layout~=\"gap-x:"@ + value + "\"]{\n    column-gap: "@ + harmonic + ";\n}\n"@
}

/// The rule of the `gap-x` of a switcher.
pub fn switcher_gap_x_style(value: &str, harmonic: String) -> (r: String)
    ensures
        r@ == switcher_gap_x_text(value@, harmonic@),
{
    let mut r = String::new();
    r.append("switcher-l[layout~=\"gap-x:");
    r.append(value);
    r.append("\"]{\n    column-gap: ");
    r.append(harmonic.as_str());
    r.append(";\n}\n");
    r
}

/// The rule of the `gap-y` of a switcher.
pub open spec fn switcher_gap_y_text(value: Seq<char>, harmonic: Seq<char>) -> Seq<char> {
    "switcher-l[layout~=\"gap-y:"@ + value + "\"]{\n    row-gap: "@ + harmonic + ";\n}\n"@
}

/// The rule of the `gap-y` of a switcher.
pub fn switcher_gap_y_style(value: &str, harmonic: String) -> (r: String)
    ensures
        r@ == switcher_gap_y_text(value@, harmonic@),
{
    let mut r = String::new();
    r.append("switcher-l[layout~=\"gap-y:");
    r.append(value);
    r.append("\"]{\n    row-gap: ");
    r.append(harmonic.as_str());
    r.append(";\n}\n");
    r
}

} // verus!
