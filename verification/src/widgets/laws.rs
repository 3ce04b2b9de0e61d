use vstd::prelude::*;
use vstd::string::*;
use crate::ctext::{any_nul, nul_free};
use crate::error::{fits, has_nul};
use super::calendar::calendar_args_ok;
use super::calendar_date::calendar_date_args_ok;
use super::itemlist::itemlist_args_ok;
use super::itemlist_items::itemlist_items_args_ok;
use super::matrix::matrix_args_ok;
use super::menu::{MAX_MENUS, MAX_SUBMENU_ITEMS, menu_args_ok, menu_entry_ok};
use super::radio::radio_args_ok;
use super::selection::selection_args_ok;

verus! {

/// Whether no string of a list holds a zero byte.
pub open spec fn all_nul_free(values: Seq<&str>) -> bool {
    forall|i: int| 0 <= i < values.len() ==> nul_free(#[trigger] values[i])
}

pub(crate) proof fn lemma_all_nul_free(values: Seq<&str>)
    ensures
        all_nul_free(values) <==> !any_nul(values),
{
    if any_nul(values) {
        let k = choose|k: int| 0 <= k < values.len() && has_nul(values[k].spec_bytes());
        assert(!nul_free(values[k]));
    }
}

/// A menu bar converts whenever its menus and locations pair up, it has at most
/// `MAX_MENUS` menus of at most `MAX_SUBMENU_ITEMS` items, no item holds a zero
/// byte, and every location coordinate and the menu-bar position fit a C `int`.
pub proof fn lemma_menu_bar_converts(menus: Seq<Seq<&str>>, locations: Seq<(u32, u32)>, menu_pos: u32)
    requires
        menus.len() == locations.len(),
        menus.len() <= MAX_MENUS,
        fits(menu_pos as u64),
        forall|i: int|
            #![trigger menus[i]]
            0 <= i < menus.len() ==> {
                &&& menus[i].len() <= MAX_SUBMENU_ITEMS
                &&& all_nul_free(menus[i])
                &&& fits(locations[i].0 as u64)
                &&& fits(locations[i].1 as u64)
            },
    ensures
        menu_args_ok(menus, locations, menu_pos),
{
    assert forall|i: int| 0 <= i < menus.len() implies #[trigger] menu_entry_ok(menus[i], locations[i]) by {
        lemma_all_nul_free(menus[i]);
    }
}

/// The menu-bar position is not an index into the menus: any two positions that
/// fit a C `int` are accepted or refused together, whatever the number of menus.
pub proof fn lemma_menu_position_is_not_an_index(
    menus: Seq<Seq<&str>>,
    locations: Seq<(u32, u32)>,
    pos_a: u32,
    pos_b: u32,
)
    requires
        fits(pos_a as u64),
        fits(pos_b as u64),
    ensures
        menu_args_ok(menus, locations, pos_a) == menu_args_ok(menus, locations, pos_b),
{
}

/// A matrix converts whenever it has as many column titles as column widths, every
/// position, view size and title count fits a C `int`, no title holds a zero byte
/// and every column width fits a C `int`; the number of rows is free.
pub proof fn lemma_matrix_converts(
    xpos: u32,
    ypos: u32,
    view_rows: u32,
    view_cols: u32,
    title: &str,
    row_titles: Seq<&str>,
    col_titles: Seq<&str>,
    col_widths: Seq<u32>,
)
    requires
        col_titles.len() == col_widths.len(),
        fits(xpos as u64),
        fits(ypos as u64),
        fits(view_rows as u64),
        fits(view_cols as u64),
        fits(row_titles.len() as u64),
        fits(col_titles.len() as u64),
        nul_free(title),
        all_nul_free(row_titles),
        all_nul_free(col_titles),
        forall|i: int| 0 <= i < col_widths.len() ==> fits(#[trigger] col_widths[i] as u64),
    ensures
        matrix_args_ok(xpos, ypos, view_rows, view_cols, title, row_titles, col_titles, col_widths),
{
    lemma_all_nul_free(row_titles);
    lemma_all_nul_free(col_titles);
}

/// The rows of a matrix are independent of its columns: two lists of row titles
/// without zero bytes, each of a length that fits a C `int`, are accepted or
/// refused together, whatever their lengths and the number of columns.
pub proof fn lemma_matrix_rows_are_independent(
    xpos: u32,
    ypos: u32,
    view_rows: u32,
    view_cols: u32,
    title: &str,
    rows_a: Seq<&str>,
    rows_b: Seq<&str>,
    col_titles: Seq<&str>,
    col_widths: Seq<u32>,
)
    requires
        fits(rows_a.len() as u64),
        fits(rows_b.len() as u64),
        all_nul_free(rows_a),
        all_nul_free(rows_b),
    ensures
        matrix_args_ok(xpos, ypos, view_rows, view_cols, title, rows_a, col_titles, col_widths)
            == matrix_args_ok(xpos, ypos, view_rows, view_cols, title, rows_b, col_titles, col_widths),
{
    lemma_all_nul_free(rows_a);
    lemma_all_nul_free(rows_b);
}

/// A selection list converts whenever it has as many selections as items, every
/// position, size and count fits a C `int` and no string holds a zero byte; the
/// number of choice markers is free.
pub proof fn lemma_selection_converts(
    xpos: u32,
    ypos: u32,
    spos: u32,
    height: u32,
    width: u32,
    title: &str,
    items: Seq<&str>,
    choice_markers: Seq<&str>,
    selections: Seq<bool>,
)
    requires
        items.len() == selections.len(),
        fits(xpos as u64),
        fits(ypos as u64),
        fits(spos as u64),
        fits(height as u64),
        fits(width as u64),
        fits(items.len() as u64),
        fits(choice_markers.len() as u64),
        nul_free(title),
        all_nul_free(items),
        all_nul_free(choice_markers),
    ensures
        selection_args_ok(xpos, ypos, spos, height, width, title, items, choice_markers, selections),
{
    lemma_all_nul_free(items);
    lemma_all_nul_free(choice_markers);
}

/// The choice markers of a selection list are independent of its items: two
/// marker lists without zero bytes, each of a length that fits a C `int`, are
/// accepted or refused together, whatever their lengths and the number of items.
pub proof fn lemma_selection_markers_are_independent(
    xpos: u32,
    ypos: u32,
    spos: u32,
    height: u32,
    width: u32,
    title: &str,
    items: Seq<&str>,
    markers_a: Seq<&str>,
    markers_b: Seq<&str>,
    selections: Seq<bool>,
)
    requires
        fits(markers_a.len() as u64),
        fits(markers_b.len() as u64),
        all_nul_free(markers_a),
        all_nul_free(markers_b),
    ensures
        selection_args_ok(xpos, ypos, spos, height, width, title, items, markers_a, selections)
            == selection_args_ok(xpos, ypos, spos, height, width, title, items, markers_b, selections),
{
    lemma_all_nul_free(markers_a);
    lemma_all_nul_free(markers_b);
}

/// A radio list converts whenever every position, size, the item count and the
/// default item fit a C `int` and no string holds a zero byte; in particular any
/// item, the last one included, can be the default.
pub proof fn lemma_radio_converts(
    xpos: u32,
    ypos: u32,
    spos: u32,
    height: u32,
    width: u32,
    title: &str,
    items: Seq<&str>,
    default_item: u32,
)
    requires
        fits(xpos as u64),
        fits(ypos as u64),
        fits(spos as u64),
        fits(height as u64),
        fits(width as u64),
        fits(items.len() as u64),
        fits(default_item as u64),
        nul_free(title),
        all_nul_free(items),
    ensures
        radio_args_ok(xpos, ypos, spos, height, width, title, items, default_item),
{
    lemma_all_nul_free(items);
}

/// The default item of a radio list is not checked against its items: any two
/// default items that fit a C `int` are accepted or refused together.
pub proof fn lemma_radio_default_item_is_unchecked(
    xpos: u32,
    ypos: u32,
    spos: u32,
    height: u32,
    width: u32,
    title: &str,
    items: Seq<&str>,
    default_a: u32,
    default_b: u32,
)
    requires
        fits(default_a as u64),
        fits(default_b as u64),
    ensures
        radio_args_ok(xpos, ypos, spos, height, width, title, items, default_a)
            == radio_args_ok(xpos, ypos, spos, height, width, title, items, default_b),
{
}

/// The default item of an item list widget is not checked against its items: any
/// two default items that fit a C `int` are accepted or refused together, when the
/// widget is made and when its items are replaced.
pub proof fn lemma_itemlist_default_item_is_unchecked(
    xpos: u32,
    ypos: u32,
    title: &str,
    label: &str,
    items: Seq<&str>,
    default_a: u32,
    default_b: u32,
)
    requires
        fits(default_a as u64),
        fits(default_b as u64),
    ensures
        itemlist_args_ok(xpos, ypos, title, label, items, default_a)
            == itemlist_args_ok(xpos, ypos, title, label, items, default_b),
        itemlist_items_args_ok(items, default_a) == itemlist_items_args_ok(items, default_b),
{
}

/// A calendar converts whenever its position, day, month and year fit a C `int` and
/// its title holds no zero byte; the date itself is passed on unchecked, so every
/// month from 1 to 12 is accepted, and so is a new date set later.
pub proof fn lemma_calendar_converts(
    xpos: u32,
    ypos: u32,
    title: &str,
    day: u32,
    month: u32,
    year: u32,
)
    requires
        fits(xpos as u64),
        fits(ypos as u64),
        fits(day as u64),
        fits(month as u64),
        fits(year as u64),
        nul_free(title),
    ensures
        calendar_args_ok(xpos, ypos, title, day, month, year),
        calendar_date_args_ok(day, month, year),
{
}

/// Whether a calendar converts does not depend on its date, among dates whose
/// day, month and year fit a C `int`.
pub proof fn lemma_calendar_date_is_unchecked(
    xpos: u32,
    ypos: u32,
    title: &str,
    date_a: (u32, u32, u32),
    date_b: (u32, u32, u32),
)
    requires
        fits(date_a.0 as u64),
        fits(date_a.1 as u64),
        fits(date_a.2 as u64),
        fits(date_b.0 as u64),
        fits(date_b.1 as u64),
        fits(date_b.2 as u64),
    ensures
        calendar_args_ok(xpos, ypos, title, date_a.0, date_a.1, date_a.2)
            == calendar_args_ok(xpos, ypos, title, date_b.0, date_b.1, date_b.2),
        calendar_date_args_ok(date_a.0, date_a.1, date_a.2)
            == calendar_date_args_ok(date_b.0, date_b.1, date_b.2),
{
}

} // verus!
