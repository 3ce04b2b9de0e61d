//! Verified argument checking and result decoding for bindings to the Curses
//! Development Kit (CDK).
//!
//! Every widget call of the binding converts Rust values for C before it
//! reaches CDK, and decodes what CDK hands back. This crate holds those
//! conversions, each proved against a contract: which argument is checked
//! first, which error is reported, and what the native call receives.
//! The native calls themselves live with the widget handles, outside this
//! crate.

mod activation;
mod border;
mod ctext;
mod decimal;
mod error;
mod keys;
mod position;
mod terminal;
mod widgets;

pub use activation::{
    Activation, activation, activation_code, activation_result, check_handle, check_status,
    lemma_activation_code_is_recovered, lemma_activation_decodes_its_code,
};
pub use border::{Border, flag_value, flags};
pub use ctext::{
    CStringArray, CText, all_fit, any_nul, c_text, is_first_nul_error, is_first_out_of_range,
    is_nul_error_for, is_one_based_ints, lemma_encoded_nul, lemma_nul_free_iff_no_nul_char,
    nul_free, one_based_ints, one_based_repeat, one_based_strings, owned_c_string, texts_bytes, utf8_error_of,
};
pub use decimal::{decimal, digit_char, signed_decimal};
pub use error::{
    Error, NulError, c_int_max, checked_c_int, fits, has_nul, is_first_nul, lemma_fits_is_i32_range,
    message_text,
};
pub use keys::{key_char, key_code, lemma_key_round_trip, low_byte, signed_byte};
pub use position::{BOTTOM, CENTER, LEFT, RIGHT, TOP};
pub use terminal::{
    TerminalEvent, TerminalState, ends_now, lemma_curses_ends_at_most_once, window_ends,
};
pub use widgets::{
    AlphalistParams, alphalist_args_ok, alphalist_args_error, ItemsParams, items_args_ok,
    items_args_error, ButtonParams, button_args_ok, button_args_error, ButtonboxParams,
    buttonbox_args_ok, buttonbox_args_error, CalendarParams, calendar_args_ok,
    calendar_args_error, DateParams, calendar_date_args_ok, calendar_date_args_error,
    DialogParams, dialog_args_ok, dialog_args_error, DigitScaleParams, digit_scale_args_ok,
    digit_scale_args_error, ScaleParams, scale_args_ok, scale_args_error, EntryParams,
    entry_args_ok, entry_args_error, FselectParams, fselect_args_ok, fselect_args_error,
    ViewerParams, viewer_args_ok, viewer_args_error, ViewerInfoParams, viewer_info_args_ok,
    viewer_info_args_error, MentryParams, mentry_args_ok, mentry_args_error, GraphParams,
    graph_args_ok, graph_args_error, HistogramParams, histogram_args_ok, histogram_args_error,
    ItemlistParams, itemlist_args_ok, itemlist_args_error, ItemlistItemsParams,
    itemlist_items_args_ok, itemlist_items_args_error, LabelParams, label_args_ok,
    label_args_error, MarqueeParams, marquee_args_ok, marquee_args_error, MarqueeMessageParams,
    marquee_message_args_ok, marquee_message_args_error, MatrixParams, matrix_args_ok,
    matrix_args_error, MenuPositionParams, menu_position_args_ok, menu_position_args_error,
    RadioParams, radio_args_ok, radio_args_error, ScrollParams, scroll_args_ok,
    scroll_args_error, SelectionParams, selection_args_ok, selection_args_error, SwindowParams,
    swindow_args_ok, swindow_args_error, SwindowLineParams, swindow_line_args_ok,
    swindow_line_args_error, TemplateParams, template_args_ok, template_args_error, MenuParams,
    MAX_MENUS, MAX_SUBMENU_ITEMS, menu_args_ok, menu_args_error, menu_entry_ok, menu_entry_error,
    menu_items, menu_params_hold, MatrixCellParams, matrix_cell_index, matrix_cell_ok,
    matrix_cell_error, matrix_position, zero_based, lemma_matrix_cell_round_trip, all_nul_free,
    lemma_menu_bar_converts, lemma_menu_position_is_not_an_index, lemma_matrix_converts,
    lemma_matrix_rows_are_independent, lemma_selection_converts,
    lemma_selection_markers_are_independent, lemma_radio_converts,
    lemma_radio_default_item_is_unchecked, lemma_itemlist_default_item_is_unchecked,
    lemma_calendar_converts, lemma_calendar_date_is_unchecked,
};
