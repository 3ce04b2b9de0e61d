//! The conversions each widget call makes before it reaches CDK.

mod alphalist;
mod items;
mod button;
mod buttonbox;
mod calendar;
mod calendar_date;
mod dialog;
mod digit_scale;
mod scale;
mod entry;
mod fselect;
mod viewer;
mod viewer_info;
mod mentry;
mod graph;
mod histogram;
mod itemlist;
mod itemlist_items;
mod label;
mod marquee;
mod marquee_message;
mod matrix;
mod menu_position;
mod radio;
mod scroll;
mod selection;
mod swindow;
mod swindow_line;
mod template;
mod matrix_cell;
mod menu;
mod laws;

pub use alphalist::{AlphalistParams, alphalist_args_ok, alphalist_args_error};
pub use items::{ItemsParams, items_args_ok, items_args_error};
pub use button::{ButtonParams, button_args_ok, button_args_error};
pub use buttonbox::{ButtonboxParams, buttonbox_args_ok, buttonbox_args_error};
pub use calendar::{CalendarParams, calendar_args_ok, calendar_args_error};
pub use calendar_date::{DateParams, calendar_date_args_ok, calendar_date_args_error};
pub use dialog::{DialogParams, dialog_args_ok, dialog_args_error};
pub use digit_scale::{DigitScaleParams, digit_scale_args_ok, digit_scale_args_error};
pub use scale::{ScaleParams, scale_args_ok, scale_args_error};
pub use entry::{EntryParams, entry_args_ok, entry_args_error};
pub use fselect::{FselectParams, fselect_args_ok, fselect_args_error};
pub use viewer::{ViewerParams, viewer_args_ok, viewer_args_error};
pub use viewer_info::{ViewerInfoParams, viewer_info_args_ok, viewer_info_args_error};
pub use mentry::{MentryParams, mentry_args_ok, mentry_args_error};
pub use graph::{GraphParams, graph_args_ok, graph_args_error};
pub use histogram::{HistogramParams, histogram_args_ok, histogram_args_error};
pub use itemlist::{ItemlistParams, itemlist_args_ok, itemlist_args_error};
pub use itemlist_items::{ItemlistItemsParams, itemlist_items_args_ok, itemlist_items_args_error};
pub use label::{LabelParams, label_args_ok, label_args_error};
pub use marquee::{MarqueeParams, marquee_args_ok, marquee_args_error};
pub use marquee_message::{MarqueeMessageParams, marquee_message_args_ok, marquee_message_args_error};
pub use matrix::{MatrixParams, matrix_args_ok, matrix_args_error};
pub use menu_position::{MenuPositionParams, menu_position_args_ok, menu_position_args_error};
pub use radio::{RadioParams, radio_args_ok, radio_args_error};
pub use scroll::{ScrollParams, scroll_args_ok, scroll_args_error};
pub use selection::{SelectionParams, selection_args_ok, selection_args_error};
pub use swindow::{SwindowParams, swindow_args_ok, swindow_args_error};
pub use swindow_line::{SwindowLineParams, swindow_line_args_ok, swindow_line_args_error};
pub use template::{TemplateParams, template_args_ok, template_args_error};
pub use matrix_cell::{MatrixCellParams, matrix_cell_index, matrix_cell_ok, matrix_cell_error, matrix_position, zero_based, lemma_matrix_cell_round_trip};
pub use laws::{all_nul_free, lemma_menu_bar_converts, lemma_menu_position_is_not_an_index, lemma_matrix_converts, lemma_matrix_rows_are_independent, lemma_selection_converts, lemma_selection_markers_are_independent, lemma_radio_converts, lemma_radio_default_item_is_unchecked, lemma_itemlist_default_item_is_unchecked, lemma_calendar_converts, lemma_calendar_date_is_unchecked};
pub use menu::{MenuParams, MAX_MENUS, MAX_SUBMENU_ITEMS, menu_args_ok, menu_args_error, menu_entry_ok, menu_entry_error, menu_items, menu_params_hold};
