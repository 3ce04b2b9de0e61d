use vstd::prelude::*;
use vstd::string::*;
use crate::border::{Border, flag_value, flags};
use crate::ctext::{CStringArray, CText, any_nul, c_text, is_first_nul_error, is_nul_error_for, nul_free, texts_bytes};
use crate::error::{Error, checked_c_int, fits};

verus! {

/// The native arguments of a new selection list, converted for CDK.
#[derive(Debug)]
pub struct SelectionParams {
    pub xpos: i32,
    pub ypos: i32,
    pub spos: i32,
    pub height: i32,
    pub width: i32,
    pub item_count: i32,
    pub title: CText,
    pub items: CStringArray,
    pub choice_count: i32,
    pub choice_markers: CStringArray,
    pub selections: Vec<i32>,
    pub boxed: i32,
    pub shadow: i32,
}

/// Whether every argument of a new selection list converts for CDK.
pub open spec fn selection_args_ok(
    xpos: u32,
    ypos: u32,
    spos: u32,
    height: u32,
    width: u32,
    title: &str,
    items: Seq<&str>,
    choice_markers: Seq<&str>,
    selections: Seq<bool>,
) -> bool {
    &&& items.len() == selections.len()
    &&& fits(xpos as u64)
    &&& fits(ypos as u64)
    &&& fits(spos as u64)
    &&& fits(height as u64)
    &&& fits(width as u64)
    &&& fits(items.len() as u64)
    &&& nul_free(title)
    &&& !any_nul(items)
    &&& fits(choice_markers.len() as u64)
    &&& !any_nul(choice_markers)
}

/// Whether `e` is the error of the first argument of a new selection list that does not convert.
pub open spec fn selection_args_error(
    xpos: u32,
    ypos: u32,
    spos: u32,
    height: u32,
    width: u32,
    title: &str,
    items: Seq<&str>,
    choice_markers: Seq<&str>,
    selections: Seq<bool>,
    e: Error,
) -> bool {
    if items.len() != selections.len() {
        e == Error::LengthMismatch("selection choices", items.len() as usize, selections.len() as usize)
    } else if !fits(xpos as u64) {
        e == Error::ValueOutOfRange("x position", xpos as u64)
    } else if !fits(ypos as u64) {
        e == Error::ValueOutOfRange("y position", ypos as u64)
    } else if !fits(spos as u64) {
        e == Error::ValueOutOfRange("scrollbar position", spos as u64)
    } else if !fits(height as u64) {
        e == Error::ValueOutOfRange("height", height as u64)
    } else if !fits(width as u64) {
        e == Error::ValueOutOfRange("width", width as u64)
    } else if !fits(items.len() as u64) {
        e == Error::ValueOutOfRange("item count", items.len() as u64)
    } else if !nul_free(title) {
        is_nul_error_for(e, title.spec_bytes())
    } else if any_nul(items) {
        is_first_nul_error(e, items)
    } else if !fits(choice_markers.len() as u64) {
        e == Error::ValueOutOfRange("choice marker count", choice_markers.len() as u64)
    } else if any_nul(choice_markers) {
        is_first_nul_error(e, choice_markers)
    } else {
        false
    }
}

impl SelectionParams {
    /// Converts the arguments of Selection::new, in the order the binding checks them.
    pub fn new(
        xpos: u32,
        ypos: u32,
        spos: u32,
        height: u32,
        width: u32,
        title: &str,
        items: &[&str],
        choice_markers: &[&str],
        selections: &[bool],
        border: Border,
    ) -> (r: Result<SelectionParams, Error>)
        ensures
            r is Ok <==> selection_args_ok(xpos, ypos, spos, height, width, title, items@, choice_markers@, selections@),
            r matches Err(e) ==> selection_args_error(xpos, ypos, spos, height, width, title, items@, choice_markers@, selections@, e),
            r matches Ok(p) ==> {
                &&& p.xpos == xpos
                &&& p.ypos == ypos
                &&& p.spos == spos
                &&& p.height == height
                &&& p.width == width
                &&& p.item_count == items.len()
                &&& p.title@ == title.spec_bytes()
                &&& p.items@ == texts_bytes(items@)
                &&& p.choice_count == choice_markers.len()
                &&& p.choice_markers@ == texts_bytes(choice_markers@)
                &&& p.selections@ == selections@.map_values(|b: bool| flag_value(b))
                &&& p.boxed == flag_value(border.boxed)
                &&& p.shadow == flag_value(border.shadow)
            },
            ({
                &&& items@.len() == selections@.len()
                &&& fits(xpos as u64)
                &&& fits(ypos as u64)
                &&& fits(spos as u64)
                &&& fits(height as u64)
                &&& fits(width as u64)
                &&& fits(items@.len() as u64)
                &&& nul_free(title)
                &&& !any_nul(items@)
                &&& fits(choice_markers@.len() as u64)
                &&& !any_nul(choice_markers@)
            }) <==> r is Ok,
    {
        if items.len() != selections.len() {
            return Err(Error::LengthMismatch("selection choices", items.len(), selections.len()));
        }
        let xpos = checked_c_int(xpos as u64, "x position")?;
        let ypos = checked_c_int(ypos as u64, "y position")?;
        let spos = checked_c_int(spos as u64, "scrollbar position")?;
        let height = checked_c_int(height as u64, "height")?;
        let width = checked_c_int(width as u64, "width")?;
        let item_count = checked_c_int(items.len() as u64, "item count")?;
        let title_text = c_text(title)?;
        let items = CStringArray::new(items)?;
        let choice_count = checked_c_int(choice_markers.len() as u64, "choice marker count")?;
        let choice_markers = CStringArray::new(choice_markers)?;
        let selections = flags(selections);
        let boxed = border.boxed_flag();
        let shadow = border.shadow_flag();
        Ok(SelectionParams { xpos, ypos, spos, height, width, item_count, title: title_text, items, choice_count, choice_markers, selections, boxed, shadow })
    }
}

} // verus!
