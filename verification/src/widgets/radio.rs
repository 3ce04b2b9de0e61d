use vstd::prelude::*;
use vstd::string::*;
use crate::border::{Border, flag_value};
use crate::ctext::{CStringArray, CText, any_nul, c_text, is_first_nul_error, is_nul_error_for, nul_free, texts_bytes};
use crate::error::{Error, checked_c_int, fits};

verus! {

/// The native arguments of a new radio list, converted for CDK.
#[derive(Debug)]
pub struct RadioParams {
    pub xpos: i32,
    pub ypos: i32,
    pub spos: i32,
    pub height: i32,
    pub width: i32,
    pub item_count: i32,
    pub default_item: i32,
    pub title: CText,
    pub items: CStringArray,
    pub boxed: i32,
    pub shadow: i32,
}

/// Whether every argument of a new radio list converts for CDK.
pub open spec fn radio_args_ok(
    xpos: u32,
    ypos: u32,
    spos: u32,
    height: u32,
    width: u32,
    title: &str,
    items: Seq<&str>,
    default_item: u32,
) -> bool {
    &&& fits(xpos as u64)
    &&& fits(ypos as u64)
    &&& fits(spos as u64)
    &&& fits(height as u64)
    &&& fits(width as u64)
    &&& fits(items.len() as u64)
    &&& fits(default_item as u64)
    &&& nul_free(title)
    &&& !any_nul(items)
}

/// Whether `e` is the error of the first argument of a new radio list that does not convert.
pub open spec fn radio_args_error(
    xpos: u32,
    ypos: u32,
    spos: u32,
    height: u32,
    width: u32,
    title: &str,
    items: Seq<&str>,
    default_item: u32,
    e: Error,
) -> bool {
    if !fits(xpos as u64) {
        e == Error::ValueOutOfRange("x position", xpos as u64)
    } else if !fits(ypos as u64) {
        e == Error::ValueOutOfRange("y position", ypos as u64)
    } else if !fits(spos as u64) {
        e == Error::ValueOutOfRange("scrollbar position", spos as u64)
    } else if !fits(height as u64) {
        e == Error::ValueOutOfRange("height", height as u64)
    } else if !fits(width as u64) {
        e == Error::ValueOutOfRange("width", width as u64)
    } else if !fits(items.len() as u64) {
        e == Error::ValueOutOfRange("item count", items.len() as u64)
    } else if !fits(default_item as u64) {
        e == Error::ValueOutOfRange("default item", default_item as u64)
    } else if !nul_free(title) {
        is_nul_error_for(e, title.spec_bytes())
    } else if any_nul(items) {
        is_first_nul_error(e, items)
    } else {
        false
    }
}

impl RadioParams {
    /// Converts the arguments of Radio::new, in the order the binding checks them.
    pub fn new(
        xpos: u32,
        ypos: u32,
        spos: u32,
        height: u32,
        width: u32,
        title: &str,
        items: &[&str],
        default_item: u32,
        border: Border,
    ) -> (r: Result<RadioParams, Error>)
        ensures
            r is Ok <==> radio_args_ok(xpos, ypos, spos, height, width, title, items@, default_item),
            r matches Err(e) ==> radio_args_error(xpos, ypos, spos, height, width, title, items@, default_item, e),
            r matches Ok(p) ==> {
                &&& p.xpos == xpos
                &&& p.ypos == ypos
                &&& p.spos == spos
                &&& p.height == height
                &&& p.width == width
                &&& p.item_count == items.len()
                &&& p.default_item == default_item
                &&& p.title@ == title.spec_bytes()
                &&& p.items@ == texts_bytes(items@)
                &&& p.boxed == flag_value(border.boxed)
                &&& p.shadow == flag_value(border.shadow)
            },
            ({
                &&& fits(xpos as u64)
                &&& fits(ypos as u64)
                &&& fits(spos as u64)
                &&& fits(height as u64)
                &&& fits(width as u64)
                &&& fits(items@.len() as u64)
                &&& fits(default_item as u64)
                &&& nul_free(title)
                &&& !any_nul(items@)
            }) <==> r is Ok,
    {
        let xpos = checked_c_int(xpos as u64, "x position")?;
        let ypos = checked_c_int(ypos as u64, "y position")?;
        let spos = checked_c_int(spos as u64, "scrollbar position")?;
        let height = checked_c_int(height as u64, "height")?;
        let width = checked_c_int(width as u64, "width")?;
        let item_count = checked_c_int(items.len() as u64, "item count")?;
        let default_item = checked_c_int(default_item as u64, "default item")?;
        let title_text = c_text(title)?;
        let items = CStringArray::new(items)?;
        let boxed = border.boxed_flag();
        let shadow = border.shadow_flag();
        Ok(RadioParams { xpos, ypos, spos, height, width, item_count, default_item, title: title_text, items, boxed, shadow })
    }
}

} // verus!
