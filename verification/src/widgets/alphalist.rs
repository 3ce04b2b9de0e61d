use vstd::prelude::*;
use vstd::string::*;
use crate::border::{Border, flag_value};
use crate::ctext::{CStringArray, CText, any_nul, c_text, is_first_nul_error, is_nul_error_for, nul_free, texts_bytes};
use crate::error::{Error, checked_c_int, fits};

verus! {

/// The native arguments of a new alphalist, converted for CDK.
#[derive(Debug)]
pub struct AlphalistParams {
    pub xpos: i32,
    pub ypos: i32,
    pub height: i32,
    pub width: i32,
    pub item_count: i32,
    pub title: CText,
    pub label: CText,
    pub items: CStringArray,
    pub boxed: i32,
    pub shadow: i32,
}

/// Whether every argument of a new alphalist converts for CDK.
pub open spec fn alphalist_args_ok(
    xpos: u32,
    ypos: u32,
    height: u32,
    width: u32,
    title: &str,
    label: &str,
    items: Seq<&str>,
) -> bool {
    &&& fits(xpos as u64)
    &&& fits(ypos as u64)
    &&& fits(height as u64)
    &&& fits(width as u64)
    &&& fits(items.len() as u64)
    &&& nul_free(title)
    &&& nul_free(label)
    &&& !any_nul(items)
}

/// Whether `e` is the error of the first argument of a new alphalist that does not convert.
pub open spec fn alphalist_args_error(
    xpos: u32,
    ypos: u32,
    height: u32,
    width: u32,
    title: &str,
    label: &str,
    items: Seq<&str>,
    e: Error,
) -> bool {
    if !fits(xpos as u64) {
        e == Error::ValueOutOfRange("x position", xpos as u64)
    } else if !fits(ypos as u64) {
        e == Error::ValueOutOfRange("y position", ypos as u64)
    } else if !fits(height as u64) {
        e == Error::ValueOutOfRange("height", height as u64)
    } else if !fits(width as u64) {
        e == Error::ValueOutOfRange("width", width as u64)
    } else if !fits(items.len() as u64) {
        e == Error::ValueOutOfRange("item count", items.len() as u64)
    } else if !nul_free(title) {
        is_nul_error_for(e, title.spec_bytes())
    } else if !nul_free(label) {
        is_nul_error_for(e, label.spec_bytes())
    } else if any_nul(items) {
        is_first_nul_error(e, items)
    } else {
        false
    }
}

impl AlphalistParams {
    /// Converts the arguments of Alphalist::new, in the order the binding checks them.
    pub fn new(
        xpos: u32,
        ypos: u32,
        height: u32,
        width: u32,
        title: &str,
        label: &str,
        items: &[&str],
        border: Border,
    ) -> (r: Result<AlphalistParams, Error>)
        ensures
            r is Ok <==> alphalist_args_ok(xpos, ypos, height, width, title, label, items@),
            r matches Err(e) ==> alphalist_args_error(xpos, ypos, height, width, title, label, items@, e),
            r matches Ok(p) ==> {
                &&& p.xpos == xpos
                &&& p.ypos == ypos
                &&& p.height == height
                &&& p.width == width
                &&& p.item_count == items.len()
                &&& p.title@ == title.spec_bytes()
                &&& p.label@ == label.spec_bytes()
                &&& p.items@ == texts_bytes(items@)
                &&& p.boxed == flag_value(border.boxed)
                &&& p.shadow == flag_value(border.shadow)
            },
            ({
                &&& fits(xpos as u64)
                &&& fits(ypos as u64)
                &&& fits(height as u64)
                &&& fits(width as u64)
                &&& fits(items@.len() as u64)
                &&& nul_free(title)
                &&& nul_free(label)
                &&& !any_nul(items@)
            }) <==> r is Ok,
    {
        let xpos = checked_c_int(xpos as u64, "x position")?;
        let ypos = checked_c_int(ypos as u64, "y position")?;
        let height = checked_c_int(height as u64, "height")?;
        let width = checked_c_int(width as u64, "width")?;
        let item_count = checked_c_int(items.len() as u64, "item count")?;
        let title_text = c_text(title)?;
        let label_text = c_text(label)?;
        let items = CStringArray::new(items)?;
        let boxed = border.boxed_flag();
        let shadow = border.shadow_flag();
        Ok(AlphalistParams { xpos, ypos, height, width, item_count, title: title_text, label: label_text, items, boxed, shadow })
    }
}

} // verus!
