use vstd::prelude::*;
use vstd::string::*;
use crate::border::{Border, flag_value};
use crate::ctext::{CStringArray, CText, any_nul, c_text, is_first_nul_error, is_nul_error_for, nul_free, texts_bytes};
use crate::error::{Error, checked_c_int, fits};

verus! {

/// The native arguments of a new item list widget, converted for CDK.
#[derive(Debug)]
pub struct ItemlistParams {
    pub xpos: i32,
    pub ypos: i32,
    pub item_count: i32,
    pub default_item: i32,
    pub title: CText,
    pub label: CText,
    pub items: CStringArray,
    pub boxed: i32,
    pub shadow: i32,
}

/// Whether every argument of a new item list widget converts for CDK.
pub open spec fn itemlist_args_ok(
    xpos: u32,
    ypos: u32,
    title: &str,
    label: &str,
    items: Seq<&str>,
    default_item: u32,
) -> bool {
    &&& fits(xpos as u64)
    &&& fits(ypos as u64)
    &&& fits(items.len() as u64)
    &&& fits(default_item as u64)
    &&& nul_free(title)
    &&& nul_free(label)
    &&& !any_nul(items)
}

/// Whether `e` is the error of the first argument of a new item list widget that does not convert.
pub open spec fn itemlist_args_error(
    xpos: u32,
    ypos: u32,
    title: &str,
    label: &str,
    items: Seq<&str>,
    default_item: u32,
    e: Error,
) -> bool {
    if !fits(xpos as u64) {
        e == Error::ValueOutOfRange("x position", xpos as u64)
    } else if !fits(ypos as u64) {
        e == Error::ValueOutOfRange("y position", ypos as u64)
    } else if !fits(items.len() as u64) {
        e == Error::ValueOutOfRange("item count", items.len() as u64)
    } else if !fits(default_item as u64) {
        e == Error::ValueOutOfRange("default item", default_item as u64)
    } else if !nul_free(title) {
        is_nul_error_for(e, title.spec_bytes())
    } else if !nul_free(label) {
        is_nul_error_for(e, label.spec_bytes())
    } else if any_nul(items) {
        is_first_nul_error(e, items)
    } else {
        false
    }
}

impl ItemlistParams {
    /// Converts the arguments of Itemlist::new, in the order the binding checks them.
    pub fn new(
        xpos: u32,
        ypos: u32,
        title: &str,
        label: &str,
        items: &[&str],
        default_item: u32,
        border: Border,
    ) -> (r: Result<ItemlistParams, Error>)
        ensures
            r is Ok <==> itemlist_args_ok(xpos, ypos, title, label, items@, default_item),
            r matches Err(e) ==> itemlist_args_error(xpos, ypos, title, label, items@, default_item, e),
            r matches Ok(p) ==> {
                &&& p.xpos == xpos
                &&& p.ypos == ypos
                &&& p.item_count == items.len()
                &&& p.default_item == default_item
                &&& p.title@ == title.spec_bytes()
                &&& p.label@ == label.spec_bytes()
                &&& p.items@ == texts_bytes(items@)
                &&& p.boxed == flag_value(border.boxed)
                &&& p.shadow == flag_value(border.shadow)
            },
            ({
                &&& fits(xpos as u64)
                &&& fits(ypos as u64)
                &&& fits(items@.len() as u64)
                &&& fits(default_item as u64)
                &&& nul_free(title)
                &&& nul_free(label)
                &&& !any_nul(items@)
            }) <==> r is Ok,
    {
        let xpos = checked_c_int(xpos as u64, "x position")?;
        let ypos = checked_c_int(ypos as u64, "y position")?;
        let item_count = checked_c_int(items.len() as u64, "item count")?;
        let default_item = checked_c_int(default_item as u64, "default item")?;
        let title_text = c_text(title)?;
        let label_text = c_text(label)?;
        let items = CStringArray::new(items)?;
        let boxed = border.boxed_flag();
        let shadow = border.shadow_flag();
        Ok(ItemlistParams { xpos, ypos, item_count, default_item, title: title_text, label: label_text, items, boxed, shadow })
    }
}

} // verus!
