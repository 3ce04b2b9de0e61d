use vstd::prelude::*;
use vstd::string::*;
use crate::ctext::{CStringArray, any_nul, is_first_nul_error, texts_bytes};
use crate::error::{Error, checked_c_int, fits};

verus! {

/// The native arguments of the replacement items of an item list widget, converted for CDK.
#[derive(Debug)]
pub struct ItemlistItemsParams {
    pub item_count: i32,
    pub default_item: i32,
    pub items: CStringArray,
}

/// Whether every argument of the replacement items of an item list widget converts for CDK.
pub open spec fn itemlist_items_args_ok(items: Seq<&str>, default_item: u32) -> bool {
    &&& fits(items.len() as u64)
    &&& fits(default_item as u64)
    &&& !any_nul(items)
}

/// Whether `e` is the error of the first argument of the replacement items of an item list widget that does not convert.
pub open spec fn itemlist_items_args_error(items: Seq<&str>, default_item: u32, e: Error) -> bool {
    if !fits(items.len() as u64) {
        e == Error::ValueOutOfRange("item count", items.len() as u64)
    } else if !fits(default_item as u64) {
        e == Error::ValueOutOfRange("default item", default_item as u64)
    } else if any_nul(items) {
        is_first_nul_error(e, items)
    } else {
        false
    }
}

impl ItemlistItemsParams {
    /// Converts the arguments of Itemlist::set_items, in the order the binding checks them.
    pub fn new(items: &[&str], default_item: u32) -> (r: Result<ItemlistItemsParams, Error>)
        ensures
            r is Ok <==> itemlist_items_args_ok(items@, default_item),
            r matches Err(e) ==> itemlist_items_args_error(items@, default_item, e),
            r matches Ok(p) ==> {
                &&& p.item_count == items.len()
                &&& p.default_item == default_item
                &&& p.items@ == texts_bytes(items@)
            },
            ({
                &&& fits(items@.len() as u64)
                &&& fits(default_item as u64)
                &&& !any_nul(items@)
            }) <==> r is Ok,
    {
        let item_count = checked_c_int(items.len() as u64, "item count")?;
        let default_item = checked_c_int(default_item as u64, "default item")?;
        let items = CStringArray::new(items)?;
        Ok(ItemlistItemsParams { item_count, default_item, items })
    }
}

} // verus!
