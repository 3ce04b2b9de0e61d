use vstd::prelude::*;
use vstd::string::*;
use crate::ctext::{CStringArray, any_nul, is_first_nul_error, texts_bytes};
use crate::error::{Error, checked_c_int, fits};

verus! {

/// The native arguments of a replacement list of items, converted for CDK.
#[derive(Debug)]
pub struct ItemsParams {
    pub item_count: i32,
    pub items: CStringArray,
}

/// Whether every argument of a replacement list of items converts for CDK.
pub open spec fn items_args_ok(items: Seq<&str>, count_name: &'static str) -> bool {
    &&& fits(items.len() as u64)
    &&& !any_nul(items)
}

/// Whether `e` is the error of the first argument of a replacement list of items that does not convert.
pub open spec fn items_args_error(items: Seq<&str>, count_name: &'static str, e: Error) -> bool {
    if !fits(items.len() as u64) {
        e == Error::ValueOutOfRange(count_name, items.len() as u64)
    } else if any_nul(items) {
        is_first_nul_error(e, items)
    } else {
        false
    }
}

impl ItemsParams {
    /// Converts the arguments of the `set_items` and `set_contents` methods, in the order the binding checks them.
    pub fn new(items: &[&str], count_name: &'static str) -> (r: Result<ItemsParams, Error>)
        ensures
            r is Ok <==> items_args_ok(items@, count_name),
            r matches Err(e) ==> items_args_error(items@, count_name, e),
            r matches Ok(p) ==> {
                &&& p.item_count == items.len()
                &&& p.items@ == texts_bytes(items@)
            },
            ({
                &&& fits(items@.len() as u64)
                &&& !any_nul(items@)
            }) <==> r is Ok,
    {
        let item_count = checked_c_int(items.len() as u64, count_name)?;
        let items = CStringArray::new(items)?;
        Ok(ItemsParams { item_count, items })
    }
}

} // verus!
