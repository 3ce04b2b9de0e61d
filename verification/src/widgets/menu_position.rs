use vstd::prelude::*;
use vstd::string::*;
use crate::error::{Error, checked_c_int, fits};

verus! {

/// The native arguments of a menu position, converted for CDK.
#[derive(Debug)]
pub struct MenuPositionParams {
    pub menu_item: i32,
    pub submenu_item: i32,
}

/// Whether every argument of a menu position converts for CDK.
pub open spec fn menu_position_args_ok(menu_item: u32, submenu_item: u32) -> bool {
    &&& fits(menu_item as u64)
    &&& fits(submenu_item as u64)
}

/// Whether `e` is the error of the first argument of a menu position that does not convert.
pub open spec fn menu_position_args_error(menu_item: u32, submenu_item: u32, e: Error) -> bool {
    if !fits(menu_item as u64) {
        e == Error::ValueOutOfRange("menu item", menu_item as u64)
    } else if !fits(submenu_item as u64) {
        e == Error::ValueOutOfRange("submenu item", submenu_item as u64)
    } else {
        false
    }
}

impl MenuPositionParams {
    /// Converts the arguments of Menu::set_current, in the order the binding checks them.
    pub fn new(menu_item: u32, submenu_item: u32) -> (r: Result<MenuPositionParams, Error>)
        ensures
            r is Ok <==> menu_position_args_ok(menu_item, submenu_item),
            r matches Err(e) ==> menu_position_args_error(menu_item, submenu_item, e),
            r matches Ok(p) ==> {
                &&& p.menu_item == menu_item
                &&& p.submenu_item == submenu_item
            },
            ({
                &&& fits(menu_item as u64)
                &&& fits(submenu_item as u64)
            }) <==> r is Ok,
    {
        let menu_item = checked_c_int(menu_item as u64, "menu item")?;
        let submenu_item = checked_c_int(submenu_item as u64, "submenu item")?;
        Ok(MenuPositionParams { menu_item, submenu_item })
    }
}

} // verus!
