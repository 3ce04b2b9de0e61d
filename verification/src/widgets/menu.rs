use vstd::prelude::*;
use vstd::string::*;
use crate::ctext::{CStringArray, any_nul, is_first_nul_error, texts_bytes};
use crate::error::{Error, checked_c_int, fits};
use super::laws::{all_nul_free, lemma_all_nul_free};

verus! {

/// The most items a pulldown menu can hold.
pub const MAX_SUBMENU_ITEMS: usize = 98;

/// The most menus a menu bar can hold.
pub const MAX_MENUS: usize = 98;

/// The native arguments of a new pulldown menu, converted for CDK.
#[derive(Debug)]
pub struct MenuParams {
    /// The number of menus.
    pub menu_count: i32,
    /// Where the menu bar is placed.
    pub menu_pos: i32,
    /// The number of items of each menu.
    pub submenu_sizes: Vec<i32>,
    /// The row and then the column of each menu, one menu after the other.
    pub locations: Vec<i32>,
    /// The items of each menu.
    pub items: Vec<CStringArray>,
}

/// Whether one menu and its location convert for CDK.
pub open spec fn menu_entry_ok(menu: Seq<&str>, location: (u32, u32)) -> bool {
    &&& menu.len() <= MAX_SUBMENU_ITEMS
    &&& fits(location.0 as u64)
    &&& fits(location.1 as u64)
    &&& !any_nul(menu)
}

/// Whether `e` is the error of the first part of one menu that does not convert.
pub open spec fn menu_entry_error(menu: Seq<&str>, location: (u32, u32), e: Error) -> bool {
    if menu.len() > MAX_SUBMENU_ITEMS {
        e == Error::ValueOutOfRange("submenu item count", menu.len() as u64)
    } else if !fits(location.0 as u64) {
        e == Error::ValueOutOfRange("menu row", location.0 as u64)
    } else if !fits(location.1 as u64) {
        e == Error::ValueOutOfRange("menu column", location.1 as u64)
    } else if any_nul(menu) {
        is_first_nul_error(e, menu)
    } else {
        false
    }
}

/// The items of each menu, by menu.
pub open spec fn menu_items<'a, 'b>(menus: Seq<&'a [&'b str]>) -> Seq<Seq<&'b str>> {
    menus.map_values(|m: &'a [&'b str]| m@)
}

/// Whether every argument of a new pulldown menu converts for CDK.
pub open spec fn menu_args_ok(menus: Seq<Seq<&str>>, locations: Seq<(u32, u32)>, menu_pos: u32) -> bool {
    &&& menus.len() == locations.len()
    &&& fits(menus.len() as u64)
    &&& fits(menu_pos as u64)
    &&& menus.len() <= MAX_MENUS
    &&& forall|i: int| 0 <= i < menus.len() ==> #[trigger] menu_entry_ok(menus[i], locations[i])
}

/// Whether `e` is the error of the first argument of a new pulldown menu that does not convert.
pub open spec fn menu_args_error(menus: Seq<Seq<&str>>, locations: Seq<(u32, u32)>, menu_pos: u32, e: Error) -> bool {
    if menus.len() != locations.len() {
        e == Error::LengthMismatch("menu locations", menus.len() as usize, locations.len() as usize)
    } else if !fits(menus.len() as u64) {
        e == Error::ValueOutOfRange("menu item count", menus.len() as u64)
    } else if !fits(menu_pos as u64) {
        e == Error::ValueOutOfRange("menu position", menu_pos as u64)
    } else {
        ||| exists|k: int|
            0 <= k < menus.len() && k < MAX_MENUS
                && (forall|j: int| 0 <= j < k ==> #[trigger] menu_entry_ok(menus[j], locations[j]))
                && !menu_entry_ok(menus[k], locations[k]) && menu_entry_error(menus[k], locations[k], e)
        ||| menus.len() > MAX_MENUS
                && (forall|j: int| 0 <= j < MAX_MENUS ==> #[trigger] menu_entry_ok(menus[j], locations[j]))
                && e == Error::ValueOutOfRange("menu count", menus.len() as u64)
    }
}

/// Whether `p` holds the converted menus and locations.
pub open spec fn menu_params_hold(p: MenuParams, menus: Seq<Seq<&str>>, locations: Seq<(u32, u32)>, menu_pos: u32) -> bool {
    &&& p.menu_count == menus.len()
    &&& p.menu_pos == menu_pos
    &&& p.submenu_sizes@.len() == menus.len()
    &&& p.locations@.len() == 2 * menus.len()
    &&& p.items@.len() == menus.len()
    &&& forall|i: int| 0 <= i < menus.len() ==> {
        &&& #[trigger] p.submenu_sizes@[i] == menus[i].len()
        &&& p.locations@[2 * i] == locations[i].0
        &&& p.locations@[2 * i + 1] == locations[i].1
        &&& p.items@[i]@ == texts_bytes(menus[i])
    }
}

impl MenuParams {
    /// Converts the arguments of Menu::new, in the order the binding checks them:
    /// the lengths, the menu count and position, then each menu (at most
    /// `MAX_SUBMENU_ITEMS` items) with its location. A menu beyond the first
    /// `MAX_MENUS` is refused when its turn comes, before it is converted.
    pub fn new(menus: &[&[&str]], locations: &[(u32, u32)], menu_pos: u32) -> (r: Result<MenuParams, Error>)
        ensures
            r is Ok <==> menu_args_ok(menu_items(menus@), locations@, menu_pos),
            r matches Err(e) ==> menu_args_error(menu_items(menus@), locations@, menu_pos, e),
            r matches Ok(p) ==> menu_params_hold(p, menu_items(menus@), locations@, menu_pos),
            ({
                &&& menus@.len() == locations@.len()
                &&& menus@.len() <= MAX_MENUS
                &&& fits(menu_pos as u64)
                &&& forall|i: int|
                    #![trigger menus@[i]]
                    0 <= i < menus@.len() ==> {
                        &&& menus@[i]@.len() <= MAX_SUBMENU_ITEMS
                        &&& all_nul_free(menus@[i]@)
                        &&& fits(locations@[i].0 as u64)
                        &&& fits(locations@[i].1 as u64)
                    }
            }) <==> r is Ok,
            r matches Ok(p) ==> p.menu_pos == menu_pos && p.menu_count == menus@.len(),
    {
        let ghost ms = menu_items(menus@);
        proof {
            if menus@.len() == locations@.len() && menus@.len() <= MAX_MENUS && fits(menu_pos as u64)
                && forall|i: int|
                #![trigger menus@[i]]
                0 <= i < menus@.len() ==> {
                    &&& menus@[i]@.len() <= MAX_SUBMENU_ITEMS
                    &&& all_nul_free(menus@[i]@)
                    &&& fits(locations@[i].0 as u64)
                    &&& fits(locations@[i].1 as u64)
                } {
                assert forall|i: int| 0 <= i < ms.len() implies #[trigger] menu_entry_ok(ms[i], locations@[i]) by {
                    assert(ms[i] == menus@[i]@);
                    lemma_all_nul_free(ms[i]);
                }
            }
        }
        if menus.len() != locations.len() {
            return Err(Error::LengthMismatch("menu locations", menus.len(), locations.len()));
        }
        let menu_count = checked_c_int(menus.len() as u64, "menu item count")?;
        let menu_pos_c = checked_c_int(menu_pos as u64, "menu position")?;
        let mut submenu_sizes: Vec<i32> = Vec::new();
        let mut locs: Vec<i32> = Vec::new();
        let mut items: Vec<CStringArray> = Vec::new();
        let mut i: usize = 0;
        while i < menus.len()
            invariant
                ms == menu_items(menus@),
                menus@.len() == locations@.len(),
                fits(menus@.len() as u64),
                fits(menu_pos as u64),
                menu_count == menus@.len(),
                menu_pos_c == menu_pos,
                0 <= i <= menus@.len(),
                i <= MAX_MENUS,
                submenu_sizes@.len() == i,
                locs@.len() == 2 * i,
                items@.len() == i,
                forall|j: int| 0 <= j < i ==> #[trigger] menu_entry_ok(ms[j], locations@[j]),
                forall|j: int| 0 <= j < i ==> {
                    &&& #[trigger] submenu_sizes@[j] == ms[j].len()
                    &&& locs@[2 * j] == locations@[j].0
                    &&& locs@[2 * j + 1] == locations@[j].1
                    &&& items@[j]@ == texts_bytes(ms[j])
                },
            decreases menus@.len() - i,
        {
            if i >= MAX_MENUS {
                let e = Error::ValueOutOfRange("menu count", menus.len() as u64);
                assert(menu_args_error(ms, locations@, menu_pos, e));
                return Err(e);
            }
            let menu = menus[i];
            assert(ms[i as int] == menu@);
            let ghost sizes0 = submenu_sizes@;
            let ghost locs0 = locs@;
            let ghost items0 = items@;
            if menu.len() > MAX_SUBMENU_ITEMS {
                let e = Error::ValueOutOfRange("submenu item count", menu.len() as u64);
                assert(menu_args_error(ms, locations@, menu_pos, e)) by {
                    assert(!menu_entry_ok(ms[i as int], locations@[i as int]));
                }
                return Err(e);
            }
            submenu_sizes.push(menu.len() as i32);
            let (row, col) = locations[i];
            match checked_c_int(row as u64, "menu row") {
                Ok(v) => locs.push(v),
                Err(e) => {
                    assert(menu_args_error(ms, locations@, menu_pos, e)) by {
                        assert(!menu_entry_ok(ms[i as int], locations@[i as int]));
                    }
                    return Err(e);
                },
            }
            match checked_c_int(col as u64, "menu column") {
                Ok(v) => locs.push(v),
                Err(e) => {
                    assert(menu_args_error(ms, locations@, menu_pos, e)) by {
                        assert(!menu_entry_ok(ms[i as int], locations@[i as int]));
                    }
                    return Err(e);
                },
            }
            match CStringArray::new(menu) {
                Ok(a) => items.push(a),
                Err(e) => {
                    assert(menu_args_error(ms, locations@, menu_pos, e)) by {
                        assert(!menu_entry_ok(ms[i as int], locations@[i as int]));
                    }
                    return Err(e);
                },
            }
            assert(menu_entry_ok(ms[i as int], locations@[i as int]));
            assert forall|j: int| 0 <= j < i + 1 implies {
                &&& #[trigger] submenu_sizes@[j] == ms[j].len()
                &&& locs@[2 * j] == locations@[j].0
                &&& locs@[2 * j + 1] == locations@[j].1
                &&& items@[j]@ == texts_bytes(ms[j])
            } by {
                if j == i {
                    assert(locs@[2 * j] == row && locs@[2 * j + 1] == col);
                } else {
                    assert(submenu_sizes@[j] == sizes0[j]);
                    assert(locs@[2 * j] == locs0[2 * j] && locs@[2 * j + 1] == locs0[2 * j + 1]);
                    assert(items@[j] == items0[j]);
                }
            }
            i = i + 1;
        }
        assert forall|j: int|
            #![trigger menus@[j]]
            0 <= j < menus@.len() implies {
                &&& menus@[j]@.len() <= MAX_SUBMENU_ITEMS
                &&& all_nul_free(menus@[j]@)
                &&& fits(locations@[j].0 as u64)
                &&& fits(locations@[j].1 as u64)
            } by {
            assert(ms[j] == menus@[j]@);
            assert(menu_entry_ok(ms[j], locations@[j]));
            lemma_all_nul_free(ms[j]);
        }
        let p = MenuParams { menu_count, menu_pos: menu_pos_c, submenu_sizes, locations: locs, items };
        assert(menu_params_hold(p, ms, locations@, menu_pos));
        Ok(p)
    }
}

} // verus!
