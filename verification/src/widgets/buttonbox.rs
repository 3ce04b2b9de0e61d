use vstd::prelude::*;
use vstd::string::*;
use crate::border::{Border, flag_value};
use crate::ctext::{CStringArray, any_nul, is_first_nul_error, texts_bytes};
use crate::error::{Error, checked_c_int, fits};

verus! {

/// The native arguments of a new button box, converted for CDK.
#[derive(Debug)]
pub struct ButtonboxParams {
    pub xpos: i32,
    pub ypos: i32,
    pub height: i32,
    pub width: i32,
    pub rows: i32,
    pub cols: i32,
    pub button_count: i32,
    pub buttons: CStringArray,
    pub boxed: i32,
    pub shadow: i32,
}

/// Whether every argument of a new button box converts for CDK.
pub open spec fn buttonbox_args_ok(
    xpos: u32,
    ypos: u32,
    height: u32,
    width: u32,
    rows: u32,
    cols: u32,
    buttons: Seq<&str>,
) -> bool {
    &&& fits(xpos as u64)
    &&& fits(ypos as u64)
    &&& fits(height as u64)
    &&& fits(width as u64)
    &&& fits(rows as u64)
    &&& fits(cols as u64)
    &&& fits(buttons.len() as u64)
    &&& !any_nul(buttons)
}

/// Whether `e` is the error of the first argument of a new button box that does not convert.
pub open spec fn buttonbox_args_error(
    xpos: u32,
    ypos: u32,
    height: u32,
    width: u32,
    rows: u32,
    cols: u32,
    buttons: Seq<&str>,
    e: Error,
) -> bool {
    if !fits(xpos as u64) {
        e == Error::ValueOutOfRange("x position", xpos as u64)
    } else if !fits(ypos as u64) {
        e == Error::ValueOutOfRange("y position", ypos as u64)
    } else if !fits(height as u64) {
        e == Error::ValueOutOfRange("height", height as u64)
    } else if !fits(width as u64) {
        e == Error::ValueOutOfRange("width", width as u64)
    } else if !fits(rows as u64) {
        e == Error::ValueOutOfRange("rows", rows as u64)
    } else if !fits(cols as u64) {
        e == Error::ValueOutOfRange("columns", cols as u64)
    } else if !fits(buttons.len() as u64) {
        e == Error::ValueOutOfRange("button count", buttons.len() as u64)
    } else if any_nul(buttons) {
        is_first_nul_error(e, buttons)
    } else {
        false
    }
}

impl ButtonboxParams {
    /// Converts the arguments of Buttonbox::new, in the order the binding checks them.
    pub fn new(
        xpos: u32,
        ypos: u32,
        height: u32,
        width: u32,
        rows: u32,
        cols: u32,
        buttons: &[&str],
        border: Border,
    ) -> (r: Result<ButtonboxParams, Error>)
        ensures
            r is Ok <==> buttonbox_args_ok(xpos, ypos, height, width, rows, cols, buttons@),
            r matches Err(e) ==> buttonbox_args_error(xpos, ypos, height, width, rows, cols, buttons@, e),
            r matches Ok(p) ==> {
                &&& p.xpos == xpos
                &&& p.ypos == ypos
                &&& p.height == height
                &&& p.width == width
                &&& p.rows == rows
                &&& p.cols == cols
                &&& p.button_count == buttons.len()
                &&& p.buttons@ == texts_bytes(buttons@)
                &&& p.boxed == flag_value(border.boxed)
                &&& p.shadow == flag_value(border.shadow)
            },
            ({
                &&& fits(xpos as u64)
                &&& fits(ypos as u64)
                &&& fits(height as u64)
                &&& fits(width as u64)
                &&& fits(rows as u64)
                &&& fits(cols as u64)
                &&& fits(buttons@.len() as u64)
                &&& !any_nul(buttons@)
            }) <==> r is Ok,
    {
        let xpos = checked_c_int(xpos as u64, "x position")?;
        let ypos = checked_c_int(ypos as u64, "y position")?;
        let height = checked_c_int(height as u64, "height")?;
        let width = checked_c_int(width as u64, "width")?;
        let rows = checked_c_int(rows as u64, "rows")?;
        let cols = checked_c_int(cols as u64, "columns")?;
        let button_count = checked_c_int(buttons.len() as u64, "button count")?;
        let buttons = CStringArray::new(buttons)?;
        let boxed = border.boxed_flag();
        let shadow = border.shadow_flag();
        Ok(ButtonboxParams { xpos, ypos, height, width, rows, cols, button_count, buttons, boxed, shadow })
    }
}

} // verus!
