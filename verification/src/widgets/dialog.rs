use vstd::prelude::*;
use vstd::string::*;
use crate::border::{Border, flag_value};
use crate::ctext::{CStringArray, CText, any_nul, c_text, is_first_nul_error, is_nul_error_for, nul_free, texts_bytes};
use crate::error::{Error, checked_c_int, fits};

verus! {

/// The native arguments of a new dialog, converted for CDK.
#[derive(Debug)]
pub struct DialogParams {
    pub message: CText,
    pub xpos: i32,
    pub ypos: i32,
    pub rows: i32,
    pub button_count: i32,
    pub buttons: CStringArray,
    pub boxed: i32,
    pub shadow: i32,
}

/// Whether every argument of a new dialog converts for CDK.
pub open spec fn dialog_args_ok(
    xpos: u32,
    ypos: u32,
    message: &str,
    rows: u32,
    buttons: Seq<&str>,
) -> bool {
    &&& nul_free(message)
    &&& fits(xpos as u64)
    &&& fits(ypos as u64)
    &&& fits(rows as u64)
    &&& fits(buttons.len() as u64)
    &&& !any_nul(buttons)
}

/// Whether `e` is the error of the first argument of a new dialog that does not convert.
pub open spec fn dialog_args_error(
    xpos: u32,
    ypos: u32,
    message: &str,
    rows: u32,
    buttons: Seq<&str>,
    e: Error,
) -> bool {
    if !nul_free(message) {
        is_nul_error_for(e, message.spec_bytes())
    } else if !fits(xpos as u64) {
        e == Error::ValueOutOfRange("x position", xpos as u64)
    } else if !fits(ypos as u64) {
        e == Error::ValueOutOfRange("y position", ypos as u64)
    } else if !fits(rows as u64) {
        e == Error::ValueOutOfRange("rows", rows as u64)
    } else if !fits(buttons.len() as u64) {
        e == Error::ValueOutOfRange("button count", buttons.len() as u64)
    } else if any_nul(buttons) {
        is_first_nul_error(e, buttons)
    } else {
        false
    }
}

impl DialogParams {
    /// Converts the arguments of Dialog::new, in the order the binding checks them.
    pub fn new(
        xpos: u32,
        ypos: u32,
        message: &str,
        rows: u32,
        buttons: &[&str],
        border: Border,
    ) -> (r: Result<DialogParams, Error>)
        ensures
            r is Ok <==> dialog_args_ok(xpos, ypos, message, rows, buttons@),
            r matches Err(e) ==> dialog_args_error(xpos, ypos, message, rows, buttons@, e),
            r matches Ok(p) ==> {
                &&& p.message@ == message.spec_bytes()
                &&& p.xpos == xpos
                &&& p.ypos == ypos
                &&& p.rows == rows
                &&& p.button_count == buttons.len()
                &&& p.buttons@ == texts_bytes(buttons@)
                &&& p.boxed == flag_value(border.boxed)
                &&& p.shadow == flag_value(border.shadow)
            },
            ({
                &&& nul_free(message)
                &&& fits(xpos as u64)
                &&& fits(ypos as u64)
                &&& fits(rows as u64)
                &&& fits(buttons@.len() as u64)
                &&& !any_nul(buttons@)
            }) <==> r is Ok,
    {
        let message_text = c_text(message)?;
        let xpos = checked_c_int(xpos as u64, "x position")?;
        let ypos = checked_c_int(ypos as u64, "y position")?;
        let rows = checked_c_int(rows as u64, "rows")?;
        let button_count = checked_c_int(buttons.len() as u64, "button count")?;
        let buttons = CStringArray::new(buttons)?;
        let boxed = border.boxed_flag();
        let shadow = border.shadow_flag();
        Ok(DialogParams { message: message_text, xpos, ypos, rows, button_count, buttons, boxed, shadow })
    }
}

} // verus!
