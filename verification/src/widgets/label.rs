use vstd::prelude::*;
use vstd::string::*;
use crate::border::{Border, flag_value};
use crate::ctext::{CText, c_text, is_nul_error_for, nul_free};
use crate::error::{Error, checked_c_int, fits};

verus! {

/// The native arguments of a new label, converted for CDK.
#[derive(Debug)]
pub struct LabelParams {
    pub message: CText,
    pub xpos: i32,
    pub ypos: i32,
    pub boxed: i32,
    pub shadow: i32,
}

/// Whether every argument of a new label converts for CDK.
pub open spec fn label_args_ok(xpos: u32, ypos: u32, message: &str) -> bool {
    &&& nul_free(message)
    &&& fits(xpos as u64)
    &&& fits(ypos as u64)
}

/// Whether `e` is the error of the first argument of a new label that does not convert.
pub open spec fn label_args_error(xpos: u32, ypos: u32, message: &str, e: Error) -> bool {
    if !nul_free(message) {
        is_nul_error_for(e, message.spec_bytes())
    } else if !fits(xpos as u64) {
        e == Error::ValueOutOfRange("x position", xpos as u64)
    } else if !fits(ypos as u64) {
        e == Error::ValueOutOfRange("y position", ypos as u64)
    } else {
        false
    }
}

impl LabelParams {
    /// Converts the arguments of Label::new, in the order the binding checks them.
    pub fn new(
        xpos: u32,
        ypos: u32,
        message: &str,
        border: Border,
    ) -> (r: Result<LabelParams, Error>)
        ensures
            r is Ok <==> label_args_ok(xpos, ypos, message),
            r matches Err(e) ==> label_args_error(xpos, ypos, message, e),
            r matches Ok(p) ==> {
                &&& p.message@ == message.spec_bytes()
                &&& p.xpos == xpos
                &&& p.ypos == ypos
                &&& p.boxed == flag_value(border.boxed)
                &&& p.shadow == flag_value(border.shadow)
            },
            ({
                &&& nul_free(message)
                &&& fits(xpos as u64)
                &&& fits(ypos as u64)
            }) <==> r is Ok,
    {
        let message_text = c_text(message)?;
        let xpos = checked_c_int(xpos as u64, "x position")?;
        let ypos = checked_c_int(ypos as u64, "y position")?;
        let boxed = border.boxed_flag();
        let shadow = border.shadow_flag();
        Ok(LabelParams { message: message_text, xpos, ypos, boxed, shadow })
    }
}

} // verus!
