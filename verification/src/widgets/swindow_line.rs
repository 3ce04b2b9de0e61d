use vstd::prelude::*;
use vstd::string::*;
use crate::ctext::{CText, c_text, is_nul_error_for, nul_free};
use crate::error::{Error, checked_c_int, fits};

verus! {

/// The native arguments of a line added to a scrolling window, converted for CDK.
#[derive(Debug)]
pub struct SwindowLineParams {
    pub info: CText,
    pub insert_pos: i32,
}

/// Whether every argument of a line added to a scrolling window converts for CDK.
pub open spec fn swindow_line_args_ok(info: &str, insert_pos: u32) -> bool {
    &&& nul_free(info)
    &&& fits(insert_pos as u64)
}

/// Whether `e` is the error of the first argument of a line added to a scrolling window that does not convert.
pub open spec fn swindow_line_args_error(info: &str, insert_pos: u32, e: Error) -> bool {
    if !nul_free(info) {
        is_nul_error_for(e, info.spec_bytes())
    } else if !fits(insert_pos as u64) {
        e == Error::ValueOutOfRange("insert position", insert_pos as u64)
    } else {
        false
    }
}

impl SwindowLineParams {
    /// Converts the arguments of Swindow::add, in the order the binding checks them.
    pub fn new(info: &str, insert_pos: u32) -> (r: Result<SwindowLineParams, Error>)
        ensures
            r is Ok <==> swindow_line_args_ok(info, insert_pos),
            r matches Err(e) ==> swindow_line_args_error(info, insert_pos, e),
            r matches Ok(p) ==> {
                &&& p.info@ == info.spec_bytes()
                &&& p.insert_pos == insert_pos
            },
            ({
                &&& nul_free(info)
                &&& fits(insert_pos as u64)
            }) <==> r is Ok,
    {
        let info_text = c_text(info)?;
        let insert_pos = checked_c_int(insert_pos as u64, "insert position")?;
        Ok(SwindowLineParams { info: info_text, insert_pos })
    }
}

} // verus!
