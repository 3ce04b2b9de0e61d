use vstd::prelude::*;
use vstd::string::*;
use crate::border::{Border, flag_value};
use crate::ctext::{CText, c_text, is_nul_error_for, nul_free};
use crate::error::{Error, checked_c_int, fits};

verus! {

/// The native arguments of a new entry field, converted for CDK.
#[derive(Debug)]
pub struct EntryParams {
    pub title: CText,
    pub label: CText,
    pub xpos: i32,
    pub ypos: i32,
    pub label_length: i32,
    pub boxed: i32,
    pub shadow: i32,
}

/// Whether every argument of a new entry field converts for CDK.
pub open spec fn entry_args_ok(xpos: u32, ypos: u32, title: &str, label: &str) -> bool {
    &&& nul_free(title)
    &&& nul_free(label)
    &&& fits(xpos as u64)
    &&& fits(ypos as u64)
    &&& fits(label.len() as u64)
}

/// Whether `e` is the error of the first argument of a new entry field that does not convert.
pub open spec fn entry_args_error(
    xpos: u32,
    ypos: u32,
    title: &str,
    label: &str,
    e: Error,
) -> bool {
    if !nul_free(title) {
        is_nul_error_for(e, title.spec_bytes())
    } else if !nul_free(label) {
        is_nul_error_for(e, label.spec_bytes())
    } else if !fits(xpos as u64) {
        e == Error::ValueOutOfRange("x position", xpos as u64)
    } else if !fits(ypos as u64) {
        e == Error::ValueOutOfRange("y position", ypos as u64)
    } else if !fits(label.len() as u64) {
        e == Error::ValueOutOfRange("label length", label.len() as u64)
    } else {
        false
    }
}

impl EntryParams {
    /// Converts the arguments of Entry::new, in the order the binding checks them.
    pub fn new(
        xpos: u32,
        ypos: u32,
        title: &str,
        label: &str,
        border: Border,
    ) -> (r: Result<EntryParams, Error>)
        ensures
            r is Ok <==> entry_args_ok(xpos, ypos, title, label),
            r matches Err(e) ==> entry_args_error(xpos, ypos, title, label, e),
            r matches Ok(p) ==> {
                &&& p.title@ == title.spec_bytes()
                &&& p.label@ == label.spec_bytes()
                &&& p.xpos == xpos
                &&& p.ypos == ypos
                &&& p.label_length == label.len()
                &&& p.boxed == flag_value(border.boxed)
                &&& p.shadow == flag_value(border.shadow)
            },
            ({
                &&& nul_free(title)
                &&& nul_free(label)
                &&& fits(xpos as u64)
                &&& fits(ypos as u64)
                &&& fits(label.len() as u64)
            }) <==> r is Ok,
    {
        let title_text = c_text(title)?;
        let label_text = c_text(label)?;
        let xpos = checked_c_int(xpos as u64, "x position")?;
        let ypos = checked_c_int(ypos as u64, "y position")?;
        let label_length = checked_c_int(label.len() as u64, "label length")?;
        let boxed = border.boxed_flag();
        let shadow = border.shadow_flag();
        Ok(EntryParams { title: title_text, label: label_text, xpos, ypos, label_length, boxed, shadow })
    }
}

} // verus!
