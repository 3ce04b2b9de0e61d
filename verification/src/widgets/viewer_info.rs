use vstd::prelude::*;
use vstd::string::*;
use crate::ctext::{CStringArray, CText, any_nul, c_text, is_first_nul_error, is_nul_error_for, nul_free, texts_bytes};
use crate::error::{Error, checked_c_int, fits};

verus! {

/// The native arguments of the contents of a file viewer, converted for CDK.
#[derive(Debug)]
pub struct ViewerInfoParams {
    pub title: CText,
    pub line_count: i32,
    pub lines: CStringArray,
}

/// Whether every argument of the contents of a file viewer converts for CDK.
pub open spec fn viewer_info_args_ok(title: &str, lines: Seq<&str>) -> bool {
    &&& nul_free(title)
    &&& fits(lines.len() as u64)
    &&& !any_nul(lines)
}

/// Whether `e` is the error of the first argument of the contents of a file viewer that does not convert.
pub open spec fn viewer_info_args_error(title: &str, lines: Seq<&str>, e: Error) -> bool {
    if !nul_free(title) {
        is_nul_error_for(e, title.spec_bytes())
    } else if !fits(lines.len() as u64) {
        e == Error::ValueOutOfRange("line count", lines.len() as u64)
    } else if any_nul(lines) {
        is_first_nul_error(e, lines)
    } else {
        false
    }
}

impl ViewerInfoParams {
    /// Converts the arguments of Viewer::set_info, in the order the binding checks them.
    pub fn new(title: &str, lines: &[&str]) -> (r: Result<ViewerInfoParams, Error>)
        ensures
            r is Ok <==> viewer_info_args_ok(title, lines@),
            r matches Err(e) ==> viewer_info_args_error(title, lines@, e),
            r matches Ok(p) ==> {
                &&& p.title@ == title.spec_bytes()
                &&& p.line_count == lines.len()
                &&& p.lines@ == texts_bytes(lines@)
            },
            ({
                &&& nul_free(title)
                &&& fits(lines@.len() as u64)
                &&& !any_nul(lines@)
            }) <==> r is Ok,
    {
        let title_text = c_text(title)?;
        let line_count = checked_c_int(lines.len() as u64, "line count")?;
        let lines = CStringArray::new(lines)?;
        Ok(ViewerInfoParams { title: title_text, line_count, lines })
    }
}

} // verus!
