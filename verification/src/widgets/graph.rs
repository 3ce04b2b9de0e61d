use vstd::prelude::*;
use vstd::string::*;
use crate::ctext::{CText, c_text, is_nul_error_for, nul_free};
use crate::error::{Error, checked_c_int, fits};

verus! {

/// The native arguments of a new graph, converted for CDK.
#[derive(Debug)]
pub struct GraphParams {
    pub title: CText,
    pub xtitle: CText,
    pub ytitle: CText,
    pub xpos: i32,
    pub ypos: i32,
    pub height: i32,
    pub width: i32,
}

/// Whether every argument of a new graph converts for CDK.
pub open spec fn graph_args_ok(
    xpos: u32,
    ypos: u32,
    height: u32,
    width: u32,
    title: &str,
    xtitle: &str,
    ytitle: &str,
) -> bool {
    &&& nul_free(title)
    &&& nul_free(xtitle)
    &&& nul_free(ytitle)
    &&& fits(xpos as u64)
    &&& fits(ypos as u64)
    &&& fits(height as u64)
    &&& fits(width as u64)
}

/// Whether `e` is the error of the first argument of a new graph that does not convert.
pub open spec fn graph_args_error(
    xpos: u32,
    ypos: u32,
    height: u32,
    width: u32,
    title: &str,
    xtitle: &str,
    ytitle: &str,
    e: Error,
) -> bool {
    if !nul_free(title) {
        is_nul_error_for(e, title.spec_bytes())
    } else if !nul_free(xtitle) {
        is_nul_error_for(e, xtitle.spec_bytes())
    } else if !nul_free(ytitle) {
        is_nul_error_for(e, ytitle.spec_bytes())
    } else if !fits(xpos as u64) {
        e == Error::ValueOutOfRange("x position", xpos as u64)
    } else if !fits(ypos as u64) {
        e == Error::ValueOutOfRange("y position", ypos as u64)
    } else if !fits(height as u64) {
        e == Error::ValueOutOfRange("height", height as u64)
    } else if !fits(width as u64) {
        e == Error::ValueOutOfRange("width", width as u64)
    } else {
        false
    }
}

impl GraphParams {
    /// Converts the arguments of Graph::new, in the order the binding checks them.
    pub fn new(
        xpos: u32,
        ypos: u32,
        height: u32,
        width: u32,
        title: &str,
        xtitle: &str,
        ytitle: &str,
    ) -> (r: Result<GraphParams, Error>)
        ensures
            r is Ok <==> graph_args_ok(xpos, ypos, height, width, title, xtitle, ytitle),
            r matches Err(e) ==> graph_args_error(xpos, ypos, height, width, title, xtitle, ytitle, e),
            r matches Ok(p) ==> {
                &&& p.title@ == title.spec_bytes()
                &&& p.xtitle@ == xtitle.spec_bytes()
                &&& p.ytitle@ == ytitle.spec_bytes()
                &&& p.xpos == xpos
                &&& p.ypos == ypos
                &&& p.height == height
                &&& p.width == width
            },
            ({
                &&& nul_free(title)
                &&& nul_free(xtitle)
                &&& nul_free(ytitle)
                &&& fits(xpos as u64)
                &&& fits(ypos as u64)
                &&& fits(height as u64)
                &&& fits(width as u64)
            }) <==> r is Ok,
    {
        let title_text = c_text(title)?;
        let xtitle_text = c_text(xtitle)?;
        let ytitle_text = c_text(ytitle)?;
        let xpos = checked_c_int(xpos as u64, "x position")?;
        let ypos = checked_c_int(ypos as u64, "y position")?;
        let height = checked_c_int(height as u64, "height")?;
        let width = checked_c_int(width as u64, "width")?;
        Ok(GraphParams { title: title_text, xtitle: xtitle_text, ytitle: ytitle_text, xpos, ypos, height, width })
    }
}

} // verus!
