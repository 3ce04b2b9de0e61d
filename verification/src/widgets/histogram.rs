use vstd::prelude::*;
use vstd::string::*;
use crate::border::{Border, flag_value};
use crate::ctext::{CText, c_text, is_nul_error_for, nul_free};
use crate::error::{Error, checked_c_int, fits};

verus! {

/// The native arguments of a new histogram, converted for CDK.
#[derive(Debug)]
pub struct HistogramParams {
    pub title: CText,
    pub xpos: i32,
    pub ypos: i32,
    pub height: i32,
    pub width: i32,
    pub orient: i32,
    pub boxed: i32,
    pub shadow: i32,
}

/// Whether every argument of a new histogram converts for CDK.
pub open spec fn histogram_args_ok(
    xpos: u32,
    ypos: u32,
    height: u32,
    width: u32,
    orient: u32,
    title: &str,
) -> bool {
    &&& nul_free(title)
    &&& fits(xpos as u64)
    &&& fits(ypos as u64)
    &&& fits(height as u64)
    &&& fits(width as u64)
    &&& fits(orient as u64)
}

/// Whether `e` is the error of the first argument of a new histogram that does not convert.
pub open spec fn histogram_args_error(
    xpos: u32,
    ypos: u32,
    height: u32,
    width: u32,
    orient: u32,
    title: &str,
    e: Error,
) -> bool {
    if !nul_free(title) {
        is_nul_error_for(e, title.spec_bytes())
    } else if !fits(xpos as u64) {
        e == Error::ValueOutOfRange("x position", xpos as u64)
    } else if !fits(ypos as u64) {
        e == Error::ValueOutOfRange("y position", ypos as u64)
    } else if !fits(height as u64) {
        e == Error::ValueOutOfRange("height", height as u64)
    } else if !fits(width as u64) {
        e == Error::ValueOutOfRange("width", width as u64)
    } else if !fits(orient as u64) {
        e == Error::ValueOutOfRange("orientation", orient as u64)
    } else {
        false
    }
}

impl HistogramParams {
    /// Converts the arguments of Histogram::new, in the order the binding checks them.
    pub fn new(
        xpos: u32,
        ypos: u32,
        height: u32,
        width: u32,
        orient: u32,
        title: &str,
        border: Border,
    ) -> (r: Result<HistogramParams, Error>)
        ensures
            r is Ok <==> histogram_args_ok(xpos, ypos, height, width, orient, title),
            r matches Err(e) ==> histogram_args_error(xpos, ypos, height, width, orient, title, e),
            r matches Ok(p) ==> {
                &&& p.title@ == title.spec_bytes()
                &&& p.xpos == xpos
                &&& p.ypos == ypos
                &&& p.height == height
                &&& p.width == width
                &&& p.orient == orient
                &&& p.boxed == flag_value(border.boxed)
                &&& p.shadow == flag_value(border.shadow)
            },
            ({
                &&& nul_free(title)
                &&& fits(xpos as u64)
                &&& fits(ypos as u64)
                &&& fits(height as u64)
                &&& fits(width as u64)
                &&& fits(orient as u64)
            }) <==> r is Ok,
    {
        let title_text = c_text(title)?;
        let xpos = checked_c_int(xpos as u64, "x position")?;
        let ypos = checked_c_int(ypos as u64, "y position")?;
        let height = checked_c_int(height as u64, "height")?;
        let width = checked_c_int(width as u64, "width")?;
        let orient = checked_c_int(orient as u64, "orientation")?;
        let boxed = border.boxed_flag();
        let shadow = border.shadow_flag();
        Ok(HistogramParams { title: title_text, xpos, ypos, height, width, orient, boxed, shadow })
    }
}

} // verus!
