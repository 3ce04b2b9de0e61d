use vstd::prelude::*;
use vstd::string::*;
use crate::border::{Border, flag_value};
use crate::error::{Error, checked_c_int, fits};

verus! {

/// The native arguments of a new marquee, converted for CDK.
#[derive(Debug)]
pub struct MarqueeParams {
    pub xpos: i32,
    pub ypos: i32,
    pub width: i32,
    pub boxed: i32,
    pub shadow: i32,
}

/// Whether every argument of a new marquee converts for CDK.
pub open spec fn marquee_args_ok(xpos: u32, ypos: u32, width: u32) -> bool {
    &&& fits(xpos as u64)
    &&& fits(ypos as u64)
    &&& fits(width as u64)
}

/// Whether `e` is the error of the first argument of a new marquee that does not convert.
pub open spec fn marquee_args_error(xpos: u32, ypos: u32, width: u32, e: Error) -> bool {
    if !fits(xpos as u64) {
        e == Error::ValueOutOfRange("x position", xpos as u64)
    } else if !fits(ypos as u64) {
        e == Error::ValueOutOfRange("y position", ypos as u64)
    } else if !fits(width as u64) {
        e == Error::ValueOutOfRange("field width", width as u64)
    } else {
        false
    }
}

impl MarqueeParams {
    /// Converts the arguments of Marquee::new, in the order the binding checks them.
    pub fn new(
        xpos: u32,
        ypos: u32,
        width: u32,
        border: Border,
    ) -> (r: Result<MarqueeParams, Error>)
        ensures
            r is Ok <==> marquee_args_ok(xpos, ypos, width),
            r matches Err(e) ==> marquee_args_error(xpos, ypos, width, e),
            r matches Ok(p) ==> {
                &&& p.xpos == xpos
                &&& p.ypos == ypos
                &&& p.width == width
                &&& p.boxed == flag_value(border.boxed)
                &&& p.shadow == flag_value(border.shadow)
            },
            ({
                &&& fits(xpos as u64)
                &&& fits(ypos as u64)
                &&& fits(width as u64)
            }) <==> r is Ok,
    {
        let xpos = checked_c_int(xpos as u64, "x position")?;
        let ypos = checked_c_int(ypos as u64, "y position")?;
        let width = checked_c_int(width as u64, "field width")?;
        let boxed = border.boxed_flag();
        let shadow = border.shadow_flag();
        Ok(MarqueeParams { xpos, ypos, width, boxed, shadow })
    }
}

} // verus!
