use vstd::prelude::*;
use vstd::string::*;
use crate::border::{Border, flag_value};
use crate::ctext::{CText, c_text, is_nul_error_for, nul_free};
use crate::error::{Error, checked_c_int, fits};

verus! {

/// The native arguments of a new integer scale or slider, converted for CDK.
#[derive(Debug)]
pub struct ScaleParams {
    pub xpos: i32,
    pub ypos: i32,
    pub field_width: i32,
    pub title: CText,
    pub label: CText,
    pub boxed: i32,
    pub shadow: i32,
}

/// Whether every argument of a new integer scale or slider converts for CDK.
pub open spec fn scale_args_ok(
    xpos: u32,
    ypos: u32,
    title: &str,
    label: &str,
    field_width: u32,
) -> bool {
    &&& fits(xpos as u64)
    &&& fits(ypos as u64)
    &&& fits(field_width as u64)
    &&& nul_free(title)
    &&& nul_free(label)
}

/// Whether `e` is the error of the first argument of a new integer scale or slider that does not convert.
pub open spec fn scale_args_error(
    xpos: u32,
    ypos: u32,
    title: &str,
    label: &str,
    field_width: u32,
    e: Error,
) -> bool {
    if !fits(xpos as u64) {
        e == Error::ValueOutOfRange("x position", xpos as u64)
    } else if !fits(ypos as u64) {
        e == Error::ValueOutOfRange("y position", ypos as u64)
    } else if !fits(field_width as u64) {
        e == Error::ValueOutOfRange("field width", field_width as u64)
    } else if !nul_free(title) {
        is_nul_error_for(e, title.spec_bytes())
    } else if !nul_free(label) {
        is_nul_error_for(e, label.spec_bytes())
    } else {
        false
    }
}

impl ScaleParams {
    /// Converts the arguments of Scale::new, Slider::new, UScale::new and USlider::new, in the order the binding checks them.
    pub fn new(
        xpos: u32,
        ypos: u32,
        title: &str,
        label: &str,
        field_width: u32,
        border: Border,
    ) -> (r: Result<ScaleParams, Error>)
        ensures
            r is Ok <==> scale_args_ok(xpos, ypos, title, label, field_width),
            r matches Err(e) ==> scale_args_error(xpos, ypos, title, label, field_width, e),
            r matches Ok(p) ==> {
                &&& p.xpos == xpos
                &&& p.ypos == ypos
                &&& p.field_width == field_width
                &&& p.title@ == title.spec_bytes()
                &&& p.label@ == label.spec_bytes()
                &&& p.boxed == flag_value(border.boxed)
                &&& p.shadow == flag_value(border.shadow)
            },
            ({
                &&& fits(xpos as u64)
                &&& fits(ypos as u64)
                &&& fits(field_width as u64)
                &&& nul_free(title)
                &&& nul_free(label)
            }) <==> r is Ok,
    {
        let xpos = checked_c_int(xpos as u64, "x position")?;
        let ypos = checked_c_int(ypos as u64, "y position")?;
        let field_width = checked_c_int(field_width as u64, "field width")?;
        let title_text = c_text(title)?;
        let label_text = c_text(label)?;
        let boxed = border.boxed_flag();
        let shadow = border.shadow_flag();
        Ok(ScaleParams { xpos, ypos, field_width, title: title_text, label: label_text, boxed, shadow })
    }
}

} // verus!
