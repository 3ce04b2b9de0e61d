use vstd::prelude::*;
use vstd::string::*;
use crate::border::{Border, flag_value};
use crate::ctext::{CText, c_text, is_nul_error_for, nul_free};
use crate::error::{Error, checked_c_int, fits};

verus! {

/// The native arguments of a new template field, converted for CDK.
#[derive(Debug)]
pub struct TemplateParams {
    pub xpos: i32,
    pub ypos: i32,
    pub title: CText,
    pub label: CText,
    pub plate: CText,
    pub overlay: CText,
    pub boxed: i32,
    pub shadow: i32,
}

/// Whether every argument of a new template field converts for CDK.
pub open spec fn template_args_ok(
    xpos: u32,
    ypos: u32,
    title: &str,
    label: &str,
    plate: &str,
    overlay: &str,
) -> bool {
    &&& fits(xpos as u64)
    &&& fits(ypos as u64)
    &&& nul_free(title)
    &&& nul_free(label)
    &&& nul_free(plate)
    &&& nul_free(overlay)
}

/// Whether `e` is the error of the first argument of a new template field that does not convert.
pub open spec fn template_args_error(
    xpos: u32,
    ypos: u32,
    title: &str,
    label: &str,
    plate: &str,
    overlay: &str,
    e: Error,
) -> bool {
    if !fits(xpos as u64) {
        e == Error::ValueOutOfRange("x position", xpos as u64)
    } else if !fits(ypos as u64) {
        e == Error::ValueOutOfRange("y position", ypos as u64)
    } else if !nul_free(title) {
        is_nul_error_for(e, title.spec_bytes())
    } else if !nul_free(label) {
        is_nul_error_for(e, label.spec_bytes())
    } else if !nul_free(plate) {
        is_nul_error_for(e, plate.spec_bytes())
    } else if !nul_free(overlay) {
        is_nul_error_for(e, overlay.spec_bytes())
    } else {
        false
    }
}

impl TemplateParams {
    /// Converts the arguments of Template::new, in the order the binding checks them.
    pub fn new(
        xpos: u32,
        ypos: u32,
        title: &str,
        label: &str,
        plate: &str,
        overlay: &str,
        border: Border,
    ) -> (r: Result<TemplateParams, Error>)
        ensures
            r is Ok <==> template_args_ok(xpos, ypos, title, label, plate, overlay),
            r matches Err(e) ==> template_args_error(xpos, ypos, title, label, plate, overlay, e),
            r matches Ok(p) ==> {
                &&& p.xpos == xpos
                &&& p.ypos == ypos
                &&& p.title@ == title.spec_bytes()
                &&& p.label@ == label.spec_bytes()
                &&& p.plate@ == plate.spec_bytes()
                &&& p.overlay@ == overlay.spec_bytes()
                &&& p.boxed == flag_value(border.boxed)
                &&& p.shadow == flag_value(border.shadow)
            },
            ({
                &&& fits(xpos as u64)
                &&& fits(ypos as u64)
                &&& nul_free(title)
                &&& nul_free(label)
                &&& nul_free(plate)
                &&& nul_free(overlay)
            }) <==> r is Ok,
    {
        let xpos = checked_c_int(xpos as u64, "x position")?;
        let ypos = checked_c_int(ypos as u64, "y position")?;
        let title_text = c_text(title)?;
        let label_text = c_text(label)?;
        let plate_text = c_text(plate)?;
        let overlay_text = c_text(overlay)?;
        let boxed = border.boxed_flag();
        let shadow = border.shadow_flag();
        Ok(TemplateParams { xpos, ypos, title: title_text, label: label_text, plate: plate_text, overlay: overlay_text, boxed, shadow })
    }
}

} // verus!
