use vstd::prelude::*;
use vstd::string::*;
use crate::border::{Border, flag_value};
use crate::ctext::{CText, c_text, is_nul_error_for, nul_free};
use crate::error::{Error, checked_c_int, fits};

verus! {

/// The native arguments of a new calendar, converted for CDK.
#[derive(Debug)]
pub struct CalendarParams {
    pub xpos: i32,
    pub ypos: i32,
    pub day: i32,
    pub month: i32,
    pub year: i32,
    pub title: CText,
    pub boxed: i32,
    pub shadow: i32,
}

/// Whether every argument of a new calendar converts for CDK.
pub open spec fn calendar_args_ok(
    xpos: u32,
    ypos: u32,
    title: &str,
    day: u32,
    month: u32,
    year: u32,
) -> bool {
    &&& fits(xpos as u64)
    &&& fits(ypos as u64)
    &&& fits(day as u64)
    &&& fits(month as u64)
    &&& fits(year as u64)
    &&& nul_free(title)
}

/// Whether `e` is the error of the first argument of a new calendar that does not convert.
pub open spec fn calendar_args_error(
    xpos: u32,
    ypos: u32,
    title: &str,
    day: u32,
    month: u32,
    year: u32,
    e: Error,
) -> bool {
    if !fits(xpos as u64) {
        e == Error::ValueOutOfRange("x position", xpos as u64)
    } else if !fits(ypos as u64) {
        e == Error::ValueOutOfRange("y position", ypos as u64)
    } else if !fits(day as u64) {
        e == Error::ValueOutOfRange("day", day as u64)
    } else if !fits(month as u64) {
        e == Error::ValueOutOfRange("month", month as u64)
    } else if !fits(year as u64) {
        e == Error::ValueOutOfRange("year", year as u64)
    } else if !nul_free(title) {
        is_nul_error_for(e, title.spec_bytes())
    } else {
        false
    }
}

impl CalendarParams {
    /// Converts the arguments of Calendar::new, in the order the binding checks them.
    pub fn new(
        xpos: u32,
        ypos: u32,
        title: &str,
        day: u32,
        month: u32,
        year: u32,
        border: Border,
    ) -> (r: Result<CalendarParams, Error>)
        ensures
            r is Ok <==> calendar_args_ok(xpos, ypos, title, day, month, year),
            r matches Err(e) ==> calendar_args_error(xpos, ypos, title, day, month, year, e),
            r matches Ok(p) ==> {
                &&& p.xpos == xpos
                &&& p.ypos == ypos
                &&& p.day == day
                &&& p.month == month
                &&& p.year == year
                &&& p.title@ == title.spec_bytes()
                &&& p.boxed == flag_value(border.boxed)
                &&& p.shadow == flag_value(border.shadow)
            },
            ({
                &&& fits(xpos as u64)
                &&& fits(ypos as u64)
                &&& fits(day as u64)
                &&& fits(month as u64)
                &&& fits(year as u64)
                &&& nul_free(title)
            }) <==> r is Ok,
    {
        let xpos = checked_c_int(xpos as u64, "x position")?;
        let ypos = checked_c_int(ypos as u64, "y position")?;
        let day = checked_c_int(day as u64, "day")?;
        let month = checked_c_int(month as u64, "month")?;
        let year = checked_c_int(year as u64, "year")?;
        let title_text = c_text(title)?;
        let boxed = border.boxed_flag();
        let shadow = border.shadow_flag();
        Ok(CalendarParams { xpos, ypos, day, month, year, title: title_text, boxed, shadow })
    }
}

} // verus!
