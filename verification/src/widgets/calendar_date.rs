use vstd::prelude::*;
use vstd::string::*;
use crate::error::{Error, checked_c_int, fits};

verus! {

/// The native arguments of a calendar date, converted for CDK.
#[derive(Debug)]
pub struct DateParams {
    pub day: i32,
    pub month: i32,
    pub year: i32,
}

/// Whether every argument of a calendar date converts for CDK.
pub open spec fn calendar_date_args_ok(day: u32, month: u32, year: u32) -> bool {
    &&& fits(day as u64)
    &&& fits(month as u64)
    &&& fits(year as u64)
}

/// Whether `e` is the error of the first argument of a calendar date that does not convert.
pub open spec fn calendar_date_args_error(day: u32, month: u32, year: u32, e: Error) -> bool {
    if !fits(day as u64) {
        e == Error::ValueOutOfRange("day", day as u64)
    } else if !fits(month as u64) {
        e == Error::ValueOutOfRange("month", month as u64)
    } else if !fits(year as u64) {
        e == Error::ValueOutOfRange("year", year as u64)
    } else {
        false
    }
}

impl DateParams {
    /// Converts the arguments of Calendar::set_date, in the order the binding checks them.
    pub fn new(day: u32, month: u32, year: u32) -> (r: Result<DateParams, Error>)
        ensures
            r is Ok <==> calendar_date_args_ok(day, month, year),
            r matches Err(e) ==> calendar_date_args_error(day, month, year, e),
            r matches Ok(p) ==> {
                &&& p.day == day
                &&& p.month == month
                &&& p.year == year
            },
            ({
                &&& fits(day as u64)
                &&& fits(month as u64)
                &&& fits(year as u64)
            }) <==> r is Ok,
    {
        let day = checked_c_int(day as u64, "day")?;
        let month = checked_c_int(month as u64, "month")?;
        let year = checked_c_int(year as u64, "year")?;
        Ok(DateParams { day, month, year })
    }
}

} // verus!
