use vstd::prelude::*;
use vstd::string::*;
use crate::ctext::{CText, c_text, is_nul_error_for, nul_free};
use crate::error::{Error, checked_c_int, fits};

verus! {

/// The native arguments of a marquee message, converted for CDK.
#[derive(Debug)]
pub struct MarqueeMessageParams {
    pub message: CText,
    pub delay: i32,
    pub repeat: i32,
}

/// Whether every argument of a marquee message converts for CDK.
pub open spec fn marquee_message_args_ok(message: &str, delay: u32, repeat: u32) -> bool {
    &&& nul_free(message)
    &&& fits(delay as u64)
    &&& fits(repeat as u64)
}

/// Whether `e` is the error of the first argument of a marquee message that does not convert.
pub open spec fn marquee_message_args_error(
    message: &str,
    delay: u32,
    repeat: u32,
    e: Error,
) -> bool {
    if !nul_free(message) {
        is_nul_error_for(e, message.spec_bytes())
    } else if !fits(delay as u64) {
        e == Error::ValueOutOfRange("delay", delay as u64)
    } else if !fits(repeat as u64) {
        e == Error::ValueOutOfRange("repeat", repeat as u64)
    } else {
        false
    }
}

impl MarqueeMessageParams {
    /// Converts the arguments of Marquee::activate, in the order the binding checks them.
    pub fn new(message: &str, delay: u32, repeat: u32) -> (r: Result<MarqueeMessageParams, Error>)
        ensures
            r is Ok <==> marquee_message_args_ok(message, delay, repeat),
            r matches Err(e) ==> marquee_message_args_error(message, delay, repeat, e),
            r matches Ok(p) ==> {
                &&& p.message@ == message.spec_bytes()
                &&& p.delay == delay
                &&& p.repeat == repeat
            },
            ({
                &&& nul_free(message)
                &&& fits(delay as u64)
                &&& fits(repeat as u64)
            }) <==> r is Ok,
    {
        let message_text = c_text(message)?;
        let delay = checked_c_int(delay as u64, "delay")?;
        let repeat = checked_c_int(repeat as u64, "repeat")?;
        Ok(MarqueeMessageParams { message: message_text, delay, repeat })
    }
}

} // verus!
