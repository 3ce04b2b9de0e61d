use vstd::prelude::*;

verus! {

/// Places a widget against the left edge of its screen (CDK's `LEFT`).
pub const LEFT: u32 = 9000;

/// Places a widget against the right edge of its screen (CDK's `RIGHT`).
pub const RIGHT: u32 = 9001;

/// Centers a widget on its screen (CDK's `CENTER`).
pub const CENTER: u32 = 9002;

/// Places a widget against the top edge of its screen (CDK's `TOP`).
pub const TOP: u32 = 9003;

/// Places a widget against the bottom edge of its screen (CDK's `BOTTOM`).
pub const BOTTOM: u32 = 9004;

} // verus!
