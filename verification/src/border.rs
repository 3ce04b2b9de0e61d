use vstd::prelude::*;

verus! {

/// Box and drop-shadow flags passed to CDK widget constructors.
///
/// `NONE` is an unframed widget, `BOXED` draws a border, and `SHADOWED`
/// adds a drop shadow. Graph, Menu, Window, and Screen do not take a border.
#[derive(Clone, Copy, Debug, PartialEq, Eq, Structural)]
pub struct Border {
    pub boxed: bool,
    pub shadow: bool,
}

/// The C integer that stands for a boolean flag.
pub open spec fn flag_value(b: bool) -> i32 {
    if b { 1 } else { 0 }
}

impl Border {
    /// An unframed widget.
    #[allow(non_snake_case)]
    pub fn NONE() -> (r: Border)
        ensures
            r == (Border { boxed: false, shadow: false }),
    {
        Border { boxed: false, shadow: false }
    }

    /// A widget with a border and no shadow.
    #[allow(non_snake_case)]
    pub fn BOXED() -> (r: Border)
        ensures
            r == (Border { boxed: true, shadow: false }),
    {
        Border { boxed: true, shadow: false }
    }

    /// A widget with a border and a drop shadow.
    #[allow(non_snake_case)]
    pub fn SHADOWED() -> (r: Border)
        ensures
            r == (Border { boxed: true, shadow: true }),
    {
        Border { boxed: true, shadow: true }
    }

    /// The native `box` argument.
    pub fn boxed_flag(self) -> (r: i32)
        ensures
            r == flag_value(self.boxed),
    {
        if self.boxed { 1 } else { 0 }
    }

    /// The native `shadow` argument.
    pub fn shadow_flag(self) -> (r: i32)
        ensures
            r == flag_value(self.shadow),
    {
        if self.shadow { 1 } else { 0 }
    }
}

/// The C integer for each boolean of a list.
pub fn flags(values: &[bool]) -> (r: Vec<i32>)
    ensures
        r@ == values@.map_values(|b: bool| flag_value(b)),
{
    let mut r: Vec<i32> = Vec::new();
    let mut i: usize = 0;
    while i < values.len()
        invariant
            0 <= i <= values@.len(),
            r@ == values@.subrange(0, i as int).map_values(|b: bool| flag_value(b)),
        decreases values@.len() - i,
    {
        r.push(if values[i] { 1 } else { 0 });
        i = i + 1;
        assert(values@.subrange(0, i as int).drop_last() =~= values@.subrange(0, i - 1));
    }
    assert(values@.subrange(0, i as int) =~= values@);
    r
}

impl Default for Border {
    fn default() -> (r: Border)
        ensures
            r == (Border { boxed: false, shadow: false }),
    {
        Border::NONE()
    }
}

} // verus!
