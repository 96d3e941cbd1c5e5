//! Render settings shared by every stage that prints values.

use vstd::prelude::*;

use crate::output_options::SassOutputStyle;

verus! {

/// The style in which values are printed and the precision of fractional numbers.
#[derive(Debug)]
pub struct SassInspectOptions {
    /// Output style for the generated css code.
    pub output_style: SassOutputStyle,
    /// Precision for fractional numbers.
    pub precision: u8,
}

impl SassInspectOptions {
    pub fn new(style: SassOutputStyle, precision: u8) -> (r: SassInspectOptions)
        ensures
            r.output_style == style,
            r.precision == precision,
    {
        SassInspectOptions { output_style: style, precision }
    }
}

} // verus!
