//! Render styles and the settings that shape the generated text.

use vstd::prelude::*;

use crate::inspect_options::SassInspectOptions;

verus! {

/// Different render styles.
#[derive(Debug, Clone, Copy, PartialEq, Eq, Structural)]
pub enum SassOutputStyle {
    Nested,
    Expanded,
    Compact,
    Compressed,
    /// Only used internally.
    Inspect,
    /// Only used internally.
    ToSass,
}

impl SassOutputStyle {
    /// Whether a caller may choose this style through the configuration surface.
    pub open spec fn is_selectable(self) -> bool {
        !(self is Inspect) && !(self is ToSass)
    }
}

impl Default for SassOutputStyle {
    fn default() -> (r: SassOutputStyle)
        ensures
            r == SassOutputStyle::Nested,
    {
        SassOutputStyle::Nested
    }
}

/// Render settings together with the text used for indentation and line feeds.
#[derive(Debug)]
pub struct SassOutputOptions {
    pub inspect_options: SassInspectOptions,
    /// String to be used for indentation.
    pub indent: String,
    /// String to be used for line feeds.
    pub linefeed: String,
    /// Emit comments in the generated CSS indicating the corresponding source line.
    pub source_comments: bool,
}

impl SassOutputOptions {
    pub fn new_from_options(
        opt: SassInspectOptions,
        indent: &str,
        linefeed: &str,
        source_comments: bool,
    ) -> (r: SassOutputOptions)
        ensures
            r.inspect_options == opt,
            r.indent@ == indent@,
            r.linefeed@ == linefeed@,
            r.source_comments == source_comments,
    {
        SassOutputOptions {
            inspect_options: opt,
            indent: indent.to_owned(),
            linefeed: linefeed.to_owned(),
            source_comments,
        }
    }

    pub fn new(
        style: SassOutputStyle,
        precision: u8,
        indent: &str,
        linefeed: &str,
        source_comments: bool,
    ) -> (r: SassOutputOptions)
        ensures
            r.inspect_options.output_style == style,
            r.inspect_options.precision == precision,
            r.indent@ == indent@,
            r.linefeed@ == linefeed@,
            r.source_comments == source_comments,
    {
        SassOutputOptions {
            inspect_options: SassInspectOptions::new(style, precision),
            indent: indent.to_owned(),
            linefeed: linefeed.to_owned(),
            source_comments,
        }
    }
}

} // verus!
