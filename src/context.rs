//! The context shared by file and data compilation: options, outputs and
//! diagnostics.

use vstd::prelude::*;

use crate::codec::SassPath;
use crate::options::{default_options, OptionsModel, SassOptions};

verus! {

/// What kind of input a context compiles.
#[derive(Debug, Clone, Copy, PartialEq, Eq, Structural)]
pub enum SassInputStyle {
    Null,
    File,
    Data,
    Folder,
}

impl Default for SassInputStyle {
    fn default() -> (r: SassInputStyle)
        ensures
            r == SassInputStyle::Null,
    {
        SassInputStyle::Null
    }
}

/// The status of a context on which no error has been recorded.
pub const STATUS_OK: i32 = 0;

/// The status recorded for an input error or a failure of the engine.
pub const STATUS_ERROR: i32 = 1;

/// What a `SassContext` holds, as mathematical values.
pub struct ContextModel {
    pub options: OptionsModel,
    pub context_type: SassInputStyle,
    pub output_string: Seq<char>,
    pub source_map_string: Seq<char>,
    pub error_status: i32,
    pub error_json: Seq<char>,
    pub error_text: Seq<char>,
    pub error_message: Seq<char>,
    pub error_file: Seq<u8>,
    pub error_line: usize,
    pub error_column: usize,
    pub error_src: Seq<char>,
    pub included_files: Seq<Seq<u8>>,
}

/// A context of the given kind with default options, no output and no error.
pub open spec fn fresh_context(context_type: SassInputStyle) -> ContextModel {
    ContextModel {
        options: default_options(),
        context_type,
        output_string: Seq::empty(),
        source_map_string: Seq::empty(),
        error_status: STATUS_OK,
        error_json: Seq::empty(),
        error_text: Seq::empty(),
        error_message: Seq::empty(),
        error_file: Seq::empty(),
        error_line: 0,
        error_column: 0,
        error_src: Seq::empty(),
        included_files: Seq::empty(),
    }
}

/// Base for all contexts: the options they compile with, what compiling
/// produced, and the error recorded, if any.
#[derive(Debug)]
pub struct SassContext {
    pub options: SassOptions,
    /// Store context type info.
    pub context_type: SassInputStyle,
    /// Generated output data.
    pub output_string: String,
    /// Generated source map json.
    pub source_map_string: String,
    /// Error status; zero where no error was recorded.
    pub error_status: i32,
    pub error_json: String,
    pub error_text: String,
    pub error_message: String,
    /// Error position.
    pub error_file: SassPath,
    pub error_line: usize,
    pub error_column: usize,
    pub error_src: String,
    /// Report imported files.
    pub included_files: Vec<SassPath>,
}

impl View for SassContext {
    type V = ContextModel;

    open spec fn view(&self) -> ContextModel {
        ContextModel {
            options: self.options@,
            context_type: self.context_type,
            output_string: self.output_string@,
            source_map_string: self.source_map_string@,
            error_status: self.error_status,
            error_json: self.error_json@,
            error_text: self.error_text@,
            error_message: self.error_message@,
            error_file: self.error_file@,
            error_line: self.error_line,
            error_column: self.error_column,
            error_src: self.error_src@,
            included_files: self.included_files@.map_values(|p: SassPath| p@),
        }
    }
}

/// A copy of `s` in storage of its own.
fn copy_text(s: &String) -> (r: String)
    ensures
        r@ == s@,
{
    String::from_str(s.as_str())
}

impl SassContext {
    /// A context of the given kind with default options, no output and no error.
    pub fn new(context_type: SassInputStyle) -> (r: SassContext)
        ensures
            r@ == fresh_context(context_type),
    {
        let r = SassContext {
            options: SassOptions::new(),
            context_type,
            output_string: String::new(),
            source_map_string: String::new(),
            error_status: STATUS_OK,
            error_json: String::new(),
            error_text: String::new(),
            error_message: String::new(),
            error_file: SassPath::empty(),
            error_line: 0,
            error_column: 0,
            error_src: String::new(),
            included_files: Vec::new(),
        };
        assert(r.included_files@.map_values(|p: SassPath| p@) =~= Seq::<Seq<u8>>::empty());
        r
    }

    /// A deep copy: equal values, sharing no storage with `self`.
    pub fn copy(&self) -> (r: SassContext)
        ensures
            r@ == self@,
    {
        let mut included: Vec<SassPath> = Vec::new();
        let mut i: usize = 0;
        while i < self.included_files.len()
            invariant
                i <= self.included_files@.len(),
                included@.len() == i,
                forall|k: int|
                    0 <= k < i ==> #[trigger] included@[k]@ == self.included_files@[k]@,
            decreases self.included_files@.len() - i,
        {
            included.push(self.included_files[i].duplicate());
            i += 1;
        }
        let r = SassContext {
            options: self.options.copy(),
            context_type: self.context_type,
            output_string: copy_text(&self.output_string),
            source_map_string: copy_text(&self.source_map_string),
            error_status: self.error_status,
            error_json: copy_text(&self.error_json),
            error_text: copy_text(&self.error_text),
            error_message: copy_text(&self.error_message),
            error_file: self.error_file.duplicate(),
            error_line: self.error_line,
            error_column: self.error_column,
            error_src: copy_text(&self.error_src),
            included_files: included,
        };
        assert(r.included_files@.map_values(|p: SassPath| p@) =~= self.included_files@.map_values(
            |p: SassPath| p@,
        ));
        r
    }
}

/// Why a context could not be made.
#[derive(Debug, Clone, Copy, PartialEq, Eq, Structural)]
pub enum SassInputError {
    /// A file context was asked for with an empty input path.
    EmptyInputPath,
    /// A data context was asked for with an empty source string.
    EmptySourceString,
}

impl SassInputError {
    /// The status that reports this error.
    pub fn status(&self) -> (r: i32)
        ensures
            r == STATUS_ERROR,
    {
        STATUS_ERROR
    }

    /// The message that reports this error.
    pub fn message(&self) -> (r: String)
        ensures
            self is EmptyInputPath ==> r@ == "File context created with empty input path"@,
            self is EmptySourceString ==> r@ == "Data context created with empty source string"@,
    {
        match self {
            SassInputError::EmptyInputPath => String::from_str(
                "File context created with empty input path",
            ),
            SassInputError::EmptySourceString => String::from_str(
                "Data context created with empty source string",
            ),
        }
    }
}

} // verus!
