//! The compiler state machine: parse, then execute, over a context of its own.
//!
//! The compilation engine is not part of this library. The caller runs it when
//! `parse_needs_engine` or `execute_needs_engine` says so and hands its outcome
//! to `sass_compiler_parse` or `sass_compiler_execute`, which decide what the
//! compiler records and returns.

use vstd::prelude::*;

use crate::codec::SassPath;
use crate::context::{ContextModel, SassContext, SassInputStyle, STATUS_ERROR, STATUS_OK};
use crate::data_context::SassDataContext;
use crate::file_context::SassFileContext;
use crate::options::{sass_option_get_input_path, SassOptions};

verus! {

/// Compiler states.
#[derive(Debug, Clone, Copy, PartialEq, Eq, Structural)]
pub enum SassCompilerState {
    Created,
    Parsed,
    Executed,
}

/// What the engine reports when it fails.
#[derive(Debug)]
pub struct EngineFailure {
    pub message: String,
    pub file: SassPath,
    pub line: usize,
    pub column: usize,
}

/// What the engine renders: the stylesheet and its source map.
#[derive(Debug)]
pub struct RenderOutput {
    pub output_string: String,
    pub source_map_string: String,
}

/// What a `SassCompiler` holds, as mathematical values.
pub struct CompilerModel {
    pub state: SassCompilerState,
    pub ctx: ContextModel,
    /// The stylesheet text of a data compilation; empty for a file.
    pub source: Seq<char>,
}

/// Links a context to the engine and tracks how far compiling has come.
#[derive(Debug)]
pub struct SassCompiler {
    /// Progress status.
    state: SassCompilerState,
    /// The context compiled, owned by the compiler.
    c_ctx: SassContext,
    /// The stylesheet text of a data compilation; empty for a file.
    source_string: String,
}

impl View for SassCompiler {
    type V = CompilerModel;

    closed spec fn view(&self) -> CompilerModel {
        CompilerModel { state: self.state, ctx: self.c_ctx@, source: self.source_string@ }
    }
}

/// The message recorded when parsing is asked for after execution.
pub open spec fn parse_after_execute_message() -> Seq<char> {
    "The compiler has already executed"@
}

/// The message recorded when execution is asked for before parsing.
pub open spec fn execute_before_parse_message() -> Seq<char> {
    "The compiler has not parsed its input"@
}

/// The message recorded when a file compilation has an empty input path.
pub open spec fn empty_input_path_message() -> Seq<char> {
    "File context has empty input path"@
}

/// The message recorded when a data compilation has an empty source string.
pub open spec fn empty_source_message() -> Seq<char> {
    "Data context has empty source string"@
}

/// A compiler in state `Created` over `ctx` and `source`.
pub open spec fn created(ctx: ContextModel, source: Seq<char>) -> CompilerModel {
    CompilerModel { state: SassCompilerState::Created, ctx, source }
}

/// The compiler made for a file context `ctx`: an input error is recorded
/// where no error was yet and the input path is empty.
pub open spec fn file_compiler(ctx: ContextModel) -> CompilerModel {
    if ctx.error_status == STATUS_OK && ctx.options.input_path.len() == 0 {
        with_error(created(ctx, Seq::empty()), empty_input_path_message())
    } else {
        created(ctx, Seq::empty())
    }
}

/// The compiler made for a data context `ctx` with stylesheet `source`: an
/// input error is recorded where no error was yet and the source is empty.
pub open spec fn data_compiler(ctx: ContextModel, source: Seq<char>) -> CompilerModel {
    if ctx.error_status == STATUS_OK && source.len() == 0 {
        with_error(created(ctx, source), empty_source_message())
    } else {
        created(ctx, source)
    }
}

/// The compiler that `SassCompiler::new` makes: the input of a file context
/// or of a data context is checked as when it is made from such a context.
pub open spec fn new_compiler(ctx: ContextModel, source: Seq<char>) -> CompilerModel {
    if ctx.context_type is File {
        file_compiler(ctx)
    } else if ctx.context_type is Data {
        data_compiler(ctx, source)
    } else {
        created(ctx, source)
    }
}

/// `c` with an error recorded under `message`.
pub open spec fn with_error(c: CompilerModel, message: Seq<char>) -> CompilerModel {
    CompilerModel {
        ctx: ContextModel { error_status: STATUS_ERROR, error_message: message, ..c.ctx },
        ..c
    }
}

/// `c` with the engine's failure recorded.
pub open spec fn with_engine_failure(c: CompilerModel, f: EngineFailure) -> CompilerModel {
    CompilerModel {
        ctx: ContextModel {
            error_status: STATUS_ERROR,
            error_message: f.message@,
            error_file: f.file@,
            error_line: f.line,
            error_column: f.column,
            ..c.ctx
        },
        ..c
    }
}

/// The compiler and status after `sass_compiler_parse` with the engine's outcome.
pub open spec fn parse_result(c: CompilerModel, outcome: Result<(), EngineFailure>) -> (
    CompilerModel,
    i32,
) {
    if c.ctx.error_status != STATUS_OK {
        (c, c.ctx.error_status)
    } else if c.state is Parsed {
        (c, STATUS_OK)
    } else if c.state is Executed {
        (with_error(c, parse_after_execute_message()), STATUS_ERROR)
    } else {
        match outcome {
            Ok(_) => (CompilerModel { state: SassCompilerState::Parsed, ..c }, STATUS_OK),
            Err(f) => (with_engine_failure(c, f), STATUS_ERROR),
        }
    }
}

/// The compiler and status after `sass_compiler_execute` with the engine's outcome.
pub open spec fn execute_result(c: CompilerModel, outcome: Result<RenderOutput, EngineFailure>) -> (
    CompilerModel,
    i32,
) {
    if c.ctx.error_status != STATUS_OK {
        (c, c.ctx.error_status)
    } else if c.state is Executed {
        (c, STATUS_OK)
    } else if c.state is Created {
        (with_error(c, execute_before_parse_message()), STATUS_ERROR)
    } else {
        match outcome {
            Ok(out) => (
                CompilerModel {
                    state: SassCompilerState::Executed,
                    ctx: ContextModel {
                        output_string: out.output_string@,
                        source_map_string: out.source_map_string@,
                        ..c.ctx
                    },
                    ..c
                },
                STATUS_OK,
            ),
            Err(f) => (with_engine_failure(c, f), STATUS_ERROR),
        }
    }
}

impl SassCompiler {
    /// A compiler in state `Created` that owns `ctx` and the stylesheet text
    /// `source_string`. A file context is compiled from its input path and no
    /// text is kept for it; where that path, or the text of a data context, is
    /// empty, the compiler starts with that input error recorded.
    pub fn new(ctx: SassContext, source_string: String) -> (r: SassCompiler)
        ensures
            r@ == new_compiler(ctx@, source_string@),
    {
        if ctx.context_type == SassInputStyle::File {
            Self::for_file(ctx)
        } else if ctx.context_type == SassInputStyle::Data {
            Self::for_data(ctx, source_string)
        } else {
            SassCompiler { state: SassCompilerState::Created, c_ctx: ctx, source_string }
        }
    }

    /// A compiler for the file named by the options of `ctx`.
    fn for_file(ctx: SassContext) -> (r: SassCompiler)
        ensures
            r@ == file_compiler(ctx@),
    {
        let mut compiler = SassCompiler {
            state: SassCompilerState::Created,
            c_ctx: ctx,
            source_string: String::new(),
        };
        if compiler.c_ctx.error_status == STATUS_OK && input_path_is_empty(&compiler.c_ctx.options) {
            compiler.record_error("File context has empty input path");
        }
        compiler
    }

    /// A compiler for the stylesheet text `source_string`.
    fn for_data(ctx: SassContext, source_string: String) -> (r: SassCompiler)
        ensures
            r@ == data_compiler(ctx@, source_string@),
    {
        let mut compiler = SassCompiler { state: SassCompilerState::Created, c_ctx: ctx, source_string };
        if compiler.c_ctx.error_status == STATUS_OK && compiler.source_string.as_str().is_empty() {
            compiler.record_error("Data context has empty source string");
        }
        compiler
    }

    /// Records an error under `message` in the compiler's context.
    fn record_error(&mut self, message: &str)
        ensures
            final(self)@ == with_error(old(self)@, message@),
    {
        self.c_ctx.error_status = STATUS_ERROR;
        self.c_ctx.error_message = String::from_str(message);
    }

    /// Records the engine's failure in the compiler's context.
    fn record_engine_failure(&mut self, failure: EngineFailure)
        ensures
            final(self)@ == with_engine_failure(old(self)@, failure),
    {
        let EngineFailure { message, file, line, column } = failure;
        self.c_ctx.error_status = STATUS_ERROR;
        self.c_ctx.error_message = message;
        self.c_ctx.error_file = file;
        self.c_ctx.error_line = line;
        self.c_ctx.error_column = column;
    }
}

/// Makes a compiler over a copy of the context of `file_ctx`; the caller owns
/// it, and `file_ctx` stays as it is. Where the input path of the options is
/// empty, the compiler starts with that input error recorded.
pub fn sass_make_file_compiler(file_ctx: &SassFileContext) -> (r: Box<SassCompiler>)
    ensures
        r@ == file_compiler(file_ctx.context@),
{
    Box::new(SassCompiler::for_file(file_ctx.context.copy()))
}

/// Whether the input path of `options` is empty.
fn input_path_is_empty(options: &SassOptions) -> (r: bool)
    ensures
        r == (options@.input_path.len() == 0),
{
    let raw = sass_option_get_input_path(options);
    raw.len() == 1
}

/// Makes a compiler over a copy of the context and of the stylesheet text of
/// `data_ctx`; the caller owns it, and `data_ctx` stays as it is. Where the
/// stylesheet text is empty, the compiler starts with that input error
/// recorded.
pub fn sass_make_data_compiler(data_ctx: &SassDataContext) -> (r: Box<SassCompiler>)
    ensures
        r@ == data_compiler(data_ctx.context@, data_ctx.source_string@),
{
    let source = String::from_str(data_ctx.source_string.as_str());
    Box::new(SassCompiler::for_data(data_ctx.context.copy(), source))
}

/// Releases a compiler and the context it owns, and nothing else. `None`
/// stands for the null handle, for which nothing happens.
pub fn sass_delete_compiler(compiler: Option<Box<SassCompiler>>) {
    if let Some(owned) = compiler {
        let _released: Box<SassCompiler> = owned;
        // `_released` goes out of scope here, and with it its own context.
    }
}

/// Whether `sass_compiler_parse` would hand its work to the engine: only from
/// `Created`, with no error recorded.
pub fn parse_needs_engine(compiler: &SassCompiler) -> (r: bool)
    ensures
        r == (compiler@.state is Created && compiler@.ctx.error_status == STATUS_OK),
{
    compiler.state == SassCompilerState::Created && compiler.c_ctx.error_status == STATUS_OK
}

/// Whether `sass_compiler_execute` would hand its work to the engine: only
/// from `Parsed`, with no error recorded.
pub fn execute_needs_engine(compiler: &SassCompiler) -> (r: bool)
    ensures
        r == (compiler@.state is Parsed && compiler@.ctx.error_status == STATUS_OK),
{
    compiler.state == SassCompilerState::Parsed && compiler.c_ctx.error_status == STATUS_OK
}

/// Parses, given what the engine's preparation came to. A recorded error is
/// returned at once; from `Parsed` nothing happens; from `Executed` an error is
/// recorded. From `Created` the outcome decides: success moves to `Parsed`, a
/// failure is recorded and the state stays. Returns the status.
pub fn sass_compiler_parse(compiler: &mut SassCompiler, outcome: Result<(), EngineFailure>) -> (r:
    i32)
    ensures
        (final(compiler)@, r) == parse_result(old(compiler)@, outcome),
{
    if compiler.c_ctx.error_status != STATUS_OK {
        return compiler.c_ctx.error_status;
    }
    match compiler.state {
        SassCompilerState::Parsed => STATUS_OK,
        SassCompilerState::Executed => {
            compiler.record_error("The compiler has already executed");
            STATUS_ERROR
        },
        SassCompilerState::Created => match outcome {
            Ok(()) => {
                compiler.state = SassCompilerState::Parsed;
                STATUS_OK
            },
            Err(failure) => {
                compiler.record_engine_failure(failure);
                STATUS_ERROR
            },
        },
    }
}

/// Executes, given what the engine rendered. A recorded error is returned at
/// once; from `Executed` nothing happens; from `Created` an error is recorded.
/// From `Parsed` the outcome decides: the rendered text and source map are
/// stored and the state moves to `Executed`, or the failure is recorded and the
/// state stays. Returns the status.
pub fn sass_compiler_execute(
    compiler: &mut SassCompiler,
    outcome: Result<RenderOutput, EngineFailure>,
) -> (r: i32)
    ensures
        (final(compiler)@, r) == execute_result(old(compiler)@, outcome),
{
    if compiler.c_ctx.error_status != STATUS_OK {
        return compiler.c_ctx.error_status;
    }
    match compiler.state {
        SassCompilerState::Executed => STATUS_OK,
        SassCompilerState::Created => {
            compiler.record_error("The compiler has not parsed its input");
            STATUS_ERROR
        },
        SassCompilerState::Parsed => match outcome {
            Ok(out) => {
                let RenderOutput { output_string, source_map_string } = out;
                compiler.c_ctx.output_string = output_string;
                compiler.c_ctx.source_map_string = source_map_string;
                compiler.state = SassCompilerState::Executed;
                STATUS_OK
            },
            Err(failure) => {
                compiler.record_engine_failure(failure);
                STATUS_ERROR
            },
        },
    }
}

pub fn sass_compiler_get_state(compiler: &SassCompiler) -> (r: SassCompilerState)
    ensures
        r == compiler@.state,
{
    compiler.state
}

/// The compiler's context, borrowed from it.
pub fn sass_compiler_get_context(compiler: &SassCompiler) -> (r: &SassContext)
    ensures
        r@ == compiler@.ctx,
{
    &compiler.c_ctx
}

/// The options of the compiler's context, borrowed from it for reading and
/// changing.
pub fn sass_compiler_get_options(compiler: &mut SassCompiler) -> (r: &mut SassOptions)
    ensures
        r@ == old(compiler)@.ctx.options,
        final(compiler)@ == (CompilerModel {
            ctx: ContextModel { options: final(r)@, ..old(compiler)@.ctx },
            ..old(compiler)@
        }),
{
    &mut compiler.c_ctx.options
}

/// The stylesheet text that the compiler compiles, borrowed from it; empty
/// where a file is compiled.
pub fn sass_compiler_get_source_string(compiler: &SassCompiler) -> (r: &str)
    ensures
        r@ == compiler@.source,
{
    compiler.source_string.as_str()
}

/// Execution asked for in state `Created` fails: the status returned is not
/// zero, and the state and the output text stay as they were.
pub proof fn lemma_execute_before_parse_fails(
    c: CompilerModel,
    outcome: Result<RenderOutput, EngineFailure>,
)
    requires
        c.state is Created,
    ensures
        execute_result(c, outcome).1 != STATUS_OK,
        execute_result(c, outcome).0.state == c.state,
        execute_result(c, outcome).0.ctx.output_string == c.ctx.output_string,
{
}

/// From `Created` with no error, a successful parse and a successful render
/// end in `Executed` with status zero; executing once more returns zero and
/// changes nothing, whatever the engine would have said.
pub proof fn lemma_parse_then_execute(
    c: CompilerModel,
    rendered: RenderOutput,
    again: Result<RenderOutput, EngineFailure>,
)
    requires
        c.state is Created,
        c.ctx.error_status == STATUS_OK,
    ensures
        ({
            let (parsed, r1) = parse_result(c, Ok(()));
            let (executed, r2) = execute_result(parsed, Ok(rendered));
            let (repeated, r3) = execute_result(executed, again);
            &&& r1 == STATUS_OK
            &&& parsed.state is Parsed
            &&& r2 == STATUS_OK
            &&& executed.state is Executed
            &&& executed.ctx.output_string == rendered.output_string@
            &&& r3 == STATUS_OK
            &&& repeated == executed
        }),
{
}

/// A file compilation whose input path is empty, or a data compilation whose
/// source is empty, asks nothing of the engine and fails: parsing returns a
/// status that is not zero and leaves an error recorded.
pub proof fn lemma_empty_input_fails(
    ctx: ContextModel,
    source: Seq<char>,
    outcome: Result<(), EngineFailure>,
)
    ensures
        ctx.options.input_path.len() == 0 ==> {
            let (c, r) = parse_result(file_compiler(ctx), outcome);
            &&& !(file_compiler(ctx).state is Created && file_compiler(ctx).ctx.error_status
                == STATUS_OK)
            &&& r != STATUS_OK
            &&& c.ctx.error_status != STATUS_OK
        },
        source.len() == 0 ==> {
            let (c, r) = parse_result(data_compiler(ctx, source), outcome);
            &&& !(data_compiler(ctx, source).state is Created && data_compiler(
                ctx,
                source,
            ).ctx.error_status == STATUS_OK)
            &&& r != STATUS_OK
            &&& c.ctx.error_status != STATUS_OK
        },
{
}

} // verus!
