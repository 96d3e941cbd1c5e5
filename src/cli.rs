//! The decisions of the command-line front end: which options the arguments
//! ask for, which context is compiled, and the exit code.

use vstd::prelude::*;

use crate::codec::{nul_free, SassPath};
use crate::compiler::{SassCompiler, SassCompilerState};
use crate::context::{ContextModel, SassInputError, SassInputStyle, fresh_context, STATUS_OK};
use crate::data_context::{sass_make_data_context, sass_data_context_set_options, SassDataContext};
use crate::file_context::{fresh_file_context, SassFileContext, sass_file_context_set_options};
use crate::options::{default_options, OptionsModel, SassOptions};
use crate::output_options::SassOutputStyle;
use crate::path_list::pushed;

verus! {

/// The output styles that the command line offers.
#[derive(Debug, Clone, Copy, PartialEq, Eq, Structural)]
pub enum OutputStyles {
    Compressed,
    Compact,
    Expanded,
    Nested,
}

/// How the command line asks for a source map.
#[derive(Debug, Clone, Copy, PartialEq, Eq, Structural)]
pub enum SourceMapEmission {
    No,
    Auto,
    Inline,
}

/// The command-line arguments, as plain values.
#[derive(Debug)]
pub struct SassArguments {
    /// Read input from standard input instead of an input file.
    pub from_stdin: bool,
    pub output_style: OutputStyles,
    /// Emit comments showing the source line numbers.
    pub line_numbers: bool,
    pub include_path: Option<SassPath>,
    pub plugin_path: Option<SassPath>,
    pub import_extension: Option<SassPath>,
    pub emit_sourcemap: SourceMapEmission,
    /// Omit the source map url comment.
    pub omit_sourcemap_comment: bool,
    pub precision: u8,
    /// Treat the input as indented syntax.
    pub input_is_indented: bool,
    pub input_file: Option<SassPath>,
    pub output_file: Option<SassPath>,
}

/// The render style that a command-line style names.
pub open spec fn style_of(arg: OutputStyles) -> SassOutputStyle {
    match arg {
        OutputStyles::Compressed => SassOutputStyle::Compressed,
        OutputStyles::Compact => SassOutputStyle::Compact,
        OutputStyles::Expanded => SassOutputStyle::Expanded,
        OutputStyles::Nested => SassOutputStyle::Nested,
    }
}

pub fn translate_output_style(arg_style: OutputStyles) -> (r: SassOutputStyle)
    ensures
        r == style_of(arg_style),
        r.is_selectable(),
{
    match arg_style {
        OutputStyles::Compressed => SassOutputStyle::Compressed,
        OutputStyles::Compact => SassOutputStyle::Compact,
        OutputStyles::Expanded => SassOutputStyle::Expanded,
        OutputStyles::Nested => SassOutputStyle::Nested,
    }
}

/// The byte `.`.
pub const DOT: u8 = 46;

/// `path` followed by a dot and `extension`.
pub open spec fn extended(path: Seq<u8>, extension: Seq<u8>) -> Seq<u8> {
    path + seq![DOT] + extension
}

/// Appends a dot and `extension` to the path: `out.css` with `map` becomes
/// `out.css.map`.
pub fn extend_extension(path: &mut SassPath, extension: &[u8])
    requires
        nul_free(extension@),
    ensures
        final(path)@ == extended(old(path)@, extension@),
{
    let dot: [u8; 1] = [DOT];
    path.append(dot.as_slice());
    path.append(extension);
}

/// The bytes of `map`, the extension of source map files.
pub open spec fn map_extension() -> Seq<u8> {
    seq![109u8, 97u8, 112u8]
}

/// The list that pushing the path in `arg`, if any, onto an empty list leaves.
pub open spec fn pushed_arg(arg: Option<SassPath>) -> Seq<Seq<u8>> {
    match arg {
        Some(p) => pushed(Seq::empty(), p@),
        None => Seq::empty(),
    }
}

/// Whether the arguments name a source map file: a file input, a source map
/// asked for, and an output file to put it beside.
pub open spec fn names_map_file(args: SassArguments) -> bool {
    !args.from_stdin && !(args.emit_sourcemap is No) && args.output_file is Some
}

/// The options that the arguments ask for.
pub open spec fn options_of_arguments(args: SassArguments) -> OptionsModel {
    OptionsModel {
        output_style: style_of(args.output_style),
        source_comments: args.line_numbers,
        omit_source_map_url: args.omit_sourcemap_comment,
        precision: args.precision,
        is_indented_syntax_src: args.input_is_indented,
        extensions: pushed_arg(args.import_extension),
        include_paths: pushed_arg(args.include_path),
        plugin_paths: pushed_arg(args.plugin_path),
        source_map_embed: args.emit_sourcemap is Inline || (!args.from_stdin && !names_map_file(
            args,
        )),
        source_map_file: if names_map_file(args) {
            extended(args.output_file->Some_0@, map_extension())
        } else {
            Seq::empty()
        },
        ..default_options()
    }
}

/// Builds the options that the command-line arguments ask for.
pub fn options_from_arguments(args: &SassArguments) -> (r: Box<SassOptions>)
    ensures
        r@ == options_of_arguments(*args),
{
    let mut options = SassOptions::new();
    crate::options::sass_option_set_output_style(
        &mut options,
        translate_output_style(args.output_style),
    );
    crate::options::sass_option_set_source_comments(&mut options, args.line_numbers);
    crate::options::sass_option_set_omit_source_map_url(&mut options, args.omit_sourcemap_comment);
    crate::options::sass_option_set_precision(&mut options, args.precision);
    crate::options::sass_option_set_is_indented_syntax_src(&mut options, args.input_is_indented);
    if let Some(ext) = &args.import_extension {
        options.push_import_extension(ext.duplicate());
    }
    if let Some(path) = &args.include_path {
        options.push_include_path(path.duplicate());
    }
    if let Some(path) = &args.plugin_path {
        options.push_plugin_path(path.duplicate());
    }

    let generate_source_map = match args.emit_sourcemap {
        SourceMapEmission::Auto => true,
        SourceMapEmission::Inline => {
            crate::options::sass_option_set_source_map_embed(&mut options, true);
            true
        },
        SourceMapEmission::No => false,
    };
    if !args.from_stdin {
        match &args.output_file {
            Some(out) if generate_source_map => {
                let mut map_file = out.duplicate();
                let ext: [u8; 3] = [109u8, 97u8, 112u8];
                assert(ext@ =~= map_extension());
                extend_extension(&mut map_file, ext.as_slice());
                options.set_source_map_file(map_file);
            },
            _ => {
                crate::options::sass_option_set_source_map_embed(&mut options, true);
            },
        }
    }
    proof {
        assert(pushed_arg(args.import_extension) =~= options@.extensions);
        assert(pushed_arg(args.include_path) =~= options@.include_paths);
        assert(pushed_arg(args.plugin_path) =~= options@.plugin_paths);
    }
    Box::new(options)
}

/// The options for compiling the file `input`: its path and, where given, the
/// output path are set on `o`.
pub open spec fn file_options(o: OptionsModel, input: Seq<u8>, output: Option<SassPath>) -> OptionsModel {
    OptionsModel {
        input_path: input,
        output_path: match output {
            Some(p) => p@,
            None => o.output_path,
        },
        ..o
    }
}

/// Prepares the compilation of the file `input_file`: sets the input path and,
/// where given, the output path on `options`, then makes a file context that
/// holds a copy of them. An error, with `options` unchanged, where the input
/// path is empty.
pub fn prepare_file_context(
    options: &mut SassOptions,
    input_file: &SassPath,
    output_file: &Option<SassPath>,
) -> (r: Result<Box<SassFileContext>, SassInputError>)
    ensures
        r is Err <==> input_file@.len() == 0,
        r matches Err(e) ==> e == SassInputError::EmptyInputPath && final(options)@ == old(
            options,
        )@,
        r matches Ok(ctx) ==> {
            &&& final(options)@ == file_options(old(options)@, input_file@, *output_file)
            &&& ctx.context@ == (ContextModel {
                options: final(options)@,
                ..fresh_file_context(input_file@)
            })
        },
{
    let mut ctx = match SassFileContext::new(input_file.duplicate()) {
        Ok(ctx) => ctx,
        Err(e) => return Err(e),
    };
    if let Some(out) = output_file {
        options.set_output_path(out.duplicate());
    }
    options.set_input_path(input_file.duplicate());
    sass_file_context_set_options(&mut ctx, options);
    Ok(Box::new(ctx))
}

/// The text of all chunks, one after another, with nothing added or dropped.
pub open spec fn joined(chunks: Seq<String>) -> Seq<char> {
    chunks.map_values(|c: String| c@).flatten()
}

/// Gathers chunks of input, in order, into one source text.
pub fn accumulate_source(chunks: &Vec<String>) -> (r: String)
    ensures
        r@ == joined(chunks@),
{
    let mut source = String::new();
    let mut i: usize = 0;
    while i < chunks.len()
        invariant
            i <= chunks@.len(),
            source@ == joined(chunks@.take(i as int)),
        decreases chunks@.len() - i,
    {
        let ghost before = chunks@.take(i as int);
        source.append(chunks[i].as_str());
        proof {
            let views = before.map_values(|c: String| c@);
            views.lemma_flatten_push(chunks@[i as int]@);
            assert(chunks@.take(i + 1).map_values(|c: String| c@) =~= views.push(chunks@[i as int]@));
        }
        i += 1;
    }
    assert(chunks@.take(chunks@.len() as int) =~= chunks@);
    source
}

/// Prepares the compilation of the text read from standard input: a data
/// context over `source` that holds a copy of `options`. An error where the
/// source is empty.
pub fn prepare_stdin_context(options: &SassOptions, source: String) -> (r: Result<
    Box<SassDataContext>,
    SassInputError,
>)
    ensures
        r is Err <==> source@.len() == 0,
        r matches Err(e) ==> e == SassInputError::EmptySourceString,
        r matches Ok(ctx) ==> {
            &&& ctx.context@ == (ContextModel {
                options: options@,
                ..fresh_context(SassInputStyle::Data)
            })
            &&& ctx.source_string@ == source@
        },
{
    let mut ctx = match sass_make_data_context(source) {
        Ok(ctx) => ctx,
        Err(e) => return Err(e),
    };
    sass_data_context_set_options(&mut ctx, options);
    Ok(ctx)
}

/// The exit code for a compiler: one where an error was recorded, zero where
/// execution produced the output, two otherwise (an internal error).
pub fn exit_code(compiler: &SassCompiler) -> (r: i32)
    ensures
        r == if compiler@.ctx.error_status != STATUS_OK {
            1i32
        } else if compiler@.state is Executed {
            0i32
        } else {
            2i32
        },
{
    let ctx = crate::compiler::sass_compiler_get_context(compiler);
    if ctx.error_status != STATUS_OK {
        1
    } else if crate::compiler::sass_compiler_get_state(compiler) == SassCompilerState::Executed {
        0
    } else {
        2
    }
}

} // verus!
