//! The configuration object and the handle operations that read and change it.

use vstd::prelude::*;

use crate::codec::{c_body, decode_c_text, has_nul, is_c_text, SassPath};
use crate::inspect_options::SassInspectOptions;
use crate::output_options::{SassOutputOptions, SassOutputStyle};
use crate::path_list::{pushed, PathList};
use vstd::utf8::decode_utf8;

verus! {

/// What a `SassOptions` holds, as mathematical values.
pub struct OptionsModel {
    pub output_style: SassOutputStyle,
    pub precision: u8,
    pub indent: Seq<char>,
    pub linefeed: Seq<char>,
    pub source_comments: bool,
    pub source_map_embed: bool,
    pub source_map_contents: bool,
    pub source_map_file_urls: bool,
    pub omit_source_map_url: bool,
    pub is_indented_syntax_src: bool,
    pub input_path: Seq<u8>,
    pub output_path: Seq<u8>,
    pub extensions: Seq<Seq<u8>>,
    pub include_paths: Seq<Seq<u8>>,
    pub plugin_paths: Seq<Seq<u8>>,
    pub source_map_file: Seq<u8>,
    pub source_map_root: Seq<char>,
}

/// The options that a freshly made `SassOptions` holds.
pub open spec fn default_options() -> OptionsModel {
    OptionsModel {
        output_style: SassOutputStyle::Nested,
        precision: 5,
        indent: "  "@,
        linefeed: "\n"@,
        source_comments: false,
        source_map_embed: false,
        source_map_contents: false,
        source_map_file_urls: false,
        omit_source_map_url: false,
        is_indented_syntax_src: false,
        input_path: Seq::empty(),
        output_path: Seq::empty(),
        extensions: Seq::empty(),
        include_paths: Seq::empty(),
        plugin_paths: Seq::empty(),
        source_map_file: Seq::empty(),
        source_map_root: Seq::empty(),
    }
}

/// The configuration object: render settings and path-resolution settings.
#[derive(Debug)]
pub struct SassOptions {
    output_options: SassOutputOptions,
    /// Embed sourceMappingUrl as data uri.
    source_map_embed: bool,
    /// Embed include contents in maps.
    source_map_contents: bool,
    /// Create file urls for sources.
    source_map_file_urls: bool,
    /// Disable sourceMappingUrl in css output.
    omit_source_map_url: bool,
    /// Treat source_string as sass (as opposed to scss).
    is_indented_syntax_src: bool,
    /// Used for source map generation; the input file on file contexts.
    input_path: SassPath,
    /// Used for source map generation; nothing is written to it.
    output_path: SassPath,
    /// Extensions to try when resolving imports, in insertion order.
    extensions: PathList,
    /// Include paths, in insertion order.
    include_paths: PathList,
    /// Plugin paths, in insertion order.
    plugin_paths: PathList,
    /// Path to the source map file; enables source map generation.
    source_map_file: SassPath,
    /// Directly inserted in source maps.
    source_map_root: String,
}

impl View for SassOptions {
    type V = OptionsModel;

    closed spec fn view(&self) -> OptionsModel {
        OptionsModel {
            output_style: self.output_options.inspect_options.output_style,
            precision: self.output_options.inspect_options.precision,
            indent: self.output_options.indent@,
            linefeed: self.output_options.linefeed@,
            source_comments: self.output_options.source_comments,
            source_map_embed: self.source_map_embed,
            source_map_contents: self.source_map_contents,
            source_map_file_urls: self.source_map_file_urls,
            omit_source_map_url: self.omit_source_map_url,
            is_indented_syntax_src: self.is_indented_syntax_src,
            input_path: self.input_path@,
            output_path: self.output_path@,
            extensions: self.extensions@,
            include_paths: self.include_paths@,
            plugin_paths: self.plugin_paths@,
            source_map_file: self.source_map_file@,
            source_map_root: self.source_map_root@,
        }
    }
}

impl SassOptions {
    /// Options with every field at its default.
    pub fn new() -> (r: SassOptions)
        ensures
            r@ == default_options(),
    {
        let mut options = SassOptions {
            output_options: SassOutputOptions::new(SassOutputStyle::Nested, 0, "", "", false),
            source_map_embed: false,
            source_map_contents: false,
            source_map_file_urls: false,
            omit_source_map_url: false,
            is_indented_syntax_src: false,
            input_path: SassPath::empty(),
            output_path: SassPath::empty(),
            extensions: PathList::new(),
            include_paths: PathList::new(),
            plugin_paths: PathList::new(),
            source_map_file: SassPath::empty(),
            source_map_root: String::new(),
        };
        proof {
            reveal_strlit("");
        }
        options.init();
        options
    }

    /// Sets the precision, the indentation and the line feed to their defaults.
    pub fn init(&mut self)
        ensures
            final(self)@ == (OptionsModel {
                precision: 5,
                indent: "  "@,
                linefeed: "\n"@,
                ..old(self)@
            }),
    {
        self.output_options.inspect_options.precision = 5;
        self.output_options.indent = String::from_str("  ");
        self.output_options.linefeed = String::from_str("\n");
    }

    /// Adds an extension to try when resolving imports, unless it is there already.
    pub fn push_import_extension(&mut self, path: SassPath)
        ensures
            final(self)@ == (OptionsModel {
                extensions: pushed(old(self)@.extensions, path@),
                ..old(self)@
            }),
    {
        self.extensions.push_unique(path);
    }

    /// Adds an include path, unless it is there already.
    pub fn push_include_path(&mut self, path: SassPath)
        ensures
            final(self)@ == (OptionsModel {
                include_paths: pushed(old(self)@.include_paths, path@),
                ..old(self)@
            }),
    {
        self.include_paths.push_unique(path);
    }

    /// Adds a plugin path, unless it is there already.
    pub fn push_plugin_path(&mut self, path: SassPath)
        ensures
            final(self)@ == (OptionsModel {
                plugin_paths: pushed(old(self)@.plugin_paths, path@),
                ..old(self)@
            }),
    {
        self.plugin_paths.push_unique(path);
    }

    /// Sets the input path.
    pub fn set_input_path(&mut self, path: SassPath)
        ensures
            final(self)@ == (OptionsModel { input_path: path@, ..old(self)@ }),
    {
        self.input_path = path;
    }

    /// Sets the output path.
    pub fn set_output_path(&mut self, path: SassPath)
        ensures
            final(self)@ == (OptionsModel { output_path: path@, ..old(self)@ }),
    {
        self.output_path = path;
    }

    /// Sets the path of the source map file.
    pub fn set_source_map_file(&mut self, path: SassPath)
        ensures
            final(self)@ == (OptionsModel { source_map_file: path@, ..old(self)@ }),
    {
        self.source_map_file = path;
    }

    /// A deep copy: equal values, sharing no storage with `self`.
    pub fn copy(&self) -> (r: SassOptions)
        ensures
            r@ == self@,
    {
        let inspect = SassInspectOptions::new(
            self.output_options.inspect_options.output_style,
            self.output_options.inspect_options.precision,
        );
        SassOptions {
            output_options: SassOutputOptions::new_from_options(
                inspect,
                self.output_options.indent.as_str(),
                self.output_options.linefeed.as_str(),
                self.output_options.source_comments,
            ),
            source_map_embed: self.source_map_embed,
            source_map_contents: self.source_map_contents,
            source_map_file_urls: self.source_map_file_urls,
            omit_source_map_url: self.omit_source_map_url,
            is_indented_syntax_src: self.is_indented_syntax_src,
            input_path: self.input_path.duplicate(),
            output_path: self.output_path.duplicate(),
            extensions: self.extensions.copy(),
            include_paths: self.include_paths.copy(),
            plugin_paths: self.plugin_paths.copy(),
            source_map_file: self.source_map_file.duplicate(),
            source_map_root: String::from_str(self.source_map_root.as_str()),
        }
    }
}

/// Decodes a path argument of a handle operation.
fn path_arg(raw: &[u8]) -> (r: SassPath)
    requires
        has_nul(raw@),
    ensures
        r@ == c_body(raw@),
{
    match SassPath::from_c_bytes(raw) {
        Some(p) => p,
        None => SassPath::empty(),
    }
}

/// Decodes a text argument of a handle operation.
fn text_arg(raw: &[u8]) -> (r: String)
    requires
        is_c_text(raw@),
    ensures
        r@ == decode_utf8(c_body(raw@)),
{
    match decode_c_text(raw) {
        Some(s) => s,
        None => String::new(),
    }
}

/// Makes an options object with every field at its default; the caller owns it.
pub fn sass_make_options() -> (r: Box<SassOptions>)
    ensures
        r@ == default_options(),
{
    Box::new(SassOptions::new())
}

/// Releases an options object and everything it owns. `None` stands for the
/// null handle, for which nothing happens.
pub fn sass_delete_options(options: Option<Box<SassOptions>>) {
    if let Some(owned) = options {
        let _released: Box<SassOptions> = owned;
        // `_released` goes out of scope here, and with it all that it owns.
    }
}

pub fn sass_option_set_precision(options: &mut SassOptions, precision: u8)
    ensures
        final(options)@ == (OptionsModel { precision: precision, ..old(options)@ }),
{
    options.output_options.inspect_options.precision = precision;
}

pub fn sass_option_get_precision(options: &SassOptions) -> (r: u8)
    ensures
        r == options@.precision,
{
    options.output_options.inspect_options.precision
}

/// Sets the output style; the internal styles cannot be chosen here.
pub fn sass_option_set_output_style(options: &mut SassOptions, output_style: SassOutputStyle)
    requires
        output_style.is_selectable(),
    ensures
        final(options)@ == (OptionsModel { output_style: output_style, ..old(options)@ }),
{
    options.output_options.inspect_options.output_style = output_style;
}

pub fn sass_option_get_output_style(options: &SassOptions) -> (r: SassOutputStyle)
    ensures
        r == options@.output_style,
{
    options.output_options.inspect_options.output_style
}

/// Emit comments in the generated text that name the source line.
pub fn sass_option_set_source_comments(options: &mut SassOptions, source_comments: bool)
    ensures
        final(options)@ == (OptionsModel { source_comments: source_comments, ..old(options)@ }),
{
    options.output_options.source_comments = source_comments;
}

pub fn sass_option_get_source_comments(options: &SassOptions) -> (r: bool)
    ensures
        r == options@.source_comments,
{
    options.output_options.source_comments
}

/// Leave the source map url comment out of the output.
pub fn sass_option_set_omit_source_map_url(options: &mut SassOptions, omit_source_map_url: bool)
    ensures
        final(options)@ == (OptionsModel { omit_source_map_url: omit_source_map_url, ..old(options)@ }),
{
    options.omit_source_map_url = omit_source_map_url;
}

pub fn sass_option_get_omit_source_map_url(options: &SassOptions) -> (r: bool)
    ensures
        r == options@.omit_source_map_url,
{
    options.omit_source_map_url
}

/// Read the input as indented syntax.
pub fn sass_option_set_is_indented_syntax_src(options: &mut SassOptions, is_indented_syntax_src: bool)
    ensures
        final(options)@ == (OptionsModel { is_indented_syntax_src: is_indented_syntax_src, ..old(options)@ }),
{
    options.is_indented_syntax_src = is_indented_syntax_src;
}

pub fn sass_option_get_is_indented_syntax_src(options: &SassOptions) -> (r: bool)
    ensures
        r == options@.is_indented_syntax_src,
{
    options.is_indented_syntax_src
}

/// Embed the source map into the output as a data uri.
pub fn sass_option_set_source_map_embed(options: &mut SassOptions, source_map_embed: bool)
    ensures
        final(options)@ == (OptionsModel { source_map_embed: source_map_embed, ..old(options)@ }),
{
    options.source_map_embed = source_map_embed;
}

pub fn sass_option_get_source_map_embed(options: &SassOptions) -> (r: bool)
    ensures
        r == options@.source_map_embed,
{
    options.source_map_embed
}

/// Embed the contents of included files in the source map.
pub fn sass_option_set_source_map_contents(options: &mut SassOptions, source_map_contents: bool)
    ensures
        final(options)@ == (OptionsModel { source_map_contents: source_map_contents, ..old(options)@ }),
{
    options.source_map_contents = source_map_contents;
}

pub fn sass_option_get_source_map_contents(options: &SassOptions) -> (r: bool)
    ensures
        r == options@.source_map_contents,
{
    options.source_map_contents
}

/// Name the sources of the source map by file urls.
pub fn sass_option_set_source_map_file_urls(options: &mut SassOptions, source_map_file_urls: bool)
    ensures
        final(options)@ == (OptionsModel { source_map_file_urls: source_map_file_urls, ..old(options)@ }),
{
    options.source_map_file_urls = source_map_file_urls;
}

pub fn sass_option_get_source_map_file_urls(options: &SassOptions) -> (r: bool)
    ensures
        r == options@.source_map_file_urls,
{
    options.source_map_file_urls
}

/// Sets the input path from a boundary string. The input path, used for source map generation.
pub fn sass_option_set_input_path(options: &mut SassOptions, input_path: &[u8])
    requires
        has_nul(input_path@),
    ensures
        final(options)@ == (OptionsModel { input_path: c_body(input_path@), ..old(options)@ }),
{
    options.input_path = path_arg(input_path);
}

/// The input path as a boundary string, borrowed from the options' storage.
pub fn sass_option_get_input_path(options: &SassOptions) -> (r: &[u8])
    ensures
        r@ == options@.input_path.push(0),
{
    options.input_path.as_bytes_with_nul()
}

/// Sets the output path from a boundary string. The output path, used for source map generation; nothing is written to it.
pub fn sass_option_set_output_path(options: &mut SassOptions, output_path: &[u8])
    requires
        has_nul(output_path@),
    ensures
        final(options)@ == (OptionsModel { output_path: c_body(output_path@), ..old(options)@ }),
{
    options.output_path = path_arg(output_path);
}

/// The output path as a boundary string, borrowed from the options' storage.
pub fn sass_option_get_output_path(options: &SassOptions) -> (r: &[u8])
    ensures
        r@ == options@.output_path.push(0),
{
    options.output_path.as_bytes_with_nul()
}

/// Sets the source map file from a boundary string. The path of the source map file.
pub fn sass_option_set_source_map_file(options: &mut SassOptions, source_map_file: &[u8])
    requires
        has_nul(source_map_file@),
    ensures
        final(options)@ == (OptionsModel { source_map_file: c_body(source_map_file@), ..old(options)@ }),
{
    options.source_map_file = path_arg(source_map_file);
}

/// The source map file as a boundary string, borrowed from the options' storage.
pub fn sass_option_get_source_map_file(options: &SassOptions) -> (r: &[u8])
    ensures
        r@ == options@.source_map_file.push(0),
{
    options.source_map_file.as_bytes_with_nul()
}

/// Sets the indent from a boundary string. The text used for one level of indentation.
pub fn sass_option_set_indent(options: &mut SassOptions, indent: &[u8])
    requires
        is_c_text(indent@),
    ensures
        final(options)@ == (OptionsModel { indent: decode_utf8(c_body(indent@)), ..old(options)@ }),
{
    options.output_options.indent = text_arg(indent);
}

/// The indent, borrowed from the options' storage.
pub fn sass_option_get_indent(options: &SassOptions) -> (r: &str)
    ensures
        r@ == options@.indent,
{
    options.output_options.indent.as_str()
}

/// Sets the linefeed from a boundary string. The text used for line feeds.
pub fn sass_option_set_linefeed(options: &mut SassOptions, linefeed: &[u8])
    requires
        is_c_text(linefeed@),
    ensures
        final(options)@ == (OptionsModel { linefeed: decode_utf8(c_body(linefeed@)), ..old(options)@ }),
{
    options.output_options.linefeed = text_arg(linefeed);
}

/// The linefeed, borrowed from the options' storage.
pub fn sass_option_get_linefeed(options: &SassOptions) -> (r: &str)
    ensures
        r@ == options@.linefeed,
{
    options.output_options.linefeed.as_str()
}

/// Sets the source map root from a boundary string. The text inserted in source maps as their root.
pub fn sass_option_set_source_map_root(options: &mut SassOptions, source_map_root: &[u8])
    requires
        is_c_text(source_map_root@),
    ensures
        final(options)@ == (OptionsModel { source_map_root: decode_utf8(c_body(source_map_root@)), ..old(options)@ }),
{
    options.source_map_root = text_arg(source_map_root);
}

/// The source map root, borrowed from the options' storage.
pub fn sass_option_get_source_map_root(options: &SassOptions) -> (r: &str)
    ensures
        r@ == options@.source_map_root,
{
    options.source_map_root.as_str()
}

/// Adds a import extension given as a boundary string, unless it is there already.
pub fn sass_option_push_import_extension(options: &mut SassOptions, import_extension: &[u8])
    requires
        has_nul(import_extension@),
    ensures
        final(options)@ == (OptionsModel {
            extensions: pushed(old(options)@.extensions, c_body(import_extension@)),
            ..old(options)@
        }),
{
    options.push_import_extension(path_arg(import_extension));
}

/// Adds a include path given as a boundary string, unless it is there already.
pub fn sass_option_push_include_path(options: &mut SassOptions, include_path: &[u8])
    requires
        has_nul(include_path@),
    ensures
        final(options)@ == (OptionsModel {
            include_paths: pushed(old(options)@.include_paths, c_body(include_path@)),
            ..old(options)@
        }),
{
    options.push_include_path(path_arg(include_path));
}

/// Adds a plugin path given as a boundary string, unless it is there already.
pub fn sass_option_push_plugin_path(options: &mut SassOptions, plugin_path: &[u8])
    requires
        has_nul(plugin_path@),
    ensures
        final(options)@ == (OptionsModel {
            plugin_paths: pushed(old(options)@.plugin_paths, c_body(plugin_path@)),
            ..old(options)@
        }),
{
    options.push_plugin_path(path_arg(plugin_path));
}

/// The number of include paths.
pub fn sass_option_get_include_path_size(options: &SassOptions) -> (r: usize)
    ensures
        r == options@.include_paths.len(),
{
    options.include_paths.len()
}

/// The include path at `i`, in insertion order, as a boundary string borrowed
/// from the options' storage.
pub fn sass_option_get_include_path(options: &SassOptions, i: usize) -> (r: &[u8])
    requires
        i < options@.include_paths.len(),
    ensures
        r@ == options@.include_paths[i as int].push(0),
{
    options.include_paths.get(i).as_bytes_with_nul()
}

/// The number of import extensions.
pub fn sass_option_get_import_extension_size(options: &SassOptions) -> (r: usize)
    ensures
        r == options@.extensions.len(),
{
    options.extensions.len()
}

/// The import extension at `i`, in insertion order, as a boundary string
/// borrowed from the options' storage.
pub fn sass_option_get_import_extension(options: &SassOptions, i: usize) -> (r: &[u8])
    requires
        i < options@.extensions.len(),
    ensures
        r@ == options@.extensions[i as int].push(0),
{
    options.extensions.get(i).as_bytes_with_nul()
}

/// The number of plugin paths.
pub fn sass_option_get_plugin_path_size(options: &SassOptions) -> (r: usize)
    ensures
        r == options@.plugin_paths.len(),
{
    options.plugin_paths.len()
}

/// The plugin path at `i`, in insertion order, as a boundary string borrowed
/// from the options' storage.
pub fn sass_option_get_plugin_path(options: &SassOptions, i: usize) -> (r: &[u8])
    requires
        i < options@.plugin_paths.len(),
    ensures
        r@ == options@.plugin_paths[i as int].push(0),
{
    options.plugin_paths.get(i).as_bytes_with_nul()
}

/// The list that pushing each of `paths` in turn onto `list` leaves.
pub open spec fn pushed_all(list: Seq<Seq<u8>>, paths: Seq<Seq<u8>>) -> Seq<Seq<u8>>
    decreases paths.len(),
{
    if paths.len() == 0 {
        list
    } else {
        pushed(pushed_all(list, paths.drop_last()), paths.last())
    }
}

/// Pushing the same include path a second time changes nothing, so on fresh
/// options two pushes of one path leave a single entry.
pub proof fn lemma_push_include_path_twice(o: OptionsModel, raw: Seq<u8>)
    requires
        has_nul(raw),
    ensures
        pushed(pushed(o.include_paths, c_body(raw)), c_body(raw)) == pushed(
            o.include_paths,
            c_body(raw),
        ),
        pushed(pushed(default_options().include_paths, c_body(raw)), c_body(raw)).len() == 1,
{
    let p = c_body(raw);
    let once = pushed(o.include_paths, p);
    if !o.include_paths.contains(p) {
        assert(once[once.len() - 1] == p);
        assert(once.contains(p));
    }
    let fresh = pushed(default_options().include_paths, p);
    assert(!default_options().include_paths.contains(p));
    assert(fresh[0] == p);
    assert(fresh.contains(p));
}

/// Pushing distinct include paths one after another onto fresh options keeps
/// all of them, in the order pushed: as many entries as paths, and entry `i`
/// is the path pushed `i`-th.
pub proof fn lemma_push_distinct_include_paths(paths: Seq<Seq<u8>>)
    requires
        paths.no_duplicates(),
    ensures
        pushed_all(default_options().include_paths, paths) == paths,
        pushed_all(default_options().include_paths, paths).len() == paths.len(),
    decreases paths.len(),
{
    if paths.len() > 0 {
        let init = paths.drop_last();
        assert(init.no_duplicates());
        lemma_push_distinct_include_paths(init);
        if init.contains(paths.last()) {
            let k = choose|k: int| 0 <= k < init.len() && init[k] == paths.last();
            assert(paths[k] == paths[paths.len() - 1]);
        }
        assert(init.push(paths.last()) =~= paths);
    }
}

} // verus!
