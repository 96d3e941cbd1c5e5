use sassafras::inspect_options::SassInspectOptions;
use sassafras::options::{
    sass_delete_options, sass_make_options, sass_option_get_import_extension,
    sass_option_get_import_extension_size, sass_option_get_include_path,
    sass_option_get_plugin_path, sass_option_get_plugin_path_size,
    sass_option_get_include_path_size, sass_option_get_indent, sass_option_get_input_path,
    sass_option_get_is_indented_syntax_src, sass_option_get_linefeed,
    sass_option_get_omit_source_map_url, sass_option_get_output_path,
    sass_option_get_output_style, sass_option_get_precision, sass_option_get_source_comments,
    sass_option_get_source_map_contents, sass_option_get_source_map_embed,
    sass_option_get_source_map_file, sass_option_get_source_map_file_urls,
    sass_option_get_source_map_root, sass_option_push_import_extension,
    sass_option_push_include_path, sass_option_push_plugin_path, sass_option_set_indent,
    sass_option_set_input_path, sass_option_set_is_indented_syntax_src, sass_option_set_linefeed,
    sass_option_set_omit_source_map_url, sass_option_set_output_path,
    sass_option_set_output_style, sass_option_set_precision, sass_option_set_source_comments,
    sass_option_set_source_map_contents, sass_option_set_source_map_embed,
    sass_option_set_source_map_file, sass_option_set_source_map_file_urls,
    sass_option_set_source_map_root, SassOptions,
};
use sassafras::output_options::{SassOutputOptions, SassOutputStyle};

#[test]
fn make_options_has_defaults() {
    let options = sass_make_options();
    assert_eq!(sass_option_get_precision(&options), 5);
    assert_eq!(sass_option_get_indent(&options), "  ");
    assert_eq!(sass_option_get_linefeed(&options), "\n");
    assert_eq!(sass_option_get_output_style(&options), SassOutputStyle::Nested);
    assert!(!sass_option_get_source_comments(&options));
    assert!(!sass_option_get_source_map_embed(&options));
    assert!(!sass_option_get_source_map_contents(&options));
    assert!(!sass_option_get_source_map_file_urls(&options));
    assert!(!sass_option_get_omit_source_map_url(&options));
    assert!(!sass_option_get_is_indented_syntax_src(&options));
    assert_eq!(sass_option_get_input_path(&options), b"\0");
    assert_eq!(sass_option_get_output_path(&options), b"\0");
    assert_eq!(sass_option_get_source_map_file(&options), b"\0");
    assert_eq!(sass_option_get_source_map_root(&options), "");
    assert_eq!(sass_option_get_include_path_size(&options), 0);
    sass_delete_options(Some(options));
}

#[test]
fn new_options_match_made_options() {
    let options = SassOptions::new();
    assert_eq!(sass_option_get_precision(&options), 5);
    assert_eq!(sass_option_get_indent(&options), "  ");
    assert_eq!(sass_option_get_linefeed(&options), "\n");
    assert_eq!(sass_option_get_output_style(&options), SassOutputStyle::Nested);
}

#[test]
fn init_restores_precision_indent_and_linefeed() {
    let mut options = SassOptions::new();
    sass_option_set_precision(&mut options, 9);
    sass_option_set_indent(&mut options, b"\t\0");
    sass_option_set_linefeed(&mut options, b"\r\n\0");
    sass_option_set_source_comments(&mut options, true);
    options.init();
    assert_eq!(sass_option_get_precision(&options), 5);
    assert_eq!(sass_option_get_indent(&options), "  ");
    assert_eq!(sass_option_get_linefeed(&options), "\n");
    assert!(sass_option_get_source_comments(&options));
}

#[test]
fn push_same_include_path_twice_keeps_one() {
    let mut options = sass_make_options();
    sass_option_push_include_path(&mut options, b"lib/styles\0");
    sass_option_push_include_path(&mut options, b"lib/styles\0");
    assert_eq!(sass_option_get_include_path_size(&options), 1);
    assert_eq!(sass_option_get_include_path(&options, 0), b"lib/styles\0");
}

#[test]
fn delete_null_options_does_nothing() {
    sass_delete_options(None);
}

#[test]
fn push_distinct_include_paths_keeps_order() {
    let mut options = sass_make_options();
    let paths: [&[u8]; 4] = [b"a\0", b"b/c\0", b"d\0", b"a/b\0"];
    for p in paths.iter() {
        sass_option_push_include_path(&mut options, p);
    }
    assert_eq!(sass_option_get_include_path_size(&options), 4);
    for (i, p) in paths.iter().enumerate() {
        assert_eq!(sass_option_get_include_path(&options, i), *p);
    }
}

#[test]
fn include_path_stops_at_first_zero_byte() {
    let mut options = sass_make_options();
    sass_option_push_include_path(&mut options, b"inc\0ignored\0");
    sass_option_push_include_path(&mut options, b"inc\0");
    assert_eq!(sass_option_get_include_path_size(&options), 1);
    assert_eq!(sass_option_get_include_path(&options, 0), b"inc\0");
}

#[test]
fn output_style_round_trips() {
    let styles = [
        SassOutputStyle::Nested,
        SassOutputStyle::Expanded,
        SassOutputStyle::Compact,
        SassOutputStyle::Compressed,
    ];
    let mut options = sass_make_options();
    for style in styles.iter() {
        sass_option_set_output_style(&mut options, *style);
        assert_eq!(sass_option_get_output_style(&options), *style);
    }
}

#[test]
fn boolean_flags_round_trip() {
    let mut options = sass_make_options();
    sass_option_set_source_comments(&mut options, true);
    sass_option_set_omit_source_map_url(&mut options, true);
    sass_option_set_is_indented_syntax_src(&mut options, true);
    sass_option_set_source_map_embed(&mut options, true);
    sass_option_set_source_map_contents(&mut options, true);
    sass_option_set_source_map_file_urls(&mut options, true);
    assert!(sass_option_get_source_comments(&options));
    assert!(sass_option_get_omit_source_map_url(&options));
    assert!(sass_option_get_is_indented_syntax_src(&options));
    assert!(sass_option_get_source_map_embed(&options));
    assert!(sass_option_get_source_map_contents(&options));
    assert!(sass_option_get_source_map_file_urls(&options));
    sass_option_set_source_map_embed(&mut options, false);
    assert!(!sass_option_get_source_map_embed(&options));
    assert!(sass_option_get_source_comments(&options));
}

#[test]
fn precision_round_trips_over_full_range() {
    let mut options = sass_make_options();
    sass_option_set_precision(&mut options, 0);
    assert_eq!(sass_option_get_precision(&options), 0);
    sass_option_set_precision(&mut options, 255);
    assert_eq!(sass_option_get_precision(&options), 255);
}

#[test]
fn path_setters_store_bytes_before_zero() {
    let mut options = sass_make_options();
    sass_option_set_input_path(&mut options, b"in.scss\0");
    sass_option_set_output_path(&mut options, b"out.css\0");
    sass_option_set_source_map_file(&mut options, b"out.css.map\0rest");
    assert_eq!(sass_option_get_input_path(&options), b"in.scss\0");
    assert_eq!(sass_option_get_output_path(&options), b"out.css\0");
    assert_eq!(sass_option_get_source_map_file(&options), b"out.css.map\0");
}

#[test]
fn text_setters_decode_utf8() {
    let mut options = sass_make_options();
    sass_option_set_source_map_root(&mut options, "/srv/caf\u{e9}\0".as_bytes());
    sass_option_set_indent(&mut options, b"\t\0");
    sass_option_set_linefeed(&mut options, b"\r\n\0");
    assert_eq!(sass_option_get_source_map_root(&options), "/srv/caf\u{e9}");
    assert_eq!(sass_option_get_indent(&options), "\t");
    assert_eq!(sass_option_get_linefeed(&options), "\r\n");
}

#[test]
fn extensions_and_plugin_paths_skip_duplicates() {
    let mut options = sass_make_options();
    sass_option_push_import_extension(&mut options, b"scss\0");
    sass_option_push_import_extension(&mut options, b"scss\0");
    sass_option_push_plugin_path(&mut options, b"plugins\0");
    sass_option_push_plugin_path(&mut options, b"plugins\0");
    sass_option_push_import_extension(&mut options, b"sass\0");
    assert_eq!(sass_option_get_import_extension_size(&options), 2);
    assert_eq!(sass_option_get_import_extension(&options, 0), b"scss\0");
    assert_eq!(sass_option_get_import_extension(&options, 1), b"sass\0");
    assert_eq!(sass_option_get_plugin_path_size(&options), 1);
    assert_eq!(sass_option_get_plugin_path(&options, 0), b"plugins\0");
    assert_eq!(sass_option_get_include_path_size(&options), 0);
}

#[test]
fn copy_shares_nothing_with_its_source() {
    let mut options = sass_make_options();
    sass_option_push_include_path(&mut options, b"one\0");
    let copy = options.copy();
    sass_option_push_include_path(&mut options, b"two\0");
    sass_option_set_precision(&mut options, 1);
    assert_eq!(sass_option_get_include_path_size(&copy), 1);
    assert_eq!(sass_option_get_include_path(&copy, 0), b"one\0");
    assert_eq!(sass_option_get_precision(&copy), 5);
    assert_eq!(sass_option_get_include_path_size(&options), 2);
}

#[test]
fn output_options_constructors_keep_values() {
    let inspect = SassInspectOptions::new(SassOutputStyle::Compact, 7);
    assert_eq!(inspect.output_style, SassOutputStyle::Compact);
    assert_eq!(inspect.precision, 7);
    let out = SassOutputOptions::new_from_options(inspect, "    ", "\r\n", true);
    assert_eq!(out.inspect_options.precision, 7);
    assert_eq!(out.indent, "    ");
    assert_eq!(out.linefeed, "\r\n");
    assert!(out.source_comments);
    let out2 = SassOutputOptions::new(SassOutputStyle::Expanded, 3, "  ", "\n", false);
    assert_eq!(out2.inspect_options.output_style, SassOutputStyle::Expanded);
    assert_eq!(out2.inspect_options.precision, 3);
    assert_eq!(out2.indent, "  ");
    assert_eq!(out2.linefeed, "\n");
    assert!(!out2.source_comments);
}

#[test]
fn default_style_is_nested() {
    assert_eq!(SassOutputStyle::default(), SassOutputStyle::Nested);
}
