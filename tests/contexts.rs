use sassafras::codec::SassPath;
use sassafras::context::{SassContext, SassInputError, SassInputStyle};
use sassafras::data_context::{
    sass_data_context_get_context, sass_data_context_get_options, sass_data_context_set_options,
    sass_delete_data_context, sass_make_data_context, SassDataContext,
};
use sassafras::file_context::{
    sass_delete_file_context, sass_file_context_get_context, sass_file_context_get_options,
    sass_file_context_set_options, sass_make_file_context, SassFileContext,
};
use sassafras::options::{
    sass_make_options, sass_option_get_include_path_size, sass_option_get_input_path,
    sass_option_get_precision, sass_option_push_include_path, sass_option_set_precision,
};

#[test]
fn file_context_holds_input_path() {
    let ctx = sass_make_file_context(b"a.scss\0").unwrap();
    let inner = sass_file_context_get_context(&ctx);
    assert_eq!(inner.context_type, SassInputStyle::File);
    assert_eq!(inner.error_status, 0);
    assert_eq!(inner.output_string, "");
    assert_eq!(sass_option_get_input_path(&inner.options), b"a.scss\0");
    assert_eq!(sass_option_get_precision(&inner.options), 5);
    sass_delete_file_context(Some(ctx));
}

#[test]
fn file_context_with_empty_path_is_an_input_error() {
    let r = sass_make_file_context(b"\0");
    let e = r.err().unwrap();
    assert_eq!(e, SassInputError::EmptyInputPath);
    assert_eq!(e.status(), 1);
    assert_eq!(e.message(), "File context created with empty input path");
    assert!(SassFileContext::new(SassPath::empty()).is_err());
}

#[test]
fn data_context_holds_source() {
    let ctx = sass_make_data_context("a { b: c }".to_string()).unwrap();
    assert_eq!(ctx.source_string, "a { b: c }");
    assert_eq!(ctx.srcmap_string, "");
    let inner = sass_data_context_get_context(&ctx);
    assert_eq!(inner.context_type, SassInputStyle::Data);
    assert_eq!(inner.error_status, 0);
    sass_delete_data_context(Some(ctx));
}

#[test]
fn data_context_with_empty_source_is_an_input_error() {
    let e = sass_make_data_context(String::new()).err().unwrap();
    assert_eq!(e, SassInputError::EmptySourceString);
    assert_eq!(e.status(), 1);
    assert_eq!(e.message(), "Data context created with empty source string");
    assert!(SassDataContext::new(String::new()).is_err());
}

#[test]
fn deleting_null_contexts_does_nothing() {
    sass_delete_file_context(None);
    sass_delete_data_context(None);
}

#[test]
fn options_borrowed_from_file_context_change_it() {
    let mut ctx = sass_make_file_context(b"a.scss\0").unwrap();
    {
        let options = sass_file_context_get_options(&mut ctx);
        sass_option_set_precision(options, 3);
    }
    assert_eq!(sass_option_get_precision(&ctx.context.options), 3);
    assert_eq!(sass_option_get_input_path(&ctx.context.options), b"a.scss\0");
}

#[test]
fn set_options_copies_into_file_context() {
    let mut ctx = sass_make_file_context(b"a.scss\0").unwrap();
    let mut mine = sass_make_options();
    sass_option_set_precision(&mut mine, 8);
    sass_file_context_set_options(&mut ctx, &mine);
    sass_option_push_include_path(&mut mine, b"later\0");
    sass_option_set_precision(&mut mine, 2);
    let inner = sass_file_context_get_context(&ctx);
    assert_eq!(sass_option_get_precision(&inner.options), 8);
    assert_eq!(sass_option_get_include_path_size(&inner.options), 0);
    assert_eq!(sass_option_get_input_path(&inner.options), b"\0");
    assert_eq!(inner.context_type, SassInputStyle::File);
}

#[test]
fn data_context_options_borrow_and_copy() {
    let mut ctx = sass_make_data_context("x".to_string()).unwrap();
    sass_option_set_precision(sass_data_context_get_options(&mut ctx), 4);
    assert_eq!(sass_option_get_precision(&ctx.context.options), 4);
    let mine = sass_make_options();
    sass_data_context_set_options(&mut ctx, &mine);
    assert_eq!(sass_option_get_precision(&ctx.context.options), 5);
    assert_eq!(ctx.source_string, "x");
}

#[test]
fn context_copy_keeps_fields() {
    let mut ctx = SassContext::new(SassInputStyle::Folder);
    ctx.error_status = 3;
    ctx.error_message = "bad".to_string();
    ctx.included_files.push(SassPath::from_bytes(b"inc.scss").unwrap());
    let copy = ctx.copy();
    assert_eq!(copy.context_type, SassInputStyle::Folder);
    assert_eq!(copy.error_status, 3);
    assert_eq!(copy.error_message, "bad");
    assert_eq!(copy.included_files.len(), 1);
    assert_eq!(copy.included_files[0].as_bytes_with_nul(), b"inc.scss\0");
}

#[test]
fn default_input_style_is_null() {
    assert_eq!(SassInputStyle::default(), SassInputStyle::Null);
}
