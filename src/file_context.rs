//! Contexts that compile a file named by its path.

use vstd::prelude::*;

use crate::codec::{c_body, has_nul, SassPath};
use crate::context::{fresh_context, ContextModel, SassContext, SassInputError, SassInputStyle};
use crate::options::{default_options, OptionsModel, SassOptions};

verus! {

/// A context for compiling the file at `options.input_path`.
#[derive(Debug)]
pub struct SassFileContext {
    pub context: SassContext,
}

/// A fresh file context for the input path `input`.
pub open spec fn fresh_file_context(input: Seq<u8>) -> ContextModel {
    ContextModel {
        options: OptionsModel { input_path: input, ..default_options() },
        ..fresh_context(SassInputStyle::File)
    }
}

impl SassFileContext {
    /// A file context for `input_path`, with default options otherwise; an
    /// error where the path is empty.
    pub fn new(input_path: SassPath) -> (r: Result<SassFileContext, SassInputError>)
        ensures
            r is Err <==> input_path@.len() == 0,
            r matches Err(e) ==> e == SassInputError::EmptyInputPath,
            r matches Ok(ctx) ==> ctx.context@ == fresh_file_context(input_path@),
    {
        if input_path.is_empty() {
            return Err(SassInputError::EmptyInputPath);
        }
        let mut context = SassContext::new(SassInputStyle::File);
        context.options.set_input_path(input_path);
        Ok(SassFileContext { context })
    }
}

/// Makes a file context for the input path given as a boundary string; the
/// caller owns it. An error, and nothing made, where the path is empty.
pub fn sass_make_file_context(input_path: &[u8]) -> (r: Result<
    Box<SassFileContext>,
    SassInputError,
>)
    requires
        has_nul(input_path@),
    ensures
        r is Err <==> c_body(input_path@).len() == 0,
        r matches Err(e) ==> e == SassInputError::EmptyInputPath,
        r matches Ok(ctx) ==> ctx.context@ == fresh_file_context(c_body(input_path@)),
{
    let path = match SassPath::from_c_bytes(input_path) {
        Some(p) => p,
        None => SassPath::empty(),
    };
    match SassFileContext::new(path) {
        Ok(ctx) => Ok(Box::new(ctx)),
        Err(e) => Err(e),
    }
}

/// Releases a file context with its options and everything else it owns.
/// `None` stands for the null handle, for which nothing happens.
pub fn sass_delete_file_context(file_ctx: Option<Box<SassFileContext>>) {
    if let Some(owned) = file_ctx {
        let _released: Box<SassFileContext> = owned;
        // `_released` goes out of scope here, and with it all that it owns.
    }
}

/// The context embedded in a file context, borrowed from it.
pub fn sass_file_context_get_context(file_ctx: &SassFileContext) -> (r: &SassContext)
    ensures
        r@ == file_ctx.context@,
{
    &file_ctx.context
}

/// The options embedded in a file context, borrowed from it for reading and
/// changing.
pub fn sass_file_context_get_options(file_ctx: &mut SassFileContext) -> (r: &mut SassOptions)
    ensures
        r@ == old(file_ctx).context.options@,
        final(file_ctx).context@ == (ContextModel { options: final(r)@, ..old(file_ctx).context@ }),
{
    &mut file_ctx.context.options
}

/// Replaces the options of a file context by a copy of `options`; the caller
/// keeps `options`.
pub fn sass_file_context_set_options(file_ctx: &mut SassFileContext, options: &SassOptions)
    ensures
        final(file_ctx).context@ == (ContextModel { options: options@, ..old(file_ctx).context@ }),
{
    file_ctx.context.options = options.copy();
}

} // verus!
