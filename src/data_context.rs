//! Contexts that compile a stylesheet held in memory.

use vstd::prelude::*;

use crate::context::{fresh_context, ContextModel, SassContext, SassInputError, SassInputStyle};
use crate::options::SassOptions;

verus! {

/// A context for compiling the stylesheet in `source_string`.
#[derive(Debug)]
pub struct SassDataContext {
    pub context: SassContext,
    /// The stylesheet to compile.
    pub source_string: String,
    /// A source map that came with the stylesheet, if any.
    pub srcmap_string: String,
}

impl SassDataContext {
    /// A data context for `source_string`, with default options; an error where
    /// the source is empty.
    pub fn new(source_string: String) -> (r: Result<SassDataContext, SassInputError>)
        ensures
            r is Err <==> source_string@.len() == 0,
            r matches Err(e) ==> e == SassInputError::EmptySourceString,
            r matches Ok(ctx) ==> {
                &&& ctx.context@ == fresh_context(SassInputStyle::Data)
                &&& ctx.source_string@ == source_string@
                &&& ctx.srcmap_string@.len() == 0
            },
    {
        if source_string.as_str().is_empty() {
            return Err(SassInputError::EmptySourceString);
        }
        Ok(
            SassDataContext {
                context: SassContext::new(SassInputStyle::Data),
                source_string,
                srcmap_string: String::new(),
            },
        )
    }
}

/// Makes a data context that takes over `source_string`; the caller owns it.
/// An error, and nothing made, where the source is empty.
pub fn sass_make_data_context(source_string: String) -> (r: Result<
    Box<SassDataContext>,
    SassInputError,
>)
    ensures
        r is Err <==> source_string@.len() == 0,
        r matches Err(e) ==> e == SassInputError::EmptySourceString,
        r matches Ok(ctx) ==> {
            &&& ctx.context@ == fresh_context(SassInputStyle::Data)
            &&& ctx.source_string@ == source_string@
            &&& ctx.srcmap_string@.len() == 0
        },
{
    match SassDataContext::new(source_string) {
        Ok(ctx) => Ok(Box::new(ctx)),
        Err(e) => Err(e),
    }
}

/// Releases a data context with its options and everything else it owns.
/// `None` stands for the null handle, for which nothing happens.
pub fn sass_delete_data_context(data_ctx: Option<Box<SassDataContext>>) {
    if let Some(owned) = data_ctx {
        let _released: Box<SassDataContext> = owned;
        // `_released` goes out of scope here, and with it all that it owns.
    }
}

/// The context embedded in a data context, borrowed from it.
pub fn sass_data_context_get_context(data_ctx: &SassDataContext) -> (r: &SassContext)
    ensures
        r@ == data_ctx.context@,
{
    &data_ctx.context
}

/// The options embedded in a data context, borrowed from it for reading and
/// changing.
pub fn sass_data_context_get_options(data_ctx: &mut SassDataContext) -> (r: &mut SassOptions)
    ensures
        r@ == old(data_ctx).context.options@,
        final(data_ctx).context@ == (ContextModel { options: final(r)@, ..old(data_ctx).context@ }),
        final(data_ctx).source_string@ == old(data_ctx).source_string@,
        final(data_ctx).srcmap_string@ == old(data_ctx).srcmap_string@,
{
    &mut data_ctx.context.options
}

/// Replaces the options of a data context by a copy of `options`; the caller
/// keeps `options`.
pub fn sass_data_context_set_options(data_ctx: &mut SassDataContext, options: &SassOptions)
    ensures
        final(data_ctx).context@ == (ContextModel { options: options@, ..old(data_ctx).context@ }),
        final(data_ctx).source_string@ == old(data_ctx).source_string@,
        final(data_ctx).srcmap_string@ == old(data_ctx).srcmap_string@,
{
    data_ctx.context.options = options.copy();
}

} // verus!
