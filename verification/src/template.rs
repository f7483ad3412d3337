//! The context a page is rendered against, as `tera` holds it. The library
//! fills it; rendering itself is the caller's to do.

use vstd::prelude::*;

verus! {

/// The key/value mapping that a template is rendered against.
#[verifier::external_type_specification]
#[verifier::external_body]
pub struct ExContext(tera::Context);

/// The string entries of a context: each key with the text stored under it.
pub uninterp spec fn context_entries(context: tera::Context) -> Map<Seq<char>, Seq<char>>;

/// `tera::Context::new`. Trusted: the new context has no entry.
#[verifier::external_body]
pub(crate) fn new_context() -> (context: tera::Context)
    ensures
        context_entries(context) == (Map::<Seq<char>, Seq<char>>::empty()),
{
    tera::Context::new()
}

/// `tera::Context::insert` with a string value. Trusted: `value` is stored
/// under `key`, replacing what the key held, and no other entry changes.
#[verifier::external_body]
pub(crate) fn context_insert(context: &mut tera::Context, key: &str, value: &str)
    ensures
        context_entries(*final(context)) == context_entries(*old(context)).insert(key@, value@),
{
    context.insert(key, value);
}

} // verus!
