//! The diagnostic that the collector stores: `syn::Error`, taken on trust.
//!
//! Nothing in this file is proved. It declares the type, names the one thing
//! the collector's contracts say about a diagnostic (the texts it carries),
//! and states what merging does to those texts.

use vstd::prelude::*;

verus! {

/// `syn::Error`, declared so that it can stand in signatures and fields.
/// A value of it is opaque to the verifier.
#[verifier::external_type_specification]
#[verifier::external_body]
pub struct ExError(syn::Error);

/// The texts of the messages that a diagnostic carries, in the order in
/// which it renders them: `syn::Error` keeps its messages in a vector, and
/// `to_compile_error` emits one `compile_error!` invocation per entry, front
/// to back. The spans of the messages are not part of this value.
pub uninterp spec fn messages(error: syn::Error) -> Seq<Seq<char>>;

/// `syn::Error::combine` appends the messages of `another` behind those that
/// `error` already carries, keeping both groups in their order. This is all
/// the contract claims; it says nothing of spans.
pub assume_specification[ syn::Error::combine ](error: &mut syn::Error, another: syn::Error)
    ensures
        messages(*final(error)) == messages(*old(error)) + messages(another),
;

} // verus!
