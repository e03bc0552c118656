//! Parse: turns raw input text into an interface declaration, through the
//! external syntax-tree library. Parsing is consumed as an opaque capability;
//! only the fields the transformation reads are extracted.

use vstd::prelude::*;
use crate::decl::{InterfaceDecl, InterfaceView};

verus! {

/// What `syn`'s parse of interface-declaration text returns: the readable
/// fields of the declaration when the text parses as an interface, nothing
/// otherwise. Parsing is a function of the text alone.
pub uninterp spec fn parse_of(src: Seq<char>) -> Option<InterfaceView>;

/// Relies on `syn::parse_str::<syn::ItemTrait>`: parsing is deterministic in
/// the text and succeeds exactly on syntactically valid trait declarations.
/// The visibility, the supertraits (in declaration order) and the body items
/// are reprinted one by one with `quote::ToTokens`.
#[verifier::external_body]
pub fn parse_interface(src: &str) -> (r: Option<InterfaceDecl>)
    ensures
        (r is Some) == (parse_of(src@) is Some),
        r matches Some(d) ==> (parse_of(src@) matches Some(v) && d@ == v),
{
    let t: syn::ItemTrait = match syn::parse_str(src) {
        Ok(t) => t,
        Err(_) => return None,
    };
    let vis = quote::ToTokens::to_token_stream(&t.vis).to_string();
    let name = t.ident.to_string();
    let requirements = t
        .supertraits
        .iter()
        .map(|b| quote::ToTokens::to_token_stream(b).to_string())
        .collect();
    let body = t.items.iter().map(|i| quote::ToTokens::to_token_stream(i).to_string()).collect();
    Some(InterfaceDecl { vis, name, requirements, body })
}

} // verus!
