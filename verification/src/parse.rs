//! Reading the transform's two inputs out of source text.
//!
//! The syntax facility is the outside crate `syn`, consumed here behind two
//! trusted wrappers: one classifies the attribute text as a closure literal
//! or a plain expression, the other reads a function item into the library's
//! own model. Everything downstream of them is verified; [`eyre`] is the
//! transform applied to the two parses.

use quote::ToTokens;
use syn::{FnArg, Pat};
use vstd::prelude::*;
use vstd::string::StringExecFns;

use crate::ast::{ContextClass, ContextClassV, ContextSpec, ContextSpecV, FnDef, FnDefV, Param};
use crate::transform::{transform, wrapped_fn_text};

verus! {

/// What parsing a context expression yields: nothing when the text is not an
/// expression, otherwise whether that expression is a closure literal and,
/// if so, how many parameters it declares.
pub uninterp spec fn context_class_of(s: Seq<char>) -> Option<ContextClassV>;

/// What parsing a function item yields: nothing when the text is not a
/// function item or some parameter is bound to a pattern other than a bare
/// identifier or the receiver; otherwise the item's header text, parameters
/// in declaration order, and body text.
pub uninterp spec fn fn_item_of(s: Seq<char>) -> Option<FnDefV>;

/// Relies on syn::parse_str::<syn::Expr>: it reads the text of an expression,
/// representing a closure literal as syn::Expr::Closure with its declared
/// parameters. The crate takes syn and proc-macro2 without their
/// compiler-backed token facility, so lexing always uses proc-macro2's own
/// implementation and the result depends on the text alone.
#[verifier::external_body]
fn classify_context(src: &str) -> (r: Option<ContextClass>)
    ensures
        r matches Some(cc) ==> context_class_of(src@) == Some(cc@),
        r is None ==> context_class_of(src@) is None,
{
    match syn::parse_str::<syn::Expr>(src) {
        Ok(syn::Expr::Closure(c)) => Some(ContextClass::Closure(c.inputs.len())),
        Ok(_) => Some(ContextClass::Plain),
        Err(_) => None,
    }
}

/// Relies on syn::parse_str::<syn::ItemFn> to read a function item out of the
/// text, and on quote::ToTokens to render the item's header (attributes,
/// visibility, signature) and its body block back to text. The crate takes
/// syn, quote and proc-macro2 without their compiler-backed token facility,
/// so lexing and rendering always use proc-macro2's own implementation and
/// the results of both depend on the text alone. Yields nothing when the
/// text is not a function item or a parameter is bound to anything but a
/// bare identifier or the receiver.
#[verifier::external_body]
fn parse_fn_item(src: &str) -> (r: Option<FnDef>)
    ensures
        r matches Some(f) ==> fn_item_of(src@) == Some(f@),
        r is None ==> fn_item_of(src@) is None,
{
    let f = syn::parse_str::<syn::ItemFn>(src).ok()?;
    let mut params: Vec<Param> = Vec::new();
    for a in f.sig.inputs.iter() {
        match a {
            FnArg::Receiver(_) => params.push(Param::Receiver),
            FnArg::Typed(t) => match &*t.pat {
                Pat::Ident(p) => params.push(Param::Named(p.ident.to_string())),
                _ => return None,
            },
        }
    }
    let mut head = proc_macro2::TokenStream::new();
    for a in f.attrs.iter() { a.to_tokens(&mut head); }
    f.vis.to_tokens(&mut head); f.sig.to_tokens(&mut head);
    Some(FnDef { sig: head.to_string(), params, body: f.block.to_token_stream().to_string() })
}

/// The context specification an attribute text denotes once classified: the
/// text itself, in closure form with the declared parameter count, or in
/// plain form.
pub open spec fn context_spec_of(class: ContextClassV, text: Seq<char>) -> ContextSpecV {
    match class {
        ContextClassV::Closure(arity) => ContextSpecV::Closure(text, arity),
        ContextClassV::Plain => ContextSpecV::Plain(text),
    }
}

/// Rewrite the function item in `item` under the context expression in
/// `attr`: the emitted function keeps the item's header and returns the
/// original body's result with the context message attached to any failure.
/// Yields the emitted text, or nothing exactly when one of the two inputs
/// does not parse as the expected shape.
pub fn eyre(attr: &str, item: &str) -> (r: Option<String>)
    ensures
        r is Some <==> context_class_of(attr@) is Some && fn_item_of(item@) is Some,
        r matches Some(out) ==> out@ == wrapped_fn_text(
            fn_item_of(item@)->Some_0,
            context_spec_of(context_class_of(attr@)->Some_0, attr@),
        ),
{
    let class = match classify_context(attr) {
        Some(cc) => cc,
        None => {
            return None;
        },
    };
    let f = match parse_fn_item(item) {
        Some(f) => f,
        None => {
            return None;
        },
    };
    let c = match class {
        ContextClass::Closure(arity) => ContextSpec::Closure(String::from_str(attr), arity),
        ContextClass::Plain => ContextSpec::Plain(String::from_str(attr)),
    };
    Some(transform(&c, &f))
}

} // verus!
