//! The context-wrapping transform itself.
//!
//! Given a function definition and a context specification, [`transform`]
//! emits the text of a function with the same header whose body evaluates the
//! context expression once, runs the original body unchanged inside a
//! zero-argument unit of work captured by move, and hands the unit's result
//! together with the message to the wrap-with-context operation of the
//! failure-chaining library.

use vstd::prelude::*;
use vstd::string::StringExecFns;

use crate::ast::{ContextSpec, ContextSpecV, FnDef, FnDefV, Param, ParamV};

verus! {

/// The spec-level values of a parameter sequence.
pub open spec fn params_v(ps: Seq<Param>) -> Seq<ParamV> {
    ps.map_values(|q: Param| q@)
}

/// The expression that refers to a parameter inside the emitted body: the
/// conventional `self` binding for the receiver, the parameter's own
/// identifier otherwise.
pub open spec fn arg_ref_text(p: ParamV) -> Seq<char> {
    match p {
        ParamV::Receiver => "self"@,
        ParamV::Named(id) => id,
    }
}

/// The argument handed to a closure-form context for one parameter: a
/// reference to the parameter, never the parameter itself.
pub open spec fn borrowed_arg_text(p: ParamV) -> Seq<char> {
    "&"@ + arg_ref_text(p)
}

/// An argument list for a closure-form context invocation: one borrowed
/// argument per parameter in the given sequence, in order, comma-separated.
pub open spec fn borrowed_args_text(ps: Seq<ParamV>) -> Seq<char>
    decreases ps.len(),
{
    if ps.len() == 0 {
        Seq::empty()
    } else if ps.len() == 1 {
        borrowed_arg_text(ps[0])
    } else {
        borrowed_args_text(ps.drop_last()) + ", "@ + borrowed_arg_text(ps.last())
    }
}

/// How many leading parameters a closure-form context receives: one per
/// parameter the closure declares, and never more than the function has.
pub open spec fn borrow_count(declared: nat, available: nat) -> int {
    if declared <= available {
        declared as int
    } else {
        available as int
    }
}

/// The expression that produces the context message inside the emitted body:
/// a closure-form context is invoked with a reference to one function
/// parameter per parameter it declares — the leading ones, possibly none;
/// any other expression is spliced in unmodified, in a scope where all
/// parameter bindings are visible.
pub open spec fn do_create_text(c: ContextSpecV, ps: Seq<ParamV>) -> Seq<char> {
    match c {
        ContextSpecV::Closure(src, arity) => "("@ + src + ")("@ + borrowed_args_text(
            ps.take(borrow_count(arity, ps.len())),
        ) + ")"@,
        ContextSpecV::Plain(src) => src,
    }
}

/// The full emitted function: the original header verbatim, then a body that
/// binds the message, defines the original body as a unit of work captured by
/// move, runs it, and attaches the message to its result.
pub open spec fn wrapped_fn_text(f: FnDefV, c: ContextSpecV) -> Seq<char> {
    f.sig + " { let message = "@ + do_create_text(c, f.params) + "; let mut inner = move || "@
        + f.body + "; let result = inner(); eyre::WrapErr::<_, _>::context(result, message) }"@
}

/// A sequence of parts joined with a comma and a space.
pub open spec fn join_comma(parts: Seq<Seq<char>>) -> Seq<char>
    decreases parts.len(),
{
    if parts.len() == 0 {
        Seq::empty()
    } else if parts.len() == 1 {
        parts[0]
    } else {
        join_comma(parts.drop_last()) + ", "@ + parts.last()
    }
}

/// A closure-form context is invoked with one argument per parameter the
/// closure declares — the function's leading parameters, in declaration
/// order, never more than the function has — and every argument is a
/// reference to the parameter's own name: the context borrows the parameters
/// and moves none of them, so the original body can still consume them
/// afterwards.
pub proof fn lemma_closure_context_borrows_params(c: Seq<char>, arity: nat, ps: Seq<ParamV>)
    ensures
        ({
            let prefix = ps.take(borrow_count(arity, ps.len()));
            do_create_text(ContextSpecV::Closure(c, arity), ps) == "("@ + c + ")("@ + join_comma(
                prefix.map_values(|p: ParamV| borrowed_arg_text(p)),
            ) + ")"@
        }),
        ps.take(borrow_count(arity, ps.len())).len() == borrow_count(arity, ps.len()),
        forall|i: int|
            0 <= i < borrow_count(arity, ps.len()) ==> ps.take(
                borrow_count(arity, ps.len()),
            ).map_values(|p: ParamV| borrowed_arg_text(p))[i] == "&"@ + arg_ref_text(ps[i]),
{
    lemma_borrowed_args_join(ps.take(borrow_count(arity, ps.len())));
}

proof fn lemma_borrowed_args_join(ps: Seq<ParamV>)
    ensures
        borrowed_args_text(ps) == join_comma(ps.map_values(|p: ParamV| borrowed_arg_text(p))),
    decreases ps.len(),
{
    let parts = ps.map_values(|p: ParamV| borrowed_arg_text(p));
    if ps.len() > 1 {
        lemma_borrowed_args_join(ps.drop_last());
        assert(ps.drop_last().map_values(|p: ParamV| borrowed_arg_text(p)) =~= parts.drop_last());
    }
}

/// A closure-form context that declares no parameters is invoked with an
/// empty argument list, whatever parameters the function itself has: it
/// ignores all of them.
pub proof fn lemma_zero_param_closure_invocation(c: Seq<char>, ps: Seq<ParamV>)
    ensures
        do_create_text(ContextSpecV::Closure(c, 0), ps) == "("@ + c + ")()"@,
{
    reveal_strlit(")(");
    reveal_strlit(")");
    reveal_strlit(")()");
    assert(ps.take(0) =~= Seq::<ParamV>::empty());
    assert(borrowed_args_text(Seq::<ParamV>::empty()) == Seq::<char>::empty());
    assert(")("@ + Seq::<char>::empty() + ")"@ =~= ")()"@);
    assert(do_create_text(ContextSpecV::Closure(c, 0), ps) =~= "("@ + c + ")()"@);
}

/// A plain-expression context is spliced into the emitted body unmodified: it
/// is evaluated in a scope where every parameter binding of the function is
/// still visible by name, so no reference-taking is added around it.
pub proof fn lemma_plain_context_spliced(src: Seq<char>, ps: Seq<ParamV>)
    ensures
        do_create_text(ContextSpecV::Plain(src), ps) == src,
{
}

/// The emitted function starts with the original header, verbatim.
pub proof fn lemma_signature_preserved(f: FnDefV, c: ContextSpecV)
    ensures
        wrapped_fn_text(f, c).take(f.sig.len() as int) == f.sig,
{
    assert(wrapped_fn_text(f, c).take(f.sig.len() as int) =~= f.sig);
}

/// The original body appears in the emitted function as one contiguous piece,
/// unchanged: it sits right after the unit-of-work binder, at an offset fixed
/// by the header and the context expression alone.
pub proof fn lemma_body_preserved(f: FnDefV, c: ContextSpecV)
    ensures
        ({
            let off = f.sig.len() + " { let message = "@.len() + do_create_text(
                c,
                f.params,
            ).len() + "; let mut inner = move || "@.len();
            wrapped_fn_text(f, c).subrange(off as int, off + f.body.len() as int)
        }) == f.body,
{
    let off = f.sig.len() + " { let message = "@.len() + do_create_text(c, f.params).len()
        + "; let mut inner = move || "@.len();
    assert(wrapped_fn_text(f, c).subrange(off as int, off + f.body.len() as int) =~= f.body);
}

fn arg_ref(p: &Param) -> (r: String)
    ensures
        r@ == arg_ref_text(p@),
{
    match p {
        Param::Receiver => String::from_str("self"),
        Param::Named(id) => id.clone(),
    }
}

fn borrowed_args(params: &Vec<Param>, count: usize) -> (r: String)
    requires
        count <= params.len(),
    ensures
        r@ == borrowed_args_text(params_v(params@).take(count as int)),
{
    let ghost psv = params_v(params@);
    let mut r = String::new();
    let mut i: usize = 0;
    while i < count
        invariant
            psv == params_v(params@),
            count <= params.len(),
            i <= count,
            r@ == borrowed_args_text(psv.take(i as int)),
        decreases count - i,
    {
        if i > 0 {
            r.append(", ");
        }
        r.append("&");
        let a = arg_ref(&params[i]);
        r.append(a.as_str());
        proof {
            let taken = psv.take(i + 1 as int);
            assert(taken.last() == psv[i as int]);
            assert(taken.drop_last() =~= psv.take(i as int));
            if i == 0 {
                assert(r@ =~= borrowed_arg_text(psv[0]));
            } else {
                assert(r@ =~= borrowed_args_text(psv.take(i as int)) + ", "@ + borrowed_arg_text(
                    psv[i as int],
                ));
            }
        }
        i = i + 1;
    }
    r
}

fn do_create(c: &ContextSpec, params: &Vec<Param>) -> (r: String)
    ensures
        r@ == do_create_text(c@, params_v(params@)),
{
    match c {
        ContextSpec::Closure(src, arity) => {
            let count = if *arity <= params.len() {
                *arity
            } else {
                params.len()
            };
            let mut r = String::from_str("(");
            r.append(src.as_str());
            r.append(")(");
            let args = borrowed_args(params, count);
            r.append(args.as_str());
            r.append(")");
            proof {
                assert(count as int == borrow_count(*arity as nat, params_v(params@).len()));
                assert(r@ =~= do_create_text(c@, params_v(params@)));
            }
            r
        },
        ContextSpec::Plain(src) => src.clone(),
    }
}

/// Rewrite one function: emit a function with the same header whose body
/// computes the context message first, then runs the original body unchanged,
/// and returns the body's result with the message attached on failure.
pub fn transform(c: &ContextSpec, f: &FnDef) -> (r: String)
    ensures
        r@ == wrapped_fn_text(f@, c@),
{
    let dc = do_create(c, &f.params);
    let mut out = f.sig.clone();
    out.append(" { let message = ");
    out.append(dc.as_str());
    out.append("; let mut inner = move || ");
    out.append(f.body.as_str());
    out.append("; let result = inner(); eyre::WrapErr::<_, _>::context(result, message) }");
    proof {
        assert(out@ =~= wrapped_fn_text(f@, c@));
    }
    out
}

} // verus!
