//! The run-time half of a trampoline, modelled over plain values: building
//! the safe argument list from the raw one, mapping a safe method's result
//! to a raw status code, and deciding when the delegation fallback runs.
//!
//! A raw argument is carried as the data it addresses: a data pointer as
//! the bytes of its region, a text pointer as its decoded text (the native
//! caller owes a valid, terminated string), a lone pointer as an optional
//! record, a primitive as its value.  The conversion scan pairs each raw
//! argument with the rule its parameter falls under, in the same order the
//! synthesizer fixed at build time.

use crate::error::{error_code_spec, Error, DECLINE_OS_CODE, DECLINE_SENTINEL};
use crate::shape::{
    is_c_char, is_len_type, params_view, ty_is_c_char, ty_is_len_type, RawParam, RawParamV,
    RawType, RawTypeV,
};
use crate::synth::{head_step, pair_head};
use crate::table::{nulled_spec, prepare_fallback, MountContext};
use std::io::Write;
use vstd::prelude::*;

verus! {

/// One raw argument, carried as the data it describes.
#[derive(Debug)]
pub enum RawVal {
    /// What a data pointer addresses; a following length argument bounds
    /// how much of it the call may touch.
    Region(Vec<u8>),
    /// What a text pointer addresses, already decoded.
    Text(String),
    /// A possibly-null pointer to one record, carried as the record's
    /// bytes.
    Ptr(Option<Vec<u8>>),
    /// A primitive value.
    Num(i128),
}

/// Mathematical mirror of [`RawVal`].
pub enum RawValV {
    Region(Seq<u8>),
    Text(Seq<char>),
    Ptr(Option<Seq<u8>>),
    Num(i128),
}

impl View for RawVal {
    type V = RawValV;

    open spec fn view(&self) -> RawValV {
        match self {
            RawVal::Region(b) => RawValV::Region(b@),
            RawVal::Text(s) => RawValV::Text(s@),
            RawVal::Ptr(Some(b)) => RawValV::Ptr(Some(b@)),
            RawVal::Ptr(None) => RawValV::Ptr(None),
            RawVal::Num(n) => RawValV::Num(*n),
        }
    }
}

/// The views of a raw argument list, in order.
pub open spec fn raw_vals_view(s: Seq<RawVal>) -> Seq<RawValV> {
    s.map_values(|v: RawVal| v@)
}

/// One safe argument, as a synthesized method receives it.
#[derive(Debug)]
pub enum SafeVal {
    /// The bounded view of a pointer+length pair: exactly the elements the
    /// length admits.
    Slice(Vec<u8>),
    /// The validated text view.
    Str(String),
    /// The optional reference: present iff the raw pointer was non-null.
    OptRef(Option<Vec<u8>>),
    /// A primitive handed through unchanged.
    Num(i128),
}

/// Mathematical mirror of [`SafeVal`].
pub enum SafeValV {
    Slice(Seq<u8>),
    Str(Seq<char>),
    OptRef(Option<Seq<u8>>),
    Num(i128),
}

impl View for SafeVal {
    type V = SafeValV;

    open spec fn view(&self) -> SafeValV {
        match self {
            SafeVal::Slice(b) => SafeValV::Slice(b@),
            SafeVal::Str(s) => SafeValV::Str(s@),
            SafeVal::OptRef(Some(b)) => SafeValV::OptRef(Some(b@)),
            SafeVal::OptRef(None) => SafeValV::OptRef(None),
            SafeVal::Num(n) => SafeValV::Num(*n),
        }
    }
}

/// The views of a safe argument list, in order.
pub open spec fn safe_vals_view(s: Seq<SafeVal>) -> Seq<SafeValV> {
    s.map_values(|v: SafeVal| v@)
}

/// The safe argument the first conversion of `ps` builds from the raw
/// arguments, or `None` when the raw values do not fit the parameter
/// shapes (a length exceeding its region included).
pub open spec fn head_val_spec(ps: Seq<RawParamV>, args: Seq<RawValV>) -> Option<SafeValV>
    recommends
        ps.len() > 0,
        args.len() == ps.len(),
{
    match ps[0].ty {
        RawTypeV::Ptr { mutable, elem } => {
            if ps.len() >= 2 && is_len_type(ps[1].ty) {
                match (args[0], args[1]) {
                    (RawValV::Region(r), RawValV::Num(n)) => if 0 <= n <= r.len() {
                        Some(SafeValV::Slice(r.take(n as int)))
                    } else {
                        None
                    },
                    _ => None,
                }
            } else if !mutable && is_c_char(*elem) {
                match args[0] {
                    RawValV::Text(s) => Some(SafeValV::Str(s)),
                    _ => None,
                }
            } else {
                match args[0] {
                    RawValV::Ptr(o) => Some(SafeValV::OptRef(o)),
                    _ => None,
                }
            }
        },
        RawTypeV::Named(_) => match args[0] {
            RawValV::Num(n) => Some(SafeValV::Num(n)),
            _ => None,
        },
    }
}

/// The whole safe argument list built from a raw argument list, or `None`
/// when any raw value does not fit its parameter shape.
pub open spec fn convert_vals_spec(ps: Seq<RawParamV>, args: Seq<RawValV>) -> Option<
    Seq<SafeValV>,
>
    decreases ps.len(),
{
    if args.len() != ps.len() {
        None
    } else if ps.len() == 0 {
        Some(Seq::empty())
    } else {
        match head_val_spec(ps, args) {
            Some(hv) => match convert_vals_spec(
                ps.skip(head_step(ps)),
                args.skip(head_step(ps)),
            ) {
                Some(rest) => Some(seq![hv] + rest),
                None => None,
            },
            None => None,
        }
    }
}

/// Copies the first `n` bytes of a region: the bounded view a
/// pointer+length pair collapses to.
fn take_bytes(v: &Vec<u8>, n: usize) -> (r: Vec<u8>)
    requires
        n <= v.len(),
    ensures
        r@ == v@.take(n as int),
{
    let mut r: Vec<u8> = Vec::new();
    let mut i: usize = 0;
    while i < n
        invariant
            i <= n,
            n <= v.len(),
            r@.len() == i as int,
            forall|j: int| 0 <= j < i as int ==> r@[j] == v@[j],
        decreases n - i,
    {
        r.push(v[i]);
        i = i + 1;
    }
    proof {
        assert(r@ =~= v@.take(n as int));
    }
    r
}

/// Builds the safe argument list for a raw parameter list from the raw
/// argument values, applying the conversion rules in scan order; returns
/// `None` exactly when the raw values do not fit the parameter shapes.
pub fn convert_args(params: &Vec<RawParam>, args: &Vec<RawVal>) -> (r: Option<Vec<SafeVal>>)
    ensures
        (r matches Some(vals) ==> convert_vals_spec(params_view(params@), raw_vals_view(args@))
            == Some(safe_vals_view(vals@))),
        r is None ==> convert_vals_spec(params_view(params@), raw_vals_view(args@)) is None,
{
    let ghost psv = params_view(params@);
    let ghost av = raw_vals_view(args@);
    if args.len() != params.len() {
        return None;
    }
    let mut out: Vec<SafeVal> = Vec::new();
    let mut i: usize = 0;
    proof {
        assert(psv.skip(0) =~= psv);
        assert(av.skip(0) =~= av);
    }
    while i < params.len()
        invariant
            i <= params.len(),
            psv == params_view(params@),
            av == raw_vals_view(args@),
            psv.len() == params@.len(),
            av.len() == args@.len(),
            args@.len() == params@.len(),
            convert_vals_spec(psv, av) == (match convert_vals_spec(
                psv.skip(i as int),
                av.skip(i as int),
            ) {
                Some(rest) => Some(safe_vals_view(out@) + rest),
                None => None::<Seq<SafeValV>>,
            }),
        decreases params.len() - i,
    {
        let ghost rp = psv.skip(i as int);
        let ghost ra = av.skip(i as int);
        let ghost out0 = out@;
        proof {
            assert(rp[0] == psv[i as int]);
            assert(ra[0] == av[i as int]);
            assert(psv[i as int] == params@[i as int]@);
            assert(av[i as int] == args@[i as int]@);
        }
        let p = &params[i];
        let step: usize;
        match &p.ty {
            RawType::Ptr { mutable, elem } => {
                let is_pair = i + 1 < params.len() && ty_is_len_type(
                    &params[i + 1].ty,
                );
                proof {
                    if i + 1 < params@.len() {
                        assert(rp[1] == psv[i + 1]);
                        assert(psv[i + 1] == params@[i + 1]@);
                        assert(ra[1] == av[i + 1]);
                        assert(av[i + 1] == args@[i + 1]@);
                    }
                    assert(pair_head(rp) == is_pair);
                }
                if is_pair {
                    match (&args[i], &args[i + 1]) {
                        (RawVal::Region(region), RawVal::Num(n)) => {
                            if 0 <= *n && *n <= region.len() as i128 {
                                out.push(SafeVal::Slice(take_bytes(region, *n as usize)));
                            } else {
                                proof {
                                    assert(head_val_spec(rp, ra) is None);
                                }
                                return None;
                            }
                        },
                        _ => {
                            proof {
                                assert(head_val_spec(rp, ra) is None);
                            }
                            return None;
                        },
                    }
                    step = 2;
                } else if !*mutable && ty_is_c_char(elem) {
                    match &args[i] {
                        RawVal::Text(s) => {
                            out.push(SafeVal::Str(s.clone()));
                        },
                        _ => {
                            proof {
                                assert(head_val_spec(rp, ra) is None);
                            }
                            return None;
                        },
                    }
                    step = 1;
                } else {
                    match &args[i] {
                        RawVal::Ptr(o) => {
                            let copied = match o {
                                Some(b) => Some(clone_bytes(b)),
                                None => None,
                            };
                            out.push(SafeVal::OptRef(copied));
                        },
                        _ => {
                            proof {
                                assert(head_val_spec(rp, ra) is None);
                            }
                            return None;
                        },
                    }
                    step = 1;
                }
            },
            RawType::Named(_) => {
                match &args[i] {
                    RawVal::Num(n) => {
                        out.push(SafeVal::Num(*n));
                    },
                    _ => {
                        proof {
                            assert(head_val_spec(rp, ra) is None);
                        }
                        return None;
                    },
                }
                step = 1;
            },
        }
        proof {
            assert(head_step(rp) == step as int);
            assert(rp.skip(step as int) =~= psv.skip(i + step as int));
            assert(ra.skip(step as int) =~= av.skip(i + step as int));
            assert(out@.len() == out0.len() + 1);
            assert(safe_vals_view(out@) =~= safe_vals_view(out0) + seq![
                head_val_spec(rp, ra)->0,
            ]);
            assert(convert_vals_spec(rp, ra) == (match convert_vals_spec(
                psv.skip(i + step as int),
                av.skip(i + step as int),
            ) {
                Some(rest) => Some(seq![head_val_spec(rp, ra)->0] + rest),
                None => None::<Seq<SafeValV>>,
            }));
            let step_rest = convert_vals_spec(psv.skip(i + step as int), av.skip(i + step as int));
            if step_rest is Some {
                let rest = step_rest->0;
                assert(safe_vals_view(out0) + (seq![head_val_spec(rp, ra)->0] + rest)
                    =~= safe_vals_view(out@) + rest);
            }
        }
        i = i + step;
    }
    proof {
        assert(psv.skip(psv.len() as int) =~= Seq::<RawParamV>::empty());
        assert(av.skip(av.len() as int) =~= Seq::<RawValV>::empty());
        assert(safe_vals_view(out@) + Seq::<SafeValV>::empty() =~= safe_vals_view(out@));
    }
    Some(out)
}

/// The observable content behind one safe argument: the element sequence a
/// bounded view exposes, the text a text view exposes, the record an
/// optional reference exposes, or a primitive's value.
pub enum Content {
    Bytes(Seq<u8>),
    TextChars(Seq<char>),
    MaybeBytes(Option<Seq<u8>>),
    Int(i128),
}

/// The content the raw arguments describe for the first conversion of
/// `ps`: for a pointer+length pair, exactly the first `length` elements of
/// the region; for a text pointer, its text; for a lone pointer, its
/// record if any; for a primitive, its value.  Raw values that do not fit
/// the shapes are mapped to an empty placeholder; conversion rejects them.
pub open spec fn head_content_spec(ps: Seq<RawParamV>, args: Seq<RawValV>) -> Content
    recommends
        ps.len() > 0,
        args.len() == ps.len(),
{
    match ps[0].ty {
        RawTypeV::Ptr { mutable, elem } => {
            if ps.len() >= 2 && is_len_type(ps[1].ty) {
                match (args[0], args[1]) {
                    (RawValV::Region(r), RawValV::Num(n)) => Content::Bytes(r.take(n as int)),
                    _ => Content::Bytes(Seq::empty()),
                }
            } else if !mutable && is_c_char(*elem) {
                match args[0] {
                    RawValV::Text(s) => Content::TextChars(s),
                    _ => Content::TextChars(Seq::empty()),
                }
            } else {
                match args[0] {
                    RawValV::Ptr(o) => Content::MaybeBytes(o),
                    _ => Content::MaybeBytes(None),
                }
            }
        },
        RawTypeV::Named(_) => match args[0] {
            RawValV::Num(n) => Content::Int(n),
            _ => Content::Int(0),
        },
    }
}

/// The contents the raw argument list describes, one per synthesized
/// parameter, in scan order.
pub open spec fn raw_described_spec(ps: Seq<RawParamV>, args: Seq<RawValV>) -> Seq<Content>
    decreases ps.len(),
{
    if ps.len() == 0 {
        Seq::empty()
    } else {
        seq![head_content_spec(ps, args)] + raw_described_spec(
            ps.skip(head_step(ps)),
            args.skip(head_step(ps)),
        )
    }
}

/// The contents read back through the safe argument list, one per safe
/// argument.
pub open spec fn safe_read_spec(vals: Seq<SafeValV>) -> Seq<Content> {
    vals.map_values(
        |v: SafeValV|
            match v {
                SafeValV::Slice(b) => Content::Bytes(b),
                SafeValV::Str(s) => Content::TextChars(s),
                SafeValV::OptRef(o) => Content::MaybeBytes(o),
                SafeValV::Num(n) => Content::Int(n),
            },
    )
}

/// Round trip: when conversion succeeds, reading back through the
/// synthesized safe arguments yields exactly the element sequences, text
/// and values the raw argument list described.
pub proof fn lemma_round_trip(ps: Seq<RawParamV>, args: Seq<RawValV>)
    requires
        convert_vals_spec(ps, args) is Some,
    ensures
        safe_read_spec(convert_vals_spec(ps, args)->0) == raw_described_spec(ps, args),
    decreases ps.len(),
{
    if ps.len() == 0 {
        assert(safe_read_spec(convert_vals_spec(ps, args)->0) =~= raw_described_spec(ps, args));
    } else {
        let step = head_step(ps);
        lemma_round_trip(ps.skip(step), args.skip(step));
        let hv = head_val_spec(ps, args)->0;
        let rest = convert_vals_spec(ps.skip(step), args.skip(step))->0;
        assert(convert_vals_spec(ps, args)->0 == seq![hv] + rest);
        assert(safe_read_spec(seq![hv] + rest) =~= seq![head_content_spec(ps, args)]
            + safe_read_spec(rest));
    }
}

/// The raw status code a safe method's outcome maps to: success carries
/// its status value through; a failure maps by its taxonomy.
pub open spec fn map_result_spec(r: Result<i32, Error>) -> int {
    match r {
        Ok(s) => s as int,
        Err(e) => error_code_spec(e),
    }
}

/// Relies on std::io::Stderr and writeln: emits a best-effort diagnostic on
/// the operator-visible error stream; the native caller has no other way to
/// learn about a failure that reaches it only as the internal sentinel.
#[verifier::external_body]
fn log_unrecognized(op: &String, detail: &String) {
    let _ = writeln!(std::io::stderr(), "unrecognized error in {}: {}", op, detail);
}

/// Maps a safe method's outcome to the raw status code the native caller
/// receives, emitting a diagnostic when a failure is about to be collapsed
/// into the internal sentinel.
pub fn map_result(op: &String, r: &Result<i32, Error>) -> (c: i32)
    ensures
        c as int == map_result_spec(*r),
{
    match r {
        Ok(s) => *s,
        Err(e) => {
            if e.is_internal() {
                log_unrecognized(op, &e.describe());
            }
            e.status_code()
        },
    }
}

/// The outcome every synthesized method reports until an implementation
/// overrides it: the decline error, whose mapped code is exactly the
/// decline sentinel, so an unimplemented operation routes to the native
/// default behavior.
pub fn default_method_result() -> (r: Result<i32, Error>)
    ensures
        r matches Err(e) && e == Error::IO(Some(DECLINE_OS_CODE)),
        map_result_spec(r) == DECLINE_SENTINEL as int,
{
    Err(Error::IO(Some(DECLINE_OS_CODE)))
}

/// What a trampoline does after the safe method returned: either hand a
/// well-formed status code straight back to the native caller, or
/// delegate the declined operation through a transient context whose
/// table has exactly this operation unset, replaying the original raw
/// arguments.  The native library's own result for a delegated call is
/// returned to the caller as is.
#[derive(Debug)]
pub enum TrampolineOutcome {
    Done(i32),
    Delegate { transient: MountContext, raw_args: Vec<RawVal> },
}

/// Decides a trampoline's ending for one call: maps the safe method's
/// outcome and, exactly when the mapped code is the decline sentinel,
/// builds the transient fallback context instead of returning the code.
/// Every path ends in a well-formed outcome; nothing abnormal can cross
/// the native boundary.
pub fn trampoline_step(
    ctx: &MountContext,
    op: &String,
    method_result: &Result<i32, Error>,
    raw_args: Vec<RawVal>,
) -> (o: TrampolineOutcome)
    ensures
        map_result_spec(*method_result) != DECLINE_SENTINEL as int ==> (o matches
            TrampolineOutcome::Done(c) && c as int == map_result_spec(*method_result)),
        map_result_spec(*method_result) == DECLINE_SENTINEL as int ==> (o matches
            TrampolineOutcome::Delegate { transient, raw_args: ra }
            && transient.fs_instance == ctx.fs_instance
            && transient@.table.entries == nulled_spec(ctx@.table.entries, op@)
            && ra == raw_args),
{
    let code = map_result(op, method_result);
    if code == DECLINE_SENTINEL {
        TrampolineOutcome::Delegate { transient: prepare_fallback(ctx, op), raw_args }
    } else {
        TrampolineOutcome::Done(code)
    }
}

/// Copies a byte vector.
pub fn clone_bytes(v: &Vec<u8>) -> (r: Vec<u8>)
    ensures
        r@ == v@,
{
    let mut r: Vec<u8> = Vec::new();
    let mut i: usize = 0;
    while i < v.len()
        invariant
            i <= v.len(),
            r@.len() == i as int,
            forall|j: int| 0 <= j < i as int ==> r@[j] == v@[j],
        decreases v.len() - i,
    {
        r.push(v[i]);
        i = i + 1;
    }
    proof {
        assert(r@ =~= v@);
    }
    r
}

} // verus!
