//! The safe signature synthesizer: turns an accepted descriptor's raw
//! parameter list into the safe method signature, the per-parameter
//! conversions a trampoline must apply, and the verbatim raw argument list
//! the delegation fallback replays.
//!
//! The scan is order-sensitive: a pointer immediately followed by a length
//! parameter collapses into one bounded view before the lone-pointer rules
//! may apply; a lone read-only pointer to the platform character type
//! becomes a validated text view; any other lone pointer becomes an optional
//! reference; everything else passes through unchanged.

use crate::shape::{
    is_c_char, is_len_type, names_view, params_view, ty_is_c_char, ty_is_len_type, Descriptor,
    DescriptorV, Prim, RawParam, RawParamV, RawType, RawTypeV, TypeName, TypeNameV,
};
use vstd::prelude::*;

verus! {

/// A safe parameter type, as the synthesized methods take it.
#[derive(Debug)]
#[allow(inconsistent_fields)]
pub enum SafeType {
    /// A plain reference, produced by unwrapping pointer nesting inside a
    /// bounded view's element type.
    Ref { mutable: bool, elem: Box<SafeType> },
    /// A bounded sequence view collapsed from a pointer+length pair.
    Slice { mutable: bool, elem: Box<SafeType> },
    /// A validated text view from a read-only platform-character pointer.
    Str,
    /// An optional reference from a lone pointer; present iff the raw
    /// pointer was non-null, valid only for the single call's duration.
    OptRef { mutable: bool, elem: RawType },
    /// A named type passed through unchanged.
    Named(TypeName),
}

/// Mathematical mirror of [`SafeType`].
#[allow(inconsistent_fields)]
pub enum SafeTypeV {
    Ref { mutable: bool, elem: Box<SafeTypeV> },
    Slice { mutable: bool, elem: Box<SafeTypeV> },
    Str,
    OptRef { mutable: bool, elem: RawTypeV },
    Named(TypeNameV),
}

/// The view of a safe type.
pub open spec fn safe_type_view(t: SafeType) -> SafeTypeV
    decreases t,
{
    match t {
        SafeType::Ref { mutable, elem } => SafeTypeV::Ref {
            mutable,
            elem: Box::new(safe_type_view(*elem)),
        },
        SafeType::Slice { mutable, elem } => SafeTypeV::Slice {
            mutable,
            elem: Box::new(safe_type_view(*elem)),
        },
        SafeType::Str => SafeTypeV::Str,
        SafeType::OptRef { mutable, elem } => SafeTypeV::OptRef { mutable, elem: elem@ },
        SafeType::Named(n) => SafeTypeV::Named(n@),
    }
}

impl View for SafeType {
    type V = SafeTypeV;

    open spec fn view(&self) -> SafeTypeV {
        safe_type_view(*self)
    }
}

/// One parameter of a synthesized safe method.
#[derive(Debug)]
pub struct SafeParam {
    pub name: String,
    pub ty: SafeType,
}

/// Mathematical mirror of [`SafeParam`].
#[verifier::ext_equal]
pub struct SafeParamV {
    pub name: Seq<char>,
    pub ty: SafeTypeV,
}

impl View for SafeParam {
    type V = SafeParamV;

    open spec fn view(&self) -> SafeParamV {
        SafeParamV { name: self.name@, ty: self.ty@ }
    }
}

/// The views of a safe parameter list, in order.
pub open spec fn safe_params_view(s: Seq<SafeParam>) -> Seq<SafeParamV> {
    s.map_values(|p: SafeParam| p@)
}

/// How a trampoline produces one safe argument from the raw argument list;
/// one entry per synthesized parameter, in order.
#[derive(Clone, Copy, Debug, PartialEq, Eq, Structural)]
pub enum Conversion {
    /// Two raw slots (pointer, length) become one bounded view.
    PairToView { mutable: bool },
    /// A read-only platform-character pointer becomes a text view; the
    /// native caller owes a null-terminated, validly encoded string.
    TextToView,
    /// A lone pointer becomes an optional reference, present iff non-null.
    PtrToOption { mutable: bool },
    /// A primitive is handed through unchanged.
    PassThrough,
}

/// The element type a raw type contributes to a safe signature: pointers
/// unwrap to references and the platform character type reads as a byte.
pub open spec fn sub_type_spec(t: RawTypeV) -> SafeTypeV
    decreases t,
{
    match t {
        RawTypeV::Ptr { mutable, elem } => SafeTypeV::Ref {
            mutable,
            elem: Box::new(sub_type_spec(*elem)),
        },
        RawTypeV::Named(TypeNameV::CChar) => SafeTypeV::Named(TypeNameV::Prim(Prim::U8)),
        RawTypeV::Named(n) => SafeTypeV::Named(n),
    }
}

/// Computes [`sub_type_spec`] on a raw type.
pub fn sub_type(t: &RawType) -> (r: SafeType)
    ensures
        r@ == sub_type_spec(t@),
    decreases *t,
{
    match t {
        RawType::Ptr { mutable, elem } => SafeType::Ref {
            mutable: *mutable,
            elem: Box::new(sub_type(elem)),
        },
        RawType::Named(TypeName::CChar) => SafeType::Named(TypeName::Prim(Prim::U8)),
        RawType::Named(n) => SafeType::Named(n.clone()),
    }
}

/// True when the scan stands on a pointer immediately followed by a length
/// parameter: the pair rule, which must fire before any lone-pointer rule.
pub open spec fn pair_head(ps: Seq<RawParamV>) -> bool {
    ps.len() >= 2 && ps[0].ty is Ptr && is_len_type(ps[1].ty)
}

/// How many raw slots the first conversion of `ps` consumes.
pub open spec fn head_step(ps: Seq<RawParamV>) -> int {
    if pair_head(ps) {
        2
    } else {
        1
    }
}

/// The safe type the first conversion of `ps` produces.
pub open spec fn head_safe_ty(ps: Seq<RawParamV>) -> SafeTypeV
    recommends
        ps.len() > 0,
{
    match ps[0].ty {
        RawTypeV::Ptr { mutable, elem } => {
            if ps.len() >= 2 && is_len_type(ps[1].ty) {
                SafeTypeV::Slice { mutable, elem: Box::new(sub_type_spec(*elem)) }
            } else if !mutable && is_c_char(*elem) {
                SafeTypeV::Str
            } else {
                SafeTypeV::OptRef { mutable, elem: *elem }
            }
        },
        RawTypeV::Named(n) => SafeTypeV::Named(n),
    }
}

/// The conversion rule the first parameter of `ps` falls under.
pub open spec fn head_conversion(ps: Seq<RawParamV>) -> Conversion
    recommends
        ps.len() > 0,
{
    match ps[0].ty {
        RawTypeV::Ptr { mutable, elem } => {
            if ps.len() >= 2 && is_len_type(ps[1].ty) {
                Conversion::PairToView { mutable }
            } else if !mutable && is_c_char(*elem) {
                Conversion::TextToView
            } else {
                Conversion::PtrToOption { mutable }
            }
        },
        RawTypeV::Named(_) => Conversion::PassThrough,
    }
}

/// The safe parameter list synthesized from a raw parameter list.
pub open spec fn synth_params_spec(ps: Seq<RawParamV>) -> Seq<SafeParamV>
    decreases ps.len(),
{
    if ps.len() == 0 {
        Seq::empty()
    } else {
        seq![SafeParamV { name: ps[0].name, ty: head_safe_ty(ps) }] + synth_params_spec(
            ps.skip(head_step(ps)),
        )
    }
}

/// The conversion rules applied across a raw parameter list, one per
/// synthesized parameter.
pub open spec fn conversions_spec(ps: Seq<RawParamV>) -> Seq<Conversion>
    decreases ps.len(),
{
    if ps.len() == 0 {
        Seq::empty()
    } else {
        seq![head_conversion(ps)] + conversions_spec(ps.skip(head_step(ps)))
    }
}

/// How many pointer+length pairs the scan collapses.
pub open spec fn pair_count(ps: Seq<RawParamV>) -> nat
    decreases ps.len(),
{
    if ps.len() == 0 {
        0
    } else if pair_head(ps) {
        1 + pair_count(ps.skip(2))
    } else {
        pair_count(ps.skip(1))
    }
}

/// The names of a raw parameter list, in order.
pub open spec fn param_names(ps: Seq<RawParamV>) -> Seq<Seq<char>> {
    ps.map_values(|p: RawParamV| p.name)
}

/// The non-primitive type names the first conversion of `ps` asks the
/// generated interface to re-export: the target of a lone pointer and any
/// named type passed through, primitives excluded.
pub open spec fn head_reexports(ps: Seq<RawParamV>) -> Seq<TypeNameV>
    recommends
        ps.len() > 0,
{
    match ps[0].ty {
        RawTypeV::Ptr { mutable, elem } => {
            if ps.len() >= 2 && is_len_type(ps[1].ty) {
                Seq::empty()
            } else if !mutable && is_c_char(*elem) {
                Seq::empty()
            } else {
                match *elem {
                    RawTypeV::Named(n) => if n is Prim {
                        Seq::empty()
                    } else {
                        seq![n]
                    },
                    _ => Seq::empty(),
                }
            }
        },
        RawTypeV::Named(n) => if n is Prim {
            Seq::empty()
        } else {
            seq![n]
        },
    }
}

/// The type names a raw parameter list asks to have re-exported, in scan
/// order, duplicates kept.
pub open spec fn reexports_spec(ps: Seq<RawParamV>) -> Seq<TypeNameV>
    decreases ps.len(),
{
    if ps.len() == 0 {
        Seq::empty()
    } else {
        head_reexports(ps) + reexports_spec(ps.skip(head_step(ps)))
    }
}

/// The views of a type name list, in order.
pub open spec fn type_names_view(s: Seq<TypeName>) -> Seq<TypeNameV> {
    s.map_values(|t: TypeName| t@)
}

/// Each collapsed pair shortens the signature by exactly one parameter:
/// the synthesized parameter count plus the pair count is the raw count.
pub proof fn lemma_synth_len(ps: Seq<RawParamV>)
    ensures
        synth_params_spec(ps).len() + pair_count(ps) == ps.len(),
    decreases ps.len(),
{
    if ps.len() == 0 {
    } else {
        lemma_synth_len(ps.skip(head_step(ps)));
    }
}

/// Every synthesized parameter carries exactly one conversion rule: the
/// two sequences the scan produces have the same length.
pub proof fn lemma_conversions_align(ps: Seq<RawParamV>)
    ensures
        conversions_spec(ps).len() == synth_params_spec(ps).len(),
    decreases ps.len(),
{
    if ps.len() > 0 {
        lemma_conversions_align(ps.skip(head_step(ps)));
    }
}

/// A raw signature holding exactly one adjacent pointer+length pair
/// synthesizes to exactly one fewer parameter than it has raw slots.
pub proof fn lemma_one_pair_collapses_one(ps: Seq<RawParamV>)
    requires
        pair_count(ps) == 1,
    ensures
        synth_params_spec(ps).len() == ps.len() - 1,
{
    lemma_synth_len(ps);
}

/// The two access flavors an interface is synthesized under: `Exclusive`
/// methods take exclusive access to the filesystem instance (native
/// dispatch is confined to a single thread); `Shared` methods take shared
/// access and the implementing type must tolerate concurrent invocation.
#[derive(Clone, Copy, Debug, PartialEq, Eq, Structural)]
pub enum AccessFlavor {
    Exclusive,
    Shared,
}

/// One synthesized safe method: the operation's name, the access the method
/// takes to the filesystem instance, and the safe parameters.  Every such
/// method returns either a success status value or a failure condition.
#[derive(Debug)]
pub struct MethodSig {
    pub name: String,
    pub flavor: AccessFlavor,
    pub params: Vec<SafeParam>,
}

/// Mathematical mirror of [`MethodSig`].
#[verifier::ext_equal]
pub struct MethodSigV {
    pub name: Seq<char>,
    pub flavor: AccessFlavor,
    pub params: Seq<SafeParamV>,
}

impl View for MethodSig {
    type V = MethodSigV;

    open spec fn view(&self) -> MethodSigV {
        MethodSigV { name: self.name@, flavor: self.flavor, params: safe_params_view(self.params@) }
    }
}

/// The views of a method signature list, in order.
pub open spec fn method_sigs_view(s: Seq<MethodSig>) -> Seq<MethodSigV> {
    s.map_values(|m: MethodSig| m@)
}

/// The safe method a descriptor synthesizes to under one access flavor.
pub open spec fn method_sig_spec(d: DescriptorV, flavor: AccessFlavor) -> MethodSigV {
    MethodSigV { name: d.name, flavor, params: synth_params_spec(d.params) }
}

/// The two flavors of one descriptor differ only in the access mode the
/// method takes to the filesystem instance: name and parameters are the
/// same.
pub proof fn lemma_flavors_differ_only_in_access(d: DescriptorV)
    ensures
        method_sig_spec(d, AccessFlavor::Exclusive).name == method_sig_spec(
            d,
            AccessFlavor::Shared,
        ).name,
        method_sig_spec(d, AccessFlavor::Exclusive).params == method_sig_spec(
            d,
            AccessFlavor::Shared,
        ).params,
        method_sig_spec(d, AccessFlavor::Exclusive).flavor == AccessFlavor::Exclusive,
        method_sig_spec(d, AccessFlavor::Shared).flavor == AccessFlavor::Shared,
{
}

/// The build-time plan of one operation's trampolines: the conversions the
/// bridge applies, one per safe parameter, and the verbatim raw argument
/// names the delegation fallback replays.  Both access flavors share one
/// plan; their bridges differ only in how the filesystem instance is
/// accessed.
#[derive(Debug)]
pub struct TrampolinePlan {
    pub op: String,
    pub conversions: Vec<Conversion>,
    pub raw_arg_names: Vec<String>,
}

/// Mathematical mirror of [`TrampolinePlan`].
#[verifier::ext_equal]
pub struct TrampolinePlanV {
    pub op: Seq<char>,
    pub conversions: Seq<Conversion>,
    pub raw_arg_names: Seq<Seq<char>>,
}

impl View for TrampolinePlan {
    type V = TrampolinePlanV;

    open spec fn view(&self) -> TrampolinePlanV {
        TrampolinePlanV {
            op: self.op@,
            conversions: self.conversions@,
            raw_arg_names: names_view(self.raw_arg_names@),
        }
    }
}

/// The views of a trampoline plan list, in order.
pub open spec fn plans_view(s: Seq<TrampolinePlan>) -> Seq<TrampolinePlanV> {
    s.map_values(|p: TrampolinePlan| p@)
}

/// The trampoline plan a descriptor fixes at build time.
pub open spec fn plan_spec(d: DescriptorV) -> TrampolinePlanV {
    TrampolinePlanV {
        op: d.name,
        conversions: conversions_spec(d.params),
        raw_arg_names: param_names(d.params),
    }
}

/// Everything the synthesizer retains for one descriptor: the safe
/// parameter list, the conversion each safe parameter came from, the
/// verbatim raw argument names the fallback replays, and the type names the
/// interface must re-export.
#[derive(Debug)]
pub struct SynthesizedParams {
    pub safe_params: Vec<SafeParam>,
    pub conversions: Vec<Conversion>,
    pub raw_arg_names: Vec<String>,
    pub reexports: Vec<TypeName>,
}

/// Scans a raw parameter list and synthesizes the safe parameter list,
/// detecting pointer+length pairs before the lone-pointer rules apply and
/// retaining the raw argument names unconverted and in order.
pub fn synthesize(params: &Vec<RawParam>) -> (r: SynthesizedParams)
    ensures
        safe_params_view(r.safe_params@) == synth_params_spec(params_view(params@)),
        r.conversions@ == conversions_spec(params_view(params@)),
        names_view(r.raw_arg_names@) == param_names(params_view(params@)),
        type_names_view(r.reexports@) == reexports_spec(params_view(params@)),
{
    let ghost psv = params_view(params@);
    let mut sp: Vec<SafeParam> = Vec::new();
    let mut convs: Vec<Conversion> = Vec::new();
    let mut names: Vec<String> = Vec::new();
    let mut rex: Vec<TypeName> = Vec::new();
    let mut i: usize = 0;
    proof {
        assert(psv.skip(0) =~= psv);
        assert(safe_params_view(sp@) + synth_params_spec(psv) =~= synth_params_spec(psv));
        assert(convs@ + conversions_spec(psv) =~= conversions_spec(psv));
        assert(type_names_view(rex@) + reexports_spec(psv) =~= reexports_spec(psv));
        assert(names_view(names@) =~= param_names(psv).take(0));
    }
    while i < params.len()
        invariant
            i <= params.len(),
            psv == params_view(params@),
            psv.len() == params@.len(),
            synth_params_spec(psv) == safe_params_view(sp@) + synth_params_spec(
                psv.skip(i as int),
            ),
            conversions_spec(psv) == convs@ + conversions_spec(psv.skip(i as int)),
            reexports_spec(psv) == type_names_view(rex@) + reexports_spec(psv.skip(i as int)),
            names_view(names@) == param_names(psv).take(i as int),
        decreases params.len() - i,
    {
        let ghost rest = psv.skip(i as int);
        let ghost sp0 = sp@;
        let ghost convs0 = convs@;
        let ghost rex0 = rex@;
        let ghost names0 = names@;
        proof {
            assert(rest[0] == psv[i as int]);
            assert(psv[i as int] == params@[i as int]@);
        }
        let p = &params[i];
        let step: usize;
        match &p.ty {
            RawType::Ptr { mutable, elem } => {
                let is_pair = i + 1 < params.len() && ty_is_len_type(&params[i + 1].ty);
                proof {
                    if i + 1 < params@.len() {
                        assert(rest[1] == psv[i + 1]);
                        assert(psv[i + 1] == params@[i + 1]@);
                    }
                    assert(pair_head(rest) == is_pair);
                }
                if is_pair {
                    let st = SafeType::Slice { mutable: *mutable, elem: Box::new(sub_type(elem)) };
                    sp.push(SafeParam { name: p.name.clone(), ty: st });
                    convs.push(Conversion::PairToView { mutable: *mutable });
                    names.push(p.name.clone());
                    names.push(params[i + 1].name.clone());
                    step = 2;
                } else if !*mutable && ty_is_c_char(elem) {
                    sp.push(SafeParam { name: p.name.clone(), ty: SafeType::Str });
                    convs.push(Conversion::TextToView);
                    names.push(p.name.clone());
                    step = 1;
                } else {
                    if let RawType::Named(en) = &**elem {
                        if !matches!(en, TypeName::Prim(_)) {
                            rex.push(en.clone());
                        }
                    }
                    let st = SafeType::OptRef { mutable: *mutable, elem: (**elem).clone() };
                    sp.push(SafeParam { name: p.name.clone(), ty: st });
                    convs.push(Conversion::PtrToOption { mutable: *mutable });
                    names.push(p.name.clone());
                    step = 1;
                }
            },
            RawType::Named(n) => {
                sp.push(SafeParam { name: p.name.clone(), ty: SafeType::Named(n.clone()) });
                convs.push(Conversion::PassThrough);
                names.push(p.name.clone());
                if !matches!(n, TypeName::Prim(_)) {
                    rex.push(n.clone());
                }
                step = 1;
            },
        }
        proof {
            assert(head_step(rest) == step as int);
            assert(rest.skip(step as int) =~= psv.skip(i + step as int));
            assert(safe_params_view(sp@) =~= safe_params_view(sp0) + seq![
                SafeParamV { name: rest[0].name, ty: head_safe_ty(rest) },
            ]);
            assert(safe_params_view(sp@) + synth_params_spec(psv.skip(i + step as int))
                =~= safe_params_view(sp0) + synth_params_spec(rest));
            assert(convs@ =~= convs0 + seq![head_conversion(rest)]);
            assert(convs@ + conversions_spec(psv.skip(i + step as int)) =~= convs0
                + conversions_spec(rest));
            assert(type_names_view(rex@) =~= type_names_view(rex0) + head_reexports(rest));
            assert(type_names_view(rex@) + reexports_spec(psv.skip(i + step as int))
                =~= type_names_view(rex0) + reexports_spec(rest));
            assert(names_view(names0).len() == names0.len());
            assert(param_names(psv).len() == psv.len());
            assert(param_names(psv).take(i as int).len() == i as int);
            assert(names0.len() == i as int);
            assert(names@.len() == i + step as int);
            assert forall|j: int| 0 <= j < i + step as int implies names_view(names@)[j]
                == param_names(psv)[j] by {
                if j < i as int {
                    assert(names_view(names0)[j] == param_names(psv).take(i as int)[j]);
                    assert(names@[j] == names0[j]);
                } else {
                    assert(names@[j]@ == psv[j].name);
                }
            }
            assert(names_view(names@) =~= param_names(psv).take(i + step as int));
        }
        i = i + step;
    }
    proof {
        assert(psv.skip(psv.len() as int) =~= Seq::<RawParamV>::empty());
        assert(safe_params_view(sp@) + synth_params_spec(psv.skip(psv.len() as int))
            =~= safe_params_view(sp@));
        assert(convs@ + conversions_spec(psv.skip(psv.len() as int)) =~= convs@);
        assert(type_names_view(rex@) + reexports_spec(psv.skip(psv.len() as int))
            =~= type_names_view(rex@));
        assert(param_names(psv).take(psv.len() as int) =~= param_names(psv));
    }
    SynthesizedParams { safe_params: sp, conversions: convs, raw_arg_names: names, reexports: rex }
}

/// Builds the safe method signature of a descriptor under one access
/// flavor.
pub fn build_method_sig(d: &Descriptor, flavor: AccessFlavor) -> (r: MethodSig)
    ensures
        r@ == method_sig_spec(d@, flavor),
{
    let sp = synthesize(&d.params);
    let r = MethodSig { name: d.name.clone(), flavor, params: sp.safe_params };
    proof {
        assert(r@ =~= method_sig_spec(d@, flavor));
    }
    r
}

} // verus!
