//! The generation pass over a whole operation table: analysis, signature
//! synthesis under both access flavors, and the deduplicated list of type
//! names the generated interface re-exports.
//!
//! This is the build-time entry point: one call turns the native table's
//! field list and the blacklist into everything the generated interface is
//! made of.  Selection between the two flavors happens once, statically, at
//! assembly time; nothing here branches on flavor at run time.

use crate::analyzer::{analyze, analyze_spec};
use crate::shape::{
    descriptors_view, fields_view, names_view, type_name_eq, Descriptor, DescriptorV, Field,
    TypeName, TypeNameV,
};
use crate::synth::{
    build_method_sig, method_sig_spec, method_sigs_view, plan_spec, plans_view, reexports_spec,
    synthesize, type_names_view, AccessFlavor, MethodSig, MethodSigV, TrampolinePlan,
};
use vstd::prelude::*;

verus! {

/// True iff the name list holds this type name.
pub open spec fn contains_name(s: Seq<TypeNameV>, n: TypeNameV) -> bool {
    exists|i: int| 0 <= i < s.len() && s[i] == n
}

/// The name list with later duplicates removed: each name keeps its first
/// occurrence only.
pub open spec fn dedup_spec(s: Seq<TypeNameV>) -> Seq<TypeNameV>
    decreases s.len(),
{
    if s.len() == 0 {
        Seq::empty()
    } else {
        let init = dedup_spec(s.drop_last());
        if contains_name(init, s.last()) {
            init
        } else {
            init.push(s.last())
        }
    }
}

/// The re-export requests of a descriptor list, concatenated in order.
pub open spec fn all_reexports_spec(ds: Seq<DescriptorV>) -> Seq<TypeNameV>
    decreases ds.len(),
{
    if ds.len() == 0 {
        Seq::empty()
    } else {
        all_reexports_spec(ds.drop_last()) + reexports_spec(ds.last().params)
    }
}

/// The method signatures of a descriptor list under one access flavor.
pub open spec fn sigs_spec(ds: Seq<DescriptorV>, flavor: AccessFlavor) -> Seq<MethodSigV> {
    ds.map_values(|d: DescriptorV| method_sig_spec(d, flavor))
}

/// Decides [`contains_name`] over a type name list.
fn contains_type_name(v: &Vec<TypeName>, n: &TypeName) -> (r: bool)
    ensures
        r == contains_name(type_names_view(v@), n@),
{
    let mut i: usize = 0;
    while i < v.len()
        invariant
            i <= v.len(),
            forall|j: int| 0 <= j < i as int ==> #[trigger] v@[j]@ != n@,
        decreases v.len() - i,
    {
        if type_name_eq(&v[i], n) {
            proof {
                assert(type_names_view(v@)[i as int] == n@);
            }
            return true;
        }
        i = i + 1;
    }
    proof {
        assert forall|j: int| 0 <= j < type_names_view(v@).len() implies type_names_view(v@)[j]
            != n@ by {
            assert(v@[j]@ != n@);
        }
    }
    false
}

/// The complete output of one generation pass: the accepted descriptors,
/// the synthesized method set under each access flavor, one trampoline
/// plan per descriptor, and the type names the interface re-exports, first
/// occurrence first, without duplicates.
#[derive(Debug)]
pub struct GeneratedInterface {
    pub descriptors: Vec<Descriptor>,
    pub exclusive_methods: Vec<MethodSig>,
    pub shared_methods: Vec<MethodSig>,
    pub trampolines: Vec<TrampolinePlan>,
    pub reexports: Vec<TypeName>,
}

/// Runs the whole generation pass over an operation table's field list
/// under a blacklist.
///
/// The descriptors are exactly the analyzer's; each descriptor yields one
/// exclusive-flavor and one shared-flavor method signature, in descriptor
/// order; the re-export list is the descriptors' re-export requests in scan
/// order with duplicates dropped.
pub fn fuse_operations(fields: &Vec<Field>, blacklist: &Vec<String>) -> (r: GeneratedInterface)
    ensures
        descriptors_view(r.descriptors@) == analyze_spec(
            fields_view(fields@),
            names_view(blacklist@),
        ),
        method_sigs_view(r.exclusive_methods@) == sigs_spec(
            descriptors_view(r.descriptors@),
            AccessFlavor::Exclusive,
        ),
        method_sigs_view(r.shared_methods@) == sigs_spec(
            descriptors_view(r.descriptors@),
            AccessFlavor::Shared,
        ),
        plans_view(r.trampolines@) == descriptors_view(r.descriptors@).map_values(
            |d: DescriptorV| plan_spec(d),
        ),
        type_names_view(r.reexports@) == dedup_spec(
            all_reexports_spec(descriptors_view(r.descriptors@)),
        ),
{
    let descriptors = analyze(fields, blacklist);
    let ghost dsv = descriptors_view(descriptors@);
    let mut exclusive_methods: Vec<MethodSig> = Vec::new();
    let mut shared_methods: Vec<MethodSig> = Vec::new();
    let mut trampolines: Vec<TrampolinePlan> = Vec::new();
    let mut reexports: Vec<TypeName> = Vec::new();
    let mut j: usize = 0;
    proof {
        assert(dsv.take(0) =~= Seq::<DescriptorV>::empty());
    }
    while j < descriptors.len()
        invariant
            j <= descriptors.len(),
            dsv == descriptors_view(descriptors@),
            dsv.len() == descriptors@.len(),
            exclusive_methods@.len() == j as int,
            shared_methods@.len() == j as int,
            forall|t: int| 0 <= t < j as int ==> #[trigger] exclusive_methods@[t]@
                == method_sig_spec(dsv[t], AccessFlavor::Exclusive),
            forall|t: int| 0 <= t < j as int ==> #[trigger] shared_methods@[t]@
                == method_sig_spec(dsv[t], AccessFlavor::Shared),
            trampolines@.len() == j as int,
            forall|t: int| 0 <= t < j as int ==> #[trigger] trampolines@[t]@ == plan_spec(dsv[t]),
            type_names_view(reexports@) == dedup_spec(all_reexports_spec(dsv.take(j as int))),
        decreases descriptors.len() - j,
    {
        let d = &descriptors[j];
        proof {
            assert(dsv[j as int] == d@);
        }
        exclusive_methods.push(build_method_sig(d, AccessFlavor::Exclusive));
        shared_methods.push(build_method_sig(d, AccessFlavor::Shared));
        let sp = synthesize(&d.params);
        let ghost base = all_reexports_spec(dsv.take(j as int));
        let ghost rseq = type_names_view(sp.reexports@);
        proof {
            assert(rseq == reexports_spec(dsv[j as int].params));
        }
        let mut k: usize = 0;
        proof {
            assert(base + rseq.take(0) =~= base);
        }
        while k < sp.reexports.len()
            invariant
                k <= sp.reexports.len(),
                rseq == type_names_view(sp.reexports@),
                rseq.len() == sp.reexports@.len(),
                type_names_view(reexports@) == dedup_spec(base + rseq.take(k as int)),
            decreases sp.reexports.len() - k,
        {
            let ghost cur = base + rseq.take(k as int);
            proof {
                assert(rseq[k as int] == sp.reexports@[k as int]@);
                assert((base + rseq.take(k + 1 as int)).drop_last() =~= cur);
                assert((base + rseq.take(k + 1 as int)).last() == rseq[k as int]);
            }
            if !contains_type_name(&reexports, &sp.reexports[k]) {
                reexports.push(sp.reexports[k].clone());
                proof {
                    assert(type_names_view(reexports@) =~= dedup_spec(cur).push(rseq[k as int]));
                }
            }
            k = k + 1;
        }
        let plan = TrampolinePlan {
            op: d.name.clone(),
            conversions: sp.conversions,
            raw_arg_names: sp.raw_arg_names,
        };
        proof {
            assert(plan@ =~= plan_spec(dsv[j as int]));
        }
        trampolines.push(plan);
        proof {
            assert(rseq.take(rseq.len() as int) =~= rseq);
            assert(dsv.take(j + 1 as int).drop_last() =~= dsv.take(j as int));
            assert(dsv.take(j + 1 as int).last() == dsv[j as int]);
            assert(all_reexports_spec(dsv.take(j + 1 as int)) == base + rseq);
        }
        j = j + 1;
    }
    proof {
        assert(dsv.take(dsv.len() as int) =~= dsv);
        assert forall|t: int| 0 <= t < dsv.len() implies method_sigs_view(exclusive_methods@)[t]
            == sigs_spec(dsv, AccessFlavor::Exclusive)[t] by {
            assert(exclusive_methods@[t]@ == method_sig_spec(dsv[t], AccessFlavor::Exclusive));
        }
        assert(method_sigs_view(exclusive_methods@) =~= sigs_spec(dsv, AccessFlavor::Exclusive));
        assert forall|t: int| 0 <= t < dsv.len() implies method_sigs_view(shared_methods@)[t]
            == sigs_spec(dsv, AccessFlavor::Shared)[t] by {
            assert(shared_methods@[t]@ == method_sig_spec(dsv[t], AccessFlavor::Shared));
        }
        assert(method_sigs_view(shared_methods@) =~= sigs_spec(dsv, AccessFlavor::Shared));
        assert forall|t: int| 0 <= t < dsv.len() implies plans_view(trampolines@)[t]
            == dsv.map_values(|d: DescriptorV| plan_spec(d))[t] by {
            assert(trampolines@[t]@ == plan_spec(dsv[t]));
        }
        assert(plans_view(trampolines@) =~= dsv.map_values(|d: DescriptorV| plan_spec(d)));
    }
    GeneratedInterface { descriptors, exclusive_methods, shared_methods, trampolines, reexports }
}

} // verus!
