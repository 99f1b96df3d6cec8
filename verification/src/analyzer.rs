//! The signature analyzer: filters the native table's field list down to the
//! ordered accepted operation descriptors.
//!
//! A field is accepted exactly when it is a nullable function pointer that
//! is not variadic, returns the platform status code, and its name is not
//! blacklisted.  Every other field passes through the generator untouched.

use crate::shape::{
    clone_params, descriptors_view, fields_view, is_status, names_view, ty_is_status, Descriptor,
    DescriptorV, Field, FieldShape, FieldShapeV, FieldV,
};
use vstd::prelude::*;

verus! {

/// True iff the blacklist holds this name.
pub open spec fn name_blacklisted(bl: Seq<Seq<char>>, name: Seq<char>) -> bool {
    exists|i: int| 0 <= i < bl.len() && bl[i] == name
}

/// True of a field whose shape the safe interface supports: a nullable
/// function pointer, not variadic, returning the platform status code.
pub open spec fn eligible(f: FieldV) -> bool {
    f.shape matches FieldShapeV::OptFn(s) && !s.variadic && is_status(s.ret)
}

/// True of a field the analyzer accepts: eligible and not blacklisted.
pub open spec fn accepted(f: FieldV, bl: Seq<Seq<char>>) -> bool {
    eligible(f) && !name_blacklisted(bl, f.name)
}

/// The descriptor an accepted field yields.
pub open spec fn descriptor_of(f: FieldV) -> DescriptorV
    recommends
        eligible(f),
{
    DescriptorV { name: f.name, params: f.shape->OptFn_0.params }
}

/// The ordered descriptors of the accepted fields.
pub open spec fn analyze_spec(fields: Seq<FieldV>, bl: Seq<Seq<char>>) -> Seq<DescriptorV>
    decreases fields.len(),
{
    if fields.len() == 0 {
        Seq::empty()
    } else {
        let init = analyze_spec(fields.drop_last(), bl);
        if accepted(fields.last(), bl) {
            init.push(descriptor_of(fields.last()))
        } else {
            init
        }
    }
}

/// Decides [`name_blacklisted`] for a name.
pub fn blacklist_contains(bl: &Vec<String>, name: &String) -> (r: bool)
    ensures
        r == name_blacklisted(names_view(bl@), name@),
{
    let mut i: usize = 0;
    while i < bl.len()
        invariant
            i <= bl.len(),
            forall|j: int| 0 <= j < i as int ==> #[trigger] bl@[j]@ != name@,
        decreases bl.len() - i,
    {
        if bl[i].eq(name) {
            proof {
                assert(names_view(bl@)[i as int] == name@);
            }
            return true;
        }
        i = i + 1;
    }
    proof {
        assert forall|j: int| 0 <= j < names_view(bl@).len() implies names_view(bl@)[j]
            != name@ by {
            assert(bl@[j]@ != name@);
        }
    }
    false
}

/// Builds the ordered accepted descriptors for a field list under a
/// blacklist.
///
/// Exactly one descriptor exists per field matching "nullable function
/// pointer returning the platform status code, non-variadic, not
/// blacklisted"; every other field contributes nothing.
pub fn analyze(fields: &Vec<Field>, blacklist: &Vec<String>) -> (r: Vec<Descriptor>)
    ensures
        descriptors_view(r@) == analyze_spec(fields_view(fields@), names_view(blacklist@)),
{
    let ghost fv = fields_view(fields@);
    let ghost bv = names_view(blacklist@);
    let mut out: Vec<Descriptor> = Vec::new();
    let mut i: usize = 0;
    while i < fields.len()
        invariant
            i <= fields.len(),
            fv == fields_view(fields@),
            bv == names_view(blacklist@),
            descriptors_view(out@) == analyze_spec(fv.take(i as int), bv),
        decreases fields.len() - i,
    {
        let ghost prev = out@;
        let f = &fields[i];
        proof {
            assert(fv[i as int] == f@);
        }
        match &f.shape {
            FieldShape::OptFn(s) => {
                if !s.variadic && ty_is_status(&s.ret) && !blacklist_contains(blacklist, &f.name) {
                    let d = Descriptor { name: f.name.clone(), params: clone_params(&s.params) };
                    proof {
                        assert(d@ =~= descriptor_of(fv[i as int]));
                    }
                    out.push(d);
                }
            },
            FieldShape::Plain(_) => {},
        }
        proof {
            assert(fv.take(i + 1 as int).drop_last() =~= fv.take(i as int));
            assert(fv.take(i + 1 as int).last() == fv[i as int]);
            if accepted(fv[i as int], bv) {
                assert(descriptors_view(out@) =~= descriptors_view(prev).push(
                    descriptor_of(fv[i as int]),
                ));
            } else {
                assert(out@ == prev);
            }
        }
        i = i + 1;
    }
    proof {
        assert(fv.take(fv.len() as int) =~= fv);
    }
    out
}

/// A name already on the blacklist changes nothing when added again: the
/// accepted descriptor sequence is the same under the extended blacklist.
pub proof fn lemma_blacklist_idempotent(
    fields: Seq<FieldV>,
    bl: Seq<Seq<char>>,
    name: Seq<char>,
)
    requires
        name_blacklisted(bl, name),
    ensures
        analyze_spec(fields, bl.push(name)) == analyze_spec(fields, bl),
    decreases fields.len(),
{
    assert forall|m: Seq<char>| name_blacklisted(bl.push(name), m) == name_blacklisted(
        bl,
        m,
    ) by {
        if name_blacklisted(bl.push(name), m) {
            let i = choose|i: int| 0 <= i < bl.push(name).len() && bl.push(name)[i] == m;
            if i < bl.len() {
                assert(bl[i] == m);
            } else {
                assert(m == name);
            }
        }
        if name_blacklisted(bl, m) {
            let i = choose|i: int| 0 <= i < bl.len() && bl[i] == m;
            assert(bl.push(name)[i] == m);
        }
    }
    if fields.len() > 0 {
        lemma_blacklist_idempotent(fields.drop_last(), bl, name);
        assert(name_blacklisted(bl.push(name), fields.last().name) == name_blacklisted(
            bl,
            fields.last().name,
        ));
    }
}

} // verus!
