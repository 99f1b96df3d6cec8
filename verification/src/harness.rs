//! The harness assembly: builds the one concrete operation table under the
//! statically selected access flavor, and the native process-argument
//! vector the run is started with.
//!
//! One pointer is assigned per accepted descriptor; every other
//! function-pointer field stays unset.  The single-dispatch-thread flag is
//! present exactly when the exclusive flavor was selected, which is what
//! lets exclusive-flavor methods assume no concurrent invocation.

use crate::analyzer::{accepted, name_blacklisted};
use crate::shape::{fields_view, names_view, ty_is_status, Field, FieldShape, FieldShapeV, FieldV};
use crate::synth::AccessFlavor;
use crate::table::{entries_view, HandlerRef, HandlerRefV, OpTable, TableEntry, TableEntryV};
use vstd::prelude::*;

verus! {

/// The table entries assembled from a field list: one entry per
/// function-pointer field, in declaration order, assigned exactly when the
/// analyzer accepts the field under the blacklist.
pub open spec fn assemble_spec(
    fields: Seq<FieldV>,
    bl: Seq<Seq<char>>,
    flavor: AccessFlavor,
) -> Seq<TableEntryV>
    decreases fields.len(),
{
    if fields.len() == 0 {
        Seq::empty()
    } else {
        let init = assemble_spec(fields.drop_last(), bl, flavor);
        let f = fields.last();
        if f.shape is OptFn {
            init.push(
                TableEntryV {
                    name: f.name,
                    handler: if accepted(f, bl) {
                        Some(HandlerRefV { op: f.name, flavor })
                    } else {
                        None
                    },
                },
            )
        } else {
            init
        }
    }
}

/// A blacklisted name is never assigned a pointer in an assembled table,
/// whatever the field's shape and whatever methods an implementation
/// defines.
pub proof fn lemma_blacklisted_never_assigned(
    fields: Seq<FieldV>,
    bl: Seq<Seq<char>>,
    flavor: AccessFlavor,
)
    ensures
        forall|i: int|
            0 <= i < assemble_spec(fields, bl, flavor).len() && name_blacklisted(
                bl,
                #[trigger] assemble_spec(fields, bl, flavor)[i].name,
            ) ==> assemble_spec(fields, bl, flavor)[i].handler is None,
    decreases fields.len(),
{
    if fields.len() > 0 {
        lemma_blacklisted_never_assigned(fields.drop_last(), bl, flavor);
    }
}

/// The names of the assigned entries of a table, in order.
pub open spec fn assigned_ops(entries: Seq<TableEntryV>) -> Seq<Seq<char>>
    decreases entries.len(),
{
    if entries.len() == 0 {
        Seq::empty()
    } else {
        let init = assigned_ops(entries.drop_last());
        if entries.last().handler is Some {
            init.push(entries.last().name)
        } else {
            init
        }
    }
}

/// The names of a descriptor list, in order.
pub open spec fn descriptor_names(ds: Seq<crate::shape::DescriptorV>) -> Seq<Seq<char>> {
    ds.map_values(|d: crate::shape::DescriptorV| d.name)
}

/// The assembled table assigns pointers to exactly the operations the
/// analyzer accepts, one each, in the same order: the assigned entry names
/// are the descriptor names.
pub proof fn lemma_table_matches_analysis(
    fields: Seq<FieldV>,
    bl: Seq<Seq<char>>,
    flavor: AccessFlavor,
)
    ensures
        assigned_ops(assemble_spec(fields, bl, flavor)) == descriptor_names(
            crate::analyzer::analyze_spec(fields, bl),
        ),
    decreases fields.len(),
{
    if fields.len() == 0 {
        assert(assigned_ops(assemble_spec(fields, bl, flavor)) =~= descriptor_names(
            crate::analyzer::analyze_spec(fields, bl),
        ));
    } else {
        lemma_table_matches_analysis(fields.drop_last(), bl, flavor);
        let f = fields.last();
        let t_init = assemble_spec(fields.drop_last(), bl, flavor);
        let d_init = crate::analyzer::analyze_spec(fields.drop_last(), bl);
        if f.shape is OptFn {
            let e = TableEntryV {
                name: f.name,
                handler: if accepted(f, bl) {
                    Some(HandlerRefV { op: f.name, flavor })
                } else {
                    None
                },
            };
            assert(assemble_spec(fields, bl, flavor) == t_init.push(e));
            assert(t_init.push(e).drop_last() =~= t_init);
            assert(t_init.push(e).last() == e);
            if accepted(f, bl) {
                assert(descriptor_names(d_init.push(crate::analyzer::descriptor_of(f)))
                    =~= descriptor_names(d_init).push(f.name));
            }
        }
    }
}

/// Every assigned handler of an assembled table bridges the entry's own
/// operation under the selected flavor.
pub proof fn lemma_assigned_handler_well_formed(
    fields: Seq<FieldV>,
    bl: Seq<Seq<char>>,
    flavor: AccessFlavor,
)
    ensures
        forall|i: int|
            0 <= i < assemble_spec(fields, bl, flavor).len() ==> ((
            #[trigger] assemble_spec(fields, bl, flavor)[i].handler) matches Some(h) ==> (h.op
                == assemble_spec(fields, bl, flavor)[i].name && h.flavor == flavor)),
    decreases fields.len(),
{
    if fields.len() > 0 {
        lemma_assigned_handler_well_formed(fields.drop_last(), bl, flavor);
    }
}

/// Builds the concrete operation table for a run: one assigned pointer per
/// accepted descriptor under the one statically selected flavor; every
/// other function-pointer field left unset.
pub fn assemble_table(fields: &Vec<Field>, blacklist: &Vec<String>, flavor: AccessFlavor) -> (r:
    OpTable)
    ensures
        r@.entries == assemble_spec(fields_view(fields@), names_view(blacklist@), flavor),
{
    let ghost fv = fields_view(fields@);
    let ghost bv = names_view(blacklist@);
    let mut entries: Vec<TableEntry> = Vec::new();
    let mut i: usize = 0;
    proof {
        assert(fv.take(0) =~= Seq::<FieldV>::empty());
        assert(entries_view(entries@) =~= assemble_spec(fv.take(0), bv, flavor));
    }
    while i < fields.len()
        invariant
            i <= fields.len(),
            fv == fields_view(fields@),
            bv == names_view(blacklist@),
            entries_view(entries@) == assemble_spec(fv.take(i as int), bv, flavor),
        decreases fields.len() - i,
    {
        let ghost prev = entries@;
        let f = &fields[i];
        proof {
            assert(fv[i as int] == f@);
        }
        match &f.shape {
            FieldShape::OptFn(s) => {
                let ok = !s.variadic && ty_is_status(&s.ret) && !crate::analyzer::blacklist_contains(
                    blacklist,
                    &f.name,
                );
                let handler = if ok {
                    Some(HandlerRef { op: f.name.clone(), flavor })
                } else {
                    None
                };
                entries.push(TableEntry { name: f.name.clone(), handler });
                proof {
                    assert(entries_view(entries@) =~= entries_view(prev).push(
                        entries@[entries@.len() - 1]@,
                    ));
                }
            },
            FieldShape::Plain(_) => {},
        }
        proof {
            assert(fv.take(i + 1 as int).drop_last() =~= fv.take(i as int));
            assert(fv.take(i + 1 as int).last() == fv[i as int]);
            assert(entries_view(entries@) =~= assemble_spec(fv.take(i + 1 as int), bv, flavor));
        }
        i = i + 1;
    }
    proof {
        assert(fv.take(fv.len() as int) =~= fv);
    }
    OpTable { entries }
}

/// The native process-argument vector for one run: program name, mount
/// path, the foreground flag, the single-dispatch-thread flag exactly when
/// the exclusive flavor is selected, and the debug flag when asked for.
pub open spec fn args_spec(
    program: Seq<char>,
    mountpoint: Seq<char>,
    flavor: AccessFlavor,
    debug: bool,
) -> Seq<Seq<char>> {
    let base = seq![program, mountpoint, "-f"@];
    let with_single = if flavor is Exclusive {
        base.push("-s"@)
    } else {
        base
    };
    if debug {
        with_single.push("-d"@)
    } else {
        with_single
    }
}

/// Assembles the native process-argument vector.
pub fn assemble_args(program: &str, mountpoint: &str, flavor: AccessFlavor, debug: bool) -> (r:
    Vec<String>)
    ensures
        names_view(r@) == args_spec(program@, mountpoint@, flavor, debug),
{
    let mut r: Vec<String> = Vec::new();
    r.push(String::from_str(program));
    r.push(String::from_str(mountpoint));
    r.push(String::from_str("-f"));
    if matches!(flavor, AccessFlavor::Exclusive) {
        r.push(String::from_str("-s"));
    }
    if debug {
        r.push(String::from_str("-d"));
    }
    proof {
        assert(names_view(r@) =~= args_spec(program@, mountpoint@, flavor, debug));
    }
    r
}

/// Interprets the native main entry point's return: zero is success,
/// anything else is handed back as the native failure code.
pub fn interpret_run(code: i32) -> (r: Result<(), i32>)
    ensures
        code == 0 ==> r is Ok,
        code != 0 ==> (r matches Err(e) && e == code),
{
    if code == 0 {
        Ok(())
    } else {
        Err(code)
    }
}

} // verus!
