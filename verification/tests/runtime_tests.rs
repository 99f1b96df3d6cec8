use fusegen::error::Error;
use fusegen::harness::{assemble_args, assemble_table, interpret_run};
use fusegen::runtime::{
    convert_args, default_method_result, map_result, trampoline_step, RawVal, SafeVal,
    TrampolineOutcome,
};
use fusegen::shape::{Field, FieldShape, FnShape, Prim, RawParam, RawType, TypeName};
use fusegen::synth::AccessFlavor;
use fusegen::table::{fallback_table, HandlerRef, MountContext, OpTable, TableEntry};

fn named(n: TypeName) -> RawType {
    RawType::Named(n)
}

fn ptr_to(mutable: bool, elem: RawType) -> RawType {
    RawType::Ptr {
        mutable,
        elem: Box::new(elem),
    }
}

fn param(name: &str, ty: RawType) -> RawParam {
    RawParam {
        name: name.to_string(),
        ty,
    }
}

fn read_params() -> Vec<RawParam> {
    vec![
        param("path", ptr_to(false, named(TypeName::CChar))),
        param("buf", ptr_to(true, named(TypeName::Prim(Prim::U8)))),
        param("size", named(TypeName::Prim(Prim::Usize))),
        param("offset", named(TypeName::Prim(Prim::I64))),
    ]
}

fn op_field(name: &str, params: Vec<RawParam>) -> Field {
    Field {
        name: name.to_string(),
        shape: FieldShape::OptFn(FnShape {
            params,
            ret: named(TypeName::CInt),
            variadic: false,
        }),
    }
}

fn entry(name: &str, assigned: bool, flavor: AccessFlavor) -> TableEntry {
    TableEntry {
        name: name.to_string(),
        handler: if assigned {
            Some(HandlerRef {
                op: name.to_string(),
                flavor,
            })
        } else {
            None
        },
    }
}

fn two_op_context(flavor: AccessFlavor) -> MountContext {
    MountContext {
        fs_instance: 7,
        table: OpTable {
            entries: vec![entry("mkdir", true, flavor), entry("getattr", true, flavor)],
        },
    }
}

#[test]
fn scenario_read_builds_bounded_view_and_returns_byte_count() {
    let params = read_params();
    let args = vec![
        RawVal::Text("/etc/hosts".to_string()),
        RawVal::Region(vec![0u8; 4096]),
        RawVal::Num(4096),
        RawVal::Num(0),
    ];
    let vals = convert_args(&params, &args).expect("raw arguments fit the shapes");
    assert_eq!(vals.len(), 3);
    assert!(matches!(&vals[0], SafeVal::Str(s) if s == "/etc/hosts"));
    assert!(matches!(&vals[1], SafeVal::Slice(b) if b.len() == 4096));
    assert!(matches!(vals[2], SafeVal::Num(0)));
    let ctx = two_op_context(AccessFlavor::Exclusive);
    let outcome = trampoline_step(&ctx, &"read".to_string(), &Ok(4096), args);
    assert!(matches!(outcome, TrampolineOutcome::Done(4096)));
}

#[test]
fn bounded_view_is_cut_to_the_length_argument() {
    let params = vec![
        param("buf", ptr_to(false, named(TypeName::Prim(Prim::U8)))),
        param("size", named(TypeName::Prim(Prim::Usize))),
    ];
    let args = vec![RawVal::Region(vec![1, 2, 3, 4, 5]), RawVal::Num(3)];
    let vals = convert_args(&params, &args).expect("length within the region");
    assert_eq!(vals.len(), 1);
    assert!(matches!(&vals[0], SafeVal::Slice(b) if b.as_slice() == [1, 2, 3]));
}

#[test]
fn conversion_rejects_arguments_that_do_not_fit() {
    let params = read_params();
    let too_few = vec![RawVal::Num(0)];
    assert!(convert_args(&params, &too_few).is_none());
    let oversized_length = vec![
        RawVal::Text("/".to_string()),
        RawVal::Region(vec![0u8; 8]),
        RawVal::Num(9),
        RawVal::Num(0),
    ];
    assert!(convert_args(&params, &oversized_length).is_none());
    let text_for_pointer = vec![
        RawVal::Num(1),
        RawVal::Region(vec![0u8; 8]),
        RawVal::Num(8),
        RawVal::Num(0),
    ];
    assert!(convert_args(&params, &text_for_pointer).is_none());
}

#[test]
fn null_pointer_reads_back_as_absent_reference() {
    let params = vec![param(
        "stbuf",
        ptr_to(true, named(TypeName::Other("stat".to_string()))),
    )];
    let vals = convert_args(&params, &vec![RawVal::Ptr(None)]).expect("null fits");
    assert!(matches!(&vals[0], SafeVal::OptRef(None)));
    let present = convert_args(&params, &vec![RawVal::Ptr(Some(vec![9, 9]))]).expect("fits");
    assert!(matches!(&present[0], SafeVal::OptRef(Some(b)) if b.as_slice() == [9, 9]));
}

#[test]
fn scenario_declined_mkdir_delegates_through_nulled_clone() {
    let ctx = two_op_context(AccessFlavor::Exclusive);
    let raw_args = vec![RawVal::Text("/newdir".to_string()), RawVal::Num(493)];
    let outcome = trampoline_step(
        &ctx,
        &"mkdir".to_string(),
        &default_method_result(),
        raw_args,
    );
    let native_default: i32 = 0;
    let observed = match outcome {
        TrampolineOutcome::Done(c) => c,
        TrampolineOutcome::Delegate {
            transient,
            raw_args,
        } => {
            assert_eq!(transient.fs_instance, 7);
            assert_eq!(transient.table.entries.len(), 2);
            assert_eq!(transient.table.entries[0].name, "mkdir");
            assert!(transient.table.entries[0].handler.is_none());
            assert_eq!(transient.table.entries[1].name, "getattr");
            assert!(transient.table.entries[1].handler.is_some());
            assert!(matches!(&raw_args[0], RawVal::Text(s) if s == "/newdir"));
            assert!(matches!(raw_args[1], RawVal::Num(493)));
            native_default
        }
    };
    assert_eq!(observed, native_default);
}

#[test]
fn scenario_missing_file_maps_to_negative_code_under_both_flavors() {
    for flavor in [AccessFlavor::Exclusive, AccessFlavor::Shared] {
        let ctx = two_op_context(flavor);
        let outcome = trampoline_step(
            &ctx,
            &"getattr".to_string(),
            &Err(Error::IO(Some(2))),
            Vec::new(),
        );
        assert!(matches!(outcome, TrampolineOutcome::Done(-2)));
    }
}

#[test]
fn success_passes_its_status_through() {
    assert_eq!(map_result(&"read".to_string(), &Ok(17)), 17);
    assert_eq!(map_result(&"read".to_string(), &Ok(0)), 0);
}

#[test]
fn default_method_declines() {
    assert!(matches!(
        default_method_result(),
        Err(Error::IO(Some(38)))
    ));
}

#[test]
fn fallback_clone_nulls_exactly_the_declined_entry() {
    let table = OpTable {
        entries: vec![
            entry("mkdir", true, AccessFlavor::Shared),
            entry("rmdir", false, AccessFlavor::Shared),
            entry("getattr", true, AccessFlavor::Shared),
        ],
    };
    let nulled = fallback_table(&table, &"mkdir".to_string());
    assert_eq!(nulled.entries.len(), 3);
    assert_eq!(nulled.entries[0].name, "mkdir");
    assert!(nulled.entries[0].handler.is_none());
    assert_eq!(nulled.entries[1].name, "rmdir");
    assert!(nulled.entries[1].handler.is_none());
    assert_eq!(nulled.entries[2].name, "getattr");
    assert!(nulled.entries[2].handler.is_some());
    assert!(table.entries[0].handler.is_some());
}

#[test]
fn scenario_blacklisted_operation_never_gets_a_pointer() {
    let fields = vec![op_field("read", read_params()), op_field("mkdir", vec![])];
    let blacklist = vec!["mkdir".to_string()];
    let table = assemble_table(&fields, &blacklist, AccessFlavor::Exclusive);
    assert_eq!(table.entries.len(), 2);
    assert_eq!(table.entries[0].name, "read");
    let read_handler = table.entries[0].handler.as_ref().expect("read is assigned");
    assert_eq!(read_handler.op, "read");
    assert_eq!(read_handler.flavor, AccessFlavor::Exclusive);
    assert_eq!(table.entries[1].name, "mkdir");
    assert!(table.entries[1].handler.is_none());
}

#[test]
fn assigned_pointers_match_accepted_descriptors() {
    let variadic = Field {
        name: "printf_like".to_string(),
        shape: FieldShape::OptFn(FnShape {
            params: vec![],
            ret: named(TypeName::CInt),
            variadic: true,
        }),
    };
    let fields = vec![
        op_field("read", read_params()),
        variadic,
        op_field("mkdir", vec![]),
        op_field("getattr", vec![]),
    ];
    let blacklist = vec!["mkdir".to_string()];
    let descriptors = fusegen::analyzer::analyze(&fields, &blacklist);
    let table = assemble_table(&fields, &blacklist, AccessFlavor::Shared);
    let assigned: Vec<String> = table
        .entries
        .iter()
        .filter_map(|e| e.handler.as_ref().map(|h| h.op.clone()))
        .collect();
    let names: Vec<String> = descriptors.iter().map(|d| d.name.clone()).collect();
    assert_eq!(assigned, names);
    assert_eq!(names, vec!["read", "getattr"]);
}

#[test]
fn exclusive_run_includes_single_dispatch_flag() {
    let args = assemble_args("prog", "/mnt", AccessFlavor::Exclusive, false);
    assert_eq!(args, vec!["prog", "/mnt", "-f", "-s"]);
    let shared = assemble_args("prog", "/mnt", AccessFlavor::Shared, true);
    assert_eq!(shared, vec!["prog", "/mnt", "-f", "-d"]);
}

#[test]
fn run_result_is_zero_or_the_native_code() {
    assert!(interpret_run(0).is_ok());
    assert_eq!(interpret_run(-5), Err(-5));
    assert_eq!(interpret_run(1), Err(1));
}
