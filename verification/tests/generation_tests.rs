use fusegen::analyzer::analyze;
use fusegen::generate::fuse_operations;
use fusegen::idents::gen_ident;
use fusegen::shape::{Field, FieldShape, FnShape, Prim, RawParam, RawType, TypeName};
use fusegen::synth::{build_method_sig, synthesize, AccessFlavor, Conversion, SafeType};

fn named(n: TypeName) -> RawType {
    RawType::Named(n)
}

fn ptr_to(mutable: bool, elem: RawType) -> RawType {
    RawType::Ptr {
        mutable,
        elem: Box::new(elem),
    }
}

fn param(name: &str, ty: RawType) -> RawParam {
    RawParam {
        name: name.to_string(),
        ty,
    }
}

fn read_params() -> Vec<RawParam> {
    vec![
        param("path", ptr_to(false, named(TypeName::CChar))),
        param("buf", ptr_to(true, named(TypeName::Prim(Prim::U8)))),
        param("size", named(TypeName::Prim(Prim::Usize))),
        param("offset", named(TypeName::Prim(Prim::I64))),
    ]
}

fn op_field(name: &str, params: Vec<RawParam>) -> Field {
    Field {
        name: name.to_string(),
        shape: FieldShape::OptFn(FnShape {
            params,
            ret: named(TypeName::CInt),
            variadic: false,
        }),
    }
}

#[test]
fn scenario_read_synthesizes_text_view_bounded_view_and_offset() {
    let sp = synthesize(&read_params());
    assert_eq!(sp.safe_params.len(), 3);
    assert_eq!(sp.safe_params[0].name, "path");
    assert!(matches!(sp.safe_params[0].ty, SafeType::Str));
    assert_eq!(sp.safe_params[1].name, "buf");
    match &sp.safe_params[1].ty {
        SafeType::Slice { mutable, elem } => {
            assert!(*mutable);
            assert!(matches!(&**elem, SafeType::Named(TypeName::Prim(Prim::U8))));
        }
        other => panic!("buf synthesized to {:?}", other),
    }
    assert_eq!(sp.safe_params[2].name, "offset");
    assert!(matches!(
        sp.safe_params[2].ty,
        SafeType::Named(TypeName::Prim(Prim::I64))
    ));
    assert_eq!(
        sp.conversions,
        vec![
            Conversion::TextToView,
            Conversion::PairToView { mutable: true },
            Conversion::PassThrough,
        ]
    );
    assert_eq!(sp.raw_arg_names, vec!["path", "buf", "size", "offset"]);
}

#[test]
fn adjacent_pair_collapses_exactly_one_parameter() {
    let raw = read_params();
    let n_raw = raw.len();
    let sp = synthesize(&raw);
    assert_eq!(sp.safe_params.len(), n_raw - 1);
}

#[test]
fn lone_pointer_becomes_optional_reference() {
    let sp = synthesize(&vec![param(
        "stbuf",
        ptr_to(true, named(TypeName::Other("stat".to_string()))),
    )]);
    assert_eq!(sp.safe_params.len(), 1);
    match &sp.safe_params[0].ty {
        SafeType::OptRef { mutable, elem } => {
            assert!(*mutable);
            assert!(matches!(elem, RawType::Named(TypeName::Other(s)) if s == "stat"));
        }
        other => panic!("stbuf synthesized to {:?}", other),
    }
    assert_eq!(sp.conversions, vec![Conversion::PtrToOption { mutable: true }]);
}

#[test]
fn flavors_differ_only_in_self_access() {
    let ds = analyze(&vec![op_field("read", read_params())], &Vec::new());
    assert_eq!(ds.len(), 1);
    let ex = build_method_sig(&ds[0], AccessFlavor::Exclusive);
    let sh = build_method_sig(&ds[0], AccessFlavor::Shared);
    assert_eq!(ex.flavor, AccessFlavor::Exclusive);
    assert_eq!(sh.flavor, AccessFlavor::Shared);
    assert_eq!(ex.name, sh.name);
    assert_eq!(ex.params.len(), sh.params.len());
    for (a, b) in ex.params.iter().zip(sh.params.iter()) {
        assert_eq!(a.name, b.name);
        assert_eq!(format!("{:?}", a.ty), format!("{:?}", b.ty));
    }
}

#[test]
fn analyzer_accepts_only_status_returning_non_variadic_pointers() {
    let variadic = Field {
        name: "printf_like".to_string(),
        shape: FieldShape::OptFn(FnShape {
            params: vec![],
            ret: named(TypeName::CInt),
            variadic: true,
        }),
    };
    let wrong_return = Field {
        name: "init".to_string(),
        shape: FieldShape::OptFn(FnShape {
            params: vec![],
            ret: ptr_to(true, named(TypeName::Other("c_void".to_string()))),
            variadic: false,
        }),
    };
    let capability_flag = Field {
        name: "flag_nullpath_ok".to_string(),
        shape: FieldShape::Plain(named(TypeName::Prim(Prim::U32))),
    };
    let fields = vec![
        op_field("read", read_params()),
        variadic,
        wrong_return,
        capability_flag,
        op_field("mkdir", vec![]),
    ];
    let ds = analyze(&fields, &Vec::new());
    assert_eq!(ds.len(), 2);
    assert_eq!(ds[0].name, "read");
    assert_eq!(ds[1].name, "mkdir");
}

#[test]
fn blacklisted_name_is_dropped_regardless_of_shape() {
    let fields = vec![op_field("read", read_params()), op_field("mkdir", vec![])];
    let ds = analyze(&fields, &vec!["mkdir".to_string()]);
    assert_eq!(ds.len(), 1);
    assert_eq!(ds[0].name, "read");
}

#[test]
fn re_adding_a_blacklisted_name_changes_nothing() {
    let fields = vec![op_field("read", read_params()), op_field("mkdir", vec![])];
    let once = analyze(&fields, &vec!["mkdir".to_string()]);
    let twice = analyze(&fields, &vec!["mkdir".to_string(), "mkdir".to_string()]);
    assert_eq!(once.len(), twice.len());
    for (a, b) in once.iter().zip(twice.iter()) {
        assert_eq!(a.name, b.name);
        assert_eq!(a.params.len(), b.params.len());
    }
}

#[test]
fn generation_pairs_each_descriptor_with_both_flavors() {
    let fields = vec![op_field("read", read_params()), op_field("mkdir", vec![])];
    let out = fuse_operations(&fields, &Vec::new());
    assert_eq!(out.descriptors.len(), 2);
    assert_eq!(out.exclusive_methods.len(), 2);
    assert_eq!(out.shared_methods.len(), 2);
    for (d, m) in out.descriptors.iter().zip(out.exclusive_methods.iter()) {
        assert_eq!(d.name, m.name);
        assert_eq!(m.flavor, AccessFlavor::Exclusive);
    }
    for (d, m) in out.descriptors.iter().zip(out.shared_methods.iter()) {
        assert_eq!(d.name, m.name);
        assert_eq!(m.flavor, AccessFlavor::Shared);
    }
}

#[test]
fn each_descriptor_gets_one_trampoline_plan() {
    let fields = vec![op_field("read", read_params()), op_field("mkdir", vec![])];
    let out = fuse_operations(&fields, &Vec::new());
    assert_eq!(out.trampolines.len(), 2);
    assert_eq!(out.trampolines[0].op, "read");
    assert_eq!(
        out.trampolines[0].conversions,
        vec![
            Conversion::TextToView,
            Conversion::PairToView { mutable: true },
            Conversion::PassThrough,
        ]
    );
    assert_eq!(
        out.trampolines[0].raw_arg_names,
        vec!["path", "buf", "size", "offset"]
    );
    assert_eq!(out.trampolines[1].op, "mkdir");
    assert!(out.trampolines[1].conversions.is_empty());
}

#[test]
fn reexports_are_collected_once_per_name() {
    let getattr = op_field(
        "getattr",
        vec![
            param("path", ptr_to(false, named(TypeName::CChar))),
            param("stbuf", ptr_to(true, named(TypeName::Other("stat".to_string())))),
        ],
    );
    let fgetattr = op_field(
        "fgetattr",
        vec![
            param("path", ptr_to(false, named(TypeName::CChar))),
            param("stbuf", ptr_to(true, named(TypeName::Other("stat".to_string())))),
            param("offset", named(TypeName::Other("off_t".to_string()))),
        ],
    );
    let out = fuse_operations(&vec![getattr, fgetattr], &Vec::new());
    let names: Vec<String> = out
        .reexports
        .iter()
        .map(|t| format!("{:?}", t))
        .collect();
    assert_eq!(names.len(), 2);
    assert!(names[0].contains("stat"));
    assert!(names[1].contains("off_t"));
}

#[test]
fn primitive_passthrough_is_not_reexported() {
    let out = fuse_operations(
        &vec![op_field(
            "truncate",
            vec![param("size", named(TypeName::Prim(Prim::U64)))],
        )],
        &Vec::new(),
    );
    assert!(out.reexports.is_empty());
}

#[test]
fn gen_ident_appends_ten_identifier_characters() {
    let id = gen_ident("offset");
    assert_eq!(id.len(), "offset".len() + 10);
    assert!(id.starts_with("offset"));
    for c in id.chars().skip("offset".len()) {
        assert!(c == '_' || c.is_ascii_alphabetic());
    }
    let other = gen_ident("offset");
    assert_eq!(other.len(), id.len());
}
