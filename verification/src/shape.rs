//! The raw shapes the generator works over: the parameter and return types
//! of the native table's function-pointer fields, the fields themselves, and
//! the operation descriptor the analyzer builds for each accepted field.
//!
//! Raw types are kept structurally: the platform character type and the
//! platform status code are their own constructors because the conversion
//! rules single them out; the primitive names form a closed set; every other
//! named type is carried by name.  Each executable type has a mathematical
//! mirror (its view) over `Seq`, and every contract speaks of views.

use vstd::prelude::*;

verus! {

/// The primitive type names a raw signature can mention.
#[derive(Clone, Copy, Debug, PartialEq, Eq, Structural)]
pub enum Prim {
    U8,
    U16,
    U32,
    U64,
    U128,
    Usize,
    I8,
    I16,
    I32,
    I64,
    I128,
    Isize,
}

/// The name a non-pointer raw type goes under.
///
/// `CChar` is the platform character type, `CInt` the platform status code;
/// any other non-primitive name (a compound type such as a stat record, or a
/// platform alias such as an offset type) is carried verbatim in `Other`.
#[derive(Debug)]
pub enum TypeName {
    CChar,
    CInt,
    Prim(Prim),
    Other(String),
}

/// Mathematical mirror of [`TypeName`].
pub enum TypeNameV {
    CChar,
    CInt,
    Prim(Prim),
    Other(Seq<char>),
}

impl View for TypeName {
    type V = TypeNameV;

    open spec fn view(&self) -> TypeNameV {
        match self {
            TypeName::CChar => TypeNameV::CChar,
            TypeName::CInt => TypeNameV::CInt,
            TypeName::Prim(p) => TypeNameV::Prim(*p),
            TypeName::Other(s) => TypeNameV::Other(s@),
        }
    }
}

impl Clone for TypeName {
    fn clone(&self) -> (r: Self)
        ensures
            r@ == self@,
    {
        match self {
            TypeName::CChar => TypeName::CChar,
            TypeName::CInt => TypeName::CInt,
            TypeName::Prim(p) => TypeName::Prim(*p),
            TypeName::Other(s) => TypeName::Other(s.clone()),
        }
    }
}

/// A raw type as it stands in the native table: a (possibly nested) raw
/// pointer, or a named type.
#[derive(Debug)]
pub enum RawType {
    Ptr { mutable: bool, elem: Box<RawType> },
    Named(TypeName),
}

/// Mathematical mirror of [`RawType`].
pub enum RawTypeV {
    Ptr { mutable: bool, elem: Box<RawTypeV> },
    Named(TypeNameV),
}

/// The view of a raw type, pointer nesting preserved.
pub open spec fn raw_type_view(t: RawType) -> RawTypeV
    decreases t,
{
    match t {
        RawType::Ptr { mutable, elem } => RawTypeV::Ptr {
            mutable,
            elem: Box::new(raw_type_view(*elem)),
        },
        RawType::Named(n) => RawTypeV::Named(n@),
    }
}

impl View for RawType {
    type V = RawTypeV;

    open spec fn view(&self) -> RawTypeV {
        raw_type_view(*self)
    }
}

impl Clone for RawType {
    fn clone(&self) -> (r: Self)
        ensures
            r@ == self@,
        decreases *self,
    {
        match self {
            RawType::Ptr { mutable, elem } => RawType::Ptr {
                mutable: *mutable,
                elem: Box::new((**elem).clone()),
            },
            RawType::Named(n) => RawType::Named(n.clone()),
        }
    }
}

/// True of the raw type that names the platform length type; only such a
/// parameter can serve as the length half of a pointer+length pair.
pub open spec fn is_len_type(t: RawTypeV) -> bool {
    t == RawTypeV::Named(TypeNameV::Prim(Prim::Usize))
}

/// True of the platform character type.
pub open spec fn is_c_char(t: RawTypeV) -> bool {
    t == RawTypeV::Named(TypeNameV::CChar)
}

/// True of the platform status code, the only return type the safe
/// interface accepts.
pub open spec fn is_status(t: RawTypeV) -> bool {
    t == RawTypeV::Named(TypeNameV::CInt)
}

/// The views of a name list, in order.
pub open spec fn names_view(s: Seq<String>) -> Seq<Seq<char>> {
    s.map_values(|n: String| n@)
}

/// Decides [`is_len_type`] for a raw type.
pub fn ty_is_len_type(t: &RawType) -> (r: bool)
    ensures
        r == is_len_type(t@),
{
    matches!(t, RawType::Named(TypeName::Prim(Prim::Usize)))
}

/// Decides [`is_c_char`] for a raw type.
pub fn ty_is_c_char(t: &RawType) -> (r: bool)
    ensures
        r == is_c_char(t@),
{
    matches!(t, RawType::Named(TypeName::CChar))
}

/// Decides [`is_status`] for a raw type.
pub fn ty_is_status(t: &RawType) -> (r: bool)
    ensures
        r == is_status(t@),
{
    matches!(t, RawType::Named(TypeName::CInt))
}

/// Decides view equality of two type names.
pub fn type_name_eq(a: &TypeName, b: &TypeName) -> (r: bool)
    ensures
        r == (a@ == b@),
{
    match (a, b) {
        (TypeName::CChar, TypeName::CChar) => true,
        (TypeName::CInt, TypeName::CInt) => true,
        (TypeName::Prim(p), TypeName::Prim(q)) => *p == *q,
        (TypeName::Other(x), TypeName::Other(y)) => x.eq(y),
        _ => false,
    }
}

/// One named raw parameter of a function-pointer field.
#[derive(Debug)]
pub struct RawParam {
    pub name: String,
    pub ty: RawType,
}

/// Mathematical mirror of [`RawParam`].
#[verifier::ext_equal]
pub struct RawParamV {
    pub name: Seq<char>,
    pub ty: RawTypeV,
}

impl View for RawParam {
    type V = RawParamV;

    open spec fn view(&self) -> RawParamV {
        RawParamV { name: self.name@, ty: self.ty@ }
    }
}

impl Clone for RawParam {
    fn clone(&self) -> (r: Self)
        ensures
            r@ == self@,
    {
        let r = RawParam { name: self.name.clone(), ty: self.ty.clone() };
        proof {
            assert(r@ =~= self@);
        }
        r
    }
}

/// The views of a raw parameter list, in order.
pub open spec fn params_view(s: Seq<RawParam>) -> Seq<RawParamV> {
    s.map_values(|p: RawParam| p@)
}

/// The signature of a function-pointer field: its ordered raw parameters,
/// its return type, and whether it is variadic.
#[derive(Debug)]
pub struct FnShape {
    pub params: Vec<RawParam>,
    pub ret: RawType,
    pub variadic: bool,
}

/// Mathematical mirror of [`FnShape`].
#[verifier::ext_equal]
pub struct FnShapeV {
    pub params: Seq<RawParamV>,
    pub ret: RawTypeV,
    pub variadic: bool,
}

impl View for FnShape {
    type V = FnShapeV;

    open spec fn view(&self) -> FnShapeV {
        FnShapeV { params: params_view(self.params@), ret: self.ret@, variadic: self.variadic }
    }
}

/// The shape of one field of the native operation table: a nullable
/// function pointer, or any other field (capability flags and the like),
/// which the generator passes through untouched.
#[derive(Debug)]
pub enum FieldShape {
    OptFn(FnShape),
    Plain(RawType),
}

/// Mathematical mirror of [`FieldShape`].
#[verifier::ext_equal]
pub enum FieldShapeV {
    OptFn(FnShapeV),
    Plain(RawTypeV),
}

impl View for FieldShape {
    type V = FieldShapeV;

    open spec fn view(&self) -> FieldShapeV {
        match self {
            FieldShape::OptFn(s) => FieldShapeV::OptFn(s@),
            FieldShape::Plain(t) => FieldShapeV::Plain(t@),
        }
    }
}

/// One named field of the native operation table.
#[derive(Debug)]
pub struct Field {
    pub name: String,
    pub shape: FieldShape,
}

/// Mathematical mirror of [`Field`].
#[verifier::ext_equal]
pub struct FieldV {
    pub name: Seq<char>,
    pub shape: FieldShapeV,
}

impl View for Field {
    type V = FieldV;

    open spec fn view(&self) -> FieldV {
        FieldV { name: self.name@, shape: self.shape@ }
    }
}

/// The views of a field list, in order.
pub open spec fn fields_view(s: Seq<Field>) -> Seq<FieldV> {
    s.map_values(|f: Field| f@)
}

/// The descriptor the analyzer builds for an accepted operation: the field's
/// name and its raw parameter list.  The return type is always the platform
/// status code, so it is not repeated here.
#[derive(Debug)]
pub struct Descriptor {
    pub name: String,
    pub params: Vec<RawParam>,
}

/// Mathematical mirror of [`Descriptor`].
#[verifier::ext_equal]
pub struct DescriptorV {
    pub name: Seq<char>,
    pub params: Seq<RawParamV>,
}

impl View for Descriptor {
    type V = DescriptorV;

    open spec fn view(&self) -> DescriptorV {
        DescriptorV { name: self.name@, params: params_view(self.params@) }
    }
}

/// The views of a descriptor list, in order.
pub open spec fn descriptors_view(s: Seq<Descriptor>) -> Seq<DescriptorV> {
    s.map_values(|d: Descriptor| d@)
}

/// Copies a raw parameter list; the copy's views equal the original's.
pub fn clone_params(v: &Vec<RawParam>) -> (r: Vec<RawParam>)
    ensures
        params_view(r@) == params_view(v@),
{
    let mut r: Vec<RawParam> = Vec::new();
    let mut i: usize = 0;
    while i < v.len()
        invariant
            i <= v.len(),
            r@.len() == i as int,
            forall|j: int| 0 <= j < i as int ==> #[trigger] r@[j]@ == v@[j]@,
        decreases v.len() - i,
    {
        r.push(v[i].clone());
        i = i + 1;
    }
    proof {
        assert forall|j: int| 0 <= j < v@.len() implies params_view(r@)[j] == params_view(
            v@,
        )[j] by {
            assert(r@[j]@ == v@[j]@);
        }
        assert(params_view(r@) =~= params_view(v@));
    }
    r
}

impl Clone for Descriptor {
    fn clone(&self) -> (r: Self)
        ensures
            r@ == self@,
    {
        let r = Descriptor { name: self.name.clone(), params: clone_params(&self.params) };
        proof {
            assert(r@ =~= self@);
        }
        r
    }
}

} // verus!
