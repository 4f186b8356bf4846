//! The host type descriptors that the translator consumes, with their
//! mathematical views.

use vstd::prelude::*;
use vstd::string::*;

verus! {

/// A primitive type of the host language.
#[derive(Debug, Clone, Copy, PartialEq, Eq, Structural)]
pub enum Primitive {
    U8,
    I8,
    U16,
    I16,
    U32,
    I32,
    U64,
    I64,
    U128,
    I128,
    USize,
    Bool,
}

/// A value type: one of the string kinds, or a type known only by its name.
#[derive(Debug, PartialEq, Eq)]
pub enum Value {
    CString,
    String,
    Str,
    Custom(String),
}

/// The view of a [`Value`].
pub ghost enum ValueView {
    CString,
    String,
    Str,
    Custom(Seq<char>),
}

impl View for Value {
    type V = ValueView;

    open spec fn view(&self) -> ValueView {
        match self {
            Value::CString => ValueView::CString,
            Value::String => ValueView::String,
            Value::Str => ValueView::Str,
            Value::Custom(name) => ValueView::Custom(name@),
        }
    }
}

impl Clone for Value {
    fn clone(&self) -> (res: Value)
        ensures
            res@ == self@,
    {
        match self {
            Value::CString => Value::CString,
            Value::String => Value::String,
            Value::Str => Value::Str,
            Value::Custom(name) => Value::Custom(name.clone()),
        }
    }
}

/// The kind of a composite type.
#[derive(Debug, PartialEq, Eq)]
pub enum Composite {
    Vec,
    Array(usize),
    Tuple,
    Option,
    HashMap,
    BTreeMap,
    HashSet,
    BTreeSet,
    Decimal(u8),
    Custom(String),
}

/// The view of a [`Composite`].
pub ghost enum CompositeView {
    Vec,
    Array(usize),
    Tuple,
    Option,
    HashMap,
    BTreeMap,
    HashSet,
    BTreeSet,
    Decimal(u8),
    Custom(Seq<char>),
}

impl View for Composite {
    type V = CompositeView;

    open spec fn view(&self) -> CompositeView {
        match self {
            Composite::Vec => CompositeView::Vec,
            Composite::Array(len) => CompositeView::Array(*len),
            Composite::Tuple => CompositeView::Tuple,
            Composite::Option => CompositeView::Option,
            Composite::HashMap => CompositeView::HashMap,
            Composite::BTreeMap => CompositeView::BTreeMap,
            Composite::HashSet => CompositeView::HashSet,
            Composite::BTreeSet => CompositeView::BTreeSet,
            Composite::Decimal(precision) => CompositeView::Decimal(*precision),
            Composite::Custom(name) => CompositeView::Custom(name@),
        }
    }
}

impl Clone for Composite {
    fn clone(&self) -> (res: Composite)
        ensures
            res@ == self@,
    {
        match self {
            Composite::Vec => Composite::Vec,
            Composite::Array(len) => Composite::Array(*len),
            Composite::Tuple => Composite::Tuple,
            Composite::Option => Composite::Option,
            Composite::HashMap => Composite::HashMap,
            Composite::BTreeMap => Composite::BTreeMap,
            Composite::HashSet => Composite::HashSet,
            Composite::BTreeSet => Composite::BTreeSet,
            Composite::Decimal(precision) => Composite::Decimal(*precision),
            Composite::Custom(name) => Composite::Custom(name.clone()),
        }
    }
}

/// What a host type is.
#[derive(Debug, PartialEq, Eq)]
pub enum TypeKind {
    Primitive(Primitive),
    Value(Value),
    Composite(Composite, Vec<RustType>),
    Unit,
    Unknown,
}

/// A host type: the identifier it was written with, and its kind.
#[derive(Debug, PartialEq, Eq)]
pub struct RustType {
    pub ident: String,
    pub kind: TypeKind,
}

/// The view of a [`TypeKind`].
pub ghost enum TypeKindView {
    Primitive(Primitive),
    Value(ValueView),
    Composite(CompositeView, Seq<RustTypeView>),
    Unit,
    Unknown,
}

/// The view of a [`RustType`].
pub ghost struct RustTypeView {
    pub ident: Seq<char>,
    pub kind: TypeKindView,
}

/// The view of a kind: the same tree over sequences.
pub open spec fn kind_view(kind: TypeKind) -> TypeKindView
    decreases kind,
{
    match kind {
        TypeKind::Primitive(primitive) => TypeKindView::Primitive(primitive),
        TypeKind::Value(value) => TypeKindView::Value(value@),
        TypeKind::Composite(composite, inners) => TypeKindView::Composite(
            composite@,
            descriptor_views(inners@),
        ),
        TypeKind::Unit => TypeKindView::Unit,
        TypeKind::Unknown => TypeKindView::Unknown,
    }
}

/// The view of a host type.
pub open spec fn descriptor_view(rust_ty: RustType) -> RustTypeView
    decreases rust_ty,
{
    RustTypeView { ident: rust_ty.ident@, kind: kind_view(rust_ty.kind) }
}

impl View for TypeKind {
    type V = TypeKindView;

    open spec fn view(&self) -> TypeKindView {
        kind_view(*self)
    }
}

impl View for RustType {
    type V = RustTypeView;

    open spec fn view(&self) -> RustTypeView {
        descriptor_view(*self)
    }
}

/// The views of a list of host types, in the order of the list.
pub open spec fn descriptor_views(inners: Seq<RustType>) -> Seq<RustTypeView>
    decreases inners,
{
    if inners.len() == 0 {
        Seq::empty()
    } else {
        descriptor_views(inners.drop_last()).push(descriptor_view(inners.last()))
    }
}

/// `descriptor_views` keeps the length of the list and gives at each index
/// the view of the type at that index.
pub proof fn lemma_descriptor_views(inners: Seq<RustType>)
    ensures
        descriptor_views(inners).len() == inners.len(),
        forall|i: int| 0 <= i < inners.len() ==> #[trigger] descriptor_views(inners)[i] == inners[i]@,
    decreases inners.len(),
{
    if inners.len() > 0 {
        lemma_descriptor_views(inners.drop_last());
    }
}

impl Clone for TypeKind {
    fn clone(&self) -> (res: TypeKind)
        ensures
            res@ == self@,
        decreases self,
    {
        match self {
            TypeKind::Primitive(primitive) => TypeKind::Primitive(*primitive),
            TypeKind::Value(value) => TypeKind::Value(value.clone()),
            TypeKind::Composite(composite, inners) => {
                let mut copies: Vec<RustType> = Vec::new();
                let mut i: usize = 0;
                while i < inners.len()
                    invariant
                        i <= inners.len(),
                        copies.len() == i,
                        self is Composite && self->Composite_1 == *inners,
                        forall|j: int| 0 <= j < i ==> (#[trigger] copies[j])@ == inners[j]@,
                    decreases inners.len() - i,
                {
                    copies.push(inners[i].clone());
                    i += 1;
                }
                proof {
                    lemma_descriptor_views(inners@);
                    lemma_descriptor_views(copies@);
                    assert(descriptor_views(copies@) =~= descriptor_views(inners@));
                }
                TypeKind::Composite(composite.clone(), copies)
            },
            TypeKind::Unit => TypeKind::Unit,
            TypeKind::Unknown => TypeKind::Unknown,
        }
    }
}

impl Clone for RustType {
    fn clone(&self) -> (res: RustType)
        ensures
            res@ == self@,
        decreases self,
    {
        RustType { ident: self.ident.clone(), kind: self.kind.clone() }
    }
}

impl RustType {
    /// An owned type with this identifier and kind.
    pub fn owned(ident: &str, kind: TypeKind) -> (res: RustType)
        ensures
            res.ident@ == ident@,
            res.kind == kind,
    {
        RustType { ident: String::from_str(ident), kind }
    }

    /// An owned primitive.
    pub fn owned_primitive(ident: &str, primitive: Primitive) -> (res: RustType)
        ensures
            res@ == (RustTypeView { ident: ident@, kind: TypeKindView::Primitive(primitive) }),
    {
        RustType::owned(ident, TypeKind::Primitive(primitive))
    }

    /// An owned string.
    pub fn owned_string(ident: &str) -> (res: RustType)
        ensures
            res@ == (RustTypeView { ident: ident@, kind: TypeKindView::Value(ValueView::String) }),
    {
        RustType::owned(ident, TypeKind::Value(Value::String))
    }

    /// An owned value of the type that `value` names.
    pub fn owned_custom_value(ident: &str, value: &str) -> (res: RustType)
        ensures
            res@ == (RustTypeView {
                ident: ident@,
                kind: TypeKindView::Value(ValueView::Custom(value@)),
            }),
    {
        RustType::owned(ident, TypeKind::Value(Value::Custom(String::from_str(value))))
    }

    /// An owned composite of kind `composite` around one primitive, which
    /// goes by the identifier `inner`.
    fn owned_around_primitive(ident: &str, composite: Composite, primitive: Primitive) -> (res:
        RustType)
        ensures
            res@ == (RustTypeView {
                ident: ident@,
                kind: TypeKindView::Composite(
                    composite@,
                    seq![
                        RustTypeView { ident: "inner"@, kind: TypeKindView::Primitive(primitive) },
                    ],
                ),
            }),
    {
        let mut inners: Vec<RustType> = Vec::new();
        inners.push(RustType::owned_primitive("inner", primitive));
        proof {
            lemma_descriptor_views(inners@);
            assert(descriptor_views(inners@) =~= seq![
                RustTypeView { ident: "inner"@, kind: TypeKindView::Primitive(primitive) },
            ]);
        }
        RustType::owned(ident, TypeKind::Composite(composite, inners))
    }

    /// An owned sequence of a primitive, which goes by the identifier
    /// `inner`.
    pub fn owned_vec_primitive(ident: &str, primitive: Primitive) -> (res: RustType)
        ensures
            res@ == (RustTypeView {
                ident: ident@,
                kind: TypeKindView::Composite(
                    CompositeView::Vec,
                    seq![
                        RustTypeView { ident: "inner"@, kind: TypeKindView::Primitive(primitive) },
                    ],
                ),
            }),
    {
        RustType::owned_around_primitive(ident, Composite::Vec, primitive)
    }

    /// An owned array of `size` elements of a primitive, which goes by the
    /// identifier `inner`.
    pub fn owned_array_primitive(ident: &str, primitive: Primitive, size: usize) -> (res: RustType)
        ensures
            res@ == (RustTypeView {
                ident: ident@,
                kind: TypeKindView::Composite(
                    CompositeView::Array(size),
                    seq![
                        RustTypeView { ident: "inner"@, kind: TypeKindView::Primitive(primitive) },
                    ],
                ),
            }),
    {
        RustType::owned_around_primitive(ident, Composite::Array(size), primitive)
    }

    /// An owned optional primitive, which goes by the identifier `inner`.
    pub fn owned_option_primitive(ident: &str, primitive: Primitive) -> (res: RustType)
        ensures
            res@ == (RustTypeView {
                ident: ident@,
                kind: TypeKindView::Composite(
                    CompositeView::Option,
                    seq![
                        RustTypeView { ident: "inner"@, kind: TypeKindView::Primitive(primitive) },
                    ],
                ),
            }),
    {
        RustType::owned_around_primitive(ident, Composite::Option, primitive)
    }
}

/// A marker that a struct field carries.
#[derive(Debug, PartialEq, Eq)]
pub enum StructFieldAttr {
    /// The field pads the struct.
    Padding,
    /// The field is described as this type instead of its declared one.
    IdlType(RustType),
    /// The field is described under this name.
    IdlName(String),
    /// The field is left out.
    Skip,
}

/// The view of a [`StructFieldAttr`].
pub ghost enum StructFieldAttrView {
    Padding,
    IdlType(RustTypeView),
    IdlName(Seq<char>),
    Skip,
}

impl View for StructFieldAttr {
    type V = StructFieldAttrView;

    open spec fn view(&self) -> StructFieldAttrView {
        match self {
            StructFieldAttr::Padding => StructFieldAttrView::Padding,
            StructFieldAttr::IdlType(rust_ty) => StructFieldAttrView::IdlType(rust_ty@),
            StructFieldAttr::IdlName(name) => StructFieldAttrView::IdlName(name@),
            StructFieldAttr::Skip => StructFieldAttrView::Skip,
        }
    }
}

impl Clone for StructFieldAttr {
    fn clone(&self) -> (res: StructFieldAttr)
        ensures
            res@ == self@,
    {
        match self {
            StructFieldAttr::Padding => StructFieldAttr::Padding,
            StructFieldAttr::IdlType(rust_ty) => StructFieldAttr::IdlType(rust_ty.clone()),
            StructFieldAttr::IdlName(name) => StructFieldAttr::IdlName(name.clone()),
            StructFieldAttr::Skip => StructFieldAttr::Skip,
        }
    }
}

/// The text under which a marker is listed.
pub open spec fn attr_text(attr: StructFieldAttrView) -> Seq<char> {
    match attr {
        StructFieldAttrView::Padding => "padding"@,
        StructFieldAttrView::IdlType(_) => "idl-type"@,
        StructFieldAttrView::IdlName(_) => "idl-name"@,
        StructFieldAttrView::Skip => "skip"@,
    }
}

impl StructFieldAttr {
    /// The text under which this marker is listed.
    pub fn text(&self) -> (text: String)
        ensures
            text@ == attr_text(self@),
    {
        match self {
            StructFieldAttr::Padding => String::from_str("padding"),
            StructFieldAttr::IdlType(_) => String::from_str("idl-type"),
            StructFieldAttr::IdlName(_) => String::from_str("idl-name"),
            StructFieldAttr::Skip => String::from_str("skip"),
        }
    }
}

/// A field of a struct: its identifier, its declared type and its markers
/// in the order of their declaration.
#[derive(Debug)]
pub struct StructField {
    pub ident: String,
    pub rust_type: RustType,
    pub attrs: Vec<StructFieldAttr>,
}

/// The view of a [`StructField`].
pub ghost struct StructFieldView {
    pub ident: Seq<char>,
    pub rust_type: RustTypeView,
    pub attrs: Seq<StructFieldAttrView>,
}

impl View for StructField {
    type V = StructFieldView;

    open spec fn view(&self) -> StructFieldView {
        StructFieldView {
            ident: self.ident@,
            rust_type: self.rust_type@,
            attrs: self.attrs@.map_values(|attr: StructFieldAttr| attr@),
        }
    }
}

impl Clone for StructField {
    fn clone(&self) -> (res: StructField)
        ensures
            res@ == self@,
    {
        let mut attrs: Vec<StructFieldAttr> = Vec::new();
        let mut i: usize = 0;
        while i < self.attrs.len()
            invariant
                i <= self.attrs.len(),
                attrs.len() == i,
                forall|j: int| 0 <= j < i ==> (#[trigger] attrs[j])@ == self.attrs[j]@,
            decreases self.attrs.len() - i,
        {
            attrs.push(self.attrs[i].clone());
            i += 1;
        }
        assert(attrs@.map_values(|attr: StructFieldAttr| attr@) =~= self.attrs@.map_values(
            |attr: StructFieldAttr| attr@,
        ));
        StructField { ident: self.ident.clone(), rust_type: self.rust_type.clone(), attrs }
    }
}

/// The type that the first type-override marker of `attrs` names, if there
/// is such a marker.
pub open spec fn type_override(attrs: Seq<StructFieldAttrView>) -> Option<RustTypeView>
    decreases attrs.len(),
{
    if attrs.len() == 0 {
        None
    } else {
        match attrs.first() {
            StructFieldAttrView::IdlType(rust_ty) => Some(rust_ty),
            _ => type_override(attrs.drop_first()),
        }
    }
}

impl StructField {
    /// The type that overrides the declared one: that of the first
    /// type-override marker.
    pub fn type_override(&self) -> (res: Option<&RustType>)
        ensures
            match res {
                Some(rust_ty) => type_override(self@.attrs) == Some(rust_ty@),
                None => type_override(self@.attrs) is None,
            },
    {
        let ghost attrs = self@.attrs;
        let mut i: usize = 0;
        assert(attrs.subrange(0, attrs.len() as int) =~= attrs);
        while i < self.attrs.len()
            invariant
                i <= self.attrs.len(),
                attrs == self@.attrs,
                attrs.len() == self.attrs.len(),
                type_override(attrs) == type_override(attrs.subrange(i as int, attrs.len() as int)),
            decreases self.attrs.len() - i,
        {
            let ghost rest = attrs.subrange(i as int, attrs.len() as int);
            assert(rest.first() == self.attrs[i as int]@);
            assert(rest.drop_first() =~= attrs.subrange(i + 1, attrs.len() as int));
            if let StructFieldAttr::IdlType(rust_ty) = &self.attrs[i] {
                return Some(rust_ty);
            }
            i += 1;
        }
        assert(attrs.subrange(i as int, attrs.len() as int).len() == 0);
        None
    }
}

} // verus!
