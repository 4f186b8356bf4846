//! The interface-description type tree and the translation of host types
//! into it.

use crate::descriptor::{
    descriptor_views, lemma_descriptor_views, Composite, CompositeView, Primitive, RustType, RustTypeView, TypeKind, TypeKindView, Value,
    ValueView,
};
use crate::error::TranslationError;
use vstd::prelude::*;
use vstd::string::*;

verus! {

/// A type as a consumer of the interface description sees it.
#[derive(Debug, PartialEq)]
pub enum IdlType {
    Array(Box<IdlType>, usize),
    Bool,
    Bytes,
    Defined(String),
    I128,
    I16,
    I32,
    I64,
    I8,
    Option(Box<IdlType>),
    Tuple(Vec<IdlType>),
    PublicKey,
    String,
    U128,
    U16,
    U32,
    U64,
    U8,
    Vec(Box<IdlType>),
    HashMap(Box<IdlType>, Box<IdlType>),
    BTreeMap(Box<IdlType>, Box<IdlType>),
    HashSet(Box<IdlType>),
    BTreeSet(Box<IdlType>),
}

/// The view of an [`IdlType`]: the same tree over sequences.
pub ghost enum IdlTypeView {
    Array(Box<IdlTypeView>, usize),
    Bool,
    Bytes,
    Defined(Seq<char>),
    I128,
    I16,
    I32,
    I64,
    I8,
    Option(Box<IdlTypeView>),
    Tuple(Seq<IdlTypeView>),
    PublicKey,
    String,
    U128,
    U16,
    U32,
    U64,
    U8,
    Vec(Box<IdlTypeView>),
    HashMap(Box<IdlTypeView>, Box<IdlTypeView>),
    BTreeMap(Box<IdlTypeView>, Box<IdlTypeView>),
    HashSet(Box<IdlTypeView>),
    BTreeSet(Box<IdlTypeView>),
}

/// The view of a type: the same tree over sequences.
pub open spec fn idl_view(idl_ty: IdlType) -> IdlTypeView
    decreases idl_ty,
{
    match idl_ty {
        IdlType::Array(elem, len) => IdlTypeView::Array(Box::new(idl_view(*elem)), len),
        IdlType::Bool => IdlTypeView::Bool,
        IdlType::Bytes => IdlTypeView::Bytes,
        IdlType::Defined(name) => IdlTypeView::Defined(name@),
        IdlType::I128 => IdlTypeView::I128,
        IdlType::I16 => IdlTypeView::I16,
        IdlType::I32 => IdlTypeView::I32,
        IdlType::I64 => IdlTypeView::I64,
        IdlType::I8 => IdlTypeView::I8,
        IdlType::Option(elem) => IdlTypeView::Option(Box::new(idl_view(*elem))),
        IdlType::Tuple(elems) => IdlTypeView::Tuple(type_views(elems@)),
        IdlType::PublicKey => IdlTypeView::PublicKey,
        IdlType::String => IdlTypeView::String,
        IdlType::U128 => IdlTypeView::U128,
        IdlType::U16 => IdlTypeView::U16,
        IdlType::U32 => IdlTypeView::U32,
        IdlType::U64 => IdlTypeView::U64,
        IdlType::U8 => IdlTypeView::U8,
        IdlType::Vec(elem) => IdlTypeView::Vec(Box::new(idl_view(*elem))),
        IdlType::HashMap(key, val) => IdlTypeView::HashMap(
            Box::new(idl_view(*key)),
            Box::new(idl_view(*val)),
        ),
        IdlType::BTreeMap(key, val) => IdlTypeView::BTreeMap(
            Box::new(idl_view(*key)),
            Box::new(idl_view(*val)),
        ),
        IdlType::HashSet(elem) => IdlTypeView::HashSet(Box::new(idl_view(*elem))),
        IdlType::BTreeSet(elem) => IdlTypeView::BTreeSet(Box::new(idl_view(*elem))),
    }
}

impl View for IdlType {
    type V = IdlTypeView;

    open spec fn view(&self) -> IdlTypeView {
        idl_view(*self)
    }
}

/// The scalar that a primitive becomes. The pointer-sized integer becomes
/// the unsigned 64-bit scalar, whatever the width of the host.
pub open spec fn primitive_type(primitive: Primitive) -> IdlTypeView {
    match primitive {
        Primitive::U8 => IdlTypeView::U8,
        Primitive::I8 => IdlTypeView::I8,
        Primitive::U16 => IdlTypeView::U16,
        Primitive::I16 => IdlTypeView::I16,
        Primitive::U32 => IdlTypeView::U32,
        Primitive::I32 => IdlTypeView::I32,
        Primitive::U64 => IdlTypeView::U64,
        Primitive::I64 => IdlTypeView::I64,
        Primitive::U128 => IdlTypeView::U128,
        Primitive::I128 => IdlTypeView::I128,
        Primitive::USize => IdlTypeView::U64,
        Primitive::Bool => IdlTypeView::Bool,
    }
}

/// Whether an integer primitive of a fixed width is signed, and its width
/// in bits. The boolean and the pointer-sized integer have no such shape.
pub open spec fn integer_shape(primitive: Primitive) -> Option<(bool, nat)> {
    match primitive {
        Primitive::U8 => Some((false, 8nat)),
        Primitive::I8 => Some((true, 8nat)),
        Primitive::U16 => Some((false, 16nat)),
        Primitive::I16 => Some((true, 16nat)),
        Primitive::U32 => Some((false, 32nat)),
        Primitive::I32 => Some((true, 32nat)),
        Primitive::U64 => Some((false, 64nat)),
        Primitive::I64 => Some((true, 64nat)),
        Primitive::U128 => Some((false, 128nat)),
        Primitive::I128 => Some((true, 128nat)),
        Primitive::USize => None,
        Primitive::Bool => None,
    }
}

/// The integer scalar of the given signedness and width, for a width of 8,
/// 16, 32, 64 or 128 bits.
pub open spec fn integer_scalar(signed: bool, bits: nat) -> IdlTypeView {
    if bits == 8 {
        if signed {
            IdlTypeView::I8
        } else {
            IdlTypeView::U8
        }
    } else if bits == 16 {
        if signed {
            IdlTypeView::I16
        } else {
            IdlTypeView::U16
        }
    } else if bits == 32 {
        if signed {
            IdlTypeView::I32
        } else {
            IdlTypeView::U32
        }
    } else if bits == 64 {
        if signed {
            IdlTypeView::I64
        } else {
            IdlTypeView::U64
        }
    } else {
        if signed {
            IdlTypeView::I128
        } else {
            IdlTypeView::U128
        }
    }
}

/// The name under which the platform's public-key type is written.
pub open spec fn public_key_name() -> Seq<char> {
    "Pubkey"@
}

/// The type that a value becomes: the string kinds become the string
/// scalar, the public-key name the public-key scalar, and any other name a
/// reference to a type defined elsewhere.
pub open spec fn value_type(value: ValueView) -> IdlTypeView {
    match value {
        ValueView::CString | ValueView::String | ValueView::Str => IdlTypeView::String,
        ValueView::Custom(name) => if name == public_key_name() {
            IdlTypeView::PublicKey
        } else {
            IdlTypeView::Defined(name)
        },
    }
}

/// The sequence type with this element: a sequence of bytes has a variant
/// of its own.
pub open spec fn sequence_type(elem: IdlTypeView) -> IdlTypeView {
    if elem == IdlTypeView::U8 {
        IdlTypeView::Bytes
    } else {
        IdlTypeView::Vec(Box::new(elem))
    }
}

/// The translation of a host type, or the reason why it has none.
pub open spec fn translation(rust_ty: RustTypeView) -> Result<IdlTypeView, TranslationError>
    decreases rust_ty, 0nat,
{
    match rust_ty.kind {
        TypeKindView::Primitive(primitive) => Ok(primitive_type(primitive)),
        TypeKindView::Value(value) => Ok(value_type(value)),
        TypeKindView::Composite(composite, inners) => match composite {
            CompositeView::Vec => if inners.len() < 1 {
                Err(TranslationError::VecNeedsInner)
            } else {
                match translation(inners[0]) {
                    Ok(elem) => Ok(sequence_type(elem)),
                    Err(error) => Err(error),
                }
            },
            CompositeView::Array(len) => if inners.len() < 1 {
                Err(TranslationError::ArrayNeedsInner)
            } else {
                match translation(inners[0]) {
                    Ok(elem) => Ok(IdlTypeView::Array(Box::new(elem), len)),
                    Err(error) => Err(error),
                }
            },
            CompositeView::Option => if inners.len() < 1 {
                Err(TranslationError::OptionNeedsInner)
            } else {
                match translation(inners[0]) {
                    Ok(elem) => Ok(IdlTypeView::Option(Box::new(elem))),
                    Err(error) => Err(error),
                }
            },
            CompositeView::Tuple => if inners.len() < 2 {
                Err(TranslationError::TupleNeedsTwo)
            } else {
                match translations(inners) {
                    Ok(elems) => Ok(IdlTypeView::Tuple(elems)),
                    Err(error) => Err(error),
                }
            },
            CompositeView::HashMap => if inners.len() < 2 {
                Err(TranslationError::HashMapNeedsTwo)
            } else {
                match translation(inners[0]) {
                    Ok(key) => match translation(inners[1]) {
                        Ok(val) => Ok(IdlTypeView::HashMap(Box::new(key), Box::new(val))),
                        Err(error) => Err(error),
                    },
                    Err(error) => Err(error),
                }
            },
            CompositeView::BTreeMap => if inners.len() < 2 {
                Err(TranslationError::BTreeMapNeedsTwo)
            } else {
                match translation(inners[0]) {
                    Ok(key) => match translation(inners[1]) {
                        Ok(val) => Ok(IdlTypeView::BTreeMap(Box::new(key), Box::new(val))),
                        Err(error) => Err(error),
                    },
                    Err(error) => Err(error),
                }
            },
            CompositeView::HashSet => if inners.len() < 1 {
                Err(TranslationError::HashSetNeedsInner)
            } else {
                match translation(inners[0]) {
                    Ok(elem) => Ok(IdlTypeView::HashSet(Box::new(elem))),
                    Err(error) => Err(error),
                }
            },
            CompositeView::BTreeSet => if inners.len() < 1 {
                Err(TranslationError::BTreeSetNeedsInner)
            } else {
                match translation(inners[0]) {
                    Ok(elem) => Ok(IdlTypeView::BTreeSet(Box::new(elem))),
                    Err(error) => Err(error),
                }
            },
            CompositeView::Decimal(_) => if inners.len() == 1 {
                translation(inners[0])
            } else {
                Err(TranslationError::DecimalArity(inners.len() as usize))
            },
            CompositeView::Custom(_) => Err(TranslationError::CustomComposite),
        },
        TypeKindView::Unit => Err(TranslationError::Unit),
        TypeKindView::Unknown => Err(TranslationError::Unknown),
    }
}

/// The translations of `inners`, in their order, or the failure of the
/// first of them that has none.
pub open spec fn translations(inners: Seq<RustTypeView>) -> Result<
    Seq<IdlTypeView>,
    TranslationError,
>
    decreases inners, 1nat,
{
    if inners.len() == 0 {
        Ok(Seq::empty())
    } else {
        match translations(inners.drop_last()) {
            Ok(elems) => match translation(inners.last()) {
                Ok(elem) => Ok(elems.push(elem)),
                Err(error) => Err(error),
            },
            Err(error) => Err(error),
        }
    }
}


/// The views of a list of types, in the order of the list.
pub open spec fn type_views(elems: Seq<IdlType>) -> Seq<IdlTypeView>
    decreases elems,
{
    if elems.len() == 0 {
        Seq::empty()
    } else {
        type_views(elems.drop_last()).push(idl_view(elems.last()))
    }
}

/// `type_views` keeps the length of the list and gives at each index the
/// view of the type at that index.
pub proof fn lemma_type_views(elems: Seq<IdlType>)
    ensures
        type_views(elems).len() == elems.len(),
        forall|i: int| 0 <= i < elems.len() ==> #[trigger] type_views(elems)[i] == elems[i]@,
    decreases elems.len(),
{
    if elems.len() > 0 {
        lemma_type_views(elems.drop_last());
    }
}

/// What a translation returned, over views.
pub open spec fn outcome(res: Result<IdlType, TranslationError>) -> Result<
    IdlTypeView,
    TranslationError,
> {
    match res {
        Ok(idl_ty) => Ok(idl_ty@),
        Err(error) => Err(error),
    }
}

/// `translations` succeeds exactly when every element translates, and then
/// gives the translations in the order of the elements.
pub proof fn lemma_translations_ok(inners: Seq<RustTypeView>, elems: Seq<IdlTypeView>)
    ensures
        translations(inners) == Ok::<Seq<IdlTypeView>, TranslationError>(elems) <==> {
            &&& elems.len() == inners.len()
            &&& forall|i: int|
                0 <= i < inners.len() ==> translation(#[trigger] inners[i]) == Ok::<
                    IdlTypeView,
                    TranslationError,
                >(elems[i])
        },
    decreases inners.len(),
{
    if inners.len() == 0 {
        assert(elems.len() == 0 ==> elems =~= Seq::empty());
    } else {
        let front = inners.drop_last();
        lemma_translations_ok(front, elems.drop_last());
        if translations(inners) == Ok::<Seq<IdlTypeView>, TranslationError>(elems) {
            let done = translations(front)->Ok_0;
            let last = translation(inners.last())->Ok_0;
            assert(elems == done.push(last));
            assert(elems.drop_last() =~= done);
            assert forall|i: int| 0 <= i < inners.len() implies translation(
                #[trigger] inners[i],
            ) == Ok::<IdlTypeView, TranslationError>(elems[i]) by {
                if i < front.len() {
                    assert(front[i] == inners[i]);
                }
            }
        }
        if elems.len() == inners.len() && (forall|i: int|
            0 <= i < inners.len() ==> translation(#[trigger] inners[i]) == Ok::<
                IdlTypeView,
                TranslationError,
            >(elems[i])) {
            assert forall|i: int| 0 <= i < front.len() implies translation(#[trigger] front[i])
                == Ok::<IdlTypeView, TranslationError>(elems.drop_last()[i]) by {
                assert(front[i] == inners[i]);
            }
            assert(translation(inners.last()) == Ok::<IdlTypeView, TranslationError>(
                elems.last(),
            ));
            assert(elems.drop_last().push(elems.last()) =~= elems);
        }
    }
}

/// `translations` fails with the failure of the first element that does not
/// translate.
pub proof fn lemma_translations_err(inners: Seq<RustTypeView>, at: int)
    requires
        0 <= at < inners.len(),
        translation(inners[at]) is Err,
        forall|i: int| 0 <= i < at ==> translation(#[trigger] inners[i]) is Ok,
    ensures
        translations(inners) == Err::<Seq<IdlTypeView>, TranslationError>(
            translation(inners[at])->Err_0,
        ),
    decreases inners.len(),
{
    let front = inners.drop_last();
    if at == inners.len() - 1 {
        let elems = Seq::new(front.len(), |i: int| translation(inners[i])->Ok_0);
        lemma_translations_ok(front, elems);
        assert forall|i: int| 0 <= i < front.len() implies translation(#[trigger] front[i])
            == Ok::<IdlTypeView, TranslationError>(elems[i]) by {
            assert(front[i] == inners[i]);
            assert(translation(inners[i]) is Ok);
        }
    } else {
        assert(front[at] == inners[at]);
        assert forall|i: int| 0 <= i < at implies translation(#[trigger] front[i]) is Ok by {
            assert(front[i] == inners[i]);
        }
        lemma_translations_err(front, at);
    }
}

/// A primitive always translates: an integer of a fixed width to the scalar
/// of its width and signedness, the boolean to the boolean scalar, and the
/// pointer-sized integer to the unsigned 64-bit scalar.
pub proof fn lemma_primitive_translation(rust_ty: RustTypeView, primitive: Primitive)
    requires
        rust_ty.kind == TypeKindView::Primitive(primitive),
    ensures
        translation(rust_ty) == Ok::<IdlTypeView, TranslationError>(primitive_type(primitive)),
        integer_shape(primitive) matches Some((signed, bits)) ==> primitive_type(primitive)
            == integer_scalar(signed, bits),
        primitive == Primitive::Bool ==> primitive_type(primitive) == IdlTypeView::Bool,
        primitive == Primitive::USize ==> primitive_type(primitive) == IdlTypeView::U64,
{
}

/// A sequence whose element translates to the unsigned 8-bit scalar becomes
/// the byte buffer; a sequence whose element translates to anything else
/// becomes the sequence of that translation.
pub proof fn lemma_sequence_translation(rust_ty: RustTypeView, elem: IdlTypeView)
    requires
        rust_ty.kind matches TypeKindView::Composite(CompositeView::Vec, inners) && inners.len()
            >= 1 && translation(inners[0]) == Ok::<IdlTypeView, TranslationError>(elem),
    ensures
        elem == IdlTypeView::U8 ==> translation(rust_ty) == Ok::<IdlTypeView, TranslationError>(
            IdlTypeView::Bytes,
        ),
        elem != IdlTypeView::U8 ==> translation(rust_ty) == Ok::<IdlTypeView, TranslationError>(
            IdlTypeView::Vec(Box::new(elem)),
        ),
{
}

/// A value known by its name becomes the public-key scalar if the name is
/// that of the public-key type, and else a reference to a defined type that
/// carries the name unchanged.
pub proof fn lemma_named_value_translation(rust_ty: RustTypeView, name: Seq<char>)
    requires
        rust_ty.kind == TypeKindView::Value(ValueView::Custom(name)),
    ensures
        name == public_key_name() ==> translation(rust_ty) == Ok::<IdlTypeView, TranslationError>(
            IdlTypeView::PublicKey,
        ),
        name != public_key_name() ==> translation(rust_ty) == Ok::<IdlTypeView, TranslationError>(
            IdlTypeView::Defined(name),
        ),
{
}

/// A tuple of fewer than two types does not translate. A tuple of two or
/// more types that all translate becomes the tuple of their translations,
/// as many as there are types and in their order.
pub proof fn lemma_tuple_translation(rust_ty: RustTypeView, inners: Seq<RustTypeView>)
    requires
        rust_ty.kind == TypeKindView::Composite(CompositeView::Tuple, inners),
    ensures
        inners.len() < 2 ==> translation(rust_ty) == Err::<IdlTypeView, TranslationError>(
            TranslationError::TupleNeedsTwo,
        ),
        inners.len() >= 2 && (forall|i: int|
            0 <= i < inners.len() ==> translation(#[trigger] inners[i]) is Ok) ==> {
            &&& translation(rust_ty) matches Ok(IdlTypeView::Tuple(elems))
            &&& elems.len() == inners.len()
            &&& forall|i: int|
                0 <= i < inners.len() ==> translation(inners[i]) == Ok::<
                    IdlTypeView,
                    TranslationError,
                >(#[trigger] elems[i])
        },
{
    if inners.len() >= 2 && (forall|i: int|
        0 <= i < inners.len() ==> translation(#[trigger] inners[i]) is Ok) {
        let elems = Seq::new(inners.len(), |i: int| translation(inners[i])->Ok_0);
        lemma_translations_ok(inners, elems);
    }
}

/// A fixed-point decimal around exactly one type translates as that type
/// does, whatever its precision; around no type or around several, it does
/// not translate.
pub proof fn lemma_decimal_translation(
    rust_ty: RustTypeView,
    precision: u8,
    inners: Seq<RustTypeView>,
)
    requires
        rust_ty.kind == TypeKindView::Composite(CompositeView::Decimal(precision), inners),
    ensures
        inners.len() == 1 ==> translation(rust_ty) == translation(inners[0]),
        inners.len() != 1 ==> translation(rust_ty) == Err::<IdlTypeView, TranslationError>(
            TranslationError::DecimalArity(inners.len() as usize),
        ),
{
}

/// Two translations of host types with the same view give the same result.
pub proof fn lemma_translate_deterministic(
    first: RustType,
    second: RustType,
    first_res: Result<IdlType, TranslationError>,
    second_res: Result<IdlType, TranslationError>,
)
    requires
        first@ == second@,
        outcome(first_res) == translation(first@),
        outcome(second_res) == translation(second@),
    ensures
        outcome(first_res) == outcome(second_res),
{
}

/// Whether `name` is the name of the platform's public-key type.
fn is_public_key_name(name: &String) -> (res: bool)
    ensures
        res == (name@ == public_key_name()),
{
    let key = String::from_str("Pubkey");
    name.eq(&key)
}

impl IdlType {
    /// Translates a host type. A failure anywhere inside it fails the whole
    /// translation.
    pub fn translate(rust_ty: &RustType) -> (res: Result<IdlType, TranslationError>)
        ensures
            outcome(res) == translation(rust_ty@),
        decreases rust_ty, 0nat,
    {
        match &rust_ty.kind {
            TypeKind::Primitive(primitive) => Ok(
                match primitive {
                    Primitive::U8 => IdlType::U8,
                    Primitive::I8 => IdlType::I8,
                    Primitive::U16 => IdlType::U16,
                    Primitive::I16 => IdlType::I16,
                    Primitive::U32 => IdlType::U32,
                    Primitive::I32 => IdlType::I32,
                    Primitive::U64 => IdlType::U64,
                    Primitive::I64 => IdlType::I64,
                    Primitive::U128 => IdlType::U128,
                    Primitive::I128 => IdlType::I128,
                    Primitive::USize => IdlType::U64,
                    Primitive::Bool => IdlType::Bool,
                },
            ),
            TypeKind::Value(value) => Ok(
                match value {
                    Value::CString | Value::String | Value::Str => IdlType::String,
                    Value::Custom(name) => {
                        if is_public_key_name(name) {
                            IdlType::PublicKey
                        } else {
                            IdlType::Defined(name.clone())
                        }
                    },
                },
            ),
            TypeKind::Composite(composite, inners) => {
                proof {
                    lemma_descriptor_views(inners@);
                }
                match composite {
                    Composite::Vec => {
                        if inners.len() < 1 {
                            return Err(TranslationError::VecNeedsInner);
                        }
                        let elem = Self::translate(&inners[0])?;
                        if let IdlType::U8 = elem {
                            Ok(IdlType::Bytes)
                        } else {
                            Ok(IdlType::Vec(Box::new(elem)))
                        }
                    },
                    Composite::Array(len) => {
                        if inners.len() < 1 {
                            return Err(TranslationError::ArrayNeedsInner);
                        }
                        let elem = Self::translate(&inners[0])?;
                        Ok(IdlType::Array(Box::new(elem), *len))
                    },
                    Composite::Option => {
                        if inners.len() < 1 {
                            return Err(TranslationError::OptionNeedsInner);
                        }
                        let elem = Self::translate(&inners[0])?;
                        Ok(IdlType::Option(Box::new(elem)))
                    },
                    Composite::Tuple => {
                        if inners.len() < 2 {
                            return Err(TranslationError::TupleNeedsTwo);
                        }
                        let elems = Self::translate_each(inners)?;
                        Ok(IdlType::Tuple(elems))
                    },
                    Composite::HashMap => {
                        if inners.len() < 2 {
                            return Err(TranslationError::HashMapNeedsTwo);
                        }
                        let key = Self::translate(&inners[0])?;
                        let val = Self::translate(&inners[1])?;
                        Ok(IdlType::HashMap(Box::new(key), Box::new(val)))
                    },
                    Composite::BTreeMap => {
                        if inners.len() < 2 {
                            return Err(TranslationError::BTreeMapNeedsTwo);
                        }
                        let key = Self::translate(&inners[0])?;
                        let val = Self::translate(&inners[1])?;
                        Ok(IdlType::BTreeMap(Box::new(key), Box::new(val)))
                    },
                    Composite::HashSet => {
                        if inners.len() < 1 {
                            return Err(TranslationError::HashSetNeedsInner);
                        }
                        let elem = Self::translate(&inners[0])?;
                        Ok(IdlType::HashSet(Box::new(elem)))
                    },
                    Composite::BTreeSet => {
                        if inners.len() < 1 {
                            return Err(TranslationError::BTreeSetNeedsInner);
                        }
                        let elem = Self::translate(&inners[0])?;
                        Ok(IdlType::BTreeSet(Box::new(elem)))
                    },
                    Composite::Decimal(_) => {
                        if inners.len() == 1 {
                            Self::translate(&inners[0])
                        } else {
                            Err(TranslationError::DecimalArity(inners.len()))
                        }
                    },
                    Composite::Custom(_) => Err(TranslationError::CustomComposite),
                }
            },
            TypeKind::Unit => Err(TranslationError::Unit),
            TypeKind::Unknown => Err(TranslationError::Unknown),
        }
    }

    /// Translates each of `inners` in order and stops at the first failure.
    fn translate_each(inners: &Vec<RustType>) -> (res: Result<Vec<IdlType>, TranslationError>)
        ensures
            match res {
                Ok(elems) => translations(descriptor_views(inners@)) == Ok::<
                    Seq<IdlTypeView>,
                    TranslationError,
                >(type_views(elems@)),
                Err(error) => translations(descriptor_views(inners@)) == Err::<
                    Seq<IdlTypeView>,
                    TranslationError,
                >(error),
            },
        decreases inners, 1nat,
    {
        let ghost views = descriptor_views(inners@);
        proof {
            lemma_descriptor_views(inners@);
        }
        let mut elems: Vec<IdlType> = Vec::new();
        let mut i: usize = 0;
        while i < inners.len()
            invariant
                i <= inners.len(),
                elems.len() == i,
                views == descriptor_views(inners@),
                views.len() == inners.len(),
                forall|j: int| 0 <= j < inners.len() ==> #[trigger] views[j] == inners[j]@,
                forall|j: int|
                    0 <= j < i ==> translation(#[trigger] views[j]) == Ok::<
                        IdlTypeView,
                        TranslationError,
                    >(elems[j]@),
            decreases inners.len() - i,
        {
            match Self::translate(&inners[i]) {
                Ok(elem) => {
                    elems.push(elem);
                },
                Err(error) => {
                    proof {
                        lemma_translations_err(views, i as int);
                    }
                    return Err(error);
                },
            }
            i += 1;
        }
        proof {
            lemma_type_views(elems@);
            lemma_translations_ok(views, type_views(elems@));
        }
        Ok(elems)
    }
}

impl Clone for IdlType {
    fn clone(&self) -> (res: IdlType)
        ensures
            res@ == self@,
        decreases self,
    {
        match self {
            IdlType::Array(elem, len) => IdlType::Array(Box::new((**elem).clone()), *len),
            IdlType::Bool => IdlType::Bool,
            IdlType::Bytes => IdlType::Bytes,
            IdlType::Defined(name) => IdlType::Defined(name.clone()),
            IdlType::I128 => IdlType::I128,
            IdlType::I16 => IdlType::I16,
            IdlType::I32 => IdlType::I32,
            IdlType::I64 => IdlType::I64,
            IdlType::I8 => IdlType::I8,
            IdlType::Option(elem) => IdlType::Option(Box::new((**elem).clone())),
            IdlType::Tuple(elems) => {
                let mut copies: Vec<IdlType> = Vec::new();
                let mut i: usize = 0;
                while i < elems.len()
                    invariant
                        i <= elems.len(),
                        copies.len() == i,
                        self is Tuple && self->Tuple_0 == *elems,
                        forall|j: int| 0 <= j < i ==> (#[trigger] copies[j])@ == elems[j]@,
                    decreases elems.len() - i,
                {
                    copies.push(elems[i].clone());
                    i += 1;
                }
                proof {
                    lemma_type_views(elems@);
                    lemma_type_views(copies@);
                    assert(type_views(copies@) =~= type_views(elems@));
                }
                IdlType::Tuple(copies)
            },
            IdlType::PublicKey => IdlType::PublicKey,
            IdlType::String => IdlType::String,
            IdlType::U128 => IdlType::U128,
            IdlType::U16 => IdlType::U16,
            IdlType::U32 => IdlType::U32,
            IdlType::U64 => IdlType::U64,
            IdlType::U8 => IdlType::U8,
            IdlType::Vec(elem) => IdlType::Vec(Box::new((**elem).clone())),
            IdlType::HashMap(key, val) => IdlType::HashMap(
                Box::new((**key).clone()),
                Box::new((**val).clone()),
            ),
            IdlType::BTreeMap(key, val) => IdlType::BTreeMap(
                Box::new((**key).clone()),
                Box::new((**val).clone()),
            ),
            IdlType::HashSet(elem) => IdlType::HashSet(Box::new((**elem).clone())),
            IdlType::BTreeSet(elem) => IdlType::BTreeSet(Box::new((**elem).clone())),
        }
    }
}

impl TryFrom<RustType> for IdlType {
    type Error = TranslationError;

    /// Translates a host type. A failure anywhere inside it fails the whole
    /// translation.
    fn try_from(rust_ty: RustType) -> (res: Result<IdlType, TranslationError>)
        ensures
            outcome(res) == translation(rust_ty@),
    {
        IdlType::translate(&rust_ty)
    }
}

/// The conversion is specified over views, by the `ensures` of `try_from`:
/// which tree of the many with the same view comes back is left open.
impl vstd::std_specs::convert::TryFromSpecImpl<RustType> for IdlType {
    open spec fn obeys_try_from_spec() -> bool {
        false
    }

    open spec fn try_from_spec(rust_ty: RustType) -> Result<IdlType, TranslationError> {
        choose|res: Result<IdlType, TranslationError>| outcome(res) == translation(rust_ty@)
    }
}

} // verus!
