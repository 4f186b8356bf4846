//! The field record of the interface description and its derivation from a
//! struct field.

use crate::descriptor::{
    attr_text, type_override, Composite, CompositeView, RustType, RustTypeView, StructField,
    StructFieldView, TypeKind, TypeKindView,
};
use crate::error::TranslationError;
use crate::idl_type::{translation, IdlType, IdlTypeView};
use crate::text::{decimal_digits, decimal_string};
use heck::MixedCase;
use vstd::prelude::*;
use vstd::string::*;

verus! {

/// A field as a consumer of the interface description sees it. `attrs` and
/// `docs` are absent, never empty, when there is nothing to list.
#[derive(Debug, PartialEq)]
pub struct IdlField {
    pub name: String,
    pub ty: IdlType,
    pub attrs: Option<Vec<String>>,
    pub docs: Option<Vec<String>>,
}

/// The view of an [`IdlField`].
pub ghost struct IdlFieldView {
    pub name: Seq<char>,
    pub ty: IdlTypeView,
    pub attrs: Option<Seq<Seq<char>>>,
    pub docs: Option<Seq<Seq<char>>>,
}

impl IdlFieldView {
    /// Neither list is present and empty.
    pub open spec fn well_formed(self) -> bool {
        &&& self.attrs matches Some(attrs) ==> attrs.len() > 0
        &&& self.docs matches Some(docs) ==> docs.len() > 0
    }
}

/// The view of an optional list of lines.
pub open spec fn lines_view(lines: Option<Vec<String>>) -> Option<Seq<Seq<char>>> {
    match lines {
        Some(lines) => Some(lines@.map_values(|line: String| line@)),
        None => None,
    }
}

impl View for IdlField {
    type V = IdlFieldView;

    open spec fn view(&self) -> IdlFieldView {
        IdlFieldView {
            name: self.name@,
            ty: self.ty@,
            attrs: lines_view(self.attrs),
            docs: lines_view(self.docs),
        }
    }
}

/// The lower-camel-case form of an identifier, as `heck` computes it.
pub uninterp spec fn mixed_case(ident: Seq<char>) -> Seq<char>;

/// Calls `heck::MixedCase::to_mixed_case` on `ident`. What it returns
/// depends on the characters of `ident` alone; the contract gives that
/// result its name and says nothing more about it.
#[verifier::external_body]
fn to_mixed_case(ident: &String) -> (name: String)
    ensures
        name@ == mixed_case(ident@),
{
    ident.as_str().to_mixed_case()
}

/// The line that records the precision of a fixed-point decimal.
pub open spec fn amount_doc(precision: u8) -> Seq<char> {
    "@amount decimals="@ + decimal_digits(precision as nat)
}

/// The documentation that a declared type brings with it: the precision of
/// a fixed-point decimal, and nothing for any other type.
pub open spec fn auto_docs_of(rust_ty: RustTypeView) -> Option<Seq<Seq<char>>> {
    match rust_ty.kind {
        TypeKindView::Composite(CompositeView::Decimal(precision), _) => Some(
            seq![amount_doc(precision)],
        ),
        _ => None,
    }
}

/// The type that stands for the field in the description: the override if
/// there is one, else the declared type.
pub open spec fn described_type(field: StructFieldView) -> RustTypeView {
    match type_override(field.attrs) {
        Some(rust_ty) => rust_ty,
        None => field.rust_type,
    }
}

/// The texts of the markers of a field, absent if it has none.
pub open spec fn attr_texts(field: StructFieldView) -> Option<Seq<Seq<char>>> {
    if field.attrs.len() == 0 {
        None
    } else {
        Some(field.attrs.map_values(|attr| attr_text(attr)))
    }
}

/// The record of `field` under the name `name`, or the reason why the type
/// that stands for it has no translation.
pub open spec fn field_record(field: StructFieldView, name: Seq<char>) -> Result<
    IdlFieldView,
    TranslationError,
> {
    match translation(described_type(field)) {
        Ok(ty) => Ok(
            IdlFieldView { name, ty, attrs: attr_texts(field), docs: auto_docs_of(field.rust_type) },
        ),
        Err(error) => Err(error),
    }
}

/// What a derivation returned, over views.
pub open spec fn field_outcome(res: Result<IdlField, TranslationError>) -> Result<
    IdlFieldView,
    TranslationError,
> {
    match res {
        Ok(field) => Ok(field@),
        Err(error) => Err(error),
    }
}

/// The record of a field whose declared type is a fixed-point decimal of
/// precision `p` documents exactly that precision; the record of any other
/// field has no documentation.
pub proof fn lemma_field_docs(field: StructFieldView, name: Seq<char>, record: IdlFieldView)
    requires
        field_record(field, name) == Ok::<IdlFieldView, TranslationError>(record),
    ensures
        field.rust_type.kind matches TypeKindView::Composite(CompositeView::Decimal(p), _)
            ==> record.docs == Some(seq![amount_doc(p)]),
        !(field.rust_type.kind matches TypeKindView::Composite(CompositeView::Decimal(_), _))
            ==> record.docs is None,
{
}

/// The record of a field with a type override carries the translation of
/// the override, and fails as that translation fails; its documentation is
/// still that of the declared type.
pub proof fn lemma_field_override(
    field: StructFieldView,
    name: Seq<char>,
    override_type: RustTypeView,
)
    requires
        type_override(field.attrs) == Some(override_type),
    ensures
        match translation(override_type) {
            Ok(ty) => {
                &&& field_record(field, name) matches Ok(record)
                &&& record.ty == ty
                &&& record.docs == auto_docs_of(field.rust_type)
            },
            Err(error) => field_record(field, name) == Err::<IdlFieldView, TranslationError>(error),
        },
{
}

/// In a record neither the markers nor the documentation are present and
/// empty, and the name is the one that was given.
pub proof fn lemma_field_record_well_formed(
    field: StructFieldView,
    name: Seq<char>,
    record: IdlFieldView,
)
    requires
        field_record(field, name) == Ok::<IdlFieldView, TranslationError>(record),
    ensures
        record.well_formed(),
        record.name == name,
        record.attrs is None <==> field.attrs.len() == 0,
        record.attrs matches Some(texts) ==> texts.len() == field.attrs.len() && forall|i: int|
            0 <= i < texts.len() ==> #[trigger] texts[i] == attr_text(field.attrs[i]),
{
}

/// Two derivations from fields with the same view give the same result.
pub proof fn lemma_derive_deterministic(
    first: StructField,
    second: StructField,
    first_res: Result<IdlField, TranslationError>,
    second_res: Result<IdlField, TranslationError>,
)
    requires
        first@ == second@,
        field_outcome(first_res) == field_record(first@, mixed_case(first@.ident)),
        field_outcome(second_res) == field_record(second@, mixed_case(second@.ident)),
    ensures
        field_outcome(first_res) == field_outcome(second_res),
{
}

/// A copy of an optional list of lines.
fn clone_lines(lines: &Option<Vec<String>>) -> (res: Option<Vec<String>>)
    ensures
        lines_view(res) == lines_view(*lines),
{
    match lines {
        Some(lines) => {
            let mut copies: Vec<String> = Vec::new();
            let mut i: usize = 0;
            while i < lines.len()
                invariant
                    i <= lines.len(),
                    copies.len() == i,
                    forall|j: int| 0 <= j < i ==> (#[trigger] copies[j])@ == lines[j]@,
                decreases lines.len() - i,
            {
                copies.push(lines[i].clone());
                i += 1;
            }
            assert(copies@.map_values(|line: String| line@) =~= lines@.map_values(
                |line: String| line@,
            ));
            Some(copies)
        },
        None => None,
    }
}

impl Clone for IdlField {
    fn clone(&self) -> (res: IdlField)
        ensures
            res@ == self@,
    {
        IdlField {
            name: self.name.clone(),
            ty: self.ty.clone(),
            attrs: clone_lines(&self.attrs),
            docs: clone_lines(&self.docs),
        }
    }
}

/// The documentation that a declared type brings with it: a fixed-point
/// decimal records its precision, any other type records nothing.
pub fn auto_docs(rust_ty: &RustType) -> (docs: Option<Vec<String>>)
    ensures
        lines_view(docs) == auto_docs_of(rust_ty@),
{
    match &rust_ty.kind {
        TypeKind::Composite(Composite::Decimal(precision), _) => {
            let digits = decimal_string(*precision as usize);
            let line = String::from_str("@amount decimals=").concat(digits.as_str());
            let mut lines: Vec<String> = Vec::new();
            lines.push(line);
            assert(lines@.map_values(|line: String| line@) =~= seq![amount_doc(*precision)]);
            Some(lines)
        },
        _ => None,
    }
}

impl IdlField {
    /// Builds the record of `field` under the name `name`.
    pub fn named(field: &StructField, name: String) -> (res: Result<IdlField, TranslationError>)
        ensures
            field_outcome(res) == field_record(field@, name@),
            res matches Ok(record) ==> record@.well_formed(),
    {
        let docs = auto_docs(&field.rust_type);
        let ty = match field.type_override() {
            Some(override_type) => IdlType::translate(override_type)?,
            None => IdlType::translate(&field.rust_type)?,
        };
        let mut texts: Vec<String> = Vec::new();
        let mut i: usize = 0;
        while i < field.attrs.len()
            invariant
                i <= field.attrs.len(),
                texts.len() == i,
                forall|j: int| 0 <= j < i ==> (#[trigger] texts[j])@ == attr_text(field.attrs[j]@),
            decreases field.attrs.len() - i,
        {
            texts.push(field.attrs[i].text());
            i += 1;
        }
        assert(texts@.map_values(|line: String| line@) =~= field@.attrs.map_values(
            |attr| attr_text(attr),
        ));
        let attrs = if texts.len() == 0 {
            None
        } else {
            Some(texts)
        };
        Ok(IdlField { name, ty, attrs, docs })
    }

    /// Derives the record of `field`: its name in lower camel case, the
    /// translation of the type that stands for it, the texts of its markers
    /// and the documentation of its declared type.
    pub fn derive(field: &StructField) -> (res: Result<IdlField, TranslationError>)
        ensures
            field_outcome(res) == field_record(field@, mixed_case(field@.ident)),
            res matches Ok(record) ==> record@.well_formed(),
    {
        let name = to_mixed_case(&field.ident);
        IdlField::named(field, name)
    }
}

impl TryFrom<StructField> for IdlField {
    type Error = TranslationError;

    /// Derives the record of `field`.
    fn try_from(field: StructField) -> (res: Result<IdlField, TranslationError>)
        ensures
            field_outcome(res) == field_record(field@, mixed_case(field@.ident)),
            res matches Ok(record) ==> record@.well_formed(),
    {
        IdlField::derive(&field)
    }
}

/// The conversion is specified over views, by the `ensures` of `try_from`:
/// which record of the many with the same view comes back is left open.
impl vstd::std_specs::convert::TryFromSpecImpl<StructField> for IdlField {
    open spec fn obeys_try_from_spec() -> bool {
        false
    }

    open spec fn try_from_spec(field: StructField) -> Result<IdlField, TranslationError> {
        choose|res: Result<IdlField, TranslationError>|
            field_outcome(res) == field_record(field@, mixed_case(field@.ident))
    }
}

} // verus!
