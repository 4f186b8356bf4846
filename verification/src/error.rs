//! Why a host type has no interface-description counterpart.

use crate::text::{decimal_digits, decimal_string};
use vstd::prelude::*;
use vstd::string::*;

verus! {

/// The reason a translation failed. A failure anywhere inside a type fails
/// the translation of the whole type.
#[derive(Debug, Clone, Copy, PartialEq, Eq, Structural)]
pub enum TranslationError {
    /// A sequence container without an element type.
    VecNeedsInner,
    /// A fixed-length array without an element type.
    ArrayNeedsInner,
    /// An optional without the type it wraps.
    OptionNeedsInner,
    /// A tuple of fewer than two types.
    TupleNeedsTwo,
    /// An unordered map without a key and a value type.
    HashMapNeedsTwo,
    /// An ordered map without a key and a value type.
    BTreeMapNeedsTwo,
    /// An unordered set without an element type.
    HashSetNeedsInner,
    /// An ordered set without an element type.
    BTreeSetNeedsInner,
    /// A fixed-point decimal that carries this many types instead of one.
    DecimalArity(usize),
    /// A composite that is known only by its name.
    CustomComposite,
    /// The unit type, which denotes no value.
    Unit,
    /// A type that the producer of the descriptor could not classify.
    Unknown,
}

impl TranslationError {
    /// The text of [`TranslationError::message`].
    pub open spec fn message_text(self) -> Seq<char> {
        match self {
            TranslationError::VecNeedsInner => "Rust Vec Composite needs inner type"@,
            TranslationError::ArrayNeedsInner => "Rust Array Composite needs inner type"@,
            TranslationError::OptionNeedsInner => "Rust Option Composite needs inner type"@,
            TranslationError::TupleNeedsTwo => "Rust Tuple Composite needs at least two inner types"@,
            TranslationError::HashMapNeedsTwo => "Rust HashMap Composite needs two inner types"@,
            TranslationError::BTreeMapNeedsTwo => "Rust BTreeMap Composite needs two inner types"@,
            TranslationError::HashSetNeedsInner => "Rust HashSet Composite needs one inner type"@,
            TranslationError::BTreeSetNeedsInner => "Rust BTreeSet Composite needs one inner type"@,
            TranslationError::DecimalArity(got) => "Decimal composite needs one type parameter, got "@
                + decimal_digits(got as nat),
            TranslationError::CustomComposite => "Rust Custom Composite IDL type not yet supported"@,
            TranslationError::Unit => "IDL types cannot be Unit ()"@,
            TranslationError::Unknown => "Can only convert known types to IDL type"@,
        }
    }

    /// A sentence that says what was wrong with the type.
    pub fn message(&self) -> (text: String)
        ensures
            text@ == self.message_text(),
    {
        match self {
            TranslationError::VecNeedsInner => String::from_str(
                "Rust Vec Composite needs inner type",
            ),
            TranslationError::ArrayNeedsInner => String::from_str(
                "Rust Array Composite needs inner type",
            ),
            TranslationError::OptionNeedsInner => String::from_str(
                "Rust Option Composite needs inner type",
            ),
            TranslationError::TupleNeedsTwo => String::from_str(
                "Rust Tuple Composite needs at least two inner types",
            ),
            TranslationError::HashMapNeedsTwo => String::from_str(
                "Rust HashMap Composite needs two inner types",
            ),
            TranslationError::BTreeMapNeedsTwo => String::from_str(
                "Rust BTreeMap Composite needs two inner types",
            ),
            TranslationError::HashSetNeedsInner => String::from_str(
                "Rust HashSet Composite needs one inner type",
            ),
            TranslationError::BTreeSetNeedsInner => String::from_str(
                "Rust BTreeSet Composite needs one inner type",
            ),
            TranslationError::DecimalArity(got) => {
                let count = decimal_string(*got);
                String::from_str("Decimal composite needs one type parameter, got ").concat(
                    count.as_str(),
                )
            },
            TranslationError::CustomComposite => String::from_str(
                "Rust Custom Composite IDL type not yet supported",
            ),
            TranslationError::Unit => String::from_str("IDL types cannot be Unit ()"),
            TranslationError::Unknown => String::from_str(
                "Can only convert known types to IDL type",
            ),
        }
    }
}

} // verus!
