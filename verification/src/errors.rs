use vstd::prelude::*;

verus! {

/// Conversion failure. Wraps the internal cause so that callers see a
/// single stable error type.
#[derive(Debug, Clone, Copy, PartialEq, Eq, Structural)]
pub struct Error(pub(crate) ErrorRepr);

/// The internal causes of a conversion failure: a required numeric
/// constant could not be formed in the input's type, or a computed
/// digit could not be narrowed to an index-sized integer. Neither can
/// arise for the fixed 64-bit input type, so the conversions in this
/// crate are proved to always succeed; the type is kept so that the
/// result signatures state the failure model.
#[derive(Debug, Clone, Copy, PartialEq, Eq, Structural)]
pub(crate) enum ErrorRepr {
    IntToGenError,
    IntToUsizeError,
}

} // verus!
