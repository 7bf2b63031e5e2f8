use vstd::prelude::*;

verus! {

/// Why a parse failed.
#[derive(Debug, PartialEq, Eq)]
pub enum ParseError {
    /// No input holds a `.selector` section.
    SelectorNotFound,
    /// A second `.selector` section was found.
    AnotherSelector,
    /// A global function with this identifier was defined twice.
    DuplicateGlobal(u32),
    /// An internal function with this identifier was defined twice.
    DuplicateInternal(i32),
    /// The global object with this name has no `.type`.
    UnknownType(Vec<char>),
    /// The internal function with this name has no `.internal-alias`.
    AliasNotFound(Vec<char>),
    /// This `.internal-alias` line has an identifier that does not fit an `i32`.
    InvalidAlias(Vec<char>),
    /// This `.size` line has a size that is not a decimal number fitting a `usize`.
    InvalidSize(Vec<char>),
    /// A data object holds a value directive of this unknown kind.
    UnsupportedParameter(Vec<char>),
    /// The values of a data object need more bytes than its `.size`.
    SizeTooSmall,
    /// The values of a data object need fewer bytes than its `.size`.
    SizeTooBig,
    /// A data value is not a decimal number that fits its width.
    InvalidNumber,
}

/// A parse failure as the specification sees it.
pub enum ErrorSpec {
    SelectorNotFound,
    AnotherSelector,
    DuplicateGlobal(u32),
    DuplicateInternal(i32),
    UnknownType(Seq<char>),
    AliasNotFound(Seq<char>),
    InvalidAlias(Seq<char>),
    InvalidSize(Seq<char>),
    UnsupportedParameter(Seq<char>),
    SizeTooSmall,
    SizeTooBig,
    InvalidNumber,
}

impl ParseError {
    pub open spec fn view(&self) -> ErrorSpec {
        match self {
            ParseError::SelectorNotFound => ErrorSpec::SelectorNotFound,
            ParseError::AnotherSelector => ErrorSpec::AnotherSelector,
            ParseError::DuplicateGlobal(id) => ErrorSpec::DuplicateGlobal(*id),
            ParseError::DuplicateInternal(id) => ErrorSpec::DuplicateInternal(*id),
            ParseError::UnknownType(n) => ErrorSpec::UnknownType(n@),
            ParseError::AliasNotFound(n) => ErrorSpec::AliasNotFound(n@),
            ParseError::InvalidAlias(l) => ErrorSpec::InvalidAlias(l@),
            ParseError::InvalidSize(l) => ErrorSpec::InvalidSize(l@),
            ParseError::UnsupportedParameter(k) => ErrorSpec::UnsupportedParameter(k@),
            ParseError::SizeTooSmall => ErrorSpec::SizeTooSmall,
            ParseError::SizeTooBig => ErrorSpec::SizeTooBig,
            ParseError::InvalidNumber => ErrorSpec::InvalidNumber,
        }
    }
}

} // verus!
