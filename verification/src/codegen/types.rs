//! The types of C that the scraper tells apart.

use vstd::prelude::*;
use crate::codegen::text::{begins_with, starts_with, stripped, trim_start_matches};

verus! {

/// A type of a parameter or of a result in a header.
#[derive(Debug)]
pub enum CType {
    /// No value.
    Void,
    /// A value of the named type.
    Value(String),
    /// A value of the named enumeration.
    Enum(String),
    /// A pointer to the named struct.
    StructPointer(String),
    /// A pointer to anything else.
    Unknown(String),
}

/// A [`CType`] with its name as a sequence of characters.
pub enum CTypeView {
    /// No value.
    Void,
    /// A value of the named type.
    Value(Seq<char>),
    /// A value of the named enumeration.
    Enum(Seq<char>),
    /// A pointer to the named struct.
    StructPointer(Seq<char>),
    /// A pointer to anything else.
    Unknown(Seq<char>),
}

impl View for CType {
    type V = CTypeView;

    open spec fn view(&self) -> CTypeView {
        match self {
            CType::Void => CTypeView::Void,
            CType::Value(name) => CTypeView::Value(name@),
            CType::Enum(name) => CTypeView::Enum(name@),
            CType::StructPointer(name) => CTypeView::StructPointer(name@),
            CType::Unknown(name) => CTypeView::Unknown(name@),
        }
    }
}

/// The type that the text `s` of a declaration names, where `is_pointer`
/// says whether the declarator is a pointer.
pub open spec fn type_of(s: Seq<char>, is_pointer: bool) -> CTypeView {
    if begins_with(s, "enum "@) && !is_pointer {
        CTypeView::Enum(stripped(s, "enum "@))
    } else if begins_with(s, "struct "@) && is_pointer {
        CTypeView::StructPointer(stripped(s, "struct "@))
    } else if s == "void"@ && !is_pointer {
        CTypeView::Void
    } else if !is_pointer {
        CTypeView::Value(s)
    } else {
        CTypeView::Unknown(s)
    }
}

/// Reads the type that the text `s` of a declaration names.
///
/// An enumeration by value and a struct behind a pointer are named without
/// their keyword. `void` by value is no value, and any other text by value
/// is the name of a value type. Every other pointer is unknown.
pub fn parse_type(s: &str, is_pointer: bool) -> (ty: CType)
    ensures
        ty@ == type_of(s@, is_pointer),
{
    if starts_with(s, "enum ") && !is_pointer {
        CType::Enum(trim_start_matches(s, "enum ").to_owned())
    } else if starts_with(s, "struct ") && is_pointer {
        CType::StructPointer(trim_start_matches(s, "struct ").to_owned())
    } else if s.to_owned() == "void".to_owned() && !is_pointer {
        CType::Void
    } else if !is_pointer {
        CType::Value(s.to_owned())
    } else {
        CType::Unknown(s.to_owned())
    }
}

} // verus!
