//! Semantic value kinds, property values and the type coercion table.

use vstd::prelude::*;
use crate::text::same_text;

verus! {

/// The kind of a property value.
#[derive(Clone, Copy, Debug, PartialEq, Eq, Structural)]
pub enum SemanticType {
    /// Text.
    Text,
    /// A signed integer of up to 64 bits.
    Int64,
    /// An unsigned integer of up to 64 bits.
    UInt64,
    /// A double-precision floating-point number.
    Double,
    /// A truth value.
    Bool,
    /// Anything else: cannot be a property.
    Unsupported,
}

/// A property value. A double is held as its IEEE 754 bit pattern.
#[derive(Debug, PartialEq, Eq)]
pub enum PropertyValue {
    Text(String),
    Int64(i64),
    UInt64(u64),
    Double(u64),
    Bool(bool),
    Unsupported,
}

/// What a property value holds.
pub enum ValueView {
    Text(Seq<char>),
    Int64(i64),
    UInt64(u64),
    Double(u64),
    Bool(bool),
    Unsupported,
}

impl View for PropertyValue {
    type V = ValueView;

    open spec fn view(&self) -> ValueView {
        match self {
            PropertyValue::Text(s) => ValueView::Text(s@),
            PropertyValue::Int64(n) => ValueView::Int64(*n),
            PropertyValue::UInt64(n) => ValueView::UInt64(*n),
            PropertyValue::Double(bits) => ValueView::Double(*bits),
            PropertyValue::Bool(b) => ValueView::Bool(*b),
            PropertyValue::Unsupported => ValueView::Unsupported,
        }
    }
}

impl Clone for PropertyValue {
    fn clone(&self) -> (copy: PropertyValue)
        ensures
            copy@ == self@,
    {
        match self {
            PropertyValue::Text(s) => PropertyValue::Text(s.clone()),
            PropertyValue::Int64(n) => PropertyValue::Int64(*n),
            PropertyValue::UInt64(n) => PropertyValue::UInt64(*n),
            PropertyValue::Double(bits) => PropertyValue::Double(*bits),
            PropertyValue::Bool(b) => PropertyValue::Bool(*b),
            PropertyValue::Unsupported => PropertyValue::Unsupported,
        }
    }
}

/// The kind of a value.
pub open spec fn kind_of(value: ValueView) -> SemanticType {
    match value {
        ValueView::Text(_) => SemanticType::Text,
        ValueView::Int64(_) => SemanticType::Int64,
        ValueView::UInt64(_) => SemanticType::UInt64,
        ValueView::Double(_) => SemanticType::Double,
        ValueView::Bool(_) => SemanticType::Bool,
        ValueView::Unsupported => SemanticType::Unsupported,
    }
}

/// The schema column type of a kind; none for an unsupported kind.
pub open spec fn column_type_of(kind: SemanticType) -> Option<Seq<char>> {
    match kind {
        SemanticType::Text => Some("STRING"@),
        SemanticType::Int64 => Some("INT64"@),
        SemanticType::UInt64 => Some("INT64"@),
        SemanticType::Double => Some("DOUBLE"@),
        SemanticType::Bool => Some("BOOL"@),
        SemanticType::Unsupported => None,
    }
}

/// The kind that a declared field type stands for.
pub open spec fn semantic_type_of(declared: Seq<char>) -> SemanticType {
    if declared == "String"@ || declared == "&str"@ {
        SemanticType::Text
    } else if declared == "i8"@ || declared == "i16"@ || declared == "i32"@ || declared == "i64"@
        || declared == "isize"@ {
        SemanticType::Int64
    } else if declared == "u8"@ || declared == "u16"@ || declared == "u32"@ || declared == "u64"@
        || declared == "usize"@ {
        SemanticType::UInt64
    } else if declared == "f32"@ || declared == "f64"@ {
        SemanticType::Double
    } else if declared == "bool"@ {
        SemanticType::Bool
    } else {
        SemanticType::Unsupported
    }
}

/// The value as a value of the given kind, where it is one: a value of that
/// kind itself, or an integer of the other signedness that the kind can hold.
pub open spec fn coerce(value: ValueView, kind: SemanticType) -> Option<ValueView> {
    match (value, kind) {
        (ValueView::Text(_), SemanticType::Text) => Some(value),
        (ValueView::Int64(_), SemanticType::Int64) => Some(value),
        (ValueView::UInt64(n), SemanticType::Int64) => if n <= i64::MAX {
            Some(ValueView::Int64(n as i64))
        } else {
            None
        },
        (ValueView::UInt64(_), SemanticType::UInt64) => Some(value),
        (ValueView::Int64(n), SemanticType::UInt64) => if n >= 0 {
            Some(ValueView::UInt64(n as u64))
        } else {
            None
        },
        (ValueView::Double(_), SemanticType::Double) => Some(value),
        (ValueView::Bool(_), SemanticType::Bool) => Some(value),
        _ => None,
    }
}

/// The value as the engine holds it. Integers of both kinds lie in `INT64`
/// columns, so an unsigned integer that a signed one can hold is held as that
/// signed integer. Every other value is held as it is.
pub open spec fn native_of(value: ValueView) -> ValueView {
    match value {
        ValueView::UInt64(n) => if n <= i64::MAX {
            ValueView::Int64(n as i64)
        } else {
            value
        },
        _ => value,
    }
}

/// What the engine holds of a value gives the value back, as a value of its
/// kind.
pub proof fn lemma_native_coerces_back(value: ValueView)
    requires
        !(value is Unsupported),
    ensures
        coerce(native_of(value), kind_of(value)) == Some(value),
        native_of(value) is Unsupported == value is Unsupported,
        value is Text ==> native_of(value) == value,
{
}

impl PropertyValue {
    /// The value as the engine holds it.
    pub fn native(&self) -> (held: PropertyValue)
        ensures
            held@ == native_of(self@),
    {
        match self {
            PropertyValue::UInt64(n) => if *n <= 0x7fff_ffff_ffff_ffff {
                PropertyValue::Int64(*n as i64)
            } else {
                PropertyValue::UInt64(*n)
            },
            other => other.clone(),
        }
    }

    /// The kind of this value.
    pub fn kind(&self) -> (kind: SemanticType)
        ensures
            kind == kind_of(self@),
    {
        match self {
            PropertyValue::Text(_) => SemanticType::Text,
            PropertyValue::Int64(_) => SemanticType::Int64,
            PropertyValue::UInt64(_) => SemanticType::UInt64,
            PropertyValue::Double(_) => SemanticType::Double,
            PropertyValue::Bool(_) => SemanticType::Bool,
            PropertyValue::Unsupported => SemanticType::Unsupported,
        }
    }

    /// This value as a value of the given kind, if it is one.
    pub fn coerce_to(&self, kind: SemanticType) -> (coerced: Option<PropertyValue>)
        ensures
            match coerced {
                Some(v) => coerce(self@, kind) == Some(v@),
                None => coerce(self@, kind) is None,
            },
    {
        match self {
            PropertyValue::Text(s) => match kind {
                SemanticType::Text => Some(PropertyValue::Text(s.clone())),
                _ => None,
            },
            PropertyValue::Int64(n) => match kind {
                SemanticType::Int64 => Some(PropertyValue::Int64(*n)),
                SemanticType::UInt64 => if *n >= 0 {
                    Some(PropertyValue::UInt64(*n as u64))
                } else {
                    None
                },
                _ => None,
            },
            PropertyValue::UInt64(n) => match kind {
                SemanticType::UInt64 => Some(PropertyValue::UInt64(*n)),
                SemanticType::Int64 => if *n <= 0x7fff_ffff_ffff_ffff {
                    Some(PropertyValue::Int64(*n as i64))
                } else {
                    None
                },
                _ => None,
            },
            PropertyValue::Double(bits) => match kind {
                SemanticType::Double => Some(PropertyValue::Double(*bits)),
                _ => None,
            },
            PropertyValue::Bool(b) => match kind {
                SemanticType::Bool => Some(PropertyValue::Bool(*b)),
                _ => None,
            },
            PropertyValue::Unsupported => None,
        }
    }
}

impl SemanticType {
    /// The schema column type of this kind; none for an unsupported kind.
    pub fn column_type(self) -> (name: Option<&'static str>)
        ensures
            match name {
                Some(s) => column_type_of(self) == Some(s@),
                None => column_type_of(self) is None,
            },
    {
        match self {
            SemanticType::Text => Some("STRING"),
            SemanticType::Int64 => Some("INT64"),
            SemanticType::UInt64 => Some("INT64"),
            SemanticType::Double => Some("DOUBLE"),
            SemanticType::Bool => Some("BOOL"),
            SemanticType::Unsupported => None,
        }
    }

    /// The kind that a declared field type stands for.
    pub fn of_declared(declared: &str) -> (kind: SemanticType)
        ensures
            kind == semantic_type_of(declared@),
    {
        if same_text(declared, "String") || same_text(declared, "&str") {
            SemanticType::Text
        } else if same_text(declared, "i8") || same_text(declared, "i16") || same_text(
            declared,
            "i32",
        ) || same_text(declared, "i64") || same_text(declared, "isize") {
            SemanticType::Int64
        } else if same_text(declared, "u8") || same_text(declared, "u16") || same_text(
            declared,
            "u32",
        ) || same_text(declared, "u64") || same_text(declared, "usize") {
            SemanticType::UInt64
        } else if same_text(declared, "f32") || same_text(declared, "f64") {
            SemanticType::Double
        } else if same_text(declared, "bool") {
            SemanticType::Bool
        } else {
            SemanticType::Unsupported
        }
    }
}

} // verus!
