//! Entities as serde_json holds them: from a JSON object to named values.

use vstd::prelude::*;
use vstd::string::*;
use crate::dictionary::{put, PropertyDictionary, PropertyView};
use crate::error::{Error, ErrorView};
use crate::value::{PropertyValue, ValueView};

verus! {

/// A JSON value of serde_json. Nothing inside it is seen here.
#[verifier::external_type_specification]
#[verifier::external_body]
pub struct ExJsonValue(serde_json::Value);

/// What a member of a JSON object holds, as far as a property can hold it: a
/// text, a truth value, or a number as each number type that can hold it (a
/// double as its IEEE 754 bit pattern). Of anything else, only that it is
/// there.
#[derive(Debug, PartialEq, Eq)]
pub enum JsonMember {
    Text(String),
    Bool(bool),
    Number { signed: Option<i64>, unsigned: Option<u64>, double: Option<u64> },
    Other,
}

/// What a member holds.
pub enum JsonMemberView {
    Text(Seq<char>),
    Bool(bool),
    Number { signed: Option<i64>, unsigned: Option<u64>, double: Option<u64> },
    Other,
}

impl View for JsonMember {
    type V = JsonMemberView;

    open spec fn view(&self) -> JsonMemberView {
        match self {
            JsonMember::Text(text) => JsonMemberView::Text(text@),
            JsonMember::Bool(flag) => JsonMemberView::Bool(*flag),
            JsonMember::Number { signed, unsigned, double } => JsonMemberView::Number {
                signed: *signed,
                unsigned: *unsigned,
                double: *double,
            },
            JsonMember::Other => JsonMemberView::Other,
        }
    }
}

/// What a sequence of named members holds.
pub open spec fn member_views(members: Seq<(String, JsonMember)>) -> Seq<
    (Seq<char>, JsonMemberView),
> {
    Seq::new(members.len(), |i: int| (members[i].0@, members[i].1@))
}

/// Whether a JSON value is an object: whether `serde_json::Value::as_object`
/// gives its map.
pub uninterp spec fn json_is_object(value: serde_json::Value) -> bool;

/// The members of a JSON object in the order in which `serde_json::Map::iter`
/// walks them: of each its name and, of its value, what a `JsonMember` holds.
/// For a number that is what `serde_json::Number::as_i64`, `as_u64` and
/// `as_f64` give.
pub uninterp spec fn json_members(value: serde_json::Value) -> Seq<(Seq<char>, JsonMemberView)>;

/// Hands out the members of a JSON object.
///
/// Calls `serde_json::Value::as_object` and walks the map with
/// `serde_json::Map::iter`; of a number it asks `serde_json::Number::as_i64`,
/// `as_u64` and `as_f64`. The contract claims no more than that the members
/// come out when and only when the value is an object, and gives what comes
/// out its name.
#[verifier::external_body]
fn object_members(value: &serde_json::Value) -> (members: Option<Vec<(String, JsonMember)>>)
    ensures
        members is Some <==> json_is_object(*value),
        members matches Some(found) ==> member_views(found@) == json_members(*value),
{
    let object = value.as_object()?;
    let mut members = Vec::new();
    for (name, field) in object.iter() {
        members.push((name.clone(), match field {
            serde_json::Value::String(text) => JsonMember::Text(text.clone()),
            serde_json::Value::Bool(flag) => JsonMember::Bool(*flag),
            serde_json::Value::Number(number) => JsonMember::Number {
                signed: number.as_i64(),
                unsigned: number.as_u64(),
                double: number.as_f64().map(|double| double.to_bits()),
            },
            _ => JsonMember::Other,
        }));
    }
    Some(members)
}

/// The property value of a member. A number is a signed integer where a
/// signed integer can hold it, else an unsigned integer where one can, else a
/// double. What is neither text, truth value nor number is unsupported.
pub open spec fn value_of_member(member: JsonMemberView) -> ValueView {
    match member {
        JsonMemberView::Text(text) => ValueView::Text(text),
        JsonMemberView::Bool(flag) => ValueView::Bool(flag),
        JsonMemberView::Number { signed: Some(n), .. } => ValueView::Int64(n),
        JsonMemberView::Number { signed: None, unsigned: Some(n), .. } => ValueView::UInt64(n),
        JsonMemberView::Number { signed: None, unsigned: None, double: Some(bits) } => {
            ValueView::Double(bits)
        },
        _ => ValueView::Unsupported,
    }
}

/// The fields of the entity that the members make: each member's value put
/// under its name, one member after the other.
pub open spec fn entity_of(members: Seq<(Seq<char>, JsonMemberView)>) -> Seq<PropertyView>
    decreases members.len(),
{
    if members.len() == 0 {
        Seq::empty()
    } else {
        put(entity_of(members.drop_last()), members.last().0, value_of_member(members.last().1))
    }
}

/// The property value of a member.
pub fn property_value(member: &JsonMember) -> (value: PropertyValue)
    ensures
        value@ == value_of_member(member@),
{
    match member {
        JsonMember::Text(text) => PropertyValue::Text(text.clone()),
        JsonMember::Bool(flag) => PropertyValue::Bool(*flag),
        JsonMember::Number { signed, unsigned, double } => match (signed, unsigned, double) {
            (Some(n), _, _) => PropertyValue::Int64(*n),
            (None, Some(n), _) => PropertyValue::UInt64(*n),
            (None, None, Some(bits)) => PropertyValue::Double(*bits),
            (None, None, None) => PropertyValue::Unsupported,
        },
        JsonMember::Other => PropertyValue::Unsupported,
    }
}

/// The fields of the entity that the members make.
pub fn entity_of_members(members: &Vec<(String, JsonMember)>) -> (entity: PropertyDictionary)
    ensures
        entity@ == entity_of(member_views(members@)),
{
    let ghost all = member_views(members@);
    let mut entity = PropertyDictionary::new();
    let mut i: usize = 0;
    while i < members.len()
        invariant
            i <= members.len(),
            all == member_views(members@),
            entity@ == entity_of(all.take(i as int)),
        decreases members.len() - i,
    {
        proof {
            assert(all.take(i + 1).drop_last() =~= all.take(i as int));
        }
        let member = &members[i];
        entity.insert(member.0.as_str(), property_value(&member.1));
        i = i + 1;
    }
    assert(all.take(i as int) =~= all);
    entity
}

/// The fields of a serialized entity. Fails as an invalid property type
/// where the value is no JSON object.
pub fn entity_from_json(value: &serde_json::Value) -> (entity: Result<PropertyDictionary, Error>)
    ensures
        match entity {
            Ok(fields) => json_is_object(*value) && fields@ == entity_of(json_members(*value)),
            Err(e) => !json_is_object(*value) && e@ == ErrorView::InvalidPropertyType(
                "Properties must be an object"@,
            ),
        },
{
    match object_members(value) {
        Some(members) => Ok(entity_of_members(&members)),
        None => Err(Error::InvalidPropertyType(String::from_str("Properties must be an object"))),
    }
}

} // verus!
