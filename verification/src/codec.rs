//! The property codec: between entities, property dictionaries and rows.

use vstd::prelude::*;
use vstd::string::*;
use crate::dictionary::{
    lemma_absent,
    lemma_first,
    lookup,
    natives,
    PropertyDictionary,
    PropertyView,
};
use crate::error::{Error, ErrorView};
use crate::first::{first_index, lemma_first_index, lemma_first_index_is};
use crate::metadata::{
    distinct_columns,
    schema_views,
    EntityMetadata,
    EntityMetadataView,
    PropertySchema,
    PropertySchemaView,
    RelationshipMetadata,
    RelationshipMetadataView,
};
use crate::value::{coerce, kind_of, lemma_native_coerces_back, PropertyValue, ValueView};

verus! {

/// A record of the graph: a label and named fields.
#[derive(Clone, Debug, PartialEq, Eq)]
pub struct Record {
    pub label: String,
    pub fields: PropertyDictionary,
}

/// A cell of a row that the engine returns.
#[derive(Clone, Debug, PartialEq, Eq)]
pub enum Cell {
    /// A plain value.
    Value(PropertyValue),
    /// A node.
    Node(Record),
    /// A relationship.
    Relationship(Record),
}

/// The value of a column as the fields give it. It fails for serialization
/// where the fields have no value of the column's name, or one that is not of
/// the column's kind. Where `strict`, a value of an unsupported kind fails as
/// an invalid property type.
pub open spec fn converted(
    column: PropertySchemaView,
    fields: Seq<PropertyView>,
    strict: bool,
) -> Result<PropertyView, ErrorView> {
    match lookup(fields, column.name) {
        None => Err(ErrorView::Serialization(column.name)),
        Some(value) => if strict && value is Unsupported {
            Err(ErrorView::InvalidPropertyType(column.name))
        } else {
            match coerce(value, column.kind) {
                None => Err(ErrorView::Serialization(column.name)),
                Some(coerced) => Ok(PropertyView { name: column.name, value: coerced }),
            }
        },
    }
}

/// Whether the column at a position has no value.
pub open spec fn fails(
    columns: Seq<PropertySchemaView>,
    fields: Seq<PropertyView>,
    strict: bool,
) -> spec_fn(int) -> bool {
    |i: int| converted(columns[i], fields, strict) is Err
}

/// The values of all columns, in the order of the columns; or the failure of
/// the first column that has none.
pub open spec fn converted_all(
    columns: Seq<PropertySchemaView>,
    fields: Seq<PropertyView>,
    strict: bool,
) -> Result<Seq<PropertyView>, ErrorView> {
    let at = first_index(columns.len() as int, fails(columns, fields, strict));
    if at < columns.len() {
        Err(converted(columns[at], fields, strict)->Err_0)
    } else {
        Ok(Seq::new(columns.len(), |i: int| converted(columns[i], fields, strict)->Ok_0))
    }
}

/// The property dictionary of a node: the primary key and the properties in
/// the order of their declaration, each with the entity's value of that name
/// as a value of the declared kind. An unsupported value fails as an invalid
/// property type; a missing value, one of another kind, and an empty primary
/// key fail for serialization.
pub open spec fn node_dictionary(
    metadata: EntityMetadataView,
    entity: Seq<PropertyView>,
) -> Result<Seq<PropertyView>, ErrorView> {
    match converted_all(metadata.columns(), entity, true) {
        Err(fault) => Err(fault),
        Ok(entries) => if entries[0].value == ValueView::Text(Seq::empty()) {
            Err(ErrorView::Serialization(metadata.primary_key_field))
        } else {
            Ok(entries)
        },
    }
}

/// The entity that a row holds: for the primary key and each property, in the
/// order of their declaration, the row's field of that name as a value of the
/// declared kind. Fields of other names are passed over. A missing field and
/// one of another kind fail for serialization.
pub open spec fn row_entity(metadata: EntityMetadataView, fields: Seq<PropertyView>) -> Result<
    Seq<PropertyView>,
    ErrorView,
> {
    converted_all(metadata.columns(), fields, false)
}

/// The fields of a relationship instance: the two endpoint fields and the
/// properties in the order of their declaration, each with the instance's
/// value of that name as a value of the declared kind.
pub open spec fn relationship_dictionary(
    metadata: RelationshipMetadataView,
    instance: Seq<PropertyView>,
) -> Result<Seq<PropertyView>, ErrorView> {
    converted_all(metadata.columns(), instance, true)
}

/// The entries are those of the columns: as many, in their order, each with
/// the column's name and a value of the column's kind.
pub open spec fn fits(columns: Seq<PropertySchemaView>, entries: Seq<PropertyView>) -> bool {
    &&& entries.len() == columns.len()
    &&& forall|i: int|
        0 <= i < entries.len() ==> (#[trigger] entries[i]).name == columns[i].name && kind_of(
            entries[i].value,
        ) == columns[i].kind
}

/// The entity has exactly the primary key and the properties of the
/// metadata, in their order, each with a value of the declared kind, and its
/// primary key is not empty.
pub open spec fn conforms(metadata: EntityMetadataView, entity: Seq<PropertyView>) -> bool {
    &&& fits(metadata.columns(), entity)
    &&& entity[0].value != ValueView::Text(Seq::empty())
}

/// Where every column has a value, the values are those of the columns.
pub proof fn lemma_converted_fits(
    columns: Seq<PropertySchemaView>,
    fields: Seq<PropertyView>,
    strict: bool,
)
    requires
        converted_all(columns, fields, strict) is Ok,
    ensures
        fits(columns, converted_all(columns, fields, strict)->Ok_0),
{
    lemma_first_index(columns.len() as int, fails(columns, fields, strict));
    let entries = converted_all(columns, fields, strict)->Ok_0;
    assert forall|i: int| 0 <= i < entries.len() implies (#[trigger] entries[i]).name
        == columns[i].name && kind_of(entries[i].value) == columns[i].kind by {
        assert(!fails(columns, fields, strict)(i));
    }
}

/// The row holds the entity: under the name of the primary key and of each
/// property it has a cell that, as a value of the declared kind, is the
/// entity's value. The row may hold more.
pub open spec fn holds_entity(
    metadata: EntityMetadataView,
    fields: Seq<PropertyView>,
    entity: Seq<PropertyView>,
) -> bool {
    &&& entity.len() == metadata.columns().len()
    &&& forall|i: int|
        0 <= i < entity.len() ==> (#[trigger] entity[i]).name == metadata.columns()[i].name && (
        lookup(fields, metadata.columns()[i].name) matches Some(cell) && coerce(
            cell,
            metadata.columns()[i].kind,
        ) == Some(entity[i].value))
}

/// The row has every entry: under each entry's name it has the entry's
/// value. The row may hold more.
pub open spec fn includes(fields: Seq<PropertyView>, entries: Seq<PropertyView>) -> bool {
    forall|i: int|
        0 <= i < entries.len() ==> lookup(fields, (#[trigger] entries[i]).name) == Some(
            entries[i].value,
        )
}

/// Whatever row holds an entity, reading the row gives that entity.
pub proof fn lemma_row_of_entity(
    metadata: EntityMetadataView,
    fields: Seq<PropertyView>,
    entity: Seq<PropertyView>,
)
    requires
        holds_entity(metadata, fields, entity),
    ensures
        row_entity(metadata, fields) == Ok::<Seq<PropertyView>, ErrorView>(entity),
{
    let columns = metadata.columns();
    assert forall|i: int| 0 <= i < columns.len() implies !#[trigger] fails(columns, fields, false)(
        i,
    ) by {
        assert(entity[i].name == columns[i].name);
    }
    lemma_first_index_is(columns.len() as int, fails(columns, fields, false), columns.len() as int);
    let read = Seq::new(columns.len(), |i: int| converted(columns[i], fields, false)->Ok_0);
    assert(read =~= entity);
}

/// A row that has what the engine holds of a conforming entity holds the
/// entity, and reading it gives the entity.
pub proof fn lemma_row_of_natives(
    metadata: EntityMetadataView,
    fields: Seq<PropertyView>,
    entity: Seq<PropertyView>,
)
    requires
        metadata.well_formed(),
        conforms(metadata, entity),
        includes(fields, natives(entity)),
    ensures
        holds_entity(metadata, fields, entity),
        row_entity(metadata, fields) == Ok::<Seq<PropertyView>, ErrorView>(entity),
{
    let columns = metadata.columns();
    assert forall|i: int| 0 <= i < entity.len() implies (#[trigger] entity[i]).name
        == columns[i].name && (lookup(fields, columns[i].name) matches Some(cell) && coerce(
        cell,
        columns[i].kind,
    ) == Some(entity[i].value)) by {
        assert(natives(entity)[i].name == entity[i].name);
        lemma_native_coerces_back(entity[i].value);
    }
    lemma_row_of_entity(metadata, fields, entity);
}

/// An entity that conforms to well-formed metadata is its own property
/// dictionary, and a row of exactly its fields holds it.
pub proof fn lemma_conforming(metadata: EntityMetadataView, entity: Seq<PropertyView>)
    requires
        metadata.well_formed(),
        conforms(metadata, entity),
    ensures
        node_dictionary(metadata, entity) == Ok::<Seq<PropertyView>, ErrorView>(entity),
        holds_entity(metadata, entity, entity),
{
    let columns = metadata.columns();
    assert forall|i: int| 0 <= i < columns.len() implies lookup(entity, columns[i].name) == Some(
        entity[i].value,
    ) && coerce(entity[i].value, columns[i].kind) == Some(entity[i].value) && !(
    entity[i].value is Unsupported) by {
        lemma_first(entity, i, entity[i].value);
    }
    lemma_first_index_is(columns.len() as int, fails(columns, entity, true), columns.len() as int);
    let written = Seq::new(columns.len(), |i: int| converted(columns[i], entity, true)->Ok_0);
    assert(written =~= entity);
}

/// The property dictionary of an entity conforms to the metadata.
pub proof fn lemma_dictionary_conforms(metadata: EntityMetadataView, entity: Seq<PropertyView>)
    requires
        node_dictionary(metadata, entity) is Ok,
    ensures
        conforms(metadata, node_dictionary(metadata, entity)->Ok_0),
{
    lemma_converted_fits(metadata.columns(), entity, true);
}

/// Round trip: the row of exactly the entries of an entity's property
/// dictionary holds that dictionary, and reading it gives the dictionary
/// back.
pub proof fn lemma_round_trip(metadata: EntityMetadataView, entity: Seq<PropertyView>)
    requires
        metadata.well_formed(),
        node_dictionary(metadata, entity) is Ok,
    ensures
        holds_entity(
            metadata,
            node_dictionary(metadata, entity)->Ok_0,
            node_dictionary(metadata, entity)->Ok_0,
        ),
        row_entity(metadata, node_dictionary(metadata, entity)->Ok_0) == node_dictionary(
            metadata,
            entity,
        ),
{
    let entries = node_dictionary(metadata, entity)->Ok_0;
    lemma_dictionary_conforms(metadata, entity);
    lemma_conforming(metadata, entries);
    lemma_row_of_entity(metadata, entries, entries);
}

fn convert(columns: &Vec<PropertySchema>, fields: &PropertyDictionary, strict: bool) -> (converted:
    Result<PropertyDictionary, Error>)
    requires
        distinct_columns(schema_views(columns@)),
    ensures
        match converted {
            Ok(d) => converted_all(schema_views(columns@), fields@, strict) == Ok::<
                Seq<PropertyView>,
                ErrorView,
            >(d@),
            Err(e) => converted_all(schema_views(columns@), fields@, strict) == Err::<
                Seq<PropertyView>,
                ErrorView,
            >(e@),
        },
{
    let ghost views = schema_views(columns@);
    let ghost failing = fails(views, fields@, strict);
    let mut entries = PropertyDictionary::new();
    let mut i: usize = 0;
    while i < columns.len()
        invariant
            i <= columns.len(),
            views == schema_views(columns@),
            failing == fails(views, fields@, strict),
            distinct_columns(views),
            forall|j: int| 0 <= j < i ==> !#[trigger] failing(j),
            entries@ == Seq::new(i as nat, |j: int| converted(views[j], fields@, strict)->Ok_0),
        decreases columns.len() - i,
    {
        let column = &columns[i];
        let made = match fields.get(column.name.as_str()) {
            None => None,
            Some(value) => {
                let refused = match value {
                    PropertyValue::Unsupported => strict,
                    _ => false,
                };
                if refused {
                    proof {
                        lemma_first_index_is(views.len() as int, failing, i as int);
                    }
                    return Err(Error::InvalidPropertyType(column.name.clone()));
                }
                value.coerce_to(column.kind)
            },
        };
        match made {
            None => {
                proof {
                    lemma_first_index_is(views.len() as int, failing, i as int);
                }
                return Err(Error::Serialization(column.name.clone()));
            },
            Some(coerced) => {
                proof {
                    let held = entries@;
                    assert forall|j: int| 0 <= j < held.len() implies (#[trigger] held[j]).name
                        != column@.name by {
                        assert(!failing(j));
                    }
                    lemma_absent(held, column@.name, coerced@);
                    assert(held.push(PropertyView { name: column@.name, value: coerced@ })
                        =~= Seq::new(
                        (i + 1) as nat,
                        |j: int| converted(views[j], fields@, strict)->Ok_0,
                    ));
                }
                entries.insert(column.name.as_str(), coerced);
            },
        }
        i = i + 1;
    }
    proof {
        lemma_first_index_is(views.len() as int, failing, views.len() as int);
    }
    Ok(entries)
}

/// Converts a node to its property dictionary: the primary key and the
/// properties in the order of their declaration. A value of an unsupported
/// kind fails as an invalid property type; a missing value, one of another
/// kind, and an empty primary key fail for serialization.
pub fn to_dictionary(metadata: &EntityMetadata, entity: &PropertyDictionary) -> (dictionary: Result<
    PropertyDictionary,
    Error,
>)
    ensures
        match dictionary {
            Ok(d) => node_dictionary(metadata@, entity@) == Ok::<Seq<PropertyView>, ErrorView>(d@)
                && conforms(metadata@, d@),
            Err(e) => node_dictionary(metadata@, entity@) == Err::<Seq<PropertyView>, ErrorView>(
                e@,
            ),
        },
        metadata@.well_formed(),
{
    let columns = metadata.columns();
    match convert(columns, entity, true) {
        Err(e) => Err(e),
        Ok(entries) => {
            let empty = match &entries.entry(0).value {
                PropertyValue::Text(key) => {
                    assert(key@.len() == 0 ==> key@ =~= Seq::<char>::empty());
                    key.as_str().is_empty()
                },
                _ => false,
            };
            if empty {
                Err(Error::Serialization(String::from_str(metadata.primary_key_field())))
            } else {
                proof {
                    lemma_dictionary_conforms(metadata@, entity@);
                }
                Ok(entries)
            }
        },
    }
}

/// Reads the entity that a row holds: the primary key and the properties in
/// the order of their declaration. Fields of the row that the metadata does
/// not name are passed over. A missing field and one of another kind fail for
/// serialization.
pub fn from_row(row: &Record, metadata: &EntityMetadata) -> (entity: Result<
    PropertyDictionary,
    Error,
>)
    ensures
        match entity {
            Ok(d) => row_entity(metadata@, row.fields@) == Ok::<Seq<PropertyView>, ErrorView>(d@),
            Err(e) => row_entity(metadata@, row.fields@) == Err::<Seq<PropertyView>, ErrorView>(
                e@,
            ),
        },
{
    convert(metadata.columns(), &row.fields, false)
}

/// Converts a relationship instance to its fields: the two endpoint fields
/// and the properties in the order of their declaration. A value of an
/// unsupported kind fails as an invalid property type; a missing value and
/// one of another kind fail for serialization.
pub fn relationship_to_dictionary(
    metadata: &RelationshipMetadata,
    instance: &PropertyDictionary,
) -> (dictionary: Result<PropertyDictionary, Error>)
    ensures
        match dictionary {
            Ok(d) => relationship_dictionary(metadata@, instance@) == Ok::<
                Seq<PropertyView>,
                ErrorView,
            >(d@) && fits(metadata@.columns(), d@),
            Err(e) => relationship_dictionary(metadata@, instance@) == Err::<
                Seq<PropertyView>,
                ErrorView,
            >(e@),
        },
        metadata@.well_formed(),
{
    let converted = convert(metadata.columns(), instance, true);
    proof {
        if converted is Ok {
            lemma_converted_fits(metadata@.columns(), instance@, true);
        }
    }
    converted
}

} // verus!
