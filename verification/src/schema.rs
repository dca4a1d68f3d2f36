//! Schema statements: the tables that hold the entities of a type.

use vstd::prelude::*;
use vstd::string::*;
use crate::metadata::{
    all_supported,
    schema_views,
    EntityMetadata,
    EntityMetadataView,
    PropertySchema,
    PropertySchemaView,
    RelationshipMetadata,
    RelationshipMetadataView,
};
use crate::statement::{bare, Statement};
use crate::text::{join, join_strings, texts};
use crate::value::column_type_of;

verus! {

/// The definition of a column: its name, a space, and its column type.
pub open spec fn column_definition(column: PropertySchemaView) -> Seq<char> {
    column.name + " "@ + column_type_of(column.kind).unwrap()
}

/// The definitions of the columns, in their order.
pub open spec fn column_definitions(columns: Seq<PropertySchemaView>) -> Seq<Seq<char>> {
    Seq::new(columns.len(), |i: int| column_definition(columns[i]))
}

/// The statement that creates the table of a node type unless it exists: one
/// column for the primary key and one for each property, in the order of
/// their declaration, with the primary key as the table's identity.
pub open spec fn node_table_text(metadata: EntityMetadataView) -> Seq<char> {
    "CREATE NODE TABLE IF NOT EXISTS "@ + metadata.label + " ("@ + join(
        column_definitions(metadata.columns()),
        ", "@,
    ) + ", PRIMARY KEY("@ + metadata.primary_key_field + "))"@
}

/// The two ends of a relationship table.
pub open spec fn endpoints_definition(metadata: RelationshipMetadataView) -> Seq<char> {
    "FROM "@ + metadata.from_label + " TO "@ + metadata.to_label
}

/// The statement that creates the table of a relationship type unless it
/// exists: the labels of its two ends, and one column for each property of
/// its own, in the order of their declaration.
pub open spec fn relationship_table_text(metadata: RelationshipMetadataView) -> Seq<char> {
    "CREATE REL TABLE IF NOT EXISTS "@ + metadata.label + " ("@ + join(
        seq![endpoints_definition(metadata)] + column_definitions(metadata.properties),
        ", "@,
    ) + ")"@
}

/// Schema determinism: the statement for a node table is a function of the
/// metadata. Metadata with the same label, primary key and properties give
/// the same statement, and its column list has one column for the primary key
/// and one for each property, in the order of their declaration.
pub proof fn lemma_node_table_deterministic(first: EntityMetadataView, second: EntityMetadataView)
    requires
        first.label =~= second.label,
        first.primary_key_field =~= second.primary_key_field,
        first.properties =~= second.properties,
    ensures
        node_table_text(first) == node_table_text(second),
        column_definitions(first.columns()) == column_definitions(second.columns()),
        column_definitions(first.columns()).len() == 1 + first.properties.len(),
        column_definitions(first.columns())[0] == first.primary_key_field + " "@ + "STRING"@,
        forall|i: int|
            0 <= i < first.properties.len() ==> #[trigger] column_definitions(first.columns())[i + 1]
                == column_definition(first.properties[i]),
{
}

/// Appends the definitions of the columns from `start` on.
fn push_definitions(parts: &mut Vec<String>, columns: &Vec<PropertySchema>, start: usize)
    requires
        start <= columns@.len(),
        all_supported(schema_views(columns@)),
    ensures
        texts(final(parts)@) == texts(old(parts)@) + column_definitions(
            schema_views(columns@).skip(start as int),
        ),
{
    let ghost before = texts(parts@);
    let ghost wanted = column_definitions(schema_views(columns@).skip(start as int));
    let mut i: usize = start;
    while i < columns.len()
        invariant
            start <= i <= columns.len(),
            all_supported(schema_views(columns@)),
            wanted == column_definitions(schema_views(columns@).skip(start as int)),
            texts(parts@) == before + wanted.take(i - start),
        decreases columns.len() - i,
    {
        let column = &columns[i];
        let mut definition = column.name.clone();
        definition.append(" ");
        match column.kind.column_type() {
            Some(name) => {
                definition.append(name);
            },
            None => {},
        }
        parts.push(definition);
        assert(before + wanted.take(i + 1 - start) =~= (before + wanted.take(i - start)).push(
            wanted[i - start],
        ));
        i = i + 1;
    }
}

/// The statement that creates the table of a node type unless it exists.
pub fn ensure_node_table(metadata: &EntityMetadata) -> (statement: Statement)
    ensures
        statement@ == bare(node_table_text(metadata@)),
{
    let columns = metadata.columns();
    let mut parts: Vec<String> = Vec::new();
    push_definitions(&mut parts, columns, 0);
    assert(texts(parts@) =~= column_definitions(metadata@.columns()));
    let mut text = String::from_str("CREATE NODE TABLE IF NOT EXISTS ");
    text.append(metadata.label());
    text.append(" (");
    text.append(join_strings(&parts, ", ").as_str());
    text.append(", PRIMARY KEY(");
    text.append(metadata.primary_key_field());
    text.append("))");
    Statement::unbound(text)
}

/// The statement that creates the table of a relationship type unless it
/// exists.
pub fn ensure_relationship_table(metadata: &RelationshipMetadata) -> (statement: Statement)
    ensures
        statement@ == bare(relationship_table_text(metadata@)),
{
    let columns = metadata.columns();
    let mut ends = String::from_str("FROM ");
    ends.append(metadata.from_label());
    ends.append(" TO ");
    ends.append(metadata.to_label());
    let mut parts: Vec<String> = Vec::new();
    parts.push(ends);
    assert(texts(parts@) =~= seq![endpoints_definition(metadata@)]);
    assert(metadata@.columns().len() == 2 + metadata@.properties.len());
    push_definitions(&mut parts, columns, 2);
    assert(schema_views(columns@).skip(2) =~= metadata@.properties);
    let mut text = String::from_str("CREATE REL TABLE IF NOT EXISTS ");
    text.append(metadata.label());
    text.append(" (");
    text.append(join_strings(&parts, ", ").as_str());
    text.append(")");
    Statement::unbound(text)
}

} // verus!
