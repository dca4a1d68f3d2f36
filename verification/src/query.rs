//! Query statements: creating, finding and filtering entities.

use vstd::prelude::*;
use vstd::string::*;
use crate::dictionary::{
    distinct_names,
    lemma_absent,
    natives,
    PropertyDictionary,
    PropertyView,
};
use crate::error::{Error, ErrorView};
use crate::first::{first_index, lemma_first_index_is};
use crate::metadata::{EntityMetadata, EntityMetadataView, RelationshipMetadata, RelationshipMetadataView};
use crate::statement::{bare, Statement, StatementView};
use crate::text::{decimal, join, join_strings, render_decimal, texts};
use crate::value::{native_of, PropertyValue, ValueView};

verus! {

/// An entry of a property map: the name, and the parameter of that name.
pub open spec fn assignment(name: Seq<char>) -> Seq<char> {
    name + ": $"@ + name
}

/// The entries of a property map, one for each entry of the dictionary.
pub open spec fn assignments(entries: Seq<PropertyView>) -> Seq<Seq<char>> {
    Seq::new(entries.len(), |i: int| assignment(entries[i].name))
}

/// The binding of a text value to a name.
pub open spec fn text_binding(name: Seq<char>, value: Seq<char>) -> PropertyView {
    PropertyView { name, value: ValueView::Text(value) }
}

/// Whether the entry at a position has a value of an unsupported kind.
pub open spec fn is_unsupported_value(entries: Seq<PropertyView>) -> spec_fn(int) -> bool {
    |i: int| entries[i].value is Unsupported
}

/// Whether the entry at a position has one of the two names.
pub open spec fn is_named(entries: Seq<PropertyView>, a: Seq<char>, b: Seq<char>) -> spec_fn(
    int,
) -> bool {
    |i: int| entries[i].name == a || entries[i].name == b
}

/// The failure for the first entry with a value of an unsupported kind, if
/// there is one.
pub open spec fn unsupported_entry(entries: Seq<PropertyView>) -> Option<ErrorView> {
    let at = first_index(entries.len() as int, is_unsupported_value(entries));
    if at < entries.len() {
        Some(ErrorView::InvalidPropertyType(entries[at].name))
    } else {
        None
    }
}

/// The statement that deletes the node of a label and primary key.
pub open spec fn delete_node_statement(
    metadata: EntityMetadataView,
    primary_key: Seq<char>,
) -> StatementView {
    StatementView {
        text: "MATCH (n:"@ + metadata.label + ") WHERE n."@ + metadata.primary_key_field + " = $"@
            + metadata.primary_key_field + " DELETE n"@,
        parameters: seq![text_binding(metadata.primary_key_field, primary_key)],
    }
}

/// The statement that inserts a node with the whole dictionary as its
/// properties, each value bound as the engine holds it.
pub open spec fn insert_node_statement(
    metadata: EntityMetadataView,
    entries: Seq<PropertyView>,
) -> StatementView {
    StatementView {
        text: "CREATE (:"@ + metadata.label + " {"@ + join(assignments(entries), ", "@) + "})"@,
        parameters: natives(entries),
    }
}

/// The statement that returns the node of a label and primary key.
pub open spec fn find_node_statement(
    metadata: EntityMetadataView,
    primary_key: Seq<char>,
) -> StatementView {
    StatementView {
        text: "MATCH (n:"@ + metadata.label + ") WHERE n."@ + metadata.primary_key_field + " = $"@
            + metadata.primary_key_field + " RETURN n"@,
        parameters: seq![text_binding(metadata.primary_key_field, primary_key)],
    }
}

/// The statement that matches one node at each end by its label and identity
/// and creates the relationship between them. The identities are bound under
/// the names of the endpoint fields, the properties as the engine holds them.
pub open spec fn create_relationship_statement(
    metadata: RelationshipMetadataView,
    from_id: Seq<char>,
    to_id: Seq<char>,
    entries: Seq<PropertyView>,
) -> StatementView {
    StatementView {
        text: "MATCH (a:"@ + metadata.from_label + "), (b:"@ + metadata.to_label + ") WHERE a."@
            + metadata.from_key + " = $"@ + metadata.from_field + " AND b."@ + metadata.to_key
            + " = $"@ + metadata.to_field + " CREATE (a)-[r:"@ + metadata.label + " {"@ + join(
            assignments(entries),
            ", "@,
        ) + "}]->(b)"@,
        parameters: seq![
            text_binding(metadata.from_field, from_id),
            text_binding(metadata.to_field, to_id),
        ] + natives(entries),
    }
}

/// Why no relationship can be created with these properties, if anything
/// stands against it: the first value of an unsupported kind, or else the
/// first property with the name of an endpoint field, whose parameter
/// would be bound twice.
pub open spec fn relationship_fault(
    metadata: RelationshipMetadataView,
    entries: Seq<PropertyView>,
) -> Option<ErrorView> {
    let clash = first_index(
        entries.len() as int,
        is_named(entries, metadata.from_field, metadata.to_field),
    );
    match unsupported_entry(entries) {
        Some(fault) => Some(fault),
        None => if clash < entries.len() {
            Some(ErrorView::Query("duplicate parameter "@ + entries[clash].name))
        } else {
            None
        },
    }
}

/// The condition of a filtered query: the predicates joined by `AND`, in
/// their order; nothing where there is no predicate.
pub open spec fn where_part(predicates: Seq<Seq<char>>) -> Seq<char> {
    if predicates.len() == 0 {
        Seq::empty()
    } else {
        " WHERE "@ + join(predicates, " AND "@)
    }
}

/// The skip clause, if rows are skipped.
pub open spec fn skip_part(skip: Option<usize>) -> Seq<char> {
    match skip {
        Some(n) => " SKIP "@ + decimal(n as nat),
        None => Seq::empty(),
    }
}

/// The limit clause, if the rows are limited.
pub open spec fn limit_part(limit: Option<usize>) -> Seq<char> {
    match limit {
        Some(n) => " LIMIT "@ + decimal(n as nat),
        None => Seq::empty(),
    }
}

/// The query for the nodes of a label that meet all predicates, with the
/// skip clause before the limit clause.
pub open spec fn filtered_query_text(
    label: Seq<char>,
    predicates: Seq<Seq<char>>,
    skip: Option<usize>,
    limit: Option<usize>,
) -> Seq<char> {
    "MATCH (n:"@ + label + ")"@ + where_part(predicates) + " RETURN n"@ + skip_part(skip)
        + limit_part(limit)
}

/// The names of the entries, in their order.
pub open spec fn names(entries: Seq<PropertyView>) -> Seq<Seq<char>> {
    Seq::new(entries.len(), |i: int| entries[i].name)
}

/// Values are bound and never written into the text: the text of a statement
/// is the same whatever the primary key, the identities and the values of the
/// properties are, as long as the names of the properties are the same.
pub proof fn lemma_text_holds_no_value(
    node: EntityMetadataView,
    relationship: RelationshipMetadataView,
    first: Seq<PropertyView>,
    second: Seq<PropertyView>,
    first_key: Seq<char>,
    second_key: Seq<char>,
    first_end: Seq<char>,
    second_end: Seq<char>,
)
    requires
        names(first) == names(second),
    ensures
        insert_node_statement(node, first).text == insert_node_statement(node, second).text,
        delete_node_statement(node, first_key).text == delete_node_statement(node, second_key).text,
        find_node_statement(node, first_key).text == find_node_statement(node, second_key).text,
        create_relationship_statement(relationship, first_key, first_end, first).text
            == create_relationship_statement(relationship, second_key, second_end, second).text,
{
    assert(first.len() == names(first).len());
    assert forall|i: int| 0 <= i < first.len() implies assignments(first)[i] == assignments(
        second,
    )[i] by {
        assert(names(second)[i] == second[i].name);
    }
    assert(assignments(first) =~= assignments(second));
}

/// Finds the first entry with a value of an unsupported kind.
pub fn check_supported(dictionary: &PropertyDictionary) -> (checked: Result<(), Error>)
    ensures
        match checked {
            Ok(_) => unsupported_entry(dictionary@) is None,
            Err(e) => unsupported_entry(dictionary@) == Some(e@),
        },
{
    let ghost entries = dictionary@;
    let mut i: usize = 0;
    while i < dictionary.len()
        invariant
            i <= dictionary@.len(),
            entries == dictionary@,
            forall|j: int| 0 <= j < i ==> !#[trigger] is_unsupported_value(entries)(j),
        decreases dictionary@.len() - i,
    {
        let entry = dictionary.entry(i);
        match entry.value {
            PropertyValue::Unsupported => {
                proof {
                    lemma_first_index_is(
                        entries.len() as int,
                        is_unsupported_value(entries),
                        i as int,
                    );
                }
                return Err(Error::InvalidPropertyType(entry.name.clone()));
            },
            _ => {},
        }
        i = i + 1;
    }
    proof {
        lemma_first_index_is(
            entries.len() as int,
            is_unsupported_value(entries),
            entries.len() as int,
        );
    }
    Ok(())
}

fn assignment_strings(dictionary: &PropertyDictionary) -> (parts: Vec<String>)
    ensures
        texts(parts@) == assignments(dictionary@),
{
    let mut parts: Vec<String> = Vec::new();
    let mut i: usize = 0;
    while i < dictionary.len()
        invariant
            i <= dictionary@.len(),
            parts@.len() == i,
            forall|j: int| 0 <= j < i ==> (#[trigger] parts@[j])@ == assignment(dictionary@[j].name),
        decreases dictionary@.len() - i,
    {
        let name = dictionary.entry(i).name.as_str();
        let mut part = String::from_str(name);
        part.append(": $");
        part.append(name);
        parts.push(part);
        i = i + 1;
    }
    parts
}

fn text_parameter(name: &str, value: &str) -> (parameters: PropertyDictionary)
    ensures
        parameters@ == seq![text_binding(name@, value@)],
{
    let parameters = PropertyDictionary::new().with(
        name,
        PropertyValue::Text(String::from_str(value)),
    );
    parameters
}

/// The statement that deletes the node of a label and primary key, if there
/// is one.
pub fn delete_node(metadata: &EntityMetadata, primary_key: &str) -> (statement: Statement)
    ensures
        statement@ == delete_node_statement(metadata@, primary_key@),
{
    let key = metadata.primary_key_field();
    let mut text = String::from_str("MATCH (n:");
    text.append(metadata.label());
    text.append(") WHERE n.");
    text.append(key);
    text.append(" = $");
    text.append(key);
    text.append(" DELETE n");
    Statement { text, parameters: text_parameter(key, primary_key) }
}

/// The two statements that create a node so that it replaces any node of the
/// same label and primary key: the first deletes such a node, the second
/// inserts the node with the whole dictionary as its properties. Fails where
/// a value of the dictionary has an unsupported kind.
pub fn create_node(metadata: &EntityMetadata, dictionary: &PropertyDictionary, primary_key: &str) -> (
    created: Result<(Statement, Statement), Error>)
    ensures
        match created {
            Ok((delete, insert)) => {
                &&& unsupported_entry(dictionary@) is None
                &&& delete@ == delete_node_statement(metadata@, primary_key@)
                &&& insert@ == insert_node_statement(metadata@, dictionary@)
            },
            Err(e) => unsupported_entry(dictionary@) == Some(e@),
        },
{
    match check_supported(dictionary) {
        Err(e) => Err(e),
        Ok(_) => {
            let mut insert = String::from_str("CREATE (:");
            insert.append(metadata.label());
            insert.append(" {");
            insert.append(join_strings(&assignment_strings(dictionary), ", ").as_str());
            insert.append("})");
            Ok(
                (
                    delete_node(metadata, primary_key),
                    Statement { text: insert, parameters: dictionary.natives() },
                ),
            )
        },
    }
}

/// The statement that looks up the node of a label and primary key.
pub fn find_node(metadata: &EntityMetadata, primary_key: &str) -> (statement: Statement)
    ensures
        statement@ == find_node_statement(metadata@, primary_key@),
{
    let key = metadata.primary_key_field();
    let mut text = String::from_str("MATCH (n:");
    text.append(metadata.label());
    text.append(") WHERE n.");
    text.append(key);
    text.append(" = $");
    text.append(key);
    text.append(" RETURN n");
    Statement { text, parameters: text_parameter(key, primary_key) }
}

/// The statement that creates a relationship between the nodes of the two
/// identities, with the dictionary as its properties. Fails where a value of
/// the dictionary has an unsupported kind, and where a property has the name
/// of an endpoint field.
pub fn create_relationship(
    metadata: &RelationshipMetadata,
    from_id: &str,
    to_id: &str,
    dictionary: &PropertyDictionary,
) -> (created: Result<Statement, Error>)
    ensures
        match created {
            Ok(statement) => relationship_fault(metadata@, dictionary@) is None && statement@
                == create_relationship_statement(metadata@, from_id@, to_id@, dictionary@),
            Err(e) => relationship_fault(metadata@, dictionary@) == Some(e@),
        },
{
    match check_supported(dictionary) {
        Err(e) => { return Err(e); },
        Ok(_) => {},
    }
    let from_field = metadata.from_field();
    let to_field = metadata.to_field();
    let ghost entries = dictionary@;
    let ghost named = is_named(entries, from_field@, to_field@);
    let ghost ends = seq![text_binding(from_field@, from_id@), text_binding(to_field@, to_id@)];
    let mut parameters = text_parameter(from_field, from_id);
    proof {
        assert(metadata@.columns()[0].name != metadata@.columns()[1].name);
        lemma_absent(parameters@, to_field@, ValueView::Text(to_id@));
    }
    parameters.insert(to_field, PropertyValue::Text(String::from_str(to_id)));
    let count = dictionary.len();
    let mut i: usize = 0;
    while i < count
        invariant
            i <= count == dictionary@.len(),
            entries == dictionary@,
            named == is_named(entries, from_field@, to_field@),
            from_field@ == metadata@.from_field,
            to_field@ == metadata@.to_field,
            ends == seq![text_binding(from_field@, from_id@), text_binding(to_field@, to_id@)],
            unsupported_entry(entries) is None,
            distinct_names(entries),
            forall|j: int| 0 <= j < i ==> !#[trigger] named(j),
            parameters@ == ends + natives(entries).take(i as int),
        decreases count - i,
    {
        let entry = dictionary.entry(i);
        let key = entry.name.clone();
        if key == String::from_str(from_field) || key == String::from_str(to_field) {
            proof {
                lemma_first_index_is(entries.len() as int, named, i as int);
            }
            return Err(
                Error::Query(String::from_str("duplicate parameter ").concat(key.as_str())),
            );
        }
        proof {
            // The name is no endpoint field's and no earlier entry's.
            let held = parameters@;
            assert forall|j: int| 0 <= j < held.len() implies (#[trigger] held[j]).name
                != entry@.name by {
                if j >= 2 {
                    assert(held[j] == natives(entries)[j - 2]);
                }
            }
            lemma_absent(held, entry@.name, native_of(entry@.value));
            assert(held.push(natives(entries)[i as int]) =~= ends + natives(entries).take(i + 1));
        }
        parameters.insert(entry.name.as_str(), entry.value.native());
        i = i + 1;
    }
    proof {
        lemma_first_index_is(entries.len() as int, named, entries.len() as int);
        assert(natives(entries).take(i as int) =~= natives(entries));
    }
    let mut text = String::from_str("MATCH (a:");
    text.append(metadata.from_label());
    text.append("), (b:");
    text.append(metadata.to_label());
    text.append(") WHERE a.");
    text.append(metadata.from_key());
    text.append(" = $");
    text.append(from_field);
    text.append(" AND b.");
    text.append(metadata.to_key());
    text.append(" = $");
    text.append(to_field);
    text.append(" CREATE (a)-[r:");
    text.append(metadata.label());
    text.append(" {");
    text.append(join_strings(&assignment_strings(dictionary), ", ").as_str());
    text.append("}]->(b)");
    Ok(Statement { text, parameters })
}

fn filtered_text(label: &str, predicates: &Vec<String>, skip: Option<usize>, limit: Option<usize>) -> (
    text: String)
    ensures
        text@ == filtered_query_text(label@, texts(predicates@), skip, limit),
{
    let mut condition = String::new();
    if predicates.len() > 0 {
        condition.append(" WHERE ");
        condition.append(join_strings(predicates, " AND ").as_str());
    }
    let mut skipped = String::new();
    match skip {
        Some(n) => {
            skipped.append(" SKIP ");
            skipped.append(render_decimal(n).as_str());
        },
        None => {},
    }
    let mut limited = String::new();
    match limit {
        Some(n) => {
            limited.append(" LIMIT ");
            limited.append(render_decimal(n).as_str());
        },
        None => {},
    }
    let mut text = String::from_str("MATCH (n:");
    text.append(label);
    text.append(")");
    text.append(condition.as_str());
    text.append(" RETURN n");
    text.append(skipped.as_str());
    text.append(limited.as_str());
    text
}

/// The query for the nodes of a type that meet all predicates, in the order
/// given, with an optional skip and after it an optional limit.
pub fn filtered_query(
    metadata: &EntityMetadata,
    predicates: &Vec<String>,
    skip: Option<usize>,
    limit: Option<usize>,
) -> (statement: Statement)
    ensures
        statement@ == bare(filtered_query_text(metadata@.label, texts(predicates@), skip, limit)),
{
    Statement::unbound(filtered_text(metadata.label(), predicates, skip, limit))
}

/// What a query builder holds.
pub struct QueryBuilderView {
    pub label: Seq<char>,
    pub conditions: Seq<Seq<char>>,
    pub limit: Option<usize>,
    pub skip: Option<usize>,
}

/// A builder of filtered queries for the nodes of one label.
#[derive(Debug)]
pub struct QueryBuilder {
    label: String,
    conditions: Vec<String>,
    limit: Option<usize>,
    skip: Option<usize>,
}

impl View for QueryBuilder {
    type V = QueryBuilderView;

    closed spec fn view(&self) -> QueryBuilderView {
        QueryBuilderView {
            label: self.label@,
            conditions: texts(self.conditions@),
            limit: self.limit,
            skip: self.skip,
        }
    }
}

impl QueryBuilder {
    /// A builder for the nodes of that label, without conditions, skip or
    /// limit.
    #[must_use]
    pub fn new(label: &str) -> (builder: QueryBuilder)
        ensures
            builder@ == (QueryBuilderView {
                label: label@,
                conditions: Seq::empty(),
                limit: None,
                skip: None,
            }),
    {
        let builder = QueryBuilder {
            label: String::from_str(label),
            conditions: Vec::new(),
            limit: None,
            skip: None,
        };
        assert(builder@.conditions =~= Seq::<Seq<char>>::empty());
        builder
    }

    /// Adds a condition after those already given.
    #[must_use]
    pub fn where_clause(self, condition: &str) -> (builder: QueryBuilder)
        ensures
            builder@ == (QueryBuilderView {
                conditions: self@.conditions.push(condition@),
                ..self@
            }),
    {
        let mut builder = self;
        builder.conditions.push(String::from_str(condition));
        assert(builder@.conditions =~= self@.conditions.push(condition@));
        builder
    }

    /// Limits the number of rows; replaces an earlier limit.
    #[must_use]
    pub fn limit(self, limit: usize) -> (builder: QueryBuilder)
        ensures
            builder@ == (QueryBuilderView { limit: Some(limit), ..self@ }),
    {
        let mut builder = self;
        builder.limit = Some(limit);
        builder
    }

    /// Skips a number of rows; replaces an earlier skip.
    #[must_use]
    pub fn skip(self, skip: usize) -> (builder: QueryBuilder)
        ensures
            builder@ == (QueryBuilderView { skip: Some(skip), ..self@ }),
    {
        let mut builder = self;
        builder.skip = Some(skip);
        builder
    }

    /// The text of the query.
    pub fn build(&self) -> (text: String)
        ensures
            text@ == filtered_query_text(
                self@.label,
                self@.conditions,
                self@.skip,
                self@.limit,
            ),
    {
        filtered_text(self.label.as_str(), &self.conditions, self.skip, self.limit)
    }
}

} // verus!
