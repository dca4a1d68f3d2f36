//! The graph client's decisions: which statements an operation runs, on which
//! connection, and what their results mean.

use vstd::prelude::*;
use vstd::string::*;
use crate::codec::{
    conforms,
    from_row,
    includes,
    lemma_conforming,
    lemma_dictionary_conforms,
    lemma_row_of_natives,
    node_dictionary,
    relationship_dictionary,
    relationship_to_dictionary,
    row_entity,
    to_dictionary,
    Cell,
};
use crate::dictionary::{distinct_names, lemma_absent, natives, PropertyDictionary, PropertyView};
use crate::error::{Error, ErrorView};
use crate::first::lemma_first_index_is;
use crate::metadata::{
    EntityMetadata,
    EntityMetadataView,
    RelationshipMetadata,
    RelationshipMetadataView,
};
use crate::query::{
    create_node,
    create_relationship,
    create_relationship_statement,
    delete_node_statement,
    find_node,
    find_node_statement,
    insert_node_statement,
    is_named,
    is_unsupported_value,
};
use crate::schema::{
    ensure_node_table,
    ensure_relationship_table,
    node_table_text,
    relationship_table_text,
};
use crate::statement::{bare, statement_views, Statement, StatementView};
use crate::transaction::{
    answered,
    begin_statement,
    issued,
    settled,
    terminal_statement,
    TerminalCall,
    Transaction,
    TransactionState,
};
use crate::value::{PropertyValue, ValueView};

verus! {

/// The connection that the statements of an operation run on.
#[derive(Clone, Copy, Debug, PartialEq, Eq, Structural)]
pub enum Route {
    /// A connection opened for this operation alone.
    Fresh,
    /// A connection opened for a transaction, which keeps it.
    Dedicated,
    /// The connection of the caller's transaction.
    Transaction,
}

/// What an operation runs: statements, in their order, on one connection.
/// A statement that fails ends the operation with that failure.
#[derive(Debug, PartialEq, Eq)]
pub struct Plan {
    pub route: Route,
    pub statements: Vec<Statement>,
}

/// What a plan holds.
pub struct PlanView {
    pub route: Route,
    pub statements: Seq<StatementView>,
}

impl View for Plan {
    type V = PlanView;

    open spec fn view(&self) -> PlanView {
        PlanView { route: self.route, statements: statement_views(self.statements@) }
    }
}

/// The text that a value holds; the empty text for a value of another kind.
pub open spec fn text_of(value: ValueView) -> Seq<char> {
    match value {
        ValueView::Text(text) => text,
        _ => Seq::empty(),
    }
}

/// The statements that create a node so that it replaces any node of its
/// label and primary key: the deletion, and after it the insertion of the
/// whole dictionary.
pub open spec fn replace_statements(
    metadata: EntityMetadataView,
    entries: Seq<PropertyView>,
) -> Seq<StatementView> {
    seq![
        delete_node_statement(metadata, text_of(entries[0].value)),
        insert_node_statement(metadata, entries),
    ]
}

/// Replace semantics: the node that is deleted is the node that is inserted.
/// The deletion binds the primary key to the very value that the insertion
/// binds it to, and the insertion binds the whole dictionary, as the engine
/// holds it.
pub proof fn lemma_replace_same_key(metadata: EntityMetadataView, entity: Seq<PropertyView>)
    requires
        node_dictionary(metadata, entity) is Ok,
    ensures
        ({
            let entries = node_dictionary(metadata, entity)->Ok_0;
            let statements = replace_statements(metadata, entries);
            &&& statements[0].parameters == seq![entries[0]]
            &&& statements[1].parameters == natives(entries)
            &&& statements[1].parameters[0] == statements[0].parameters[0]
            &&& entries[0].name == metadata.primary_key_field
        }),
{
    // The primary key is the first entry, and its value is text.
    lemma_dictionary_conforms(metadata, entity);
}

/// The plan that creates a node: on a fresh connection, the statement that
/// makes sure of the table, and the statements that replace the node.
pub open spec fn create_node_plan(
    metadata: EntityMetadataView,
    entity: Seq<PropertyView>,
) -> Result<PlanView, ErrorView> {
    match node_dictionary(metadata, entity) {
        Err(fault) => Err(fault),
        Ok(entries) => Ok(
            PlanView {
                route: Route::Fresh,
                statements: seq![bare(node_table_text(metadata))] + replace_statements(
                    metadata,
                    entries,
                ),
            },
        ),
    }
}

/// The plan that creates a node within the caller's transaction: on the
/// transaction's connection, the statements that replace the node.
pub open spec fn create_node_in_transaction_plan(
    metadata: EntityMetadataView,
    entity: Seq<PropertyView>,
) -> Result<PlanView, ErrorView> {
    match node_dictionary(metadata, entity) {
        Err(fault) => Err(fault),
        Ok(entries) => Ok(
            PlanView { route: Route::Transaction, statements: replace_statements(metadata, entries) },
        ),
    }
}

/// The plan that creates a relationship: on a fresh connection, the
/// statement that matches the two nodes by the instance's endpoint fields and
/// creates the relationship with the instance's properties.
pub open spec fn create_relationship_plan(
    metadata: RelationshipMetadataView,
    instance: Seq<PropertyView>,
) -> Result<PlanView, ErrorView> {
    match relationship_dictionary(metadata, instance) {
        Err(fault) => Err(fault),
        Ok(fields) => Ok(
            PlanView {
                route: Route::Fresh,
                statements: seq![
                    create_relationship_statement(
                        metadata,
                        text_of(fields[0].value),
                        text_of(fields[1].value),
                        fields.skip(2),
                    ),
                ],
            },
        ),
    }
}

/// The node that the rows of a lookup hold: none where there is no row, or
/// where the first row does not begin with a node; else the entity that the
/// node of the first row holds.
pub open spec fn found(metadata: EntityMetadataView, rows: Seq<Vec<Cell>>) -> Result<
    Option<Seq<PropertyView>>,
    ErrorView,
> {
    if rows.len() == 0 || rows[0]@.len() == 0 {
        Ok(None)
    } else {
        match rows[0]@[0] {
            Cell::Node(record) => match row_entity(metadata, record.fields@) {
                Ok(entity) => Ok(Some(entity)),
                Err(fault) => Err(fault),
            },
            _ => Ok(None),
        }
    }
}

/// What a unit of work in a transaction comes to: its own result where it
/// succeeded and the commit did not fail; the failure of the commit where
/// that failed; its own failure, unchanged, where it failed, whatever became
/// of the rollback.
pub open spec fn concluded<T, E>(
    state: TransactionState,
    unit: Result<T, E>,
    outcome: Result<(), E>,
) -> Result<T, E> {
    match unit {
        Ok(value) => match answered(state, outcome) {
            Ok(_) => Ok(value),
            Err(fault) => Err(fault),
        },
        Err(fault) => Err(fault),
    }
}

/// The terminal call that ends a unit of work.
pub open spec fn closing_call<T, E>(unit: Result<T, E>) -> TerminalCall {
    if unit is Ok {
        TerminalCall::Commit
    } else {
        TerminalCall::Rollback
    }
}

/// Round trip through the store: where the lookup of a node that was
/// created returns a row that begins with a node that has what the creation
/// inserted, the lookup gives the property dictionary of the entity; and that
/// is the entity itself where the entity conforms to the metadata.
pub proof fn lemma_find_after_create(
    metadata: EntityMetadataView,
    entity: Seq<PropertyView>,
    rows: Seq<Vec<Cell>>,
)
    requires
        metadata.well_formed(),
        create_node_plan(metadata, entity) is Ok,
        rows.len() > 0,
        rows[0]@.len() > 0,
        rows[0]@[0] matches Cell::Node(record) && includes(
            record.fields@,
            create_node_plan(metadata, entity)->Ok_0.statements[2].parameters,
        ),
    ensures
        found(metadata, rows) == Ok::<Option<Seq<PropertyView>>, ErrorView>(
            Some(node_dictionary(metadata, entity)->Ok_0),
        ),
        conforms(metadata, entity) ==> found(metadata, rows) == Ok::<
            Option<Seq<PropertyView>>,
            ErrorView,
        >(Some(entity)),
{
    let entries = node_dictionary(metadata, entity)->Ok_0;
    lemma_dictionary_conforms(metadata, entity);
    match rows[0]@[0] {
        Cell::Node(record) => {
            lemma_row_of_natives(metadata, record.fields@, entries);
        },
        _ => {},
    }
    if conforms(metadata, entity) {
        lemma_conforming(metadata, entity);
    }
}

/// A unit of work is atomic as far as the calls go. While the transaction is
/// active, the unit ends with one terminal statement: the commit where it
/// succeeded, the rollback where it failed, never the other. Where the
/// engine carries that statement out, the transaction is terminal; where it
/// does not, the transaction stays active, so that its release still rolls
/// it back. The unit's result is a success only where the unit succeeded and
/// the commit was carried out, and a failure of the unit is returned as it
/// is.
pub proof fn lemma_unit_of_work_is_atomic<T, E>(unit: Result<T, E>, outcome: Result<(), E>)
    ensures
        issued(TransactionState::Active, closing_call(unit)) == Some(
            if unit is Ok {
                terminal_statement(TerminalCall::Commit)
            } else {
                terminal_statement(TerminalCall::Rollback)
            },
        ),
        settled(TransactionState::Active, closing_call(unit), true) == (if unit is Ok {
            TransactionState::Committed
        } else {
            TransactionState::RolledBack
        }),
        settled(TransactionState::Active, closing_call(unit), false) is Active,
        issued(TransactionState::Active, TerminalCall::Rollback) == Some(
            terminal_statement(TerminalCall::Rollback),
        ),
        concluded(TransactionState::Active, unit, outcome) is Ok <==> unit is Ok && outcome is Ok,
        unit matches Err(fault) ==> concluded(TransactionState::Active, unit, outcome) == Err::<
            T,
            E,
        >(fault),
        unit matches Ok(value) ==> (outcome is Ok ==> concluded(
            TransactionState::Active,
            unit,
            outcome,
        ) == Ok::<T, E>(value)),
{
}

fn single(route: Route, statement: Statement) -> (plan: Plan)
    ensures
        plan@ == (PlanView { route, statements: seq![statement@] }),
{
    let mut statements: Vec<Statement> = Vec::new();
    statements.push(statement);
    assert(statement_views(statements@) =~= seq![statement@]);
    Plan { route, statements }
}

fn text_in(value: &PropertyValue) -> (text: String)
    ensures
        text@ == text_of(value@),
{
    match value {
        PropertyValue::Text(text) => text.clone(),
        _ => String::new(),
    }
}

fn replace(metadata: &EntityMetadata, entity: &PropertyDictionary) -> (statements: Result<
    Vec<Statement>,
    Error,
>)
    ensures
        match statements {
            Ok(s) => node_dictionary(metadata@, entity@) matches Ok(entries) && statement_views(s@)
                == replace_statements(metadata@, entries),
            Err(e) => node_dictionary(metadata@, entity@) == Err::<Seq<PropertyView>, ErrorView>(
                e@,
            ),
        },
{
    let entries = match to_dictionary(metadata, entity) {
        Err(e) => { return Err(e); },
        Ok(entries) => entries,
    };
    proof {
        // Each value is of its column's kind, and no column's kind is unsupported.
        let held = entries@;
        lemma_first_index_is(held.len() as int, is_unsupported_value(held), held.len() as int);
    }
    let key = text_in(&entries.entry(0).value);
    match create_node(metadata, &entries, key.as_str()) {
        Err(e) => Err(e),
        Ok((delete, insert)) => {
            let mut statements: Vec<Statement> = Vec::new();
            statements.push(delete);
            statements.push(insert);
            Ok(statements)
        },
    }
}

/// The graph client's decisions. It holds no database: whoever runs the
/// plans opens the connections and hands the results back.
#[derive(Debug)]
pub struct KuzuGraph {}

impl KuzuGraph {
    /// The plan that makes sure of the table of a node type.
    pub fn create_node_table(metadata: &EntityMetadata) -> (plan: Plan)
        ensures
            plan@ == (PlanView {
                route: Route::Fresh,
                statements: seq![bare(node_table_text(metadata@))],
            }),
    {
        single(Route::Fresh, ensure_node_table(metadata))
    }

    /// The plan that makes sure of the table of a relationship type.
    pub fn create_relationship_table(metadata: &RelationshipMetadata) -> (plan: Plan)
        ensures
            plan@ == (PlanView {
                route: Route::Fresh,
                statements: seq![bare(relationship_table_text(metadata@))],
            }),
    {
        single(Route::Fresh, ensure_relationship_table(metadata))
    }

    /// The plan that creates a node, replacing any node of its label and
    /// primary key. Fails where the entity has no property dictionary.
    pub fn create_node(metadata: &EntityMetadata, entity: &PropertyDictionary) -> (plan: Result<
        Plan,
        Error,
    >)
        ensures
            match plan {
                Ok(p) => create_node_plan(metadata@, entity@) == Ok::<PlanView, ErrorView>(p@),
                Err(e) => create_node_plan(metadata@, entity@) == Err::<PlanView, ErrorView>(e@),
            },
    {
        match replace(metadata, entity) {
            Err(e) => Err(e),
            Ok(replacing) => {
                let mut statements: Vec<Statement> = Vec::new();
                statements.push(ensure_node_table(metadata));
                let mut replacing = replacing;
                let ghost wanted = seq![bare(node_table_text(metadata@))] + statement_views(
                    replacing@,
                );
                statements.append(&mut replacing);
                assert(statement_views(statements@) =~= wanted);
                Ok(Plan { route: Route::Fresh, statements })
            },
        }
    }

    /// The plan that creates a node within the caller's transaction,
    /// replacing any node of its label and primary key. Fails where the
    /// entity has no property dictionary.
    pub fn create_node_in_transaction(metadata: &EntityMetadata, entity: &PropertyDictionary) -> (plan:
        Result<Plan, Error>)
        ensures
            match plan {
                Ok(p) => create_node_in_transaction_plan(metadata@, entity@) == Ok::<
                    PlanView,
                    ErrorView,
                >(p@),
                Err(e) => create_node_in_transaction_plan(metadata@, entity@) == Err::<
                    PlanView,
                    ErrorView,
                >(e@),
            },
    {
        match replace(metadata, entity) {
            Err(e) => Err(e),
            Ok(statements) => Ok(Plan { route: Route::Transaction, statements }),
        }
    }

    /// The plan that looks up the node of a primary key.
    pub fn find_node(metadata: &EntityMetadata, id: &str) -> (plan: Plan)
        ensures
            plan@ == (PlanView {
                route: Route::Fresh,
                statements: seq![find_node_statement(metadata@, id@)],
            }),
    {
        single(Route::Fresh, find_node(metadata, id))
    }

    /// The node that the rows of a lookup hold, if they hold one.
    pub fn found_node(metadata: &EntityMetadata, rows: &Vec<Vec<Cell>>) -> (node: Result<
        Option<PropertyDictionary>,
        Error,
    >)
        ensures
            match node {
                Ok(Some(entity)) => found(metadata@, rows@) == Ok::<
                    Option<Seq<PropertyView>>,
                    ErrorView,
                >(Some(entity@)),
                Ok(None) => found(metadata@, rows@) == Ok::<Option<Seq<PropertyView>>, ErrorView>(
                    None,
                ),
                Err(e) => found(metadata@, rows@) == Err::<Option<Seq<PropertyView>>, ErrorView>(
                    e@,
                ),
            },
    {
        if rows.len() == 0 {
            return Ok(None);
        }
        let row = &rows[0];
        if row.len() == 0 {
            return Ok(None);
        }
        match &row[0] {
            Cell::Node(record) => match from_row(record, metadata) {
                Ok(entity) => Ok(Some(entity)),
                Err(e) => Err(e),
            },
            _ => Ok(None),
        }
    }

    /// The plan that creates a relationship between the two nodes that the
    /// instance names. Fails where the instance lacks a field or has one of
    /// another or of an unsupported kind.
    pub fn create_relationship(metadata: &RelationshipMetadata, instance: &PropertyDictionary) -> (plan:
        Result<Plan, Error>)
        ensures
            match plan {
                Ok(p) => create_relationship_plan(metadata@, instance@) == Ok::<
                    PlanView,
                    ErrorView,
                >(p@),
                Err(e) => create_relationship_plan(metadata@, instance@) == Err::<
                    PlanView,
                    ErrorView,
                >(e@),
            },
    {
        let fields = match relationship_to_dictionary(metadata, instance) {
            Err(e) => { return Err(e); },
            Ok(fields) => fields,
        };
        let count = fields.len();
        let ghost held = fields@;
        let from_id = text_in(&fields.entry(0).value);
        let to_id = text_in(&fields.entry(1).value);
        let mut properties = PropertyDictionary::new();
        let mut i: usize = 2;
        while i < count
            invariant
                2 <= i <= count == held.len(),
                held == fields@,
                distinct_names(held),
                properties@ == held.skip(2).take(i - 2),
            decreases count - i,
        {
            let entry = fields.entry(i);
            proof {
                // No two fields have the same name, so the entry goes to the end.
                lemma_absent(properties@, entry@.name, entry@.value);
            }
            properties.insert(entry.name.as_str(), entry.value.clone());
            i = i + 1;
        }
        assert(held.skip(2).take(count - 2) =~= held.skip(2));
        proof {
            // The properties follow the two endpoint fields. Each value is of
            // its column's kind, and no name is that of an endpoint field.
            let rest = held.skip(2);
            lemma_first_index_is(rest.len() as int, is_unsupported_value(rest), rest.len() as int);
            let named = is_named(rest, metadata@.from_field, metadata@.to_field);
            lemma_first_index_is(rest.len() as int, named, rest.len() as int);
        }
        match create_relationship(metadata, from_id.as_str(), to_id.as_str(), &properties) {
            Err(e) => Err(e),
            Ok(statement) => Ok(single(Route::Fresh, statement)),
        }
    }

    /// The plan that runs a statement as the caller wrote it.
    pub fn query(query: &str) -> (plan: Plan)
        ensures
            plan@ == (PlanView { route: Route::Fresh, statements: seq![bare(query@)] }),
    {
        single(Route::Fresh, Statement::unbound(String::from_str(query)))
    }

    /// The plan that begins a transaction, on a connection of its own.
    pub fn begin_transaction() -> (plan: Plan)
        ensures
            plan@ == (PlanView { route: Route::Dedicated, statements: seq![begin_statement()] }),
    {
        single(Route::Dedicated, Transaction::begin())
    }

    /// Ends a unit of work that ran in a transaction. `outcome` is the
    /// engine's answer to the statement that the closing call issued: the
    /// commit where the unit succeeded, the rollback where it failed. The
    /// result is the unit's own, but for a commit that failed.
    pub fn transaction<T, E>(
        transaction: &mut Transaction,
        unit: Result<T, E>,
        outcome: Result<(), E>,
    ) -> (result: Result<T, E>)
        ensures
            final(transaction)@ == settled(old(transaction)@, closing_call(unit), outcome is Ok),
            result == concluded(old(transaction)@, unit, outcome),
    {
        match unit {
            Ok(value) => match transaction.settle(TerminalCall::Commit, outcome) {
                Ok(_) => Ok(value),
                Err(fault) => Err(fault),
            },
            Err(fault) => {
                let _ = transaction.settle(TerminalCall::Rollback, outcome);
                Err(fault)
            },
        }
    }
}

} // verus!
