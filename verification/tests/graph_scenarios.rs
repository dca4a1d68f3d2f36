// Scenarios that run the plans of the library against a small store in
// memory, which stands in for the engine.

use kuzu_ogm::codec::{Cell, Record};
use kuzu_ogm::derive::{
    derive_node, derive_relationship, from_node, id, label, property, to_node, TypeDeclaration,
};
use kuzu_ogm::dictionary::PropertyDictionary;
use kuzu_ogm::error::Error;
use kuzu_ogm::graph::{KuzuGraph, Plan, Route};
use kuzu_ogm::metadata::{EntityMetadata, RelationshipMetadata};
use kuzu_ogm::statement::Statement;
use kuzu_ogm::transaction::{Transaction, TransactionState};
use kuzu_ogm::value::PropertyValue;

#[derive(Clone)]
struct Edge {
    label: String,
    from: String,
    to: String,
}

#[derive(Clone)]
struct Store {
    tables: Vec<String>,
    nodes: Vec<Record>,
    edges: Vec<Edge>,
}

struct Engine {
    committed: Store,
    open: Option<Store>,
    log: Vec<(Route, String)>,
}

fn between<'a>(text: &'a str, start: &str, end: &str) -> &'a str {
    let from = text.find(start).unwrap() + start.len();
    let to = from + text[from..].find(end).unwrap();
    &text[from..to]
}

fn has_key(node: &Record, label: &str, key: &str, value: &PropertyValue) -> bool {
    node.label == label && node.fields.get(key) == Some(value)
}

impl Engine {
    fn new() -> Engine {
        Engine {
            committed: Store { tables: Vec::new(), nodes: Vec::new(), edges: Vec::new() },
            open: None,
            log: Vec::new(),
        }
    }

    fn store(&mut self, route: Route) -> &mut Store {
        match (route, self.open.as_mut()) {
            (Route::Transaction, Some(open)) => open,
            _ => &mut self.committed,
        }
    }

    fn execute(&mut self, route: Route, statement: &Statement) -> Result<Vec<Vec<Cell>>, Error> {
        let text = statement.text.as_str();
        let parameters = &statement.parameters;
        self.log.push((route, statement.text.clone()));
        if text == "BEGIN TRANSACTION" {
            self.open = Some(self.committed.clone());
            return Ok(Vec::new());
        }
        if text == "COMMIT" {
            match self.open.take() {
                Some(open) => self.committed = open,
                None => return Err(Error::Database("no transaction".to_string())),
            }
            return Ok(Vec::new());
        }
        if text == "ROLLBACK" {
            return match self.open.take() {
                Some(_) => Ok(Vec::new()),
                None => Err(Error::Database("no transaction".to_string())),
            };
        }
        if text.starts_with("CREATE NODE TABLE IF NOT EXISTS ") {
            let label = between(text, "EXISTS ", " (").to_string();
            let store = self.store(route);
            if !store.tables.contains(&label) {
                store.tables.push(label);
            }
            return Ok(Vec::new());
        }
        if text.starts_with("CREATE REL TABLE IF NOT EXISTS ") {
            let label = between(text, "EXISTS ", " (").to_string();
            let store = self.store(route);
            if !store.tables.contains(&label) {
                store.tables.push(label);
            }
            return Ok(Vec::new());
        }
        if text.starts_with("MATCH (n:") && text.ends_with(" DELETE n") {
            let label = between(text, "(n:", ")");
            let key = parameters.entry(0);
            assert_eq!(text, format!("MATCH (n:{label}) WHERE n.{0} = ${0} DELETE n", key.name));
            let store = self.store(route);
            store.nodes.retain(|node| !has_key(node, label, &key.name, &key.value));
            return Ok(Vec::new());
        }
        if text.starts_with("CREATE (:") {
            let label = between(text, "(:", " {").to_string();
            let mut fields = PropertyDictionary::new();
            for i in 0..parameters.len() {
                let entry = parameters.entry(i);
                assert!(text.contains(&format!("{0}: ${0}", entry.name)));
                assert!(!matches!(entry.value, PropertyValue::UInt64(n) if n <= i64::MAX as u64));
                fields.insert(&entry.name, entry.value.clone());
            }
            let store = self.store(route);
            if !store.tables.contains(&label) {
                return Err(Error::Database(format!("Table {label} does not exist.")));
            }
            store.nodes.push(Record { label, fields });
            return Ok(Vec::new());
        }
        if text.starts_with("MATCH (n:") && text.ends_with(" RETURN n") && parameters.len() == 1 {
            let label = between(text, "(n:", ")");
            let key = parameters.entry(0);
            assert_eq!(text, format!("MATCH (n:{label}) WHERE n.{0} = ${0} RETURN n", key.name));
            let store = self.store(route);
            return Ok(store
                .nodes
                .iter()
                .filter(|node| has_key(node, label, &key.name, &key.value))
                .map(|node| vec![Cell::Node(node.clone())])
                .collect());
        }
        if text.starts_with("MATCH (a:") {
            let from_label = between(text, "(a:", ")");
            let to_label = between(text, "(b:", ")");
            let from_key = between(text, "WHERE a.", " = $");
            let to_key = between(text, "AND b.", " = $");
            let label = between(text, "[r:", " {").to_string();
            let from = parameters.entry(0).value.clone();
            let to = parameters.entry(1).value.clone();
            let store = self.store(route);
            let source = store.nodes.iter().any(|node| has_key(node, from_label, from_key, &from));
            let target = store.nodes.iter().any(|node| has_key(node, to_label, to_key, &to));
            if let (true, true, PropertyValue::Text(from), PropertyValue::Text(to)) =
                (source, target, from, to)
            {
                store.edges.push(Edge { label, from, to });
            }
            return Ok(Vec::new());
        }
        if text.starts_with("MATCH (u1:User)-[f:FOLLOWS]->(u2:User)") && text.contains("COUNT(*)") {
            let target = between(text, "u2.id = '", "'").to_string();
            let store = self.store(route);
            let count =
                store.edges.iter().filter(|edge| edge.label == "FOLLOWS" && edge.to == target).count();
            return Ok(vec![vec![Cell::Value(PropertyValue::Int64(count as i64))]]);
        }
        Err(Error::Database(format!("Query execution failed: {text}")))
    }
}

struct Client {
    engine: Engine,
}

impl Client {
    fn run(&mut self, plan: Plan) -> Result<Vec<Vec<Cell>>, Error> {
        let mut rows = Vec::new();
        for statement in &plan.statements {
            rows = self.engine.execute(plan.route, statement)?;
        }
        Ok(rows)
    }

    fn create_node_table(&mut self, metadata: &EntityMetadata) -> Result<(), Error> {
        self.run(KuzuGraph::create_node_table(metadata)).map(|_| ())
    }

    fn create_relationship_table(&mut self, metadata: &RelationshipMetadata) -> Result<(), Error> {
        self.run(KuzuGraph::create_relationship_table(metadata)).map(|_| ())
    }

    fn create_node(&mut self, metadata: &EntityMetadata, node: &PropertyDictionary) -> Result<(), Error> {
        let plan = KuzuGraph::create_node(metadata, node)?;
        self.run(plan).map(|_| ())
    }

    fn find_node(
        &mut self,
        metadata: &EntityMetadata,
        id: &str,
    ) -> Result<Option<PropertyDictionary>, Error> {
        let rows = self.run(KuzuGraph::find_node(metadata, id))?;
        KuzuGraph::found_node(metadata, &rows)
    }

    fn create_relationship(
        &mut self,
        metadata: &RelationshipMetadata,
        instance: &PropertyDictionary,
    ) -> Result<(), Error> {
        let plan = KuzuGraph::create_relationship(metadata, instance)?;
        self.run(plan).map(|_| ())
    }

    fn query(&mut self, query: &str) -> Result<Vec<Vec<Cell>>, Error> {
        self.run(KuzuGraph::query(query))
    }

    fn begin_transaction(&mut self) -> Result<Transaction, Error> {
        let outcome = self.run(KuzuGraph::begin_transaction()).map(|_| ());
        Transaction::begun(outcome)
    }

    fn issue(&mut self, statement: Option<Statement>) -> Result<(), Error> {
        match statement {
            Some(statement) => self.engine.execute(Route::Transaction, &statement).map(|_| ()),
            None => Ok(()),
        }
    }

    fn commit(&mut self, transaction: &mut Transaction) -> Result<(), Error> {
        let outcome = self.issue(transaction.commit());
        transaction.committed(outcome)
    }

    fn rollback(&mut self, transaction: &mut Transaction) -> Result<(), Error> {
        let outcome = self.issue(transaction.rollback());
        transaction.rolled_back(outcome)
    }

    fn release(&mut self, transaction: Transaction) {
        let _ = self.issue(transaction.release());
    }

    fn transaction<T>(
        &mut self,
        unit: impl FnOnce(&mut Client, &Transaction) -> Result<T, Error>,
    ) -> Result<T, Error> {
        let mut transaction = self.begin_transaction()?;
        let result = unit(self, &transaction);
        let closing = Transaction::closing(result.is_ok());
        let outcome = self.issue(transaction.issue(closing));
        let concluded = KuzuGraph::transaction(&mut transaction, result, outcome);
        self.release(transaction);
        concluded
    }

    fn create_node_in_transaction(
        &mut self,
        _transaction: &Transaction,
        metadata: &EntityMetadata,
        node: &PropertyDictionary,
    ) -> Result<(), Error> {
        let plan = KuzuGraph::create_node_in_transaction(metadata, node)?;
        self.run(plan).map(|_| ())
    }
}

fn declaration(name: &str) -> TypeDeclaration {
    TypeDeclaration { name: name.to_string(), label: None, fields: Vec::new() }
}

fn user_type() -> EntityMetadata {
    let mut user = label(declaration("User"), "User");
    user.fields = vec![id("id", "String"), property("name", "String"), property("age", "u32")];
    derive_node(&user).unwrap()
}

fn follows_type() -> RelationshipMetadata {
    let mut follows = label(declaration("Follows"), "FOLLOWS");
    follows.fields =
        vec![from_node("from", "String"), to_node("to", "String"), property("since", "u32")];
    derive_relationship(&follows, &user_type(), &user_type()).unwrap()
}

fn account_type() -> EntityMetadata {
    let mut account = label(declaration("Account"), "Account");
    account.fields = vec![id("id", "String"), property("balance", "i64")];
    derive_node(&account).unwrap()
}

fn user(id: &str, name: &str, age: u32) -> PropertyDictionary {
    PropertyDictionary::new()
        .with("id", PropertyValue::Text(id.to_string()))
        .with("name", PropertyValue::Text(name.to_string()))
        .with("age", PropertyValue::UInt64(age as u64))
}

fn follows(from: &str, to: &str, since: u32) -> PropertyDictionary {
    PropertyDictionary::new()
        .with("from", PropertyValue::Text(from.to_string()))
        .with("to", PropertyValue::Text(to.to_string()))
        .with("since", PropertyValue::UInt64(since as u64))
}

fn account(id: &str, balance: i64) -> PropertyDictionary {
    PropertyDictionary::new()
        .with("id", PropertyValue::Text(id.to_string()))
        .with("balance", PropertyValue::Int64(balance))
}

fn id_of(entity: &PropertyDictionary) -> String {
    match entity.get("id") {
        Some(PropertyValue::Text(id)) => id.clone(),
        other => panic!("Expected a text value, found {other:?}"),
    }
}

fn balance(account: &PropertyDictionary) -> i64 {
    match account.get("balance") {
        Some(PropertyValue::Int64(balance)) => *balance,
        other => panic!("Expected Int64 value, found {other:?}"),
    }
}

fn setup_test_db() -> Client {
    let mut db = Client { engine: Engine::new() };
    db.create_node_table(&user_type()).unwrap();
    db.create_relationship_table(&follows_type()).unwrap();
    db
}

fn setup_transaction_db() -> Client {
    let mut db = Client { engine: Engine::new() };
    db.create_node_table(&account_type()).unwrap();
    db.create_node(&account_type(), &account("dummy", 0)).unwrap();
    db
}

#[test]
fn test_crud_operations() {
    let mut db = setup_test_db();

    let user_record = user("u1", "Alice", 25);
    db.create_node(&user_type(), &user_record).unwrap();

    let fetched_user = db.find_node(&user_type(), "u1").unwrap();
    assert!(fetched_user.is_some());
    assert_eq!(fetched_user.unwrap(), user_record);

    let updated_user = user_record.with("age", PropertyValue::UInt64(26));
    db.create_node(&user_type(), &updated_user).unwrap();

    let fetched_updated = db.find_node(&user_type(), "u1").unwrap();
    assert_eq!(fetched_updated.unwrap().get("age"), Some(&PropertyValue::UInt64(26)));

    let exists = db.find_node(&user_type(), "u1").unwrap();
    assert!(exists.is_some());
    let records = db.engine.committed.nodes.iter().filter(|node| node.label == "User").count();
    assert_eq!(records, 1);
}

#[test]
fn test_relationships() {
    let mut db = setup_test_db();

    db.create_node_table(&user_type()).unwrap();
    db.create_relationship_table(&follows_type()).unwrap();

    let alice = user("u1", "Alice", 25);
    let bob = user("u2", "Bob", 30);
    db.create_node(&user_type(), &alice).unwrap();
    db.create_node(&user_type(), &bob).unwrap();

    db.create_relationship(&follows_type(), &follows(&id_of(&alice), &id_of(&bob), 2024)).unwrap();

    let query = format!(
        "MATCH (u1:User)-[f:FOLLOWS]->(u2:User) 
             WHERE u2.id = '{}' 
             RETURN COUNT(*) as count",
        id_of(&bob)
    );

    let rows = db.query(&query).unwrap();
    let count = match &rows[0][0] {
        Cell::Value(PropertyValue::Int64(n)) => *n,
        _ => panic!("Expected Int64 value"),
    };
    assert_eq!(count, 1);
}

#[test]
fn test_transaction_commit() {
    let mut db = setup_transaction_db();

    let mut txn = db.begin_transaction().unwrap();

    let account1 = account("acc1", 1000);
    let account2 = account("acc2", 2000);

    db.create_node_in_transaction(&txn, &account_type(), &account1).unwrap();
    db.create_node_in_transaction(&txn, &account_type(), &account2).unwrap();

    db.commit(&mut txn).unwrap();

    let acc1 = db.find_node(&account_type(), "acc1").unwrap();
    let acc2 = db.find_node(&account_type(), "acc2").unwrap();

    assert!(acc1.is_some());
    assert!(acc2.is_some());
    assert_eq!(balance(&acc1.unwrap()), 1000);
    assert_eq!(balance(&acc2.unwrap()), 2000);
}

#[test]
fn test_transaction_rollback() {
    let mut db = setup_transaction_db();

    let mut txn = db.begin_transaction().unwrap();

    let account = account("acc3", 3000);
    db.create_node_in_transaction(&txn, &account_type(), &account).unwrap();

    db.rollback(&mut txn).unwrap();

    let acc = db.find_node(&account_type(), "acc3").unwrap();
    assert!(acc.is_none());
}

#[test]
fn test_transaction_scope() {
    let mut db = setup_transaction_db();

    let result: Result<(), Error> = db.transaction(|db, txn| {
        let account = account("acc4", 4000);
        db.create_node_in_transaction(txn, &account_type(), &account)?;
        Ok(())
    });

    assert!(result.is_ok());

    let acc = db.find_node(&account_type(), "acc4").unwrap();
    assert!(acc.is_some());
    assert_eq!(balance(&acc.unwrap()), 4000);
}

#[test]
fn test_transaction_error_handling() {
    let mut db = setup_transaction_db();

    let result: Result<(), Error> = db.transaction(|db, txn| {
        let account = account("acc5", 5000);
        db.create_node_in_transaction(txn, &account_type(), &account)?;
        Err(Error::InvalidPropertyType("Simulated error".into()))
    });

    assert!(result.is_err());
    assert_eq!(result, Err(Error::InvalidPropertyType("Simulated error".to_string())));

    let acc = db.find_node(&account_type(), "acc5").unwrap();
    assert!(acc.is_none());
}

#[test]
fn test_transaction_automatic_rollback() {
    let mut db = setup_transaction_db();

    {
        let txn = db.begin_transaction().unwrap();

        let account = account("acc6", 6000);
        db.create_node_in_transaction(&txn, &account_type(), &account).unwrap();

        db.release(txn);
    }

    let acc = db.find_node(&account_type(), "acc6").unwrap();
    assert!(acc.is_none());
    assert!(db.engine.open.is_none());
}

#[test]
fn writes_of_one_transaction_become_visible_together_or_not_at_all() {
    let mut db = setup_transaction_db();
    let both: Result<u8, Error> = db.transaction(|db, txn| {
        db.create_node_in_transaction(txn, &account_type(), &account("a", 1))?;
        assert!(db.find_node(&account_type(), "a").unwrap().is_none());
        db.create_node_in_transaction(txn, &account_type(), &account("b", 2))?;
        Ok(2)
    });
    assert_eq!(both, Ok(2));
    assert!(db.find_node(&account_type(), "a").unwrap().is_some());
    assert!(db.find_node(&account_type(), "b").unwrap().is_some());

    let neither: Result<u8, Error> = db.transaction(|db, txn| {
        db.create_node_in_transaction(txn, &account_type(), &account("c", 3))?;
        db.create_node_in_transaction(txn, &account_type(), &account("d", -4).with("id", PropertyValue::Unsupported))?;
        Ok(2)
    });
    assert_eq!(neither, Err(Error::InvalidPropertyType("id".to_string())));
    assert!(db.find_node(&account_type(), "c").unwrap().is_none());
    assert!(db.find_node(&account_type(), "d").unwrap().is_none());
}

#[test]
fn committing_twice_issues_one_commit() {
    let mut db = setup_transaction_db();
    let mut txn = db.begin_transaction().unwrap();
    db.create_node_in_transaction(&txn, &account_type(), &account("acc7", 7000)).unwrap();
    db.commit(&mut txn).unwrap();
    db.commit(&mut txn).unwrap();
    db.rollback(&mut txn).unwrap();
    db.release(txn);
    let commits = db.engine.log.iter().filter(|(_, text)| text == "COMMIT").count();
    let rollbacks = db.engine.log.iter().filter(|(_, text)| text == "ROLLBACK").count();
    assert_eq!((commits, rollbacks), (1, 0));
    assert_eq!(balance(&db.find_node(&account_type(), "acc7").unwrap().unwrap()), 7000);
}

#[test]
fn every_operation_outside_a_transaction_runs_on_a_fresh_connection() {
    let mut db = setup_test_db();
    db.create_node(&user_type(), &user("u1", "Alice", 25)).unwrap();
    db.find_node(&user_type(), "u1").unwrap();
    db.create_relationship(&follows_type(), &follows("u1", "u1", 2024)).unwrap();
    assert!(db.engine.log.iter().all(|(route, _)| *route == Route::Fresh));
    let mut txn = db.begin_transaction().unwrap();
    assert_eq!(db.engine.log.last(), Some(&(Route::Dedicated, "BEGIN TRANSACTION".to_string())));
    db.create_node_in_transaction(&txn, &user_type(), &user("u2", "Bob", 30)).unwrap();
    assert_eq!(db.engine.log.last().unwrap().0, Route::Transaction);
    db.rollback(&mut txn).unwrap();
    assert_eq!(txn.state(), TransactionState::RolledBack);
}

#[test]
fn a_statement_that_fails_ends_the_operation_with_the_failure() {
    let mut db = Client { engine: Engine::new() };
    assert_eq!(
        db.query("DROP EVERYTHING"),
        Err(Error::Database("Query execution failed: DROP EVERYTHING".to_string()))
    );
    let mut txn = db.begin_transaction().unwrap();
    assert_eq!(
        db.create_node_in_transaction(&txn, &account_type(), &account("acc8", 8)),
        Err(Error::Database("Table Account does not exist.".to_string()))
    );
    db.rollback(&mut txn).unwrap();
}

#[test]
fn a_lookup_without_a_node_finds_none() {
    let metadata = account_type();
    assert_eq!(KuzuGraph::found_node(&metadata, &Vec::new()), Ok(None));
    assert_eq!(KuzuGraph::found_node(&metadata, &vec![Vec::new()]), Ok(None));
    let scalar = vec![vec![Cell::Value(PropertyValue::Int64(1))]];
    assert_eq!(KuzuGraph::found_node(&metadata, &scalar), Ok(None));
    let edge = Record { label: "FOLLOWS".to_string(), fields: account("x", 1) };
    assert_eq!(KuzuGraph::found_node(&metadata, &vec![vec![Cell::Relationship(edge)]]), Ok(None));
    let first = Record { label: "Account".to_string(), fields: account("x", 1) };
    let second = Record { label: "Account".to_string(), fields: account("y", 2) };
    let rows = vec![vec![Cell::Node(first), Cell::Node(second.clone())], vec![Cell::Node(second)]];
    assert_eq!(KuzuGraph::found_node(&metadata, &rows), Ok(Some(account("x", 1))));
    let broken = Record { label: "Account".to_string(), fields: PropertyDictionary::new() };
    assert_eq!(
        KuzuGraph::found_node(&metadata, &vec![vec![Cell::Node(broken)]]),
        Err(Error::Serialization("id".to_string()))
    );
}
