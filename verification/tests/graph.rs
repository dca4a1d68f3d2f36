use kuzu_ogm::dictionary::PropertyDictionary;
use kuzu_ogm::error::Error;
use kuzu_ogm::graph::{KuzuGraph, Plan, Route};
use kuzu_ogm::metadata::{EntityMetadata, PropertySchema, RelationshipMetadata};
use kuzu_ogm::statement::Statement;
use kuzu_ogm::value::{PropertyValue, SemanticType};

fn schema(name: &str, kind: SemanticType) -> PropertySchema {
    PropertySchema { name: name.to_string(), kind }
}

fn text(value: &str) -> PropertyValue {
    PropertyValue::Text(value.to_string())
}

fn user() -> EntityMetadata {
    EntityMetadata::new(
        "User",
        "id",
        vec![schema("name", SemanticType::Text), schema("age", SemanticType::UInt64)],
    )
    .unwrap()
}

fn follows() -> RelationshipMetadata {
    RelationshipMetadata::new(
        "FOLLOWS",
        "from",
        "to",
        &user(),
        &user(),
        vec![schema("since", SemanticType::UInt64)],
    )
    .unwrap()
}

fn alice() -> PropertyDictionary {
    PropertyDictionary::new()
        .with("id", text("u1"))
        .with("name", text("Alice"))
        .with("age", PropertyValue::UInt64(25))
}

fn unbound(text: &str) -> Statement {
    Statement::unbound(text.to_string())
}

const USER_TABLE: &str =
    "CREATE NODE TABLE IF NOT EXISTS User (id STRING, name STRING, age INT64, PRIMARY KEY(id))";

#[test]
fn table_plans() {
    assert_eq!(
        KuzuGraph::create_node_table(&user()),
        Plan { route: Route::Fresh, statements: vec![unbound(USER_TABLE)] }
    );
    assert_eq!(
        KuzuGraph::create_relationship_table(&follows()),
        Plan {
            route: Route::Fresh,
            statements: vec![unbound(
                "CREATE REL TABLE IF NOT EXISTS FOLLOWS (FROM User TO User, since INT64)"
            )],
        }
    );
}

#[test]
fn create_node_plan() {
    let fields = PropertyDictionary::new()
        .with("age", PropertyValue::Int64(25))
        .with("name", text("Alice"))
        .with("id", text("u1"));
    let plan = KuzuGraph::create_node(&user(), &fields).unwrap();
    assert_eq!(
        plan,
        Plan {
            route: Route::Fresh,
            statements: vec![
                unbound(USER_TABLE),
                Statement {
                    text: "MATCH (n:User) WHERE n.id = $id DELETE n".to_string(),
                    parameters: PropertyDictionary::new().with("id", text("u1")),
                },
                Statement {
                    text: "CREATE (:User {id: $id, name: $name, age: $age})".to_string(),
                    parameters: alice().with("age", PropertyValue::Int64(25)),
                },
            ],
        }
    );
}

#[test]
fn create_node_in_transaction_plan() {
    let plan = KuzuGraph::create_node_in_transaction(&user(), &alice()).unwrap();
    assert_eq!(plan.route, Route::Transaction);
    assert_eq!(plan.statements, KuzuGraph::create_node(&user(), &alice()).unwrap().statements[1..]);
}

#[test]
fn create_node_fails_as_the_codec_fails() {
    let unsupported = alice().with("age", PropertyValue::Unsupported);
    assert_eq!(
        KuzuGraph::create_node(&user(), &unsupported),
        Err(Error::InvalidPropertyType("age".to_string()))
    );
    assert_eq!(
        KuzuGraph::create_node_in_transaction(&user(), &unsupported),
        Err(Error::InvalidPropertyType("age".to_string()))
    );
    let keyless = alice().with("id", text(""));
    assert_eq!(
        KuzuGraph::create_node(&user(), &keyless),
        Err(Error::Serialization("id".to_string()))
    );
}

#[test]
fn find_node_plan() {
    assert_eq!(
        KuzuGraph::find_node(&user(), "u1"),
        Plan {
            route: Route::Fresh,
            statements: vec![Statement {
                text: "MATCH (n:User) WHERE n.id = $id RETURN n".to_string(),
                parameters: PropertyDictionary::new().with("id", text("u1")),
            }],
        }
    );
}

#[test]
fn create_relationship_plan() {
    let instance = PropertyDictionary::new()
        .with("from", text("u1"))
        .with("to", text("u2"))
        .with("since", PropertyValue::UInt64(2024))
        .with("note", text("not a property"));
    assert_eq!(
        KuzuGraph::create_relationship(&follows(), &instance),
        Ok(Plan {
            route: Route::Fresh,
            statements: vec![Statement {
                text: "MATCH (a:User), (b:User) WHERE a.id = $from AND b.id = $to \
                       CREATE (a)-[r:FOLLOWS {since: $since}]->(b)"
                    .to_string(),
                parameters: PropertyDictionary::new()
                    .with("from", text("u1"))
                    .with("to", text("u2"))
                    .with("since", PropertyValue::Int64(2024)),
            }],
        })
    );
    let endless = PropertyDictionary::new().with("from", text("u1"));
    assert_eq!(
        KuzuGraph::create_relationship(&follows(), &endless),
        Err(Error::Serialization("to".to_string()))
    );
}

#[test]
fn query_plan_passes_the_text_through() {
    let text = "MATCH (u:User) RETURN COUNT(*)";
    assert_eq!(
        KuzuGraph::query(text),
        Plan { route: Route::Fresh, statements: vec![unbound(text)] }
    );
}
