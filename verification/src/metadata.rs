//! Entity metadata: the static description of a node or relationship type.

use vstd::prelude::*;
use vstd::string::*;
use crate::error::{Error, ErrorView};
use crate::first::{first_index, lemma_first_index, lemma_first_index_is};
use crate::value::SemanticType;

verus! {

/// A property of an entity type: its name and the kind of its values.
#[derive(Clone, Debug, PartialEq, Eq)]
pub struct PropertySchema {
    pub name: String,
    pub kind: SemanticType,
}

/// What a property schema holds.
pub struct PropertySchemaView {
    pub name: Seq<char>,
    pub kind: SemanticType,
}

impl View for PropertySchema {
    type V = PropertySchemaView;

    open spec fn view(&self) -> PropertySchemaView {
        PropertySchemaView { name: self.name@, kind: self.kind }
    }
}

/// What a sequence of property schemas holds.
pub open spec fn schema_views(schemas: Seq<PropertySchema>) -> Seq<PropertySchemaView> {
    Seq::new(schemas.len(), |i: int| schemas[i]@)
}

/// The column that holds an identity: a text column of that name.
pub open spec fn identity_column(name: Seq<char>) -> PropertySchemaView {
    PropertySchemaView { name, kind: SemanticType::Text }
}

/// Every column has a supported kind.
pub open spec fn all_supported(columns: Seq<PropertySchemaView>) -> bool {
    forall|i: int| 0 <= i < columns.len() ==> (#[trigger] columns[i]).kind != SemanticType::Unsupported
}

/// No two columns have the same name.
pub open spec fn distinct_columns(columns: Seq<PropertySchemaView>) -> bool {
    forall|i: int, j: int|
        0 <= i < j < columns.len() ==> (#[trigger] columns[i]).name != (#[trigger] columns[j]).name
}

/// Whether the column at a position has an unsupported kind.
pub open spec fn is_unsupported(columns: Seq<PropertySchemaView>) -> spec_fn(int) -> bool {
    |i: int| columns[i].kind == SemanticType::Unsupported
}

/// Whether the column at a position has the name of an earlier column.
pub open spec fn is_repeated(columns: Seq<PropertySchemaView>) -> spec_fn(int) -> bool {
    |i: int| exists|j: int| 0 <= j < i && (#[trigger] columns[j]).name == columns[i].name
}

/// What is wrong with the columns, if anything: the first column of an
/// unsupported kind, or else the first column whose name an earlier column has.
pub open spec fn column_fault(columns: Seq<PropertySchemaView>) -> Option<ErrorView> {
    let unsupported = first_index(columns.len() as int, is_unsupported(columns));
    let repeated = first_index(columns.len() as int, is_repeated(columns));
    if unsupported < columns.len() {
        Some(ErrorView::Schema("unsupported type of property "@ + columns[unsupported].name))
    } else if repeated < columns.len() {
        Some(ErrorView::Schema("duplicate property "@ + columns[repeated].name))
    } else {
        None
    }
}

/// Columns are without fault exactly when all kinds are supported and all
/// names differ.
pub proof fn lemma_column_fault(columns: Seq<PropertySchemaView>)
    ensures
        column_fault(columns) is None <==> all_supported(columns) && distinct_columns(columns),
{
    let n = columns.len() as int;
    lemma_first_index(n, is_unsupported(columns));
    lemma_first_index(n, is_repeated(columns));
    let unsupported = first_index(n, is_unsupported(columns));
    if column_fault(columns) is None {
        assert forall|i: int| 0 <= i < n implies (#[trigger] columns[i]).kind
            != SemanticType::Unsupported by {
            assert(!is_unsupported(columns)(i));
        }
        assert forall|i: int, j: int| 0 <= i < j < n implies (#[trigger] columns[i]).name != (
        #[trigger] columns[j]).name by {
            assert(!is_repeated(columns)(j));
        }
    }
}

/// Finds what is wrong with the columns, if anything.
pub fn check_columns(columns: &Vec<PropertySchema>) -> (checked: Result<(), Error>)
    ensures
        match checked {
            Ok(_) => column_fault(schema_views(columns@)) is None,
            Err(e) => column_fault(schema_views(columns@)) == Some(e@),
        },
{
    let ghost views = schema_views(columns@);
    let mut i: usize = 0;
    while i < columns.len()
        invariant
            i <= columns.len(),
            views == schema_views(columns@),
            forall|j: int| 0 <= j < i ==> !#[trigger] is_unsupported(views)(j),
        decreases columns.len() - i,
    {
        if columns[i].kind == SemanticType::Unsupported {
            proof {
                lemma_first_index_is(views.len() as int, is_unsupported(views), i as int);
            }
            return Err(
                Error::Schema(
                    String::from_str("unsupported type of property ").concat(
                        columns[i].name.as_str(),
                    ),
                ),
            );
        }
        i = i + 1;
    }
    proof {
        lemma_first_index_is(views.len() as int, is_unsupported(views), views.len() as int);
    }
    let mut k: usize = 0;
    while k < columns.len()
        invariant
            k <= columns.len(),
            views == schema_views(columns@),
            first_index(views.len() as int, is_unsupported(views)) == views.len(),
            forall|j: int| 0 <= j < k ==> !#[trigger] is_repeated(views)(j),
        decreases columns.len() - k,
    {
        let mut j: usize = 0;
        while j < k
            invariant
                j <= k < columns.len(),
                views == schema_views(columns@),
                first_index(views.len() as int, is_unsupported(views)) == views.len(),
                forall|h: int| 0 <= h < k ==> !#[trigger] is_repeated(views)(h),
                forall|h: int| 0 <= h < j ==> (#[trigger] views[h]).name != views[k as int].name,
            decreases k - j,
        {
            if columns[j].name == columns[k].name {
                proof {
                    assert(views[j as int].name == views[k as int].name);
                    lemma_first_index_is(views.len() as int, is_repeated(views), k as int);
                }
                return Err(
                    Error::Schema(
                        String::from_str("duplicate property ").concat(columns[k].name.as_str()),
                    ),
                );
            }
            j = j + 1;
        }
        k = k + 1;
    }
    proof {
        lemma_first_index_is(views.len() as int, is_repeated(views), views.len() as int);
    }
    Ok(())
}

/// What the metadata of a node type holds.
pub struct EntityMetadataView {
    pub label: Seq<char>,
    pub primary_key_field: Seq<char>,
    pub properties: Seq<PropertySchemaView>,
}

impl EntityMetadataView {
    /// The columns of the node table: the primary key, which is text, and
    /// after it the properties in the order of their declaration.
    pub open spec fn columns(self) -> Seq<PropertySchemaView> {
        seq![identity_column(self.primary_key_field)] + self.properties
    }

    /// All kinds are supported, and no name occurs twice among the primary
    /// key and the properties.
    pub open spec fn well_formed(self) -> bool {
        all_supported(self.columns()) && distinct_columns(self.columns())
    }
}

/// The static description of a node type: its label, its primary key field
/// and its properties in the order of their declaration.
#[derive(Debug, PartialEq, Eq)]
pub struct EntityMetadata {
    label: String,
    columns: Vec<PropertySchema>,
}

impl View for EntityMetadata {
    type V = EntityMetadataView;

    closed spec fn view(&self) -> EntityMetadataView {
        EntityMetadataView {
            label: self.label@,
            primary_key_field: self.columns@[0].name@,
            properties: schema_views(self.columns@).skip(1),
        }
    }
}

impl EntityMetadata {
    #[verifier::type_invariant]
    closed spec fn valid(&self) -> bool {
        &&& self.columns@.len() >= 1
        &&& self.columns@[0].kind == SemanticType::Text
        &&& self@.well_formed()
    }

    /// The metadata of a node type, unless a property has an unsupported kind
    /// or a name occurs twice.
    pub fn new(label: &str, primary_key_field: &str, properties: Vec<PropertySchema>) -> (made:
        Result<EntityMetadata, Error>)
        ensures
            match made {
                Ok(m) => {
                    &&& m@ == (EntityMetadataView {
                        label: label@,
                        primary_key_field: primary_key_field@,
                        properties: schema_views(properties@),
                    })
                    &&& m@.well_formed()
                    &&& column_fault(m@.columns()) is None
                },
                Err(e) => column_fault(
                    seq![identity_column(primary_key_field@)] + schema_views(properties@),
                ) == Some(e@),
            },
    {
        let mut columns: Vec<PropertySchema> = Vec::new();
        columns.push(
            PropertySchema { name: String::from_str(primary_key_field), kind: SemanticType::Text },
        );
        let ghost wanted = seq![identity_column(primary_key_field@)] + schema_views(properties@);
        let mut rest = properties;
        columns.append(&mut rest);
        assert(schema_views(columns@) =~= wanted);
        match check_columns(&columns) {
            Err(e) => Err(e),
            Ok(_) => {
                proof {
                    lemma_column_fault(wanted);
                    assert(schema_views(columns@).skip(1) =~= schema_views(properties@));
                }
                Ok(EntityMetadata { label: String::from_str(label), columns })
            },
        }
    }

    /// The label of the node type.
    pub fn label(&self) -> (label: &str)
        ensures
            label@ == self@.label,
    {
        self.label.as_str()
    }

    /// The name of the primary key field.
    pub fn primary_key_field(&self) -> (name: &str)
        ensures
            name@ == self@.primary_key_field,
            self@.well_formed(),
    {
        proof {
            use_type_invariant(self);
        }
        self.columns[0].name.as_str()
    }

    /// The columns of the node table: the primary key first.
    pub fn columns(&self) -> (columns: &Vec<PropertySchema>)
        ensures
            schema_views(columns@) == self@.columns(),
            self@.well_formed(),
    {
        proof {
            use_type_invariant(self);
        }
        &self.columns
    }
}

/// What the metadata of a relationship type holds.
pub struct RelationshipMetadataView {
    pub label: Seq<char>,
    pub from_field: Seq<char>,
    pub to_field: Seq<char>,
    pub from_label: Seq<char>,
    pub to_label: Seq<char>,
    pub from_key: Seq<char>,
    pub to_key: Seq<char>,
    pub properties: Seq<PropertySchemaView>,
}

impl RelationshipMetadataView {
    /// The fields of an instance: the two endpoint fields, which hold text,
    /// and after them the properties in the order of their declaration.
    pub open spec fn columns(self) -> Seq<PropertySchemaView> {
        seq![identity_column(self.from_field), identity_column(self.to_field)] + self.properties
    }

    /// All kinds are supported, and no name occurs twice among the endpoint
    /// fields and the properties.
    pub open spec fn well_formed(self) -> bool {
        all_supported(self.columns()) && distinct_columns(self.columns())
    }
}

/// The static description of a relationship type: its label, its two
/// endpoint fields, the label and the primary key field of the node type at
/// each end, and its own properties in the order of their declaration.
#[derive(Debug, PartialEq, Eq)]
pub struct RelationshipMetadata {
    label: String,
    from_label: String,
    to_label: String,
    from_key: String,
    to_key: String,
    columns: Vec<PropertySchema>,
}

impl View for RelationshipMetadata {
    type V = RelationshipMetadataView;

    closed spec fn view(&self) -> RelationshipMetadataView {
        RelationshipMetadataView {
            label: self.label@,
            from_field: self.columns@[0].name@,
            to_field: self.columns@[1].name@,
            from_label: self.from_label@,
            to_label: self.to_label@,
            from_key: self.from_key@,
            to_key: self.to_key@,
            properties: schema_views(self.columns@).skip(2),
        }
    }
}

impl RelationshipMetadata {
    #[verifier::type_invariant]
    closed spec fn valid(&self) -> bool {
        &&& self.columns@.len() >= 2
        &&& self.columns@[0].kind == SemanticType::Text
        &&& self.columns@[1].kind == SemanticType::Text
        &&& self@.well_formed()
    }

    /// The metadata of a relationship type between two node types, unless a
    /// property has an unsupported kind or a name occurs twice.
    pub fn new(
        label: &str,
        from_field: &str,
        to_field: &str,
        from: &EntityMetadata,
        to: &EntityMetadata,
        properties: Vec<PropertySchema>,
    ) -> (made: Result<RelationshipMetadata, Error>)
        ensures
            match made {
                Ok(m) => {
                    &&& m@ == (RelationshipMetadataView {
                        label: label@,
                        from_field: from_field@,
                        to_field: to_field@,
                        from_label: from@.label,
                        to_label: to@.label,
                        from_key: from@.primary_key_field,
                        to_key: to@.primary_key_field,
                        properties: schema_views(properties@),
                    })
                    &&& m@.well_formed()
                    &&& column_fault(m@.columns()) is None
                },
                Err(e) => column_fault(
                    seq![identity_column(from_field@), identity_column(to_field@)] + schema_views(
                        properties@,
                    ),
                ) == Some(e@),
            },
    {
        let mut columns: Vec<PropertySchema> = Vec::new();
        columns.push(PropertySchema { name: String::from_str(from_field), kind: SemanticType::Text });
        columns.push(PropertySchema { name: String::from_str(to_field), kind: SemanticType::Text });
        let ghost wanted = seq![identity_column(from_field@), identity_column(to_field@)]
            + schema_views(properties@);
        let mut rest = properties;
        columns.append(&mut rest);
        assert(schema_views(columns@) =~= wanted);
        match check_columns(&columns) {
            Err(e) => Err(e),
            Ok(_) => {
                proof {
                    lemma_column_fault(wanted);
                    assert(schema_views(columns@).skip(2) =~= schema_views(properties@));
                }
                Ok(
                    RelationshipMetadata {
                        label: String::from_str(label),
                        from_label: String::from_str(from.label()),
                        to_label: String::from_str(to.label()),
                        from_key: String::from_str(from.primary_key_field()),
                        to_key: String::from_str(to.primary_key_field()),
                        columns,
                    },
                )
            },
        }
    }

    /// The label of the relationship type.
    pub fn label(&self) -> (label: &str)
        ensures
            label@ == self@.label,
    {
        self.label.as_str()
    }

    /// The label of the node type at the source.
    pub fn from_label(&self) -> (label: &str)
        ensures
            label@ == self@.from_label,
    {
        self.from_label.as_str()
    }

    /// The label of the node type at the target.
    pub fn to_label(&self) -> (label: &str)
        ensures
            label@ == self@.to_label,
    {
        self.to_label.as_str()
    }

    /// The primary key field of the node type at the source.
    pub fn from_key(&self) -> (name: &str)
        ensures
            name@ == self@.from_key,
    {
        self.from_key.as_str()
    }

    /// The primary key field of the node type at the target.
    pub fn to_key(&self) -> (name: &str)
        ensures
            name@ == self@.to_key,
    {
        self.to_key.as_str()
    }

    /// The name of the field that holds the source node's identity.
    pub fn from_field(&self) -> (name: &str)
        ensures
            name@ == self@.from_field,
            self@.well_formed(),
    {
        proof {
            use_type_invariant(self);
        }
        self.columns[0].name.as_str()
    }

    /// The name of the field that holds the target node's identity.
    pub fn to_field(&self) -> (name: &str)
        ensures
            name@ == self@.to_field,
            self@.well_formed(),
    {
        proof {
            use_type_invariant(self);
        }
        self.columns[1].name.as_str()
    }

    /// The fields of an instance: the two endpoint fields first.
    pub fn columns(&self) -> (columns: &Vec<PropertySchema>)
        ensures
            schema_views(columns@) == self@.columns(),
            self@.well_formed(),
    {
        proof {
            use_type_invariant(self);
        }
        &self.columns
    }
}

} // verus!
