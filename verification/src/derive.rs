//! From the annotated declaration of a type to its metadata.

use vstd::prelude::*;
use vstd::string::*;
use crate::error::{Error, ErrorView};
use crate::metadata::{
    column_fault,
    schema_views,
    EntityMetadata,
    EntityMetadataView,
    PropertySchema,
    PropertySchemaView,
    RelationshipMetadata,
    RelationshipMetadataView,
};
use crate::value::{semantic_type_of, SemanticType};

verus! {

/// What the annotation of a field says the field is.
#[derive(Clone, Copy, Debug, PartialEq, Eq, Structural)]
pub enum FieldRole {
    /// The primary key of a node type.
    Id,
    /// A property.
    Property,
    /// The identity of the node at the source of a relationship.
    FromNode,
    /// The identity of the node at the target of a relationship.
    ToNode,
    /// A field without annotation: no part of the mapping.
    Unmarked,
}

/// A field of an annotated type: its name, its declared type as written, and
/// what its annotation says it is.
#[derive(Clone, Debug, PartialEq, Eq)]
pub struct FieldDeclaration {
    pub name: String,
    pub declared_type: String,
    pub role: FieldRole,
}

/// What a field declaration holds.
pub struct FieldDeclarationView {
    pub name: Seq<char>,
    pub declared_type: Seq<char>,
    pub role: FieldRole,
}

impl View for FieldDeclaration {
    type V = FieldDeclarationView;

    open spec fn view(&self) -> FieldDeclarationView {
        FieldDeclarationView {
            name: self.name@,
            declared_type: self.declared_type@,
            role: self.role,
        }
    }
}

/// An annotated type: its declared name, the label that overrides the name
/// if one was given, and its fields in the order of their declaration.
#[derive(Clone, Debug, PartialEq, Eq)]
pub struct TypeDeclaration {
    pub name: String,
    pub label: Option<String>,
    pub fields: Vec<FieldDeclaration>,
}

/// What a type declaration holds.
pub struct TypeDeclarationView {
    pub name: Seq<char>,
    pub label: Option<Seq<char>>,
    pub fields: Seq<FieldDeclarationView>,
}

impl View for TypeDeclaration {
    type V = TypeDeclarationView;

    open spec fn view(&self) -> TypeDeclarationView {
        TypeDeclarationView {
            name: self.name@,
            label: match self.label {
                Some(label) => Some(label@),
                None => None,
            },
            fields: Seq::new(self.fields@.len(), |i: int| self.fields@[i]@),
        }
    }
}

/// The label of a declared type: the override if there is one, else the
/// declared name.
pub open spec fn label_of(declaration: TypeDeclarationView) -> Seq<char> {
    match declaration.label {
        Some(label) => label,
        None => declaration.name,
    }
}

/// The name of the last field with that role, if there is one.
pub open spec fn last_marked(fields: Seq<FieldDeclarationView>, role: FieldRole) -> Option<
    Seq<char>,
>
    decreases fields.len(),
{
    if fields.len() == 0 {
        None
    } else if fields.last().role == role {
        Some(fields.last().name)
    } else {
        last_marked(fields.drop_last(), role)
    }
}

/// The fields that are properties, in the order of their declaration, each
/// with the kind that its declared type stands for.
pub open spec fn declared_properties(fields: Seq<FieldDeclarationView>) -> Seq<PropertySchemaView>
    decreases fields.len(),
{
    if fields.len() == 0 {
        Seq::empty()
    } else if fields.last().role == FieldRole::Property {
        declared_properties(fields.drop_last()).push(
            PropertySchemaView {
                name: fields.last().name,
                kind: semantic_type_of(fields.last().declared_type),
            },
        )
    } else {
        declared_properties(fields.drop_last())
    }
}

/// The metadata of a declared node type, or the reason for which it has none:
/// no field is the primary key, or a property has an unsupported type, or a
/// name occurs twice.
pub open spec fn node_metadata_of(declaration: TypeDeclarationView) -> Result<
    EntityMetadataView,
    ErrorView,
> {
    match last_marked(declaration.fields, FieldRole::Id) {
        None => Err(ErrorView::Schema("no field is marked as the primary key"@)),
        Some(key) => {
            let metadata = EntityMetadataView {
                label: label_of(declaration),
                primary_key_field: key,
                properties: declared_properties(declaration.fields),
            };
            match column_fault(metadata.columns()) {
                Some(fault) => Err(fault),
                None => Ok(metadata),
            }
        },
    }
}

/// The metadata of a declared relationship type between two node types, or
/// the reason for which it has none: no field is the source, or none is the
/// target, or a property has an unsupported type, or a name occurs twice.
pub open spec fn relationship_metadata_of(
    declaration: TypeDeclarationView,
    from: EntityMetadataView,
    to: EntityMetadataView,
) -> Result<RelationshipMetadataView, ErrorView> {
    match last_marked(declaration.fields, FieldRole::FromNode) {
        None => Err(ErrorView::Schema("no field is marked as the source node"@)),
        Some(from_field) => match last_marked(declaration.fields, FieldRole::ToNode) {
            None => Err(ErrorView::Schema("no field is marked as the target node"@)),
            Some(to_field) => {
                let metadata = RelationshipMetadataView {
                    label: label_of(declaration),
                    from_field,
                    to_field,
                    from_label: from.label,
                    to_label: to.label,
                    from_key: from.primary_key_field,
                    to_key: to.primary_key_field,
                    properties: declared_properties(declaration.fields),
                };
                match column_fault(metadata.columns()) {
                    Some(fault) => Err(fault),
                    None => Ok(metadata),
                }
            },
        },
    }
}

/// A field marked as the primary key of a node type.
pub fn id(name: &str, declared_type: &str) -> (field: FieldDeclaration)
    ensures
        field@ == (FieldDeclarationView {
            name: name@,
            declared_type: declared_type@,
            role: FieldRole::Id,
        }),
{
    FieldDeclaration {
        name: String::from_str(name),
        declared_type: String::from_str(declared_type),
        role: FieldRole::Id,
    }
}

/// A field marked as a property.
pub fn property(name: &str, declared_type: &str) -> (field: FieldDeclaration)
    ensures
        field@ == (FieldDeclarationView {
            name: name@,
            declared_type: declared_type@,
            role: FieldRole::Property,
        }),
{
    FieldDeclaration {
        name: String::from_str(name),
        declared_type: String::from_str(declared_type),
        role: FieldRole::Property,
    }
}

/// A field marked as the identity of the node at the source.
pub fn from_node(name: &str, declared_type: &str) -> (field: FieldDeclaration)
    ensures
        field@ == (FieldDeclarationView {
            name: name@,
            declared_type: declared_type@,
            role: FieldRole::FromNode,
        }),
{
    FieldDeclaration {
        name: String::from_str(name),
        declared_type: String::from_str(declared_type),
        role: FieldRole::FromNode,
    }
}

/// A field marked as the identity of the node at the target.
pub fn to_node(name: &str, declared_type: &str) -> (field: FieldDeclaration)
    ensures
        field@ == (FieldDeclarationView {
            name: name@,
            declared_type: declared_type@,
            role: FieldRole::ToNode,
        }),
{
    FieldDeclaration {
        name: String::from_str(name),
        declared_type: String::from_str(declared_type),
        role: FieldRole::ToNode,
    }
}

/// The declaration with a label that overrides its declared name.
pub fn label(declaration: TypeDeclaration, text: &str) -> (labelled: TypeDeclaration)
    ensures
        labelled@ == (TypeDeclarationView { label: Some(text@), ..declaration@ }),
        label_of(labelled@) == text@,
{
    TypeDeclaration {
        name: declaration.name,
        label: Some(String::from_str(text)),
        fields: declaration.fields,
    }
}

fn find_marked(declaration: &TypeDeclaration, role: FieldRole) -> (found: Option<usize>)
    ensures
        match found {
            Some(at) => at < declaration.fields@.len() && last_marked(declaration@.fields, role)
                == Some(declaration.fields@[at as int].name@),
            None => last_marked(declaration@.fields, role) is None,
        },
{
    let ghost fields = declaration@.fields;
    let mut found: Option<usize> = None;
    let mut i: usize = 0;
    while i < declaration.fields.len()
        invariant
            i <= declaration.fields.len(),
            fields == declaration@.fields,
            match found {
                Some(at) => at < i && last_marked(fields.take(i as int), role) == Some(
                    declaration.fields@[at as int].name@,
                ),
                None => last_marked(fields.take(i as int), role) is None,
            },
        decreases declaration.fields.len() - i,
    {
        proof {
            assert(fields.take(i + 1).drop_last() =~= fields.take(i as int));
        }
        if declaration.fields[i].role == role {
            found = Some(i);
        }
        i = i + 1;
    }
    assert(fields.take(i as int) =~= fields);
    found
}

fn collect_properties(declaration: &TypeDeclaration) -> (properties: Vec<PropertySchema>)
    ensures
        schema_views(properties@) == declared_properties(declaration@.fields),
{
    let ghost fields = declaration@.fields;
    let mut properties: Vec<PropertySchema> = Vec::new();
    let mut i: usize = 0;
    while i < declaration.fields.len()
        invariant
            i <= declaration.fields.len(),
            fields == declaration@.fields,
            schema_views(properties@) == declared_properties(fields.take(i as int)),
        decreases declaration.fields.len() - i,
    {
        proof {
            assert(fields.take(i + 1).drop_last() =~= fields.take(i as int));
        }
        let field = &declaration.fields[i];
        if field.role == FieldRole::Property {
            let schema = PropertySchema {
                name: field.name.clone(),
                kind: SemanticType::of_declared(field.declared_type.as_str()),
            };
            properties.push(schema);
        }
        i = i + 1;
    }
    assert(fields.take(i as int) =~= fields);
    properties
}

fn label_for(declaration: &TypeDeclaration) -> (label: &str)
    ensures
        label@ == label_of(declaration@),
{
    match &declaration.label {
        Some(label) => label.as_str(),
        None => declaration.name.as_str(),
    }
}

/// Derives the metadata of a node type from its annotated declaration.
///
/// The label is the override if one was given, else the declared name. The
/// primary key is the last field marked as such; the properties are the
/// fields marked as properties, in the order of their declaration. Fails
/// where no field is the primary key, where a property has a declared type
/// that stands for no supported kind, and where a name occurs twice.
pub fn derive_node(declaration: &TypeDeclaration) -> (derived: Result<EntityMetadata, Error>)
    ensures
        match derived {
            Ok(m) => node_metadata_of(declaration@) == Ok::<EntityMetadataView, ErrorView>(m@)
                && m@.well_formed(),
            Err(e) => node_metadata_of(declaration@) == Err::<EntityMetadataView, ErrorView>(e@),
        },
{
    match find_marked(declaration, FieldRole::Id) {
        None => Err(Error::Schema(String::from_str("no field is marked as the primary key"))),
        Some(at) => {
            let properties = collect_properties(declaration);
            EntityMetadata::new(
                label_for(declaration),
                declaration.fields[at].name.as_str(),
                properties,
            )
        },
    }
}

/// Derives the metadata of a relationship type from its annotated
/// declaration and the metadata of the node types at its two ends.
///
/// The label is the override if one was given, else the declared name. The
/// endpoint fields are the last fields marked as source and as target; the
/// properties are the fields marked as properties, in the order of their
/// declaration. Fails where no field is the source or none is the target,
/// where a property has a declared type that stands for no supported kind,
/// and where a name occurs twice.
pub fn derive_relationship(
    declaration: &TypeDeclaration,
    from: &EntityMetadata,
    to: &EntityMetadata,
) -> (derived: Result<RelationshipMetadata, Error>)
    ensures
        match derived {
            Ok(m) => relationship_metadata_of(declaration@, from@, to@) == Ok::<
                RelationshipMetadataView,
                ErrorView,
            >(m@) && m@.well_formed(),
            Err(e) => relationship_metadata_of(declaration@, from@, to@) == Err::<
                RelationshipMetadataView,
                ErrorView,
            >(e@),
        },
{
    match find_marked(declaration, FieldRole::FromNode) {
        None => Err(Error::Schema(String::from_str("no field is marked as the source node"))),
        Some(from_at) => match find_marked(declaration, FieldRole::ToNode) {
            None => Err(Error::Schema(String::from_str("no field is marked as the target node"))),
            Some(to_at) => {
                let properties = collect_properties(declaration);
                RelationshipMetadata::new(
                    label_for(declaration),
                    declaration.fields[from_at].name.as_str(),
                    declaration.fields[to_at].name.as_str(),
                    from,
                    to,
                    properties,
                )
            },
        },
    }
}

} // verus!
