//! Statements: a text with named parameters and the values bound to them.

use vstd::prelude::*;
use crate::dictionary::{PropertyDictionary, PropertyView};

verus! {

/// A statement for the engine. Values never stand in the text: each is bound
/// to the parameter of its name.
#[derive(Clone, Debug, PartialEq, Eq)]
pub struct Statement {
    pub text: String,
    pub parameters: PropertyDictionary,
}

/// What a statement holds.
pub struct StatementView {
    pub text: Seq<char>,
    pub parameters: Seq<PropertyView>,
}

impl View for Statement {
    type V = StatementView;

    open spec fn view(&self) -> StatementView {
        StatementView { text: self.text@, parameters: self.parameters@ }
    }
}

/// The statement of that text that binds nothing.
pub open spec fn bare(text: Seq<char>) -> StatementView {
    StatementView { text, parameters: Seq::empty() }
}

/// What a sequence of statements holds.
pub open spec fn statement_views(statements: Seq<Statement>) -> Seq<StatementView> {
    Seq::new(statements.len(), |i: int| statements[i]@)
}

impl Statement {
    /// The statement of that text that binds nothing.
    pub fn unbound(text: String) -> (statement: Statement)
        ensures
            statement@ == bare(text@),
    {
        Statement { text, parameters: PropertyDictionary::new() }
    }
}

} // verus!
