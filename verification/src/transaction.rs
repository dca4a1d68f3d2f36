//! The life of a transaction: active, then committed or rolled back.

use vstd::prelude::*;
use vstd::string::*;
use crate::statement::{bare, Statement, StatementView};

verus! {

/// The state of a transaction.
#[derive(Clone, Copy, Debug, PartialEq, Eq, Structural)]
pub enum TransactionState {
    /// Begun, and neither committed nor rolled back.
    Active,
    /// Committed: terminal.
    Committed,
    /// Rolled back: terminal.
    RolledBack,
}

/// A call that ends a transaction.
#[derive(Clone, Copy, Debug, PartialEq, Eq, Structural)]
pub enum TerminalCall {
    Commit,
    Rollback,
}

/// The statement that begins a transaction.
pub open spec fn begin_statement() -> StatementView {
    bare("BEGIN TRANSACTION"@)
}

/// The statement of a terminal call.
pub open spec fn terminal_statement(call: TerminalCall) -> StatementView {
    match call {
        TerminalCall::Commit => bare("COMMIT"@),
        TerminalCall::Rollback => bare("ROLLBACK"@),
    }
}

/// The state that a terminal call leads to where the engine carries it out.
pub open spec fn terminal_state(call: TerminalCall) -> TransactionState {
    match call {
        TerminalCall::Commit => TransactionState::Committed,
        TerminalCall::Rollback => TransactionState::RolledBack,
    }
}

/// What a terminal call issues in a state: its statement while the
/// transaction is active, nothing once it is terminal.
pub open spec fn issued(state: TransactionState, call: TerminalCall) -> Option<StatementView> {
    if state is Active {
        Some(terminal_statement(call))
    } else {
        None
    }
}

/// The state after a terminal call: an active transaction whose statement
/// the engine carried out is in the call's terminal state; in every other
/// case the state is as before.
pub open spec fn settled(
    state: TransactionState,
    call: TerminalCall,
    carried_out: bool,
) -> TransactionState {
    if state is Active && carried_out {
        terminal_state(call)
    } else {
        state
    }
}

/// What a terminal call returns: the engine's failure where the transaction
/// was active and the engine failed its statement, success in every other
/// case.
pub open spec fn answered<E>(state: TransactionState, outcome: Result<(), E>) -> Result<(), E> {
    if state is Active {
        outcome
    } else {
        Ok(())
    }
}

/// Terminal calls are idempotent: after a terminal call that was carried
/// out, or on a transaction that was terminal before, every further terminal
/// call issues nothing, leaves the state as it is, and succeeds.
pub proof fn lemma_terminal_calls_idempotent<E>(
    state: TransactionState,
    first: TerminalCall,
    second: TerminalCall,
    outcome: Result<(), E>,
)
    ensures
        issued(settled(state, first, true), second) is None,
        settled(settled(state, first, true), second, outcome is Ok) == settled(state, first, true),
        answered(settled(state, first, true), outcome) == Ok::<(), E>(()),
        !(state is Active) ==> settled(state, first, true) == state,
{
}

/// At most one terminal action: once a transaction has left the active
/// state, no call leads it to another state.
pub proof fn lemma_terminal_is_final(
    state: TransactionState,
    call: TerminalCall,
    carried_out: bool,
)
    requires
        !(state is Active),
    ensures
        settled(state, call, carried_out) == state,
        issued(state, call) is None,
{
}

/// Automatic rollback: the release of a transaction issues the rollback
/// exactly while the transaction is active. A terminal call that the engine
/// failed leaves the transaction active, so its release still rolls it back;
/// after a call that was carried out the release issues nothing.
pub proof fn lemma_release_rolls_back(state: TransactionState, call: TerminalCall)
    ensures
        issued(state, TerminalCall::Rollback) is Some <==> state is Active,
        state is Active ==> issued(settled(state, call, false), TerminalCall::Rollback) == Some(
            terminal_statement(TerminalCall::Rollback),
        ),
        issued(settled(state, call, true), TerminalCall::Rollback) is None,
{
}

/// A transaction. The engine's failures pass through it as they are,
/// whatever their type. It holds no connection: whoever runs the statements keeps
/// the connection that the transaction was begun on.
#[derive(Debug, PartialEq, Eq)]
pub struct Transaction {
    state: TransactionState,
}

impl View for Transaction {
    type V = TransactionState;

    closed spec fn view(&self) -> TransactionState {
        self.state
    }
}

fn terminal(call: TerminalCall) -> (statement: Statement)
    ensures
        statement@ == terminal_statement(call),
{
    match call {
        TerminalCall::Commit => Statement::unbound(String::from_str("COMMIT")),
        TerminalCall::Rollback => Statement::unbound(String::from_str("ROLLBACK")),
    }
}

impl Transaction {
    /// The statement that begins a transaction, for a connection of its own.
    pub fn begin() -> (statement: Statement)
        ensures
            statement@ == begin_statement(),
    {
        Statement::unbound(String::from_str("BEGIN TRANSACTION"))
    }

    /// The transaction that the begin statement opened: active where the
    /// engine carried the statement out, none where it failed.
    pub fn begun<E>(outcome: Result<(), E>) -> (transaction: Result<Transaction, E>)
        ensures
            match outcome {
                Ok(_) => transaction matches Ok(t) && t@ is Active,
                Err(e) => transaction == Err::<Transaction, E>(e),
            },
    {
        match outcome {
            Ok(_) => Ok(Transaction { state: TransactionState::Active }),
            Err(e) => Err(e),
        }
    }

    /// The state of the transaction.
    pub fn state(&self) -> (state: TransactionState)
        ensures
            state == self@,
    {
        self.state
    }

    /// What a terminal call has to issue now.
    pub fn issue(&self, call: TerminalCall) -> (statement: Option<Statement>)
        ensures
            match statement {
                Some(s) => issued(self@, call) == Some(s@),
                None => issued(self@, call) is None,
            },
    {
        match self.state {
            TransactionState::Active => Some(terminal(call)),
            _ => None,
        }
    }

    /// Records how the engine answered the statement of a terminal call, and
    /// gives what the call returns.
    pub fn settle<E>(&mut self, call: TerminalCall, outcome: Result<(), E>) -> (answer: Result<
        (),
        E,
    >)
        ensures
            final(self)@ == settled(old(self)@, call, outcome is Ok),
            answer == answered(old(self)@, outcome),
    {
        match self.state {
            TransactionState::Active => {
                match outcome {
                    Ok(done) => {
                        self.state = match call {
                            TerminalCall::Commit => TransactionState::Committed,
                            TerminalCall::Rollback => TransactionState::RolledBack,
                        };
                        Ok(done)
                    },
                    Err(e) => Err(e),
                }
            },
            _ => Ok(()),
        }
    }

    /// What commit has to issue: the commit statement while the transaction
    /// is active, nothing once it is terminal.
    pub fn commit(&self) -> (statement: Option<Statement>)
        ensures
            match statement {
                Some(s) => self@ is Active && s@ == terminal_statement(TerminalCall::Commit),
                None => !(self@ is Active),
            },
    {
        self.issue(TerminalCall::Commit)
    }

    /// Records how the engine answered the commit statement: the transaction
    /// is committed where it was active and the engine carried the statement
    /// out; where the engine failed, it stays active and the failure is
    /// returned.
    pub fn committed<E>(&mut self, outcome: Result<(), E>) -> (answer: Result<(), E>)
        ensures
            final(self)@ == settled(old(self)@, TerminalCall::Commit, outcome is Ok),
            answer == answered(old(self)@, outcome),
    {
        self.settle(TerminalCall::Commit, outcome)
    }

    /// What rollback has to issue: the rollback statement while the
    /// transaction is active, nothing once it is terminal.
    pub fn rollback(&self) -> (statement: Option<Statement>)
        ensures
            match statement {
                Some(s) => self@ is Active && s@ == terminal_statement(TerminalCall::Rollback),
                None => !(self@ is Active),
            },
    {
        self.issue(TerminalCall::Rollback)
    }

    /// Records how the engine answered the rollback statement: the
    /// transaction is rolled back where it was active and the engine carried
    /// the statement out; where the engine failed, it stays active and the
    /// failure is returned.
    pub fn rolled_back<E>(&mut self, outcome: Result<(), E>) -> (answer: Result<(), E>)
        ensures
            final(self)@ == settled(old(self)@, TerminalCall::Rollback, outcome is Ok),
            answer == answered(old(self)@, outcome),
    {
        self.settle(TerminalCall::Rollback, outcome)
    }

    /// The safety net: what has to be issued when the transaction is
    /// released. A transaction that is still active is rolled back; a
    /// terminal one needs nothing. A failure of that statement is not
    /// reported to anyone.
    pub fn release(self) -> (statement: Option<Statement>)
        ensures
            match statement {
                Some(s) => self@ is Active && s@ == terminal_statement(TerminalCall::Rollback),
                None => !(self@ is Active),
            },
    {
        self.issue(TerminalCall::Rollback)
    }

    /// The terminal call that ends a unit of work: commit where the unit
    /// succeeded, rollback where it failed.
    pub fn closing(succeeded: bool) -> (call: TerminalCall)
        ensures
            call == (if succeeded {
                TerminalCall::Commit
            } else {
                TerminalCall::Rollback
            }),
    {
        if succeeded {
            TerminalCall::Commit
        } else {
            TerminalCall::Rollback
        }
    }
}

} // verus!
