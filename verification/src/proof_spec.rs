//! The full description of what is to be proven: the ordered statements,
//! the cross-statement constraints, and optional context bytes bound into
//! the challenge.
//!
//! A specification self-validates before any cryptographic work: every
//! witness reference must address an existing statement and a witness
//! component that statement exposes, and every equality constraint must
//! relate at least two references.

use vstd::prelude::*;
use crate::error::ProofSystemError;
use crate::meta_statement::{MetaStatement, MetaStatements};
use crate::statement::Statement;

verus! {

/// The ordered statements of a specification; a statement's position is its
/// id.
pub struct Statements(pub Vec<Statement>);

impl Statements {
    pub fn new() -> (r: Statements)
        ensures
            r.0@.len() == 0,
    {
        Statements(Vec::new())
    }

    /// Appends a statement and returns its id.
    pub fn add(&mut self, s: Statement) -> (id: usize)
        ensures
            final(self).0@ == old(self).0@.push(s),
            id == old(self).0@.len(),
    {
        let id = self.0.len();
        self.0.push(s);
        id
    }
}

/// Statements, constraints and optional context: everything prover and
/// verifier must agree on.
pub struct ProofSpec {
    pub statements: Statements,
    pub meta_statements: MetaStatements,
    pub context: Option<Vec<u8>>,
}

impl ProofSpec {
    pub fn new(statements: Statements, meta_statements: MetaStatements, context: Option<Vec<u8>>)
        -> (r: ProofSpec)
        ensures
            r.statements == statements,
            r.meta_statements == meta_statements,
            r.context == context,
    {
        ProofSpec { statements, meta_statements, context }
    }

    /// A single reference addresses an existing statement id and a witness
    /// index that statement exposes.
    pub open spec fn ref_ok(self, r: (usize, usize)) -> bool {
        r.0 < self.statements.0@.len() && r.1 < self.statements.0@[r.0 as int].spec_witness_count()
    }

    /// Structural consistency: every constraint has at least two references,
    /// and every reference addresses an existing statement id and a witness
    /// index that statement exposes.
    pub open spec fn valid(self) -> bool {
        forall|c: int|
            0 <= c < self.meta_statements.0@.len() ==> (#[trigger] self.meta_statements.refs_of(
                c,
            )).len() >= 2 && (forall|k: int|
                0 <= k < self.meta_statements.refs_of(c).len() ==> self.ref_ok(
                    #[trigger] self.meta_statements.refs_of(c)[k],
                ))
    }

    /// Every statement is well formed.
    pub open spec fn statements_wf(self) -> bool {
        forall|i: int|
            0 <= i < self.statements.0@.len() ==> (#[trigger] self.statements.0@[i]).wf()
    }

    /// Checks structural consistency, reporting the first offence: a
    /// constraint with fewer than two references, a reference to a missing
    /// statement id, or one to a witness index the statement does not
    /// expose.
    pub fn validate(&self) -> (r: Result<(), ProofSystemError>)
        ensures
            r is Ok <==> self.valid(),
            r is Err ==> ((r matches Err(ProofSystemError::EqualWitnessesTooSmall(_))) || (r
                matches Err(ProofSystemError::InvalidStatementId(_))) || (r matches Err(
                ProofSystemError::InvalidWitnessIndex(_, _),
            ))),
    {
        let mut c: usize = 0;
        while c < self.meta_statements.0.len()
            invariant
                0 <= c <= self.meta_statements.0@.len(),
                forall|c2: int|
                    0 <= c2 < c ==> (#[trigger] self.meta_statements.refs_of(c2)).len() >= 2 && (
                    forall|k: int|
                        0 <= k < self.meta_statements.refs_of(c2).len() ==> self.ref_ok(
                            #[trigger] self.meta_statements.refs_of(c2)[k],
                        )),
            decreases self.meta_statements.0@.len() - c,
        {
            let refs: &Vec<(usize, usize)> = match &self.meta_statements.0[c] {
                MetaStatement::WitnessEquality(e) => &e.0,
            };
            assert(refs@ == self.meta_statements.refs_of(c as int));
            if refs.len() < 2 {
                return Err(ProofSystemError::EqualWitnessesTooSmall(c));
            }
            let mut k: usize = 0;
            while k < refs.len()
                invariant
                    0 <= k <= refs@.len(),
                    refs@ == self.meta_statements.refs_of(c as int),
                    0 <= c < self.meta_statements.0@.len(),
                    forall|j: int| 0 <= j < k ==> self.ref_ok(#[trigger] refs@[j]),
                decreases refs@.len() - k,
            {
                let (s_id, w_idx) = refs[k];
                if s_id >= self.statements.0.len() {
                    return Err(ProofSystemError::InvalidStatementId(s_id));
                }
                let count = self.statements.0[s_id].witness_count();
                if w_idx >= count {
                    return Err(ProofSystemError::InvalidWitnessIndex(s_id, w_idx));
                }
                k = k + 1;
            }
            c = c + 1;
        }
        Ok(())
    }
}

} // verus!
