//! A composable zero-knowledge proof system.
//!
//! Heterogeneous cryptographic statements (knowledge of a BBS+ signature over
//! partly hidden messages, membership or non-membership in an accumulator,
//! knowledge of a Pedersen commitment opening) are proven together in a single
//! non-interactive proof, with designated secret witnesses in different
//! statements proven equal without being revealed.
//!
//! This crate is the proof-orchestration and sub-protocol layer: it wraps each
//! statement-specific sigma protocol behind a uniform three-phase contract,
//! derives one Fiat-Shamir challenge binding every sub-protocol's commitments,
//! drives proof generation and verification in statement order, and enforces
//! cross-statement witness equality through shared blinding factors. The
//! underlying curve and scheme arithmetic is delegated to collaborator crates
//! through the trusted items in [`backend`].

use vstd::prelude::*;

pub mod backend;
pub mod codec;
pub mod error;
pub mod iter;
pub mod meta_statement;
pub mod pairs;
pub mod proofs;
pub mod proof_spec;
pub mod setup;
pub mod statement;
pub mod sub_protocols;
pub mod statement_proof;
pub mod witness;

pub use sub_protocols::should_use_cls;
