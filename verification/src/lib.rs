//! A small rank-1 constraint engine for zero-knowledge proofs over the
//! BLS12-381 scalar field.
//!
//! A circuit is synthesized into a [`cs::ConstraintSystem`], in shape mode
//! for setup and in witness mode for the prover, always by the same
//! function. [`setup`] turns a shape and the parameters made for it into a
//! proving and a verifying key, [`prover`] checks a witness and prepares a
//! proof, and [`verify`] checks a proof. The circuits are the factorization
//! relation `p * q = n` in three layouts ([`circuit`], [`gated`],
//! [`builder`]), a placeholder gadget about an inner proof ([`gadget`];
//! what its public values bind is in [`binding`]) and the wiring of a
//! cyclic recursion ([`cyclic`]).

pub mod artifact;
pub mod binding;
pub mod builder;
pub mod circuit;
pub mod cs;
pub mod cyclic;
pub mod field;
pub mod gadget;
pub mod gated;
pub mod keys;
pub mod lc;
pub mod prover;
pub mod randomness;
pub mod relation;
pub mod setup;
pub mod verify;
