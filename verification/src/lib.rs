//! Four-component relativistic vectors over a generic scalar field, with the
//! Minkowski products, kinematic observables and boosts of particle physics.
//!
//! A vector is built over any scalar type that offers the capabilities of
//! [`field`]: native reals, complex numbers ([`complex`]) or numbers that
//! carry derivatives. Every function states its result over the
//! specification functions of the scalar type, operation by operation and
//! in the order in which the operations are carried out, so a contract says
//! which digits a rounded backend yields and not only which number is meant.
//!
//! - [`vector`] holds the type, its constructors and its products, [`ops`]
//!   the arithmetic, [`mixed`] the arithmetic with plain reals.
//! - [`observables`] holds the norms, the pseudorapidity and the angular
//!   separations, [`boost`] the changes of reference frame.
//! - [`sequence`] is the interface to outside representations.
//! - [`laws`] states what holds of the operations under rounding, given the
//!   scalar identities at hand, and [`exact`] what holds over scalars that
//!   compute exactly.
mod algebra;
pub mod boost;
pub mod complex;
pub mod exact;
pub mod field;
pub mod laws;
pub mod mixed;
pub mod observables;
pub mod ops;
pub mod sequence;
pub mod vector;
