//! A viability-scoring physics engine and evolutionary search over
//! hypothetical universe configurations.
//!
//! A `Genome` fixes the free physical parameters of one candidate universe
//! (coupling strengths and particle rest masses).  The physics engine derives
//! proxy quantities from a genome (a fine-structure ratio, nucleon analogue
//! masses, a nuclear binding estimate, a fusion tunneling exponent and a
//! compact-object mass threshold) and a layered fitness evaluator reduces them
//! to a viability score and a discrete complexity tier.  On top of that sit
//! two search modes: independent Monte Carlo sampling of the parameter space
//! ("mapping") and a generational genetic algorithm with tournament selection
//! and elitism ("evolution").
//!
//! All quantities are held in fixed-point integer units (documented per
//! constant), so every formula, the mutation operator and both search loops
//! are verified: each executable function is pinned to a specification-level
//! model of the same computation, and the stated laws (gate behaviour,
//! elitism monotonicity, determinism of a seeded run) are proved against that
//! model.

pub mod num;
pub mod rng;
pub mod genome;
pub mod physics;
pub mod fitness;
pub mod explore;
