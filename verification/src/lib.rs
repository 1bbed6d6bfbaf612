//! Optimistic linking of WebAssembly components.
//!
//! Each component declares the interfaces that it imports and exports. The
//! registry in [`constructor`] holds the components, their catalogs and one
//! pending link for each import that the runtime does not provide by itself.
//! Validation resolves every link to the first component that exports its
//! interface, or reports what cannot be satisfied; [`emit`] writes the
//! resolved links into a deployment description. The contracts of these
//! functions are stated over the mathematical views of the data, and
//! [`laws`] and [`roundtrip`] hold what follows from them.

pub mod constructor;
pub mod decode;
pub mod description;
pub mod emit;
pub mod entity;
pub mod laws;
pub mod models;
pub mod roundtrip;
pub mod runtime;
pub mod seqs;
pub mod stream;
pub mod text;
