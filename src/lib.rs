//! Ownership and classification of handles to nodes of a lazily evaluated,
//! reference-counted expression value graph that lives in a foreign heap.
//!
//! The library states, and proves, which reference-count calls each handle
//! operation owes the foreign layer, and how raw type tags classify a node.
//! The foreign calls themselves are made by the program around it.
pub mod value_type;
pub mod value;

pub use value_type::ValueType;
pub use value::Value;
