//! The high-level intermediate representation: typed modules as the
//! compiler front end hands them to the lowering passes, together with the
//! analyses that resolve and compare its types.

pub mod analysis;
pub mod ir;
pub mod test_ir;
pub mod types;
