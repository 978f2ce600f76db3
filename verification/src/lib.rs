//! Completion of the members that an implementation block still owes to the
//! interface it implements: which members are missing, and the stub text that
//! is offered for each of them.

pub mod completion;
pub mod laws;
pub mod missing;
pub mod model;
pub mod stub;
pub mod syntax;
pub mod text;
