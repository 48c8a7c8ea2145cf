//! The passes from the high-level representation toward the mid-level one:
//! type inference over module definitions and extraction of a module's
//! public interface.

pub mod environment_creator;
pub mod error;
pub mod module_interface_compiler;
pub mod type_context;
pub mod type_extractor;
pub mod type_inferrer;
