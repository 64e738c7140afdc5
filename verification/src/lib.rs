pub mod error;
pub mod inv_file;
pub mod record;
pub mod roles;
pub mod text;
pub mod type_syntax;
pub mod types;

pub use inv_file::{parse_objects_inv, InvReader, SphinxInvVersion};
pub use types::ExternalSphinxRef;
