pub mod app_code;
pub mod info;
pub mod taxonomy;

pub use app_code::AppCode;
pub use info::{ErrorInfo, ParseFailure, ToErrorInfo, WireInfo};
pub use taxonomy::{DefinitionError, Taxonomy, TaxonomyDecl, VariantDecl};
