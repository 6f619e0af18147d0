//! Type-keyed persistence settings: the formats a value can be stored in, the
//! per-type parameters and how they merge, a registry that maps a type to its
//! parameters, the parser for declarative `key = "value"` annotations, and the
//! decisions that saving and loading take under each error policy.

pub mod annotation;
pub mod builder;
pub mod error;
pub mod format;
pub mod params;
pub mod persist;
pub mod registry;

pub use annotation::{ignored_identifiers, parse_annotation, AnnotationToken, ConfigKey};
pub use builder::{
    builder_parameters, default_file_name, default_save_parameters, resolve_annotation, short_name,
    PersistentConfigBuilder,
};
pub use error::ConfigError;
pub use format::SaveFormat;
pub use params::PersistentConfigParameters;
pub use persist::{file_path, load_outcome, save_outcome};
pub use registry::PersistentConfigDB;
