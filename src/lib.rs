//! Building blocks of a Cloud Native Buildpack: validated identifiers,
//! environment composition over layers, layer cache decisions, the launch
//! descriptor, the exit codes of the detect and build phases, and the names
//! used when packaging a buildpack.
pub mod compose;
pub mod cross_compile;
pub mod env;
pub mod env_files;
pub mod identifier;
pub mod launch;
pub mod layer;
pub mod lifecycle;
pub mod package;

pub use cross_compile::CrossCompileError;
pub use package::CargoProfile;
