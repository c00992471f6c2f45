//! Flavor generation: validating and normalizing categorized column-name
//! lists into a consistent context, and rendering that context through a
//! text template into a single source artifact.

pub mod context;
pub mod filename;
pub mod flavor_builder;
pub mod render;

pub use context::FlavorContext;
pub use context::ValidationError;
pub use context::build;
pub use context::lemma_all_cols_no_duplicates;
pub use context::lemma_derivation_correctness;
pub use filename::output_file_name;
pub use filename::snake_case;
pub use flavor_builder::FlavorBuilder;
pub use flavor_builder::FlavorGenerator;
pub use render::TemplateError;
pub use render::generate;
pub use render::lemma_render_deterministic;
pub use render::render_flavor;
