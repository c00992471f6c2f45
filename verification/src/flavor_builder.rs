//! The flavor-building interface: a builder owns a template and renders the
//! flavor boilerplate for categorized column-name lists through it.

use vstd::prelude::*;
use crate::context::views_of;
use crate::render::TemplateError;
use crate::render::flavor_lists;
use crate::render::flavor_scalars;
use crate::render::render_flavor;
use crate::render::rendered;

verus! {

/// A builder that renders flavor artifacts through a template it owns.
pub trait FlavorBuilder {
    /// The template this builder renders through.
    spec fn flavor_template(&self) -> Seq<char>;

    /// Renders the flavor boilerplate for the given column lists: the result
    /// is the engine's rendering of the builder's template against the
    /// schema fields, and the call fails exactly when that rendering fails.
    fn create_flavor_hpp(
        &self,
        name: &str,
        relation_file_names: &[String],
        lookups: &[String],
        fixed: &[String],
        witness: &[String],
        witness_without_inverses: &[String],
        all_cols: &[String],
        to_be_shifted: &[String],
        shifted: &[String],
        all_cols_and_shifts: &[String],
    ) -> (r: Result<String, TemplateError>)
        ensures
            r matches Ok(text) ==> rendered(
                self.flavor_template(),
                flavor_scalars(name@),
                flavor_lists(
                    views_of(relation_file_names@),
                    views_of(lookups@),
                    views_of(fixed@),
                    views_of(witness@),
                    views_of(witness_without_inverses@),
                    views_of(all_cols@),
                    views_of(to_be_shifted@),
                    views_of(shifted@),
                    views_of(all_cols_and_shifts@),
                ),
            ) == Some(text@),
            r is Err ==> rendered(
                self.flavor_template(),
                flavor_scalars(name@),
                flavor_lists(
                    views_of(relation_file_names@),
                    views_of(lookups@),
                    views_of(fixed@),
                    views_of(witness@),
                    views_of(witness_without_inverses@),
                    views_of(all_cols@),
                    views_of(to_be_shifted@),
                    views_of(shifted@),
                    views_of(all_cols_and_shifts@),
                ),
            ) is None,
    ;
}

/// Renders flavors through a fixed template string.
pub struct FlavorGenerator {
    pub template: String,
}

impl FlavorBuilder for FlavorGenerator {
    open spec fn flavor_template(&self) -> Seq<char> {
        self.template@
    }

    fn create_flavor_hpp(
        &self,
        name: &str,
        relation_file_names: &[String],
        lookups: &[String],
        fixed: &[String],
        witness: &[String],
        witness_without_inverses: &[String],
        all_cols: &[String],
        to_be_shifted: &[String],
        shifted: &[String],
        all_cols_and_shifts: &[String],
    ) -> (r: Result<String, TemplateError>) {
        render_flavor(
            name,
            relation_file_names,
            lookups,
            fixed,
            witness,
            witness_without_inverses,
            all_cols,
            to_be_shifted,
            shifted,
            all_cols_and_shifts,
            self.template.as_str(),
        )
    }
}

} // verus!
