//! Rendering a Flavor context through a text template.
//!
//! The template engine is an outside capability: rendering is deterministic,
//! a pure function of the template text and the context fields, so its
//! outcome is modelled by the uninterpreted function [`rendered`].

use vstd::prelude::*;
use crate::context::FlavorContext;
use crate::context::copy_cols;
use crate::context::views_of;

verus! {

/// The outcome of rendering a template against a set of scalar fields and
/// list fields: `Some` rendered text, or `None` when the template is
/// malformed or cannot be rendered against these fields.
pub uninterp spec fn rendered(
    template: Seq<char>,
    scalars: Seq<(Seq<char>, Seq<char>)>,
    lists: Seq<(Seq<char>, Seq<Seq<char>>)>,
) -> Option<Seq<char>>;

/// The character-level views of a sequence of scalar fields.
pub open spec fn pair_views(s: Seq<(String, String)>) -> Seq<(Seq<char>, Seq<char>)> {
    s.map_values(|p: (String, String)| (p.0@, p.1@))
}

/// The character-level views of a sequence of list fields.
pub open spec fn list_views(s: Seq<(String, Vec<String>)>) -> Seq<(Seq<char>, Seq<Seq<char>>)> {
    s.map_values(|p: (String, Vec<String>)| (p.0@, views_of(p.1@)))
}

/// The one scalar field of the flavor schema: the flavor name.
pub open spec fn flavor_scalars(name: Seq<char>) -> Seq<(Seq<char>, Seq<char>)> {
    seq![("name"@, name)]
}

/// The list fields of the flavor schema, in their fixed order.
pub open spec fn flavor_lists(
    relation_file_names: Seq<Seq<char>>,
    lookups: Seq<Seq<char>>,
    fixed: Seq<Seq<char>>,
    witness: Seq<Seq<char>>,
    witness_without_inverses: Seq<Seq<char>>,
    all_cols: Seq<Seq<char>>,
    to_be_shifted: Seq<Seq<char>>,
    shifted: Seq<Seq<char>>,
    all_cols_and_shifts: Seq<Seq<char>>,
) -> Seq<(Seq<char>, Seq<Seq<char>>)> {
    seq![
        ("relation_file_names"@, relation_file_names),
        ("lookups"@, lookups),
        ("fixed"@, fixed),
        ("witness"@, witness),
        ("witness_without_inverses"@, witness_without_inverses),
        ("all_cols"@, all_cols),
        ("to_be_shifted"@, to_be_shifted),
        ("shifted"@, shifted),
        ("all_cols_and_shifts"@, all_cols_and_shifts),
    ]
}

/// The list fields of a built context, in schema order.
pub open spec fn context_lists(c: FlavorContext) -> Seq<(Seq<char>, Seq<Seq<char>>)> {
    flavor_lists(
        views_of(c.relation_file_names@),
        views_of(c.lookups@),
        views_of(c.fixed@),
        views_of(c.witness@),
        views_of(c.witness_without_inverses@),
        views_of(c.all_cols@),
        views_of(c.to_be_shifted@),
        views_of(c.shifted@),
        views_of(c.all_cols_and_shifts@),
    )
}

/// The template engine's error type.
#[verifier::external_type_specification]
#[verifier::external_body]
pub struct ExRenderError(handlebars::RenderError);

/// The template could not be compiled or rendered.
#[derive(Clone, Debug, PartialEq, Eq)]
pub struct TemplateError {
    pub message: String,
}

/// Relies on handlebars::Handlebars::render_template: compiling the template
/// string and rendering it against a JSON object built one-for-one from the
/// given key/value pairs. The outcome, success or failure alike, depends on
/// the template text and the pairs alone.
#[verifier::external_body]
fn hb_render_template(
    template: &str,
    scalars: &Vec<(String, String)>,
    lists: &Vec<(String, Vec<String>)>,
) -> (r: Result<String, handlebars::RenderError>)
    ensures
        r matches Ok(text) ==> rendered(template@, pair_views(scalars@), list_views(lists@))
            == Some(text@),
        r is Err ==> rendered(template@, pair_views(scalars@), list_views(lists@)) is None,
{
    let mut data = serde_json::Map::new();
    for (k, v) in scalars.iter() {
        data.insert(k.clone(), serde_json::Value::String(v.clone()));
    }
    for (k, vs) in lists.iter() {
        let items = vs.iter().map(|s| serde_json::Value::String(s.clone())).collect();
        data.insert(k.clone(), serde_json::Value::Array(items));
    }
    let hb = handlebars::Handlebars::new();
    hb.render_template(template, &serde_json::Value::Object(data))
}

/// Relies on RenderError's Display implementation to describe the failure.
#[verifier::external_body]
fn render_error_message(e: &handlebars::RenderError) -> String {
    e.to_string()
}

/// Renders the flavor fields through `template`: the result is exactly the
/// engine's rendering of the template against the schema fields, and the
/// call fails exactly when the engine cannot render this template against
/// these fields.
pub fn render_flavor(
    name: &str,
    relation_file_names: &[String],
    lookups: &[String],
    fixed: &[String],
    witness: &[String],
    witness_without_inverses: &[String],
    all_cols: &[String],
    to_be_shifted: &[String],
    shifted: &[String],
    all_cols_and_shifts: &[String],
    template: &str,
) -> (r: Result<String, TemplateError>)
    ensures
        r matches Ok(text) ==> rendered(
            template@,
            flavor_scalars(name@),
            flavor_lists(
                views_of(relation_file_names@),
                views_of(lookups@),
                views_of(fixed@),
                views_of(witness@),
                views_of(witness_without_inverses@),
                views_of(all_cols@),
                views_of(to_be_shifted@),
                views_of(shifted@),
                views_of(all_cols_and_shifts@),
            ),
        ) == Some(text@),
        r is Err ==> rendered(
            template@,
            flavor_scalars(name@),
            flavor_lists(
                views_of(relation_file_names@),
                views_of(lookups@),
                views_of(fixed@),
                views_of(witness@),
                views_of(witness_without_inverses@),
                views_of(all_cols@),
                views_of(to_be_shifted@),
                views_of(shifted@),
                views_of(all_cols_and_shifts@),
            ),
        ) is None,
{
    let mut scalars: Vec<(String, String)> = Vec::new();
    scalars.push(("name".to_owned(), name.to_owned()));
    let mut lists: Vec<(String, Vec<String>)> = Vec::new();
    lists.push(("relation_file_names".to_owned(), copy_cols(relation_file_names)));
    lists.push(("lookups".to_owned(), copy_cols(lookups)));
    lists.push(("fixed".to_owned(), copy_cols(fixed)));
    lists.push(("witness".to_owned(), copy_cols(witness)));
    lists.push(("witness_without_inverses".to_owned(), copy_cols(witness_without_inverses)));
    lists.push(("all_cols".to_owned(), copy_cols(all_cols)));
    lists.push(("to_be_shifted".to_owned(), copy_cols(to_be_shifted)));
    lists.push(("shifted".to_owned(), copy_cols(shifted)));
    lists.push(("all_cols_and_shifts".to_owned(), copy_cols(all_cols_and_shifts)));
    proof {
        assert(pair_views(scalars@) =~= flavor_scalars(name@));
        assert(list_views(lists@) =~= flavor_lists(
            views_of(relation_file_names@),
            views_of(lookups@),
            views_of(fixed@),
            views_of(witness@),
            views_of(witness_without_inverses@),
            views_of(all_cols@),
            views_of(to_be_shifted@),
            views_of(shifted@),
            views_of(all_cols_and_shifts@),
        ));
    }
    match hb_render_template(template, &scalars, &lists) {
        Ok(text) => Ok(text),
        Err(e) => Err(TemplateError { message: render_error_message(&e) }),
    }
}

/// Renders a built context through `template`; the mapping from context
/// fields to template placeholders is the fixed flavor schema.
pub fn generate(context: &FlavorContext, template: &str) -> (r: Result<String, TemplateError>)
    ensures
        r matches Ok(text) ==> rendered(
            template@,
            flavor_scalars(context.name@),
            context_lists(*context),
        ) == Some(text@),
        r is Err ==> rendered(
            template@,
            flavor_scalars(context.name@),
            context_lists(*context),
        ) is None,
{
    render_flavor(
        context.name.as_str(),
        context.relation_file_names.as_slice(),
        context.lookups.as_slice(),
        context.fixed.as_slice(),
        context.witness.as_slice(),
        context.witness_without_inverses.as_slice(),
        context.all_cols.as_slice(),
        context.to_be_shifted.as_slice(),
        context.shifted.as_slice(),
        context.all_cols_and_shifts.as_slice(),
        template,
    )
}

/// Rendering is deterministic: the outcome is a function of the template
/// text and the context fields alone, so any two renderings of identical
/// inputs are byte-identical.
pub proof fn lemma_render_deterministic(
    template: Seq<char>,
    scalars: Seq<(Seq<char>, Seq<char>)>,
    lists: Seq<(Seq<char>, Seq<Seq<char>>)>,
    out1: Option<Seq<char>>,
    out2: Option<Seq<char>>,
)
    requires
        out1 == rendered(template, scalars, lists),
        out2 == rendered(template, scalars, lists),
    ensures
        out1 == out2,
{
}

} // verus!
