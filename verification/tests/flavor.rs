use flavor_builder::FlavorBuilder;
use flavor_builder::FlavorGenerator;
use flavor_builder::ValidationError;
use flavor_builder::build;
use flavor_builder::generate;
use flavor_builder::output_file_name;
use flavor_builder::render_flavor;
use flavor_builder::snake_case;

fn strings(names: &[&str]) -> Vec<String> {
    names.iter().map(|n| n.to_string()).collect()
}

#[test]
fn overlapping_columns_rejected() {
    let fixed = strings(&["q_m", "shared"]);
    let witness = strings(&["w_l", "shared"]);
    let none: Vec<String> = Vec::new();
    let r = build("Avm", &none, &none, &fixed, &witness, &none, &none);
    assert_eq!(r.err(), Some(ValidationError::OverlappingColumns));
}

#[test]
fn unknown_shift_target_rejected() {
    let fixed = strings(&["q_m"]);
    let witness = strings(&["w_l"]);
    let to_be_shifted = strings(&["w_z"]);
    let none: Vec<String> = Vec::new();
    let r = build("Avm", &none, &none, &fixed, &witness, &none, &to_be_shifted);
    assert_eq!(r.err(), Some(ValidationError::UnknownShiftTarget));
}

#[test]
fn empty_name_rejected() {
    let fixed = strings(&["q_m"]);
    let witness = strings(&["w_l"]);
    let none: Vec<String> = Vec::new();
    let r = build("", &none, &none, &fixed, &witness, &none, &none);
    assert_eq!(r.err(), Some(ValidationError::EmptyName));
}

#[test]
fn derived_lists_match_inputs() {
    let relation_file_names = strings(&["decl"]);
    let lookups = strings(&["lk"]);
    let fixed = strings(&["q_m", "q_c"]);
    let witness = strings(&["w_l", "w_r"]);
    let witness_without_inverses = strings(&["w_l"]);
    let to_be_shifted = strings(&["q_c", "w_r"]);
    let c = build(
        "Avm",
        &relation_file_names,
        &lookups,
        &fixed,
        &witness,
        &witness_without_inverses,
        &to_be_shifted,
    )
    .unwrap();
    assert_eq!(c.name, "Avm");
    assert_eq!(c.relation_file_names, relation_file_names);
    assert_eq!(c.lookups, lookups);
    assert_eq!(c.fixed, fixed);
    assert_eq!(c.witness, witness);
    assert_eq!(c.witness_without_inverses, witness_without_inverses);
    assert_eq!(c.to_be_shifted, to_be_shifted);
    assert_eq!(c.all_cols, strings(&["q_m", "q_c", "w_l", "w_r"]));
    assert_eq!(c.all_cols.len(), fixed.len() + witness.len());
    assert_eq!(c.shifted, strings(&["q_c_shift", "w_r_shift"]));
    assert_eq!(c.shifted.len(), to_be_shifted.len());
    assert_eq!(
        c.all_cols_and_shifts,
        strings(&["q_m", "q_c", "w_l", "w_r", "q_c_shift", "w_r_shift"])
    );
}

#[test]
fn concrete_scenario() {
    let fixed = strings(&["q_m", "q_c"]);
    let witness = strings(&["w_l", "w_r"]);
    let to_be_shifted = strings(&["w_l"]);
    let none: Vec<String> = Vec::new();
    let c = build("Avm", &none, &none, &fixed, &witness, &none, &to_be_shifted).unwrap();
    assert_eq!(c.all_cols, strings(&["q_m", "q_c", "w_l", "w_r"]));
    assert_eq!(c.shifted, strings(&["w_l_shift"]));
    assert_eq!(
        c.all_cols_and_shifts,
        strings(&["q_m", "q_c", "w_l", "w_r", "w_l_shift"])
    );
}

#[test]
fn rendering_fills_every_schema_field() {
    let template = "\
{{name}}|{{#each relation_file_names}}{{this}};{{/each}}|\
{{#each lookups}}{{this}};{{/each}}|\
{{#each fixed}}{{this}};{{/each}}|\
{{#each witness}}{{this}};{{/each}}|\
{{#each witness_without_inverses}}{{this}};{{/each}}|\
{{#each all_cols}}{{this}};{{/each}}|\
{{#each to_be_shifted}}{{this}};{{/each}}|\
{{#each shifted}}{{this}};{{/each}}|\
{{#each all_cols_and_shifts}}{{this}};{{/each}}";
    let relation_file_names = strings(&["rel"]);
    let lookups = strings(&["lk"]);
    let fixed = strings(&["q_m"]);
    let witness = strings(&["w_l"]);
    let witness_without_inverses = strings(&["w_l"]);
    let to_be_shifted = strings(&["w_l"]);
    let c = build(
        "Avm",
        &relation_file_names,
        &lookups,
        &fixed,
        &witness,
        &witness_without_inverses,
        &to_be_shifted,
    )
    .unwrap();
    let text = generate(&c, template).unwrap();
    assert_eq!(
        text,
        "Avm|rel;|lk;|q_m;|w_l;|w_l;|q_m;w_l;|w_l;|w_l_shift;|q_m;w_l;w_l_shift;"
    );
}

#[test]
fn rendering_is_deterministic() {
    let template = "flavor {{name}}: {{#each all_cols_and_shifts}}[{{this}}]{{/each}}";
    let fixed = strings(&["q_m", "q_c"]);
    let witness = strings(&["w_l", "w_r"]);
    let to_be_shifted = strings(&["w_l"]);
    let none: Vec<String> = Vec::new();
    let c1 = build("Avm", &none, &none, &fixed, &witness, &none, &to_be_shifted).unwrap();
    let c2 = build("Avm", &none, &none, &fixed, &witness, &none, &to_be_shifted).unwrap();
    let first = generate(&c1, template).unwrap();
    let second = generate(&c2, template).unwrap();
    assert_eq!(first, second);
    assert_eq!(first, "flavor Avm: [q_m][q_c][w_l][w_r][w_l_shift]");
}

#[test]
fn malformed_template_fails() {
    let fixed = strings(&["q_m"]);
    let witness = strings(&["w_l"]);
    let none: Vec<String> = Vec::new();
    let c = build("Avm", &none, &none, &fixed, &witness, &none, &none).unwrap();
    let r = generate(&c, "{{#each fixed}}unterminated block");
    assert!(r.is_err());
    assert!(!r.unwrap_err().message.is_empty());
}

#[test]
fn render_flavor_uses_the_given_lists() {
    let cols = strings(&["a", "b"]);
    let none: Vec<String> = Vec::new();
    let text = render_flavor(
        "Tiny",
        &none,
        &none,
        &cols,
        &none,
        &none,
        &cols,
        &none,
        &none,
        &cols,
        "{{name}}:{{#each fixed}}{{this}},{{/each}}",
    )
    .unwrap();
    assert_eq!(text, "Tiny:a,b,");
}

#[test]
fn builder_trait_renders_through_its_template() {
    let generator = FlavorGenerator {
        template: "// {{name}} flavor with {{#each all_cols}}{{this}} {{/each}}".to_string(),
    };
    let fixed = strings(&["q_m"]);
    let witness = strings(&["w_l"]);
    let none: Vec<String> = Vec::new();
    let c = build("Avm", &none, &none, &fixed, &witness, &none, &none).unwrap();
    let text = generator
        .create_flavor_hpp(
            "Avm",
            &c.relation_file_names,
            &c.lookups,
            &c.fixed,
            &c.witness,
            &c.witness_without_inverses,
            &c.all_cols,
            &c.to_be_shifted,
            &c.shifted,
            &c.all_cols_and_shifts,
        )
        .unwrap();
    assert_eq!(text, "// Avm flavor with q_m w_l ");
}

#[test]
fn snake_case_lowercases_and_separates() {
    assert_eq!(snake_case("AvmMini"), "avm_mini");
    assert_eq!(snake_case("already_snake"), "already_snake");
    assert_eq!(snake_case("X"), "x");
    assert_eq!(snake_case(""), "");
}

#[test]
fn output_file_name_is_derived_from_the_name() {
    assert_eq!(output_file_name("AvmMini"), "avm_mini_flavor.hpp");
    assert_eq!(output_file_name("fib"), "fib_flavor.hpp");
}

#[test]
fn empty_lists_build_an_empty_context() {
    let none: Vec<String> = Vec::new();
    let c = build("Empty", &none, &none, &none, &none, &none, &none).unwrap();
    assert!(c.all_cols.is_empty());
    assert!(c.shifted.is_empty());
    assert!(c.all_cols_and_shifts.is_empty());
}
