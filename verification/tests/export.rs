use silo::export::{build_matrix_row, contains_name, has_trait, split_commas, subject_matrix};
use silo::matrix::MatrixTransformerBuilder;
use silo::models::{Subject, SubjectTrait};

fn subject(id: i32, age: i16, length_of_stay: i16) -> Subject {
    Subject { id, group_id: 1, age, length_of_stay }
}

fn subject_trait(id: i32, name: &str) -> SubjectTrait {
    SubjectTrait { id, parent_id: 0, trait_name: name.to_owned() }
}

#[test]
fn split_commas_separates_pieces() {
    assert_eq!(split_commas("cough,wet_cough"), vec!["cough", "wet_cough"]);
    assert_eq!(split_commas("age"), vec!["age"]);
}

#[test]
fn split_commas_keeps_empty_pieces() {
    assert_eq!(split_commas(""), vec![""]);
    assert_eq!(split_commas("a,,b"), vec!["a", "", "b"]);
    assert_eq!(split_commas(",a,"), vec!["", "a", ""]);
}

#[test]
fn contains_name_finds_exact_names() {
    let names = vec!["age".to_owned(), "length_of_stay".to_owned()];
    assert!(contains_name(&names, &"age".to_owned()));
    assert!(contains_name(&names, &"length_of_stay".to_owned()));
    assert!(!contains_name(&names, &"id".to_owned()));
    assert!(!contains_name(&names, &"len".to_owned()));
}

#[test]
fn has_trait_matches_trait_names() {
    let traits = vec![subject_trait(1, "cough"), subject_trait(2, "fever")];
    assert!(has_trait(&traits, &"cough".to_owned()));
    assert!(has_trait(&traits, &"fever".to_owned()));
    assert!(!has_trait(&traits, &"migraine".to_owned()));
}

#[test]
fn build_matrix_row_selects_requested_attributes() {
    let attribute_names = vec!["age".to_owned(), "id".to_owned()];
    let trait_names = vec!["cough".to_owned(), "migraine".to_owned()];
    let s = subject(7, 24, 3);
    let traits = vec![subject_trait(1, "cough")];
    let row = build_matrix_row(&attribute_names, &trait_names, &s, &traits);

    let transformer = MatrixTransformerBuilder::new()
        .with_int_field("id")
        .with_int_field("age")
        .with_int_field("length_of_stay")
        .with_binary_field("cough")
        .with_binary_field("migraine")
        .build();
    let output = transformer.generate(vec![row]).unwrap();
    assert_eq!(output, "7\t24\tNULL\t1\t0\t\n");
}

#[test]
fn subject_matrix_renders_group() {
    let subjects = vec![subject(1, 24, 3), subject(2, 31, 5)];
    let subject_traits = vec![
        vec![subject_trait(1, "cough")],
        vec![subject_trait(2, "wet_cough")],
    ];
    let output = subject_matrix(
        "age,length_of_stay",
        "cough,wet_cough",
        true,
        &subjects,
        &subject_traits,
    );
    assert_eq!(
        output,
        "age\tlength_of_stay\tcough\twet_cough\t\n24\t3\t1\t0\t\n31\t5\t0\t1\t\n"
    );
}

#[test]
fn subject_matrix_unknown_attribute_renders_null() {
    let subjects = vec![subject(1, 24, 3)];
    let subject_traits = vec![vec![]];
    let output = subject_matrix("age,weight", "cough", false, &subjects, &subject_traits);
    assert_eq!(output, "24\tNULL\t0\t\n");
}

#[test]
fn subject_matrix_empty_lists_register_one_empty_column() {
    let subjects = vec![subject(1, 24, 3)];
    let subject_traits = vec![vec![]];
    let output = subject_matrix("", "", true, &subjects, &subject_traits);
    assert_eq!(output, "\t\t\nNULL\t0\t\n");
}
