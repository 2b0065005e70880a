use silo::matrix::{
    ConfigurationError, MatrixOutputType, MatrixTransformerBuilder, MatrixTransformerRow,
};

fn row(binary: Vec<(&str, bool)>, ints: Vec<(&str, i32)>) -> MatrixTransformerRow {
    let binary_fields: Vec<(String, bool)> =
        binary.into_iter().map(|(n, v)| (n.to_owned(), v)).collect();
    let int_fields: Vec<(String, i32)> =
        ints.into_iter().map(|(n, v)| (n.to_owned(), v)).collect();
    MatrixTransformerRow::new(binary_fields, int_fields)
}

#[test]
fn empty_matrix() {
    let transformer = MatrixTransformerBuilder::new()
        .with_int_field("age")
        .with_binary_field("migraine")
        .build();
    let output = transformer.generate(vec![]).unwrap();
    assert!(output == "");
}

#[test]
fn one_element_matrix() {
    let transformer = MatrixTransformerBuilder::new()
        .with_int_field("age")
        .with_binary_field("migraine")
        .output_as(MatrixOutputType::Tsv)
        .build();

    let row = row(vec![("migraine", true)], vec![("age", 24)]);

    let output = transformer.generate(vec![row]).unwrap();
    assert!(output == "24\t1\t\n");
}

#[test]
fn header_only_matrix() {
    let transformer = MatrixTransformerBuilder::new()
        .with_int_field("age")
        .with_binary_field("migraine")
        .with_header(true)
        .build();
    let output = transformer.generate(vec![]).unwrap();
    assert_eq!(output, "age\tmigraine\t\n");
}

#[test]
fn missing_fields_render_sentinels() {
    let transformer = MatrixTransformerBuilder::new()
        .with_int_field("age")
        .with_binary_field("migraine")
        .build();
    let output = transformer.generate(vec![row(vec![], vec![])]).unwrap();
    assert_eq!(output, "NULL\t0\t\n");
}

#[test]
fn explicit_false_renders_zero() {
    let transformer = MatrixTransformerBuilder::new()
        .with_int_field("age")
        .with_binary_field("migraine")
        .build();
    let output = transformer
        .generate(vec![row(vec![("migraine", false)], vec![("age", 3)])])
        .unwrap();
    assert_eq!(output, "3\t0\t\n");
}

#[test]
fn column_order_ignores_row_key_order() {
    let transformer = MatrixTransformerBuilder::new()
        .with_int_field("age")
        .with_int_field("visits")
        .with_binary_field("migraine")
        .with_binary_field("cough")
        .build();
    let ordered = row(
        vec![("migraine", true), ("cough", false)],
        vec![("age", 24), ("visits", 3)],
    );
    let shuffled = row(
        vec![("cough", false), ("migraine", true)],
        vec![("visits", 3), ("age", 24)],
    );
    let first = transformer.generate(vec![ordered]).unwrap();
    let second = transformer.generate(vec![shuffled]).unwrap();
    assert_eq!(first, "24\t3\t1\t0\t\n");
    assert_eq!(first, second);
}

#[test]
fn repeated_generation_is_identical() {
    let transformer = MatrixTransformerBuilder::new()
        .with_int_field("age")
        .with_binary_field("migraine")
        .with_header(true)
        .build();
    let make_rows = || {
        vec![
            row(vec![("migraine", true)], vec![("age", 24)]),
            row(vec![], vec![("age", 31)]),
        ]
    };
    let first = transformer.generate(make_rows()).unwrap();
    let second = transformer.generate(make_rows()).unwrap();
    assert_eq!(first, second);
}

#[test]
fn swapping_rows_swaps_lines() {
    let transformer = MatrixTransformerBuilder::new()
        .with_int_field("age")
        .with_binary_field("migraine")
        .build();
    let r1 = || row(vec![("migraine", true)], vec![("age", 24)]);
    let r2 = || row(vec![], vec![("age", 31)]);
    let forward = transformer.generate(vec![r1(), r2()]).unwrap();
    let backward = transformer.generate(vec![r2(), r1()]).unwrap();
    assert_eq!(forward, "24\t1\t\n31\t0\t\n");
    assert_eq!(backward, "31\t0\t\n24\t1\t\n");
}

#[test]
fn csv_is_unsupported() {
    let transformer = MatrixTransformerBuilder::new()
        .with_int_field("age")
        .output_as(MatrixOutputType::Csv)
        .build();
    let result = transformer.generate(vec![row(vec![], vec![("age", 24)])]);
    assert_eq!(result, Err(ConfigurationError::UnsupportedFormat));
}

#[test]
fn json_is_unsupported() {
    let transformer = MatrixTransformerBuilder::new()
        .with_int_field("age")
        .output_as(MatrixOutputType::Json)
        .build();
    let result = transformer.generate(vec![]);
    assert_eq!(result, Err(ConfigurationError::UnsupportedFormat));
}

#[test]
fn last_format_choice_wins() {
    let transformer = MatrixTransformerBuilder::new()
        .with_int_field("age")
        .output_as(MatrixOutputType::Json)
        .output_as(MatrixOutputType::Tsv)
        .build();
    let output = transformer.generate(vec![row(vec![], vec![("age", 5)])]).unwrap();
    assert_eq!(output, "5\t\n");
}

#[test]
fn negative_and_zero_values_render_in_decimal() {
    let transformer = MatrixTransformerBuilder::new()
        .with_int_field("delta")
        .with_int_field("zero")
        .with_int_field("min")
        .build();
    let output = transformer
        .generate(vec![row(
            vec![],
            vec![("delta", -7), ("zero", 0), ("min", i32::MIN)],
        )])
        .unwrap();
    assert_eq!(output, "-7\t0\t-2147483648\t\n");
}

#[test]
fn duplicate_registered_fields_repeat_columns() {
    let transformer = MatrixTransformerBuilder::new()
        .with_int_field("age")
        .with_int_field("age")
        .with_binary_field("migraine")
        .with_header(true)
        .build();
    let output = transformer
        .generate(vec![row(vec![("migraine", true)], vec![("age", 24)])])
        .unwrap();
    assert_eq!(output, "age\tage\tmigraine\t\n24\t24\t1\t\n");
}

#[test]
fn first_row_entry_wins_on_duplicate_keys() {
    let transformer = MatrixTransformerBuilder::new().with_int_field("age").build();
    let output = transformer
        .generate(vec![row(vec![], vec![("age", 1), ("age", 2)])])
        .unwrap();
    assert_eq!(output, "1\t\n");
}
