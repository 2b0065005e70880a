//! Assembly of a subject matrix from request data: splitting the requested
//! field lists, deciding which attributes each subject contributes, and
//! rendering the whole group through the matrix transformer.
//!
//! The requested attribute and trait names arrive as comma-separated lists.
//! Splitting follows the usual convention that a list of `n` commas has
//! `n + 1` pieces, so an empty list names one empty field.

use crate::matrix::{
    names_view, rows_view, spec_matrix_tsv, MatrixOutputType, MatrixTransformer,
    MatrixTransformerBuilder, MatrixTransformerRow, RowModel, TransformerModel,
};
use crate::models::{Subject, SubjectTrait};
use vstd::prelude::*;
use vstd::string::StrSliceExecFns;

verus! {

/// The pieces of a comma-separated list: the text between consecutive
/// commas, in order, including empty pieces.
pub open spec fn spec_split_commas(s: Seq<char>) -> Seq<Seq<char>>
    decreases s.len(),
{
    if s.len() == 0 {
        seq![Seq::<char>::empty()]
    } else if s[0] == ',' {
        seq![Seq::<char>::empty()] + spec_split_commas(s.skip(1))
    } else {
        let rest = spec_split_commas(s.skip(1));
        seq![seq![s[0]] + rest[0]] + rest.skip(1)
    }
}

/// A split never has fewer than one piece.
pub proof fn lemma_split_commas_len(s: Seq<char>)
    ensures
        spec_split_commas(s).len() >= 1,
    decreases s.len(),
{
    if s.len() > 0 && s[0] != ',' {
        lemma_split_commas_len(s.skip(1));
    }
}

/// Text without a comma is a single piece.
proof fn lemma_split_commas_no_comma(s: Seq<char>)
    requires
        forall|j: int| 0 <= j < s.len() ==> s[j] != ',',
    ensures
        spec_split_commas(s) == seq![s],
    decreases s.len(),
{
    if s.len() == 0 {
        assert(s =~= Seq::<char>::empty());
        assert(spec_split_commas(s) =~= seq![s]);
    } else {
        assert(forall|j: int| 0 <= j < s.skip(1).len() ==> s.skip(1)[j] == s[j + 1]);
        lemma_split_commas_no_comma(s.skip(1));
        lemma_split_commas_len(s.skip(1));
        let rest = spec_split_commas(s.skip(1));
        assert(rest[0] == s.skip(1));
        assert(seq![s[0]] + rest[0] =~= s);
        assert(rest.skip(1) =~= Seq::<Seq<char>>::empty());
        assert(spec_split_commas(s) =~= seq![s]);
    }
}

/// Splitting at the first comma: the text before it is the first piece, and
/// the rest splits on its own.
proof fn lemma_split_commas_first_comma(s: Seq<char>, i: int)
    requires
        0 <= i < s.len(),
        s[i] == ',',
        forall|j: int| 0 <= j < i ==> s[j] != ',',
    ensures
        spec_split_commas(s) == seq![s.take(i)] + spec_split_commas(s.skip(i + 1)),
    decreases i,
{
    if i == 0 {
        assert(s.take(0) =~= Seq::<char>::empty());
        assert(spec_split_commas(s) =~= seq![s.take(0)] + spec_split_commas(s.skip(1)));
    } else {
        assert(forall|j: int| 0 <= j < s.skip(1).len() ==> s.skip(1)[j] == s[j + 1]);
        lemma_split_commas_first_comma(s.skip(1), i - 1);
        let rest = spec_split_commas(s.skip(1));
        assert(rest == seq![s.skip(1).take(i - 1)] + spec_split_commas(s.skip(1).skip(i)));
        assert(rest[0] == s.skip(1).take(i - 1));
        assert(seq![s[0]] + rest[0] =~= s.take(i));
        assert(rest.skip(1) =~= spec_split_commas(s.skip(1).skip(i)));
        assert(s.skip(1).skip(i) =~= s.skip(i + 1));
        assert(spec_split_commas(s) =~= seq![s.take(i)] + spec_split_commas(s.skip(i + 1)));
    }
}

/// Splits a comma-separated list into its pieces, in order, including
/// empty pieces.
pub fn split_commas(s: &str) -> (parts: Vec<String>)
    ensures
        names_view(parts@) == spec_split_commas(s@),
{
    let n = s.unicode_len();
    let mut parts: Vec<String> = Vec::new();
    let mut start: usize = 0;
    let mut i: usize = 0;
    proof {
        assert(s@.skip(0) =~= s@);
    }
    while i < n
        invariant
            start <= i <= n,
            n == s@.len(),
            forall|j: int| start <= j < i ==> s@[j] != ',',
            spec_split_commas(s@) == names_view(parts@) + spec_split_commas(
                s@.skip(start as int),
            ),
        decreases n - i,
    {
        let c = s.get_char(i);
        if c == ',' {
            let piece = s.substring_char(start, i).to_owned();
            let ghost prev = parts@;
            parts.push(piece);
            proof {
                let tail = s@.skip(start as int);
                assert(forall|j: int|
                    0 <= j < i - start as int ==> tail[j] == s@[start as int + j]);
                lemma_split_commas_first_comma(tail, i - start as int);
                assert(tail.take(i - start as int) =~= s@.subrange(start as int, i as int));
                assert(tail.skip(i - start as int + 1) =~= s@.skip(i as int + 1));
                assert(names_view(parts@) =~= names_view(prev).push(piece@));
                assert(names_view(prev) + spec_split_commas(s@.skip(start as int))
                    =~= names_view(parts@) + spec_split_commas(s@.skip(i as int + 1)));
            }
            start = i + 1;
        }
        i += 1;
    }
    let piece = s.substring_char(start, n).to_owned();
    let ghost prev = parts@;
    parts.push(piece);
    proof {
        let tail = s@.skip(start as int);
        assert(forall|j: int| 0 <= j < tail.len() ==> tail[j] == s@[start as int + j]);
        lemma_split_commas_no_comma(tail);
        assert(tail =~= s@.subrange(start as int, n as int));
        assert(names_view(parts@) =~= names_view(prev).push(piece@));
        assert(names_view(prev) + spec_split_commas(tail) =~= names_view(parts@));
    }
    parts
}

/// Whether one of the names equals the target.
pub fn contains_name(names: &Vec<String>, target: &String) -> (r: bool)
    ensures
        r == names_view(names@).contains(target@),
{
    let mut i: usize = 0;
    while i < names.len()
        invariant
            i <= names@.len(),
            forall|j: int| 0 <= j < i ==> names@[j]@ != target@,
        decreases names@.len() - i,
    {
        if names[i] == *target {
            assert(names_view(names@)[i as int] == target@);
            return true;
        }
        i += 1;
    }
    proof {
        assert(forall|j: int|
            0 <= j < names_view(names@).len() ==> names_view(names@)[j] != target@);
    }
    false
}

/// Whether the subject's traits include one with the given name.
pub open spec fn spec_has_trait(traits: Seq<SubjectTrait>, name: Seq<char>) -> bool {
    exists|k: int| 0 <= k < traits.len() && traits[k].trait_name@ == name
}

/// Whether one of the traits carries the given name.
pub fn has_trait(traits: &Vec<SubjectTrait>, name: &String) -> (r: bool)
    ensures
        r == spec_has_trait(traits@, name@),
{
    let mut i: usize = 0;
    while i < traits.len()
        invariant
            i <= traits@.len(),
            forall|j: int| 0 <= j < i ==> traits@[j].trait_name@ != name@,
        decreases traits@.len() - i,
    {
        if traits[i].trait_name == *name {
            return true;
        }
        i += 1;
    }
    false
}

/// The integer entries a subject contributes: of the subject's attributes,
/// those whose name appears in the requested list, in the fixed order `id`,
/// `age`, `length_of_stay`.
pub open spec fn spec_subject_int_entries(attrs: Seq<Seq<char>>, s: Subject) -> Seq<
    (Seq<char>, i32),
> {
    (if attrs.contains("id"@) {
        seq![("id"@, s.id)]
    } else {
        Seq::<(Seq<char>, i32)>::empty()
    }) + (if attrs.contains("age"@) {
        seq![("age"@, s.age as i32)]
    } else {
        Seq::<(Seq<char>, i32)>::empty()
    }) + (if attrs.contains("length_of_stay"@) {
        seq![("length_of_stay"@, s.length_of_stay as i32)]
    } else {
        Seq::<(Seq<char>, i32)>::empty()
    })
}

/// The binary entries a subject contributes: one entry per requested trait
/// name, true exactly when the subject carries a trait of that name.
pub open spec fn spec_subject_binary_entries(
    trait_names: Seq<Seq<char>>,
    traits: Seq<SubjectTrait>,
) -> Seq<(Seq<char>, bool)> {
    trait_names.map_values(|n: Seq<char>| (n, spec_has_trait(traits, n)))
}

/// Builds the matrix row for one subject: the requested integer attributes
/// the subject has, and one flag per requested trait name.
pub fn build_matrix_row(
    attribute_names: &Vec<String>,
    trait_names: &Vec<String>,
    subject: &Subject,
    subject_traits: &Vec<SubjectTrait>,
) -> (row: MatrixTransformerRow)
    ensures
        row@.ints == spec_subject_int_entries(names_view(attribute_names@), *subject),
        row@.bools == spec_subject_binary_entries(names_view(trait_names@), subject_traits@),
{
    let mut int_fields: Vec<(String, i32)> = Vec::new();
    let id_name = "id".to_owned();
    if contains_name(attribute_names, &id_name) {
        int_fields.push((id_name, subject.id));
    }
    let age_name = "age".to_owned();
    if contains_name(attribute_names, &age_name) {
        int_fields.push((age_name, subject.age as i32));
    }
    let stay_name = "length_of_stay".to_owned();
    if contains_name(attribute_names, &stay_name) {
        int_fields.push((stay_name, subject.length_of_stay as i32));
    }
    proof {
        assert(int_fields@.map_values(|p: (String, i32)| (p.0@, p.1))
            =~= spec_subject_int_entries(names_view(attribute_names@), *subject));
    }
    let mut binary_fields: Vec<(String, bool)> = Vec::new();
    let mut k: usize = 0;
    while k < trait_names.len()
        invariant
            k <= trait_names@.len(),
            binary_fields@.len() == k,
            forall|j: int|
                0 <= j < k ==> (#[trigger] binary_fields@[j]).0@ == trait_names@[j]@
                    && binary_fields@[j].1 == spec_has_trait(subject_traits@, trait_names@[j]@),
        decreases trait_names@.len() - k,
    {
        let flag = has_trait(subject_traits, &trait_names[k]);
        binary_fields.push((trait_names[k].clone(), flag));
        k += 1;
    }
    proof {
        assert(binary_fields@.map_values(|p: (String, bool)| (p.0@, p.1))
            =~= spec_subject_binary_entries(names_view(trait_names@), subject_traits@));
    }
    MatrixTransformerRow::new(binary_fields, int_fields)
}

/// The whole export for one group: requested attribute and trait lists are
/// split on commas, every piece becomes a registered column, and each
/// subject becomes one row in input order.
pub open spec fn spec_subject_matrix(
    attributes: Seq<char>,
    traits_list: Seq<char>,
    include_header: bool,
    subjects: Seq<Subject>,
    subject_traits: Seq<Vec<SubjectTrait>>,
) -> Seq<char> {
    let attrs = spec_split_commas(attributes);
    let trait_names = spec_split_commas(traits_list);
    spec_matrix_tsv(
        TransformerModel {
            int_names: attrs,
            binary_names: trait_names,
            output_type: MatrixOutputType::Tsv,
            with_header: include_header,
        },
        Seq::new(
            subjects.len(),
            |k: int|
                RowModel {
                    ints: spec_subject_int_entries(attrs, subjects[k]),
                    bools: spec_subject_binary_entries(trait_names, subject_traits[k]@),
                },
        ),
    )
}

/// Renders the tab-separated matrix for a group of subjects: the requested
/// attribute and trait names are comma-separated lists, `subject_traits`
/// holds the traits of the subject at the same position, and the output has
/// one line per subject in input order, after a header line if requested.
pub fn subject_matrix(
    attributes: &str,
    traits: &str,
    include_header: bool,
    subjects: &Vec<Subject>,
    subject_traits: &Vec<Vec<SubjectTrait>>,
) -> (out: String)
    requires
        subjects@.len() == subject_traits@.len(),
    ensures
        out@ == spec_subject_matrix(
            attributes@,
            traits@,
            include_header,
            subjects@,
            subject_traits@,
        ),
{
    let trait_names = split_commas(traits);
    let attribute_names = split_commas(attributes);
    let mut rows: Vec<MatrixTransformerRow> = Vec::new();
    let mut k: usize = 0;
    while k < subjects.len()
        invariant
            k <= subjects@.len(),
            subjects@.len() == subject_traits@.len(),
            names_view(trait_names@) == spec_split_commas(traits@),
            names_view(attribute_names@) == spec_split_commas(attributes@),
            rows@.len() == k,
            forall|j: int|
                0 <= j < k ==> (#[trigger] rows@[j])@.ints == spec_subject_int_entries(
                    spec_split_commas(attributes@),
                    subjects@[j],
                ) && rows@[j]@.bools == spec_subject_binary_entries(
                    spec_split_commas(traits@),
                    subject_traits@[j]@,
                ),
        decreases subjects@.len() - k,
    {
        let row = build_matrix_row(
            &attribute_names,
            &trait_names,
            &subjects[k],
            &subject_traits[k],
        );
        rows.push(row);
        k += 1;
    }
    let mut b = MatrixTransformerBuilder::new();
    b = b.output_as(MatrixOutputType::Tsv);
    b = b.with_header(include_header);
    let mut t_idx: usize = 0;
    proof {
        assert(b@.binary_names =~= names_view(trait_names@).take(0));
    }
    while t_idx < trait_names.len()
        invariant
            t_idx <= trait_names@.len(),
            names_view(trait_names@) == spec_split_commas(traits@),
            b@.int_names == Seq::<Seq<char>>::empty(),
            b@.binary_names == names_view(trait_names@).take(t_idx as int),
            b@.output_type == MatrixOutputType::Tsv,
            b@.with_header == include_header,
        decreases trait_names@.len() - t_idx,
    {
        b = b.with_binary_field(trait_names[t_idx].as_str());
        proof {
            assert(names_view(trait_names@).take(t_idx as int).push(trait_names@[t_idx as int]@)
                =~= names_view(trait_names@).take(t_idx as int + 1));
        }
        t_idx += 1;
    }
    proof {
        assert(names_view(trait_names@).take(trait_names@.len() as int)
            =~= names_view(trait_names@));
    }
    let mut a_idx: usize = 0;
    proof {
        assert(b@.int_names =~= names_view(attribute_names@).take(0));
    }
    while a_idx < attribute_names.len()
        invariant
            a_idx <= attribute_names@.len(),
            names_view(trait_names@) == spec_split_commas(traits@),
            names_view(attribute_names@) == spec_split_commas(attributes@),
            b@.int_names == names_view(attribute_names@).take(a_idx as int),
            b@.binary_names == names_view(trait_names@),
            b@.output_type == MatrixOutputType::Tsv,
            b@.with_header == include_header,
        decreases attribute_names@.len() - a_idx,
    {
        b = b.with_int_field(attribute_names[a_idx].as_str());
        proof {
            assert(names_view(attribute_names@).take(a_idx as int).push(
                attribute_names@[a_idx as int]@,
            ) =~= names_view(attribute_names@).take(a_idx as int + 1));
        }
        a_idx += 1;
    }
    proof {
        assert(names_view(attribute_names@).take(attribute_names@.len() as int)
            =~= names_view(attribute_names@));
    }
    let t = b.build();
    let ghost expected_rows = Seq::new(
        subjects@.len(),
        |j: int|
            RowModel {
                ints: spec_subject_int_entries(spec_split_commas(attributes@), subjects@[j]),
                bools: spec_subject_binary_entries(spec_split_commas(traits@), subject_traits@[j]@),
            },
    );
    proof {
        assert(rows_view(rows@) =~= expected_rows);
        assert(t@ =~= (TransformerModel {
            int_names: spec_split_commas(attributes@),
            binary_names: spec_split_commas(traits@),
            output_type: MatrixOutputType::Tsv,
            with_header: include_header,
        }));
    }
    match t.generate(rows) {
        Ok(out) => out,
        Err(_) => {
            proof {
                assert(false);
            }
            String::new()
        },
    }
}

} // verus!
