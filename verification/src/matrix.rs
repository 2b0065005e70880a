//! The matrix transformer: renders a sequence of per-subject rows (integer
//! attributes and boolean trait flags) as a column-ordered text matrix.
//!
//! A configuration is accumulated by `MatrixTransformerBuilder` and frozen
//! into a `MatrixTransformer` by `build`. Column order in every output line is
//! registration order: all integer fields first, then all binary fields. A
//! row missing an integer field renders the sentinel `NULL`; a missing or
//! false binary field renders `0`, a true one renders `1`. Every field,
//! including the last, is terminated by a tab, and every line by a newline.
//!
//! Only the tab-separated encoding has an encoder; selecting another format
//! is reported as a configuration error, never silently re-encoded.

use crate::decimal::{i32_to_dec_string, spec_dec_int};
use vstd::prelude::*;
use vstd::string::StringExecFns;

verus! {

/// Output encodings a matrix can be requested in.
#[derive(Debug, Clone, Copy, PartialEq, Eq, Structural)]
pub enum MatrixOutputType {
    /// One JSON object per row.
    Json,
    /// Comma-separated values.
    Csv,
    /// Tab-separated values.
    Tsv,
}

/// The failure of `generate`: the selected output format has no encoder.
#[derive(Debug, Clone, Copy, PartialEq, Eq, Structural)]
pub enum ConfigurationError {
    /// The selected output format is declared but not implemented.
    UnsupportedFormat,
}

/// The mathematical content of one row: named integer attributes and named
/// boolean trait flags. A name is looked up by its first occurrence.
#[verifier::ext_equal]
pub ghost struct RowModel {
    /// The integer entries, in the order supplied.
    pub ints: Seq<(Seq<char>, i32)>,
    /// The boolean entries, in the order supplied.
    pub bools: Seq<(Seq<char>, bool)>,
}

/// The mathematical content of a transformer configuration: the registered
/// field names in registration order, the output format and the header flag.
#[verifier::ext_equal]
pub ghost struct TransformerModel {
    /// Names of the integer fields, in registration order.
    pub int_names: Seq<Seq<char>>,
    /// Names of the binary fields, in registration order.
    pub binary_names: Seq<Seq<char>>,
    /// The selected output format.
    pub output_type: MatrixOutputType,
    /// Whether a header line is emitted before the rows.
    pub with_header: bool,
}

/// The views of a sequence of field names.
pub open spec fn names_view(names: Seq<String>) -> Seq<Seq<char>> {
    names.map_values(|s: String| s@)
}

/// The models of a sequence of rows.
pub open spec fn rows_view(rows: Seq<MatrixTransformerRow>) -> Seq<RowModel> {
    rows.map_values(|r: MatrixTransformerRow| r@)
}

/// The value bound to `name` in an association sequence: the first entry
/// with that name wins, as in a mapping built left to right.
pub open spec fn spec_lookup<V>(entries: Seq<(Seq<char>, V)>, name: Seq<char>) -> Option<V>
    decreases entries.len(),
{
    if entries.len() == 0 {
        None
    } else if entries[0].0 == name {
        Some(entries[0].1)
    } else {
        spec_lookup(entries.skip(1), name)
    }
}

/// The sentinel rendered for a missing integer field.
pub open spec fn spec_null_text() -> Seq<char> {
    seq!['N', 'U', 'L', 'L']
}

/// The text of one integer cell: the decimal value if the row has the field,
/// the `NULL` sentinel otherwise.
pub open spec fn spec_int_cell(row: RowModel, name: Seq<char>) -> Seq<char> {
    match spec_lookup(row.ints, name) {
        Some(v) => spec_dec_int(v as int),
        None => spec_null_text(),
    }
}

/// The text of one binary cell: `1` if the row has the field with value
/// true, `0` if the field is absent or false.
pub open spec fn spec_binary_cell(row: RowModel, name: Seq<char>) -> Seq<char> {
    if spec_lookup(row.bools, name) == Some(true) {
        seq!['1']
    } else {
        seq!['0']
    }
}

/// The header cells for a list of field names, each terminated by a tab.
pub open spec fn spec_name_cells(names: Seq<Seq<char>>) -> Seq<char>
    decreases names.len(),
{
    if names.len() == 0 {
        Seq::empty()
    } else {
        spec_name_cells(names.drop_last()) + names.last() + seq!['\t']
    }
}

/// The integer cells of one row, in registration order, each terminated by
/// a tab.
pub open spec fn spec_int_cells(names: Seq<Seq<char>>, row: RowModel) -> Seq<char>
    decreases names.len(),
{
    if names.len() == 0 {
        Seq::empty()
    } else {
        spec_int_cells(names.drop_last(), row) + spec_int_cell(row, names.last()) + seq!['\t']
    }
}

/// The binary cells of one row, in registration order, each terminated by
/// a tab.
pub open spec fn spec_binary_cells(names: Seq<Seq<char>>, row: RowModel) -> Seq<char>
    decreases names.len(),
{
    if names.len() == 0 {
        Seq::empty()
    } else {
        spec_binary_cells(names.drop_last(), row) + spec_binary_cell(row, names.last())
            + seq!['\t']
    }
}

/// The header line: integer field names, then binary field names, each
/// tab-terminated, closed by a newline.
pub open spec fn spec_header_line(int_names: Seq<Seq<char>>, binary_names: Seq<Seq<char>>) -> Seq<
    char,
> {
    spec_name_cells(int_names) + spec_name_cells(binary_names) + seq!['\n']
}

/// The line for one row: integer cells, then binary cells, each
/// tab-terminated, closed by a newline.
pub open spec fn spec_row_line(
    int_names: Seq<Seq<char>>,
    binary_names: Seq<Seq<char>>,
    row: RowModel,
) -> Seq<char> {
    spec_int_cells(int_names, row) + spec_binary_cells(binary_names, row) + seq!['\n']
}

/// The lines for a sequence of rows, in input order.
pub open spec fn spec_rows_text(
    int_names: Seq<Seq<char>>,
    binary_names: Seq<Seq<char>>,
    rows: Seq<RowModel>,
) -> Seq<char>
    decreases rows.len(),
{
    if rows.len() == 0 {
        Seq::empty()
    } else {
        spec_rows_text(int_names, binary_names, rows.drop_last()) + spec_row_line(
            int_names,
            binary_names,
            rows.last(),
        )
    }
}

/// The whole tab-separated output: the header line if enabled, then one
/// line per row in input order.
pub open spec fn spec_matrix_tsv(m: TransformerModel, rows: Seq<RowModel>) -> Seq<char> {
    (if m.with_header {
        spec_header_line(m.int_names, m.binary_names)
    } else {
        Seq::<char>::empty()
    }) + spec_rows_text(m.int_names, m.binary_names, rows)
}

/// With the header disabled, rendering no rows yields the empty string,
/// whatever fields are registered.
pub proof fn lemma_matrix_empty(m: TransformerModel)
    requires
        !m.with_header,
    ensures
        spec_matrix_tsv(m, Seq::<RowModel>::empty()) == Seq::<char>::empty(),
{
    assert(spec_matrix_tsv(m, Seq::<RowModel>::empty()) =~= Seq::<char>::empty());
}

/// A registered integer field that a row does not provide renders the
/// `NULL` sentinel, independently of every other field.
pub proof fn lemma_missing_int_renders_null(row: RowModel, name: Seq<char>)
    requires
        spec_lookup(row.ints, name) is None,
    ensures
        spec_int_cell(row, name) == spec_null_text(),
{
}

/// A registered binary field that a row does not provide, or provides as
/// false, renders `0`, independently of every other field.
pub proof fn lemma_missing_binary_renders_zero(row: RowModel, name: Seq<char>)
    requires
        spec_lookup(row.bools, name) != Some(true),
    ensures
        spec_binary_cell(row, name) == seq!['0'],
{
}

proof fn lemma_int_cells_from_lookups(names: Seq<Seq<char>>, r1: RowModel, r2: RowModel)
    requires
        forall|name: Seq<char>| spec_lookup(r1.ints, name) == spec_lookup(r2.ints, name),
    ensures
        spec_int_cells(names, r1) == spec_int_cells(names, r2),
    decreases names.len(),
{
    if names.len() > 0 {
        lemma_int_cells_from_lookups(names.drop_last(), r1, r2);
    }
}

proof fn lemma_binary_cells_from_lookups(names: Seq<Seq<char>>, r1: RowModel, r2: RowModel)
    requires
        forall|name: Seq<char>| spec_lookup(r1.bools, name) == spec_lookup(r2.bools, name),
    ensures
        spec_binary_cells(names, r1) == spec_binary_cells(names, r2),
    decreases names.len(),
{
    if names.len() > 0 {
        lemma_binary_cells_from_lookups(names.drop_last(), r1, r2);
    }
}

/// A row's line depends only on the values its fields look up to, never on
/// the order its internal data is stored in: two rows that agree on every
/// lookup render identically, and the column order is the registration
/// order in both.
pub proof fn lemma_row_line_from_lookups(
    int_names: Seq<Seq<char>>,
    binary_names: Seq<Seq<char>>,
    r1: RowModel,
    r2: RowModel,
)
    requires
        forall|name: Seq<char>| spec_lookup(r1.ints, name) == spec_lookup(r2.ints, name),
        forall|name: Seq<char>| spec_lookup(r1.bools, name) == spec_lookup(r2.bools, name),
    ensures
        spec_row_line(int_names, binary_names, r1) == spec_row_line(int_names, binary_names, r2),
{
    lemma_int_cells_from_lookups(int_names, r1, r2);
    lemma_binary_cells_from_lookups(binary_names, r1, r2);
}

/// The rendering is a function of the configuration and the row models
/// alone: two renderings of the same configuration and the same row
/// sequence are byte-identical.
pub proof fn lemma_matrix_deterministic(
    m: TransformerModel,
    rows: Seq<RowModel>,
    first: Seq<char>,
    second: Seq<char>,
)
    requires
        first == spec_matrix_tsv(m, rows),
        second == spec_matrix_tsv(m, rows),
    ensures
        first == second,
{
}

/// The rendered text decomposes row by row, in input order: the text of a
/// concatenation of row sequences is the concatenation of their texts.
pub proof fn lemma_rows_text_concat(
    int_names: Seq<Seq<char>>,
    binary_names: Seq<Seq<char>>,
    rs1: Seq<RowModel>,
    rs2: Seq<RowModel>,
)
    ensures
        spec_rows_text(int_names, binary_names, rs1 + rs2) == spec_rows_text(
            int_names,
            binary_names,
            rs1,
        ) + spec_rows_text(int_names, binary_names, rs2),
    decreases rs2.len(),
{
    if rs2.len() == 0 {
        assert(rs1 + rs2 =~= rs1);
        assert(spec_rows_text(int_names, binary_names, rs1) + spec_rows_text(
            int_names,
            binary_names,
            rs2,
        ) =~= spec_rows_text(int_names, binary_names, rs1));
    } else {
        lemma_rows_text_concat(int_names, binary_names, rs1, rs2.drop_last());
        assert((rs1 + rs2).drop_last() =~= rs1 + rs2.drop_last());
        assert((rs1 + rs2).last() == rs2.last());
        assert(spec_rows_text(int_names, binary_names, rs1 + rs2) =~= spec_rows_text(
            int_names,
            binary_names,
            rs1,
        ) + spec_rows_text(int_names, binary_names, rs2));
    }
}

/// Swapping the two rows of a two-row export swaps exactly their two
/// lines; the header part and everything else is unchanged.
pub proof fn lemma_two_rows_swap(m: TransformerModel, r1: RowModel, r2: RowModel)
    ensures
        spec_matrix_tsv(m, seq![r1, r2]) == spec_matrix_tsv(m, Seq::<RowModel>::empty())
            + spec_row_line(m.int_names, m.binary_names, r1) + spec_row_line(
            m.int_names,
            m.binary_names,
            r2,
        ),
        spec_matrix_tsv(m, seq![r2, r1]) == spec_matrix_tsv(m, Seq::<RowModel>::empty())
            + spec_row_line(m.int_names, m.binary_names, r2) + spec_row_line(
            m.int_names,
            m.binary_names,
            r1,
        ),
{
    lemma_two_rows_lines(m, r1, r2);
    lemma_two_rows_lines(m, r2, r1);
}

proof fn lemma_two_rows_lines(m: TransformerModel, r1: RowModel, r2: RowModel)
    ensures
        spec_matrix_tsv(m, seq![r1, r2]) == spec_matrix_tsv(m, Seq::<RowModel>::empty())
            + spec_row_line(m.int_names, m.binary_names, r1) + spec_row_line(
            m.int_names,
            m.binary_names,
            r2,
        ),
{
    let pair = seq![r1, r2];
    let one = seq![r1];
    assert(pair.drop_last() =~= one);
    assert(pair.last() == r2);
    assert(one.drop_last() =~= Seq::<RowModel>::empty());
    assert(one.last() == r1);
    assert(spec_rows_text(m.int_names, m.binary_names, one) == spec_rows_text(
        m.int_names,
        m.binary_names,
        Seq::<RowModel>::empty(),
    ) + spec_row_line(m.int_names, m.binary_names, r1));
    assert(spec_rows_text(m.int_names, m.binary_names, pair) == spec_rows_text(
        m.int_names,
        m.binary_names,
        one,
    ) + spec_row_line(m.int_names, m.binary_names, r2));
    assert(spec_rows_text(m.int_names, m.binary_names, Seq::<RowModel>::empty())
        =~= Seq::<char>::empty());
    assert(spec_matrix_tsv(m, pair) =~= spec_matrix_tsv(m, Seq::<RowModel>::empty())
        + spec_row_line(m.int_names, m.binary_names, r1) + spec_row_line(
        m.int_names,
        m.binary_names,
        r2,
    ));
}

/// One subject's data for rendering: integer attributes and boolean trait
/// flags, keyed by field name, independent of any transformer's field
/// selection.
pub struct MatrixTransformerRow {
    binary_fields: Vec<(String, bool)>,
    int_fields: Vec<(String, i32)>,
}

impl View for MatrixTransformerRow {
    type V = RowModel;

    closed spec fn view(&self) -> RowModel {
        RowModel {
            ints: self.int_fields@.map_values(|p: (String, i32)| (p.0@, p.1)),
            bools: self.binary_fields@.map_values(|p: (String, bool)| (p.0@, p.1)),
        }
    }
}

impl MatrixTransformerRow {
    /// Creates a row from its binary and integer entries. If a name occurs
    /// more than once, the first entry wins on lookup.
    pub fn new(binary_fields: Vec<(String, bool)>, int_fields: Vec<(String, i32)>) -> (row: Self)
        ensures
            row@.ints == int_fields@.map_values(|p: (String, i32)| (p.0@, p.1)),
            row@.bools == binary_fields@.map_values(|p: (String, bool)| (p.0@, p.1)),
    {
        Self { binary_fields, int_fields }
    }

    /// The value of the named integer field, if the row has it.
    fn lookup_int_field(&self, name: &String) -> (r: Option<i32>)
        ensures
            r == spec_lookup(self@.ints, name@),
    {
        let mut idx: usize = 0;
        proof {
            assert(self@.ints.skip(0) =~= self@.ints);
        }
        while idx < self.int_fields.len()
            invariant
                idx <= self.int_fields@.len(),
                spec_lookup(self@.ints, name@) == spec_lookup(
                    self@.ints.skip(idx as int),
                    name@,
                ),
            decreases self.int_fields@.len() - idx,
        {
            if self.int_fields[idx].0 == *name {
                return Some(self.int_fields[idx].1);
            }
            proof {
                assert(self@.ints.skip(idx as int).skip(1) =~= self@.ints.skip(idx as int + 1));
            }
            idx += 1;
        }
        None
    }

    /// The value of the named binary field, if the row has it.
    fn lookup_binary_field(&self, name: &String) -> (r: Option<bool>)
        ensures
            r == spec_lookup(self@.bools, name@),
    {
        let mut idx: usize = 0;
        proof {
            assert(self@.bools.skip(0) =~= self@.bools);
        }
        while idx < self.binary_fields.len()
            invariant
                idx <= self.binary_fields@.len(),
                spec_lookup(self@.bools, name@) == spec_lookup(
                    self@.bools.skip(idx as int),
                    name@,
                ),
            decreases self.binary_fields@.len() - idx,
        {
            if self.binary_fields[idx].0 == *name {
                return Some(self.binary_fields[idx].1);
            }
            proof {
                assert(self@.bools.skip(idx as int).skip(1) =~= self@.bools.skip(idx as int + 1));
            }
            idx += 1;
        }
        None
    }
}

/// Accumulates field registrations and format choices, then freezes them
/// into a `MatrixTransformer`. The builder is consumed by `build`, so a
/// frozen configuration can no longer be extended or reordered.
pub struct MatrixTransformerBuilder {
    binary_fields: Vec<String>,
    int_fields: Vec<String>,
    output_type: MatrixOutputType,
    with_header: bool,
}

impl View for MatrixTransformerBuilder {
    type V = TransformerModel;

    closed spec fn view(&self) -> TransformerModel {
        TransformerModel {
            int_names: names_view(self.int_fields@),
            binary_names: names_view(self.binary_fields@),
            output_type: self.output_type,
            with_header: self.with_header,
        }
    }
}

impl MatrixTransformerBuilder {
    /// Creates a builder with no fields, tab-separated output and no header.
    pub fn new() -> (b: Self)
        ensures
            b@ == (TransformerModel {
                int_names: Seq::empty(),
                binary_names: Seq::empty(),
                output_type: MatrixOutputType::Tsv,
                with_header: false,
            }),
    {
        let b = Self {
            binary_fields: Vec::new(),
            int_fields: Vec::new(),
            output_type: MatrixOutputType::Tsv,
            with_header: false,
        };
        proof {
            assert(b@ =~= (TransformerModel {
                int_names: Seq::empty(),
                binary_names: Seq::empty(),
                output_type: MatrixOutputType::Tsv,
                with_header: false,
            }));
        }
        b
    }

    /// Appends an integer field; registration order is column order.
    /// Duplicate names are accepted and yield repeated columns.
    pub fn with_int_field(self, field_name: &str) -> (b: Self)
        ensures
            b@ == (TransformerModel { int_names: self@.int_names.push(field_name@), ..self@ }),
    {
        let ghost m = self@;
        let mut b = self;
        b.int_fields.push(field_name.to_owned());
        proof {
            assert(b@ =~= (TransformerModel { int_names: m.int_names.push(field_name@), ..m }));
        }
        b
    }

    /// Appends a binary field; registration order is column order.
    /// Duplicate names are accepted and yield repeated columns.
    pub fn with_binary_field(self, field_name: &str) -> (b: Self)
        ensures
            b@ == (TransformerModel {
                binary_names: self@.binary_names.push(field_name@),
                ..self@
            }),
    {
        let ghost m = self@;
        let mut b = self;
        b.binary_fields.push(field_name.to_owned());
        proof {
            assert(b@ =~= (TransformerModel {
                binary_names: m.binary_names.push(field_name@),
                ..m
            }));
        }
        b
    }

    /// Selects the output format; the last call wins.
    pub fn output_as(self, output_type: MatrixOutputType) -> (b: Self)
        ensures
            b@ == (TransformerModel { output_type, ..self@ }),
    {
        let ghost m = self@;
        let mut b = self;
        b.output_type = output_type;
        proof {
            assert(b@ =~= (TransformerModel { output_type, ..m }));
        }
        b
    }

    /// Chooses whether the first output line is a column-name header.
    pub fn with_header(self, header: bool) -> (b: Self)
        ensures
            b@ == (TransformerModel { with_header: header, ..self@ }),
    {
        let ghost m = self@;
        let mut b = self;
        b.with_header = header;
        proof {
            assert(b@ =~= (TransformerModel { with_header: header, ..m }));
        }
        b
    }

    /// Consumes the builder and returns the frozen configuration.
    pub fn build(self) -> (t: MatrixTransformer)
        ensures
            t@ == self@,
    {
        let t = MatrixTransformer {
            binary_fields: self.binary_fields,
            int_fields: self.int_fields,
            output_type: self.output_type,
            with_header: self.with_header,
        };
        proof {
            assert(t@ =~= self@);
        }
        t
    }
}

/// A frozen export configuration: renders rows as a text matrix.
pub struct MatrixTransformer {
    binary_fields: Vec<String>,
    int_fields: Vec<String>,
    output_type: MatrixOutputType,
    with_header: bool,
}

impl View for MatrixTransformer {
    type V = TransformerModel;

    closed spec fn view(&self) -> TransformerModel {
        TransformerModel {
            int_names: names_view(self.int_fields@),
            binary_names: names_view(self.binary_fields@),
            output_type: self.output_type,
            with_header: self.with_header,
        }
    }
}

impl MatrixTransformer {
    /// Renders the rows, in input order, in the configured format. Succeeds
    /// exactly when the configured format has an encoder; missing row fields
    /// never fail, they render as sentinels.
    pub fn generate(&self, rows: Vec<MatrixTransformerRow>) -> (r: Result<
        String,
        ConfigurationError,
    >)
        ensures
            match r {
                Ok(out) => self@.output_type == MatrixOutputType::Tsv && out@ == spec_matrix_tsv(
                    self@,
                    rows_view(rows@),
                ),
                Err(e) => self@.output_type != MatrixOutputType::Tsv && e
                    == ConfigurationError::UnsupportedFormat,
            },
    {
        match self.output_type {
            MatrixOutputType::Tsv => {
                let mut matrix_output = String::new();
                if self.with_header {
                    self.append_tsv_header(&mut matrix_output);
                }
                let ghost header_text = if self@.with_header {
                    spec_header_line(self@.int_names, self@.binary_names)
                } else {
                    Seq::<char>::empty()
                };
                proof {
                    assert(matrix_output@ =~= header_text + spec_rows_text(
                        self@.int_names,
                        self@.binary_names,
                        rows_view(rows@).take(0),
                    ));
                }
                let mut i: usize = 0;
                while i < rows.len()
                    invariant
                        i <= rows@.len(),
                        header_text == (if self@.with_header {
                            spec_header_line(self@.int_names, self@.binary_names)
                        } else {
                            Seq::<char>::empty()
                        }),
                        matrix_output@ == header_text + spec_rows_text(
                            self@.int_names,
                            self@.binary_names,
                            rows_view(rows@).take(i as int),
                        ),
                    decreases rows@.len() - i,
                {
                    self.append_tsv_row(&mut matrix_output, &rows[i]);
                    proof {
                        let rv = rows_view(rows@);
                        assert(rv.take(i as int + 1).drop_last() =~= rv.take(i as int));
                        assert(rv.take(i as int + 1).last() == rv[i as int]);
                    }
                    i += 1;
                }
                proof {
                    assert(rows_view(rows@).take(rows@.len() as int) =~= rows_view(rows@));
                }
                Ok(matrix_output)
            },
            _ => Err(ConfigurationError::UnsupportedFormat),
        }
    }

    /// Appends the header line: each field name in registration order with a
    /// trailing tab, then a newline.
    fn append_tsv_header(&self, builder: &mut String)
        ensures
            final(builder)@ == old(builder)@ + spec_header_line(
                self@.int_names,
                self@.binary_names,
            ),
    {
        let ghost base = builder@;
        let mut i: usize = 0;
        while i < self.int_fields.len()
            invariant
                i <= self.int_fields@.len(),
                builder@ == base + spec_name_cells(self@.int_names.take(i as int)),
            decreases self.int_fields@.len() - i,
        {
            builder.append(self.int_fields[i].as_str());
            builder.append("\t");
            proof {
                reveal_strlit("\t");
                assert("\t"@ =~= seq!['\t']);
                assert(self@.int_names.take(i as int + 1).drop_last() =~= self@.int_names.take(
                    i as int,
                ));
            }
            i += 1;
        }
        proof {
            assert(self@.int_names.take(self.int_fields@.len() as int) =~= self@.int_names);
        }
        let ghost mid = base + spec_name_cells(self@.int_names);
        let mut j: usize = 0;
        while j < self.binary_fields.len()
            invariant
                j <= self.binary_fields@.len(),
                builder@ == mid + spec_name_cells(self@.binary_names.take(j as int)),
            decreases self.binary_fields@.len() - j,
        {
            builder.append(self.binary_fields[j].as_str());
            builder.append("\t");
            proof {
                reveal_strlit("\t");
                assert("\t"@ =~= seq!['\t']);
                assert(self@.binary_names.take(j as int + 1).drop_last()
                    =~= self@.binary_names.take(j as int));
            }
            j += 1;
        }
        proof {
            assert(self@.binary_names.take(self.binary_fields@.len() as int)
                =~= self@.binary_names);
        }
        builder.append("\n");
        proof {
            reveal_strlit("\n");
            assert("\n"@ =~= seq!['\n']);
            assert(builder@ =~= base + spec_header_line(self@.int_names, self@.binary_names));
        }
    }

    /// Appends one row's line: each registered integer cell, then each
    /// registered binary cell, each with a trailing tab, then a newline.
    fn append_tsv_row(&self, builder: &mut String, row: &MatrixTransformerRow)
        ensures
            final(builder)@ == old(builder)@ + spec_row_line(
                self@.int_names,
                self@.binary_names,
                row@,
            ),
    {
        let ghost base = builder@;
        let mut i: usize = 0;
        while i < self.int_fields.len()
            invariant
                i <= self.int_fields@.len(),
                builder@ == base + spec_int_cells(self@.int_names.take(i as int), row@),
            decreases self.int_fields@.len() - i,
        {
            match row.lookup_int_field(&self.int_fields[i]) {
                Some(value) => {
                    let text = i32_to_dec_string(value);
                    builder.append(text.as_str());
                },
                None => {
                    builder.append("NULL");
                    proof {
                        reveal_strlit("NULL");
                        assert("NULL"@ =~= spec_null_text());
                    }
                },
            }
            builder.append("\t");
            proof {
                reveal_strlit("\t");
                assert("\t"@ =~= seq!['\t']);
                assert(self@.int_names.take(i as int + 1).drop_last() =~= self@.int_names.take(
                    i as int,
                ));
            }
            i += 1;
        }
        proof {
            assert(self@.int_names.take(self.int_fields@.len() as int) =~= self@.int_names);
        }
        let ghost mid = base + spec_int_cells(self@.int_names, row@);
        let mut j: usize = 0;
        while j < self.binary_fields.len()
            invariant
                j <= self.binary_fields@.len(),
                builder@ == mid + spec_binary_cells(self@.binary_names.take(j as int), row@),
            decreases self.binary_fields@.len() - j,
        {
            match row.lookup_binary_field(&self.binary_fields[j]) {
                Some(true) => {
                    builder.append("1");
                    proof {
                        reveal_strlit("1");
                        assert("1"@ =~= seq!['1']);
                    }
                },
                _ => {
                    builder.append("0");
                    proof {
                        reveal_strlit("0");
                        assert("0"@ =~= seq!['0']);
                    }
                },
            }
            builder.append("\t");
            proof {
                reveal_strlit("\t");
                assert("\t"@ =~= seq!['\t']);
                assert(self@.binary_names.take(j as int + 1).drop_last()
                    =~= self@.binary_names.take(j as int));
            }
            j += 1;
        }
        proof {
            assert(self@.binary_names.take(self.binary_fields@.len() as int)
                =~= self@.binary_names);
        }
        builder.append("\n");
        proof {
            reveal_strlit("\n");
            assert("\n"@ =~= seq!['\n']);
            assert(builder@ =~= base + spec_row_line(self@.int_names, self@.binary_names, row@));
        }
    }
}

} // verus!

