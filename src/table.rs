//! Building tables out of records: the header row, the cells of a record,
//! the transposed single-record table, the list table.
use vstd::prelude::*;
use crate::config::StructTableOptions;
use crate::field::{cell_text, opt_text, render_value, FieldDescriptor, FieldValue};

verus! {

/// A record type whose fields can be laid out as table columns.
///
/// A type gives its ordered field descriptors either once for the whole type
/// (`class_fields`) or per record (`instance_fields`, for records whose
/// columns depend on their content); the builders try the type-level list
/// first. `values` gives the raw values in the same order as the descriptors.
pub trait StructTable {
    /// The type-level descriptors that `class_fields` returns; a type
    /// verified here overrides this.
    open spec fn spec_class_fields() -> Option<Seq<FieldDescriptor>> {
        None
    }

    /// The record's own descriptors that `instance_fields` returns; a type
    /// verified here overrides this.
    open spec fn spec_instance_fields(&self) -> Option<Seq<FieldDescriptor>> {
        None
    }

    /// The raw values that `values` returns; a type verified here overrides
    /// this.
    open spec fn spec_values(&self) -> Seq<FieldValue> {
        Seq::empty()
    }

    /// Descriptors that are not instance specific (i.e. a struct's fields);
    /// `None` for a type whose columns depend on each record.
    fn class_fields() -> (r: Option<Vec<FieldDescriptor>>)
        ensures
            opt_seq(r) == Self::spec_class_fields(),
    ;

    /// Descriptors that are instance specific (i.e. a map's keys); `None`
    /// for a type with type-level descriptors.
    fn instance_fields(&self) -> (r: Option<Vec<FieldDescriptor>>)
        ensures
            opt_seq(r) == self.spec_instance_fields(),
    ;

    /// The raw field values, in the order of the descriptors.
    fn values(&self) -> (r: Vec<FieldValue>)
        ensures
            r@ == self.spec_values(),
    ;
}

/// View of an optional list.
pub open spec fn opt_seq<A>(o: Option<Vec<A>>) -> Option<Seq<A>> {
    match o {
        Some(v) => Some(v@),
        None => None,
    }
}

/// The descriptors a record is laid out by: the type-level list first, and
/// the record's own list only where the type gives none.
pub open spec fn record_fields<T: StructTable>(t: T) -> Option<Seq<FieldDescriptor>> {
    match T::spec_class_fields() {
        Some(f) => Some(f),
        None => t.spec_instance_fields(),
    }
}

/// What a configuration decides for each field of one descriptor list:
/// whether it is shown and which JSON pointer narrows its value, plus the
/// pretty flag. Positions follow the descriptors.
#[derive(Clone, Debug)]
pub struct Columns {
    /// Whether each field is shown.
    pub shown: Vec<bool>,
    /// The JSON pointer of each field, if any.
    pub pointers: Vec<Option<String>>,
    /// Whether JSON values are pretty-printed.
    pub pretty: bool,
}

/// View of a list of strings.
pub open spec fn texts(v: Seq<String>) -> Seq<Seq<char>> {
    v.map_values(|s: String| s@)
}

/// View of a list of string rows.
pub open spec fn table_texts(v: Seq<Vec<String>>) -> Seq<Seq<Seq<char>>> {
    v.map_values(|r: Vec<String>| texts(r@))
}

/// View of a list of optional cells.
pub open spec fn cells_view(v: Seq<Option<String>>) -> Seq<Option<Seq<char>>> {
    v.map_values(|c: Option<String>| opt_text(c))
}

/// Whether field `i` is shown; a field past the choices is not.
pub open spec fn shown(c: Columns, i: int) -> bool {
    0 <= i < c.shown@.len() && c.shown@[i]
}

/// The pointer for field `i`; none past the choices.
pub open spec fn pointer_at(c: Columns, i: int) -> Option<Seq<char>> {
    if 0 <= i < c.pointers@.len() {
        opt_text(c.pointers@[i])
    } else {
        None
    }
}

/// The value at a position; absent past the end of the values.
pub open spec fn value_at(values: Seq<FieldValue>, i: int) -> FieldValue {
    if 0 <= i < values.len() {
        values[i]
    } else {
        FieldValue::Absent
    }
}

/// The cell of field `i`.
pub open spec fn field_cell(
    fields: Seq<FieldDescriptor>,
    values: Seq<FieldValue>,
    c: Columns,
    i: int,
) -> Option<Seq<char>> {
    cell_text(value_at(values, i), fields[i], pointer_at(c, i), c.pretty)
}

/// Titles of the shown fields, in declaration order.
pub open spec fn header_titles(fields: Seq<FieldDescriptor>, c: Columns) -> Seq<Seq<char>>
    decreases fields.len(),
{
    if fields.len() == 0 {
        seq![]
    } else {
        let n = fields.len() - 1;
        let rest = header_titles(fields.drop_last(), c);
        if shown(c, n) {
            rest.push(fields[n].title@)
        } else {
            rest
        }
    }
}

/// Cells of the shown fields, in declaration order.
pub open spec fn row_cells(fields: Seq<FieldDescriptor>, values: Seq<FieldValue>, c: Columns) -> Seq<
    Option<Seq<char>>,
>
    decreases fields.len(),
{
    if fields.len() == 0 {
        seq![]
    } else {
        let n = fields.len() - 1;
        let rest = row_cells(fields.drop_last(), values, c);
        if shown(c, n) {
            rest.push(field_cell(fields, values, c, n))
        } else {
            rest
        }
    }
}

/// Attribute/value pairs of the present cells, headers and cells taken
/// position by position.
pub open spec fn present_pairs(headers: Seq<Seq<char>>, cells: Seq<Option<Seq<char>>>) -> Seq<
    Seq<Seq<char>>,
>
    decreases cells.len(),
{
    if cells.len() == 0 || headers.len() == 0 {
        seq![]
    } else {
        let n = (if headers.len() < cells.len() {
            headers.len()
        } else {
            cells.len()
        }) - 1;
        let rest = present_pairs(headers.take(n), cells.take(n));
        match cells[n] {
            Some(c) => rest.push(seq![headers[n], c]),
            None => rest,
        }
    }
}

/// Cells with every absent one replaced by a single blank.
pub open spec fn blank_filled(cells: Seq<Option<Seq<char>>>) -> Seq<Seq<char>> {
    cells.map_values(
        |c: Option<Seq<char>>|
            match c {
                Some(s) => s,
                None => seq![' '],
            },
    )
}

/// The rows of the single-record table.
pub open spec fn attribute_rows(fields: Seq<FieldDescriptor>, values: Seq<FieldValue>, c: Columns) -> Seq<
    Seq<Seq<char>>,
> {
    present_pairs(header_titles(fields, c), row_cells(fields, values, c))
}

/// `c` holds what the options decide for `fields`: each field's selection
/// and pointer, and the pretty flag.
pub open spec fn chosen_by<O: StructTableOptions>(c: Columns, o: O, fields: Seq<FieldDescriptor>) -> bool {
    &&& c.shown@.len() == fields.len()
    &&& c.pointers@.len() == fields.len()
    &&& forall|i: int|
        0 <= i < fields.len() ==> #[trigger] c.shown@[i] == o.spec_should_return_field(
            fields[i].title@,
            fields[i].wide,
        )
    &&& forall|i: int|
        0 <= i < fields.len() ==> opt_text(#[trigger] c.pointers@[i])
            == o.spec_field_data_json_pointer(fields[i].title@)
    &&& c.pretty == o.spec_pretty_mode()
}

/// Two choices that agree on the first `n` fields and on the pretty flag.
pub open spec fn same_choices(c1: Columns, c2: Columns, n: int) -> bool {
    &&& forall|i: int| 0 <= i < n ==> #[trigger] shown(c1, i) == shown(c2, i)
    &&& forall|i: int| 0 <= i < n ==> #[trigger] pointer_at(c1, i) == pointer_at(c2, i)
    &&& c1.pretty == c2.pretty
}

/// Headers and cells depend on the choices only through what they decide for
/// each field.
pub proof fn lemma_same_choices(fields: Seq<FieldDescriptor>, values: Seq<FieldValue>, c1: Columns, c2: Columns)
    requires
        same_choices(c1, c2, fields.len() as int),
    ensures
        header_titles(fields, c1) == header_titles(fields, c2),
        row_cells(fields, values, c1) == row_cells(fields, values, c2),
    decreases fields.len(),
{
    if fields.len() > 0 {
        let n = fields.len() - 1;
        lemma_same_choices(fields.drop_last(), values, c1, c2);
        assert(shown(c1, n) == shown(c2, n));
        assert(pointer_at(c1, n) == pointer_at(c2, n));
    }
}

/// Choices taken from the same options for the same fields agree.
pub proof fn lemma_chosen_agree<O: StructTableOptions>(
    fields: Seq<FieldDescriptor>,
    o: O,
    c1: Columns,
    c2: Columns,
)
    requires
        chosen_by(c1, o, fields),
        chosen_by(c2, o, fields),
    ensures
        same_choices(c1, c2, fields.len() as int),
{
    assert forall|i: int| 0 <= i < fields.len() implies #[trigger] shown(c1, i) == shown(c2, i) by {
        assert(c1.shown@[i] == c2.shown@[i]);
    }
    assert forall|i: int| 0 <= i < fields.len() implies #[trigger] pointer_at(c1, i) == pointer_at(
        c2,
        i,
    ) by {
        assert(opt_text(c1.pointers@[i]) == opt_text(c2.pointers@[i]));
    }
}

/// Selecting fields gives as many headers as cells, for any values.
pub proof fn lemma_row_matches_headers(
    fields: Seq<FieldDescriptor>,
    values: Seq<FieldValue>,
    c: Columns,
)
    ensures
        header_titles(fields, c).len() == row_cells(fields, values, c).len(),
    decreases fields.len(),
{
    if fields.len() > 0 {
        lemma_row_matches_headers(fields.drop_last(), values, c);
    }
}

/// The cells of a prefix of the fields are a prefix of the cells.
pub proof fn lemma_row_prefix(
    fields: Seq<FieldDescriptor>,
    values: Seq<FieldValue>,
    c: Columns,
    m: int,
)
    requires
        0 <= m <= fields.len(),
    ensures
        row_cells(fields.take(m), values, c).len() <= row_cells(fields, values, c).len(),
        row_cells(fields, values, c).take(row_cells(fields.take(m), values, c).len() as int)
            == row_cells(fields.take(m), values, c),
    decreases fields.len(),
{
    let l = row_cells(fields.take(m), values, c).len() as int;
    if m == fields.len() {
        assert(fields.take(m) =~= fields);
        assert(row_cells(fields, values, c).take(l) =~= row_cells(fields, values, c));
    } else {
        let d = fields.drop_last();
        assert(d.take(m) =~= fields.take(m));
        lemma_row_prefix(d, values, c, m);
        assert(row_cells(fields, values, c).take(l) =~= row_cells(d, values, c).take(l));
    }
}

/// Removing a pair whose cell is absent leaves the attribute/value rows
/// unchanged.
pub proof fn lemma_absent_pair_dropped(h: Seq<Seq<char>>, c: Seq<Option<Seq<char>>>, k: int)
    requires
        h.len() == c.len(),
        0 <= k < c.len(),
        c[k] is None,
    ensures
        present_pairs(h, c) == present_pairs(h.remove(k), c.remove(k)),
    decreases c.len(),
{
    let n = c.len() - 1;
    if k == n {
        assert(h.remove(k) =~= h.take(n));
        assert(c.remove(k) =~= c.take(n));
    } else {
        lemma_absent_pair_dropped(h.take(n), c.take(n), k);
        let hr = h.remove(k);
        let cr = c.remove(k);
        assert(hr.take(n - 1) =~= h.take(n).remove(k));
        assert(cr.take(n - 1) =~= c.take(n).remove(k));
        assert(hr[n - 1] == h[n]);
        assert(cr[n - 1] == c[n]);
    }
}

/// A selected field whose value is absent gets no cell: the single-record
/// table drops its attribute/value row, and the list table shows a single
/// blank at its column.
pub proof fn lemma_absent_value(
    fields: Seq<FieldDescriptor>,
    values: Seq<FieldValue>,
    c: Columns,
    n: int,
)
    requires
        0 <= n < fields.len(),
        shown(c, n),
        value_at(values, n) is Absent,
    ensures
        ({
            let k = header_titles(fields.take(n), c).len() as int;
            let cells = row_cells(fields, values, c);
            let titles = header_titles(fields, c);
            &&& titles.len() == cells.len()
            &&& k < cells.len()
            &&& cells[k] is None
            &&& blank_filled(cells)[k] == seq![' ']
            &&& attribute_rows(fields, values, c) == present_pairs(titles.remove(k), cells.remove(k))
        }),
{
    let k = header_titles(fields.take(n), c).len() as int;
    let cells = row_cells(fields, values, c);
    lemma_row_matches_headers(fields.take(n), values, c);
    lemma_row_matches_headers(fields, values, c);
    lemma_row_prefix(fields, values, c, n + 1);
    let p = fields.take(n + 1);
    assert(p.drop_last() =~= fields.take(n));
    assert(p[n] == fields[n]);
    assert(field_cell(p, values, c, n) == field_cell(fields, values, c, n));
    assert(row_cells(p, values, c) == row_cells(fields.take(n), values, c).push(
        field_cell(fields, values, c, n),
    ));
    assert(cells[k] == row_cells(p, values, c)[k]);
    lemma_absent_pair_dropped(header_titles(fields, c), cells, k);
}

/// Asks the options, field by field, what to show and how.
pub fn columns<O: StructTableOptions>(fields: &Vec<FieldDescriptor>, options: &O) -> (r: Columns)
    ensures
        chosen_by(r, *options, fields@),
{
    let mut shown: Vec<bool> = Vec::new();
    let mut pointers: Vec<Option<String>> = Vec::new();
    let mut i: usize = 0;
    while i < fields.len()
        invariant
            i <= fields@.len(),
            shown@.len() == i,
            pointers@.len() == i,
            forall|k: int|
                0 <= k < i ==> #[trigger] shown@[k] == options.spec_should_return_field(
                    fields@[k].title@,
                    fields@[k].wide,
                ),
            forall|k: int|
                0 <= k < i ==> opt_text(#[trigger] pointers@[k])
                    == options.spec_field_data_json_pointer(fields@[k].title@),
        decreases fields@.len() - i,
    {
        let title = fields[i].title.as_str();
        shown.push(options.should_return_field(title, fields[i].wide));
        pointers.push(options.field_data_json_pointer(title));
        i = i + 1;
    }
    Columns { shown, pointers, pretty: options.pretty_mode() }
}

/// The titles of the shown fields.
pub fn class_headers(fields: &Vec<FieldDescriptor>, cols: &Columns) -> (r: Vec<String>)
    ensures
        texts(r@) == header_titles(fields@, *cols),
{
    let mut headers: Vec<String> = Vec::new();
    let mut i: usize = 0;
    while i < fields.len()
        invariant
            i <= fields@.len(),
            texts(headers@) == header_titles(fields@.take(i as int), *cols),
        decreases fields@.len() - i,
    {
        assert(fields@.take(i + 1).drop_last() =~= fields@.take(i as int));
        if i < cols.shown.len() && cols.shown[i] {
            let ghost before = headers@;
            headers.push(fields[i].title.clone());
            assert(texts(headers@) =~= texts(before).push(fields@[i as int].title@));
        }
        i = i + 1;
    }
    assert(fields@.take(fields@.len() as int) =~= fields@);
    headers
}

/// The cell of field `i`.
fn cell_at(fields: &Vec<FieldDescriptor>, values: &Vec<FieldValue>, cols: &Columns, i: usize) -> (r:
    Option<String>)
    requires
        i < fields@.len(),
    ensures
        opt_text(r) == field_cell(fields@, values@, *cols, i as int),
{
    if i < values.len() {
        if i < cols.pointers.len() {
            render_value(&values[i], &fields[i], &cols.pointers[i], cols.pretty)
        } else {
            render_value(&values[i], &fields[i], &None, cols.pretty)
        }
    } else {
        None
    }
}

/// The cells of the shown fields, in declaration order; `None` for an absent
/// value.
pub fn data(fields: &Vec<FieldDescriptor>, values: &Vec<FieldValue>, cols: &Columns) -> (r: Vec<
    Option<String>,
>)
    ensures
        cells_view(r@) == row_cells(fields@, values@, *cols),
{
    let mut row: Vec<Option<String>> = Vec::new();
    let mut i: usize = 0;
    while i < fields.len()
        invariant
            i <= fields@.len(),
            cells_view(row@) == row_cells(fields@.take(i as int), values@, *cols),
        decreases fields@.len() - i,
    {
        let ghost p = fields@.take(i + 1);
        assert(p.drop_last() =~= fields@.take(i as int));
        if i < cols.shown.len() && cols.shown[i] {
            let ghost before = row@;
            let c = cell_at(fields, values, cols, i);
            row.push(c);
            assert(field_cell(p, values@, *cols, i as int) == field_cell(fields@, values@, *cols, i as int));
            assert(cells_view(row@) =~= cells_view(before).push(opt_text(c)));
        }
        i = i + 1;
    }
    assert(fields@.take(fields@.len() as int) =~= fields@);
    row
}

/// The rows of the single-record table: one `[title, cell]` row per shown
/// field whose cell is present, in declaration order.
pub fn attribute_table(fields: &Vec<FieldDescriptor>, values: &Vec<FieldValue>, cols: &Columns) -> (r:
    Vec<Vec<String>>)
    ensures
        table_texts(r@) == attribute_rows(fields@, values@, *cols),
        forall|j: int| 0 <= j < r@.len() ==> (#[trigger] r@[j])@.len() == 2,
{
    let titles = class_headers(fields, cols);
    let cells = data(fields, values, cols);
    proof {
        lemma_row_matches_headers(fields@, values@, *cols);
    }
    let ghost h = texts(titles@);
    let ghost c = cells_view(cells@);
    let mut rows: Vec<Vec<String>> = Vec::new();
    let mut i: usize = 0;
    while i < titles.len()
        invariant
            i <= titles@.len(),
            titles@.len() == cells@.len(),
            h == texts(titles@),
            c == cells_view(cells@),
            table_texts(rows@) == present_pairs(h.take(i as int), c.take(i as int)),
            forall|j: int| 0 <= j < rows@.len() ==> (#[trigger] rows@[j])@.len() == 2,
        decreases titles@.len() - i,
    {
        assert(h.take(i + 1).take(i as int) =~= h.take(i as int));
        assert(c.take(i + 1).take(i as int) =~= c.take(i as int));
        match &cells[i] {
            Some(v) => {
                let ghost before = rows@;
                let mut pair: Vec<String> = Vec::new();
                pair.push(titles[i].clone());
                pair.push(v.clone());
                rows.push(pair);
                assert(texts(pair@) =~= seq![h[i as int], v@]);
                assert(table_texts(rows@) =~= table_texts(before).push(texts(pair@)));
            },
            None => {},
        }
        i = i + 1;
    }
    assert(h.take(titles@.len() as int) =~= h);
    assert(c.take(titles@.len() as int) =~= c);
    rows
}

/// One row of a list table: the cells of the shown fields, with a single
/// blank for an absent cell; exactly as long as the header row.
pub fn list_row(fields: &Vec<FieldDescriptor>, values: &Vec<FieldValue>, cols: &Columns) -> (r: Vec<
    String,
>)
    ensures
        texts(r@) == blank_filled(row_cells(fields@, values@, *cols)),
        r@.len() == header_titles(fields@, *cols).len(),
{
    let cells = data(fields, values, cols);
    proof {
        lemma_row_matches_headers(fields@, values@, *cols);
    }
    fill_blanks(&cells)
}

/// The record's descriptors: the type-level list first, and the record's own
/// list only where the type gives none.
pub fn fields_of<T: StructTable>(record: &T) -> (r: Option<Vec<FieldDescriptor>>)
    ensures
        opt_seq(r) == record_fields(*record),
{
    match T::class_fields() {
        Some(f) => Some(f),
        None => record.instance_fields(),
    }
}

/// Builds the table of a single record.
///
/// The header row is `["Attribute", "Value"]`. The rows are laid out by the
/// record's descriptors (the type-level list first, the record's own list
/// only where the type gives none): one `[title, cell]` row per shown field
/// whose cell is present, in declaration order (see `attribute_table`). A
/// record without descriptors gives no rows.
pub fn build_table<T: StructTable, O: StructTableOptions>(record: &T, options: &O) -> (r: (
    Vec<String>,
    Vec<Vec<String>>,
))
    ensures
        texts(r.0@) == seq!["Attribute"@, "Value"@],
        forall|j: int| 0 <= j < r.1@.len() ==> (#[trigger] r.1@[j])@.len() == 2,
        match record_fields(*record) {
            Some(fs) => forall|c: Columns|
                #[trigger] chosen_by(c, *options, fs) ==> table_texts(r.1@) == attribute_rows(
                    fs,
                    record.spec_values(),
                    c,
                ),
            None => r.1@.len() == 0,
        },
{
    let mut headers: Vec<String> = Vec::new();
    headers.push(String::from_str("Attribute"));
    headers.push(String::from_str("Value"));
    assert(texts(headers@) =~= seq!["Attribute"@, "Value"@]);
    match fields_of(record) {
        Some(fields) => {
            let values = record.values();
            let cols = columns(&fields, options);
            let rows = attribute_table(&fields, &values, &cols);
            assert forall|c: Columns| #[trigger] chosen_by(c, *options, fields@) implies table_texts(
                rows@,
            ) == attribute_rows(fields@, values@, c) by {
                lemma_chosen_agree(fields@, *options, cols, c);
                lemma_same_choices(fields@, values@, cols, c);
            }
            (headers, rows)
        },
        None => (headers, Vec::new()),
    }
}

/// The rows of a list table, one per record in the order of the records:
/// row `k` holds the cells of `values[k]`, each absent cell replaced by a
/// single blank, and is exactly as long as the header row.
pub fn list_rows(fields: &Vec<FieldDescriptor>, values: &Vec<Vec<FieldValue>>, cols: &Columns) -> (r:
    Vec<Vec<String>>)
    ensures
        r@.len() == values@.len(),
        forall|k: int|
            0 <= k < values@.len() ==> texts((#[trigger] r@[k])@) == blank_filled(
                row_cells(fields@, values@[k]@, *cols),
            ),
        forall|k: int|
            0 <= k < values@.len() ==> (#[trigger] r@[k])@.len() == header_titles(
                fields@,
                *cols,
            ).len(),
{
    let mut rows: Vec<Vec<String>> = Vec::new();
    let mut k: usize = 0;
    while k < values.len()
        invariant
            k <= values@.len(),
            rows@.len() == k,
            forall|m: int|
                0 <= m < k ==> texts((#[trigger] rows@[m])@) == blank_filled(
                    row_cells(fields@, values@[m]@, *cols),
                ),
            forall|m: int|
                0 <= m < k ==> (#[trigger] rows@[m])@.len() == header_titles(fields@, *cols).len(),
        decreases values@.len() - k,
    {
        rows.push(list_row(fields, &values[k], cols));
        k = k + 1;
    }
    rows
}

/// Builds the table of a list of records of one type.
///
/// The headers are the titles of the shown type-level fields and row `k`
/// holds the cells of record `k`, in the order of the records, with a single
/// blank for an absent cell (see `class_headers` and `list_rows`); every row
/// is exactly as long as the header row. A type with no type-level
/// descriptors gives an empty table.
pub fn build_list_table<T: StructTable, O: StructTableOptions>(records: &[T], options: &O) -> (r: (
    Vec<String>,
    Vec<Vec<String>>,
))
    ensures
        forall|j: int| 0 <= j < r.1@.len() ==> (#[trigger] r.1@[j])@.len() == r.0@.len(),
        match T::spec_class_fields() {
            Some(fs) => {
                &&& r.1@.len() == records@.len()
                &&& forall|c: Columns| #[trigger]
                    chosen_by(c, *options, fs) ==> {
                        &&& texts(r.0@) == header_titles(fs, c)
                        &&& forall|k: int|
                            0 <= k < records@.len() ==> texts((#[trigger] r.1@[k])@)
                                == blank_filled(row_cells(fs, records@[k].spec_values(), c))
                    }
            },
            None => r.0@.len() == 0 && r.1@.len() == 0,
        },
{
    match T::class_fields() {
        Some(fields) => {
            let cols = columns(&fields, options);
            let headers = class_headers(&fields, &cols);
            let mut values: Vec<Vec<FieldValue>> = Vec::new();
            let mut j: usize = 0;
            while j < records.len()
                invariant
                    j <= records@.len(),
                    values@.len() == j,
                    forall|k: int| 0 <= k < j ==> (#[trigger] values@[k])@ == records@[k].spec_values(),
                decreases records@.len() - j,
            {
                values.push(records[j].values());
                j = j + 1;
            }
            let rows = list_rows(&fields, &values, &cols);
            proof {
                lemma_row_matches_headers(fields@, Seq::empty(), cols);
            }
            assert forall|c: Columns| #[trigger] chosen_by(c, *options, fields@) implies {
                &&& texts(headers@) == header_titles(fields@, c)
                &&& forall|k: int|
                    0 <= k < records@.len() ==> texts((#[trigger] rows@[k])@) == blank_filled(
                        row_cells(fields@, records@[k].spec_values(), c),
                    )
            } by {
                lemma_chosen_agree(fields@, *options, cols, c);
                lemma_same_choices(fields@, Seq::empty(), cols, c);
                assert forall|k: int| 0 <= k < records@.len() implies texts((#[trigger] rows@[k])@)
                    == blank_filled(row_cells(fields@, records@[k].spec_values(), c)) by {
                    assert(values@[k]@ == records@[k].spec_values());
                    lemma_same_choices(fields@, records@[k].spec_values(), cols, c);
                }
            }
            (headers, rows)
        },
        None => (Vec::new(), Vec::new()),
    }
}

/// The cells with every absent one replaced by a single blank.
fn fill_blanks(cells: &Vec<Option<String>>) -> (r: Vec<String>)
    ensures
        texts(r@) == blank_filled(cells_view(cells@)),
        r@.len() == cells@.len(),
{
    let mut row: Vec<String> = Vec::new();
    let mut i: usize = 0;
    while i < cells.len()
        invariant
            i <= cells@.len(),
            texts(row@) == blank_filled(cells_view(cells@.take(i as int))),
            row@.len() == i,
        decreases cells@.len() - i,
    {
        let ghost before = row@;
        let s = match &cells[i] {
            Some(v) => v.clone(),
            None => {
                proof {
                    reveal_strlit(" ");
                }
                String::from_str(" ")
            },
        };
        assert(s@ == match opt_text(cells@[i as int]) {
            Some(t) => t,
            None => seq![' '],
        });
        row.push(s);
        assert(cells@.take(i + 1) =~= cells@.take(i as int).push(cells@[i as int]));
        assert(texts(row@) =~= texts(before).push(s@));
        assert(blank_filled(cells_view(cells@.take(i + 1))) =~= blank_filled(
            cells_view(cells@.take(i as int)),
        ).push(s@));
        i = i + 1;
    }
    assert(cells@.take(cells@.len() as int) =~= cells@);
    row
}

} // verus!
