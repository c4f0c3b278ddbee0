//! Display columns: one text per ranked item, shown one below the other.
//!
//! A column is rendered as its rows, each followed by a line break. The
//! rendering is put together in a `serenity` `MessageBuilder`.

use crate::json::{extract, path_of, ExtractError, Json, JsonValue, Step, StepValue};
use serenity::utils::MessageBuilder;
use vstd::prelude::*;

verus! {

/// `serenity::utils::MessageBuilder`, of which nothing is known here but
/// what [`built_text`] names.
#[verifier::external_type_specification]
#[verifier::external_body]
pub struct ExMessageBuilder(MessageBuilder);

/// The text that a `MessageBuilder` holds.
pub uninterp spec fn built_text(b: MessageBuilder) -> Seq<char>;

/// `MessageBuilder::new`: a builder that holds the empty text.
#[verifier::external_body]
fn new_builder() -> (b: MessageBuilder)
    ensures
        built_text(b) == Seq::<char>::empty(),
{
    MessageBuilder::new()
}

/// `MessageBuilder::push` with a string: the string is appended, as it is,
/// to the text that the builder holds.
#[verifier::external_body]
fn push_text(b: &mut MessageBuilder, text: &str)
    ensures
        built_text(*final(b)) == built_text(*old(b)) + text@,
{
    b.push(text);
}

/// `MessageBuilder::build`: a copy of the text that the builder holds. The
/// builder keeps its text.
#[verifier::external_body]
fn build_text(b: &mut MessageBuilder) -> (r: String)
    ensures
        r@ == built_text(*old(b)),
        built_text(*final(b)) == built_text(*old(b)),
{
    b.build()
}

/// The texts of a sequence of strings.
pub open spec fn texts(rows: Seq<String>) -> Seq<Seq<char>> {
    Seq::new(rows.len(), |i: int| rows[i]@)
}

/// The rows, each followed by a line break.
pub open spec fn lines(rows: Seq<Seq<char>>) -> Seq<char>
    decreases rows.len(),
{
    if rows.len() == 0 {
        Seq::empty()
    } else {
        lines(rows.drop_last()) + rows.last() + seq!['\n']
    }
}

/// A display column: its rows, from the top.
#[derive(Debug, PartialEq, Eq)]
pub struct Column {
    pub rows: Vec<String>,
}

impl View for Column {
    type V = Seq<Seq<char>>;

    open spec fn view(&self) -> Seq<Seq<char>> {
        texts(self.rows@)
    }
}

impl Column {
    /// A column without rows.
    pub fn new() -> (c: Column)
        ensures
            c@ == Seq::<Seq<char>>::empty(),
    {
        let c = Column { rows: Vec::new() };
        assert(c@ =~= Seq::<Seq<char>>::empty());
        c
    }

    /// Adds a row below the others.
    pub fn push(&mut self, row: String)
        ensures
            final(self)@ == old(self)@.push(row@),
    {
        self.rows.push(row);
        assert(final(self)@ =~= old(self)@.push(row@));
    }

    /// The number of rows.
    pub fn len(&self) -> (n: usize)
        ensures
            n == self@.len(),
    {
        self.rows.len()
    }

    /// The column as text: each row followed by a line break.
    pub fn rendered(&self) -> (r: String)
        ensures
            r@ == lines(self@),
    {
        let n = self.rows.len();
        assert(self@.take(n as int) == self@);
        render_rows(&self.rows, n)
    }
}

/// The first `n` of `values`, each followed by a line break.
///
/// Asking for more rows than there are values is a `FieldMissing`: the text
/// is never cut short.
pub fn format_column(values: &Vec<String>, n: usize) -> (r: Result<String, ExtractError>)
    ensures
        n <= values.len() ==> r is Ok && r->Ok_0@ == lines(texts(values@).take(n as int)),
        n > values.len() ==> r == Err::<String, ExtractError>(ExtractError::FieldMissing),
{
    if n > values.len() {
        return Err(ExtractError::FieldMissing);
    }
    Ok(render_rows(values, n))
}

fn render_rows(values: &Vec<String>, n: usize) -> (r: String)
    requires
        n <= values.len(),
    ensures
        r@ == lines(texts(values@).take(n as int)),
{
    let ghost rows = texts(values@);
    let mut b = new_builder();
    let mut i: usize = 0;
    while i < n
        invariant
            i <= n <= values.len(),
            rows == texts(values@),
            built_text(b) == lines(rows.take(i as int)),
        decreases n - i,
    {
        proof {
            let next = rows.take(i + 1);
            assert(next.drop_last() == rows.take(i as int));
            assert(next.last() == values@[i as int]@);
        }
        push_text(&mut b, values[i].as_str());
        push_text(&mut b, "\n");
        proof {
            reveal_strlit("\n");
            assert("\n"@ == seq!['\n']);
        }
        i += 1;
    }
    build_text(&mut b)
}

/// The path to a field of the row `i` of a list: the path to the list, the
/// index of the row, then the path from the row to the field.
pub open spec fn row_path(base: Seq<StepValue>, i: nat, field: Seq<StepValue>) -> Seq<StepValue> {
    base.push(StepValue::Index(i)) + field
}

/// The column that the first `n` rows of a list give: for each row the scalar
/// text under `field`. The error of the first row that has none.
pub open spec fn column_of(
    doc: JsonValue,
    base: Seq<StepValue>,
    field: Seq<StepValue>,
    n: nat,
) -> Result<Seq<Seq<char>>, ExtractError>
    decreases n,
{
    if n == 0 {
        Ok(Seq::empty())
    } else {
        match column_of(doc, base, field, (n - 1) as nat) {
            Ok(rows) => match doc.extracted(row_path(base, (n - 1) as nat, field)) {
                Ok(t) => Ok(rows.push(t)),
                Err(e) => Err(e),
            },
            Err(e) => Err(e),
        }
    }
}

/// A column of `n` rows has `n` rows.
pub proof fn lemma_column_of_len(
    doc: JsonValue,
    base: Seq<StepValue>,
    field: Seq<StepValue>,
    n: nat,
)
    ensures
        column_of(doc, base, field, n) matches Ok(rows) ==> rows.len() == n,
    decreases n,
{
    if n > 0 {
        lemma_column_of_len(doc, base, field, (n - 1) as nat);
    }
}

/// Whether a column, as a function returns it, is the given mathematical
/// result.
pub open spec fn column_result_is(
    r: Result<Column, ExtractError>,
    expected: Result<Seq<Seq<char>>, ExtractError>,
) -> bool {
    match r {
        Ok(c) => expected == Ok::<Seq<Seq<char>>, ExtractError>(c@),
        Err(e) => expected == Err::<Seq<Seq<char>>, ExtractError>(e),
    }
}

/// The steps to a field of the row `i` of a list.
pub fn row_steps(base: &Vec<Step>, i: usize, field: &Vec<Step>) -> (p: Vec<Step>)
    ensures
        path_of(p@) == row_path(path_of(base@), i as nat, path_of(field@)),
{
    let mut p: Vec<Step> = Vec::new();
    let mut k: usize = 0;
    while k < base.len()
        invariant
            k <= base.len(),
            p@.len() == k,
            path_of(p@) == path_of(base@).take(k as int),
        decreases base.len() - k,
    {
        let ghost before = p@;
        p.push(base[k].copied());
        assert forall|j: int| 0 <= j < p@.len() implies path_of(p@)[j] == path_of(base@).take(
            k + 1,
        )[j] by {
            if j < k {
                assert(path_of(before)[j] == path_of(base@).take(k as int)[j]);
            }
        }
        assert(path_of(p@) =~= path_of(base@).take(k + 1));
        k += 1;
    }
    assert(path_of(base@).take(base.len() as int) == path_of(base@));
    p.push(Step::Index(i));
    let ghost head = path_of(base@).push(StepValue::Index(i as nat));
    assert(path_of(p@) =~= head);
    let mut k: usize = 0;
    while k < field.len()
        invariant
            k <= field.len(),
            p@.len() == head.len() + k,
            head.len() == base.len() + 1,
            path_of(p@) == head + path_of(field@).take(k as int),
        decreases field.len() - k,
    {
        let ghost before = p@;
        p.push(field[k].copied());
        assert forall|j: int| 0 <= j < p@.len() implies path_of(p@)[j] == (head + path_of(
            field@,
        ).take(k + 1))[j] by {
            if j < before.len() {
                assert(path_of(before)[j] == (head + path_of(field@).take(k as int))[j]);
            }
        }
        assert(path_of(p@) =~= head + path_of(field@).take(k + 1));
        k += 1;
    }
    assert(path_of(field@).take(field.len() as int) == path_of(field@));
    p
}

/// Extracts a column from a document: for each of the first `n` rows of the
/// list at `base`, the scalar text under `field`.
///
/// A row that the list does not hold, or that lacks the field, is a
/// `FieldMissing`; the column is never cut short.
pub fn column_at(doc: &Json, base: &Vec<Step>, field: &Vec<Step>, n: usize) -> (r: Result<
    Column,
    ExtractError,
>)
    ensures
        column_result_is(r, column_of(doc@, path_of(base@), path_of(field@), n as nat)),
{
    let mut column = Column::new();
    let mut i: usize = 0;
    while i < n
        invariant
            i <= n,
            column_of(doc@, path_of(base@), path_of(field@), i as nat) == Ok::<
                Seq<Seq<char>>,
                ExtractError,
            >(column@),
        decreases n - i,
    {
        let path = row_steps(base, i, field);
        match extract(doc, &path) {
            Ok(t) => {
                column.push(t);
            },
            Err(e) => {
                proof {
                    lemma_column_of_error(doc@, path_of(base@), path_of(field@), (i + 1) as nat, n as nat);
                }
                return Err(e);
            },
        }
        i += 1;
    }
    Ok(column)
}

/// An error among the first `m` rows is the error of any longer column.
pub proof fn lemma_column_of_error(
    doc: JsonValue,
    base: Seq<StepValue>,
    field: Seq<StepValue>,
    m: nat,
    n: nat,
)
    requires
        m <= n,
        column_of(doc, base, field, m) is Err,
    ensures
        column_of(doc, base, field, n) == column_of(doc, base, field, m),
    decreases n,
{
    if m < n {
        lemma_column_of_error(doc, base, field, m, (n - 1) as nat);
    }
}

// ---------------------------------------------------------------------------
// Laws of the rendering
// ---------------------------------------------------------------------------

/// The number of line breaks in a text.
pub open spec fn breaks(s: Seq<char>) -> nat
    decreases s.len(),
{
    if s.len() == 0 {
        0
    } else {
        breaks(s.drop_last()) + if s.last() == '\n' {
            1nat
        } else {
            0nat
        }
    }
}

/// The number of line breaks inside the rows themselves.
pub open spec fn inner_breaks(rows: Seq<Seq<char>>) -> nat
    decreases rows.len(),
{
    if rows.len() == 0 {
        0
    } else {
        inner_breaks(rows.drop_last()) + breaks(rows.last())
    }
}

/// The line breaks of two texts, one after the other, add up.
pub proof fn lemma_breaks_concat(a: Seq<char>, b: Seq<char>)
    ensures
        breaks(a + b) == breaks(a) + breaks(b),
    decreases b.len(),
{
    if b.len() == 0 {
        assert(a + b == a);
    } else {
        lemma_breaks_concat(a, b.drop_last());
        assert((a + b).drop_last() == a + b.drop_last());
    }
}

/// The rendering of two runs of rows, one after the other, is the two
/// renderings, one after the other.
pub proof fn lemma_lines_concat(a: Seq<Seq<char>>, b: Seq<Seq<char>>)
    ensures
        lines(a + b) == lines(a) + lines(b),
    decreases b.len(),
{
    if b.len() == 0 {
        assert(a + b == a);
        assert(lines(a) + lines(b) == lines(a));
    } else {
        lemma_lines_concat(a, b.drop_last());
        assert((a + b).drop_last() == a + b.drop_last());
        assert(lines(a + b) == lines(a) + lines(b));
    }
}

/// A rendered column has one line break for each row, beside those that the
/// rows hold themselves: of rows without line breaks, `n` rows give exactly
/// `n` lines.
pub proof fn law_one_line_per_row(rows: Seq<Seq<char>>)
    ensures
        breaks(lines(rows)) == rows.len() + inner_breaks(rows),
    decreases rows.len(),
{
    if rows.len() > 0 {
        law_one_line_per_row(rows.drop_last());
        lemma_breaks_concat(lines(rows.drop_last()) + rows.last(), seq!['\n']);
        lemma_breaks_concat(lines(rows.drop_last()), rows.last());
        assert(seq!['\n'].drop_last() == Seq::<char>::empty());
        assert(breaks(Seq::<char>::empty()) == 0);
        assert(seq!['\n'].last() == '\n');
        assert(breaks(seq!['\n']) == 1);
    }
}

/// In a rendered column the row `i` stands after the rendering of the rows
/// before it, as it is, and a line break follows it.
pub proof fn law_row_in_place(rows: Seq<Seq<char>>, i: int)
    requires
        0 <= i < rows.len(),
    ensures
        ({
            let start = lines(rows.take(i)).len() as int;
            let end = start + rows[i].len();
            &&& end < lines(rows).len()
            &&& lines(rows).subrange(start, end) == rows[i]
            &&& lines(rows)[end] == '\n'
        }),
{
    let head = rows.take(i);
    let tail = rows.skip(i + 1);
    let one = seq![rows[i]];
    assert(rows == head + one + tail);
    lemma_lines_concat(head + one, tail);
    lemma_lines_concat(head, one);
    assert(one.drop_last() == Seq::<Seq<char>>::empty());
    assert(lines(Seq::<Seq<char>>::empty()) == Seq::<char>::empty());
    assert(one.last() == rows[i]);
    assert(lines(one) == Seq::<char>::empty() + rows[i] + seq!['\n']);
    let start = lines(head).len() as int;
    let end = start + rows[i].len();
    assert(lines(rows) == lines(head) + lines(one) + lines(tail));
    assert(lines(rows).subrange(start, end) =~= rows[i]);
}

/// What [`format_column`] makes of `n` rows out of `values` that hold no
/// line breaks themselves has exactly `n` line breaks, and its entry `i` is
/// the value `i`, as it is, with a line break after it.
pub proof fn law_formatted_rows(values: Seq<Seq<char>>, n: nat, i: int)
    requires
        n <= values.len(),
        0 <= i < n,
        inner_breaks(values.take(n as int)) == 0,
    ensures
        breaks(lines(values.take(n as int))) == n,
        ({
            let text = lines(values.take(n as int));
            let start = lines(values.take(i)).len() as int;
            let end = start + values[i].len();
            &&& end < text.len()
            &&& text.subrange(start, end) == values[i]
            &&& text[end] == '\n'
        }),
{
    let rows = values.take(n as int);
    law_one_line_per_row(rows);
    law_row_in_place(rows, i);
    assert(rows.take(i) == values.take(i));
}

/// Extracting a column and rendering it gives the same text every time:
/// two results that both meet the contracts of [`column_at`] and
/// [`Column::rendered`] for the same document, path and number of rows
/// agree, character by character.
pub proof fn law_same_input_same_output(
    doc: JsonValue,
    base: Seq<StepValue>,
    field: Seq<StepValue>,
    n: nat,
    first: Result<Column, ExtractError>,
    second: Result<Column, ExtractError>,
)
    requires
        column_result_is(first, column_of(doc, base, field, n)),
        column_result_is(second, column_of(doc, base, field, n)),
    ensures
        first is Ok <==> second is Ok,
        first is Err ==> first->Err_0 == second->Err_0,
        first is Ok ==> first->Ok_0@ == second->Ok_0@ && lines(first->Ok_0@) == lines(
            second->Ok_0@,
        ),
{
}

} // verus!
