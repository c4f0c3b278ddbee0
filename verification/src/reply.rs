//! Replies: a plain text, or a rich message with a title, a colour, pictures,
//! named fields and a footer.
//!
//! A field is a note or a display column. In one rich message all columns
//! have the same number of rows: no [`ReplyEmbed`] exists in which they
//! differ.

use crate::column::Column;
use crate::text::opt_text;
use vstd::pervasive::unreached;
use vstd::prelude::*;

verus! {

/// The colour of the bar at the left of a rich message.
#[derive(Clone, Copy, Debug, PartialEq, Eq, Structural)]
pub enum Colour {
    DarkRed,
    DarkPurple,
}

/// What a field shows, as a mathematical value.
pub enum FieldBodyValue {
    Note(Seq<char>),
    Column(Seq<Seq<char>>),
}

/// A named field, as a mathematical value.
pub struct FieldValue {
    pub name: Seq<char>,
    pub body: FieldBodyValue,
    pub inline: bool,
}

/// A rich message, as a mathematical value.
pub struct EmbedValue {
    pub title: Seq<char>,
    pub colour: Colour,
    pub thumbnail: Option<Seq<char>>,
    pub image: Option<Seq<char>>,
    pub description: Option<Seq<char>>,
    pub fields: Seq<FieldValue>,
    pub footer: Option<Seq<char>>,
}

/// A reply, as a mathematical value.
pub enum ReplyValue {
    Text(Seq<char>),
    Embed(EmbedValue),
}

/// What a field shows: a short text, or a display column.
#[derive(Debug, PartialEq, Eq)]
pub enum FieldBody {
    Note(String),
    Column(Column),
}

impl View for FieldBody {
    type V = FieldBodyValue;

    open spec fn view(&self) -> FieldBodyValue {
        match self {
            FieldBody::Note(t) => FieldBodyValue::Note(t@),
            FieldBody::Column(c) => FieldBodyValue::Column(c@),
        }
    }
}

/// A named field of a rich message.
#[derive(Debug, PartialEq, Eq)]
pub struct Field {
    pub name: String,
    pub body: FieldBody,
    pub inline: bool,
}

impl View for Field {
    type V = FieldValue;

    open spec fn view(&self) -> FieldValue {
        FieldValue { name: self.name@, body: self.body@, inline: self.inline }
    }
}

/// The values of a sequence of fields.
pub open spec fn field_values(fields: Seq<Field>) -> Seq<FieldValue> {
    Seq::new(fields.len(), |i: int| fields[i]@)
}

/// The number of rows of the first column among the fields, and `None`
/// where no field is a column.
pub open spec fn row_count(fields: Seq<FieldValue>) -> Option<nat>
    decreases fields.len(),
{
    if fields.len() == 0 {
        None
    } else {
        match fields.last().body {
            FieldBodyValue::Column(rows) => match row_count(fields.drop_last()) {
                Some(n) => Some(n),
                None => Some(rows.len()),
            },
            FieldBodyValue::Note(_) => row_count(fields.drop_last()),
        }
    }
}

/// Whether all columns among the fields have the same number of rows.
pub open spec fn columns_even(fields: Seq<FieldValue>) -> bool {
    forall|i: int, j: int|
        0 <= i < fields.len() && 0 <= j < fields.len() ==> match (
            (#[trigger] fields[i]).body,
            (#[trigger] fields[j]).body,
        ) {
            (FieldBodyValue::Column(a), FieldBodyValue::Column(b)) => a.len() == b.len(),
            _ => true,
        }
}

/// Whether every column among the fields has `n` rows.
pub open spec fn columns_have(fields: Seq<FieldValue>, n: nat) -> bool {
    forall|i: int|
        0 <= i < fields.len() ==> match (#[trigger] fields[i]).body {
            FieldBodyValue::Column(rows) => rows.len() == n,
            FieldBodyValue::Note(_) => true,
        }
}

impl EmbedValue {
    /// A rich message with a title and a colour and nothing else.
    pub open spec fn titled(title: Seq<char>, colour: Colour) -> EmbedValue {
        EmbedValue {
            title,
            colour,
            thumbnail: None,
            image: None,
            description: None,
            fields: Seq::empty(),
            footer: None,
        }
    }

    /// This message with one more field, after the others.
    pub open spec fn with_field(self, field: FieldValue) -> EmbedValue {
        EmbedValue { fields: self.fields.push(field), ..self }
    }

    /// Whether a column of `n` rows fits: no column is there yet, or the
    /// columns that are there have `n` rows.
    pub open spec fn admits(self, n: nat) -> bool {
        match row_count(self.fields) {
            Some(m) => m == n,
            None => true,
        }
    }
}

/// A field that shows a column beside its neighbours.
pub open spec fn column_field(name: Seq<char>, rows: Seq<Seq<char>>) -> FieldValue {
    FieldValue { name, body: FieldBodyValue::Column(rows), inline: true }
}

/// Why a rich message could not be put together.
#[derive(Clone, Copy, Debug, PartialEq, Eq, Structural)]
pub enum ReplyError {
    /// A column has another number of rows than the columns before it.
    UnevenColumns,
}

/// A rich message.
#[derive(Debug, PartialEq, Eq)]
pub struct ReplyEmbed {
    title: String,
    colour: Colour,
    thumbnail: Option<String>,
    image: Option<String>,
    description: Option<String>,
    fields: Vec<Field>,
    footer: Option<String>,
    rows: Option<usize>,
}

impl View for ReplyEmbed {
    type V = EmbedValue;

    closed spec fn view(&self) -> EmbedValue {
        EmbedValue {
            title: self.title@,
            colour: self.colour,
            thumbnail: opt_text(self.thumbnail),
            image: opt_text(self.image),
            description: opt_text(self.description),
            fields: field_values(self.fields@),
            footer: opt_text(self.footer),
        }
    }
}

/// With one more field the first column keeps its number of rows; if there
/// was no column and the field is one, its number of rows is the new one.
pub proof fn lemma_row_count_push(fields: Seq<FieldValue>, field: FieldValue)
    ensures
        row_count(fields.push(field)) == match row_count(fields) {
            Some(n) => Some(n),
            None => match field.body {
                FieldBodyValue::Column(rows) => Some(rows.len()),
                FieldBodyValue::Note(_) => None,
            },
        },
{
    assert(fields.push(field).drop_last() == fields);
}

/// Where no first column is found, no field is a column.
proof fn lemma_no_column(fields: Seq<FieldValue>)
    requires
        row_count(fields) is None,
    ensures
        forall|i: int| 0 <= i < fields.len() ==> (#[trigger] fields[i]).body is Note,
    decreases fields.len(),
{
    if fields.len() > 0 {
        lemma_no_column(fields.drop_last());
        assert forall|i: int| 0 <= i < fields.len() implies (#[trigger] fields[i]).body is Note by {
            if i < fields.len() - 1 {
                assert(fields[i] == fields.drop_last()[i]);
            }
        }
    }
}

impl ReplyEmbed {
    #[verifier::type_invariant]
    spec fn well_formed(self) -> bool {
        &&& match self.rows {
            Some(n) => row_count(field_values(self.fields@)) == Some(n as nat),
            None => row_count(field_values(self.fields@)) is None,
        }
        &&& match self.rows {
            Some(n) => columns_have(field_values(self.fields@), n as nat),
            None => true,
        }
    }

    /// A rich message with a title and a colour and nothing else.
    pub fn new(title: String, colour: Colour) -> (e: ReplyEmbed)
        ensures
            e@ == EmbedValue::titled(title@, colour),
    {
        let e = ReplyEmbed {
            title,
            colour,
            thumbnail: None,
            image: None,
            description: None,
            fields: Vec::new(),
            footer: None,
            rows: None,
        };
        assert(field_values(e.fields@) =~= Seq::<FieldValue>::empty());
        e
    }

    /// Sets the small picture.
    pub fn thumbnail(self, url: String) -> (e: ReplyEmbed)
        ensures
            e@ == (EmbedValue { thumbnail: Some(url@), ..self@ }),
    {
        proof {
            use_type_invariant(&self);
        }
        ReplyEmbed {
            title: self.title,
            colour: self.colour,
            thumbnail: Some(url),
            image: self.image,
            description: self.description,
            fields: self.fields,
            footer: self.footer,
            rows: self.rows,
        }
    }

    /// Sets the large picture.
    pub fn image(self, url: String) -> (e: ReplyEmbed)
        ensures
            e@ == (EmbedValue { image: Some(url@), ..self@ }),
    {
        proof {
            use_type_invariant(&self);
        }
        ReplyEmbed {
            title: self.title,
            colour: self.colour,
            thumbnail: self.thumbnail,
            image: Some(url),
            description: self.description,
            fields: self.fields,
            footer: self.footer,
            rows: self.rows,
        }
    }

    /// Sets the text below the title.
    pub fn description(self, text: String) -> (e: ReplyEmbed)
        ensures
            e@ == (EmbedValue { description: Some(text@), ..self@ }),
    {
        proof {
            use_type_invariant(&self);
        }
        ReplyEmbed {
            title: self.title,
            colour: self.colour,
            thumbnail: self.thumbnail,
            image: self.image,
            description: Some(text),
            fields: self.fields,
            footer: self.footer,
            rows: self.rows,
        }
    }

    /// Sets the text at the bottom.
    pub fn footer(self, text: String) -> (e: ReplyEmbed)
        ensures
            e@ == (EmbedValue { footer: Some(text@), ..self@ }),
    {
        proof {
            use_type_invariant(&self);
        }
        ReplyEmbed {
            title: self.title,
            colour: self.colour,
            thumbnail: self.thumbnail,
            image: self.image,
            description: self.description,
            fields: self.fields,
            footer: Some(text),
            rows: self.rows,
        }
    }

    /// Adds a field that shows a short text.
    pub fn note(self, name: String, text: String, inline: bool) -> (e: ReplyEmbed)
        ensures
            e@ == self@.with_field(
                FieldValue { name: name@, body: FieldBodyValue::Note(text@), inline },
            ),
    {
        proof {
            use_type_invariant(&self);
        }
        let ghost before = field_values(self.fields@);
        let ghost added = FieldValue { name: name@, body: FieldBodyValue::Note(text@), inline };
        let mut fields = self.fields;
        fields.push(Field { name, body: FieldBody::Note(text), inline });
        proof {
            assert(field_values(fields@) =~= before.push(added));
            lemma_row_count_push(before, added);
        }
        ReplyEmbed {
            title: self.title,
            colour: self.colour,
            thumbnail: self.thumbnail,
            image: self.image,
            description: self.description,
            fields,
            footer: self.footer,
            rows: self.rows,
        }
    }

    /// Adds a field that shows a column.
    ///
    /// The column is refused where the message already has a column with
    /// another number of rows.
    pub fn column(self, name: String, column: Column, inline: bool) -> (r: Result<
        ReplyEmbed,
        ReplyError,
    >)
        ensures
            self@.admits(column@.len()) ==> r is Ok && r->Ok_0@ == self@.with_field(
                FieldValue { name: name@, body: FieldBodyValue::Column(column@), inline },
            ) && row_count(r->Ok_0@.fields) == Some(column@.len()),
            !self@.admits(column@.len()) ==> r == Err::<ReplyEmbed, ReplyError>(
                ReplyError::UnevenColumns,
            ),
    {
        proof {
            use_type_invariant(&self);
        }
        let n = column.len();
        let fits = match self.rows {
            Some(m) => m == n,
            None => true,
        };
        if !fits {
            return Err(ReplyError::UnevenColumns);
        }
        let ghost before = field_values(self.fields@);
        let ghost added = FieldValue { name: name@, body: FieldBodyValue::Column(column@), inline };
        let mut fields = self.fields;
        fields.push(Field { name, body: FieldBody::Column(column), inline });
        proof {
            assert(field_values(fields@) =~= before.push(added));
            lemma_row_count_push(before, added);
            if self.rows is None {
                lemma_no_column(before);
            }
        }
        Ok(
            ReplyEmbed {
                title: self.title,
                colour: self.colour,
                thumbnail: self.thumbnail,
                image: self.image,
                description: self.description,
                fields,
                footer: self.footer,
                rows: Some(n),
            },
        )
    }

    /// Adds a column that is known to fit, beside its neighbours.
    pub(crate) fn inline_column(self, name: &str, column: Column) -> (e: ReplyEmbed)
        requires
            self@.admits(column@.len()),
        ensures
            e@ == self@.with_field(column_field(name@, column@)),
            row_count(e@.fields) == Some(column@.len()),
    {
        match self.column(name.to_owned(), column, true) {
            Ok(e) => e,
            Err(_) => unreached(),
        }
    }

    /// The number of rows that every column of this message has, and `None`
    /// where it has no column.
    pub fn rows(&self) -> (r: Option<usize>)
        ensures
            columns_even(self@.fields),
            match r {
                Some(n) => row_count(self@.fields) == Some(n as nat) && columns_have(
                    self@.fields,
                    n as nat,
                ),
                None => row_count(self@.fields) is None,
            },
    {
        proof {
            use_type_invariant(self);
            if self.rows is None {
                lemma_no_column(self@.fields);
            }
        }
        self.rows
    }

    pub fn title(&self) -> (r: &String)
        ensures
            r@ == self@.title,
    {
        &self.title
    }

    pub fn colour(&self) -> (r: Colour)
        ensures
            r == self@.colour,
    {
        self.colour
    }

    pub fn thumbnail_url(&self) -> (r: &Option<String>)
        ensures
            opt_text(*r) == self@.thumbnail,
    {
        &self.thumbnail
    }

    pub fn image_url(&self) -> (r: &Option<String>)
        ensures
            opt_text(*r) == self@.image,
    {
        &self.image
    }

    pub fn description_text(&self) -> (r: &Option<String>)
        ensures
            opt_text(*r) == self@.description,
    {
        &self.description
    }

    pub fn footer_text(&self) -> (r: &Option<String>)
        ensures
            opt_text(*r) == self@.footer,
    {
        &self.footer
    }

    pub fn fields(&self) -> (r: &Vec<Field>)
        ensures
            field_values(r@) == self@.fields,
    {
        &self.fields
    }
}

/// What is sent back for a command.
#[derive(Debug, PartialEq, Eq)]
pub enum Reply {
    Text(String),
    Embed(ReplyEmbed),
}

impl View for Reply {
    type V = ReplyValue;

    open spec fn view(&self) -> ReplyValue {
        match self {
            Reply::Text(t) => ReplyValue::Text(t@),
            Reply::Embed(e) => ReplyValue::Embed(e@),
        }
    }
}

/// A column with its label, as it is handed to [`build`].
#[derive(Debug, PartialEq, Eq)]
pub struct NamedColumn {
    pub label: String,
    pub column: Column,
    pub inline: bool,
}

impl View for NamedColumn {
    type V = FieldValue;

    open spec fn view(&self) -> FieldValue {
        FieldValue { name: self.label@, body: FieldBodyValue::Column(self.column@), inline: self.inline }
    }
}

/// The fields that a sequence of labelled columns makes.
pub open spec fn named_values(columns: Seq<NamedColumn>) -> Seq<FieldValue> {
    Seq::new(columns.len(), |i: int| columns[i]@)
}

/// The rich message that [`build`] puts together.
pub open spec fn built(
    title: Seq<char>,
    colour: Colour,
    thumbnail: Option<Seq<char>>,
    fields: Seq<FieldValue>,
    footer: Option<Seq<char>>,
) -> EmbedValue {
    EmbedValue { title, colour, thumbnail, image: None, description: None, fields, footer }
}

/// Puts a rich message together from its title, its colour, its small
/// picture, its columns in order, and its footer.
///
/// Columns that differ in their number of rows are refused.
pub fn build(
    title: String,
    colour: Colour,
    thumbnail: Option<String>,
    columns: Vec<NamedColumn>,
    footer: Option<String>,
) -> (r: Result<ReplyEmbed, ReplyError>)
    ensures
        columns_even(named_values(columns@)) ==> r is Ok && r->Ok_0@ == built(
            title@,
            colour,
            opt_text(thumbnail),
            named_values(columns@),
            opt_text(footer),
        ),
        !columns_even(named_values(columns@)) ==> r == Err::<ReplyEmbed, ReplyError>(
            ReplyError::UnevenColumns,
        ),
{
    let ghost all = named_values(columns@);
    let mut e = ReplyEmbed::new(title, colour);
    match thumbnail {
        Some(url) => {
            e = e.thumbnail(url);
        },
        None => {},
    }
    match footer {
        Some(text) => {
            e = e.footer(text);
        },
        None => {},
    }
    assert(e@ == built(title@, colour, opt_text(thumbnail), Seq::empty(), opt_text(footer)));
    assert(all.take(0) == Seq::<FieldValue>::empty());
    for c in it: columns.into_iter()
        invariant
            it.seq() == columns@,
            all == named_values(columns@),
            e@ == built(
                title@,
                colour,
                opt_text(thumbnail),
                all.take(it.index() as int),
                opt_text(footer),
            ),
            it.index() > 0 ==> row_count(e@.fields) == Some(all[0].body->Column_0.len()),
            it.index() == 0 ==> row_count(e@.fields) is None,
            forall|j: int|
                0 <= j < it.index() ==> (#[trigger] all[j]).body->Column_0.len()
                    == all[0].body->Column_0.len(),
    {
        let ghost i = it.index() as int;
        let ghost before = e@;
        assert(all[i] == c@);
        assert(all[i].body->Column_0 == c.column@);
        let fits = e.column(c.label, c.column, c.inline);
        match fits {
            Ok(next) => {
                assert(before.fields.push(all[i]) =~= all.take(i + 1));
                e = next;
            },
            Err(error) => {
                assert(!columns_even(all)) by {
                    assert(all[i].body is Column && all[0].body is Column);
                }
                return Err(error);
            },
        }
    }
    assert(all.take(columns@.len() as int) == all);
    assert(columns_even(all));
    Ok(e)
}

// ---------------------------------------------------------------------------
// Laws of the columns of a rich message
// ---------------------------------------------------------------------------

/// Where a first column is found, some field is a column with that number
/// of rows.
proof fn lemma_first_column(fields: Seq<FieldValue>) -> (i: int)
    requires
        row_count(fields) is Some,
    ensures
        0 <= i < fields.len(),
        fields[i].body is Column,
        fields[i].body->Column_0.len() == row_count(fields)->0,
    decreases fields.len(),
{
    if row_count(fields.drop_last()) is Some {
        let i = lemma_first_column(fields.drop_last());
        assert(fields[i] == fields.drop_last()[i]);
        i
    } else {
        fields.len() - 1
    }
}

/// Columns that all have `n` rows have the same number of rows.
pub proof fn law_same_rows_are_even(fields: Seq<FieldValue>, n: nat)
    requires
        columns_have(fields, n),
    ensures
        columns_even(fields),
{
}

/// A rich message whose columns are even stays so with one more column if
/// and only if that column is admitted: no column is there yet, or the new
/// one has as many rows as the columns that are there.
pub proof fn law_columns_stay_even(e: EmbedValue, name: Seq<char>, rows: Seq<Seq<char>>, inline: bool)
    requires
        columns_even(e.fields),
    ensures
        columns_even(
            e.with_field(FieldValue { name, body: FieldBodyValue::Column(rows), inline }).fields,
        ) <==> e.admits(rows.len()),
{
    let field = FieldValue { name, body: FieldBodyValue::Column(rows), inline };
    let added = e.fields.push(field);
    let last = e.fields.len() as int;
    assert(added[last] == field);
    if row_count(e.fields) is Some {
        let first = lemma_first_column(e.fields);
        assert(added[first] == e.fields[first]);
        if e.admits(rows.len()) {
            assert forall|i: int, j: int| 0 <= i < added.len() && 0 <= j < added.len() implies match (
                (#[trigger] added[i]).body,
                (#[trigger] added[j]).body,
            ) {
                (FieldBodyValue::Column(a), FieldBodyValue::Column(b)) => a.len() == b.len(),
                _ => true,
            } by {
                if i < last {
                    assert(added[i] == e.fields[i]);
                    assert(e.fields[i].body is Column ==> e.fields[i].body->Column_0.len()
                        == e.fields[first].body->Column_0.len());
                }
                if j < last {
                    assert(added[j] == e.fields[j]);
                    assert(e.fields[j].body is Column ==> e.fields[j].body->Column_0.len()
                        == e.fields[first].body->Column_0.len());
                }
            }
        }
        if columns_even(added) {
            assert(added[first].body is Column && added[last].body is Column);
        }
    } else {
        lemma_no_column(e.fields);
        assert forall|i: int, j: int| 0 <= i < added.len() && 0 <= j < added.len() implies match (
            (#[trigger] added[i]).body,
            (#[trigger] added[j]).body,
        ) {
            (FieldBodyValue::Column(a), FieldBodyValue::Column(b)) => a.len() == b.len(),
            _ => true,
        } by {
            if i < last {
                assert(added[i] == e.fields[i]);
            }
            if j < last {
                assert(added[j] == e.fields[j]);
            }
        }
    }
}

} // verus!
