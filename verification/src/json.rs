//! JSON documents and the extraction of scalar fields by path.
//!
//! A document is a [`Json`] tree. Its view is a [`JsonValue`], and all
//! contracts speak of that view. A path is a sequence of [`Step`]s, each a
//! key of an object or an index into an array. [`extract`] follows a path
//! and hands back the text of the scalar it finds there.

use vstd::prelude::*;

verus! {

/// A JSON document as the mathematical value that contracts speak of.
///
/// A number is held as the text that writes it. The members of an object
/// are held in order, each with its key.
pub enum JsonValue {
    Null,
    Bool(bool),
    Number(Seq<char>),
    Str(Seq<char>),
    Array(Seq<JsonValue>),
    Object(Seq<(Seq<char>, JsonValue)>),
}

/// A JSON document held in memory.
#[derive(Debug, PartialEq, Eq)]
pub enum Json {
    Null,
    Bool(bool),
    /// A number, as the text that writes it.
    Number(String),
    Str(String),
    Array(Vec<Json>),
    /// The members of an object, in order.
    Object(Vec<(String, Json)>),
}

/// The mathematical value of a document.
pub open spec fn value_of(j: Json) -> JsonValue
    decreases j,
{
    match j {
        Json::Null => JsonValue::Null,
        Json::Bool(b) => JsonValue::Bool(b),
        Json::Number(t) => JsonValue::Number(t@),
        Json::Str(s) => JsonValue::Str(s@),
        Json::Array(items) => JsonValue::Array(
            Seq::new(
                items.len() as nat,
                |i: int|
                    if 0 <= i < items.len() {
                        value_of(items[i])
                    } else {
                        JsonValue::Null
                    },
            ),
        ),
        Json::Object(members) => JsonValue::Object(
            Seq::new(
                members.len() as nat,
                |i: int|
                    if 0 <= i < members.len() {
                        (members[i].0@, value_of(members[i].1))
                    } else {
                        (Seq::empty(), JsonValue::Null)
                    },
            ),
        ),
    }
}

impl View for Json {
    type V = JsonValue;

    open spec fn view(&self) -> JsonValue {
        value_of(*self)
    }
}

/// One step of a path, as a mathematical value.
pub enum StepValue {
    Key(Seq<char>),
    Index(nat),
}

/// One step of a path: the key of a member of an object, or the index of an
/// item of an array.
#[derive(Debug, PartialEq, Eq)]
pub enum Step {
    Key(String),
    Index(usize),
}

impl View for Step {
    type V = StepValue;

    open spec fn view(&self) -> StepValue {
        match self {
            Step::Key(k) => StepValue::Key(k@),
            Step::Index(i) => StepValue::Index(*i as nat),
        }
    }
}

/// The path that a sequence of steps stands for.
pub open spec fn path_of(steps: Seq<Step>) -> Seq<StepValue> {
    Seq::new(steps.len(), |i: int| steps[i]@)
}

/// Why a path led to no scalar.
#[derive(Clone, Copy, Debug, PartialEq, Eq, Structural)]
pub enum ExtractError {
    /// A step of the path names a member or an item that is not there.
    FieldMissing,
    /// A step of the path is applied to a scalar, or the path ends at an
    /// array or an object.
    TypeMismatch,
}

impl JsonValue {
    /// Whether this is an array or an object.
    pub open spec fn is_container(self) -> bool {
        self is Array || self is Object
    }

    /// The text of a scalar: a string's own characters, the text of a
    /// number, `true`, `false` or `null`. `None` for an array or an object.
    pub open spec fn scalar_text(self) -> Option<Seq<char>> {
        match self {
            JsonValue::Null => Some("null"@),
            JsonValue::Bool(b) => Some(
                if b {
                    "true"@
                } else {
                    "false"@
                },
            ),
            JsonValue::Number(t) => Some(t),
            JsonValue::Str(s) => Some(s),
            JsonValue::Array(_) => None,
            JsonValue::Object(_) => None,
        }
    }

    /// What one step leads to. A step into a scalar is a `TypeMismatch`. A
    /// step into an array or an object that holds nothing under that step is
    /// a `FieldMissing`: an index past the end, a key that no member has, a
    /// key applied to an array, an index applied to an object.
    pub open spec fn child(self, step: StepValue) -> Result<JsonValue, ExtractError> {
        match self {
            JsonValue::Object(members) => match step {
                StepValue::Key(k) => match member(members, k) {
                    Some(v) => Ok(v),
                    None => Err(ExtractError::FieldMissing),
                },
                StepValue::Index(_) => Err(ExtractError::FieldMissing),
            },
            JsonValue::Array(items) => match step {
                StepValue::Index(i) => if i < items.len() {
                    Ok(items[i as int])
                } else {
                    Err(ExtractError::FieldMissing)
                },
                StepValue::Key(_) => Err(ExtractError::FieldMissing),
            },
            _ => Err(ExtractError::TypeMismatch),
        }
    }

    /// What a path leads to: the value reached by taking its steps in order,
    /// or the error of the first step that fails.
    pub open spec fn resolve(self, path: Seq<StepValue>) -> Result<JsonValue, ExtractError>
        decreases path.len(),
    {
        if path.len() == 0 {
            Ok(self)
        } else {
            match self.child(path[0]) {
                Ok(c) => c.resolve(path.skip(1)),
                Err(e) => Err(e),
            }
        }
    }

    /// The text of the scalar that a path leads to.
    pub open spec fn extracted(self, path: Seq<StepValue>) -> Result<Seq<char>, ExtractError> {
        match self.resolve(path) {
            Ok(v) => match v.scalar_text() {
                Some(t) => Ok(t),
                None => Err(ExtractError::TypeMismatch),
            },
            Err(e) => Err(e),
        }
    }

    /// The characters of a string that a path leads to. Any other value
    /// there is a `TypeMismatch`.
    pub open spec fn extracted_str(self, path: Seq<StepValue>) -> Result<Seq<char>, ExtractError> {
        match self.resolve(path) {
            Ok(JsonValue::Str(s)) => Ok(s),
            Ok(_) => Err(ExtractError::TypeMismatch),
            Err(e) => Err(e),
        }
    }
}

/// The value of the first member with the given key.
pub open spec fn member(members: Seq<(Seq<char>, JsonValue)>, key: Seq<char>) -> Option<JsonValue>
    decreases members.len(),
{
    if members.len() == 0 {
        None
    } else if members[0].0 == key {
        Some(members[0].1)
    } else {
        member(members.skip(1), key)
    }
}

/// Whether a result of text, as a function returns it, is the given
/// mathematical result.
pub open spec fn text_result_is(
    r: Result<String, ExtractError>,
    expected: Result<Seq<char>, ExtractError>,
) -> bool {
    match r {
        Ok(s) => expected == Ok::<Seq<char>, ExtractError>(s@),
        Err(e) => expected == Err::<Seq<char>, ExtractError>(e),
    }
}

impl Json {
    /// Takes one step from this value.
    pub fn get(&self, step: &Step) -> (r: Result<&Json, ExtractError>)
        ensures
            match r {
                Ok(c) => self@.child(step@) == Ok::<JsonValue, ExtractError>(c@),
                Err(e) => self@.child(step@) == Err::<JsonValue, ExtractError>(e),
            },
    {
        match self {
            Json::Object(members) => match step {
                Step::Key(key) => {
                    let ghost all = self@->Object_0;
                    let mut i: usize = 0;
                    assert(all.skip(0) == all);
                    while i < members.len()
                        invariant
                            i <= members.len(),
                            self@ == JsonValue::Object(all),
                            step@ == StepValue::Key(key@),
                            all.len() == members.len(),
                            forall|j: int|
                                0 <= j < members.len() ==> all[j] == (
                                    members[j].0@,
                                    members[j].1@,
                                ),
                            member(all.skip(i as int), key@) == member(all, key@),
                        decreases members.len() - i,
                    {
                        assert(all.skip(i as int)[0] == all[i as int]);
                        assert(all[i as int] == (members[i as int].0@, members[i as int].1@));
                        if members[i].0 == *key {
                            return Ok(&members[i].1);
                        }
                        assert(all.skip(i as int).skip(1) == all.skip(i + 1));
                        i += 1;
                    }
                    Err(ExtractError::FieldMissing)
                },
                Step::Index(_) => Err(ExtractError::FieldMissing),
            },
            Json::Array(items) => match step {
                Step::Index(i) => {
                    if *i < items.len() {
                        Ok(&items[*i])
                    } else {
                        Err(ExtractError::FieldMissing)
                    }
                },
                Step::Key(_) => Err(ExtractError::FieldMissing),
            },
            _ => Err(ExtractError::TypeMismatch),
        }
    }

    /// Follows a path from this value.
    pub fn at(&self, path: &Vec<Step>) -> (r: Result<&Json, ExtractError>)
        ensures
            match r {
                Ok(c) => self@.resolve(path_of(path@)) == Ok::<JsonValue, ExtractError>(c@),
                Err(e) => self@.resolve(path_of(path@)) == Err::<JsonValue, ExtractError>(e),
            },
    {
        let ghost steps = path_of(path@);
        let mut here: &Json = self;
        let mut i: usize = 0;
        assert(steps.skip(0) == steps);
        while i < path.len()
            invariant
                i <= path.len(),
                steps == path_of(path@),
                here@.resolve(steps.skip(i as int)) == self@.resolve(steps),
            decreases path.len() - i,
        {
            assert(steps.skip(i as int)[0] == path@[i as int]@);
            assert(steps.skip(i as int).skip(1) == steps.skip(i + 1));
            match here.get(&path[i]) {
                Ok(c) => {
                    here = c;
                },
                Err(e) => {
                    return Err(e);
                },
            }
            i += 1;
        }
        Ok(here)
    }

    /// The text of this value if it is a scalar.
    pub fn text(&self) -> (r: Option<String>)
        ensures
            match r {
                Some(t) => self@.scalar_text() == Some(t@),
                None => self@.scalar_text() is None,
            },
    {
        match self {
            Json::Null => Some("null".to_owned()),
            Json::Bool(b) => Some(
                if *b {
                    "true".to_owned()
                } else {
                    "false".to_owned()
                },
            ),
            Json::Number(t) => Some(t.clone()),
            Json::Str(s) => Some(s.clone()),
            Json::Array(_) => None,
            Json::Object(_) => None,
        }
    }
}

/// Follows `path` from the root of `doc` and returns the text of the scalar
/// found there.
///
/// The error is `FieldMissing` where a step names something that its array
/// or object does not hold, and `TypeMismatch` where a step is applied to a
/// scalar or the path ends at an array or an object.
pub fn extract(doc: &Json, path: &Vec<Step>) -> (r: Result<String, ExtractError>)
    ensures
        text_result_is(r, doc@.extracted(path_of(path@))),
{
    match doc.at(path) {
        Ok(v) => match v.text() {
            Some(t) => Ok(t),
            None => Err(ExtractError::TypeMismatch),
        },
        Err(e) => Err(e),
    }
}

/// Follows `path` from the root of `doc` and returns the string found there.
///
/// As [`extract`], but a value that is not a string is a `TypeMismatch`.
pub fn extract_str(doc: &Json, path: &Vec<Step>) -> (r: Result<String, ExtractError>)
    ensures
        text_result_is(r, doc@.extracted_str(path_of(path@))),
{
    match doc.at(path) {
        Ok(v) => match v {
            Json::Str(s) => Ok(s.clone()),
            _ => Err(ExtractError::TypeMismatch),
        },
        Err(e) => Err(e),
    }
}

impl Step {
    /// A step into the member with the given key.
    pub fn key(name: &str) -> (s: Step)
        ensures
            s@ == StepValue::Key(name@),
    {
        Step::Key(name.to_owned())
    }

    /// A copy of this step.
    pub fn copied(&self) -> (s: Step)
        ensures
            s@ == self@,
    {
        match self {
            Step::Key(k) => Step::Key(k.clone()),
            Step::Index(i) => Step::Index(*i),
        }
    }
}

/// A step into the member with the given key.
pub open spec fn key(name: Seq<char>) -> StepValue {
    StepValue::Key(name)
}

/// The path of one key.
pub open spec fn keys1(a: Seq<char>) -> Seq<StepValue> {
    seq![key(a)]
}

/// The path of two keys.
pub open spec fn keys2(a: Seq<char>, b: Seq<char>) -> Seq<StepValue> {
    seq![key(a), key(b)]
}

/// The steps of the path of one key.
pub fn path1(a: &str) -> (p: Vec<Step>)
    ensures
        path_of(p@) == keys1(a@),
{
    let mut p: Vec<Step> = Vec::new();
    p.push(Step::key(a));
    assert(path_of(p@) =~= keys1(a@));
    p
}

/// The steps of the path of two keys.
pub fn path2(a: &str, b: &str) -> (p: Vec<Step>)
    ensures
        path_of(p@) == keys2(a@, b@),
{
    let mut p: Vec<Step> = Vec::new();
    p.push(Step::key(a));
    p.push(Step::key(b));
    assert(path_of(p@) =~= keys2(a@, b@));
    p
}

// ---------------------------------------------------------------------------
// Laws of extraction
// ---------------------------------------------------------------------------

/// Whether the step at place `k` of a path fails for want of a member or an
/// item: the steps before it lead to an array or an object, and that holds
/// nothing under the step.
pub open spec fn missing_at(doc: JsonValue, path: Seq<StepValue>, k: int) -> bool {
    match doc.resolve(path.take(k)) {
        Ok(v) => v.is_container() && v.child(path[k]) is Err,
        Err(_) => false,
    }
}

/// Whether a path is absent from a document: one of its steps fails for
/// want of a member or an item.
pub open spec fn absent(doc: JsonValue, path: Seq<StepValue>) -> bool {
    exists|k: int| 0 <= k < path.len() && #[trigger] missing_at(doc, path, k)
}

/// The first `k` steps of a path lead where the first step, and then the
/// `k - 1` steps after it, lead.
proof fn lemma_resolve_prefix(doc: JsonValue, path: Seq<StepValue>, k: int)
    requires
        1 <= k <= path.len(),
    ensures
        doc.resolve(path.take(k)) == match doc.child(path[0]) {
            Ok(c) => c.resolve(path.skip(1).take(k - 1)),
            Err(e) => Err(e),
        },
{
    assert(path.take(k)[0] == path[0]);
    assert(path.take(k).skip(1) == path.skip(1).take(k - 1));
}

/// A scalar that a path leads to is extracted as its text, exactly.
pub proof fn law_extract_scalar(doc: JsonValue, path: Seq<StepValue>, v: JsonValue)
    requires
        doc.resolve(path) == Ok::<JsonValue, ExtractError>(v),
        !v.is_container(),
    ensures
        v.scalar_text() is Some,
        doc.extracted(path) == Ok::<Seq<char>, ExtractError>(v.scalar_text()->0),
{
}

/// A path is absent from a document if and only if following it, and so
/// extracting along it, fails with `FieldMissing`.
pub proof fn law_absent_is_field_missing(doc: JsonValue, path: Seq<StepValue>)
    ensures
        absent(doc, path) <==> doc.resolve(path) == Err::<JsonValue, ExtractError>(
            ExtractError::FieldMissing,
        ),
        absent(doc, path) <==> doc.extracted(path) == Err::<Seq<char>, ExtractError>(
            ExtractError::FieldMissing,
        ),
    decreases path.len(),
{
    if path.len() == 0 {
        assert(!absent(doc, path));
    } else {
        let rest = path.skip(1);
        assert(path.take(0) == Seq::<StepValue>::empty());
        match doc.child(path[0]) {
            Err(e) => {
                if doc.is_container() {
                    assert(missing_at(doc, path, 0));
                } else {
                    assert forall|k: int| 0 <= k < path.len() implies !missing_at(doc, path, k) by {
                        if k >= 1 {
                            lemma_resolve_prefix(doc, path, k);
                        }
                    }
                }
            },
            Ok(c) => {
                law_absent_is_field_missing(c, rest);
                assert forall|k: int| 1 <= k < path.len() implies missing_at(doc, path, k)
                    == missing_at(c, rest, k - 1) by {
                    lemma_resolve_prefix(doc, path, k);
                    assert(rest[k - 1] == path[k]);
                }
                assert(!missing_at(doc, path, 0));
                if absent(doc, path) {
                    let k = choose|k: int| 0 <= k < path.len() && #[trigger] missing_at(doc, path, k);
                    assert(missing_at(c, rest, k - 1));
                }
                if absent(c, rest) {
                    let k = choose|k: int| 0 <= k < rest.len() && #[trigger] missing_at(c, rest, k);
                    assert(missing_at(doc, path, k + 1));
                }
            },
        }
    }
}

/// Following one path and then another is following the two, one after the
/// other; where the first fails, the whole fails in the same way.
pub proof fn law_resolve_in_two_parts(doc: JsonValue, first: Seq<StepValue>, second: Seq<StepValue>)
    ensures
        doc.resolve(first + second) == match doc.resolve(first) {
            Ok(v) => v.resolve(second),
            Err(e) => Err(e),
        },
    decreases first.len(),
{
    if first.len() == 0 {
        assert(first + second == second);
    } else {
        assert((first + second)[0] == first[0]);
        assert((first + second).skip(1) == first.skip(1) + second);
        match doc.child(first[0]) {
            Ok(c) => {
                law_resolve_in_two_parts(c, first.skip(1), second);
            },
            Err(_) => {},
        }
    }
}

} // verus!
