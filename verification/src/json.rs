//! JSON values as the agent reads and writes them.

use vstd::prelude::*;
use vstd::string::*;
use crate::outside::{debug_of, json_debug, json_debugged, json_display, json_printed};
use crate::text::{decimal, same_text};

verus! {

/// A JSON number: an integer, or the text of a number with a fraction or an
/// exponent.
#[derive(Debug, PartialEq)]
pub enum Number {
    PosInt(u64),
    NegInt(i64),
    Float(String),
}

/// A JSON value.
#[derive(Debug, PartialEq)]
pub enum Json {
    Null,
    Bool(bool),
    Number(Number),
    String(String),
    Array(Vec<Json>),
    Object(Vec<Member>),
}

/// A key of a JSON object with its value.
#[derive(Debug, PartialEq)]
pub struct Member {
    pub key: String,
    pub value: Json,
}

/// What a [`Number`] stands for.
pub enum NumberView {
    PosInt(u64),
    NegInt(i64),
    Float(Seq<char>),
}

/// What a [`Json`] value stands for.
pub enum JsonView {
    Null,
    Bool(bool),
    Number(NumberView),
    String(Seq<char>),
    Array(Seq<JsonView>),
    Object(Seq<(Seq<char>, JsonView)>),
}

impl Number {
    pub open spec fn view(&self) -> NumberView {
        match self {
            Number::PosInt(n) => NumberView::PosInt(*n),
            Number::NegInt(n) => NumberView::NegInt(*n),
            Number::Float(s) => NumberView::Float(s@),
        }
    }
}

impl Json {
    pub open spec fn view(&self) -> JsonView
        decreases self,
    {
        match self {
            Json::Null => JsonView::Null,
            Json::Bool(b) => JsonView::Bool(*b),
            Json::Number(n) => JsonView::Number(n@),
            Json::String(s) => JsonView::String(s@),
            Json::Array(xs) => JsonView::Array(
                Seq::new(
                    xs@.len(),
                    |i: int|
                        if 0 <= i < xs@.len() {
                            xs@[i].view()
                        } else {
                            JsonView::Null
                        },
                ),
            ),
            Json::Object(ms) => JsonView::Object(
                Seq::new(
                    ms@.len(),
                    |i: int|
                        if 0 <= i < ms@.len() {
                            (ms@[i].key@, ms@[i].value.view())
                        } else {
                            (seq![], JsonView::Null)
                        },
                ),
            ),
        }
    }
}

impl Member {
    pub open spec fn view(&self) -> (Seq<char>, JsonView) {
        (self.key@, self.value@)
    }
}

/// The views of a list of values.
pub open spec fn values_view(xs: Seq<Json>) -> Seq<JsonView> {
    Seq::new(xs.len(), |i: int| xs[i]@)
}

/// The views of a list of members.
pub open spec fn members_view(ms: Seq<Member>) -> Seq<(Seq<char>, JsonView)> {
    Seq::new(ms.len(), |i: int| ms[i]@)
}

/// The view of an optional value.
pub open spec fn value_of(j: Option<Json>) -> Option<JsonView> {
    match j {
        Some(j) => Some(j@),
        None => None,
    }
}

/// The value of the first member with the given key.
pub open spec fn lookup(ms: Seq<(Seq<char>, JsonView)>, key: Seq<char>) -> Option<JsonView>
    decreases ms.len(),
{
    if ms.len() == 0 {
        None
    } else if ms[0].0 == key {
        Some(ms[0].1)
    } else {
        lookup(ms.drop_first(), key)
    }
}

impl JsonView {
    /// The member of an object with the given key.
    pub open spec fn get(self, key: Seq<char>) -> Option<JsonView> {
        match self {
            JsonView::Object(ms) => lookup(ms, key),
            _ => None,
        }
    }

    /// The text of a string.
    pub open spec fn as_str(self) -> Option<Seq<char>> {
        match self {
            JsonView::String(s) => Some(s),
            _ => None,
        }
    }

    /// The value of a number that is a non-negative integer.
    pub open spec fn as_u64(self) -> Option<u64> {
        match self {
            JsonView::Number(NumberView::PosInt(n)) => Some(n),
            _ => None,
        }
    }

    /// The text under a key, where that holds a string.
    pub open spec fn str_at(self, key: Seq<char>) -> Option<Seq<char>> {
        match self.get(key) {
            Some(v) => v.as_str(),
            None => None,
        }
    }

    /// The integer under a key, where that holds a non-negative one.
    pub open spec fn u64_at(self, key: Seq<char>) -> Option<u64> {
        match self.get(key) {
            Some(v) => v.as_u64(),
            None => None,
        }
    }
}

/// The hexadecimal digit for a value below sixteen.
pub open spec fn hex_digit(n: int) -> char {
    if n < 10 {
        ('0' as u8 + n) as char
    } else {
        ('a' as u8 + (n - 10)) as char
    }
}

/// How the control character with the given code stands inside a JSON string.
pub open spec fn control_escape(code: int) -> Seq<char> {
    seq!['\\', 'u', '0', '0'].push(hex_digit(code / 16)).push(hex_digit(code % 16))
}

/// How a character stands inside a JSON string.
pub open spec fn json_escape(c: char) -> Seq<char> {
    if c == '"' {
        seq!['\\', '"']
    } else if c == '\\' {
        seq!['\\', '\\']
    } else if c == '\u{8}' {
        seq!['\\', 'b']
    } else if c == '\t' {
        seq!['\\', 't']
    } else if c == '\n' {
        seq!['\\', 'n']
    } else if c == '\u{c}' {
        seq!['\\', 'f']
    } else if c == '\r' {
        seq!['\\', 'r']
    } else if ' ' > c {
        control_escape(c as int)
    } else {
        seq![c]
    }
}

/// A text with each character as it stands inside a JSON string.
pub open spec fn json_escaped(s: Seq<char>) -> Seq<char>
    decreases s.len(),
{
    if s.len() == 0 {
        seq![]
    } else {
        json_escaped(s.drop_last()) + json_escape(s.last())
    }
}

/// A text as a JSON string literal.
pub open spec fn json_quoted(s: Seq<char>) -> Seq<char> {
    seq!['"'] + json_escaped(s) + seq!['"']
}

/// An integer in decimal, with a minus sign where it is negative.
pub open spec fn signed_decimal(n: int) -> Seq<char> {
    if n < 0 {
        "-"@ + decimal((-n) as nat)
    } else {
        decimal(n as nat)
    }
}

/// How a truth value is written.
pub open spec fn bool_text(b: bool) -> Seq<char> {
    if b {
        "true"@
    } else {
        "false"@
    }
}

/// The compact JSON text of a value that is no array, no object and no number with
/// a fraction or an exponent.
pub open spec fn scalar_text(j: JsonView) -> Option<Seq<char>> {
    match j {
        JsonView::Null => Some("null"@),
        JsonView::Bool(b) => Some(bool_text(b)),
        JsonView::Number(NumberView::PosInt(n)) => Some(decimal(n as nat)),
        JsonView::Number(NumberView::NegInt(n)) => Some(signed_decimal(n as int)),
        JsonView::String(s) => Some(json_quoted(s)),
        _ => None,
    }
}

/// A value as compact JSON text.
pub open spec fn json_text(j: JsonView) -> Seq<char> {
    match scalar_text(j) {
        Some(t) => t,
        None => json_printed(j),
    }
}

/// How a value that is no array, no object and no number with a fraction or an
/// exponent shows in a diff: the kind of value around its content.
pub open spec fn scalar_shown(j: JsonView) -> Option<Seq<char>> {
    match j {
        JsonView::Null => Some("Null"@),
        JsonView::Bool(b) => Some("Bool("@ + bool_text(b) + ")"@),
        JsonView::Number(NumberView::PosInt(n)) => Some("Number("@ + decimal(n as nat) + ")"@),
        JsonView::Number(NumberView::NegInt(n)) => Some(
            "Number("@ + signed_decimal(n as int) + ")"@,
        ),
        JsonView::String(s) => Some("String("@ + debug_of(s) + ")"@),
        _ => None,
    }
}

/// How a value shows in a diff.
pub open spec fn json_shown(j: JsonView) -> Seq<char> {
    match scalar_shown(j) {
        Some(t) => t,
        None => json_debugged(j),
    }
}

/// The view of what came of reading bytes as JSON.
pub open spec fn decoded_view(decoded: Result<Json, String>) -> Result<JsonView, Seq<char>> {
    match decoded {
        Ok(j) => Ok(j@),
        Err(e) => Err(e@),
    }
}

/// Members with other keys can be passed over.
pub proof fn lemma_lookup_at(ms: Seq<(Seq<char>, JsonView)>, key: Seq<char>, i: int)
    requires
        0 <= i <= ms.len(),
        forall|j: int| 0 <= j < i ==> (#[trigger] ms[j]).0 != key,
    ensures
        lookup(ms, key) == lookup(ms.skip(i), key),
    decreases i,
{
    if i == 0 {
        assert(ms.skip(0) =~= ms);
    } else {
        assert(ms[0].0 != key);
        let t = ms.drop_first();
        assert forall|j: int| 0 <= j < i - 1 implies (#[trigger] t[j]).0 != key by {
            assert(t[j] == ms[j + 1]);
        }
        lemma_lookup_at(t, key, i - 1);
        assert(t.skip(i - 1) =~= ms.skip(i));
    }
}

/// The value of the first member with the given key.
pub fn find_member<'a>(ms: &'a Vec<Member>, key: &str) -> (r: Option<&'a Json>)
    ensures
        match r {
            Some(v) => lookup(members_view(ms@), key@) == Some(v@),
            None => lookup(members_view(ms@), key@) is None,
        },
{
    let n: usize = ms.len();
    let mut i: usize = 0;
    let ghost vs = members_view(ms@);
    while i < n
        invariant
            n == ms@.len(),
            vs == members_view(ms@),
            i <= n,
            forall|j: int| 0 <= j < i ==> (#[trigger] vs[j]).0 != key@,
        decreases n - i,
    {
        if same_text(ms[i].key.as_str(), key) {
            proof {
                lemma_lookup_at(vs, key@, i as int);
                assert(vs.skip(i as int)[0] == ms@[i as int]@);
            }
            return Some(&ms[i].value);
        }
        i = i + 1;
    }
    proof {
        lemma_lookup_at(vs, key@, n as int);
        assert(vs.skip(n as int).len() == 0);
    }
    None
}

impl Json {
    /// The member of an object with the given key.
    pub fn get(&self, key: &str) -> (r: Option<&Json>)
        ensures
            match r {
                Some(v) => self@.get(key@) == Some(v@),
                None => self@.get(key@) is None,
            },
    {
        match self {
            Json::Object(ms) => {
                proof {
                    assert(self@ == JsonView::Object(members_view(ms@))) by {
                        lemma_object_view(*self);
                    }
                }
                find_member(ms, key)
            },
            _ => None,
        }
    }

    /// The text of a string.
    pub fn as_str(&self) -> (r: Option<&str>)
        ensures
            match r {
                Some(s) => self@.as_str() == Some(s@),
                None => self@.as_str() is None,
            },
    {
        match self {
            Json::String(s) => Some(s.as_str()),
            _ => None,
        }
    }

    /// The value of a number that is a non-negative integer.
    pub fn as_u64(&self) -> (r: Option<u64>)
        ensures
            r == self@.as_u64(),
    {
        match self {
            Json::Number(Number::PosInt(n)) => Some(*n),
            _ => None,
        }
    }

    /// The text under a key, where that holds a string.
    pub fn str_at(&self, key: &str) -> (r: Option<&str>)
        ensures
            match r {
                Some(s) => self@.str_at(key@) == Some(s@),
                None => self@.str_at(key@) is None,
            },
    {
        match self.get(key) {
            Some(v) => v.as_str(),
            None => None,
        }
    }

    /// The integer under a key, where that holds a non-negative one.
    pub fn u64_at(&self, key: &str) -> (r: Option<u64>)
        ensures
            r == self@.u64_at(key@),
    {
        match self.get(key) {
            Some(v) => v.as_u64(),
            None => None,
        }
    }

    /// A copy of the value.
    pub fn duplicate(&self) -> (r: Json)
        ensures
            r@ == self@,
        decreases self,
    {
        match self {
            Json::Null => Json::Null,
            Json::Bool(b) => Json::Bool(*b),
            Json::Number(n) => Json::Number(n.duplicate()),
            Json::String(s) => Json::String(s.clone()),
            Json::Array(xs) => {
                let n: usize = xs.len();
                let mut out: Vec<Json> = Vec::new();
                let mut i: usize = 0;
                while i < n
                    invariant
                        n == xs@.len(),
                        i <= n,
                        self == Json::Array(*xs),
                        values_view(out@) == values_view(xs@).take(i as int),
                    decreases n - i,
                {
                    proof {
                        lemma_element_is_smaller(*self, i as int);
                    }
                    let x: Json = xs[i].duplicate();
                    let ghost before = values_view(out@);
                    out.push(x);
                    proof {
                        assert(values_view(out@) =~= before.push(x@));
                    }
                    i = i + 1;
                }
                let r = Json::Array(out);
                proof {
                    lemma_array_view(r);
                    lemma_array_view(*self);
                    assert(values_view(out@) =~= values_view(xs@));
                }
                r
            },
            Json::Object(ms) => {
                let n: usize = ms.len();
                let mut out: Vec<Member> = Vec::new();
                let mut i: usize = 0;
                while i < n
                    invariant
                        n == ms@.len(),
                        i <= n,
                        self == Json::Object(*ms),
                        members_view(out@) == members_view(ms@).take(i as int),
                    decreases n - i,
                {
                    proof {
                        lemma_member_is_smaller(*self, i as int);
                    }
                    let value: Json = ms[i].value.duplicate();
                    let ghost before = members_view(out@);
                    let m = Member { key: ms[i].key.clone(), value };
                    out.push(m);
                    proof {
                        assert(members_view(out@) =~= before.push(m@));
                    }
                    i = i + 1;
                }
                let r = Json::Object(out);
                proof {
                    lemma_object_view(r);
                    lemma_object_view(*self);
                    assert(members_view(out@) =~= members_view(ms@));
                }
                r
            },
        }
    }
}

proof fn lemma_element_is_smaller(j: Json, i: int)
    ensures
        j matches Json::Array(xs) ==> 0 <= i < xs@.len() ==> decreases_to!(j => xs@[i]),
{
    if let Json::Array(xs) = j {
        if 0 <= i < xs@.len() {
            assert(decreases_to!(j => j->Array_0));
            assert(decreases_to!(xs => xs@));
            assert(decreases_to!(xs@ => xs@[i]));
        }
    }
}

proof fn lemma_member_is_smaller(j: Json, i: int)
    ensures
        j matches Json::Object(ms) ==> 0 <= i < ms@.len() ==> decreases_to!(j => ms@[i].value),
{
    if let Json::Object(ms) = j {
        if 0 <= i < ms@.len() {
            assert(decreases_to!(j => j->Object_0));
            assert(decreases_to!(ms => ms@));
            assert(decreases_to!(ms@ => ms@[i]));
            assert(decreases_to!(ms@[i] => ms@[i].value));
        }
    }
}

/// A JSON string.
pub fn string(s: &str) -> (r: Json)
    ensures
        r@ == JsonView::String(s@),
{
    Json::String(s.to_owned())
}

/// A JSON array with the given elements.
pub fn array(xs: Vec<Json>) -> (r: Json)
    ensures
        r@ == JsonView::Array(values_view(xs@)),
{
    let r = Json::Array(xs);
    proof {
        lemma_array_view(r);
    }
    r
}

/// A JSON object with the given members.
pub fn object(ms: Vec<Member>) -> (r: Json)
    ensures
        r@ == JsonView::Object(members_view(ms@)),
{
    let r = Json::Object(ms);
    proof {
        lemma_object_view(r);
    }
    r
}

/// A member of a JSON object.
pub fn member(key: &str, value: Json) -> (r: Member)
    ensures
        r@ == (key@, value@),
{
    Member { key: key.to_owned(), value }
}

/// The view of an array is made of the views of its elements.
pub proof fn lemma_array_view(j: Json)
    ensures
        j matches Json::Array(xs) ==> j@ == JsonView::Array(values_view(xs@)),
{
    if let Json::Array(xs) = j {
        assert(j@->Array_0 =~= values_view(xs@));
    }
}

/// The view of an object is made of the views of its members.
pub proof fn lemma_object_view(j: Json)
    ensures
        j matches Json::Object(ms) ==> j@ == JsonView::Object(members_view(ms@)),
{
    if let Json::Object(ms) = j {
        assert(j@->Object_0 =~= members_view(ms@));
    }
}

impl Number {
    /// A copy of the number.
    pub fn duplicate(&self) -> (r: Number)
        ensures
            r@ == self@,
    {
        match self {
            Number::PosInt(n) => Number::PosInt(*n),
            Number::NegInt(n) => Number::NegInt(*n),
            Number::Float(s) => Number::Float(s.clone()),
        }
    }
}

impl Json {
    /// The value as compact JSON text.
    pub fn to_text(&self) -> (r: String)
        ensures
            r@ == json_text(self@),
    {
        json_display(self)
    }

    /// How the value shows in a diff.
    pub fn shown(&self) -> (r: String)
        ensures
            r@ == json_shown(self@),
    {
        json_debug(self)
    }
}

} // verus!
