use vstd::prelude::*;

verus! {

/// A JSON value. Numbers are kept as the text that JSON writes for them,
/// so that no floating-point value is ever needed to hold one.
#[derive(Debug, PartialEq)]
pub enum Json {
    Null,
    Bool(bool),
    Number(String),
    Text(String),
    Array(Vec<Json>),
    Object(Vec<(String, Json)>),
}

/// The mathematical value of a `Json`.
pub enum JsonV {
    Null,
    Bool(bool),
    Number(Seq<char>),
    Text(Seq<char>),
    Array(Seq<JsonV>),
    Object(Seq<(Seq<char>, JsonV)>),
}

pub open spec fn json_view(j: Json) -> JsonV
    decreases j,
{
    match j {
        Json::Null => JsonV::Null,
        Json::Bool(b) => JsonV::Bool(b),
        Json::Number(n) => JsonV::Number(n@),
        Json::Text(s) => JsonV::Text(s@),
        Json::Array(items) => JsonV::Array(
            Seq::new(
                items@.len(),
                |i: int|
                    if 0 <= i < items@.len() {
                        proof {
                            assert(decreases_to!(j => items));
                            assert(decreases_to!(items => items@));
                            assert(decreases_to!(items@ => items@[i]));
                        }
                        json_view(items@[i])
                    } else {
                        JsonV::Null
                    },
            ),
        ),
        Json::Object(entries) => JsonV::Object(
            Seq::new(
                entries@.len(),
                |i: int|
                    if 0 <= i < entries@.len() {
                        proof {
                            assert(decreases_to!(j => entries));
                            assert(decreases_to!(entries => entries@));
                            assert(decreases_to!(entries@ => entries@[i]));
                            assert(decreases_to!(entries@[i] => entries@[i].1));
                        }
                        (entries@[i].0@, json_view(entries@[i].1))
                    } else {
                        (Seq::<char>::empty(), JsonV::Null)
                    },
            ),
        ),
    }
}

impl View for Json {
    type V = JsonV;

    open spec fn view(&self) -> JsonV {
        json_view(*self)
    }
}

/// The value stored under the first entry named `key` of an object,
/// or `None` when `j` is not an object or has no such entry.
pub open spec fn obj_get(j: JsonV, key: Seq<char>) -> Option<JsonV> {
    match j {
        JsonV::Object(entries) => entries_get(entries, key),
        _ => None,
    }
}

pub open spec fn entries_get(entries: Seq<(Seq<char>, JsonV)>, key: Seq<char>) -> Option<JsonV>
    decreases entries.len(),
{
    if entries.len() == 0 {
        None
    } else if entries[0].0 == key {
        Some(entries[0].1)
    } else {
        entries_get(entries.drop_first(), key)
    }
}

pub open spec fn text_of(j: JsonV) -> Option<Seq<char>> {
    match j {
        JsonV::Text(s) => Some(s),
        _ => None,
    }
}

pub open spec fn bool_of(j: JsonV) -> Option<bool> {
    match j {
        JsonV::Bool(b) => Some(b),
        _ => None,
    }
}

pub open spec fn items_of(j: JsonV) -> Option<Seq<JsonV>> {
    match j {
        JsonV::Array(items) => Some(items),
        _ => None,
    }
}

/// The view of an optional JSON value.
pub open spec fn opt_json(o: Option<Json>) -> Option<JsonV> {
    match o {
        Some(j) => Some(j@),
        None => None,
    }
}

/// The view of a vector of JSON values.
pub open spec fn json_seq(v: Seq<Json>) -> Seq<JsonV> {
    Seq::new(v.len(), |i: int| v[i]@)
}

pub proof fn lemma_array_view(items: Vec<Json>)
    ensures
        Json::Array(items)@ == JsonV::Array(json_seq(items@)),
{
    let v = Json::Array(items)@;
    let s = v->Array_0;
    assert(s.len() == items@.len());
    assert forall|i: int| 0 <= i < s.len() implies s[i] == json_seq(items@)[i] by {}
    assert(s =~= json_seq(items@));
}

/// The view of the entries of a JSON object.
pub open spec fn entries_view(entries: Seq<(String, Json)>) -> Seq<(Seq<char>, JsonV)> {
    Seq::new(entries.len(), |i: int| (entries[i].0@, entries[i].1@))
}

pub proof fn lemma_object_view(entries: Vec<(String, Json)>)
    ensures
        Json::Object(entries)@ == JsonV::Object(entries_view(entries@)),
{
    let a = entries_view(entries@);
    let v = Json::Object(entries)@;
    let s = v->Object_0;
    assert(s.len() == a.len());
    assert forall|i: int| 0 <= i < s.len() implies s[i] == a[i] by {}
    assert(s =~= a);
}

/// The value of a decimal digit character.
pub open spec fn digit_value(c: char) -> int {
    c as int - '0' as int
}

pub open spec fn is_digit(c: char) -> bool {
    '0' <= c <= '9'
}

/// A non-empty run of decimal digits.
pub open spec fn all_digits(s: Seq<char>) -> bool {
    s.len() > 0 && forall|i: int| 0 <= i < s.len() ==> is_digit(#[trigger] s[i])
}

/// The number that the decimal digits `s` write.
pub open spec fn digits_value(s: Seq<char>) -> int
    decreases s.len(),
{
    if s.len() == 0 {
        0
    } else {
        digits_value(s.drop_last()) * 10 + digit_value(s.last())
    }
}

/// The integer that a JSON number text writes, when it writes one: digits,
/// with a `-` before them for a negative number. A number with a fraction or
/// an exponent is no integer.
pub open spec fn integer_of(s: Seq<char>) -> Option<int> {
    if all_digits(s) {
        Some(digits_value(s))
    } else if s.len() > 1 && s[0] == '-' && all_digits(s.drop_first()) {
        Some(-digits_value(s.drop_first()))
    } else {
        None
    }
}

/// The integer held by a JSON value, when it is a number that writes one.
pub open spec fn integer_value(j: JsonV) -> Option<int> {
    match j {
        JsonV::Number(n) => integer_of(n),
        _ => None,
    }
}

/// What `as_i64` gives: the integer, where it fits in an `i64`.
pub open spec fn i64_value(j: JsonV) -> Option<i64> {
    match integer_value(j) {
        Some(v) => if i64::MIN <= v <= i64::MAX {
            Some(v as i64)
        } else {
            None
        },
        None => None,
    }
}

/// What `as_u64` gives: the integer, where it fits in a `u64`.
pub open spec fn u64_value(j: JsonV) -> Option<u64> {
    match integer_value(j) {
        Some(v) => if 0 <= v <= u64::MAX {
            Some(v as u64)
        } else {
            None
        },
        None => None,
    }
}

proof fn lemma_digits_grow(s: Seq<char>, i: int)
    requires
        0 <= i <= s.len(),
        forall|k: int| 0 <= k < s.len() ==> is_digit(#[trigger] s[k]),
    ensures
        digits_value(s.take(i)) <= digits_value(s),
        0 <= digits_value(s.take(i)),
    decreases s.len() - i,
{
    if i == s.len() {
        assert(s.take(i) =~= s);
        lemma_digits_nonneg(s);
    } else {
        lemma_digits_grow(s, i + 1);
        assert(s.take(i + 1).drop_last() =~= s.take(i));
        lemma_digits_nonneg(s.take(i));
    }
}

proof fn lemma_digits_nonneg(s: Seq<char>)
    requires
        forall|k: int| 0 <= k < s.len() ==> is_digit(#[trigger] s[k]),
    ensures
        0 <= digits_value(s),
    decreases s.len(),
{
    if s.len() > 0 {
        assert(is_digit(s[s.len() - 1]));
        lemma_digits_nonneg(s.drop_last());
    }
}

/// Reads the digits `s[from..]` as a number; `None` when there are none, when
/// another character stands among them, or when the number exceeds `u64::MAX`.
fn read_digits(s: &Vec<char>, from: usize) -> (r: Option<u64>)
    requires
        from <= s@.len(),
    ensures
        !all_digits(s@.skip(from as int)) ==> r is None,
        all_digits(s@.skip(from as int)) ==> (r matches Some(v) ==> v == digits_value(s@.skip(from as int)))
            && (r is None ==> digits_value(s@.skip(from as int)) > u64::MAX),
{
    let ghost t = s@.skip(from as int);
    if from == s.len() {
        return None;
    }
    let mut i = from;
    while i < s.len()
        invariant
            from <= i <= s@.len(),
            t == s@.skip(from as int),
            forall|k: int| 0 <= k < i - from ==> is_digit(#[trigger] t[k]),
        decreases s@.len() - i,
    {
        if !('0' <= s[i] && s[i] <= '9') {
            assert(!is_digit(t[i - from]));
            return None;
        }
        i = i + 1;
    }
    assert(all_digits(t));
    let mut acc: u64 = 0;
    let mut j = from;
    assert(t.take(0) =~= Seq::<char>::empty());
    while j < s.len()
        invariant
            from <= j <= s@.len(),
            t == s@.skip(from as int),
            all_digits(t),
            acc == digits_value(t.take(j - from)),
        decreases s@.len() - j,
    {
        assert(is_digit(t[j - from]));
        assert(t[j - from] == s@[j as int]);
        let d = (s[j] as u32 - '0' as u32) as u64;
        assert(t.take(j - from + 1).drop_last() =~= t.take(j - from));
        assert(t.take(j - from + 1).last() == t[j - from]);
        if acc > 1844674407370955161u64 || (acc == 1844674407370955161u64 && d > 5) {
            proof {
                lemma_digits_grow(t, j - from + 1);
            }
            return None;
        }
        acc = acc * 10 + d;
        j = j + 1;
    }
    assert(t.take(t.len() as int) =~= t);
    Some(acc)
}

impl Json {
    /// A copy of this value, equal to it.
    #[verifier::loop_isolation(false)]
    pub fn deep_clone(&self) -> (r: Json)
        ensures
            r@ == self@,
        decreases self,
    {
        match self {
            Json::Null => Json::Null,
            Json::Bool(b) => Json::Bool(*b),
            Json::Number(n) => Json::Number(n.clone()),
            Json::Text(s) => Json::Text(s.clone()),
            Json::Array(items) => {
                let mut out: Vec<Json> = Vec::new();
                for i in 0..items.len()
                    invariant
                        out@.len() == i,
                        forall|k: int| 0 <= k < i ==> (#[trigger] out@[k])@ == items@[k]@,
                {
                    proof {
                        assert(decreases_to!(self => items));
                        assert(decreases_to!(items => items@));
                        assert(decreases_to!(items@ => items@[i as int]));
                    }
                    let c = items[i].deep_clone();
                    out.push(c);
                }
                proof {
                    lemma_array_view(out);
                    lemma_array_view(*items);
                    assert(json_seq(out@) =~= json_seq(items@));
                }
                Json::Array(out)
            },
            Json::Object(entries) => {
                let mut out: Vec<(String, Json)> = Vec::new();
                for i in 0..entries.len()
                    invariant
                        out@.len() == i,
                        forall|k: int|
                            0 <= k < i ==> (#[trigger] out@[k]).0@ == entries@[k].0@ && out@[k].1@
                                == entries@[k].1@,
                {
                    proof {
                        assert(decreases_to!(self => entries));
                        assert(decreases_to!(entries => entries@));
                        assert(decreases_to!(entries@ => entries@[i as int]));
                        assert(decreases_to!(entries@[i as int] => entries@[i as int].1));
                    }
                    let k = entries[i].0.clone();
                    let v = entries[i].1.deep_clone();
                    out.push((k, v));
                }
                proof {
                    lemma_object_view(out);
                    lemma_object_view(*entries);
                    assert(entries_view(out@) =~= entries_view(entries@));
                }
                Json::Object(out)
            },
        }
    }

    /// The value under `key` when this is an object (the first entry of that name).
    pub fn get(&self, key: &str) -> (r: Option<&Json>)
        ensures
            r is None <==> obj_get(self@, key@) is None,
            r matches Some(v) ==> obj_get(self@, key@) == Some(v@),
    {
        match self {
            Json::Object(entries) => {
                proof {
                    lemma_object_view(*entries);
                }
                let ghost es = entries_view(entries@);
                let k = crate::text::owned(key);
                let mut i: usize = 0;
                proof {
                    assert(es.skip(0) =~= es);
                }
                while i < entries.len()
                    invariant
                        i <= entries.len(),
                        es.len() == entries@.len(),
                        forall|m: int| 0 <= m < es.len() ==> #[trigger] es[m] == (entries@[m].0@, entries@[m].1@),
                        k@ == key@,
                        self@ == JsonV::Object(es),
                        entries_get(es, key@) == entries_get(es.skip(i as int), key@),
                    decreases entries.len() - i,
                {
                    assert(es.skip(i as int).drop_first() =~= es.skip(i + 1));
                    assert(es.skip(i as int)[0] == es[i as int]);
                    if entries[i].0 == k {
                        return Some(&entries[i].1);
                    }
                    i = i + 1;
                }
                assert(es.skip(i as int).len() == 0);
                None
            },
            _ => None,
        }
    }

    /// The number as an `i64`, when it is an integer that fits in one.
    pub fn as_i64(&self) -> (r: Option<i64>)
        ensures
            r == i64_value(self@),
    {
        match self {
            Json::Number(n) => {
                let cs = crate::text::chars_of(n.as_str());
                if cs.len() > 1 && cs[0] == '-' {
                    let m = read_digits(&cs, 1);
                    proof {
                        assert(cs@.skip(1) =~= cs@.drop_first());
                        assert(!all_digits(cs@));
                    }
                    match m {
                        Some(v) => {
                            if v <= 9223372036854775808u64 {
                                if v == 9223372036854775808u64 {
                                    Some(i64::MIN)
                                } else {
                                    Some(-(v as i64))
                                }
                            } else {
                                None
                            }
                        },
                        None => None,
                    }
                } else {
                    let m = read_digits(&cs, 0);
                    proof {
                        assert(cs@.skip(0) =~= cs@);
                    }
                    match m {
                        Some(v) => {
                            if v <= 9223372036854775807u64 {
                                Some(v as i64)
                            } else {
                                None
                            }
                        },
                        None => None,
                    }
                }
            },
            _ => None,
        }
    }

    /// The number as a `u64`, when it is a non-negative integer that fits in one.
    pub fn as_u64(&self) -> (r: Option<u64>)
        ensures
            r == u64_value(self@),
    {
        match self {
            Json::Number(n) => {
                let cs = crate::text::chars_of(n.as_str());
                if cs.len() > 1 && cs[0] == '-' {
                    let m = read_digits(&cs, 1);
                    proof {
                        assert(cs@.skip(1) =~= cs@.drop_first());
                        assert(!all_digits(cs@));
                    }
                    match m {
                        Some(v) => {
                            if v == 0 {
                                Some(0)
                            } else {
                                None
                            }
                        },
                        None => None,
                    }
                } else {
                    let m = read_digits(&cs, 0);
                    proof {
                        assert(cs@.skip(0) =~= cs@);
                    }
                    m
                }
            },
            _ => None,
        }
    }

    pub fn as_str(&self) -> (r: Option<&str>)
        ensures
            r is None <==> text_of(self@) is None,
            r matches Some(s) ==> text_of(self@) == Some(s@),
    {
        match self {
            Json::Text(s) => Some(s.as_str()),
            _ => None,
        }
    }

    pub fn as_bool(&self) -> (r: Option<bool>)
        ensures
            r == bool_of(self@),
    {
        match self {
            Json::Bool(b) => Some(*b),
            _ => None,
        }
    }

    pub fn as_array(&self) -> (r: Option<&Vec<Json>>)
        ensures
            r is None <==> items_of(self@) is None,
            r matches Some(v) ==> items_of(self@) == Some(json_seq(v@)),
    {
        match self {
            Json::Array(items) => {
                proof {
                    lemma_array_view(*items);
                }
                Some(items)
            },
            _ => None,
        }
    }
}

} // verus!
