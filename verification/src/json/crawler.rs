use crate::json::json_value::{
    string_json_value, JsonObject, JsonPropertyKey, JsonPropertyValue, JsonValue,
};
use crate::json::errors::Errors;
use crate::json::reading_object::ReadingObject;
use crate::text::{chars_equal, chars_of, string_of, string_of_range};
use vstd::prelude::*;

verus! {

// ------------------------------------------------------------- the grammar

/// Whitespace between the tokens of a document.
pub open spec fn is_json_whitespace(c: char) -> bool {
    c == ' ' || c == '\n' || c == '\r' || c == '\t'
}

/// The first position at or after `i` that holds no whitespace.
pub open spec fn skip_whitespace(s: Seq<char>, i: int) -> int
    decreases s.len() - i,
{
    if 0 <= i < s.len() && is_json_whitespace(s[i]) {
        skip_whitespace(s, i + 1)
    } else {
        i
    }
}

pub proof fn lemma_skip_whitespace(s: Seq<char>, i: int)
    ensures
        skip_whitespace(s, i) >= i,
        i <= s.len() ==> skip_whitespace(s, i) <= s.len(),
        0 <= skip_whitespace(s, i) < s.len() ==> !is_json_whitespace(s[skip_whitespace(s, i)]),
    decreases s.len() - i,
{
    if 0 <= i < s.len() && is_json_whitespace(s[i]) {
        lemma_skip_whitespace(s, i + 1);
    }
}

/// The text of a quoted string whose characters start at `i` (just after
/// the opening quote), and the position after its closing quote. A
/// backslash makes the next character part of the text, whatever it is.
pub open spec fn string_body(s: Seq<char>, i: int) -> Option<(Seq<char>, int)>
    decreases s.len() - i,
{
    if i < 0 || i >= s.len() {
        None
    } else if s[i] == '"' {
        Some((Seq::<char>::empty(), i + 1))
    } else if s[i] == '\\' {
        if i + 1 >= s.len() {
            None
        } else {
            match string_body(s, i + 2) {
                Some((t, e)) => Some((seq![s[i + 1]] + t, e)),
                None => None,
            }
        }
    } else {
        match string_body(s, i + 1) {
            Some((t, e)) => Some((seq![s[i]] + t, e)),
            None => None,
        }
    }
}

/// A character that ends an unquoted value (a number, `true`, `null`, ...).
pub open spec fn ends_bare_value(c: char) -> bool {
    c == ',' || c == '}' || c == ']' || is_json_whitespace(c)
}

/// The position where the unquoted value that starts at `i` ends.
pub open spec fn bare_value_end(s: Seq<char>, i: int) -> int
    decreases s.len() - i,
{
    if 0 <= i < s.len() && !ends_bare_value(s[i]) {
        bare_value_end(s, i + 1)
    } else {
        i
    }
}

/// The value of an unquoted token: `null` is null, anything else is kept as
/// its text.
pub open spec fn bare_json_value(t: Seq<char>) -> JsonValue {
    if t == "null"@ {
        JsonValue::Null
    } else {
        JsonValue::Str(t)
    }
}

/// The text of a list element at `i` that is a quoted string or an unquoted
/// token, and the position after it.
pub open spec fn text_element(s: Seq<char>, i: int) -> Option<(Seq<char>, int)> {
    if i < 0 || i >= s.len() {
        None
    } else if s[i] == '"' {
        string_body(s, i + 1)
    } else if s[i] == '{' || s[i] == '[' || ends_bare_value(s[i]) {
        None
    } else {
        let e = bare_value_end(s, i);
        Some((s.subrange(i, e), e))
    }
}

/// The rest of a list of strings from `j`, after the elements `acc`; and
/// the position after its closing bracket.
pub open spec fn text_elements(s: Seq<char>, j: int, acc: Seq<Seq<char>>) -> Option<(Seq<Seq<char>>, int)>
    decreases s.len() - j,
{
    match text_element(s, j) {
        None => None,
        Some((t, d)) => {
            let e = skip_whitespace(s, d);
            if d <= j || e >= s.len() {
                None
            } else if s[e] == ',' {
                proof {
                    lemma_skip_whitespace(s, d);
                    lemma_skip_whitespace(s, e + 1);
                }
                text_elements(s, skip_whitespace(s, e + 1), acc.push(t))
            } else if s[e] == ']' {
                Some((acc.push(t), e + 1))
            } else {
                None
            }
        },
    }
}

/// The value that starts at `i`, and the position after it.
pub open spec fn parse_value(s: Seq<char>, i: int) -> Option<(JsonValue, int)>
    decreases s.len() - i, 4int,
{
    if i < 0 || i >= s.len() {
        None
    } else if s[i] == '{' {
        match parse_object(s, i) {
            Some((o, e)) => Some((JsonValue::Object(o), e)),
            None => None,
        }
    } else if s[i] == '[' {
        parse_array(s, i)
    } else if s[i] == '"' {
        match string_body(s, i + 1) {
            Some((t, e)) => Some((string_json_value(t), e)),
            None => None,
        }
    } else if ends_bare_value(s[i]) {
        None
    } else {
        let e = bare_value_end(s, i);
        Some((bare_json_value(s.subrange(i, e)), e))
    }
}

/// The list that starts with `[` at `i`, and the position after it. A list
/// holds strings (and unquoted tokens), or objects, or nothing.
pub open spec fn parse_array(s: Seq<char>, i: int) -> Option<(JsonValue, int)>
    decreases s.len() - i, 3int,
{
    if i < 0 || i >= s.len() || s[i] != '[' {
        None
    } else {
        let j = skip_whitespace(s, i + 1);
        proof {
            lemma_skip_whitespace(s, i + 1);
        }
        if j < s.len() && s[j] == ']' {
            Some((JsonValue::EmptyList, j + 1))
        } else if j < s.len() && s[j] == '{' {
            match object_elements(s, j, Seq::empty()) {
                Some((os, e)) => Some((JsonValue::ObjectList(os), e)),
                None => None,
            }
        } else {
            match text_elements(s, j, Seq::empty()) {
                Some((ts, e)) => Some((JsonValue::StrList(ts), e)),
                None => None,
            }
        }
    }
}

/// The rest of a list of objects from `j`, after the objects `acc`; and
/// the position after its closing bracket.
pub open spec fn object_elements(
    s: Seq<char>,
    j: int,
    acc: Seq<Seq<(Seq<char>, JsonValue)>>,
) -> Option<(Seq<Seq<(Seq<char>, JsonValue)>>, int)>
    decreases s.len() - j, 3int,
{
    if j < 0 || j >= s.len() || s[j] != '{' {
        None
    } else {
        match parse_object(s, j) {
            None => None,
            Some((o, d)) => {
                let e = skip_whitespace(s, d);
                if d <= j || e >= s.len() {
                    None
                } else if s[e] == ',' {
                    proof {
                        lemma_skip_whitespace(s, d);
                        lemma_skip_whitespace(s, e + 1);
                    }
                    object_elements(s, skip_whitespace(s, e + 1), acc.push(o))
                } else if s[e] == ']' {
                    Some((acc.push(o), e + 1))
                } else {
                    None
                }
            },
        }
    }
}

/// The object that starts with `{` at `i`, and the position after it.
pub open spec fn parse_object(s: Seq<char>, i: int) -> Option<(Seq<(Seq<char>, JsonValue)>, int)>
    decreases s.len() - i, 2int,
{
    if i < 0 || i >= s.len() || s[i] != '{' {
        None
    } else {
        let j = skip_whitespace(s, i + 1);
        proof {
            lemma_skip_whitespace(s, i + 1);
        }
        if j < s.len() && s[j] == '}' {
            Some((Seq::empty(), j + 1))
        } else {
            parse_members(s, j, Seq::empty())
        }
    }
}

/// The rest of an object's properties from `j`, after the properties
/// `acc`; and the position after its closing brace.
pub open spec fn parse_members(
    s: Seq<char>,
    j: int,
    acc: Seq<(Seq<char>, JsonValue)>,
) -> Option<(Seq<(Seq<char>, JsonValue)>, int)>
    decreases s.len() - j, 1int,
{
    if j < 0 || j >= s.len() || s[j] != '"' {
        None
    } else {
        match string_body(s, j + 1) {
            None => None,
            Some((k, a)) => {
                let b = skip_whitespace(s, a);
                if a <= j || b >= s.len() || s[b] != ':' {
                    None
                } else {
                    let c = skip_whitespace(s, b + 1);
                    proof {
                        lemma_skip_whitespace(s, a);
                        lemma_skip_whitespace(s, b + 1);
                    }
                    {
                        match parse_value(s, c) {
                            None => None,
                            Some((v, d)) => {
                                let e = skip_whitespace(s, d);
                                if d <= j || e >= s.len() {
                                    None
                                } else if s[e] == ',' {
                                    proof {
                                        lemma_skip_whitespace(s, d);
                                        lemma_skip_whitespace(s, e + 1);
                                    }
                                    parse_members(s, skip_whitespace(s, e + 1), acc.push((k, v)))
                                } else if s[e] == '}' {
                                    Some((acc.push((k, v)), e + 1))
                                } else {
                                    None
                                }
                            },
                        }
                    }
                }
            },
        }
    }
}

/// The object that a document holds: the first object after any leading
/// whitespace. What follows its closing brace is not read.
pub open spec fn crawl(s: Seq<char>) -> Option<Seq<(Seq<char>, JsonValue)>> {
    match parse_object(s, skip_whitespace(s, 0)) {
        Some((o, _)) => Some(o),
        None => None,
    }
}

} // verus!

verus! {

// ------------------------------------------------------------ the crawler

fn is_whitespace_char(c: char) -> (r: bool)
    ensures
        r == is_json_whitespace(c),
{
    c == ' ' || c == '\n' || c == '\r' || c == '\t'
}

fn ends_bare_value_char(c: char) -> (r: bool)
    ensures
        r == ends_bare_value(c),
{
    c == ',' || c == '}' || c == ']' || is_whitespace_char(c)
}

fn skip_whitespace_from(s: &Vec<char>, i: usize) -> (r: usize)
    requires
        i <= s.len(),
    ensures
        r == skip_whitespace(s@, i as int),
        i <= r <= s.len(),
{
    let mut k = i;
    while k < s.len() && is_whitespace_char(s[k])
        invariant
            i <= k <= s.len(),
            skip_whitespace(s@, i as int) == skip_whitespace(s@, k as int),
        decreases s.len() - k,
    {
        k = k + 1;
    }
    k
}

fn bare_value_end_from(s: &Vec<char>, i: usize) -> (r: usize)
    requires
        i <= s.len(),
    ensures
        r == bare_value_end(s@, i as int),
        i <= r <= s.len(),
{
    let mut k = i;
    while k < s.len() && !ends_bare_value_char(s[k])
        invariant
            i <= k <= s.len(),
            bare_value_end(s@, i as int) == bare_value_end(s@, k as int),
        decreases s.len() - k,
    {
        k = k + 1;
    }
    k
}

fn string_body_from(s: &Vec<char>, i: usize) -> (r: Option<(Vec<char>, usize)>)
    requires
        i <= s.len(),
    ensures
        match r {
            Some((t, e)) => string_body(s@, i as int) == Some((t@, e as int)) && i < e <= s.len(),
            None => string_body(s@, i as int) is None,
        },
{
    let mut out: Vec<char> = Vec::new();
    let mut k = i;
    while k < s.len()
        invariant
            i <= k <= s.len(),
            string_body(s@, i as int) == (match string_body(s@, k as int) {
                Some((t, e)) => Some((out@ + t, e)),
                None => None,
            }),
        decreases s.len() - k,
    {
        let c = s[k];
        if c == '"' {
            assert(out@ + Seq::<char>::empty() =~= out@);
            return Some((out, k + 1));
        } else if c == '\\' {
            if k + 1 >= s.len() {
                return None;
            }
            let ghost before = out@;
            out.push(s[k + 1]);
            proof {
                match string_body(s@, (k + 2) as int) {
                    Some((t, e)) => {
                        assert(before + (seq![s@[k + 1]] + t) =~= out@ + t);
                    },
                    None => {},
                }
            }
            k = k + 2;
        } else {
            let ghost before = out@;
            out.push(c);
            proof {
                match string_body(s@, (k + 1) as int) {
                    Some((t, e)) => {
                        assert(before + (seq![c] + t) =~= out@ + t);
                    },
                    None => {},
                }
            }
            k = k + 1;
        }
    }
    None
}

fn text_element_at(s: &Vec<char>, i: usize) -> (r: Option<(Vec<char>, usize)>)
    requires
        i <= s.len(),
    ensures
        match r {
            Some((t, e)) => text_element(s@, i as int) == Some((t@, e as int)) && e <= s.len(),
            None => text_element(s@, i as int) is None,
        },
{
    if i >= s.len() {
        return None;
    }
    let c = s[i];
    if c == '"' {
        string_body_from(s, i + 1)
    } else if c == '{' || c == '[' || ends_bare_value_char(c) {
        None
    } else {
        let e = bare_value_end_from(s, i);
        let mut t: Vec<char> = Vec::new();
        let mut k = i;
        while k < e
            invariant
                i <= k <= e <= s.len(),
                t@ == s@.subrange(i as int, k as int),
            decreases e - k,
        {
            t.push(s[k]);
            k = k + 1;
            assert(t@ =~= s@.subrange(i as int, k as int));
        }
        Some((t, e))
    }
}

/// The strings of `pieces`.
fn strings_of(pieces: &Vec<Vec<char>>) -> (r: Vec<String>)
    ensures
        r.deep_view() == pieces.deep_view(),
{
    let r = crate::text::strings_from(pieces, 0);
    assert(pieces.deep_view().skip(0) =~= pieces.deep_view());
    r
}

fn parse_value_at(s: &Vec<char>, i: usize) -> (r: Option<(JsonPropertyValue, usize)>)
    requires
        i <= s.len(),
    ensures
        match r {
            Some((v, e)) => parse_value(s@, i as int) == Some((v@, e as int)) && e <= s.len(),
            None => parse_value(s@, i as int) is None,
        },
    decreases s.len() - i, 4int,
{
    if i >= s.len() {
        return None;
    }
    let c = s[i];
    if c == '{' {
        match parse_object_at(s, i) {
            Some((o, e)) => Some((JsonPropertyValue::new_with_object(o), e)),
            None => None,
        }
    } else if c == '[' {
        parse_array_at(s, i)
    } else if c == '"' {
        match string_body_from(s, i + 1) {
            Some((t, e)) => Some((JsonPropertyValue::new_with_string(string_of(&t)), e)),
            None => None,
        }
    } else if ends_bare_value_char(c) {
        None
    } else {
        let e = bare_value_end_from(s, i);
        let t = string_of_range(s, i, e);
        if chars_equal(&chars_of(t.as_str()), &chars_of("null")) {
            Some((JsonPropertyValue::new_with_string(String::new()), e))
        } else {
            assert(t@.len() > 0) by {
                assert(bare_value_end(s@, i as int) == bare_value_end(s@, i + 1));
                proof_bare_value_end_ge(s@, i + 1);
            }
            Some((JsonPropertyValue::new_with_string(t), e))
        }
    }
}

proof fn proof_bare_value_end_ge(s: Seq<char>, i: int)
    ensures
        bare_value_end(s, i) >= i,
    decreases s.len() - i,
{
    if 0 <= i < s.len() && !ends_bare_value(s[i]) {
        proof_bare_value_end_ge(s, i + 1);
    }
}

fn parse_array_at(s: &Vec<char>, i: usize) -> (r: Option<(JsonPropertyValue, usize)>)
    requires
        i <= s.len(),
    ensures
        match r {
            Some((v, e)) => parse_array(s@, i as int) == Some((v@, e as int)) && e <= s.len(),
            None => parse_array(s@, i as int) is None,
        },
    decreases s.len() - i, 3int,
{
    if i >= s.len() || s[i] != '[' {
        return None;
    }
    let j0 = skip_whitespace_from(s, i + 1);
    if j0 < s.len() && s[j0] == ']' {
        return Some((JsonPropertyValue::new_with_empty_list(), j0 + 1));
    }
    if j0 < s.len() && s[j0] == '{' {
        let mut objects: Vec<JsonObject> = Vec::new();
        let mut j = j0;
        assert(objects@.map_values(|o: JsonObject| o@) =~= Seq::<Seq<(Seq<char>, JsonValue)>>::empty());
        loop
            invariant
                i < j0 <= j <= s.len(),
                parse_array(s@, i as int) == (match object_elements(s@, j0 as int, Seq::empty()) {
                    Some((os, e)) => Some((JsonValue::ObjectList(os), e)),
                    None => None,
                }),
                object_elements(s@, j0 as int, Seq::empty()) == object_elements(
                    s@,
                    j as int,
                    objects@.map_values(|o: JsonObject| o@),
                ),
            decreases s.len() - j,
        {
            if j >= s.len() || s[j] != '{' {
                return None;
            }
            let ghost acc = objects@.map_values(|o: JsonObject| o@);
            match parse_object_at(s, j) {
                None => {
                    return None;
                },
                Some((o, d)) => {
                    let e = skip_whitespace_from(s, d);
                    if d <= j || e >= s.len() {
                        return None;
                    }
                    let ghost ov = o@;
                    objects.push(o);
                    assert(objects@.map_values(|o: JsonObject| o@) =~= acc.push(ov));
                    if s[e] == ',' {
                        j = skip_whitespace_from(s, e + 1);
                    } else if s[e] == ']' {
                        let v = JsonPropertyValue::new_with_object_vector(objects);
                        return Some((v, e + 1));
                    } else {
                        return None;
                    }
                },
            }
        }
    } else {
        let mut texts: Vec<Vec<char>> = Vec::new();
        let mut j = j0;
        assert(texts.deep_view() =~= Seq::<Seq<char>>::empty());
        loop
            invariant
                i < j0 <= j <= s.len(),
                parse_array(s@, i as int) == (match text_elements(s@, j0 as int, Seq::empty()) {
                    Some((ts, e)) => Some((JsonValue::StrList(ts), e)),
                    None => None,
                }),
                text_elements(s@, j0 as int, Seq::empty()) == text_elements(
                    s@,
                    j as int,
                    texts.deep_view(),
                ),
            decreases s.len() - j,
        {
            let ghost acc = texts.deep_view();
            match text_element_at(s, j) {
                None => {
                    return None;
                },
                Some((t, d)) => {
                    let e = skip_whitespace_from(s, d);
                    if d <= j || e >= s.len() {
                        return None;
                    }
                    let ghost tv = t@;
                    assert(t.deep_view() =~= t@);
                    texts.push(t);
                    assert(texts.deep_view() =~= acc.push(tv));
                    if s[e] == ',' {
                        j = skip_whitespace_from(s, e + 1);
                    } else if s[e] == ']' {
                        let strings = strings_of(&texts);
                        let v = JsonPropertyValue::new_with_string_vector(strings);
                        return Some((v, e + 1));
                    } else {
                        return None;
                    }
                },
            }
        }
    }
}

fn parse_object_at(s: &Vec<char>, i: usize) -> (r: Option<(JsonObject, usize)>)
    requires
        i <= s.len(),
    ensures
        match r {
            Some((o, e)) => parse_object(s@, i as int) == Some((o@, e as int)) && e <= s.len(),
            None => parse_object(s@, i as int) is None,
        },
    decreases s.len() - i, 2int,
{
    if i >= s.len() || s[i] != '{' {
        return None;
    }
    let j0 = skip_whitespace_from(s, i + 1);
    let mut reading = ReadingObject::new();
    if j0 < s.len() && s[j0] == '}' {
        reading.register_ending_curly_brace();
        return Some((reading.built_value(), j0 + 1));
    }
    let mut j = j0;
    loop
        invariant
            i < j0 <= j <= s.len(),
            !reading.spec_finalized(),
            parse_object(s@, i as int) == parse_members(s@, j0 as int, Seq::empty()),
            parse_members(s@, j0 as int, Seq::empty()) == parse_members(
                s@,
                j as int,
                reading.spec_value(),
            ),
        decreases s.len() - j,
    {
        if j >= s.len() || s[j] != '"' {
            return None;
        }
        let (key, a) = match string_body_from(s, j + 1) {
            None => {
                return None;
            },
            Some(found) => found,
        };
        let b = skip_whitespace_from(s, a);
        if b >= s.len() || s[b] != ':' {
            return None;
        }
        let c = skip_whitespace_from(s, b + 1);
        let (value, d) = match parse_value_at(s, c) {
            None => {
                return None;
            },
            Some(found) => found,
        };
        let e = skip_whitespace_from(s, d);
        if d <= j || e >= s.len() {
            return None;
        }
        reading.add_property(JsonPropertyKey::new(string_of(&key)), value);
        if s[e] == ',' {
            j = skip_whitespace_from(s, e + 1);
        } else if s[e] == '}' {
            reading.register_ending_curly_brace();
            return Some((reading.built_value(), e + 1));
        } else {
            return None;
        }
    }
}

/// Reads the object that a document holds, or `None` where the document
/// holds none the crawler reads.
pub fn try_crawl_json(json: &str) -> (r: Result<JsonObject, Errors>)
    ensures
        match r {
            Ok(o) => crawl(json@) == Some(o@),
            Err(e) => crawl(json@) is None && e == Errors::JsonParseError,
        },
{
    let s = chars_of(json);
    let start = skip_whitespace_from(&s, 0);
    match parse_object_at(&s, start) {
        Some((o, _)) => Ok(o),
        None => Err(Errors::JsonParseError),
    }
}

/// Reads the object that a document holds. The document must hold one.
pub fn crawl_json(json: &str) -> (o: JsonObject)
    requires
        crawl(json@) is Some,
    ensures
        crawl(json@) == Some(o@),
{
    match try_crawl_json(json) {
        Ok(o) => o,
        Err(_) => JsonObject::new(),
    }
}

} // verus!

verus! {

// ------------------------------------------- text after a document's object

proof fn lemma_ws_extend(s: Seq<char>, t: Seq<char>, i: int)
    requires
        skip_whitespace(s, i) < s.len(),
    ensures
        skip_whitespace(s + t, i) == skip_whitespace(s, i),
    decreases s.len() - i,
{
    lemma_skip_whitespace(s, i);
    if 0 <= i < s.len() {
        assert((s + t)[i] == s[i]);
        if is_json_whitespace(s[i]) {
            lemma_ws_extend(s, t, i + 1);
        }
    }
}

proof fn lemma_bare_extend(s: Seq<char>, t: Seq<char>, i: int)
    requires
        bare_value_end(s, i) < s.len(),
    ensures
        bare_value_end(s + t, i) == bare_value_end(s, i),
    decreases s.len() - i,
{
    if 0 <= i < s.len() {
        assert((s + t)[i] == s[i]);
        if !ends_bare_value(s[i]) {
            lemma_bare_extend(s, t, i + 1);
        }
    }
}

proof fn lemma_string_extend(s: Seq<char>, t: Seq<char>, i: int)
    requires
        string_body(s, i) is Some,
    ensures
        string_body(s + t, i) == string_body(s, i),
    decreases s.len() - i,
{
    assert((s + t)[i] == s[i]);
    if s[i] == '\\' {
        assert((s + t)[i + 1] == s[i + 1]);
        lemma_string_extend(s, t, i + 2);
    } else if s[i] != '"' {
        lemma_string_extend(s, t, i + 1);
    }
}

proof fn lemma_bare_end_bounds(s: Seq<char>, i: int)
    ensures
        bare_value_end(s, i) >= i,
    decreases s.len() - i,
{
    if 0 <= i < s.len() && !ends_bare_value(s[i]) {
        lemma_bare_end_bounds(s, i + 1);
    }
}

proof fn lemma_text_element_extend(s: Seq<char>, t: Seq<char>, i: int)
    requires
        text_element(s, i) matches Some((_, d)) && d < s.len(),
    ensures
        text_element(s + t, i) == text_element(s, i),
{
    assert((s + t)[i] == s[i]);
    if s[i] == '"' {
        lemma_string_extend(s, t, i + 1);
    } else {
        let e = bare_value_end(s, i);
        lemma_bare_extend(s, t, i);
        lemma_bare_end_bounds(s, i);
        assert((s + t).subrange(i, e) =~= s.subrange(i, e));
    }
}

proof fn lemma_text_elements_extend(s: Seq<char>, t: Seq<char>, j: int, acc: Seq<Seq<char>>)
    requires
        text_elements(s, j, acc) is Some,
    ensures
        text_elements(s + t, j, acc) == text_elements(s, j, acc),
    decreases s.len() - j,
{
    let (x, d) = text_element(s, j).unwrap();
    let e = skip_whitespace(s, d);
    lemma_skip_whitespace(s, d);
    lemma_text_element_extend(s, t, j);
    lemma_ws_extend(s, t, d);
    assert((s + t)[e] == s[e]);
    if s[e] == ',' {
        let n = skip_whitespace(s, e + 1);
        lemma_skip_whitespace(s, e + 1);
        assert(text_elements(s, n, acc.push(x)) is Some);
        assert(text_element(s, n) is Some);
        lemma_ws_extend(s, t, e + 1);
        lemma_text_elements_extend(s, t, n, acc.push(x));
    }
}

proof fn lemma_value_extend(s: Seq<char>, t: Seq<char>, i: int)
    requires
        parse_value(s, i) matches Some((_, d)) && skip_whitespace(s, d) < s.len(),
    ensures
        parse_value(s + t, i) == parse_value(s, i),
    decreases s.len() - i, 4int,
{
    assert((s + t)[i] == s[i]);
    if s[i] == '{' {
        lemma_object_extend(s, t, i);
    } else if s[i] == '[' {
        lemma_array_extend(s, t, i);
    } else if s[i] == '"' {
        lemma_string_extend(s, t, i + 1);
    } else {
        let e = bare_value_end(s, i);
        lemma_skip_whitespace(s, e);
        lemma_bare_extend(s, t, i);
        lemma_bare_end_bounds(s, i);
        assert((s + t).subrange(i, e) =~= s.subrange(i, e));
    }
}

proof fn lemma_array_extend(s: Seq<char>, t: Seq<char>, i: int)
    requires
        parse_array(s, i) is Some,
    ensures
        parse_array(s + t, i) == parse_array(s, i),
    decreases s.len() - i, 3int,
{
    assert((s + t)[i] == s[i]);
    let j = skip_whitespace(s, i + 1);
    lemma_skip_whitespace(s, i + 1);
    if j < s.len() {
        lemma_ws_extend(s, t, i + 1);
        assert((s + t)[j] == s[j]);
        if s[j] == ']' {
        } else if s[j] == '{' {
            lemma_object_elements_extend(s, t, j, Seq::empty());
        } else {
            lemma_text_elements_extend(s, t, j, Seq::empty());
        }
    } else {
        assert(text_elements(s, j, Seq::empty()) is None);
    }
}

proof fn lemma_object_elements_extend(
    s: Seq<char>,
    t: Seq<char>,
    j: int,
    acc: Seq<Seq<(Seq<char>, JsonValue)>>,
)
    requires
        object_elements(s, j, acc) is Some,
    ensures
        object_elements(s + t, j, acc) == object_elements(s, j, acc),
    decreases s.len() - j, 3int,
{
    assert((s + t)[j] == s[j]);
    let (o, d) = parse_object(s, j).unwrap();
    let e = skip_whitespace(s, d);
    lemma_skip_whitespace(s, d);
    lemma_object_extend(s, t, j);
    lemma_ws_extend(s, t, d);
    assert((s + t)[e] == s[e]);
    if s[e] == ',' {
        let n = skip_whitespace(s, e + 1);
        lemma_skip_whitespace(s, e + 1);
        assert(object_elements(s, n, acc.push(o)) is Some);
        assert(n < s.len());
        lemma_ws_extend(s, t, e + 1);
        lemma_object_elements_extend(s, t, n, acc.push(o));
    }
}

proof fn lemma_object_extend(s: Seq<char>, t: Seq<char>, i: int)
    requires
        parse_object(s, i) is Some,
    ensures
        parse_object(s + t, i) == parse_object(s, i),
    decreases s.len() - i, 2int,
{
    assert((s + t)[i] == s[i]);
    let j = skip_whitespace(s, i + 1);
    lemma_skip_whitespace(s, i + 1);
    if j < s.len() {
        lemma_ws_extend(s, t, i + 1);
        assert((s + t)[j] == s[j]);
        if s[j] != '}' {
            lemma_members_extend(s, t, j, Seq::empty());
        }
    } else {
        assert(parse_members(s, j, Seq::empty()) is None);
    }
}

proof fn lemma_members_extend(s: Seq<char>, t: Seq<char>, j: int, acc: Seq<(Seq<char>, JsonValue)>)
    requires
        parse_members(s, j, acc) is Some,
    ensures
        parse_members(s + t, j, acc) == parse_members(s, j, acc),
    decreases s.len() - j, 1int,
{
    assert((s + t)[j] == s[j]);
    let (k, a) = string_body(s, j + 1).unwrap();
    lemma_string_extend(s, t, j + 1);
    let b = skip_whitespace(s, a);
    lemma_skip_whitespace(s, a);
    lemma_ws_extend(s, t, a);
    assert((s + t)[b] == s[b]);
    let c = skip_whitespace(s, b + 1);
    lemma_skip_whitespace(s, b + 1);
    assert(parse_value(s, c) is Some);
    lemma_ws_extend(s, t, b + 1);
    let (v, d) = parse_value(s, c).unwrap();
    let e = skip_whitespace(s, d);
    lemma_skip_whitespace(s, d);
    lemma_value_extend(s, t, c);
    lemma_ws_extend(s, t, d);
    assert((s + t)[e] == s[e]);
    if s[e] == ',' {
        let n = skip_whitespace(s, e + 1);
        lemma_skip_whitespace(s, e + 1);
        assert(parse_members(s, n, acc.push((k, v))) is Some);
        assert(n < s.len());
        lemma_ws_extend(s, t, e + 1);
        lemma_members_extend(s, t, n, acc.push((k, v)));
    }
}

/// The crawler reads a document's object and nothing after it: text added
/// after a document that it reads does not change what it reads.
pub proof fn lemma_crawl_ignores_what_follows(document: Seq<char>, rest: Seq<char>)
    requires
        crawl(document) is Some,
    ensures
        crawl(document + rest) == crawl(document),
{
    let i = skip_whitespace(document, 0);
    lemma_skip_whitespace(document, 0);
    assert(i < document.len());
    lemma_ws_extend(document, rest, 0);
    lemma_object_extend(document, rest, i);
}

} // verus!

verus! {

// ------------------------------------------- whitespace around a bare value

/// Every character of `w` is whitespace.
pub open spec fn all_json_whitespace(w: Seq<char>) -> bool {
    forall|i: int| 0 <= i < w.len() ==> is_json_whitespace(#[trigger] w[i])
}

/// An unquoted token such as a number, `true` or `null`: not empty, not
/// opening an object, a list or a string, and holding no whitespace, comma
/// or closing bracket.
pub open spec fn is_bare_token(t: Seq<char>) -> bool {
    &&& t.len() > 0
    &&& t[0] != '{' && t[0] != '[' && t[0] != '"'
    &&& forall|i: int|
        0 <= i < t.len() ==> !is_json_whitespace(#[trigger] t[i]) && t[i] != ',' && t[i] != '}'
            && t[i] != ']'
}

/// The document `{w1"key":w2 token w3}`: one property whose value is an
/// unquoted token, with whitespace `w1`, `w2` and `w3` around it.
pub open spec fn bare_property_document(
    w1: Seq<char>,
    key: Seq<char>,
    w2: Seq<char>,
    token: Seq<char>,
    w3: Seq<char>,
) -> Seq<char> {
    seq!['{'] + w1 + seq!['"'] + key + seq!['"', ':'] + w2 + token + w3 + seq!['}']
}

proof fn lemma_skip_run(s: Seq<char>, i: int, n: int)
    requires
        0 <= i,
        0 <= n,
        i + n < s.len(),
        forall|m: int| i <= m < i + n ==> is_json_whitespace(#[trigger] s[m]),
        !is_json_whitespace(s[i + n]),
    ensures
        skip_whitespace(s, i) == i + n,
    decreases n,
{
    if n > 0 {
        assert(is_json_whitespace(s[i]));
        lemma_skip_run(s, i + 1, n - 1);
    }
}

proof fn lemma_bare_run(s: Seq<char>, i: int, n: int)
    requires
        0 <= i,
        0 <= n,
        i + n < s.len(),
        forall|m: int| i <= m < i + n ==> !ends_bare_value(#[trigger] s[m]),
        ends_bare_value(s[i + n]),
    ensures
        bare_value_end(s, i) == i + n,
    decreases n,
{
    if n > 0 {
        assert(!ends_bare_value(s[i]));
        lemma_bare_run(s, i + 1, n - 1);
    }
}

proof fn lemma_string_run(s: Seq<char>, i: int, n: int)
    requires
        0 <= i,
        0 <= n,
        i + n < s.len(),
        forall|m: int| i <= m < i + n ==> #[trigger] s[m] != '"' && s[m] != '\\',
        s[i + n] == '"',
    ensures
        string_body(s, i) == Some((s.subrange(i, i + n), i + n + 1)),
    decreases n,
{
    if n == 0 {
        assert(s.subrange(i, i) =~= Seq::<char>::empty());
    } else {
        assert(s[i] != '"' && s[i] != '\\');
        lemma_string_run(s, i + 1, n - 1);
        assert(seq![s[i]] + s.subrange(i + 1, i + n) =~= s.subrange(i, i + n));
    }
}

/// Whitespace around an unquoted value is not part of it: in a document of
/// one property whose value is a token such as a number, `true` or `null`,
/// the crawler reads the key and exactly the token, whatever whitespace
/// stands before the key, after the colon and before the closing brace.
pub proof fn lemma_bare_value_then_whitespace(
    w1: Seq<char>,
    key: Seq<char>,
    w2: Seq<char>,
    token: Seq<char>,
    w3: Seq<char>,
)
    requires
        all_json_whitespace(w1),
        all_json_whitespace(w2),
        all_json_whitespace(w3),
        forall|i: int| 0 <= i < key.len() ==> #[trigger] key[i] != '"' && key[i] != '\\',
        is_bare_token(token),
    ensures
        crawl(bare_property_document(w1, key, w2, token, w3)) == Some(
            seq![
                (key, if token == "null"@ {
                    JsonValue::Null
                } else {
                    JsonValue::Str(token)
                }),
            ],
        ),
{
    let s = bare_property_document(w1, key, w2, token, w3);
    let j: int = (w1.len() + 1) as int;
    let a: int = j + 1 + key.len() + 1;
    let c: int = a + 1 + w2.len();
    let d: int = c + token.len();
    let e: int = d + w3.len();
    assert(s.len() == e + 1);
    assert(s[0] == '{');
    assert(!is_json_whitespace(s[0]));
    assert(skip_whitespace(s, 0) == 0);
    // the whitespace before the key
    assert forall|m: int| 1 <= m < j implies is_json_whitespace(#[trigger] s[m]) by {
        assert(s[m] == w1[m - 1]);
    }
    assert(s[j] == '"');
    lemma_skip_run(s, 1, w1.len() as int);
    // the key
    assert forall|m: int| j + 1 <= m < j + 1 + key.len() implies #[trigger] s[m] != '"' && s[m]
        != '\\' by {
        assert(s[m] == key[m - j - 1]);
    }
    assert(s[j + 1 + key.len()] == '"');
    lemma_string_run(s, j + 1, key.len() as int);
    assert(s.subrange(j + 1, j + 1 + key.len()) =~= key);
    // the colon and the whitespace after it
    assert(s[a] == ':');
    assert(skip_whitespace(s, a) == a);
    assert forall|m: int| a + 1 <= m < c implies is_json_whitespace(#[trigger] s[m]) by {
        assert(s[m] == w2[m - a - 1]);
    }
    assert(s[c] == token[0]);
    lemma_skip_run(s, a + 1, w2.len() as int);
    // the token, ended by the first whitespace or the closing brace
    assert forall|m: int| c <= m < d implies !ends_bare_value(#[trigger] s[m]) by {
        assert(s[m] == token[m - c]);
    }
    if w3.len() > 0 {
        assert(s[d] == w3[0]);
    } else {
        assert(s[d] == '}');
    }
    lemma_bare_run(s, c, token.len() as int);
    assert(s.subrange(c, d) =~= token);
    // the whitespace before the closing brace
    assert forall|m: int| d <= m < e implies is_json_whitespace(#[trigger] s[m]) by {
        assert(s[m] == w3[m - d]);
    }
    assert(s[e] == '}');
    lemma_skip_run(s, d, w3.len() as int);
    assert(Seq::<(Seq<char>, JsonValue)>::empty().push((key, bare_json_value(token)))
        =~= seq![(key, bare_json_value(token))]);
}

} // verus!
