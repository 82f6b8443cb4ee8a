//! A verified parser for the JSON subset the service speaks: `null`,
//! `true`, `false`, unsigned integers, strings with the usual one-letter
//! escapes, arrays and objects.  The grammar is stated as a family of
//! spec functions over a character sequence, and the executable parser
//! is proved to return exactly what the grammar says.

use vstd::prelude::*;
use vstd::string::StringExecFns;

use crate::text::push_char;
use crate::text::to_chars;

verus! {

broadcast use vstd::std_specs::vec::axiom_vec_index_decreases;

/// A decoded JSON document.
pub enum Json {
    /// The literal `null`.
    Null,
    /// The literals `true` and `false`.
    Bool(bool),
    /// An unsigned integer numeral.
    Num(u64),
    /// A string, with escape sequences decoded.
    Str(String),
    /// An array, in source order.
    Arr(Vec<Json>),
    /// An object: its members in source order.
    Obj(Vec<Member>),
}

/// One `"key": value` member of a JSON object.
pub struct Member {
    /// The member's key, with escape sequences decoded.
    pub key: String,
    /// The member's value.
    pub value: Json,
}

/// Mathematical model of a decoded JSON document.
pub ghost enum JsonV {
    Null,
    Bool(bool),
    Num(u64),
    Str(Seq<char>),
    Arr(Seq<JsonV>),
    Obj(Seq<(Seq<char>, JsonV)>),
}

/// The model of a decoded document: structure kept, strings as
/// character sequences.
pub open spec fn json_view(j: Json) -> JsonV
    decreases j,
{
    match j {
        Json::Null => JsonV::Null,
        Json::Bool(b) => JsonV::Bool(b),
        Json::Num(n) => JsonV::Num(n),
        Json::Str(s) => JsonV::Str(s@),
        Json::Arr(v) => JsonV::Arr(json_list_view(v@)),
        Json::Obj(m) => JsonV::Obj(member_list_view(m@)),
    }
}

/// The models of a sequence of decoded documents, elementwise.
pub open spec fn json_list_view(v: Seq<Json>) -> Seq<JsonV>
    decreases v,
{
    if v.len() == 0 {
        Seq::empty()
    } else {
        seq![json_view(v[0])] + json_list_view(v.drop_first())
    }
}

/// The models of a sequence of object members, elementwise.
pub open spec fn member_list_view(m: Seq<Member>) -> Seq<(Seq<char>, JsonV)>
    decreases m,
{
    if m.len() == 0 {
        Seq::empty()
    } else {
        seq![(m[0].key@, json_view(m[0].value))] + member_list_view(m.drop_first())
    }
}

impl View for Json {
    type V = JsonV;

    open spec fn view(&self) -> JsonV {
        json_view(*self)
    }
}

/// `json_list_view` maps its sequence elementwise.
pub proof fn lemma_json_list_view(v: Seq<Json>)
    ensures
        json_list_view(v).len() == v.len(),
        forall|k: int| 0 <= k < v.len() ==> json_list_view(v)[k] == json_view(v[k]),
    decreases v.len(),
{
    if v.len() > 0 {
        lemma_json_list_view(v.drop_first());
    }
}

/// `member_list_view` maps its sequence elementwise.
pub proof fn lemma_member_list_view(m: Seq<Member>)
    ensures
        member_list_view(m).len() == m.len(),
        forall|k: int|
            0 <= k < m.len() ==> member_list_view(m)[k] == (m[k].key@, json_view(m[k].value)),
    decreases m.len(),
{
    if m.len() > 0 {
        lemma_member_list_view(m.drop_first());
    }
}

/// JSON insignificant whitespace.
pub open spec fn is_ws(c: char) -> bool {
    c == ' ' || c == '\n' || c == '\r' || c == '\t'
}

/// A decimal digit.
pub open spec fn is_digit(c: char) -> bool {
    48 <= c as u32 <= 57
}

/// The first position at or after `i` holding no whitespace.
pub open spec fn skip_ws(s: Seq<char>, i: int) -> int
    decreases s.len() - i,
{
    if 0 <= i < s.len() && is_ws(s[i]) {
        skip_ws(s, i + 1)
    } else {
        i
    }
}

/// Reads a run of digits starting at `i`, folding them onto `acc`;
/// yields the value and the position after the run.
pub open spec fn spec_digits(s: Seq<char>, i: int, acc: nat) -> (nat, int)
    decreases s.len() - i,
{
    if 0 <= i < s.len() && is_digit(s[i]) {
        spec_digits(s, i + 1, (acc * 10 + (s[i] as u32 - 48)) as nat)
    } else {
        (acc, i)
    }
}

pub proof fn lemma_digits_bounds(s: Seq<char>, i: int, acc: nat)
    requires
        0 <= i <= s.len(),
    ensures
        i <= spec_digits(s, i, acc).1 <= s.len(),
        spec_digits(s, i, acc).0 >= acc,
    decreases s.len() - i,
{
    if i < s.len() && is_digit(s[i]) {
        lemma_digits_bounds(s, i + 1, (acc * 10 + (s[i] as u32 - 48)) as nat);
    }
}

/// What a one-letter escape decodes to, where it is one.
pub open spec fn escape_char(c: char) -> Option<char> {
    if c == '"' {
        Some('"')
    } else if c == '\\' {
        Some('\\')
    } else if c == '/' {
        Some('/')
    } else if c == 'n' {
        Some('\n')
    } else if c == 't' {
        Some('\t')
    } else if c == 'r' {
        Some('\r')
    } else if c == 'b' {
        Some('\u{8}')
    } else if c == 'f' {
        Some('\u{c}')
    } else {
        None
    }
}

/// Reads the rest of a string literal, `i` standing just after the
/// opening quote; yields the decoded contents and the position after
/// the closing quote.
pub open spec fn spec_string_rest(s: Seq<char>, i: int) -> Option<(Seq<char>, int)>
    decreases s.len() - i,
{
    if !(0 <= i < s.len()) {
        None
    } else if s[i] == '"' {
        Some((Seq::empty(), i + 1))
    } else if s[i] == '\\' {
        if i + 1 < s.len() {
            match escape_char(s[i + 1]) {
                Some(c) => match spec_string_rest(s, i + 2) {
                    Some((rest, j)) => Some((seq![c] + rest, j)),
                    None => None,
                },
                None => None,
            }
        } else {
            None
        }
    } else if s[i] as u32 >= 32 {
        match spec_string_rest(s, i + 1) {
            Some((rest, j)) => Some((seq![s[i]] + rest, j)),
            None => None,
        }
    } else {
        None
    }
}

/// Reads one JSON value starting exactly at `i` (no leading
/// whitespace); yields its model and the position just after it.
pub open spec fn spec_value(s: Seq<char>, i: int) -> Option<(JsonV, int)>
    decreases s.len() - i, 0int,
{
    if !(0 <= i < s.len()) {
        None
    } else {
        let c = s[i];
        if c == 'n' {
            if i + 4 <= s.len() && s[i + 1] == 'u' && s[i + 2] == 'l' && s[i + 3] == 'l' {
                Some((JsonV::Null, i + 4))
            } else {
                None
            }
        } else if c == 't' {
            if i + 4 <= s.len() && s[i + 1] == 'r' && s[i + 2] == 'u' && s[i + 3] == 'e' {
                Some((JsonV::Bool(true), i + 4))
            } else {
                None
            }
        } else if c == 'f' {
            if i + 5 <= s.len() && s[i + 1] == 'a' && s[i + 2] == 'l' && s[i + 3] == 's'
                && s[i + 4] == 'e' {
                Some((JsonV::Bool(false), i + 5))
            } else {
                None
            }
        } else if c == '"' {
            match spec_string_rest(s, i + 1) {
                Some((cs, j)) => Some((JsonV::Str(cs), j)),
                None => None,
            }
        } else if is_digit(c) {
            let n = spec_digits(s, i, 0).0;
            let j = spec_digits(s, i, 0).1;
            if n <= u64::MAX && !(c == '0' && j > i + 1) {
                Some((JsonV::Num(n as u64), j))
            } else {
                None
            }
        } else if c == '[' {
            spec_arr_rest(s, i + 1)
        } else if c == '{' {
            spec_obj_rest(s, i + 1)
        } else {
            None
        }
    }
}

/// Reads the rest of an array, `i` standing just after the `[`.
pub open spec fn spec_arr_rest(s: Seq<char>, i: int) -> Option<(JsonV, int)>
    decreases s.len() - i, 2int,
{
    if !(0 <= i <= s.len()) {
        None
    } else {
        let j = skip_ws(s, i);
        if !(i <= j <= s.len()) {
            None
        } else if j < s.len() && s[j] == ']' {
            Some((JsonV::Arr(Seq::empty()), j + 1))
        } else {
            match spec_value(s, j) {
                Some((v, e)) => if j < e <= s.len() {
                    spec_arr_tail(s, e, seq![v])
                } else {
                    None
                },
                None => None,
            }
        }
    }
}

/// Reads the rest of an array after an element ending at `i`, carrying
/// the elements read so far.
pub open spec fn spec_arr_tail(s: Seq<char>, i: int, acc: Seq<JsonV>) -> Option<(JsonV, int)>
    decreases s.len() - i, 1int,
{
    if !(0 <= i <= s.len()) {
        None
    } else {
        let j = skip_ws(s, i);
        if !(i <= j < s.len()) {
            None
        } else if s[j] == ']' {
            Some((JsonV::Arr(acc), j + 1))
        } else if s[j] == ',' {
            let m = skip_ws(s, j + 1);
            if !(j < m <= s.len()) {
                None
            } else {
                match spec_value(s, m) {
                    Some((v, e)) => if m < e <= s.len() {
                        spec_arr_tail(s, e, acc.push(v))
                    } else {
                        None
                    },
                    None => None,
                }
            }
        } else {
            None
        }
    }
}

/// Reads the rest of an object, `i` standing just after the `{`.
pub open spec fn spec_obj_rest(s: Seq<char>, i: int) -> Option<(JsonV, int)>
    decreases s.len() - i, 2int,
{
    if !(0 <= i <= s.len()) {
        None
    } else {
        let j = skip_ws(s, i);
        if !(i <= j < s.len()) {
            None
        } else if s[j] == '}' {
            Some((JsonV::Obj(Seq::empty()), j + 1))
        } else if s[j] == '"' {
            spec_obj_members(s, j, Seq::empty())
        } else {
            None
        }
    }
}

/// Reads object members, `i` standing at the opening quote of a key,
/// carrying the members read so far.
pub open spec fn spec_obj_members(
    s: Seq<char>,
    i: int,
    acc: Seq<(Seq<char>, JsonV)>,
) -> Option<(JsonV, int)>
    decreases s.len() - i, 1int,
{
    if !(0 <= i < s.len() && s[i] == '"') {
        None
    } else {
        match spec_string_rest(s, i + 1) {
            Some((k, e1)) => if !(i < e1 <= s.len()) {
                None
            } else {
                let j = skip_ws(s, e1);
                if !(e1 <= j < s.len() && s[j] == ':') {
                    None
                } else {
                    let m = skip_ws(s, j + 1);
                    if !(j < m <= s.len()) {
                        None
                    } else {
                        match spec_value(s, m) {
                            Some((v, e)) => if !(m < e <= s.len()) {
                                None
                            } else {
                                let acc2 = acc.push((k, v));
                                let j2 = skip_ws(s, e);
                                if !(e <= j2 < s.len()) {
                                    None
                                } else if s[j2] == '}' {
                                    Some((JsonV::Obj(acc2), j2 + 1))
                                } else if s[j2] == ',' {
                                    let m2 = skip_ws(s, j2 + 1);
                                    if !(j2 < m2 < s.len() && s[m2] == '"') {
                                        None
                                    } else {
                                        spec_obj_members(s, m2, acc2)
                                    }
                                } else {
                                    None
                                }
                            },
                            None => None,
                        }
                    }
                }
            },
            None => None,
        }
    }
}

/// Reads a whole document: one value, surrounded by whitespace only.
pub open spec fn spec_json(s: Seq<char>) -> Option<JsonV> {
    match spec_value(s, skip_ws(s, 0)) {
        Some((v, e)) => if skip_ws(s, e) == s.len() {
            Some(v)
        } else {
            None
        },
        None => None,
    }
}

fn is_ws_c(c: char) -> (b: bool)
    ensures
        b == is_ws(c),
{
    c == ' ' || c == '\n' || c == '\r' || c == '\t'
}

fn is_digit_c(c: char) -> (b: bool)
    ensures
        b == is_digit(c),
{
    let u = c as u32;
    48 <= u && u <= 57
}

fn escape_c(c: char) -> (r: Option<char>)
    ensures
        r == escape_char(c),
{
    if c == '"' {
        Some('"')
    } else if c == '\\' {
        Some('\\')
    } else if c == '/' {
        Some('/')
    } else if c == 'n' {
        Some('\n')
    } else if c == 't' {
        Some('\t')
    } else if c == 'r' {
        Some('\r')
    } else if c == 'b' {
        Some('\u{8}')
    } else if c == 'f' {
        Some('\u{c}')
    } else {
        None
    }
}

fn ws_end(s: &Vec<char>, i: usize) -> (r: usize)
    requires
        i <= s.len(),
    ensures
        r as int == skip_ws(s@, i as int),
        i <= r <= s.len(),
{
    let mut r = i;
    while r < s.len() && is_ws_c(s[r])
        invariant
            i <= r <= s.len(),
            skip_ws(s@, i as int) == skip_ws(s@, r as int),
        decreases s@.len() - r,
    {
        r = r + 1;
    }
    r
}

fn parse_digits(s: &Vec<char>, i: usize) -> (r: Option<(u64, usize)>)
    requires
        i <= s.len(),
    ensures
        match r {
            Some(p) => p.0 as nat == spec_digits(s@, i as int, 0).0 && p.1 as int == spec_digits(
                s@,
                i as int,
                0,
            ).1 && i <= p.1 <= s.len(),
            None => spec_digits(s@, i as int, 0).0 > u64::MAX,
        },
{
    let mut p = i;
    let mut acc: u64 = 0;
    while p < s.len() && is_digit_c(s[p])
        invariant
            i <= p <= s.len(),
            spec_digits(s@, i as int, 0) == spec_digits(s@, p as int, acc as nat),
        decreases s@.len() - p,
    {
        let d = s[p] as u32 - 48;
        let ghost next_acc = (acc * 10 + d) as nat;
        proof {
            assert(spec_digits(s@, p as int, acc as nat) == spec_digits(
                s@,
                p as int + 1,
                next_acc,
            ));
        }
        match acc.checked_mul(10) {
            Some(m) => match m.checked_add(d as u64) {
                Some(v) => {
                    acc = v;
                    p = p + 1;
                },
                None => {
                    proof {
                        lemma_digits_bounds(s@, p as int + 1, next_acc);
                    }
                    return None;
                },
            },
            None => {
                proof {
                    lemma_digits_bounds(s@, p as int + 1, next_acc);
                }
                return None;
            },
        }
    }
    Some((acc, p))
}

fn parse_string_rest(s: &Vec<char>, i: usize) -> (r: Option<(String, usize)>)
    requires
        i <= s.len(),
    ensures
        match r {
            Some(p) => spec_string_rest(s@, i as int) == Some((p.0@, p.1 as int)) && i < p.1
                <= s.len(),
            None => spec_string_rest(s@, i as int) is None,
        },
    decreases s@.len() - i,
{
    if i >= s.len() {
        return None;
    }
    let c = s[i];
    if c == '"' {
        return Some((String::new(), i + 1));
    }
    if c == '\\' {
        if i + 1 < s.len() {
            match escape_c(s[i + 1]) {
                Some(ch) => match parse_string_rest(s, i + 2) {
                    Some((rest, j)) => {
                        let mut out = String::new();
                        push_char(&mut out, ch);
                        out.append(rest.as_str());
                        proof {
                            assert(out@ =~= seq![ch] + rest@);
                        }
                        Some((out, j))
                    },
                    None => None,
                },
                None => None,
            }
        } else {
            None
        }
    } else if c as u32 >= 32 {
        match parse_string_rest(s, i + 1) {
            Some((rest, j)) => {
                let mut out = String::new();
                push_char(&mut out, c);
                out.append(rest.as_str());
                proof {
                    assert(out@ =~= seq![c] + rest@);
                }
                Some((out, j))
            },
            None => None,
        }
    } else {
        None
    }
}

fn parse_value(s: &Vec<char>, i: usize) -> (r: Option<(Json, usize)>)
    requires
        i <= s.len(),
    ensures
        match r {
            Some(p) => spec_value(s@, i as int) == Some((p.0@, p.1 as int)) && i < p.1 <= s.len(),
            None => spec_value(s@, i as int) is None,
        },
    decreases s@.len() - i, 0int,
{
    if i >= s.len() {
        return None;
    }
    let c = s[i];
    if c == 'n' {
        if s.len() - i >= 4 && s[i + 1] == 'u' && s[i + 2] == 'l' && s[i + 3] == 'l' {
            Some((Json::Null, i + 4))
        } else {
            None
        }
    } else if c == 't' {
        if s.len() - i >= 4 && s[i + 1] == 'r' && s[i + 2] == 'u' && s[i + 3] == 'e' {
            Some((Json::Bool(true), i + 4))
        } else {
            None
        }
    } else if c == 'f' {
        if s.len() - i >= 5 && s[i + 1] == 'a' && s[i + 2] == 'l' && s[i + 3] == 's' && s[i + 4]
            == 'e' {
            Some((Json::Bool(false), i + 5))
        } else {
            None
        }
    } else if c == '"' {
        match parse_string_rest(s, i + 1) {
            Some((cs, j)) => Some((Json::Str(cs), j)),
            None => None,
        }
    } else if is_digit_c(c) {
        proof {
            assert(spec_digits(s@, i as int, 0) == spec_digits(
                s@,
                i as int + 1,
                (s@[i as int] as u32 - 48) as nat,
            ));
            lemma_digits_bounds(s@, i as int + 1, (s@[i as int] as u32 - 48) as nat);
        }
        match parse_digits(s, i) {
            Some((n, e)) => {
                if c == '0' && e > i + 1 {
                    None
                } else {
                    Some((Json::Num(n), e))
                }
            },
            None => None,
        }
    } else if c == '[' {
        parse_arr_rest(s, i + 1)
    } else if c == '{' {
        parse_obj_rest(s, i + 1)
    } else {
        None
    }
}

fn parse_arr_rest(s: &Vec<char>, i: usize) -> (r: Option<(Json, usize)>)
    requires
        i <= s.len(),
    ensures
        match r {
            Some(p) => spec_arr_rest(s@, i as int) == Some((p.0@, p.1 as int)) && i < p.1
                <= s.len(),
            None => spec_arr_rest(s@, i as int) is None,
        },
    decreases s@.len() - i, 2int,
{
    let j = ws_end(s, i);
    if j < s.len() && s[j] == ']' {
        let acc: Vec<Json> = Vec::new();
        proof {
            assert(json_view(Json::Arr(acc)) == JsonV::Arr(Seq::<JsonV>::empty()));
        }
        return Some((Json::Arr(acc), j + 1));
    }
    match parse_value(s, j) {
        Some((v, e)) => {
            let mut acc: Vec<Json> = Vec::new();
            let ghost gv = json_view(v);
            acc.push(v);
            proof {
                lemma_json_list_view(acc@);
                assert(json_list_view(acc@) =~= seq![gv]);
            }
            parse_arr_tail(s, e, acc)
        },
        None => None,
    }
}

fn parse_arr_tail(s: &Vec<char>, i: usize, acc: Vec<Json>) -> (r: Option<(Json, usize)>)
    requires
        i <= s.len(),
    ensures
        match r {
            Some(p) => spec_arr_tail(s@, i as int, json_list_view(acc@)) == Some((
                p.0@,
                p.1 as int,
            )) && i < p.1 <= s.len(),
            None => spec_arr_tail(s@, i as int, json_list_view(acc@)) is None,
        },
    decreases s@.len() - i, 1int,
{
    let mut acc = acc;
    let j = ws_end(s, i);
    if j >= s.len() {
        return None;
    }
    if s[j] == ']' {
        return Some((Json::Arr(acc), j + 1));
    }
    if s[j] == ',' {
        let m = ws_end(s, j + 1);
        match parse_value(s, m) {
            Some((v, e)) => {
                let ghost old_list = json_list_view(acc@);
                let ghost gv = json_view(v);
                let ghost old_acc = acc@;
                acc.push(v);
                proof {
                    lemma_json_list_view(old_acc);
                    lemma_json_list_view(acc@);
                    assert(json_list_view(acc@) =~= old_list.push(gv));
                }
                parse_arr_tail(s, e, acc)
            },
            None => None,
        }
    } else {
        None
    }
}

fn parse_obj_rest(s: &Vec<char>, i: usize) -> (r: Option<(Json, usize)>)
    requires
        i <= s.len(),
    ensures
        match r {
            Some(p) => spec_obj_rest(s@, i as int) == Some((p.0@, p.1 as int)) && i < p.1
                <= s.len(),
            None => spec_obj_rest(s@, i as int) is None,
        },
    decreases s@.len() - i, 2int,
{
    let j = ws_end(s, i);
    if j >= s.len() {
        return None;
    }
    if s[j] == '}' {
        let acc: Vec<Member> = Vec::new();
        proof {
            assert(json_view(Json::Obj(acc)) == JsonV::Obj(Seq::<(Seq<char>, JsonV)>::empty()));
        }
        return Some((Json::Obj(acc), j + 1));
    }
    if s[j] == '"' {
        let acc: Vec<Member> = Vec::new();
        proof {
            assert(member_list_view(acc@) =~= Seq::<(Seq<char>, JsonV)>::empty());
        }
        parse_obj_members(s, j, acc)
    } else {
        None
    }
}

fn parse_obj_members(s: &Vec<char>, i: usize, acc: Vec<Member>) -> (r: Option<(Json, usize)>)
    requires
        i <= s.len(),
    ensures
        match r {
            Some(p) => spec_obj_members(s@, i as int, member_list_view(acc@)) == Some((
                p.0@,
                p.1 as int,
            )) && i < p.1 <= s.len(),
            None => spec_obj_members(s@, i as int, member_list_view(acc@)) is None,
        },
    decreases s@.len() - i, 1int,
{
    let mut acc = acc;
    if i >= s.len() {
        return None;
    }
    if s[i] != '"' {
        return None;
    }
    match parse_string_rest(s, i + 1) {
        Some((k, e1)) => {
            let j = ws_end(s, e1);
            if !(j < s.len() && s[j] == ':') {
                return None;
            }
            let m = ws_end(s, j + 1);
            match parse_value(s, m) {
                Some((v, e)) => {
                    let ghost old_list = member_list_view(acc@);
                    let ghost gk = k@;
                    let ghost gv = json_view(v);
                    let ghost old_acc = acc@;
                    acc.push(Member { key: k, value: v });
                    proof {
                        lemma_member_list_view(old_acc);
                        lemma_member_list_view(acc@);
                        assert(member_list_view(acc@) =~= old_list.push((gk, gv)));
                    }
                    let j2 = ws_end(s, e);
                    if j2 >= s.len() {
                        return None;
                    }
                    if s[j2] == '}' {
                        return Some((Json::Obj(acc), j2 + 1));
                    }
                    if s[j2] == ',' {
                        let m2 = ws_end(s, j2 + 1);
                        if m2 < s.len() && s[m2] == '"' {
                            parse_obj_members(s, m2, acc)
                        } else {
                            None
                        }
                    } else {
                        None
                    }
                },
                None => None,
            }
        },
        None => None,
    }
}

/// Decodes a whole JSON document: exactly what the spec-level grammar
/// accepts, and nothing else.
pub fn parse_json(text: &str) -> (r: Option<Json>)
    ensures
        match r {
            Some(j) => spec_json(text@) == Some(j@),
            None => spec_json(text@) is None,
        },
{
    let s = to_chars(text);
    let i = ws_end(&s, 0);
    match parse_value(&s, i) {
        Some((v, e)) => {
            let f = ws_end(&s, e);
            if f == s.len() {
                Some(v)
            } else {
                None
            }
        },
        None => None,
    }
}

} // verus!
