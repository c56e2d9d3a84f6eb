use vstd::prelude::*;

verus! {

use vstd::std_specs::iter::IteratorSpec;

broadcast use vstd::std_specs::vec::group_vec_axioms, vstd::seq::group_seq_axioms;

/// Mathematical JSON tree: the value every codec contract speaks of.
pub enum JVal {
    Null,
    Bool(bool),
    Num(Seq<char>),
    Str(Seq<char>),
    Arr(Seq<JVal>),
    Obj(Seq<(Seq<char>, JVal)>),
}

/// A JSON number, kept as its literal text so no precision is lost.
#[derive(Debug, PartialEq, Eq)]
pub struct JsonNum {
    text: String,
}

/// A JSON document.
#[derive(Debug)]
pub enum JsonValue {
    Null,
    Bool(bool),
    Num(JsonNum),
    Str(String),
    Arr(Vec<JsonValue>),
    Obj(Vec<(String, JsonValue)>),
}

pub open spec fn jv_elems_view(s: Seq<JsonValue>) -> Seq<JVal>
    decreases s,
{
    if s.len() == 0 {
        Seq::empty()
    } else {
        seq![jv_view(s[0])] + jv_elems_view(s.subrange(1, s.len() as int))
    }
}

pub open spec fn jv_fields_view(s: Seq<(String, JsonValue)>) -> Seq<(Seq<char>, JVal)>
    decreases s,
{
    if s.len() == 0 {
        Seq::empty()
    } else {
        seq![(s[0].0@, jv_view(s[0].1))] + jv_fields_view(s.subrange(1, s.len() as int))
    }
}

pub open spec fn jv_view(v: JsonValue) -> JVal
    decreases v,
{
    match v {
        JsonValue::Null => JVal::Null,
        JsonValue::Bool(b) => JVal::Bool(b),
        JsonValue::Num(n) => JVal::Num(n@),
        JsonValue::Str(s) => JVal::Str(s@),
        JsonValue::Arr(a) => JVal::Arr(jv_elems_view(a@)),
        JsonValue::Obj(o) => JVal::Obj(jv_fields_view(o@)),
    }
}

impl View for JsonValue {
    type V = JVal;

    open spec fn view(&self) -> JVal {
        jv_view(*self)
    }
}

impl View for JsonNum {
    type V = Seq<char>;

    closed spec fn view(&self) -> Seq<char> {
        self.text@
    }
}

pub proof fn lemma_jv_elems_view_len(s: Seq<JsonValue>)
    ensures
        jv_elems_view(s).len() == s.len(),
        forall|i: int| 0 <= i < s.len() ==> jv_elems_view(s)[i] == jv_view(s[i]),
    decreases s,
{
    if s.len() > 0 {
        lemma_jv_elems_view_len(s.subrange(1, s.len() as int));
    }
}

pub proof fn lemma_jv_fields_view_len(s: Seq<(String, JsonValue)>)
    ensures
        jv_fields_view(s).len() == s.len(),
        forall|i: int| 0 <= i < s.len() ==> jv_fields_view(s)[i] == (s[i].0@, jv_view(s[i].1)),
    decreases s,
{
    if s.len() > 0 {
        lemma_jv_fields_view_len(s.subrange(1, s.len() as int));
    }
}

/// Turns a borrowed string into its characters.
pub fn chars_of_str(s: &str) -> (r: Vec<char>)
    ensures
        r@ == s@,
{
    broadcast use vstd::string::group_string_axioms;

    let mut it = s.chars();
    let mut out: Vec<char> = Vec::new();
    let ghost all: Seq<char> = s@;
    loop
        invariant
            it.obeys_prophetic_iter_laws(),
            it.decrease() is Some,
            out@ + it.remaining() == all,
        ensures
            out@ == all,
        decreases it.decrease()->0,
    {
        match it.next() {
            Some(c) => {
                out.push(c);
            },
            None => {
                proof {
                    assert(out@ =~= all);
                }
                break ;
            },
        }
    }
    out
}

// ---------------------------------------------------------------------------
// Canonical text form
// ---------------------------------------------------------------------------

/// Lower-case hexadecimal digit for a value below 16.
pub open spec fn hex_digit(n: int) -> char {
    if n == 0 {
        '0'
    } else if n == 1 {
        '1'
    } else if n == 2 {
        '2'
    } else if n == 3 {
        '3'
    } else if n == 4 {
        '4'
    } else if n == 5 {
        '5'
    } else if n == 6 {
        '6'
    } else if n == 7 {
        '7'
    } else if n == 8 {
        '8'
    } else if n == 9 {
        '9'
    } else if n == 10 {
        'a'
    } else if n == 11 {
        'b'
    } else if n == 12 {
        'c'
    } else if n == 13 {
        'd'
    } else if n == 14 {
        'e'
    } else {
        'f'
    }
}

/// How one character appears inside a JSON string literal.
pub open spec fn esc_char(c: char) -> Seq<char> {
    if c == '"' {
        seq!['\\', '"']
    } else if c == '\\' {
        seq!['\\', '\\']
    } else if c == '\n' {
        seq!['\\', 'n']
    } else if c == '\r' {
        seq!['\\', 'r']
    } else if c == '\t' {
        seq!['\\', 't']
    } else if (c as u32) < 32 {
        seq!['\\', 'u', '0', '0', hex_digit(c as u32 as int / 16), hex_digit(c as u32 as int % 16)]
    } else {
        seq![c]
    }
}

/// The escaped body of a JSON string literal.
pub open spec fn esc_str(s: Seq<char>) -> Seq<char>
    decreases s.len(),
{
    if s.len() == 0 {
        Seq::empty()
    } else {
        esc_char(s[0]) + esc_str(s.subrange(1, s.len() as int))
    }
}

/// The canonical text of one JSON value: no added whitespace, keys in the
/// order they are held, numbers printed as their stored literal.
pub open spec fn jtext(v: JVal) -> Seq<char>
    decreases v,
{
    match v {
        JVal::Null => seq!['n', 'u', 'l', 'l'],
        JVal::Bool(b) => if b {
            seq!['t', 'r', 'u', 'e']
        } else {
            seq!['f', 'a', 'l', 's', 'e']
        },
        JVal::Num(t) => t,
        JVal::Str(s) => seq!['"'] + esc_str(s) + seq!['"'],
        JVal::Arr(a) => seq!['['] + jtext_elems(a) + seq![']'],
        JVal::Obj(o) => seq!['{'] + jtext_fields(o) + seq!['}'],
    }
}

pub open spec fn jtext_elems(a: Seq<JVal>) -> Seq<char>
    decreases a, 1int,
{
    if a.len() == 0 {
        Seq::empty()
    } else {
        jtext(a[0]) + jtext_more_elems(a.subrange(1, a.len() as int))
    }
}

pub open spec fn jtext_more_elems(a: Seq<JVal>) -> Seq<char>
    decreases a, 2int,
{
    if a.len() == 0 {
        Seq::empty()
    } else {
        seq![','] + jtext(a[0]) + jtext_more_elems(a.subrange(1, a.len() as int))
    }
}

pub open spec fn jtext_field(f: (Seq<char>, JVal)) -> Seq<char>
    decreases f, 0int,
{
    seq!['"'] + esc_str(f.0) + seq!['"', ':'] + jtext(f.1)
}

pub open spec fn jtext_fields(o: Seq<(Seq<char>, JVal)>) -> Seq<char>
    decreases o, 1int,
{
    if o.len() == 0 {
        Seq::empty()
    } else {
        jtext_field(o[0]) + jtext_more_fields(o.subrange(1, o.len() as int))
    }
}

pub open spec fn jtext_more_fields(o: Seq<(Seq<char>, JVal)>) -> Seq<char>
    decreases o, 2int,
{
    if o.len() == 0 {
        Seq::empty()
    } else {
        seq![','] + jtext_field(o[0]) + jtext_more_fields(o.subrange(1, o.len() as int))
    }
}

pub(crate) fn hex_digit_exec(n: u32) -> (r: char)
    requires
        n < 16,
    ensures
        r == hex_digit(n as int),
{
    if n == 0 {
        '0'
    } else if n == 1 {
        '1'
    } else if n == 2 {
        '2'
    } else if n == 3 {
        '3'
    } else if n == 4 {
        '4'
    } else if n == 5 {
        '5'
    } else if n == 6 {
        '6'
    } else if n == 7 {
        '7'
    } else if n == 8 {
        '8'
    } else if n == 9 {
        '9'
    } else if n == 10 {
        'a'
    } else if n == 11 {
        'b'
    } else if n == 12 {
        'c'
    } else if n == 13 {
        'd'
    } else if n == 14 {
        'e'
    } else {
        'f'
    }
}

fn write_esc_char(c: char, out: &mut Vec<char>)
    ensures
        final(out)@ == old(out)@ + esc_char(c),
{
    if c == '"' {
        out.push('\\');
        out.push('"');
    } else if c == '\\' {
        out.push('\\');
        out.push('\\');
    } else if c == '\n' {
        out.push('\\');
        out.push('n');
    } else if c == '\r' {
        out.push('\\');
        out.push('r');
    } else if c == '\t' {
        out.push('\\');
        out.push('t');
    } else if (c as u32) < 32 {
        out.push('\\');
        out.push('u');
        out.push('0');
        out.push('0');
        out.push(hex_digit_exec((c as u32) / 16));
        out.push(hex_digit_exec((c as u32) % 16));
        proof {
            assert(out@ =~= old(out)@ + esc_char(c));
        }
    } else {
        out.push(c);
    }
    proof {
        assert(out@ =~= old(out)@ + esc_char(c));
    }
}

fn write_esc_from(cs: &Vec<char>, i: usize, out: &mut Vec<char>)
    requires
        i <= cs.len(),
    ensures
        final(out)@ == old(out)@ + esc_str(cs@.subrange(i as int, cs@.len() as int)),
    decreases cs.len() - i,
{
    if i == cs.len() {
        proof {
            assert(cs@.subrange(i as int, cs@.len() as int) =~= Seq::<char>::empty());
        }
    } else {
        write_esc_char(cs[i], out);
        write_esc_from(cs, i + 1, out);
        proof {
            let tail = cs@.subrange(i as int, cs@.len() as int);
            assert(tail[0] == cs@[i as int]);
            assert(tail.subrange(1, tail.len() as int) =~= cs@.subrange(
                i + 1 as int,
                cs@.len() as int,
            ));
            assert(out@ =~= old(out)@ + esc_str(tail));
        }
    }
}

/// Appends a string literal, quotes and escapes included.
fn write_string_literal(s: &str, out: &mut Vec<char>)
    ensures
        final(out)@ == old(out)@ + seq!['"'] + esc_str(s@) + seq!['"'],
{
    let cs = chars_of_str(s);
    out.push('"');
    write_esc_from(&cs, 0, out);
    out.push('"');
    proof {
        assert(cs@.subrange(0, cs@.len() as int) =~= cs@);
        assert(out@ =~= old(out)@ + seq!['"'] + esc_str(s@) + seq!['"']);
    }
}

fn write_raw(s: &str, out: &mut Vec<char>)
    ensures
        final(out)@ == old(out)@ + s@,
{
    let cs = chars_of_str(s);
    let mut i: usize = 0;
    while i < cs.len()
        invariant
            i <= cs.len(),
            cs@ == s@,
            out@ == old(out)@ + s@.subrange(0, i as int),
        decreases cs.len() - i,
    {
        out.push(cs[i]);
        i = i + 1;
        proof {
            assert(out@ =~= old(out)@ + s@.subrange(0, i as int));
        }
    }
    proof {
        assert(s@.subrange(0, s@.len() as int) =~= s@);
    }
}

fn write_field(k: &str, v: &JsonValue, out: &mut Vec<char>)
    ensures
        final(out)@ == old(out)@ + jtext_field((k@, v@)),
    decreases v, 1int,
{
    write_string_literal(k, out);
    out.push(':');
    write_jtext(v, out);
    proof {
        assert(out@ =~= old(out)@ + jtext_field((k@, v@)));
    }
}

fn write_jtext(v: &JsonValue, out: &mut Vec<char>)
    ensures
        final(out)@ == old(out)@ + jtext(v@),
    decreases v, 0int,
{
    broadcast use vstd::std_specs::vec::group_vec_axioms;

    match v {
        JsonValue::Null => {
            out.push('n');
            out.push('u');
            out.push('l');
            out.push('l');
            proof {
                assert(out@ =~= old(out)@ + jtext(v@));
            }
        },
        JsonValue::Bool(b) => {
            if *b {
                out.push('t');
                out.push('r');
                out.push('u');
                out.push('e');
            } else {
                out.push('f');
                out.push('a');
                out.push('l');
                out.push('s');
                out.push('e');
            }
            proof {
                assert(out@ =~= old(out)@ + jtext(v@));
            }
        },
        JsonValue::Num(n) => {
            write_raw(n.as_text(), out);
        },
        JsonValue::Str(s) => {
            write_string_literal(s.as_str(), out);
            proof {
                assert(out@ =~= old(out)@ + jtext(v@));
            }
        },
        JsonValue::Arr(a) => {
            out.push('[');
            if a.len() > 0 {
                write_jtext(&a[0], out);
                write_more_elems(a, 1, out);
            }
            out.push(']');
            proof {
                if a@.len() > 0 {
                    lemma_jv_elems_view_len(a@);
                    assert(jv_elems_view(a@).subrange(1, jv_elems_view(a@).len() as int)
                        =~= jv_elems_view(a@.subrange(1, a@.len() as int))) by {
                        lemma_jv_elems_view_subrange(a@, 1);
                    }
                }
                assert(out@ =~= old(out)@ + jtext(v@));
            }
        },
        JsonValue::Obj(o) => {
            out.push('{');
            if o.len() > 0 {
                write_field(o[0].0.as_str(), &o[0].1, out);
                write_more_fields(o, 1, out);
            }
            out.push('}');
            proof {
                if o@.len() > 0 {
                    lemma_jv_fields_view_len(o@);
                    assert(jv_fields_view(o@).subrange(1, jv_fields_view(o@).len() as int)
                        =~= jv_fields_view(o@.subrange(1, o@.len() as int))) by {
                        lemma_jv_fields_view_subrange(o@, 1);
                    }
                }
                assert(out@ =~= old(out)@ + jtext(v@));
            }
        },
    }
}

fn write_more_elems(a: &Vec<JsonValue>, i: usize, out: &mut Vec<char>)
    requires
        1 <= i <= a.len(),
    ensures
        final(out)@ == old(out)@ + jtext_more_elems(jv_elems_view(a@.subrange(i as int, a@.len() as int))),
    decreases a, a.len() - i,
{
    broadcast use vstd::std_specs::vec::group_vec_axioms;

    if i < a.len() {
        out.push(',');
        write_jtext(&a[i], out);
        write_more_elems(a, i + 1, out);
        proof {
            let tail = jv_elems_view(a@.subrange(i as int, a@.len() as int));
            lemma_jv_elems_view_len(a@.subrange(i as int, a@.len() as int));
            assert(tail[0] == jv_view(a@[i as int]));
            assert(tail.subrange(1, tail.len() as int) =~= jv_elems_view(
                a@.subrange(i + 1 as int, a@.len() as int),
            )) by {
                lemma_jv_elems_view_subrange(a@.subrange(i as int, a@.len() as int), 1);
                assert(a@.subrange(i as int, a@.len() as int).subrange(
                    1,
                    a@.len() - i as int,
                ) =~= a@.subrange(i + 1 as int, a@.len() as int));
            }
            assert(out@ =~= old(out)@ + jtext_more_elems(tail));
        }
    } else {
        proof {
            assert(a@.subrange(i as int, a@.len() as int) =~= Seq::<JsonValue>::empty());
        }
    }
}

fn write_more_fields(o: &Vec<(String, JsonValue)>, i: usize, out: &mut Vec<char>)
    requires
        1 <= i <= o.len(),
    ensures
        final(out)@ == old(out)@ + jtext_more_fields(
            jv_fields_view(o@.subrange(i as int, o@.len() as int)),
        ),
    decreases o, o.len() - i,
{
    broadcast use vstd::std_specs::vec::group_vec_axioms;

    if i < o.len() {
        out.push(',');
        write_field(o[i].0.as_str(), &o[i].1, out);
        write_more_fields(o, i + 1, out);
        proof {
            let tail = jv_fields_view(o@.subrange(i as int, o@.len() as int));
            lemma_jv_fields_view_len(o@.subrange(i as int, o@.len() as int));
            assert(tail[0] == (o@[i as int].0@, jv_view(o@[i as int].1)));
            assert(tail.subrange(1, tail.len() as int) =~= jv_fields_view(
                o@.subrange(i + 1 as int, o@.len() as int),
            )) by {
                lemma_jv_fields_view_subrange(o@.subrange(i as int, o@.len() as int), 1);
                assert(o@.subrange(i as int, o@.len() as int).subrange(
                    1,
                    o@.len() - i as int,
                ) =~= o@.subrange(i + 1 as int, o@.len() as int));
            }
            assert(out@ =~= old(out)@ + jtext_more_fields(tail));
        }
    } else {
        proof {
            assert(o@.subrange(i as int, o@.len() as int) =~= Seq::<(String, JsonValue)>::empty());
        }
    }
}

pub proof fn lemma_jv_elems_view_subrange(s: Seq<JsonValue>, k: int)
    requires
        0 <= k <= s.len(),
    ensures
        jv_elems_view(s.subrange(k, s.len() as int)) == jv_elems_view(s).subrange(
            k,
            jv_elems_view(s).len() as int,
        ),
{
    lemma_jv_elems_view_len(s);
    lemma_jv_elems_view_len(s.subrange(k, s.len() as int));
    assert(jv_elems_view(s.subrange(k, s.len() as int)) =~= jv_elems_view(s).subrange(
        k,
        jv_elems_view(s).len() as int,
    ));
}

pub proof fn lemma_jv_fields_view_subrange(s: Seq<(String, JsonValue)>, k: int)
    requires
        0 <= k <= s.len(),
    ensures
        jv_fields_view(s.subrange(k, s.len() as int)) == jv_fields_view(s).subrange(
            k,
            jv_fields_view(s).len() as int,
        ),
{
    lemma_jv_fields_view_len(s);
    lemma_jv_fields_view_len(s.subrange(k, s.len() as int));
    assert(jv_fields_view(s.subrange(k, s.len() as int)) =~= jv_fields_view(s).subrange(
        k,
        jv_fields_view(s).len() as int,
    ));
}

// ---------------------------------------------------------------------------
// Parsing: specification
// ---------------------------------------------------------------------------

/// JSON insignificant whitespace.
pub open spec fn is_ws(c: char) -> bool {
    c == ' ' || c == '\t' || c == '\n' || c == '\r'
}

/// How many whitespace characters stand at position `i`.
pub open spec fn ws_len(s: Seq<char>, i: int) -> nat
    decreases s.len() - i,
{
    if 0 <= i < s.len() && is_ws(s[i]) {
        1 + ws_len(s, i + 1)
    } else {
        0
    }
}

pub open spec fn is_digit(c: char) -> bool {
    48 <= (c as u32) <= 57
}

/// How many decimal digits stand at position `i`.
pub open spec fn digits_len(s: Seq<char>, i: int) -> nat
    decreases s.len() - i,
{
    if 0 <= i < s.len() && is_digit(s[i]) {
        1 + digits_len(s, i + 1)
    } else {
        0
    }
}

/// End of the exponent part (which may be absent) starting at `k`.
pub open spec fn scan_exp(s: Seq<char>, k: int) -> Option<int> {
    if 0 <= k < s.len() && (s[k] == 'e' || s[k] == 'E') {
        let m = if k + 1 < s.len() && (s[k + 1] == '+' || s[k + 1] == '-') {
            k + 2
        } else {
            k + 1
        };
        if digits_len(s, m) > 0 {
            Some(m + digits_len(s, m))
        } else {
            None
        }
    } else {
        Some(k)
    }
}

/// End of the fraction and exponent parts (both may be absent) starting at `k`.
pub open spec fn scan_frac(s: Seq<char>, k: int) -> Option<int> {
    if 0 <= k < s.len() && s[k] == '.' {
        if digits_len(s, k + 1) > 0 {
            scan_exp(s, k + 1 + digits_len(s, k + 1))
        } else {
            None
        }
    } else {
        scan_exp(s, k)
    }
}

/// End of a JSON number literal starting at `i`, if one stands there.
pub open spec fn scan_number(s: Seq<char>, i: int) -> Option<int> {
    let j = if 0 <= i < s.len() && s[i] == '-' {
        i + 1
    } else {
        i
    };
    if 0 <= j < s.len() && s[j] == '0' {
        scan_frac(s, j + 1)
    } else if digits_len(s, j) > 0 {
        scan_frac(s, j + digits_len(s, j))
    } else {
        None
    }
}

/// Whether `s` is, in full, one JSON number literal.
pub open spec fn is_number_lit(s: Seq<char>) -> bool {
    scan_number(s, 0) == Some(s.len() as int)
}

/// Numeric value of one hexadecimal digit.
pub open spec fn hex_val(c: char) -> Option<int> {
    if 48 <= (c as u32) <= 57 {
        Some((c as u32) - 48)
    } else if 97 <= (c as u32) <= 102 {
        Some((c as u32) - 87)
    } else if 65 <= (c as u32) <= 70 {
        Some((c as u32) - 55)
    } else {
        None
    }
}

/// The character named by an escape `\u` sequence of four hex digits.
pub open spec fn hex4_code(s: Seq<char>, i: int) -> Option<int> {
    if 0 <= i && i + 4 <= s.len() {
        match (hex_val(s[i]), hex_val(s[i + 1]), hex_val(s[i + 2]), hex_val(s[i + 3])) {
            (Some(a), Some(b), Some(c), Some(d)) => Some(a * 4096 + b * 256 + c * 16 + d),
            _ => None,
        }
    } else {
        None
    }
}

/// The body of a string literal from `i` (just past the opening quote) to its
/// closing quote: the unescaped characters and the index after the quote.
pub open spec fn sp_parse_string_body(s: Seq<char>, i: int) -> Option<(Seq<char>, int)>
    decreases s.len() - i,
{
    if !(0 <= i < s.len()) {
        None
    } else if s[i] == '"' {
        Some((Seq::empty(), i + 1))
    } else if s[i] == '\\' {
        if i + 1 >= s.len() {
            None
        } else if s[i + 1] == 'u' {
            match hex4_code(s, i + 2) {
                Some(code) => if code < 0xD800 || code >= 0xE000 {
                    match sp_parse_string_body(s, i + 6) {
                        Some((rest, end)) => Some((seq![(code as u32) as char] + rest, end)),
                        None => None,
                    }
                } else {
                    None
                },
                None => None,
            }
        } else {
            let e = s[i + 1];
            let c: Option<char> = if e == '"' {
                Some('"')
            } else if e == '\\' {
                Some('\\')
            } else if e == '/' {
                Some('/')
            } else if e == 'b' {
                Some(8u32 as char)
            } else if e == 'f' {
                Some(12u32 as char)
            } else if e == 'n' {
                Some('\n')
            } else if e == 'r' {
                Some('\r')
            } else if e == 't' {
                Some('\t')
            } else {
                None
            };
            match c {
                Some(c) => match sp_parse_string_body(s, i + 2) {
                    Some((rest, end)) => Some((seq![c] + rest, end)),
                    None => None,
                },
                None => None,
            }
        }
    } else if (s[i] as u32) < 32 {
        None
    } else {
        match sp_parse_string_body(s, i + 1) {
            Some((rest, end)) => Some((seq![s[i]] + rest, end)),
            None => None,
        }
    }
}

/// One JSON value beginning at `i`, leading whitespace allowed: the value and
/// the index just past it.
pub open spec fn sp_parse_value(s: Seq<char>, i: int) -> Option<(JVal, int)>
    decreases s.len() - i, 2int,
{
    let j = i + ws_len(s, i);
    if !(0 <= i) || j >= s.len() {
        None
    } else if s[j] == 'n' {
        if j + 4 <= s.len() && s[j + 1] == 'u' && s[j + 2] == 'l' && s[j + 3] == 'l' {
            Some((JVal::Null, j + 4))
        } else {
            None
        }
    } else if s[j] == 't' {
        if j + 4 <= s.len() && s[j + 1] == 'r' && s[j + 2] == 'u' && s[j + 3] == 'e' {
            Some((JVal::Bool(true), j + 4))
        } else {
            None
        }
    } else if s[j] == 'f' {
        if j + 5 <= s.len() && s[j + 1] == 'a' && s[j + 2] == 'l' && s[j + 3] == 's' && s[j + 4]
            == 'e' {
            Some((JVal::Bool(false), j + 5))
        } else {
            None
        }
    } else if s[j] == '"' {
        match sp_parse_string_body(s, j + 1) {
            Some((cs, k)) => Some((JVal::Str(cs), k)),
            None => None,
        }
    } else if s[j] == '[' {
        sp_parse_arr(s, j + 1)
    } else if s[j] == '{' {
        sp_parse_obj(s, j + 1)
    } else {
        match scan_number(s, j) {
            Some(k) => if k <= s.len() {
                Some((JVal::Num(s.subrange(j, k)), k))
            } else {
                None
            },
            None => None,
        }
    }
}

/// The remainder of an array from `i` (just past `[`): its elements and the
/// index just past `]`.
pub open spec fn sp_parse_arr(s: Seq<char>, i: int) -> Option<(JVal, int)>
    decreases s.len() - i, 3int,
{
    let j = i + ws_len(s, i);
    if !(0 <= i) || j >= s.len() {
        None
    } else if s[j] == ']' {
        Some((JVal::Arr(Seq::empty()), j + 1))
    } else {
        match sp_parse_value(s, i) {
            Some((v, k)) => if i < k <= s.len() {
                match sp_parse_more_elems(s, k) {
                    Some((rest, m)) => Some((JVal::Arr(seq![v] + rest), m)),
                    None => None,
                }
            } else {
                None
            },
            None => None,
        }
    }
}

/// Elements after the first in an array, from a position just past a value.
pub open spec fn sp_parse_more_elems(s: Seq<char>, i: int) -> Option<(Seq<JVal>, int)>
    decreases s.len() - i, 3int,
{
    let j = i + ws_len(s, i);
    if !(0 <= i) || j >= s.len() {
        None
    } else if s[j] == ']' {
        Some((Seq::empty(), j + 1))
    } else if s[j] == ',' {
        match sp_parse_value(s, j + 1) {
            Some((v, k)) => if j + 1 < k <= s.len() {
                match sp_parse_more_elems(s, k) {
                    Some((rest, m)) => Some((seq![v] + rest, m)),
                    None => None,
                }
            } else {
                None
            },
            None => None,
        }
    } else {
        None
    }
}

/// One `"key": value` pair beginning at `i`, leading whitespace allowed.
pub open spec fn sp_parse_field(s: Seq<char>, i: int) -> Option<((Seq<char>, JVal), int)>
    decreases s.len() - i, 2int,
{
    let j = i + ws_len(s, i);
    if !(0 <= i) || j >= s.len() {
        None
    } else if s[j] == '"' {
        match sp_parse_string_body(s, j + 1) {
            Some((key, p)) => if j + 1 < p <= s.len() {
                let q = p + ws_len(s, p);
                if q < s.len() && s[q] == ':' {
                    match sp_parse_value(s, q + 1) {
                        Some((v, r)) => if q + 1 < r <= s.len() {
                            Some(((key, v), r))
                        } else {
                            None
                        },
                        None => None,
                    }
                } else {
                    None
                }
            } else {
                None
            },
            None => None,
        }
    } else {
        None
    }
}

/// The remainder of an object from `i` (just past `{`): its fields and the
/// index just past `}`.
pub open spec fn sp_parse_obj(s: Seq<char>, i: int) -> Option<(JVal, int)>
    decreases s.len() - i, 3int,
{
    let j = i + ws_len(s, i);
    if !(0 <= i) || j >= s.len() {
        None
    } else if s[j] == '}' {
        Some((JVal::Obj(Seq::empty()), j + 1))
    } else {
        match sp_parse_field(s, i) {
            Some((f, k)) => if i < k <= s.len() {
                match sp_parse_more_fields(s, k) {
                    Some((rest, m)) => Some((JVal::Obj(seq![f] + rest), m)),
                    None => None,
                }
            } else {
                None
            },
            None => None,
        }
    }
}

/// Fields after the first in an object, from a position just past a value.
pub open spec fn sp_parse_more_fields(s: Seq<char>, i: int) -> Option<
    (Seq<(Seq<char>, JVal)>, int),
>
    decreases s.len() - i, 3int,
{
    let j = i + ws_len(s, i);
    if !(0 <= i) || j >= s.len() {
        None
    } else if s[j] == '}' {
        Some((Seq::empty(), j + 1))
    } else if s[j] == ',' {
        match sp_parse_field(s, j + 1) {
            Some((f, k)) => if j + 1 < k <= s.len() {
                match sp_parse_more_fields(s, k) {
                    Some((rest, m)) => Some((seq![f] + rest, m)),
                    None => None,
                }
            } else {
                None
            },
            None => None,
        }
    } else {
        None
    }
}

/// A whole JSON document: one value with nothing but whitespace around it.
pub open spec fn sp_parse_text(s: Seq<char>) -> Option<JVal> {
    match sp_parse_value(s, 0) {
        Some((v, j)) => if j >= 0 && j + ws_len(s, j) == s.len() {
            Some(v)
        } else {
            None
        },
        None => None,
    }
}

// ---------------------------------------------------------------------------
// Parsing: executable code
// ---------------------------------------------------------------------------

proof fn lemma_ws_len_bound(s: Seq<char>, i: int)
    requires
        0 <= i <= s.len(),
    ensures
        i + ws_len(s, i) <= s.len(),
    decreases s.len() - i,
{
    if i < s.len() && is_ws(s[i]) {
        lemma_ws_len_bound(s, i + 1);
    }
}

proof fn lemma_digits_len_bound(s: Seq<char>, i: int)
    requires
        0 <= i <= s.len(),
    ensures
        i + digits_len(s, i) <= s.len(),
    decreases s.len() - i,
{
    if i < s.len() && is_digit(s[i]) {
        lemma_digits_len_bound(s, i + 1);
    }
}

fn skip_ws_exec(cs: &Vec<char>, i: usize) -> (r: usize)
    requires
        i <= cs.len(),
    ensures
        r == i + ws_len(cs@, i as int),
        r <= cs.len(),
{
    let mut j = i;
    loop
        invariant
            i <= j <= cs.len(),
            i + ws_len(cs@, i as int) == j + ws_len(cs@, j as int),
        ensures
            j <= cs.len(),
            i + ws_len(cs@, i as int) == j + ws_len(cs@, j as int),
            ws_len(cs@, j as int) == 0,
        decreases cs.len() - j,
    {
        if j == cs.len() {
            break ;
        }
        let c = cs[j];
        if c == ' ' || c == '\t' || c == '\n' || c == '\r' {
            j = j + 1;
        } else {
            break ;
        }
    }
    proof {
        lemma_ws_len_bound(cs@, j as int);
    }
    j
}

fn scan_digits_exec(cs: &Vec<char>, i: usize) -> (r: usize)
    requires
        i <= cs.len(),
    ensures
        r == i + digits_len(cs@, i as int),
        r <= cs.len(),
{
    let mut j = i;
    loop
        invariant
            i <= j <= cs.len(),
            i + digits_len(cs@, i as int) == j + digits_len(cs@, j as int),
        ensures
            j <= cs.len(),
            i + digits_len(cs@, i as int) == j + digits_len(cs@, j as int),
            digits_len(cs@, j as int) == 0,
        decreases cs.len() - j,
    {
        if j == cs.len() {
            break ;
        }
        let c = cs[j];
        if 48 <= (c as u32) && (c as u32) <= 57 {
            j = j + 1;
        } else {
            break ;
        }
    }
    proof {
        lemma_digits_len_bound(cs@, j as int);
    }
    j
}

fn scan_exp_exec(cs: &Vec<char>, k: usize) -> (r: Option<usize>)
    requires
        k <= cs.len(),
    ensures
        scan_exp(cs@, k as int) is Some <==> r is Some,
        r matches Some(e) ==> scan_exp(cs@, k as int) == Some(e as int) && k <= e <= cs.len(),
{
    if k < cs.len() && { let c = cs[k]; c == 'e' || c == 'E' } {
        let m: usize = if k + 1 < cs.len() && { let c = cs[k + 1]; c == '+' || c == '-' } {
            k + 2
        } else {
            k + 1
        };
        let d = scan_digits_exec(cs, m);
        if d > m {
            Some(d)
        } else {
            None
        }
    } else {
        Some(k)
    }
}

fn scan_frac_exec(cs: &Vec<char>, k: usize) -> (r: Option<usize>)
    requires
        k <= cs.len(),
    ensures
        scan_frac(cs@, k as int) is Some <==> r is Some,
        r matches Some(e) ==> scan_frac(cs@, k as int) == Some(e as int) && k <= e <= cs.len(),
{
    if k < cs.len() && cs[k] == '.' {
        let d = scan_digits_exec(cs, k + 1);
        if d > k + 1 {
            scan_exp_exec(cs, d)
        } else {
            None
        }
    } else {
        scan_exp_exec(cs, k)
    }
}

fn scan_number_exec(cs: &Vec<char>, i: usize) -> (r: Option<usize>)
    requires
        i <= cs.len(),
    ensures
        scan_number(cs@, i as int) is Some <==> r is Some,
        r matches Some(k) ==> scan_number(cs@, i as int) == Some(k as int) && i < k <= cs.len(),
{
    let j: usize = if i < cs.len() && cs[i] == '-' {
        i + 1
    } else {
        i
    };
    if j < cs.len() && cs[j] == '0' {
        scan_frac_exec(cs, j + 1)
    } else {
        let d = scan_digits_exec(cs, j);
        if d > j {
            scan_frac_exec(cs, d)
        } else {
            None
        }
    }
}

fn hex_val_exec(c: char) -> (r: Option<u32>)
    ensures
        hex_val(c) is Some <==> r is Some,
        r matches Some(n) ==> hex_val(c) == Some(n as int) && n < 16,
{
    let u = c as u32;
    if 48 <= u && u <= 57 {
        Some(u - 48)
    } else if 97 <= u && u <= 102 {
        Some(u - 87)
    } else if 65 <= u && u <= 70 {
        Some(u - 55)
    } else {
        None
    }
}

/// Relies on char::from_u32: a Some scalar for every code that is not a
/// surrogate and not beyond the Unicode range, None otherwise.
#[verifier::external_body]
fn char_from_code(n: u32) -> (r: Option<char>)
    ensures
        r matches Some(c) ==> c as u32 == n,
        r is Some <==> (n < 0xD800 || (0xE000 <= n && n <= 0x10FFFF)),
{
    char::from_u32(n)
}

#[verifier::rlimit(80)]
fn parse_string_body_exec(cs: &Vec<char>, start: usize) -> (r: Option<(Vec<char>, usize)>)
    requires
        start <= cs.len(),
    ensures
        sp_parse_string_body(cs@, start as int) is Some <==> r is Some,
        r matches Some((content, end)) ==> sp_parse_string_body(cs@, start as int) == Some(
            (content@, end as int),
        ) && start < end <= cs.len(),
{
    broadcast use vstd::utf8::char_u32_cast;

    let mut acc: Vec<char> = Vec::new();
    let mut p = start;
    proof {
        let here = sp_parse_string_body(cs@, start as int);
        if here is Some {
            assert(Seq::<char>::empty() + here->Some_0.0 =~= here->Some_0.0);
        }
    }
    loop
        invariant
            start <= p <= cs.len(),
            ({
                let whole = sp_parse_string_body(cs@, start as int);
                let here = sp_parse_string_body(cs@, p as int);
                &&& (here is Some <==> whole is Some)
                &&& (here matches Some((c2, e2)) ==> whole == Some((acc@ + c2, e2)))
            }),
        ensures
            start <= p <= cs.len(),
            ({
                let whole = sp_parse_string_body(cs@, start as int);
                let here = sp_parse_string_body(cs@, p as int);
                &&& (here is Some <==> whole is Some)
                &&& (here matches Some((c2, e2)) ==> whole == Some((acc@ + c2, e2)))
                &&& (p < cs.len() && cs@[p as int] == '"') || here is None
            }),
        decreases cs.len() - p,
    {
        if p == cs.len() {
            break ;
        }
        let c = cs[p];
        if c == '"' {
            break ;
        } else if c == '\\' {
            if p + 1 == cs.len() {
                break ;
            }
            let e = cs[p + 1];
            if e == 'u' {
                if cs.len() - p < 6 {
                    proof {
                        assert(hex4_code(cs@, p + 2 as int) is None);
                    }
                    break ;
                }
                let h0 = hex_val_exec(cs[p + 2]);
                let h1 = hex_val_exec(cs[p + 3]);
                let h2 = hex_val_exec(cs[p + 4]);
                let h3 = hex_val_exec(cs[p + 5]);
                match (h0, h1, h2, h3) {
                    (Some(a), Some(b), Some(cc), Some(d)) => {
                        let code: u32 = a * 4096 + b * 256 + cc * 16 + d;
                        if !(code < 0xD800 || code >= 0xE000) {
                            break ;
                        }
                        let ghost old_acc = acc@;
                        match char_from_code(code) {
                            Some(ch) => {
                                proof {
                                    vstd::utf8::char_u32_cast(ch, code);
                                }
                                acc.push(ch);
                                p = p + 6;
                                proof {
                                    assert(acc@ =~= old_acc + seq![ch]);
                                    let here_old = sp_parse_string_body(cs@, p - 6 as int);
                                    let here_new = sp_parse_string_body(cs@, p as int);
                                    if here_new is Some {
                                        let c2 = here_new->Some_0.0;
                                        let e2 = here_new->Some_0.1;
                                        assert(here_old == Some((seq![ch] + c2, e2)));
                                        assert(old_acc + (seq![ch] + c2) =~= acc@ + c2);
                                    }
                                }
                            },
                            None => {
                                proof {
                                    assert(false);
                                }
                                break ;
                            },
                        }
                    },
                    _ => {
                        break ;
                    },
                }
            } else {
                let un: Option<char> = if e == '"' {
                    Some('"')
                } else if e == '\\' {
                    Some('\\')
                } else if e == '/' {
                    Some('/')
                } else if e == 'b' {
                    char_from_code(8)
                } else if e == 'f' {
                    char_from_code(12)
                } else if e == 'n' {
                    Some('\n')
                } else if e == 'r' {
                    Some('\r')
                } else if e == 't' {
                    Some('\t')
                } else {
                    None
                };
                match un {
                    Some(ch) => {
                        proof {
                            if e == 'b' {
                                vstd::utf8::char_u32_cast(ch, 8u32);
                            }
                            if e == 'f' {
                                vstd::utf8::char_u32_cast(ch, 12u32);
                            }
                        }
                        let ghost old_acc = acc@;
                        acc.push(ch);
                        p = p + 2;
                        proof {
                            assert(acc@ =~= old_acc + seq![ch]);
                            let here_old = sp_parse_string_body(cs@, p - 2 as int);
                            let here_new = sp_parse_string_body(cs@, p as int);
                            if here_new is Some {
                                let c2 = here_new->Some_0.0;
                                let e2 = here_new->Some_0.1;
                                assert(here_old == Some((seq![ch] + c2, e2)));
                                assert(old_acc + (seq![ch] + c2) =~= acc@ + c2);
                            }
                        }
                    },
                    None => {
                        break ;
                    },
                }
            }
        } else if (c as u32) < 32 {
            break ;
        } else {
            let ghost old_acc = acc@;
            acc.push(c);
            p = p + 1;
            proof {
                assert(acc@ =~= old_acc + seq![c]);
                let here_old = sp_parse_string_body(cs@, p - 1 as int);
                let here_new = sp_parse_string_body(cs@, p as int);
                if here_new is Some {
                    let c2 = here_new->Some_0.0;
                    let e2 = here_new->Some_0.1;
                    assert(here_old == Some((seq![c] + c2, e2)));
                    assert(old_acc + (seq![c] + c2) =~= acc@ + c2);
                }
            }
        }
    }
    if p < cs.len() {
        let c = cs[p];
        if c == '"' {
            proof {
                let whole = sp_parse_string_body(cs@, start as int);
                let here = sp_parse_string_body(cs@, p as int);
                assert(here == Some((Seq::<char>::empty(), p + 1 as int)));
                assert(acc@ + Seq::<char>::empty() =~= acc@);
            }
            return Some((acc, p + 1));
        }
    }
    None
}

/// Copies the characters in `[a, b)` into a fresh string.
pub fn chars_range_to_str(cs: &Vec<char>, a: usize, b: usize) -> (r: String)
    requires
        a <= b <= cs.len(),
    ensures
        r@ == cs@.subrange(a as int, b as int),
{
    let mut out: Vec<char> = Vec::new();
    let mut i = a;
    while i < b
        invariant
            a <= i <= b <= cs.len(),
            out@ == cs@.subrange(a as int, i as int),
        decreases b - i,
    {
        out.push(cs[i]);
        i = i + 1;
        proof {
            assert(out@ =~= cs@.subrange(a as int, i as int));
        }
    }
    string_from_chars(&out)
}

proof fn lemma_cons_elems_view(v0: JsonValue, rest: Seq<JsonValue>, all: Seq<JsonValue>)
    requires
        all == seq![v0] + rest,
    ensures
        jv_elems_view(all) == seq![jv_view(v0)] + jv_elems_view(rest),
{
    lemma_jv_elems_view_len(all);
    lemma_jv_elems_view_len(rest);
    assert(jv_elems_view(all) =~= seq![jv_view(v0)] + jv_elems_view(rest));
}

proof fn lemma_cons_fields_view(
    f0: (String, JsonValue),
    rest: Seq<(String, JsonValue)>,
    all: Seq<(String, JsonValue)>,
)
    requires
        all == seq![f0] + rest,
    ensures
        jv_fields_view(all) == seq![(f0.0@, jv_view(f0.1))] + jv_fields_view(rest),
{
    lemma_jv_fields_view_len(all);
    lemma_jv_fields_view_len(rest);
    assert(jv_fields_view(all) =~= seq![(f0.0@, jv_view(f0.1))] + jv_fields_view(rest));
}

fn parse_value_exec(cs: &Vec<char>, i: usize) -> (r: Option<(JsonValue, usize)>)
    requires
        i <= cs.len(),
    ensures
        sp_parse_value(cs@, i as int) is Some <==> r is Some,
        r matches Some((v, k)) ==> sp_parse_value(cs@, i as int) == Some((v@, k as int)) && i < k
            <= cs.len(),
    decreases cs.len() - i, 2int,
{
    let j = skip_ws_exec(cs, i);
    if j >= cs.len() {
        return None;
    }
    let c = cs[j];
    if c == 'n' {
        if cs.len() - j >= 4 && cs[j + 1] == 'u' && cs[j + 2] == 'l' && cs[j + 3] == 'l' {
            Some((JsonValue::Null, j + 4))
        } else {
            None
        }
    } else if c == 't' {
        if cs.len() - j >= 4 && cs[j + 1] == 'r' && cs[j + 2] == 'u' && cs[j + 3] == 'e' {
            Some((JsonValue::Bool(true), j + 4))
        } else {
            None
        }
    } else if c == 'f' {
        if cs.len() - j >= 5 && cs[j + 1] == 'a' && cs[j + 2] == 'l' && cs[j + 3] == 's' && cs[j
            + 4] == 'e' {
            Some((JsonValue::Bool(false), j + 5))
        } else {
            None
        }
    } else if c == '"' {
        match parse_string_body_exec(cs, j + 1) {
            Some((content, end)) => Some((JsonValue::Str(string_from_chars(&content)), end)),
            None => None,
        }
    } else if c == '[' {
        parse_arr_exec(cs, j + 1)
    } else if c == '{' {
        parse_obj_exec(cs, j + 1)
    } else {
        match scan_number_exec(cs, j) {
            Some(k) => {
                let text = chars_range_to_str(cs, j, k);
                Some((JsonValue::Num(JsonNum { text }), k))
            },
            None => None,
        }
    }
}

fn parse_arr_exec(cs: &Vec<char>, i: usize) -> (r: Option<(JsonValue, usize)>)
    requires
        i <= cs.len(),
    ensures
        sp_parse_arr(cs@, i as int) is Some <==> r is Some,
        r matches Some((v, k)) ==> sp_parse_arr(cs@, i as int) == Some((v@, k as int)) && i < k
            <= cs.len(),
    decreases cs.len() - i, 3int,
{
    let j = skip_ws_exec(cs, i);
    if j >= cs.len() {
        return None;
    }
    if cs[j] == ']' {
        let out: Vec<JsonValue> = Vec::new();
        proof {
            assert(jv_elems_view(out@) =~= Seq::<JVal>::empty());
        }
        return Some((JsonValue::Arr(out), j + 1));
    }
    match parse_value_exec(cs, i) {
        Some((v0, k)) => {
            match parse_more_elems_exec(cs, k) {
                Some((rest, m)) => {
                    let ghost gv0 = v0;
                    let ghost grest = rest@;
                    let mut all: Vec<JsonValue> = Vec::new();
                    all.push(v0);
                    let mut rest = rest;
                    all.append(&mut rest);
                    proof {
                        assert(all@ =~= seq![gv0] + grest);
                        lemma_cons_elems_view(gv0, grest, all@);
                    }
                    Some((JsonValue::Arr(all), m))
                },
                None => None,
            }
        },
        None => None,
    }
}

fn parse_more_elems_exec(cs: &Vec<char>, i: usize) -> (r: Option<(Vec<JsonValue>, usize)>)
    requires
        i <= cs.len(),
    ensures
        sp_parse_more_elems(cs@, i as int) is Some <==> r is Some,
        r matches Some((vs, k)) ==> sp_parse_more_elems(cs@, i as int) == Some(
            (jv_elems_view(vs@), k as int),
        ) && i < k <= cs.len(),
    decreases cs.len() - i, 3int,
{
    let j = skip_ws_exec(cs, i);
    if j >= cs.len() {
        return None;
    }
    if cs[j] == ']' {
        let out: Vec<JsonValue> = Vec::new();
        proof {
            assert(jv_elems_view(out@) =~= Seq::<JVal>::empty());
        }
        return Some((out, j + 1));
    }
    if cs[j] == ',' {
        match parse_value_exec(cs, j + 1) {
            Some((v0, k)) => {
                match parse_more_elems_exec(cs, k) {
                    Some((rest, m)) => {
                        let ghost gv0 = v0;
                        let ghost grest = rest@;
                        let mut all: Vec<JsonValue> = Vec::new();
                        all.push(v0);
                        let mut rest = rest;
                        all.append(&mut rest);
                        proof {
                            assert(all@ =~= seq![gv0] + grest);
                            lemma_cons_elems_view(gv0, grest, all@);
                        }
                        Some((all, m))
                    },
                    None => None,
                }
            },
            None => None,
        }
    } else {
        None
    }
}

fn parse_field_exec(cs: &Vec<char>, i: usize) -> (r: Option<((String, JsonValue), usize)>)
    requires
        i <= cs.len(),
    ensures
        sp_parse_field(cs@, i as int) is Some <==> r is Some,
        r matches Some((f, k)) ==> sp_parse_field(cs@, i as int) == Some(
            ((f.0@, f.1@), k as int),
        ) && i < k <= cs.len(),
    decreases cs.len() - i, 2int,
{
    let j = skip_ws_exec(cs, i);
    if j >= cs.len() {
        return None;
    }
    if cs[j] != '"' {
        return None;
    }
    match parse_string_body_exec(cs, j + 1) {
        Some((key, p)) => {
            let q = skip_ws_exec(cs, p);
            if q < cs.len() && cs[q] == ':' {
                match parse_value_exec(cs, q + 1) {
                    Some((v, r_end)) => Some(((string_from_chars(&key), v), r_end)),
                    None => None,
                }
            } else {
                None
            }
        },
        None => None,
    }
}

fn parse_obj_exec(cs: &Vec<char>, i: usize) -> (r: Option<(JsonValue, usize)>)
    requires
        i <= cs.len(),
    ensures
        sp_parse_obj(cs@, i as int) is Some <==> r is Some,
        r matches Some((v, k)) ==> sp_parse_obj(cs@, i as int) == Some((v@, k as int)) && i < k
            <= cs.len(),
    decreases cs.len() - i, 3int,
{
    let j = skip_ws_exec(cs, i);
    if j >= cs.len() {
        return None;
    }
    if cs[j] == '}' {
        let out: Vec<(String, JsonValue)> = Vec::new();
        proof {
            assert(jv_fields_view(out@) =~= Seq::<(Seq<char>, JVal)>::empty());
        }
        return Some((JsonValue::Obj(out), j + 1));
    }
    match parse_field_exec(cs, i) {
        Some((f0, k)) => {
            match parse_more_fields_exec(cs, k) {
                Some((rest, m)) => {
                    let ghost gf0 = f0;
                    let ghost grest = rest@;
                    let mut all: Vec<(String, JsonValue)> = Vec::new();
                    all.push(f0);
                    let mut rest = rest;
                    all.append(&mut rest);
                    proof {
                        assert(all@ =~= seq![gf0] + grest);
                        lemma_cons_fields_view(gf0, grest, all@);
                    }
                    Some((JsonValue::Obj(all), m))
                },
                None => None,
            }
        },
        None => None,
    }
}

fn parse_more_fields_exec(cs: &Vec<char>, i: usize) -> (r: Option<
    (Vec<(String, JsonValue)>, usize),
>)
    requires
        i <= cs.len(),
    ensures
        sp_parse_more_fields(cs@, i as int) is Some <==> r is Some,
        r matches Some((fs, k)) ==> sp_parse_more_fields(cs@, i as int) == Some(
            (jv_fields_view(fs@), k as int),
        ) && i < k <= cs.len(),
    decreases cs.len() - i, 3int,
{
    let j = skip_ws_exec(cs, i);
    if j >= cs.len() {
        return None;
    }
    if cs[j] == '}' {
        let out: Vec<(String, JsonValue)> = Vec::new();
        proof {
            assert(jv_fields_view(out@) =~= Seq::<(Seq<char>, JVal)>::empty());
        }
        return Some((out, j + 1));
    }
    if cs[j] == ',' {
        match parse_field_exec(cs, j + 1) {
            Some((f0, k)) => {
                match parse_more_fields_exec(cs, k) {
                    Some((rest, m)) => {
                        let ghost gf0 = f0;
                        let ghost grest = rest@;
                        let mut all: Vec<(String, JsonValue)> = Vec::new();
                        all.push(f0);
                        let mut rest = rest;
                        all.append(&mut rest);
                        proof {
                            assert(all@ =~= seq![gf0] + grest);
                            lemma_cons_fields_view(gf0, grest, all@);
                        }
                        Some((all, m))
                    },
                    None => None,
                }
            },
            None => None,
        }
    } else {
        None
    }
}

impl JsonValue {
    /// Parses a whole JSON document; None for text that is not valid JSON.
    pub fn parse(text: &str) -> (r: Option<JsonValue>)
        ensures
            sp_parse_text(text@) is Some <==> r is Some,
            r matches Some(v) ==> sp_parse_text(text@) == Some(v@),
    {
        let cs = chars_of_str(text);
        match parse_value_exec(&cs, 0) {
            Some((v, j)) => {
                let e = skip_ws_exec(&cs, j);
                if e == cs.len() {
                    Some(v)
                } else {
                    None
                }
            },
            None => None,
        }
    }
}

// ---------------------------------------------------------------------------
// Decimal integers
// ---------------------------------------------------------------------------

pub open spec fn pow10(k: nat) -> int
    decreases k,
{
    if k == 0 {
        1
    } else {
        10 * pow10((k - 1) as nat)
    }
}

/// Value of a sequence of decimal digits, most significant first.
pub open spec fn dec_value(s: Seq<char>) -> int
    decreases s.len(),
{
    if s.len() == 0 {
        0
    } else {
        dec_value(s.subrange(0, s.len() - 1)) * 10 + ((s[s.len() - 1] as u32) - 48)
    }
}

/// Decimal digits of a non-negative number, most significant first.
pub open spec fn dec_digits(n: int) -> Seq<char>
    decreases n,
{
    if n < 10 {
        seq![hex_digit(if n < 0 {
            0
        } else {
            n
        })]
    } else {
        dec_digits(n / 10) + seq![hex_digit(n % 10)]
    }
}

/// Canonical literal of an integer.
pub open spec fn int_lit(n: int) -> Seq<char> {
    if n < 0 {
        seq!['-'] + dec_digits(-n)
    } else {
        dec_digits(n)
    }
}

pub open spec fn all_digits(s: Seq<char>) -> bool {
    forall|i: int| 0 <= i < s.len() ==> is_digit(#[trigger] s[i])
}

/// The integer a literal of form `-?[0-9]+` denotes; None for any other text.
pub open spec fn parsed_int(s: Seq<char>) -> Option<int> {
    if s.len() > 0 && s[0] == '-' {
        let ds = s.subrange(1, s.len() as int);
        if ds.len() > 0 && all_digits(ds) {
            Some(-dec_value(ds))
        } else {
            None
        }
    } else {
        if s.len() > 0 && all_digits(s) {
            Some(dec_value(s))
        } else {
            None
        }
    }
}

proof fn lemma_dec_value_bounds(s: Seq<char>)
    requires
        forall|i: int| 0 <= i < s.len() ==> is_digit(#[trigger] s[i]),
    ensures
        0 <= dec_value(s) < pow10(s.len()),
        s.len() > 0 && s[0] != '0' ==> dec_value(s) >= pow10((s.len() - 1) as nat),
    decreases s.len(),
{
    if s.len() == 0 {
        assert(dec_value(s) == 0);
    } else {
        let pre = s.subrange(0, s.len() - 1);
        assert(forall|i: int| 0 <= i < pre.len() ==> is_digit(#[trigger] pre[i]));
        lemma_dec_value_bounds(pre);
        if s.len() == 1 {
            assert(pre =~= Seq::<char>::empty());
            assert(dec_value(pre) == 0);
            if s[0] != '0' && (s[0] as u32) == 48 {
                vstd::utf8::char_u32_cast(s[0], 48u32);
                vstd::utf8::char_u32_cast('0', 48u32);
            }
        } else {
            assert(pre[0] == s[0]);
        }
    }
}

proof fn lemma_pow10_19()
    ensures
        pow10(19) == 10_000_000_000_000_000_000,
{
    reveal_with_fuel(pow10, 21);
}

proof fn lemma_dec_digits_value(n: int)
    requires
        n >= 0,
    ensures
        dec_digits(n).len() >= 1,
        forall|i: int| 0 <= i < dec_digits(n).len() ==> is_digit(#[trigger] dec_digits(n)[i]),
        dec_value(dec_digits(n)) == n,
    decreases n,
{
    if n < 10 {
        let d = dec_digits(n);
        assert(d.subrange(0, 0) =~= Seq::<char>::empty());
        assert(dec_value(Seq::<char>::empty()) == 0);
        assert((hex_digit(n) as u32) - 48 == n);
    } else {
        lemma_dec_digits_value(n / 10);
        let d = dec_digits(n);
        let pre = dec_digits(n / 10);
        assert(d == pre + seq![hex_digit(n % 10)]);
        assert(d.subrange(0, d.len() - 1) =~= pre);
        assert((hex_digit(n % 10) as u32) - 48 == n % 10);
    }
}

/// A round trip through the canonical integer literal returns the integer.
pub proof fn lemma_parsed_int_lit(n: int)
    ensures
        parsed_int(int_lit(n)) == Some(n),
{
    if n < 0 {
        lemma_dec_digits_value(-n);
        let s = int_lit(n);
        assert(s[0] == '-');
        assert(s.subrange(1, s.len() as int) =~= dec_digits(-n));
        assert(!is_digit('-'));
    } else {
        lemma_dec_digits_value(n);
        let s = int_lit(n);
        assert(s[0] != '-') by {
            assert(is_digit(s[0]));
        }
    }
}

fn push_dec_digits(n: u64, out: &mut Vec<char>)
    ensures
        final(out)@ == old(out)@ + dec_digits(n as int),
    decreases n,
{
    if n < 10 {
        out.push(hex_digit_exec(n as u32));
        proof {
            assert(out@ =~= old(out)@ + dec_digits(n as int));
        }
    } else {
        push_dec_digits(n / 10, out);
        out.push(hex_digit_exec((n % 10) as u32));
        proof {
            assert(out@ =~= old(out)@ + dec_digits(n as int));
        }
    }
}

impl Clone for JsonNum {
    /// An equal literal.
    fn clone(&self) -> (r: Self)
        ensures
            r@ == self@,
    {
        JsonNum { text: self.text.clone() }
    }
}

impl Clone for JsonValue {
    /// A value with the same view.
    #[verifier::loop_isolation(false)]
    fn clone(&self) -> (r: Self)
        ensures
            r@ == self@,
        decreases *self,
    {
        match self {
            JsonValue::Null => JsonValue::Null,
            JsonValue::Bool(b) => JsonValue::Bool(*b),
            JsonValue::Num(n) => JsonValue::Num(n.clone()),
            JsonValue::Str(s) => JsonValue::Str(s.clone()),
            JsonValue::Arr(a) => {
                let mut out: Vec<JsonValue> = Vec::new();
                let mut i: usize = 0;
                while i < a.len()
                    invariant
                        i <= a.len(),
                        out@.len() == i,
                        forall|q: int| 0 <= q < i ==> jv_view(out@[q]) == jv_view(a@[q]),
                    decreases a.len() - i,
                {
                    out.push(a[i].clone());
                    i = i + 1;
                }
                proof {
                    lemma_jv_elems_view_len(out@);
                    lemma_jv_elems_view_len(a@);
                    assert(jv_elems_view(out@) =~= jv_elems_view(a@));
                }
                JsonValue::Arr(out)
            },
            JsonValue::Obj(o) => {
                let mut out: Vec<(String, JsonValue)> = Vec::new();
                let mut i: usize = 0;
                while i < o.len()
                    invariant
                        i <= o.len(),
                        out@.len() == i,
                        forall|q: int|
                            0 <= q < i ==> out@[q].0@ == o@[q].0@ && jv_view(out@[q].1) == jv_view(
                                o@[q].1,
                            ),
                    decreases o.len() - i,
                {
                    let k = o[i].0.clone();
                    let v = o[i].1.clone();
                    out.push((k, v));
                    i = i + 1;
                }
                proof {
                    lemma_jv_fields_view_len(out@);
                    lemma_jv_fields_view_len(o@);
                    assert(jv_fields_view(out@) =~= jv_fields_view(o@));
                }
                JsonValue::Obj(out)
            },
        }
    }
}

impl JsonNum {
    /// The stored literal.
    pub fn as_text(&self) -> (r: &str)
        ensures
            r@ == self@,
    {
        self.text.as_str()
    }

    /// The canonical literal of `n`.
    pub fn from_i64(n: i64) -> (r: JsonNum)
        ensures
            r@ == int_lit(n as int),
    {
        let mut out: Vec<char> = Vec::new();
        if n < 0 {
            out.push('-');
            let mag: u64 = ((-(n + 1)) as u64) + 1;
            push_dec_digits(mag, &mut out);
            proof {
                assert(out@ =~= int_lit(n as int));
            }
        } else {
            push_dec_digits(n as u64, &mut out);
        }
        JsonNum { text: string_from_chars(&out) }
    }

    /// The canonical literal of `n`.
    pub fn from_u64(n: u64) -> (r: JsonNum)
        ensures
            r@ == int_lit(n as int),
    {
        let mut out: Vec<char> = Vec::new();
        push_dec_digits(n, &mut out);
        JsonNum { text: string_from_chars(&out) }
    }

    /// Takes any valid JSON number literal as it stands; None for other text.
    pub fn from_text(text: &str) -> (r: Option<JsonNum>)
        ensures
            r matches Some(m) ==> m@ == text@ && is_number_lit(text@),
            r is None <==> !is_number_lit(text@),
    {
        let cs = chars_of_str(text);
        match scan_number_exec(&cs, 0) {
            Some(k) => {
                if k == cs.len() {
                    Some(JsonNum { text: text.to_owned() })
                } else {
                    None
                }
            },
            None => None,
        }
    }

    /// The integer this literal denotes, when it is a plain integer literal
    /// whose value fits an i64.
    #[verifier::loop_isolation(false)]
    pub fn to_i64(&self) -> (r: Option<i64>)
        ensures
            match r {
                Some(x) => parsed_int(self@) == Some(x as int),
                None => (parsed_int(self@) matches Some(v) ==> (v < i64::MIN || v > i64::MAX)),
            },
    {
        let cs = chars_of_str(self.as_text());
        let neg = cs.len() > 0 && cs[0] == '-';
        let s0: usize = if neg {
            1
        } else {
            0
        };
        let ghost ds = if neg {
            cs@.subrange(1, cs@.len() as int)
        } else {
            cs@
        };
        if cs.len() == s0 {
            return None;
        }
        // every character after the sign must be a digit
        let mut i = s0;
        while i < cs.len()
            invariant
                s0 <= i <= cs.len(),
                s0 <= cs.len(),
                ds == cs@.subrange(s0 as int, cs@.len() as int),
                forall|q: int| 0 <= q < i - s0 ==> is_digit(#[trigger] ds[q]),
            decreases cs.len() - i,
        {
            let c = cs[i];
            if !(48 <= (c as u32) && (c as u32) <= 57) {
                proof {
                    assert(!is_digit(ds[i - s0 as int]));
                    assert(!all_digits(ds));
                }
                return None;
            }
            i = i + 1;
        }
        proof {
            assert(all_digits(ds));
        }
        // skip leading zeros: they do not change the value
        let mut z = s0;
        while z < cs.len() - 1 && cs[z] == '0'
            invariant
                s0 <= z < cs.len(),
                dec_value(cs@.subrange(s0 as int, cs@.len() as int)) == dec_value(
                    cs@.subrange(z as int, cs@.len() as int),
                ),
            decreases cs.len() - z,
        {
            proof {
                lemma_dec_value_zero_prefix(cs@, z as int);
            }
            z = z + 1;
        }
        let ghost zs = cs@.subrange(z as int, cs@.len() as int);
        proof {
            assert(forall|q: int| 0 <= q < zs.len() ==> is_digit(#[trigger] zs[q])) by {
                assert(forall|q: int| 0 <= q < zs.len() ==> zs[q] == ds[q + z - s0]);
            }
        }
        if cs.len() - z > 19 {
            proof {
                lemma_dec_value_bounds(zs);
                lemma_pow10_19();
                lemma_pow10_increases(19, (zs.len() - 1) as nat);
                assert(dec_value(ds) == dec_value(zs));
            }
            return None;
        }
        // at most 19 digits: the value fits a u64
        let mut acc: u64 = 0;
        let mut j = z;
        while j < cs.len()
            invariant
                z <= j <= cs.len(),
                cs.len() - z <= 19,
                zs == cs@.subrange(z as int, cs@.len() as int),
                forall|q: int| 0 <= q < zs.len() ==> is_digit(#[trigger] zs[q]),
                acc == dec_value(zs.subrange(0, j - z as int)),
                acc < pow10((j - z) as nat),
            decreases cs.len() - j,
        {
            let c = cs[j];
            proof {
                assert(is_digit(zs[j - z as int]));
                lemma_pow10_19();
                lemma_pow10_increases((j - z + 1) as nat, 19);
                assert(zs.subrange(0, j - z + 1 as int).subrange(0, j - z as int) =~= zs.subrange(
                    0,
                    j - z as int,
                ));
            }
            acc = acc * 10 + ((c as u32) - 48) as u64;
            j = j + 1;
        }
        proof {
            assert(zs.subrange(0, zs.len() as int) =~= zs);
            assert(dec_value(ds) == dec_value(zs));
        }
        if neg {
            if acc <= 0x7fff_ffff_ffff_ffffu64 {
                Some(-(acc as i64))
            } else if acc == 0x8000_0000_0000_0000u64 {
                Some(i64::MIN)
            } else {
                None
            }
        } else {
            if acc <= 0x7fff_ffff_ffff_ffffu64 {
                Some(acc as i64)
            } else {
                None
            }
        }
    }
}

// ---------------------------------------------------------------------------
// Reading a value
// ---------------------------------------------------------------------------

/// The value under the first field named `k`.
pub open spec fn jv_obj_lookup(o: Seq<(Seq<char>, JVal)>, k: Seq<char>) -> Option<JVal>
    decreases o.len(),
{
    if o.len() == 0 {
        None
    } else if o[0].0 == k {
        Some(o[0].1)
    } else {
        jv_obj_lookup(o.subrange(1, o.len() as int), k)
    }
}

/// A lookup lands on the first field bearing the key.
pub proof fn lemma_obj_lookup_first(o: Seq<(Seq<char>, JVal)>, k: Seq<char>, i: int)
    requires
        0 <= i < o.len(),
        o[i].0 == k,
        forall|j: int| 0 <= j < i ==> (#[trigger] o[j]).0 != k,
    ensures
        jv_obj_lookup(o, k) == Some(o[i].1),
    decreases i,
{
    if i == 0 {
    } else {
        let tail = o.subrange(1, o.len() as int);
        assert(forall|j: int| 0 <= j < i - 1 ==> (#[trigger] tail[j]).0 != k) by {
            assert(forall|j: int| 0 <= j < tail.len() ==> tail[j] == o[j + 1]);
        }
        assert(tail[i - 1] == o[i]);
        lemma_obj_lookup_first(tail, k, i - 1);
    }
}

/// A lookup misses when no field bears the key.
pub proof fn lemma_obj_lookup_none(o: Seq<(Seq<char>, JVal)>, k: Seq<char>)
    requires
        forall|j: int| 0 <= j < o.len() ==> (#[trigger] o[j]).0 != k,
    ensures
        jv_obj_lookup(o, k) is None,
    decreases o.len(),
{
    if o.len() > 0 {
        let tail = o.subrange(1, o.len() as int);
        assert(forall|j: int| 0 <= j < tail.len() ==> (#[trigger] tail[j]).0 != k) by {
            assert(forall|j: int| 0 <= j < tail.len() ==> tail[j] == o[j + 1]);
        }
        lemma_obj_lookup_none(tail, k);
    }
}

/// The value under field `k`, None when `v` is no object or has no such field.
pub open spec fn jv_get(v: JVal, k: Seq<char>) -> Option<JVal> {
    match v {
        JVal::Obj(o) => jv_obj_lookup(o, k),
        _ => None,
    }
}

impl JsonValue {
    /// The member of this object under `key`, if this is an object with one.
    pub fn get<'a>(&'a self, key: &str) -> (r: Option<&'a JsonValue>)
        ensures
            jv_get(self@, key@) is Some <==> r is Some,
            r matches Some(x) ==> jv_get(self@, key@) == Some(x@),
    {
        match self {
            JsonValue::Obj(o) => {
                let ks: String = key.to_owned();
                let ghost fv = jv_fields_view(o@);
                proof {
                    lemma_jv_fields_view_len(o@);
                    assert(fv.subrange(0, fv.len() as int) =~= fv);
                }
                let mut i: usize = 0;
                loop
                    invariant
                        i <= o.len(),
                        fv == jv_fields_view(o@),
                        fv.len() == o.len(),
                        forall|q: int|
                            0 <= q < o.len() ==> fv[q] == (o@[q].0@, jv_view(o@[q].1)),
                        ks@ == key@,
                        jv_obj_lookup(fv, key@) == jv_obj_lookup(
                            fv.subrange(i as int, fv.len() as int),
                            key@,
                        ),
                    ensures
                        i <= o.len(),
                        i < o.len() ==> o@[i as int].0@ == key@ && jv_obj_lookup(fv, key@) == Some(
                            fv[i as int].1,
                        ),
                        i == o.len() ==> jv_obj_lookup(fv, key@) is None,
                    decreases o.len() - i,
                {
                    if i == o.len() {
                        proof {
                            assert(fv.subrange(i as int, fv.len() as int) =~= Seq::<(
                                Seq<char>,
                                JVal,
                            )>::empty());
                        }
                        break ;
                    }
                    let hit = o[i].0 == ks;
                    proof {
                        let tail = fv.subrange(i as int, fv.len() as int);
                        assert(tail[0] == fv[i as int]);
                        assert(tail.subrange(1, tail.len() as int) =~= fv.subrange(
                            i + 1 as int,
                            fv.len() as int,
                        ));
                    }
                    if hit {
                        break ;
                    }
                    i = i + 1;
                }
                if i < o.len() {
                    Some(&o[i].1)
                } else {
                    None
                }
            },
            _ => None,
        }
    }

    /// The characters of this value when it is a string.
    pub fn as_str<'a>(&'a self) -> (r: Option<&'a String>)
        ensures
            self@ is Str <==> r is Some,
            r matches Some(s) ==> self@ == JVal::Str(s@),
    {
        match self {
            JsonValue::Str(s) => Some(s),
            _ => None,
        }
    }

    /// The truth value of this value when it is a boolean.
    pub fn as_bool(&self) -> (r: Option<bool>)
        ensures
            self@ is Bool <==> r is Some,
            r matches Some(b) ==> self@ == JVal::Bool(b),
    {
        match self {
            JsonValue::Bool(b) => Some(*b),
            _ => None,
        }
    }

    /// The number under this value when it is one.
    pub fn as_num<'a>(&'a self) -> (r: Option<&'a JsonNum>)
        ensures
            self@ is Num <==> r is Some,
            r matches Some(n) ==> self@ == JVal::Num(n@),
    {
        match self {
            JsonValue::Num(n) => Some(n),
            _ => None,
        }
    }

    /// The elements of this value when it is an array.
    pub fn as_arr<'a>(&'a self) -> (r: Option<&'a Vec<JsonValue>>)
        ensures
            self@ is Arr <==> r is Some,
            r matches Some(a) ==> self@ == JVal::Arr(jv_elems_view(a@)),
    {
        match self {
            JsonValue::Arr(a) => Some(a),
            _ => None,
        }
    }

    /// The fields of this value when it is an object.
    pub fn as_obj<'a>(&'a self) -> (r: Option<&'a Vec<(String, JsonValue)>>)
        ensures
            self@ is Obj <==> r is Some,
            r matches Some(o) ==> self@ == JVal::Obj(jv_fields_view(o@)),
    {
        match self {
            JsonValue::Obj(o) => Some(o),
            _ => None,
        }
    }

    /// Whether this value is JSON null.
    pub fn is_null(&self) -> (r: bool)
        ensures
            r == (self@ is Null),
    {
        match self {
            JsonValue::Null => true,
            _ => false,
        }
    }

    /// A string value.
    pub fn of_string(s: &str) -> (r: JsonValue)
        ensures
            r@ == JVal::Str(s@),
    {
        JsonValue::Str(s.to_owned())
    }

    /// An integer value, as its canonical literal.
    pub fn of_i64(n: i64) -> (r: JsonValue)
        ensures
            r@ == JVal::Num(int_lit(n as int)),
    {
        JsonValue::Num(JsonNum::from_i64(n))
    }

    /// An integer value, as its canonical literal.
    pub fn of_u64(n: u64) -> (r: JsonValue)
        ensures
            r@ == JVal::Num(int_lit(n as int)),
    {
        JsonValue::Num(JsonNum::from_u64(n))
    }
}

proof fn lemma_pow10_pos(a: nat)
    ensures
        pow10(a) >= 1,
    decreases a,
{
    if a > 0 {
        lemma_pow10_pos((a - 1) as nat);
    }
}

proof fn lemma_pow10_increases(a: nat, b: nat)
    requires
        a <= b,
    ensures
        pow10(a) <= pow10(b),
        pow10(a) >= 1,
    decreases b,
{
    lemma_pow10_pos(a);
    if a < b {
        lemma_pow10_increases(a, (b - 1) as nat);
    }
}

proof fn lemma_dec_value_zero_prefix(s: Seq<char>, z: int)
    requires
        0 <= z < s.len(),
        s[z] == '0',
    ensures
        dec_value(s.subrange(z, s.len() as int)) == dec_value(s.subrange(z + 1, s.len() as int)),
    decreases s.len() - z,
{
    let a = s.subrange(z, s.len() as int);
    let b = s.subrange(z + 1, s.len() as int);
    if a.len() == 1 {
        assert(a.subrange(0, 0) =~= Seq::<char>::empty());
        assert(dec_value(Seq::<char>::empty()) == 0);
        assert((a[0] as u32) - 48 == 0);
    } else {
        lemma_dec_value_zero_prefix(s.subrange(z, s.len() - 1), 0);
        assert(s.subrange(z, s.len() - 1) =~= a.subrange(0, a.len() - 1));
        assert(s.subrange(z, s.len() - 1).subrange(1, s.len() - 1 - z) =~= b.subrange(
            0,
            b.len() - 1,
        ));
        assert(s.subrange(z, s.len() - 1).subrange(0, s.len() - 1 - z) =~= s.subrange(
            z,
            s.len() - 1,
        ));
        assert(a[a.len() - 1] == b[b.len() - 1]);
    }
}

/// Relies on String's FromIterator impl for char: collecting characters
/// yields the string holding exactly those characters in order.
#[verifier::external_body]
pub(crate) fn string_from_chars(cs: &Vec<char>) -> (r: String)
    ensures
        r@ == cs@,
{
    cs.iter().collect()
}

impl JsonValue {
    /// The canonical text of this value.
    pub fn to_text(&self) -> (r: String)
        ensures
            r@ == jtext(self@),
    {
        let mut out: Vec<char> = Vec::new();
        write_jtext(self, &mut out);
        string_from_chars(&out)
    }
}

} // verus!
