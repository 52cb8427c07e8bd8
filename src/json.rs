use vstd::prelude::*;
use vstd::utf8::encode_utf8;
use crate::api::HttpRequest;
use crate::wire::{Value, ValueV, fields_view};

verus! {

/// A lowercase hexadecimal digit.
pub open spec fn hex_digit(d: u8) -> u8 {
    if d < 10 {
        (48 + d) as u8
    } else {
        (87 + d) as u8
    }
}

/// One byte of a string as it stands between JSON quotes: the quote and the
/// backslash are escaped, control bytes written as `\u00XX`, all other bytes
/// (UTF-8 sequences included) kept.
pub open spec fn esc_byte(b: u8) -> Seq<u8> {
    if b == 34 {
        seq![92u8, 34u8]
    } else if b == 92 {
        seq![92u8, 92u8]
    } else if b < 32 {
        seq![92u8, 117u8, 48u8, 48u8, hex_digit(b / 16), hex_digit(b % 16)]
    } else {
        seq![b]
    }
}

pub open spec fn esc(s: Seq<u8>) -> Seq<u8>
    decreases s.len(),
{
    if s.len() == 0 {
        Seq::empty()
    } else {
        esc(s.drop_last()) + esc_byte(s.last())
    }
}

/// A JSON string literal holding `s`.
pub open spec fn quoted(s: Seq<char>) -> Seq<u8> {
    seq![34u8] + esc(encode_utf8(s)) + seq![34u8]
}

/// The decimal digits of `n`.
pub open spec fn decimal(n: nat) -> Seq<u8>
    decreases n,
{
    if n < 10 {
        seq![(48 + n) as u8]
    } else {
        decimal(n / 10) + seq![(48 + n % 10) as u8]
    }
}

/// The comma-separated string literals of a list.
pub open spec fn list_items(l: Seq<Seq<char>>) -> Seq<u8>
    decreases l.len(),
{
    if l.len() == 0 {
        Seq::empty()
    } else if l.len() == 1 {
        quoted(l[0])
    } else {
        list_items(l.drop_last()) + seq![44u8] + quoted(l.last())
    }
}

/// The comma-separated `"key":"value"` members of a string map.
pub open spec fn map_items(m: Seq<(Seq<char>, Seq<char>)>) -> Seq<u8>
    decreases m.len(),
{
    if m.len() == 0 {
        Seq::empty()
    } else if m.len() == 1 {
        quoted(m[0].0) + seq![58u8] + quoted(m[0].1)
    } else {
        map_items(m.drop_last()) + seq![44u8] + quoted(m.last().0) + seq![58u8] + quoted(m.last().1)
    }
}

/// The JSON text of a field value.
pub open spec fn value_json(v: ValueV) -> Seq<u8> {
    match v {
        ValueV::Null => seq![110u8, 117u8, 108u8, 108u8],
        ValueV::Bool(b) => if b {
            seq![116u8, 114u8, 117u8, 101u8]
        } else {
            seq![102u8, 97u8, 108u8, 115u8, 101u8]
        },
        ValueV::Number(n) => decimal(n as nat),
        ValueV::Str(s) => quoted(s),
        ValueV::StrList(l) => seq![91u8] + list_items(l) + seq![93u8],
        ValueV::StrMap(m) => seq![123u8] + map_items(m) + seq![125u8],
    }
}

/// The comma-separated members of an object body.
pub open spec fn field_items(f: Seq<(Seq<char>, ValueV)>) -> Seq<u8>
    decreases f.len(),
{
    if f.len() == 0 {
        Seq::empty()
    } else if f.len() == 1 {
        quoted(f[0].0) + seq![58u8] + value_json(f[0].1)
    } else {
        field_items(f.drop_last()) + seq![44u8] + quoted(f.last().0) + seq![58u8] + value_json(
            f.last().1,
        )
    }
}

/// The JSON text of an object body.
pub open spec fn body_json(f: Seq<(Seq<char>, ValueV)>) -> Seq<u8> {
    seq![123u8] + field_items(f) + seq![125u8]
}

fn hex(d: u8) -> (r: u8)
    requires
        d < 16,
    ensures
        r == hex_digit(d),
{
    if d < 10 {
        48 + d
    } else {
        87 + d
    }
}

fn push_esc_byte(out: &mut Vec<u8>, b: u8)
    ensures
        final(out)@ == old(out)@ + esc_byte(b),
{
    let ghost before = out@;
    if b == 34 {
        out.push(92);
        out.push(34);
    } else if b == 92 {
        out.push(92);
        out.push(92);
    } else if b < 32 {
        out.push(92);
        out.push(117);
        out.push(48);
        out.push(48);
        out.push(hex(b / 16));
        out.push(hex(b % 16));
    } else {
        out.push(b);
    }
    assert(out@ =~= before + esc_byte(b));
}

fn push_quoted(out: &mut Vec<u8>, s: &str)
    ensures
        final(out)@ == old(out)@ + quoted(s@),
{
    let ghost before = out@;
    let bytes = s.as_bytes();
    out.push(34);
    let mut i: usize = 0;
    while i < bytes.len()
        invariant
            0 <= i <= bytes@.len(),
            bytes@ == encode_utf8(s@),
            out@ == before + seq![34u8] + esc(bytes@.subrange(0, i as int)),
        decreases bytes.len() - i,
    {
        push_esc_byte(out, bytes[i]);
        assert(bytes@.subrange(0, i + 1).drop_last() =~= bytes@.subrange(0, i as int));
        i = i + 1;
    }
    assert(bytes@.subrange(0, bytes@.len() as int) =~= bytes@);
    out.push(34);
    assert(out@ =~= before + quoted(s@));
}

fn push_decimal(out: &mut Vec<u8>, n: u64)
    ensures
        final(out)@ == old(out)@ + decimal(n as nat),
    decreases n,
{
    let ghost before = out@;
    if n >= 10 {
        push_decimal(out, n / 10);
    }
    out.push(48 + (n % 10) as u8);
    assert(out@ =~= before + decimal(n as nat));
}

fn push_list(out: &mut Vec<u8>, l: &Vec<String>)
    ensures
        final(out)@ == old(out)@ + seq![91u8] + list_items(l@.map_values(|s: String| s@)) + seq![93u8],
{
    let ghost before = out@;
    let ghost lv = l@.map_values(|s: String| s@);
    out.push(91);
    let mut i: usize = 0;
    while i < l.len()
        invariant
            0 <= i <= l@.len(),
            lv == l@.map_values(|s: String| s@),
            out@ == before + seq![91u8] + list_items(lv.subrange(0, i as int)),
        decreases l.len() - i,
    {
        if i > 0 {
            out.push(44);
        }
        push_quoted(out, l[i].as_str());
        assert(lv.subrange(0, i + 1).drop_last() =~= lv.subrange(0, i as int));
        i = i + 1;
    }
    assert(lv.subrange(0, l@.len() as int) =~= lv);
    out.push(93);
}

fn push_map(out: &mut Vec<u8>, m: &Vec<(String, String)>)
    ensures
        final(out)@ == old(out)@ + seq![123u8] + map_items(
            m@.map_values(|p: (String, String)| (p.0@, p.1@)),
        ) + seq![125u8],
{
    let ghost before = out@;
    let ghost mv = m@.map_values(|p: (String, String)| (p.0@, p.1@));
    out.push(123);
    let mut i: usize = 0;
    while i < m.len()
        invariant
            0 <= i <= m@.len(),
            mv == m@.map_values(|p: (String, String)| (p.0@, p.1@)),
            out@ == before + seq![123u8] + map_items(mv.subrange(0, i as int)),
        decreases m.len() - i,
    {
        if i > 0 {
            out.push(44);
        }
        push_quoted(out, m[i].0.as_str());
        out.push(58);
        push_quoted(out, m[i].1.as_str());
        assert(mv.subrange(0, i + 1).drop_last() =~= mv.subrange(0, i as int));
        i = i + 1;
    }
    assert(mv.subrange(0, m@.len() as int) =~= mv);
    out.push(125);
}

fn push_value(out: &mut Vec<u8>, v: &Value)
    ensures
        final(out)@ == old(out)@ + value_json(v@),
{
    let ghost before = out@;
    match v {
        Value::Null => {
            out.push(110);
            out.push(117);
            out.push(108);
            out.push(108);
        },
        Value::Bool(b) => {
            if *b {
                out.push(116);
                out.push(114);
                out.push(117);
                out.push(101);
            } else {
                out.push(102);
                out.push(97);
                out.push(108);
                out.push(115);
                out.push(101);
            }
        },
        Value::Number(n) => push_decimal(out, *n),
        Value::Str(s) => push_quoted(out, s.as_str()),
        Value::StrList(l) => push_list(out, l),
        Value::StrMap(m) => push_map(out, m),
    }
    assert(out@ =~= before + value_json(v@));
}

/// The JSON text of a request body: an object with the fields in order.
pub fn encode_body(f: &Vec<(String, Value)>) -> (r: Vec<u8>)
    ensures
        r@ == body_json(fields_view(f@)),
{
    let ghost fv = fields_view(f@);
    let mut out: Vec<u8> = Vec::new();
    out.push(123);
    let mut i: usize = 0;
    while i < f.len()
        invariant
            0 <= i <= f@.len(),
            fv == fields_view(f@),
            out@ == seq![123u8] + field_items(fv.subrange(0, i as int)),
        decreases f.len() - i,
    {
        if i > 0 {
            out.push(44);
        }
        push_quoted(&mut out, f[i].0.as_str());
        out.push(58);
        push_value(&mut out, &f[i].1);
        assert(fv.subrange(0, i + 1).drop_last() =~= fv.subrange(0, i as int));
        i = i + 1;
    }
    assert(fv.subrange(0, f@.len() as int) =~= fv);
    out.push(125);
    out
}


/// The bytes a request sends as its body: none when it has no fields.
pub fn request_body(req: &HttpRequest) -> (r: Option<Vec<u8>>)
    ensures
        r is None <==> req.body@.len() == 0,
        r matches Some(b) ==> b@ == body_json(fields_view(req.body@)),
{
    if req.body.len() == 0 {
        None
    } else {
        Some(encode_body(&req.body))
    }
}

} // verus!
