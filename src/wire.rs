use vstd::prelude::*;

verus! {

/// A field value as it travels in a request or response body.
#[derive(Debug)]
pub enum Value {
    Null,
    Bool(bool),
    Number(u64),
    Str(String),
    StrList(Vec<String>),
    StrMap(Vec<(String, String)>),
}

/// The mathematical model of a [`Value`].
pub enum ValueV {
    Null,
    Bool(bool),
    Number(u64),
    Str(Seq<char>),
    StrList(Seq<Seq<char>>),
    StrMap(Seq<(Seq<char>, Seq<char>)>),
}

pub open spec fn strs_view(v: Seq<String>) -> Seq<Seq<char>> {
    v.map_values(|s: String| s@)
}

pub open spec fn pairs_view(v: Seq<(String, String)>) -> Seq<(Seq<char>, Seq<char>)> {
    v.map_values(|p: (String, String)| (p.0@, p.1@))
}

impl View for Value {
    type V = ValueV;

    open spec fn view(&self) -> ValueV {
        match self {
            Value::Null => ValueV::Null,
            Value::Bool(b) => ValueV::Bool(*b),
            Value::Number(n) => ValueV::Number(*n),
            Value::Str(s) => ValueV::Str(s@),
            Value::StrList(v) => ValueV::StrList(strs_view(v@)),
            Value::StrMap(v) => ValueV::StrMap(pairs_view(v@)),
        }
    }
}

/// The model of an object body: its named fields, in order.
pub open spec fn fields_view(f: Seq<(String, Value)>) -> Seq<(Seq<char>, ValueV)> {
    f.map_values(|p: (String, Value)| (p.0@, p.1@))
}

/// The value of the first field named `k`, if any.
pub open spec fn find(f: Seq<(Seq<char>, ValueV)>, k: Seq<char>) -> Option<ValueV>
    decreases f.len(),
{
    if f.len() == 0 {
        None
    } else if f[0].0 == k {
        Some(f[0].1)
    } else {
        find(f.drop_first(), k)
    }
}

proof fn lemma_find_step(f: Seq<(Seq<char>, ValueV)>, k: Seq<char>, i: int)
    requires
        0 <= i < f.len(),
        f[i].0 != k,
    ensures
        find(f.subrange(i, f.len() as int), k) == find(f.subrange(i + 1, f.len() as int), k),
{
    assert(f.subrange(i, f.len() as int).drop_first() =~= f.subrange(i + 1, f.len() as int));
}

/// Looks up the first field named `k` in an object body.
pub fn get_field<'a>(f: &'a Vec<(String, Value)>, k: &str) -> (r: Option<&'a Value>)
    ensures
        r is None <==> find(fields_view(f@), k@) is None,
        r matches Some(v) ==> find(fields_view(f@), k@) == Some(v@),
{
    let key = k.to_owned();
    let ghost fv = fields_view(f@);
    let mut i: usize = 0;
    assert(fv.subrange(0, fv.len() as int) =~= fv);
    while i < f.len()
        invariant
            0 <= i <= f.len(),
            fv == fields_view(f@),
            key@ == k@,
            find(fv, k@) == find(fv.subrange(i as int, fv.len() as int), k@),
        decreases f.len() - i,
    {
        if f[i].0 == key {
            let ghost s = fv.subrange(i as int, fv.len() as int);
            assert(s[0] == fv[i as int]);
            return Some(&f[i].1);
        }
        proof {
            lemma_find_step(fv, k@, i as int);
        }
        i = i + 1;
    }
    None
}

/// The text of a string field, if the field is there and holds a string.
pub open spec fn str_field(f: Seq<(Seq<char>, ValueV)>, k: Seq<char>) -> Option<Seq<char>> {
    match find(f, k) {
        Some(ValueV::Str(s)) => Some(s),
        _ => None,
    }
}

pub fn get_str(f: &Vec<(String, Value)>, k: &str) -> (r: Option<String>)
    ensures
        r is None <==> str_field(fields_view(f@), k@) is None,
        r matches Some(s) ==> str_field(fields_view(f@), k@) == Some(s@),
{
    match get_field(f, k) {
        Some(Value::Str(s)) => Some(s.clone()),
        _ => None,
    }
}


/// A field that must hold a number.
pub open spec fn num_field(f: Seq<(Seq<char>, ValueV)>, k: Seq<char>) -> Option<u64> {
    match find(f, k) {
        Some(ValueV::Number(n)) => Some(n),
        _ => None,
    }
}

/// A field that must hold a boolean.
pub open spec fn bool_field(f: Seq<(Seq<char>, ValueV)>, k: Seq<char>) -> Option<bool> {
    match find(f, k) {
        Some(ValueV::Bool(b)) => Some(b),
        _ => None,
    }
}

/// A field that must hold a list of strings.
pub open spec fn list_field(f: Seq<(Seq<char>, ValueV)>, k: Seq<char>) -> Option<Seq<Seq<char>>> {
    match find(f, k) {
        Some(ValueV::StrList(v)) => Some(v),
        _ => None,
    }
}

/// An optional string field: absent or null reads as the empty string.
pub open spec fn opt_str_field(f: Seq<(Seq<char>, ValueV)>, k: Seq<char>) -> Option<Seq<char>> {
    match find(f, k) {
        None => Some(Seq::empty()),
        Some(ValueV::Null) => Some(Seq::empty()),
        Some(ValueV::Str(s)) => Some(s),
        _ => None,
    }
}

/// An optional string map: absent or null reads as the empty map.
pub open spec fn opt_map_field(f: Seq<(Seq<char>, ValueV)>, k: Seq<char>) -> Option<
    Seq<(Seq<char>, Seq<char>)>,
> {
    match find(f, k) {
        None => Some(Seq::empty()),
        Some(ValueV::Null) => Some(Seq::empty()),
        Some(ValueV::StrMap(m)) => Some(m),
        _ => None,
    }
}

/// A copy of a list of strings.
pub fn copy_strs(v: &Vec<String>) -> (r: Vec<String>)
    ensures
        r@ == v@,
{
    let mut r: Vec<String> = Vec::new();
    let mut i: usize = 0;
    while i < v.len()
        invariant
            0 <= i <= v.len(),
            r@ == v@.subrange(0, i as int),
        decreases v.len() - i,
    {
        r.push(v[i].clone());
        assert(r@ =~= v@.subrange(0, i + 1));
        i = i + 1;
    }
    assert(r@ =~= v@);
    r
}

/// A copy of a list of string pairs.
pub fn copy_pairs(v: &Vec<(String, String)>) -> (r: Vec<(String, String)>)
    ensures
        r@ == v@,
{
    let mut r: Vec<(String, String)> = Vec::new();
    let mut i: usize = 0;
    while i < v.len()
        invariant
            0 <= i <= v.len(),
            r@ == v@.subrange(0, i as int),
        decreases v.len() - i,
    {
        r.push((v[i].0.clone(), v[i].1.clone()));
        assert(r@ =~= v@.subrange(0, i + 1));
        i = i + 1;
    }
    assert(r@ =~= v@);
    r
}

pub fn get_num(f: &Vec<(String, Value)>, k: &str) -> (r: Option<u64>)
    ensures
        r == num_field(fields_view(f@), k@),
{
    match get_field(f, k) {
        Some(Value::Number(n)) => Some(*n),
        _ => None,
    }
}

pub fn get_bool(f: &Vec<(String, Value)>, k: &str) -> (r: Option<bool>)
    ensures
        r == bool_field(fields_view(f@), k@),
{
    match get_field(f, k) {
        Some(Value::Bool(b)) => Some(*b),
        _ => None,
    }
}

pub fn get_list(f: &Vec<(String, Value)>, k: &str) -> (r: Option<Vec<String>>)
    ensures
        r is None <==> list_field(fields_view(f@), k@) is None,
        r matches Some(v) ==> list_field(fields_view(f@), k@) == Some(strs_view(v@)),
{
    match get_field(f, k) {
        Some(Value::StrList(v)) => Some(copy_strs(v)),
        _ => None,
    }
}

pub fn get_opt_str(f: &Vec<(String, Value)>, k: &str) -> (r: Option<String>)
    ensures
        r is None <==> opt_str_field(fields_view(f@), k@) is None,
        r matches Some(s) ==> opt_str_field(fields_view(f@), k@) == Some(s@),
{
    match get_field(f, k) {
        None => Some(String::new()),
        Some(Value::Null) => Some(String::new()),
        Some(Value::Str(s)) => Some(s.clone()),
        _ => None,
    }
}

pub fn get_opt_map(f: &Vec<(String, Value)>, k: &str) -> (r: Option<Vec<(String, String)>>)
    ensures
        r is None <==> opt_map_field(fields_view(f@), k@) is None,
        r matches Some(m) ==> opt_map_field(fields_view(f@), k@) == Some(pairs_view(m@)),
{
    match get_field(f, k) {
        None => Some(Vec::new()),
        Some(Value::Null) => Some(Vec::new()),
        Some(Value::StrMap(m)) => Some(copy_pairs(m)),
        _ => None,
    }
}


/// The model of an optional string.
pub open spec fn opt_view(o: Option<String>) -> Option<Seq<char>> {
    match o {
        Some(s) => Some(s@),
        None => None,
    }
}

/// The body entry for an optional string field: none when absent.
pub open spec fn opt_entry(k: Seq<char>, o: Option<Seq<char>>) -> Seq<(Seq<char>, ValueV)> {
    match o {
        Some(s) => seq![(k, ValueV::Str(s))],
        None => Seq::empty(),
    }
}

/// Appends the field `k` to a body when `o` holds a value.
pub fn push_opt_str(body: &mut Vec<(String, Value)>, k: &str, o: &Option<String>)
    ensures
        fields_view(final(body)@) == fields_view(old(body)@) + opt_entry(k@, opt_view(*o)),
{
    let ghost before = body@;
    match o {
        Some(s) => {
            body.push((k.to_owned(), Value::Str(s.clone())));
            assert(fields_view(body@) =~= fields_view(before) + opt_entry(k@, opt_view(*o)));
        },
        None => {
            assert(fields_view(body@) =~= fields_view(before) + opt_entry(k@, opt_view(*o)));
        },
    }
}


/// The body entry for an optional field of any kind: none when absent.
pub open spec fn value_entry(k: Seq<char>, o: Option<ValueV>) -> Seq<(Seq<char>, ValueV)> {
    match o {
        Some(v) => seq![(k, v)],
        None => Seq::empty(),
    }
}

pub open spec fn opt_value_view(o: Option<Value>) -> Option<ValueV> {
    match o {
        Some(v) => Some(v@),
        None => None,
    }
}

/// Appends the field `k` to a body when `o` holds a value.
pub fn push_opt_value(body: &mut Vec<(String, Value)>, k: &str, o: Option<Value>)
    ensures
        fields_view(final(body)@) == fields_view(old(body)@) + value_entry(k@, opt_value_view(o)),
{
    let ghost before = body@;
    let ghost ov = opt_value_view(o);
    match o {
        Some(v) => {
            body.push((k.to_owned(), v));
            assert(fields_view(body@) =~= fields_view(before) + value_entry(k@, ov));
        },
        None => {
            assert(fields_view(body@) =~= fields_view(before) + value_entry(k@, ov));
        },
    }
}

} // verus!
