use vstd::prelude::*;
use crate::api::{Endpoint, HttpResponse, Method, Shape, data_fields, data_of, is_api_error_of,
    is_success};
use crate::error::ClientError;
use crate::wire::{Value, ValueV, fields_view, strs_view, pairs_view, list_field, get_list};

verus! {

/// The path of the secret `path` under the mount `mount`.
pub open spec fn kv_path(mount: Seq<char>, path: Seq<char>) -> Seq<char> {
    mount + "/"@ + path
}

/// The request body that stores a secret: one string field per entry.
pub open spec fn secret_body(m: Seq<(Seq<char>, Seq<char>)>) -> Seq<(Seq<char>, ValueV)> {
    m.map_values(|p: (Seq<char>, Seq<char>)| (p.0, ValueV::Str(p.1)))
}

pub open spec fn all_strings(f: Seq<(Seq<char>, ValueV)>) -> bool {
    forall|i: int| 0 <= i < f.len() ==> (#[trigger] f[i]).1 is Str
}

pub open spec fn strings_of(f: Seq<(Seq<char>, ValueV)>) -> Seq<(Seq<char>, Seq<char>)> {
    f.map_values(|p: (Seq<char>, ValueV)| (p.0, p.1->Str_0))
}

/// The secret held in data fields, if every field holds a string.
pub open spec fn secret_of(f: Seq<(Seq<char>, ValueV)>) -> Option<Seq<(Seq<char>, Seq<char>)>> {
    if all_strings(f) {
        Some(strings_of(f))
    } else {
        None
    }
}

/// What a response to [`get`] decodes to.
pub open spec fn get_result(resp: HttpResponse) -> Option<Seq<(Seq<char>, Seq<char>)>> {
    match data_of(resp) {
        Some(f) => secret_of(f),
        None => None,
    }
}

fn secret_path(mount: &str, path: &str) -> (r: String)
    ensures
        r@ == kv_path(mount@, path@),
{
    let mut r = mount.to_owned();
    r.append("/");
    r.append(path);
    r
}

/// Stores `data` as the secret at `path` under `mount`.
pub fn set(mount: &str, path: &str, data: &Vec<(String, String)>) -> (r: Endpoint)
    ensures
        r.method == Method::Post,
        r.path@ == kv_path(mount@, path@),
        r.shape == Shape::Empty,
        fields_view(r.body@) == secret_body(pairs_view(data@)),
{
    let mut body: Vec<(String, Value)> = Vec::new();
    let mut i: usize = 0;
    while i < data.len()
        invariant
            0 <= i <= data.len(),
            fields_view(body@) == secret_body(pairs_view(data@.subrange(0, i as int))),
        decreases data.len() - i,
    {
        let ghost prev = body@;
        let entry = (data[i].0.clone(), Value::Str(data[i].1.clone()));
        let ghost ev = (entry.0@, entry.1@);
        body.push(entry);
        assert(fields_view(body@) =~= fields_view(prev).push(ev));
        assert(secret_body(pairs_view(data@.subrange(0, i + 1))) =~= secret_body(
            pairs_view(data@.subrange(0, i as int)),
        ).push(ev));
        i = i + 1;
    }
    assert(data@.subrange(0, data.len() as int) =~= data@);
    Endpoint { method: Method::Post, path: secret_path(mount, path), body, shape: Shape::Empty }
}

/// Reads the secret at `path` under `mount`.
pub fn get(mount: &str, path: &str) -> (r: Endpoint)
    ensures
        r.method == Method::Get,
        r.path@ == kv_path(mount@, path@),
        r.shape == Shape::Data,
        r.body@.len() == 0,
{
    Endpoint { method: Method::Get, path: secret_path(mount, path), body: Vec::new(), shape: Shape::Data }
}

/// Reads the secret at `path` under `mount` with its lease.
pub fn get_raw(mount: &str, path: &str) -> (r: Endpoint)
    ensures
        r.method == Method::Get,
        r.path@ == kv_path(mount@, path@),
        r.shape == Shape::Data,
        r.body@.len() == 0,
{
    get(mount, path)
}

/// Lists the keys directly under `path` in `mount`.
pub fn list(mount: &str, path: &str) -> (r: Endpoint)
    ensures
        r.method == Method::List,
        r.path@ == kv_path(mount@, path@),
        r.shape == Shape::Data,
        r.body@.len() == 0,
{
    Endpoint { method: Method::List, path: secret_path(mount, path), body: Vec::new(), shape: Shape::Data }
}

/// Deletes the secret at `path` under `mount`.
pub fn delete(mount: &str, path: &str) -> (r: Endpoint)
    ensures
        r.method == Method::Delete,
        r.path@ == kv_path(mount@, path@),
        r.shape == Shape::Empty,
        r.body@.len() == 0,
{
    Endpoint {
        method: Method::Delete,
        path: secret_path(mount, path),
        body: Vec::new(),
        shape: Shape::Empty,
    }
}

/// Reads a secret out of data fields.
pub fn parse_secret(f: &Vec<(String, Value)>) -> (r: Option<Vec<(String, String)>>)
    ensures
        r is None <==> secret_of(fields_view(f@)) is None,
        r matches Some(m) ==> secret_of(fields_view(f@)) == Some(pairs_view(m@)),
{
    let ghost fv = fields_view(f@);
    let mut r: Vec<(String, String)> = Vec::new();
    let mut i: usize = 0;
    while i < f.len()
        invariant
            0 <= i <= f.len(),
            fv == fields_view(f@),
            forall|j: int| 0 <= j < i ==> (#[trigger] fv[j]).1 is Str,
            pairs_view(r@) == strings_of(fv.subrange(0, i as int)),
        decreases f.len() - i,
    {
        match &f[i].1 {
            Value::Str(s) => {
                let ghost prev = r@;
                let entry = (f[i].0.clone(), s.clone());
                let ghost ev = (entry.0@, entry.1@);
                r.push(entry);
                assert(pairs_view(r@) =~= pairs_view(prev).push(ev));
                assert(strings_of(fv.subrange(0, i + 1)) =~= strings_of(fv.subrange(0, i as int)).push(ev));
            },
            _ => {
                assert(!(fv[i as int].1 is Str));
                return None;
            },
        }
        i = i + 1;
    }
    assert(fv.subrange(0, f.len() as int) =~= fv);
    Some(r)
}

/// Decodes the response to [`get`].
pub fn decode_get(resp: &HttpResponse) -> (r: Result<Vec<(String, String)>, ClientError>)
    ensures
        r is Ok <==> is_success(resp.status) && get_result(*resp) is Some,
        r matches Ok(m) ==> get_result(*resp) == Some(pairs_view(m@)),
        r matches Err(e) ==> if is_success(resp.status) {
            e is ResponseError
        } else {
            is_api_error_of(e, *resp)
        },
{
    let f = data_fields(resp)?;
    match parse_secret(f) {
        Some(m) => Ok(m),
        None => Err(ClientError::ResponseError { reason: "secret values must be strings".to_owned() }),
    }
}

/// A secret together with its lease.
#[derive(Debug)]
pub struct GetSecretResponse {
    pub data: Vec<(String, String)>,
    pub lease_id: String,
    pub lease_duration: u64,
    pub renewable: bool,
}

impl GetSecretResponse {
    /// The value stored under `key`, if any.
    pub fn value(&self, key: &str) -> (r: Option<String>)
        ensures
            r is None <==> !exists|i: int| 0 <= i < self.data@.len() && (#[trigger] self.data@[i]).0@ == key@,
            r matches Some(v) ==> exists|i: int| 0 <= i < self.data@.len() && (#[trigger] self.data@[i]).0@ == key@
                && self.data@[i].1@ == v@,
    {
        let k = key.to_owned();
        let mut i: usize = 0;
        while i < self.data.len()
            invariant
                0 <= i <= self.data@.len(),
                k@ == key@,
                forall|j: int| 0 <= j < i ==> (#[trigger] self.data@[j]).0@ != key@,
            decreases self.data.len() - i,
        {
            if self.data[i].0 == k {
                return Some(self.data[i].1.clone());
            }
            i = i + 1;
        }
        None
    }
}

/// Decodes the response to [`get_raw`]. A response with status 404 (a
/// secret that is not there, such as one deleted) is an API error with
/// that code.
pub fn decode_get_raw(resp: &HttpResponse) -> (r: Result<GetSecretResponse, ClientError>)
    ensures
        r is Ok <==> is_success(resp.status) && get_result(*resp) is Some,
        r matches Ok(g) ==> get_result(*resp) == Some(pairs_view(g.data@)) && g.lease_id@
            == resp.lease_id@ && g.lease_duration == resp.lease_duration && g.renewable
            == resp.renewable,
        r matches Err(e) ==> if is_success(resp.status) {
            e is ResponseError
        } else {
            is_api_error_of(e, *resp)
        },
        resp.status == 404 ==> (r matches Err(ClientError::APIError { code, .. }) && code == 404),
{
    let data = decode_get(resp)?;
    Ok(
        GetSecretResponse {
            data,
            lease_id: resp.lease_id.clone(),
            lease_duration: resp.lease_duration,
            renewable: resp.renewable,
        },
    )
}

/// The keys found under a listed path.
#[derive(Debug)]
pub struct ListSecretResponse {
    pub keys: Vec<String>,
}

/// What a response to [`list`] decodes to: the `keys` data field.
pub open spec fn list_result(resp: HttpResponse) -> Option<Seq<Seq<char>>> {
    match data_of(resp) {
        Some(f) => list_field(f, "keys"@),
        None => None,
    }
}

/// Decodes the response to [`list`]: exactly the keys the service named,
/// in its order.
pub fn decode_list(resp: &HttpResponse) -> (r: Result<ListSecretResponse, ClientError>)
    ensures
        r is Ok <==> is_success(resp.status) && list_result(*resp) is Some,
        r matches Ok(l) ==> list_result(*resp) == Some(strs_view(l.keys@)),
        r matches Err(e) ==> if is_success(resp.status) {
            e is ResponseError
        } else {
            is_api_error_of(e, *resp)
        },
{
    let f = data_fields(resp)?;
    match get_list(f, "keys") {
        Some(keys) => Ok(ListSecretResponse { keys }),
        None => Err(ClientError::ResponseError { reason: "expected a list of keys".to_owned() }),
    }
}

/// Whatever mapping is stored with [`set`], a success answer to [`get`]
/// whose data is the body that was sent decodes to that same mapping.
pub proof fn lemma_set_then_get(m: Seq<(Seq<char>, Seq<char>)>, resp: HttpResponse)
    requires
        data_of(resp) == Some(secret_body(m)),
    ensures
        get_result(resp) == Some(m),
{
    let f = secret_body(m);
    assert(all_strings(f));
    assert(strings_of(f) =~= m);
}

} // verus!
