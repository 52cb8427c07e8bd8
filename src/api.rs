use vstd::prelude::*;
use crate::error::ClientError;
use crate::wire::{
    Value, ValueV, fields_view, strs_view, pairs_view, str_field, num_field, bool_field,
    list_field, opt_str_field, opt_map_field, get_str, get_num, get_bool, get_list, get_opt_str,
    get_opt_map, copy_strs,
};

verus! {

/// The HTTP verb of a request (`List` is the service's own verb).
#[derive(PartialEq, Eq, Structural, Clone, Copy, Debug)]
pub enum Method {
    Get,
    Post,
    List,
    Delete,
}

/// What a success answer to a request carries.
#[derive(PartialEq, Eq, Structural, Clone, Copy, Debug)]
pub enum Shape {
    /// A `data` payload, decoded into the request's result type.
    Data,
    /// An `auth` payload, decoded into an [`AuthInfo`].
    Auth,
    /// Nothing that the caller reads.
    Empty,
}

/// One API call, fully described and validated.
#[derive(Debug)]
pub struct Endpoint {
    pub method: Method,
    /// The path under the API prefix, positional segments substituted.
    pub path: String,
    /// The fields of the JSON body; empty means no body.
    pub body: Vec<(String, Value)>,
    pub shape: Shape,
}

/// Where requests go and the token they carry.
#[derive(Debug)]
pub struct VaultClient {
    pub address: String,
    pub token: String,
}

/// What goes on the wire for one call.
#[derive(Debug)]
pub struct HttpRequest {
    pub method: Method,
    pub url: String,
    /// The value of the token header.
    pub token: String,
    pub body: Vec<(String, Value)>,
}

/// The payload of a response: exactly one kind is present.
#[derive(Debug)]
pub enum Payload {
    Data(Vec<(String, Value)>),
    Auth(Vec<(String, Value)>),
    Errors(Vec<String>),
    Nothing,
}

/// A response as it came back.
#[derive(Debug)]
pub struct HttpResponse {
    pub status: u16,
    pub payload: Payload,
    pub lease_id: String,
    pub lease_duration: u64,
    pub renewable: bool,
}

/// The URL of a path on a service at `address`.
pub open spec fn url_of(address: Seq<char>, path: Seq<char>) -> Seq<char> {
    address + "/v1/"@ + path
}

impl VaultClient {
    pub fn new(address: &str, token: &str) -> (r: VaultClient)
        ensures
            r.address@ == address@,
            r.token@ == token@,
    {
        VaultClient { address: address.to_owned(), token: token.to_owned() }
    }

    /// The request that carries `ep` to this client's service.
    pub fn request(&self, ep: Endpoint) -> (r: HttpRequest)
        ensures
            r.method == ep.method,
            r.url@ == url_of(self.address@, ep.path@),
            r.token@ == self.token@,
            fields_view(r.body@) == fields_view(ep.body@),
    {
        let mut url = self.address.clone();
        url.append("/v1/");
        url.append(ep.path.as_str());
        HttpRequest { method: ep.method, url, token: self.token.clone(), body: ep.body }
    }
}

pub open spec fn is_success(status: u16) -> bool {
    200 <= status <= 299
}

/// The server's messages in an error payload; none for any other payload.
pub open spec fn error_messages(p: Payload) -> Seq<Seq<char>> {
    match p {
        Payload::Errors(v) => strs_view(v@),
        _ => Seq::empty(),
    }
}

/// `e` is the API error that answers a failed response `resp`.
pub open spec fn is_api_error_of(e: ClientError, resp: HttpResponse) -> bool {
    match e {
        ClientError::APIError { code, errors } => code == resp.status && strs_view(errors@)
            == error_messages(resp.payload),
        _ => false,
    }
}

/// Classifies a response by its status, before any payload is read.
pub fn check_status(resp: &HttpResponse) -> (r: Result<(), ClientError>)
    ensures
        r is Ok <==> is_success(resp.status),
        r matches Err(e) ==> is_api_error_of(e, *resp),
{
    if 200 <= resp.status && resp.status <= 299 {
        Ok(())
    } else {
        let errors = match &resp.payload {
            Payload::Errors(v) => copy_strs(v),
            _ => Vec::new(),
        };
        assert(strs_view(errors@) =~= error_messages(resp.payload));
        Err(ClientError::APIError { code: resp.status, errors })
    }
}

/// Decodes a response to a request of shape [`Shape::Empty`].
pub fn decode_empty(resp: &HttpResponse) -> (r: Result<(), ClientError>)
    ensures
        r is Ok <==> is_success(resp.status),
        r matches Err(e) ==> is_api_error_of(e, *resp),
{
    check_status(resp)
}

/// The data fields of a success response, if it carries a data payload.
pub open spec fn data_of(resp: HttpResponse) -> Option<Seq<(Seq<char>, ValueV)>> {
    match resp.payload {
        Payload::Data(f) => Some(fields_view(f@)),
        _ => None,
    }
}

/// The data payload of a response to a request of shape [`Shape::Data`].
pub fn data_fields(resp: &HttpResponse) -> (r: Result<&Vec<(String, Value)>, ClientError>)
    ensures
        r is Ok <==> is_success(resp.status) && data_of(*resp) is Some,
        r matches Ok(f) ==> data_of(*resp) == Some(fields_view(f@)),
        r matches Err(e) ==> if is_success(resp.status) {
            e is ResponseError
        } else {
            is_api_error_of(e, *resp)
        },
{
    check_status(resp)?;
    match &resp.payload {
        Payload::Data(f) => Ok(f),
        _ => Err(ClientError::ResponseError { reason: "expected a data payload".to_owned() }),
    }
}

/// What a token-issuing or token-renewing call returns.
#[derive(Debug)]
pub struct AuthInfo {
    pub client_token: String,
    pub accessor: String,
    pub policies: Vec<String>,
    pub lease_duration: u64,
    pub renewable: bool,
    pub metadata: Vec<(String, String)>,
    pub entity_id: String,
    pub token_type: String,
}

pub struct AuthInfoV {
    pub client_token: Seq<char>,
    pub accessor: Seq<char>,
    pub policies: Seq<Seq<char>>,
    pub lease_duration: u64,
    pub renewable: bool,
    pub metadata: Seq<(Seq<char>, Seq<char>)>,
    pub entity_id: Seq<char>,
    pub token_type: Seq<char>,
}

impl View for AuthInfo {
    type V = AuthInfoV;

    open spec fn view(&self) -> AuthInfoV {
        AuthInfoV {
            client_token: self.client_token@,
            accessor: self.accessor@,
            policies: strs_view(self.policies@),
            lease_duration: self.lease_duration,
            renewable: self.renewable,
            metadata: pairs_view(self.metadata@),
            entity_id: self.entity_id@,
            token_type: self.token_type@,
        }
    }
}

/// The token described by the fields of an auth block, if they describe one:
/// a non-empty `client_token`, an `accessor`, `policies`, `lease_duration`
/// and `renewable` are required; `metadata`, `entity_id` and `token_type` may
/// be absent or null.
pub open spec fn auth_of(f: Seq<(Seq<char>, ValueV)>) -> Option<AuthInfoV> {
    if str_field(f, "client_token"@) is Some && str_field(f, "client_token"@).unwrap().len() > 0
        && str_field(f, "accessor"@) is Some && list_field(f, "policies"@) is Some && num_field(
        f,
        "lease_duration"@,
    ) is Some && bool_field(f, "renewable"@) is Some && opt_map_field(f, "metadata"@) is Some
        && opt_str_field(f, "entity_id"@) is Some && opt_str_field(f, "token_type"@) is Some {
        Some(
            AuthInfoV {
                client_token: str_field(f, "client_token"@).unwrap(),
                accessor: str_field(f, "accessor"@).unwrap(),
                policies: list_field(f, "policies"@).unwrap(),
                lease_duration: num_field(f, "lease_duration"@).unwrap(),
                renewable: bool_field(f, "renewable"@).unwrap(),
                metadata: opt_map_field(f, "metadata"@).unwrap(),
                entity_id: opt_str_field(f, "entity_id"@).unwrap(),
                token_type: opt_str_field(f, "token_type"@).unwrap(),
            },
        )
    } else {
        None
    }
}

/// The fields of the auth payload of a response, if it carries one.
pub open spec fn auth_fields(resp: HttpResponse) -> Option<Seq<(Seq<char>, ValueV)>> {
    match resp.payload {
        Payload::Auth(f) => Some(fields_view(f@)),
        _ => None,
    }
}

/// What a response to a request of shape [`Shape::Auth`] decodes to.
pub open spec fn auth_result(resp: HttpResponse) -> Option<AuthInfoV> {
    match auth_fields(resp) {
        Some(f) => auth_of(f),
        None => None,
    }
}

/// Decodes the fields of an auth block.
pub fn parse_auth(f: &Vec<(String, Value)>) -> (r: Option<AuthInfo>)
    ensures
        r is None <==> auth_of(fields_view(f@)) is None,
        r matches Some(a) ==> auth_of(fields_view(f@)) == Some(a@),
{
    let client_token = match get_str(f, "client_token") {
        Some(t) => t,
        None => return None,
    };
    if client_token.as_str().is_empty() {
        return None;
    }
    let accessor = match get_str(f, "accessor") {
        Some(t) => t,
        None => return None,
    };
    let policies = match get_list(f, "policies") {
        Some(t) => t,
        None => return None,
    };
    let lease_duration = match get_num(f, "lease_duration") {
        Some(t) => t,
        None => return None,
    };
    let renewable = match get_bool(f, "renewable") {
        Some(t) => t,
        None => return None,
    };
    let metadata = match get_opt_map(f, "metadata") {
        Some(t) => t,
        None => return None,
    };
    let entity_id = match get_opt_str(f, "entity_id") {
        Some(t) => t,
        None => return None,
    };
    let token_type = match get_opt_str(f, "token_type") {
        Some(t) => t,
        None => return None,
    };
    Some(
        AuthInfo {
            client_token,
            accessor,
            policies,
            lease_duration,
            renewable,
            metadata,
            entity_id,
            token_type,
        },
    )
}

/// Decodes a response to a request of shape [`Shape::Auth`]. A success
/// always holds a non-empty token, and its renewable flag is the server's.
pub fn decode_auth(resp: &HttpResponse) -> (r: Result<AuthInfo, ClientError>)
    ensures
        r is Ok <==> is_success(resp.status) && auth_result(*resp) is Some,
        r matches Ok(a) ==> auth_result(*resp) == Some(a@),
        r matches Ok(a) ==> a.client_token@.len() > 0,
        r matches Ok(a) ==> auth_fields(*resp) matches Some(f) && bool_field(f, "renewable"@)
            == Some(a.renewable),
        r matches Err(e) ==> if is_success(resp.status) {
            e is ResponseError
        } else {
            is_api_error_of(e, *resp)
        },
{
    check_status(resp)?;
    match &resp.payload {
        Payload::Auth(f) => match parse_auth(f) {
            Some(a) => Ok(a),
            None => Err(ClientError::ResponseError { reason: "malformed auth payload".to_owned() }),
        },
        _ => Err(ClientError::ResponseError { reason: "expected an auth payload".to_owned() }),
    }
}


/// A decoded success answer, by the shape that its request declared.
#[derive(Debug)]
pub enum Decoded {
    Data(Vec<(String, Value)>),
    Auth(AuthInfo),
    Empty,
}

/// Decodes `resp` by the response shape that its request declared. The
/// status is classified first: a failed status is an API error whatever the
/// payload holds.
pub fn decode(shape: Shape, resp: HttpResponse) -> (r: Result<Decoded, ClientError>)
    ensures
        !is_success(resp.status) ==> (r matches Err(e) && is_api_error_of(e, resp)),
        is_success(resp.status) && shape == Shape::Empty ==> r matches Ok(Decoded::Empty),
        is_success(resp.status) && shape == Shape::Data ==> match data_of(resp) {
            Some(f) => r matches Ok(Decoded::Data(g)) && fields_view(g@) == f,
            None => r matches Err(e) && e is ResponseError,
        },
        is_success(resp.status) && shape == Shape::Auth ==> match auth_result(resp) {
            Some(a) => r matches Ok(Decoded::Auth(x)) && x@ == a,
            None => r matches Err(e) && e is ResponseError,
        },
{
    check_status(&resp)?;
    match shape {
        Shape::Empty => Ok(Decoded::Empty),
        Shape::Auth => match decode_auth(&resp) {
            Ok(a) => Ok(Decoded::Auth(a)),
            Err(e) => Err(e),
        },
        Shape::Data => match resp.payload {
            Payload::Data(f) => Ok(Decoded::Data(f)),
            _ => Err(ClientError::ResponseError { reason: "expected a data payload".to_owned() }),
        },
    }
}

} // verus!
