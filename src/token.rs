use vstd::prelude::*;
use crate::api::{Endpoint, HttpResponse, Method, Shape, data_fields, data_of, is_api_error_of,
    is_success};
use crate::error::ClientError;
use crate::wire::{
    Value, ValueV, fields_view, strs_view, pairs_view, opt_view, opt_entry, opt_value_view,
    value_entry, push_opt_str, push_opt_value, copy_strs, copy_pairs, find, str_field, num_field,
    bool_field, list_field, get_str, get_num, get_bool, get_list,
};

verus! {

/// The error of a builder that lacks the field `name`.
pub open spec fn is_missing(e: ClientError, name: Seq<char>) -> bool {
    e matches ClientError::UsageError { field } && field@ == name
}

/// A POST endpoint whose body is the single string field `k`.
pub open spec fn keyed_post(
    ep: Endpoint,
    path: Seq<char>,
    k: Seq<char>,
    v: Seq<char>,
    shape: Shape,
) -> bool {
    ep.method == Method::Post && ep.path@ == path && ep.shape == shape
        && fields_view(ep.body@) == seq![(k, ValueV::Str(v))]
}

/// A POST endpoint whose body is an optional field `k` and an optional
/// `increment`, in that order; an absent value leaves no field.
pub open spec fn renew_post(
    ep: Endpoint,
    path: Seq<char>,
    k: Seq<char>,
    v: Option<Seq<char>>,
    increment: Option<Seq<char>>,
) -> bool {
    ep.method == Method::Post && ep.path@ == path && ep.shape == Shape::Auth
        && fields_view(ep.body@) == opt_entry(k, v) + opt_entry("increment"@, increment)
}

fn missing(name: &str) -> (e: ClientError)
    ensures
        is_missing(e, name@),
{
    ClientError::UsageError { field: name.to_owned() }
}

fn single_field_body(k: &str, v: &String) -> (r: Vec<(String, Value)>)
    ensures
        fields_view(r@) == seq![(k@, ValueV::Str(v@))],
{
    let mut body: Vec<(String, Value)> = Vec::new();
    body.push((k.to_owned(), Value::Str(v.clone())));
    assert(fields_view(body@) =~= seq![(k@, ValueV::Str(v@))]);
    body
}

/// Builds a lookup of a token by its value; the token is required.
pub struct LookupTokenRequestBuilder {
    pub token: Option<String>,
}

impl LookupTokenRequestBuilder {
    pub fn new() -> (r: Self)
        ensures
            r.token is None,
    {
        LookupTokenRequestBuilder { token: None }
    }

    pub fn token(self, token: &str) -> (r: Self)
        ensures
            opt_view(r.token) == Some(token@),
    {
        LookupTokenRequestBuilder { token: Some(token.to_owned()) }
    }

    pub fn build(&self) -> (r: Result<Endpoint, ClientError>)
        ensures
            r is Err <==> self.token is None,
            r matches Err(e) ==> is_missing(e, "token"@),
            r matches Ok(ep) ==> keyed_post(
                ep,
                "auth/token/lookup"@,
                "token"@,
                self.token.unwrap()@,
                Shape::Data,
            ),
    {
        match &self.token {
            Some(t) => Ok(
                Endpoint {
                    method: Method::Post,
                    path: "auth/token/lookup".to_owned(),
                    body: single_field_body("token", t),
                    shape: Shape::Data,
                },
            ),
            None => Err(missing("token")),
        }
    }
}

/// Builds a lookup of a token by its accessor; the accessor is required.
pub struct LookupTokenAccessorRequestBuilder {
    pub accessor: Option<String>,
}

impl LookupTokenAccessorRequestBuilder {
    pub fn new() -> (r: Self)
        ensures
            r.accessor is None,
    {
        LookupTokenAccessorRequestBuilder { accessor: None }
    }

    pub fn accessor(self, accessor: &str) -> (r: Self)
        ensures
            opt_view(r.accessor) == Some(accessor@),
    {
        LookupTokenAccessorRequestBuilder { accessor: Some(accessor.to_owned()) }
    }

    pub fn build(&self) -> (r: Result<Endpoint, ClientError>)
        ensures
            r is Err <==> self.accessor is None,
            r matches Err(e) ==> is_missing(e, "accessor"@),
            r matches Ok(ep) ==> keyed_post(
                ep,
                "auth/token/lookup-accessor"@,
                "accessor"@,
                self.accessor.unwrap()@,
                Shape::Data,
            ),
    {
        match &self.accessor {
            Some(a) => Ok(
                Endpoint {
                    method: Method::Post,
                    path: "auth/token/lookup-accessor".to_owned(),
                    body: single_field_body("accessor", a),
                    shape: Shape::Data,
                },
            ),
            None => Err(missing("accessor")),
        }
    }
}

/// Looks up a token.
pub fn lookup(token: &str) -> (r: Endpoint)
    ensures
        keyed_post(r, "auth/token/lookup"@, "token"@, token@, Shape::Data),
{
    LookupTokenRequestBuilder::new().token(token).build().unwrap()
}

/// Looks up a token by its accessor.
pub fn lookup_accessor(accessor: &str) -> (r: Endpoint)
    ensures
        keyed_post(r, "auth/token/lookup-accessor"@, "accessor"@, accessor@, Shape::Data),
{
    LookupTokenAccessorRequestBuilder::new().accessor(accessor).build().unwrap()
}

/// Looks up the token that the request carries in its header.
pub fn lookup_self() -> (r: Endpoint)
    ensures
        r.method == Method::Get,
        r.path@ == "auth/token/lookup-self"@,
        r.body@.len() == 0,
        r.shape == Shape::Data,
{
    Endpoint {
        method: Method::Get,
        path: "auth/token/lookup-self".to_owned(),
        body: Vec::new(),
        shape: Shape::Data,
    }
}


/// Builds a renewal of a token by its value; the token is required.
pub struct RenewTokenRequestBuilder {
    pub token: Option<String>,
    pub increment: Option<String>,
}

impl RenewTokenRequestBuilder {
    pub fn new() -> (r: Self)
        ensures
            r.token is None,
            r.increment is None,
    {
        RenewTokenRequestBuilder { token: None, increment: None }
    }

    pub fn token(&mut self, token: &str)
        ensures
            opt_view(final(self).token) == Some(token@),
            final(self).increment == old(self).increment,
    {
        self.token = Some(token.to_owned());
    }

    pub fn increment(&mut self, increment: &str)
        ensures
            opt_view(final(self).increment) == Some(increment@),
            final(self).token == old(self).token,
    {
        self.increment = Some(increment.to_owned());
    }

    pub fn build(&self) -> (r: Result<Endpoint, ClientError>)
        ensures
            r is Err <==> self.token is None,
            r matches Err(e) ==> is_missing(e, "token"@),
            r matches Ok(ep) ==> renew_post(
                ep,
                "auth/token/renew"@,
                "token"@,
                opt_view(self.token),
                opt_view(self.increment),
            ),
    {
        if self.token.is_none() {
            return Err(missing("token"));
        }
        let mut body: Vec<(String, Value)> = Vec::new();
        push_opt_str(&mut body, "token", &self.token);
        push_opt_str(&mut body, "increment", &self.increment);
        assert(fields_view(Seq::<(String, Value)>::empty()) =~= Seq::empty());
        assert(Seq::<(Seq<char>, ValueV)>::empty() + opt_entry("token"@, opt_view(self.token))
            =~= opt_entry("token"@, opt_view(self.token)));
        Ok(Endpoint { method: Method::Post, path: "auth/token/renew".to_owned(), body, shape: Shape::Auth })
    }
}

/// Builds a renewal of a token by its accessor; the accessor is required.
pub struct RenewTokenAccessorRequestBuilder {
    pub accessor: Option<String>,
    pub increment: Option<String>,
}

impl RenewTokenAccessorRequestBuilder {
    pub fn new() -> (r: Self)
        ensures
            r.accessor is None,
            r.increment is None,
    {
        RenewTokenAccessorRequestBuilder { accessor: None, increment: None }
    }

    pub fn accessor(&mut self, accessor: &str)
        ensures
            opt_view(final(self).accessor) == Some(accessor@),
            final(self).increment == old(self).increment,
    {
        self.accessor = Some(accessor.to_owned());
    }

    pub fn increment(&mut self, increment: &str)
        ensures
            opt_view(final(self).increment) == Some(increment@),
            final(self).accessor == old(self).accessor,
    {
        self.increment = Some(increment.to_owned());
    }

    pub fn build(&self) -> (r: Result<Endpoint, ClientError>)
        ensures
            r is Err <==> self.accessor is None,
            r matches Err(e) ==> is_missing(e, "accessor"@),
            r matches Ok(ep) ==> renew_post(
                ep,
                "auth/token/renew-accessor"@,
                "accessor"@,
                opt_view(self.accessor),
                opt_view(self.increment),
            ),
    {
        if self.accessor.is_none() {
            return Err(missing("accessor"));
        }
        let mut body: Vec<(String, Value)> = Vec::new();
        push_opt_str(&mut body, "accessor", &self.accessor);
        push_opt_str(&mut body, "increment", &self.increment);
        assert(fields_view(Seq::<(String, Value)>::empty()) =~= Seq::empty());
        assert(Seq::<(Seq<char>, ValueV)>::empty() + opt_entry("accessor"@, opt_view(self.accessor))
            =~= opt_entry("accessor"@, opt_view(self.accessor)));
        Ok(
            Endpoint {
                method: Method::Post,
                path: "auth/token/renew-accessor".to_owned(),
                body,
                shape: Shape::Auth,
            },
        )
    }
}

/// Builds a renewal of the token that the request carries in its header.
pub struct RenewTokenSelfRequestBuilder {
    pub increment: Option<String>,
}

impl RenewTokenSelfRequestBuilder {
    pub fn new() -> (r: Self)
        ensures
            r.increment is None,
    {
        RenewTokenSelfRequestBuilder { increment: None }
    }

    pub fn increment(&mut self, increment: &str)
        ensures
            opt_view(final(self).increment) == Some(increment@),
    {
        self.increment = Some(increment.to_owned());
    }

    pub fn build(&self) -> (r: Result<Endpoint, ClientError>)
        ensures
            r matches Ok(ep) && renew_post(
                ep,
                "auth/token/renew-self"@,
                "increment"@,
                None,
                opt_view(self.increment),
            ),
    {
        let mut body: Vec<(String, Value)> = Vec::new();
        push_opt_str(&mut body, "increment", &self.increment);
        assert(fields_view(Seq::<(String, Value)>::empty()) =~= Seq::empty());
        assert(opt_entry("increment"@, None) =~= Seq::<(Seq<char>, ValueV)>::empty());
        Ok(
            Endpoint {
                method: Method::Post,
                path: "auth/token/renew-self".to_owned(),
                body,
                shape: Shape::Auth,
            },
        )
    }
}

/// The model of an optional borrowed string.
pub open spec fn opt_str_view(o: Option<&str>) -> Option<Seq<char>> {
    match o {
        Some(s) => Some(s@),
        None => None,
    }
}

/// Renews a token, by `increment` when one is given; without one the
/// request carries no increment and the service applies its default.
pub fn renew(token: &str, increment: Option<&str>) -> (r: Endpoint)
    ensures
        renew_post(r, "auth/token/renew"@, "token"@, Some(token@), opt_str_view(increment)),
{
    let mut endpoint = RenewTokenRequestBuilder::new();
    if let Some(inc) = increment {
        endpoint.increment(inc);
    }
    endpoint.token(token);
    endpoint.build().unwrap()
}

/// Renews a token by its accessor, by `increment` when one is given.
pub fn renew_accessor(accessor: &str, increment: Option<&str>) -> (r: Endpoint)
    ensures
        renew_post(
            r,
            "auth/token/renew-accessor"@,
            "accessor"@,
            Some(accessor@),
            opt_str_view(increment),
        ),
{
    let mut endpoint = RenewTokenAccessorRequestBuilder::new();
    if let Some(inc) = increment {
        endpoint.increment(inc);
    }
    endpoint.accessor(accessor);
    endpoint.build().unwrap()
}

/// Renews the token that the request carries, by `increment` when one is
/// given.
pub fn renew_self(increment: Option<&str>) -> (r: Endpoint)
    ensures
        renew_post(r, "auth/token/renew-self"@, "increment"@, None, opt_str_view(increment)),
{
    let mut endpoint = RenewTokenSelfRequestBuilder::new();
    if let Some(inc) = increment {
        endpoint.increment(inc);
    }
    endpoint.build().unwrap()
}


/// Options of a token to create; every field is optional.
pub struct CreateTokenRequestBuilder {
    pub ttl: Option<String>,
    pub display_name: Option<String>,
    pub policies: Option<Vec<String>>,
    pub meta: Option<Vec<(String, String)>>,
    pub num_uses: Option<u64>,
    pub renewable: Option<bool>,
    pub entity_alias: Option<String>,
}

pub open spec fn str_value(o: Option<String>) -> Option<ValueV> {
    match o {
        Some(s) => Some(ValueV::Str(s@)),
        None => None,
    }
}

pub open spec fn list_value(o: Option<Vec<String>>) -> Option<ValueV> {
    match o {
        Some(v) => Some(ValueV::StrList(strs_view(v@))),
        None => None,
    }
}

pub open spec fn map_value(o: Option<Vec<(String, String)>>) -> Option<ValueV> {
    match o {
        Some(m) => Some(ValueV::StrMap(pairs_view(m@))),
        None => None,
    }
}

pub open spec fn num_value(o: Option<u64>) -> Option<ValueV> {
    match o {
        Some(n) => Some(ValueV::Number(n)),
        None => None,
    }
}

pub open spec fn bool_value(o: Option<bool>) -> Option<ValueV> {
    match o {
        Some(b) => Some(ValueV::Bool(b)),
        None => None,
    }
}

/// The body of a token creation: the options that are set, in a fixed order.
pub open spec fn create_body(b: CreateTokenRequestBuilder) -> Seq<(Seq<char>, ValueV)> {
    value_entry("ttl"@, str_value(b.ttl)) + value_entry("display_name"@, str_value(b.display_name))
        + value_entry("policies"@, list_value(b.policies)) + value_entry("meta"@, map_value(b.meta))
        + value_entry("num_uses"@, num_value(b.num_uses)) + value_entry(
        "renewable"@,
        bool_value(b.renewable),
    ) + value_entry("entity_alias"@, str_value(b.entity_alias))
}

pub open spec fn no_options(b: CreateTokenRequestBuilder) -> bool {
    b.ttl is None && b.display_name is None && b.policies is None && b.meta is None
        && b.num_uses is None && b.renewable is None && b.entity_alias is None
}

fn str_opt(o: &Option<String>) -> (r: Option<Value>)
    ensures
        opt_value_view(r) == str_value(*o),
{
    match o {
        Some(s) => Some(Value::Str(s.clone())),
        None => None,
    }
}

impl CreateTokenRequestBuilder {
    pub fn new() -> (r: Self)
        ensures
            no_options(r),
    {
        CreateTokenRequestBuilder {
            ttl: None,
            display_name: None,
            policies: None,
            meta: None,
            num_uses: None,
            renewable: None,
            entity_alias: None,
        }
    }

    pub fn ttl(self, ttl: &str) -> (r: Self)
        ensures
            r == (CreateTokenRequestBuilder { ttl: r.ttl, ..self }),
            opt_view(r.ttl) == Some(ttl@),
    {
        CreateTokenRequestBuilder { ttl: Some(ttl.to_owned()), ..self }
    }

    pub fn display_name(self, name: &str) -> (r: Self)
        ensures
            r == (CreateTokenRequestBuilder { display_name: r.display_name, ..self }),
            opt_view(r.display_name) == Some(name@),
    {
        CreateTokenRequestBuilder { display_name: Some(name.to_owned()), ..self }
    }

    pub fn policies(self, policies: Vec<String>) -> (r: Self)
        ensures
            r == (CreateTokenRequestBuilder { policies: Some(policies), ..self }),
    {
        CreateTokenRequestBuilder { policies: Some(policies), ..self }
    }

    pub fn meta(self, meta: Vec<(String, String)>) -> (r: Self)
        ensures
            r == (CreateTokenRequestBuilder { meta: Some(meta), ..self }),
    {
        CreateTokenRequestBuilder { meta: Some(meta), ..self }
    }

    pub fn num_uses(self, n: u64) -> (r: Self)
        ensures
            r == (CreateTokenRequestBuilder { num_uses: Some(n), ..self }),
    {
        CreateTokenRequestBuilder { num_uses: Some(n), ..self }
    }

    pub fn renewable(self, renewable: bool) -> (r: Self)
        ensures
            r == (CreateTokenRequestBuilder { renewable: Some(renewable), ..self }),
    {
        CreateTokenRequestBuilder { renewable: Some(renewable), ..self }
    }

    pub fn entity_alias(self, alias: &str) -> (r: Self)
        ensures
            r == (CreateTokenRequestBuilder { entity_alias: r.entity_alias, ..self }),
            opt_view(r.entity_alias) == Some(alias@),
    {
        CreateTokenRequestBuilder { entity_alias: Some(alias.to_owned()), ..self }
    }

    /// The request body that these options make.
    pub fn body(&self) -> (r: Vec<(String, Value)>)
        ensures
            fields_view(r@) == create_body(*self),
    {
        let mut body: Vec<(String, Value)> = Vec::new();
        assert(fields_view(body@) =~= Seq::empty());
        push_opt_value(&mut body, "ttl", str_opt(&self.ttl));
        push_opt_value(&mut body, "display_name", str_opt(&self.display_name));
        let policies = match &self.policies {
            Some(v) => Some(Value::StrList(copy_strs(v))),
            None => None,
        };
        push_opt_value(&mut body, "policies", policies);
        let meta = match &self.meta {
            Some(m) => Some(Value::StrMap(copy_pairs(m))),
            None => None,
        };
        push_opt_value(&mut body, "meta", meta);
        let num_uses = match self.num_uses {
            Some(n) => Some(Value::Number(n)),
            None => None,
        };
        push_opt_value(&mut body, "num_uses", num_uses);
        let renewable = match self.renewable {
            Some(b) => Some(Value::Bool(b)),
            None => None,
        };
        push_opt_value(&mut body, "renewable", renewable);
        push_opt_value(&mut body, "entity_alias", str_opt(&self.entity_alias));
        assert(fields_view(body@) =~= create_body(*self));
        body
    }

    /// A creation of a token under the calling token; no field is required.
    pub fn build(&self) -> (r: Result<Endpoint, ClientError>)
        ensures
            r matches Ok(ep) && ep.method == Method::Post && ep.path@ == "auth/token/create"@
                && ep.shape == Shape::Auth && fields_view(ep.body@) == create_body(*self),
    {
        Ok(
            Endpoint {
                method: Method::Post,
                path: "auth/token/create".to_owned(),
                body: self.body(),
                shape: Shape::Auth,
            },
        )
    }

    /// A creation of a token without a parent; no field is required.
    pub fn build_orphan(&self) -> (r: Result<Endpoint, ClientError>)
        ensures
            r matches Ok(ep) && ep.method == Method::Post && ep.path@
                == "auth/token/create-orphan"@ && ep.shape == Shape::Auth && fields_view(ep.body@)
                == create_body(*self),
    {
        Ok(
            Endpoint {
                method: Method::Post,
                path: "auth/token/create-orphan".to_owned(),
                body: self.body(),
                shape: Shape::Auth,
            },
        )
    }
}

/// Options of a token to create from a role; the role name is required.
pub struct CreateRoleTokenRequestBuilder {
    pub role_name: Option<String>,
    pub options: CreateTokenRequestBuilder,
}

impl CreateRoleTokenRequestBuilder {
    pub fn new() -> (r: Self)
        ensures
            r.role_name is None,
            no_options(r.options),
    {
        CreateRoleTokenRequestBuilder { role_name: None, options: CreateTokenRequestBuilder::new() }
    }

    pub fn role_name(&mut self, role: &str)
        ensures
            opt_view(final(self).role_name) == Some(role@),
            final(self).options == old(self).options,
    {
        self.role_name = Some(role.to_owned());
    }

    pub fn build(&self) -> (r: Result<Endpoint, ClientError>)
        ensures
            r is Err <==> self.role_name is None,
            r matches Err(e) ==> is_missing(e, "role_name"@),
            r matches Ok(ep) ==> ep.method == Method::Post && ep.path@ == "auth/token/create/"@
                + self.role_name.unwrap()@ && ep.shape == Shape::Auth && fields_view(ep.body@)
                == create_body(self.options),
    {
        match &self.role_name {
            Some(role) => {
                let mut path = "auth/token/create/".to_owned();
                path.append(role.as_str());
                Ok(Endpoint { method: Method::Post, path, body: self.options.body(), shape: Shape::Auth })
            },
            None => Err(missing("role_name")),
        }
    }
}

/// The options that a call uses: the caller's, or none.
pub open spec fn chosen_options(opts: Option<CreateTokenRequestBuilder>) -> Seq<(Seq<char>, ValueV)> {
    match opts {
        Some(b) => create_body(b),
        None => Seq::empty(),
    }
}

/// Creates a new token, with the caller's options if given.
pub fn new(opts: Option<CreateTokenRequestBuilder>) -> (r: Endpoint)
    ensures
        r.method == Method::Post,
        r.path@ == "auth/token/create"@,
        r.shape == Shape::Auth,
        fields_view(r.body@) == chosen_options(opts),
{
    let t = match opts {
        Some(b) => b,
        None => CreateTokenRequestBuilder::new(),
    };
    proof {
        assert(create_body(t) =~= chosen_options(opts));
    }
    t.build().unwrap()
}

/// Creates a new orphan token, with the caller's options if given.
pub fn new_orphan(opts: Option<CreateTokenRequestBuilder>) -> (r: Endpoint)
    ensures
        r.method == Method::Post,
        r.path@ == "auth/token/create-orphan"@,
        r.shape == Shape::Auth,
        fields_view(r.body@) == chosen_options(opts),
{
    let t = match opts {
        Some(b) => b,
        None => CreateTokenRequestBuilder::new(),
    };
    proof {
        assert(create_body(t) =~= chosen_options(opts));
    }
    t.build_orphan().unwrap()
}

/// The options of a role-based call: the caller's, or none.
pub open spec fn chosen_role_options(opts: Option<CreateRoleTokenRequestBuilder>) -> Seq<
    (Seq<char>, ValueV),
> {
    match opts {
        Some(b) => create_body(b.options),
        None => Seq::empty(),
    }
}

/// Creates a new token from `role`. The role is set last, so it wins over
/// any role name in the caller's builder.
pub fn new_role(role: &str, opts: Option<CreateRoleTokenRequestBuilder>) -> (r: Endpoint)
    ensures
        r.method == Method::Post,
        r.path@ == "auth/token/create/"@ + role@,
        r.shape == Shape::Auth,
        fields_view(r.body@) == chosen_role_options(opts),
{
    let mut t = match opts {
        Some(b) => b,
        None => CreateRoleTokenRequestBuilder::new(),
    };
    proof {
        assert(create_body(t.options) =~= chosen_role_options(opts));
    }
    t.role_name(role);
    t.build().unwrap()
}


/// What a token lookup returns.
#[derive(Debug)]
pub struct LookupTokenResponse {
    pub id: String,
    pub accessor: String,
    pub display_name: String,
    pub creation_time: u64,
    pub ttl: u64,
    pub num_uses: u64,
    pub orphan: bool,
    pub renewable: bool,
    pub policies: Vec<String>,
}

pub struct LookupTokenResponseV {
    pub id: Seq<char>,
    pub accessor: Seq<char>,
    pub display_name: Seq<char>,
    pub creation_time: u64,
    pub ttl: u64,
    pub num_uses: u64,
    pub orphan: bool,
    pub renewable: bool,
    pub policies: Seq<Seq<char>>,
}

impl View for LookupTokenResponse {
    type V = LookupTokenResponseV;

    open spec fn view(&self) -> LookupTokenResponseV {
        LookupTokenResponseV {
            id: self.id@,
            accessor: self.accessor@,
            display_name: self.display_name@,
            creation_time: self.creation_time,
            ttl: self.ttl,
            num_uses: self.num_uses,
            orphan: self.orphan,
            renewable: self.renewable,
            policies: strs_view(self.policies@),
        }
    }
}

/// The token described by the data fields of a lookup, if they describe one:
/// every field is required.
pub open spec fn lookup_of(f: Seq<(Seq<char>, ValueV)>) -> Option<LookupTokenResponseV> {
    if str_field(f, "id"@) is Some && str_field(f, "accessor"@) is Some && str_field(
        f,
        "display_name"@,
    ) is Some && num_field(f, "creation_time"@) is Some && num_field(f, "ttl"@) is Some
        && num_field(f, "num_uses"@) is Some && bool_field(f, "orphan"@) is Some && bool_field(
        f,
        "renewable"@,
    ) is Some && list_field(f, "policies"@) is Some {
        Some(
            LookupTokenResponseV {
                id: str_field(f, "id"@).unwrap(),
                accessor: str_field(f, "accessor"@).unwrap(),
                display_name: str_field(f, "display_name"@).unwrap(),
                creation_time: num_field(f, "creation_time"@).unwrap(),
                ttl: num_field(f, "ttl"@).unwrap(),
                num_uses: num_field(f, "num_uses"@).unwrap(),
                orphan: bool_field(f, "orphan"@).unwrap(),
                renewable: bool_field(f, "renewable"@).unwrap(),
                policies: list_field(f, "policies"@).unwrap(),
            },
        )
    } else {
        None
    }
}

/// Decodes the data fields of a token lookup.
pub fn parse_lookup(f: &Vec<(String, Value)>) -> (r: Option<LookupTokenResponse>)
    ensures
        r is None <==> lookup_of(fields_view(f@)) is None,
        r matches Some(l) ==> lookup_of(fields_view(f@)) == Some(l@),
{
    let id = match get_str(f, "id") {
        Some(v) => v,
        None => return None,
    };
    let accessor = match get_str(f, "accessor") {
        Some(v) => v,
        None => return None,
    };
    let display_name = match get_str(f, "display_name") {
        Some(v) => v,
        None => return None,
    };
    let creation_time = match get_num(f, "creation_time") {
        Some(v) => v,
        None => return None,
    };
    let ttl = match get_num(f, "ttl") {
        Some(v) => v,
        None => return None,
    };
    let num_uses = match get_num(f, "num_uses") {
        Some(v) => v,
        None => return None,
    };
    let orphan = match get_bool(f, "orphan") {
        Some(v) => v,
        None => return None,
    };
    let renewable = match get_bool(f, "renewable") {
        Some(v) => v,
        None => return None,
    };
    let policies = match get_list(f, "policies") {
        Some(v) => v,
        None => return None,
    };
    Some(
        LookupTokenResponse {
            id,
            accessor,
            display_name,
            creation_time,
            ttl,
            num_uses,
            orphan,
            renewable,
            policies,
        },
    )
}

/// What a response to a token lookup decodes to.
pub open spec fn lookup_result(resp: HttpResponse) -> Option<LookupTokenResponseV> {
    match data_of(resp) {
        Some(f) => lookup_of(f),
        None => None,
    }
}

/// Decodes the response to [`lookup`], [`lookup_accessor`] or [`lookup_self`].
pub fn decode_lookup(resp: &HttpResponse) -> (r: Result<LookupTokenResponse, ClientError>)
    ensures
        r is Ok <==> is_success(resp.status) && lookup_result(*resp) is Some,
        r matches Ok(l) ==> lookup_result(*resp) == Some(l@),
        r matches Err(e) ==> if is_success(resp.status) {
            e is ResponseError
        } else {
            is_api_error_of(e, *resp)
        },
{
    let f = data_fields(resp)?;
    match parse_lookup(f) {
        Some(l) => Ok(l),
        None => Err(ClientError::ResponseError { reason: "malformed token lookup".to_owned() }),
    }
}


/// In a renewal the `increment` field is there exactly when an increment was
/// given, and then holds it: no increment is never sent as an empty value.
pub proof fn lemma_renew_increment(
    ep: Endpoint,
    path: Seq<char>,
    k: Seq<char>,
    v: Option<Seq<char>>,
    increment: Option<Seq<char>>,
)
    requires
        renew_post(ep, path, k, v, increment),
        v is None || k == "token"@ || k == "accessor"@,
    ensures
        find(fields_view(ep.body@), "increment"@) == match increment {
            Some(i) => Some(ValueV::Str(i)),
            None => None::<ValueV>,
        },
{
    reveal_strlit("token");
    reveal_strlit("accessor");
    reveal_strlit("increment");
    assert("token"@.len() != "increment"@.len());
    assert("accessor"@[0] != "increment"@[0]);
    let f = fields_view(ep.body@);
    let a = opt_entry(k, v);
    let b = opt_entry("increment"@, increment);
    if a.len() == 1 {
        assert(f[0].0 == k);
        assert(f.drop_first() =~= b);
        assert(find(f, "increment"@) == find(b, "increment"@));
    } else {
        assert(f =~= b);
    }
    if b.len() == 1 {
        assert(b[0].0 == "increment"@);
        assert(find(b, "increment"@) == Some(b[0].1));
    } else {
        assert(find(b, "increment"@) == None::<ValueV>);
    }
}

} // verus!
