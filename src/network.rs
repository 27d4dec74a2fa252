use vstd::prelude::*;
use vstd::string::*;

use crate::configuration::{opt_view, Config};
use crate::decimal::{decimal, lemma_decimal_digits, lemma_decimal_injective, to_decimal};
use crate::error::Error;
use crate::validate::{
    brand_outcome, pair_outcome, specific_outcome, get_path, last_run_path, run_path, specific_path, GetParameters, LastRunParameters,
    RunParameters, SpecificParameters,
};

verus! {

/// Name of the header that carries the API key.
pub const API_KEY_HEADER: &'static str = "X-API-Key";

/// The one status code that counts as success.
pub const STATUS_OK: u16 = 200;

/// One fetch, with exactly the validated parameters that it needs.
#[derive(Debug)]
pub enum RequestType {
    Get(GetParameters),
    LastRun(LastRunParameters),
    Run(RunParameters),
    Specific(SpecificParameters),
}

impl RequestType {
    pub open spec fn spec_path(&self) -> Seq<char> {
        match self {
            RequestType::Get(p) => get_path(p@),
            RequestType::LastRun(p) => last_run_path(p@.0, p@.1),
            RequestType::Run(p) => run_path(p@.0, p@.1),
            RequestType::Specific(p) => specific_path(p@.0, p@.1, p@.2, p@.3),
        }
    }

    pub open spec fn spec_tag(&self) -> Seq<char> {
        match self {
            RequestType::Get(_) => "Get"@,
            RequestType::LastRun(_) => "LastRun"@,
            RequestType::Run(_) => "Run"@,
            RequestType::Specific(_) => "Specific"@,
        }
    }

    /// The path below the API root that this request goes to.
    pub fn path(&self) -> (r: String)
        ensures
            r@ == self.spec_path(),
    {
        match self {
            RequestType::Get(p) => p.path(),
            RequestType::LastRun(p) => p.path(),
            RequestType::Run(p) => p.path(),
            RequestType::Specific(p) => p.path(),
        }
    }

    /// The variant's name, as it is stored with each response.
    pub fn tag(&self) -> (r: String)
        ensures
            r@ == self.spec_tag(),
    {
        match self {
            RequestType::Get(_) => String::from_str("Get"),
            RequestType::LastRun(_) => String::from_str("LastRun"),
            RequestType::Run(_) => String::from_str("Run"),
            RequestType::Specific(_) => String::from_str("Specific"),
        }
    }
}

/// A character that an HTTP header value may carry: a tab, or anything from
/// the space upwards but DEL. Characters beyond ASCII qualify, since each byte
/// of their UTF-8 form is at least 128.
pub open spec fn header_char_ok(c: char) -> bool {
    (c as u32 >= 32 && c as u32 != 127) || c == '\t'
}

pub open spec fn header_value_ok(s: Seq<char>) -> bool {
    forall|i: int| 0 <= i < s.len() ==> header_char_ok(#[trigger] s[i])
}

/// Relies on reqwest::header::HeaderValue::from_str (from the http crate),
/// which accepts a text exactly when each of its bytes is a tab, or is at
/// least 32 and not 127.
#[verifier::external_body]
fn header_value_accepted(s: &str) -> (r: bool)
    ensures
        r == header_value_ok(s@),
{
    reqwest::header::HeaderValue::from_str(s).is_ok()
}

/// A request ready to be sent: the full URL and the API key to attach, if any.
#[derive(Debug)]
pub struct Request {
    pub request_type: RequestType,
    pub url: String,
    pub api_key: Option<String>,
}

/// The URL that a request with `path` goes to: `{api_root}/{path}`.
pub open spec fn request_url(api_root: Seq<char>, path: Seq<char>) -> Seq<char> {
    api_root + "/"@ + path
}

/// Whether the configured API key, if any, cannot be sent as a header value.
pub open spec fn key_rejected(config: &Config) -> bool {
    config.spec_api_key() matches Some(k) && !header_value_ok(k)
}

/// What preparing a request with `path` under `config` gives: the header
/// error when the key is rejected, else a request to `{api_root}/{path}`
/// carrying the key.
pub open spec fn prepared(config: &Config, path: Seq<char>, r: Result<Request, Error>) -> bool {
    if key_rejected(config) {
        r == Err::<Request, Error>(Error::NetworkInvalidHeaderValue)
    } else {
        r matches Ok(q) && q.url@ == request_url(config.spec_api_root(), path) && opt_view(
            q.api_key,
        ) == config.spec_api_key() && q.request_type.spec_path() == path
    }
}

/// Composes the URL for `request_type` and checks that the API key can be
/// sent as a header value.
pub fn prepare_request(config: &Config, request_type: RequestType) -> (r: Result<Request, Error>)
    ensures
        prepared(config, request_type.spec_path(), r),
        r matches Ok(q) ==> q.request_type == request_type,
{
    let api_key = match config.get_api_key() {
        Some(k) => {
            if !header_value_accepted(k) {
                return Err(Error::NetworkInvalidHeaderValue);
            }
            Some(String::from_str(k))
        },
        None => None,
    };
    let mut url = String::from_str(config.get_api_root());
    url.append("/");
    let path = request_type.path();
    url.append(path.as_str());
    Ok(Request { request_type, url, api_key })
}

/// Succeeds on status 200 only; any other status is an error that carries
/// the code in decimal.
pub fn check_status(status: u16) -> (r: Result<(), Error>)
    ensures
        status == STATUS_OK ==> r is Ok,
        status != STATUS_OK ==> (r matches Err(Error::NetworkUnexpectedStatusCode(s)) && s@
            == decimal(status as nat)),
{
    if status == STATUS_OK {
        Ok(())
    } else {
        Err(Error::NetworkUnexpectedStatusCode(to_decimal(status as u64)))
    }
}

/// A successful answer of the API: when it arrived (milliseconds since the
/// Unix epoch, UTC), what was asked, the status, the final URL and the body.
#[derive(Debug)]
pub struct ApiResponse {
    pub date_time: i64,
    pub request_type: RequestType,
    pub status: u16,
    pub url: String,
    pub data: String,
}

/// Builds the response record when `status` is 200; any other status is the
/// error of `check_status`.
pub fn accept_response(
    request_type: RequestType,
    date_time: i64,
    status: u16,
    url: String,
    data: String,
) -> (r: Result<ApiResponse, Error>)
    ensures
        status == STATUS_OK ==> (r matches Ok(a) && a.request_type == request_type && a.date_time
            == date_time && a.status == status && a.url == url && a.data == data),
        status != STATUS_OK ==> (r matches Err(Error::NetworkUnexpectedStatusCode(s)) && s@
            == decimal(status as nat)),
{
    match check_status(status) {
        Ok(()) => Ok(ApiResponse { date_time, request_type, status, url, data }),
        Err(e) => Err(e),
    }
}

/// Validates the brand id and prepares a `get` request; a rejected id stops
/// here, before any request exists.
pub fn prepare_get(config: &Config, raw_brand_id: String) -> (r: Result<Request, Error>)
    ensures
        match brand_outcome(raw_brand_id) {
            Ok(b) => prepared(config, get_path(b), r) && (r matches Ok(q) ==> q.request_type is Get),
            Err(e) => r == Err::<Request, Error>(e),
        },
{
    match GetParameters::new(raw_brand_id) {
        Ok(p) => prepare_request(config, RequestType::Get(p)),
        Err(e) => Err(e),
    }
}

/// Validates the ids and prepares a `last_run` request; a rejected id stops
/// here, before any request exists.
pub fn prepare_last_run(config: &Config, raw_brand_id: String, raw_location_id: String) -> (r:
    Result<Request, Error>)
    ensures
        match pair_outcome(raw_brand_id, raw_location_id) {
            Ok((b, l)) => prepared(config, last_run_path(b, l), r) && (r matches Ok(q)
                ==> q.request_type is LastRun),
            Err(e) => r == Err::<Request, Error>(e),
        },
{
    match LastRunParameters::new(raw_brand_id, raw_location_id) {
        Ok(p) => prepare_request(config, RequestType::LastRun(p)),
        Err(e) => Err(e),
    }
}

/// Validates the ids and prepares a `run` request; a rejected id stops here,
/// before any request exists.
pub fn prepare_run(config: &Config, raw_brand_id: String, raw_location_id: String) -> (r: Result<
    Request,
    Error,
>)
    ensures
        match pair_outcome(raw_brand_id, raw_location_id) {
            Ok((b, l)) => prepared(config, run_path(b, l), r) && (r matches Ok(q)
                ==> q.request_type is Run),
            Err(e) => r == Err::<Request, Error>(e),
        },
{
    match RunParameters::new(raw_brand_id, raw_location_id) {
        Ok(p) => prepare_request(config, RequestType::Run(p)),
        Err(e) => Err(e),
    }
}

/// Validates the ids and the span and prepares a `specific` request; a
/// rejected input stops here, before any request exists.
pub fn prepare_specific(
    config: &Config,
    raw_brand_id: String,
    raw_location_id: String,
    raw_from_date: String,
    raw_to_date: String,
) -> (r: Result<Request, Error>)
    ensures
        match specific_outcome(raw_brand_id, raw_location_id, raw_from_date, raw_to_date) {
            Ok((b, l, f, t)) => prepared(config, specific_path(b, l, f, t), r) && (r matches Ok(q)
                ==> q.request_type is Specific),
            Err(e) => r == Err::<Request, Error>(e),
        },
{
    match SpecificParameters::new(raw_brand_id, raw_location_id, raw_from_date, raw_to_date) {
        Ok(p) => prepare_request(config, RequestType::Specific(p)),
        Err(e) => Err(e),
    }
}

pub open spec fn no_slash(s: Seq<char>) -> bool {
    forall|i: int| 0 <= i < s.len() ==> s[i] != '/'
}

/// Whether two requests are of one variant with the same parameters.
pub open spec fn same_request(a: &RequestType, b: &RequestType) -> bool {
    match (a, b) {
        (RequestType::Get(p), RequestType::Get(q)) => p@ == q@,
        (RequestType::LastRun(p), RequestType::LastRun(q)) => p@ == q@,
        (RequestType::Run(p), RequestType::Run(q)) => p@ == q@,
        (RequestType::Specific(p), RequestType::Specific(q)) => p@ == q@,
        _ => false,
    }
}

/// Whether the brand of a request that has more than one path parameter holds
/// no `/`, so that the path shows where the brand ends.
pub open spec fn brand_delimited(a: &RequestType) -> bool {
    match a {
        RequestType::Get(_) => true,
        RequestType::LastRun(p) => no_slash(p@.0),
        RequestType::Run(p) => no_slash(p@.0),
        RequestType::Specific(p) => no_slash(p@.0),
    }
}

proof fn lemma_strip_prefix(pre: Seq<char>, u: Seq<char>, v: Seq<char>)
    requires
        pre + u == pre + v,
    ensures
        u == v,
{
    assert(u =~= (pre + u).subrange(pre.len() as int, (pre + u).len() as int));
    assert(v =~= (pre + v).subrange(pre.len() as int, (pre + v).len() as int));
}

proof fn lemma_split_first(x1: Seq<char>, y1: Seq<char>, x2: Seq<char>, y2: Seq<char>)
    requires
        no_slash(x1),
        no_slash(x2),
        x1 + "/"@ + y1 == x2 + "/"@ + y2,
    ensures
        x1 == x2,
        y1 == y2,
{
    reveal_strlit("/");
    let s = x1 + "/"@ + y1;
    let t = x2 + "/"@ + y2;
    if x1.len() < x2.len() {
        assert(s[x1.len() as int] == '/');
        assert(t[x1.len() as int] == x2[x1.len() as int]);
    }
    if x2.len() < x1.len() {
        assert(t[x2.len() as int] == '/');
        assert(s[x2.len() as int] == x1[x2.len() as int]);
    }
    assert(x1 =~= s.subrange(0, x1.len() as int));
    assert(x2 =~= t.subrange(0, x2.len() as int));
    assert(y1 =~= s.subrange(x1.len() as int + 1, s.len() as int));
    assert(y2 =~= t.subrange(x2.len() as int + 1, t.len() as int));
}

proof fn lemma_split_last(x1: Seq<char>, y1: Seq<char>, x2: Seq<char>, y2: Seq<char>)
    requires
        no_slash(y1),
        no_slash(y2),
        x1 + "/"@ + y1 == x2 + "/"@ + y2,
    ensures
        x1 == x2,
        y1 == y2,
{
    reveal_strlit("/");
    let s = x1 + "/"@ + y1;
    let t = x2 + "/"@ + y2;
    if y1.len() < y2.len() {
        let k = s.len() - y1.len() - 1;
        assert(s[k] == '/');
        assert(t[k] == y2[k - x2.len() - 1]);
    }
    if y2.len() < y1.len() {
        let k = t.len() - y2.len() - 1;
        assert(t[k] == '/');
        assert(s[k] == y1[k - x1.len() - 1]);
    }
    assert(x1 =~= s.subrange(0, x1.len() as int));
    assert(x2 =~= t.subrange(0, x2.len() as int));
    assert(y1 =~= s.subrange(x1.len() as int + 1, s.len() as int));
    assert(y2 =~= t.subrange(x2.len() as int + 1, t.len() as int));
}

proof fn lemma_decimal_no_slash(n: nat)
    ensures
        no_slash(decimal(n)),
{
    lemma_decimal_digits(n);
}

/// Rendering is deterministic and tells requests apart: two requests render
/// to the same path exactly when they are of one variant with the same
/// parameters, provided a brand followed by more parameters holds no `/`.
pub proof fn lemma_path_injective(a: &RequestType, b: &RequestType)
    requires
        brand_delimited(a),
        brand_delimited(b),
    ensures
        a.spec_path() == b.spec_path() <==> same_request(a, b),
{
    reveal_strlit("get/");
    reveal_strlit("last_run/");
    reveal_strlit("run/");
    reveal_strlit("specific/");
    reveal_strlit("/");
    if a.spec_path() == b.spec_path() {
        let pa = a.spec_path();
        let pb = b.spec_path();
        match (a, b) {
            (RequestType::Get(p), RequestType::Get(q)) => {
                lemma_strip_prefix("get/"@, p@, q@);
            },
            (RequestType::LastRun(p), RequestType::LastRun(q)) => {
                assert(pa =~= "last_run/"@ + (p@.0 + "/"@ + p@.1));
                assert(pb =~= "last_run/"@ + (q@.0 + "/"@ + q@.1));
                lemma_strip_prefix("last_run/"@, p@.0 + "/"@ + p@.1, q@.0 + "/"@ + q@.1);
                lemma_split_first(p@.0, p@.1, q@.0, q@.1);
            },
            (RequestType::Run(p), RequestType::Run(q)) => {
                assert(pa =~= "run/"@ + (p@.0 + "/"@ + p@.1));
                assert(pb =~= "run/"@ + (q@.0 + "/"@ + q@.1));
                lemma_strip_prefix("run/"@, p@.0 + "/"@ + p@.1, q@.0 + "/"@ + q@.1);
                lemma_split_first(p@.0, p@.1, q@.0, q@.1);
            },
            (RequestType::Specific(p), RequestType::Specific(q)) => {
                let (b1, l1, f1, t1) = p@;
                let (b2, l2, f2, t2) = q@;
                let df1 = decimal(f1 as nat);
                let dt1 = decimal(t1 as nat);
                let df2 = decimal(f2 as nat);
                let dt2 = decimal(t2 as nat);
                let r1 = l1 + "/"@ + df1 + "/"@ + dt1;
                let r2 = l2 + "/"@ + df2 + "/"@ + dt2;
                assert(pa =~= "specific/"@ + (b1 + "/"@ + r1));
                assert(pb =~= "specific/"@ + (b2 + "/"@ + r2));
                lemma_strip_prefix("specific/"@, b1 + "/"@ + r1, b2 + "/"@ + r2);
                lemma_split_first(b1, r1, b2, r2);
                lemma_decimal_no_slash(f1 as nat);
                lemma_decimal_no_slash(t1 as nat);
                lemma_decimal_no_slash(f2 as nat);
                lemma_decimal_no_slash(t2 as nat);
                lemma_split_last(l1 + "/"@ + df1, dt1, l2 + "/"@ + df2, dt2);
                lemma_split_last(l1, df1, l2, df2);
                lemma_decimal_injective(f1 as nat, f2 as nat);
                lemma_decimal_injective(t1 as nat, t2 as nat);
            },
            _ => {
                assert(pa[0] != pb[0]);
            },
        }
    }
}

} // verus!
