//! The endpoints of the service and the requests sent to them.

use vstd::prelude::*;
use crate::error::ApiError;
use crate::helper::form::{form_of, IntoMultipartForm, MultipartForm, PartContent};
use crate::helper::util::{scalar_text, SerializationAttributes};
use crate::interface::codec::{
    decode_field, field_decoded, lemma_fields_found, name_key, push_field, FromJson, RoundTrip,
    ToJson,
};
use crate::json::{
    json_of_fields, json_parse, json_text, keyed, lemma_json_of_fields, number_to_text, Json,
    JsonField, JsonValue,
};
use crate::text::{decimal, push_decimal};

verus! {

/// The operations of the service. Each has one fixed path; some carry the
/// identifiers that follow the path as further segments.
#[derive(Clone, Debug, PartialEq)]
pub enum TaskEndpoint {
    /// `/image`
    Image,
    /// `/imagebinary`
    ImageBinary,
    /// `/user`
    User,
    /// `/user_subscription`
    UserSubscription,
    /// `/transactions`
    Transactions,
    /// `/deposits`
    Deposits,
    /// `/config`
    Config,
    /// `/statistics`
    Statistics,
    /// `/node_statistics`
    NodeStatistics,
    /// `/prover_node_summary`
    ProverNodeSummary,
    /// `/online_nodes_summary`
    OnlineNodesSummary,
    /// `/tasks`
    Tasks,
    /// `/tasklist`
    ConciseTasks,
    /// `/task_external_host_table`
    TaskExternalHostTable,
    /// `/round1_batch_proofs`
    Round1Batch,
    /// `/round2_batch_proofs`
    Round2Batch,
    /// `/final_batch_proofs`
    FinalBatch,
    /// `/logs`
    Logs,
    /// `/archive/summary`
    ArchiveSummary,
    /// `/archive/task_volume_list`
    ArchiveTaskVolumeList,
    /// `/archive/auto_submit_volume_list`
    ArchiveAutoSubmitTaskVolumeList,
    /// `/archive/task`
    ArchiveTask(String),
    /// `/archive/auto_submit_networks`
    ArchiveAutoSubmitNetworks(String),
    /// `/archive/auto_submit_info_by_task`
    ArchiveAutoSubmitInfoByTask(String, u32),
    /// `/archive/auto_submit_info`
    ArchiveAutoSubmitInfo(String, u32),
    /// `/archive/config`
    ArchiveConfig,
    /// `/archive/task_volume`
    ArchiveTaskVolume(String),
    /// `/archive/auto_submit_volume`
    ArchiveAutoSubmitVolume(String),
    /// `/archive/archive_query`
    ArchiveArchiveQuery,
    /// `/pay`
    Pay,
    /// `/subscribe`
    Subscribe,
    /// `/setup`
    Setup,
    /// `/prove`
    Prove,
    /// `/deploy`
    Deploy,
    /// `/reset`
    Reset,
    /// `/modify`
    Modify,
    /// `/set_maintenance_mode`
    SetMaintenanceMode,
    /// `/force_unprovable_to_reprocess`
    ForceUnprovableToReprocess,
    /// `/force_dryrun_fails_to_reprocess`
    ForceDryrunFailsToReprocess,
    /// `/estimated_proof_fee`
    EstimatedProofFee,
    /// `/prover_node_timerange_stats`
    ProverNodeTimerangeStats,
}

impl TaskEndpoint {
    /// The path of the operation below the base URL, without a leading slash.
    pub open spec fn path(&self) -> Seq<char> {
        match self {
            TaskEndpoint::Image => "image"@,
            TaskEndpoint::ImageBinary => "imagebinary"@,
            TaskEndpoint::User => "user"@,
            TaskEndpoint::UserSubscription => "user_subscription"@,
            TaskEndpoint::Transactions => "transactions"@,
            TaskEndpoint::Deposits => "deposits"@,
            TaskEndpoint::Config => "config"@,
            TaskEndpoint::Statistics => "statistics"@,
            TaskEndpoint::NodeStatistics => "node_statistics"@,
            TaskEndpoint::ProverNodeSummary => "prover_node_summary"@,
            TaskEndpoint::OnlineNodesSummary => "online_nodes_summary"@,
            TaskEndpoint::Tasks => "tasks"@,
            TaskEndpoint::ConciseTasks => "tasklist"@,
            TaskEndpoint::TaskExternalHostTable => "task_external_host_table"@,
            TaskEndpoint::Round1Batch => "round1_batch_proofs"@,
            TaskEndpoint::Round2Batch => "round2_batch_proofs"@,
            TaskEndpoint::FinalBatch => "final_batch_proofs"@,
            TaskEndpoint::Logs => "logs"@,
            TaskEndpoint::ArchiveSummary => "archive/summary"@,
            TaskEndpoint::ArchiveTaskVolumeList => "archive/task_volume_list"@,
            TaskEndpoint::ArchiveAutoSubmitTaskVolumeList => "archive/auto_submit_volume_list"@,
            TaskEndpoint::ArchiveTask(..) => "archive/task"@,
            TaskEndpoint::ArchiveAutoSubmitNetworks(..) => "archive/auto_submit_networks"@,
            TaskEndpoint::ArchiveAutoSubmitInfoByTask(..) => "archive/auto_submit_info_by_task"@,
            TaskEndpoint::ArchiveAutoSubmitInfo(..) => "archive/auto_submit_info"@,
            TaskEndpoint::ArchiveConfig => "archive/config"@,
            TaskEndpoint::ArchiveTaskVolume(..) => "archive/task_volume"@,
            TaskEndpoint::ArchiveAutoSubmitVolume(..) => "archive/auto_submit_volume"@,
            TaskEndpoint::ArchiveArchiveQuery => "archive/archive_query"@,
            TaskEndpoint::Pay => "pay"@,
            TaskEndpoint::Subscribe => "subscribe"@,
            TaskEndpoint::Setup => "setup"@,
            TaskEndpoint::Prove => "prove"@,
            TaskEndpoint::Deploy => "deploy"@,
            TaskEndpoint::Reset => "reset"@,
            TaskEndpoint::Modify => "modify"@,
            TaskEndpoint::SetMaintenanceMode => "admin/set_maintenance_mode"@,
            TaskEndpoint::ForceUnprovableToReprocess => "admin/force_unprovable_to_reprocess"@,
            TaskEndpoint::ForceDryrunFailsToReprocess => "admin/force_dryrun_fails_to_reprocess"@,
            TaskEndpoint::EstimatedProofFee => "estimated_proof_fee"@,
            TaskEndpoint::ProverNodeTimerangeStats => "prover_node_timerange_stats"@,
        }
    }

    /// The identifiers of the operation as path segments, each behind a slash,
    /// in the order in which the variant holds them; empty where it holds none.
    pub open spec fn params(&self) -> Seq<char> {
        match self {
            TaskEndpoint::ArchiveTask(fst)
            | TaskEndpoint::ArchiveAutoSubmitNetworks(fst)
            | TaskEndpoint::ArchiveTaskVolume(fst)
            | TaskEndpoint::ArchiveAutoSubmitVolume(fst) => seq!['/'] + fst@,
            TaskEndpoint::ArchiveAutoSubmitInfoByTask(fst, snd)
            | TaskEndpoint::ArchiveAutoSubmitInfo(fst, snd) => seq!['/'] + fst@ + seq!['/'] + decimal(
                *snd as nat,
            ),
            _ => Seq::empty(),
        }
    }

    #[must_use]
    pub fn as_path(&self) -> (r: &'static str)
        ensures
            r@ == self.path(),
    {
        match self {
            TaskEndpoint::Image => "image",
            TaskEndpoint::ImageBinary => "imagebinary",
            TaskEndpoint::User => "user",
            TaskEndpoint::UserSubscription => "user_subscription",
            TaskEndpoint::Transactions => "transactions",
            TaskEndpoint::Deposits => "deposits",
            TaskEndpoint::Config => "config",
            TaskEndpoint::Statistics => "statistics",
            TaskEndpoint::NodeStatistics => "node_statistics",
            TaskEndpoint::ProverNodeSummary => "prover_node_summary",
            TaskEndpoint::OnlineNodesSummary => "online_nodes_summary",
            TaskEndpoint::Tasks => "tasks",
            TaskEndpoint::ConciseTasks => "tasklist",
            TaskEndpoint::TaskExternalHostTable => "task_external_host_table",
            TaskEndpoint::Round1Batch => "round1_batch_proofs",
            TaskEndpoint::Round2Batch => "round2_batch_proofs",
            TaskEndpoint::FinalBatch => "final_batch_proofs",
            TaskEndpoint::Logs => "logs",
            TaskEndpoint::ArchiveSummary => "archive/summary",
            TaskEndpoint::ArchiveTaskVolumeList => "archive/task_volume_list",
            TaskEndpoint::ArchiveAutoSubmitTaskVolumeList => "archive/auto_submit_volume_list",
            TaskEndpoint::ArchiveTask(..) => "archive/task",
            TaskEndpoint::ArchiveAutoSubmitNetworks(..) => "archive/auto_submit_networks",
            TaskEndpoint::ArchiveAutoSubmitInfoByTask(..) => "archive/auto_submit_info_by_task",
            TaskEndpoint::ArchiveAutoSubmitInfo(..) => "archive/auto_submit_info",
            TaskEndpoint::ArchiveConfig => "archive/config",
            TaskEndpoint::ArchiveTaskVolume(..) => "archive/task_volume",
            TaskEndpoint::ArchiveAutoSubmitVolume(..) => "archive/auto_submit_volume",
            TaskEndpoint::ArchiveArchiveQuery => "archive/archive_query",
            TaskEndpoint::Pay => "pay",
            TaskEndpoint::Subscribe => "subscribe",
            TaskEndpoint::Setup => "setup",
            TaskEndpoint::Prove => "prove",
            TaskEndpoint::Deploy => "deploy",
            TaskEndpoint::Reset => "reset",
            TaskEndpoint::Modify => "modify",
            TaskEndpoint::SetMaintenanceMode => "admin/set_maintenance_mode",
            TaskEndpoint::ForceUnprovableToReprocess => "admin/force_unprovable_to_reprocess",
            TaskEndpoint::ForceDryrunFailsToReprocess => "admin/force_dryrun_fails_to_reprocess",
            TaskEndpoint::EstimatedProofFee => "estimated_proof_fee",
            TaskEndpoint::ProverNodeTimerangeStats => "prover_node_timerange_stats",
        }
    }

    #[must_use]
    pub fn path_params(&self) -> (r: String)
        ensures
            r@ == self.params(),
    {
        proof {
            reveal_strlit("/");
        }
        match self {
            TaskEndpoint::ArchiveTask(fst)
            | TaskEndpoint::ArchiveAutoSubmitNetworks(fst)
            | TaskEndpoint::ArchiveTaskVolume(fst)
            | TaskEndpoint::ArchiveAutoSubmitVolume(fst) => {
                let mut r = String::from_str("/");
                r.append(fst.as_str());
                assert(r@ =~= seq!['/'] + fst@);
                r
            },
            TaskEndpoint::ArchiveAutoSubmitInfoByTask(fst, snd)
            | TaskEndpoint::ArchiveAutoSubmitInfo(fst, snd) => {
                let mut r = String::from_str("/");
                r.append(fst.as_str());
                r.append("/");
                push_decimal(*snd as u64, &mut r);
                assert(r@ =~= seq!['/'] + fst@ + seq!['/'] + decimal(*snd as nat));
                r
            },
            _ => String::new(),
        }
    }
}

/// A client's handle on one deployment of the service: the base URL that
/// every path is appended to.
pub struct ZkWasmServiceEndpoint {
    pub endpoint: String,
}

impl ZkWasmServiceEndpoint {
    #[must_use]
    pub fn new(endpoint: String) -> (r: Self)
        ensures
            r.endpoint@ == endpoint@,
    {
        Self { endpoint }
    }

    /// The URL of an operation: base URL, a slash, the path, the identifiers.
    pub open spec fn url(&self, path: &TaskEndpoint) -> Seq<char> {
        self.endpoint@ + seq!['/'] + path.path() + path.params()
    }

    pub fn to_path(&self, path: &TaskEndpoint) -> (r: String)
        ensures
            r@ == self.url(path),
    {
        proof {
            reveal_strlit("/");
        }
        let mut r = self.endpoint.clone();
        r.append("/");
        r.append(path.as_path());
        let params = path.path_params();
        r.append(params.as_str());
        assert(r@ =~= self.url(path));
        r
    }
}

/// The text that `serde_urlencoded` writes for a list of pairs: each pair as
/// `name=value`, percent-encoded, with `&` between the pairs.
pub uninterp spec fn urlencoded(pairs: Seq<(Seq<char>, Seq<char>)>) -> Seq<char>;

/// The texts of a list of pairs.
pub open spec fn pairs_view(pairs: Seq<(String, String)>) -> Seq<(Seq<char>, Seq<char>)> {
    Seq::new(pairs.len(), |i: int| (pairs[i].0@, pairs[i].1@))
}

/// `serde_urlencoded::to_string` on a list of pairs of strings, for which it
/// reports no error. Every pair puts at least its `=` into the text, so the
/// text is empty exactly where the list is.
#[verifier::external_body]
fn urlencode(pairs: &Vec<(String, String)>) -> (s: String)
    ensures
        s@ == urlencoded(pairs_view(pairs@)),
        s@.len() == 0 <==> pairs@.len() == 0,
{
    serde_urlencoded::to_string(pairs).unwrap_or_default()
}

/// The query pairs of a list of fields: one pair for each scalar, none for
/// null. An array or an object cannot be written.
pub open spec fn query_fields(fields: Seq<(Seq<char>, Json)>) -> Result<
    Seq<(Seq<char>, Seq<char>)>,
    ApiError,
>
    decreases fields.len(),
{
    if fields.len() == 0 {
        Ok(Seq::empty())
    } else {
        match query_fields(fields.drop_last()) {
            Err(e) => Err(e),
            Ok(front) => match fields.last().1 {
                Json::Null => Ok(front),
                Json::Array(_) => Err(ApiError::UnsupportedQuery),
                Json::Object(_) => Err(ApiError::UnsupportedQuery),
                scalar => Ok(front.push((fields.last().0, scalar_text(scalar)->0))),
            },
        }
    }
}

/// The query pairs of a payload: none for null, those of its fields for an
/// object.
pub open spec fn query_of(j: Json) -> Result<Seq<(Seq<char>, Seq<char>)>, ApiError> {
    match j {
        Json::Null => Ok(Seq::empty()),
        Json::Object(fields) => query_fields(fields),
        _ => Err(ApiError::UnsupportedQuery),
    }
}

/// An error among the first `n` fields is the error of the whole list.
pub proof fn lemma_query_fields_error(fields: Seq<(Seq<char>, Json)>, n: int)
    requires
        0 <= n <= fields.len(),
        query_fields(fields.take(n)) is Err,
    ensures
        query_fields(fields) == query_fields(fields.take(n)),
    decreases fields.len() - n,
{
    if n < fields.len() {
        assert(fields.take(n + 1).drop_last() =~= fields.take(n));
        lemma_query_fields_error(fields, n + 1);
    } else {
        assert(fields.take(n) =~= fields);
    }
}

/// Whether a document can stand in a query: null or a scalar.
pub open spec fn is_query_value(j: Json) -> bool {
    j is Null || scalar_text(j) is Some
}

/// A payload whose fields are all null or scalars has a query.
pub proof fn lemma_scalar_fields_give_query(fields: Seq<(Seq<char>, Json)>)
    requires
        forall|i: int| 0 <= i < fields.len() ==> is_query_value((#[trigger] fields[i]).1),
    ensures
        query_of(Json::Object(fields)) is Ok,
    decreases fields.len(),
{
    if fields.len() > 0 {
        let front = fields.drop_last();
        assert forall|i: int| 0 <= i < front.len() implies is_query_value((#[trigger] front[i]).1) by {
            assert(front[i] == fields[i]);
        }
        lemma_scalar_fields_give_query(front);
        assert(fields.last() == fields[fields.len() - 1]);
    }
}

/// A payload whose fields are all null has no query pairs.
pub proof fn lemma_null_fields_give_no_query(fields: Seq<(Seq<char>, Json)>)
    requires
        forall|i: int| 0 <= i < fields.len() ==> (#[trigger] fields[i]).1 == Json::Null,
    ensures
        query_of(Json::Object(fields)) == Ok::<Seq<(Seq<char>, Seq<char>)>, ApiError>(Seq::empty()),
    decreases fields.len(),
{
    if fields.len() > 0 {
        let front = fields.drop_last();
        assert forall|i: int| 0 <= i < front.len() implies (#[trigger] front[i]).1 == Json::Null by {
            assert(front[i] == fields[i]);
        }
        lemma_null_fields_give_no_query(front);
        assert(fields.last() == fields[fields.len() - 1]);
    }
}

/// The query pairs of a document.
pub fn query_pairs(obj: &JsonValue) -> (r: Result<Vec<(String, String)>, ApiError>)
    ensures
        match r {
            Ok(pairs) => query_of(obj@) == Ok::<Seq<(Seq<char>, Seq<char>)>, ApiError>(
                pairs_view(pairs@),
            ),
            Err(e) => query_of(obj@) == Err::<Seq<(Seq<char>, Seq<char>)>, ApiError>(e),
        },
{
    let mut pairs: Vec<(String, String)> = Vec::new();
    match obj {
        JsonValue::Null => {
            assert(pairs_view(pairs@) =~= Seq::<(Seq<char>, Seq<char>)>::empty());
            Ok(pairs)
        },
        JsonValue::Object(fields) => {
            let ghost docs = json_of_fields(fields@);
            proof {
                lemma_json_of_fields(fields@);
                assert(docs.take(0) =~= Seq::<(Seq<char>, Json)>::empty());
                assert(pairs_view(pairs@) =~= Seq::<(Seq<char>, Seq<char>)>::empty());
            }
            let mut i: usize = 0;
            while i < fields.len()
                invariant
                    i <= fields.len(),
                    obj@ == Json::Object(docs),
                    docs.len() == fields@.len(),
                    forall|k: int| 0 <= k < docs.len() ==> #[trigger] docs[k] == fields@[k]@,
                    query_fields(docs.take(i as int)) == Ok::<
                        Seq<(Seq<char>, Seq<char>)>,
                        ApiError,
                    >(pairs_view(pairs@)),
                decreases fields.len() - i,
            {
                proof {
                    assert(docs.take(i + 1).drop_last() =~= docs.take(i as int));
                    assert(docs.take(i + 1).last() == docs[i as int]);
                }
                let ghost before = pairs_view(pairs@);
                let text: Option<String> = match &fields[i].value {
                    JsonValue::Null => None,
                    JsonValue::Bool(b) => {
                        proof {
                            reveal_strlit("true");
                            reveal_strlit("false");
                        }
                        let t = if *b {
                            String::from_str("true")
                        } else {
                            String::from_str("false")
                        };
                        assert(t@ =~= scalar_text(docs[i as int].1)->0);
                        Some(t)
                    },
                    JsonValue::Number(n) => Some(number_to_text(n)),
                    JsonValue::String(s) => Some(s.clone()),
                    _ => {
                        proof {
                            lemma_query_fields_error(docs, i + 1);
                        }
                        return Err(ApiError::UnsupportedQuery);
                    },
                };
                match text {
                    Some(t) => {
                        let name = fields[i].name.clone();
                        pairs.push((name, t));
                        proof {
                            assert(pairs_view(pairs@) =~= before.push(
                                (docs[i as int].0, scalar_text(docs[i as int].1)->0),
                            ));
                        }
                    },
                    None => {},
                }
                i += 1;
            }
            proof {
                assert(docs.take(i as int) =~= docs);
            }
            Ok(pairs)
        },
        _ => Err(ApiError::UnsupportedQuery),
    }
}

/// The HTTP method of a request.
#[derive(Clone, Copy, Debug, PartialEq, Eq)]
pub enum Method {
    Get,
    Post,
}

/// The body of a request.
#[derive(Clone, Debug, PartialEq)]
pub enum RequestBody {
    /// No body.
    Empty,
    /// A JSON document as text.
    Json(String),
    /// A multipart form.
    Multipart(MultipartForm),
}

/// The mathematical content of a [`RequestBody`].
pub enum BodyContent {
    Empty,
    Json(Seq<char>),
    Multipart(Seq<(Seq<char>, PartContent)>),
}

impl View for RequestBody {
    type V = BodyContent;

    open spec fn view(&self) -> BodyContent {
        match self {
            RequestBody::Empty => BodyContent::Empty,
            RequestBody::Json(text) => BodyContent::Json(text@),
            RequestBody::Multipart(form) => BodyContent::Multipart(form@),
        }
    }
}

/// One request, ready to be sent: a single exchange, no retry.
#[derive(Clone, Debug, PartialEq)]
pub struct Request {
    pub method: Method,
    pub url: String,
    /// The headers that the request sets, as names and values.
    pub headers: Vec<(String, String)>,
    pub body: RequestBody,
}

/// The mathematical content of a [`Request`].
pub struct RequestContent {
    pub method: Method,
    pub url: Seq<char>,
    pub headers: Seq<(Seq<char>, Seq<char>)>,
    pub body: BodyContent,
}

/// The text of an optional string.
pub open spec fn option_text(s: Option<String>) -> Option<Seq<char>> {
    match s {
        Some(text) => Some(text@),
        None => None,
    }
}

impl View for Request {
    type V = RequestContent;

    open spec fn view(&self) -> RequestContent {
        RequestContent {
            method: self.method,
            url: self.url@,
            headers: pairs_view(self.headers@),
            body: self.body@,
        }
    }
}

/// The name of the header that carries the signature.
pub fn signature_header() -> (r: &'static str)
    ensures
        r@ == "x-eth-signature"@,
{
    "x-eth-signature"
}

/// The headers of a request: the JSON content type where the body is JSON,
/// then the signature where there is one. A request without a signature has
/// no signature header.
pub open spec fn headers_of(signature: Option<Seq<char>>, json_body: bool) -> Seq<
    (Seq<char>, Seq<char>),
> {
    let content = if json_body {
        seq![("content-type"@, "application/json"@)]
    } else {
        Seq::empty()
    };
    match signature {
        Some(text) => content.push(("x-eth-signature"@, text)),
        None => content,
    }
}

/// The headers of a request.
pub fn request_headers(signature: Option<String>, json_body: bool) -> (r: Vec<(String, String)>)
    ensures
        pairs_view(r@) == headers_of(option_text(signature), json_body),
{
    let mut headers: Vec<(String, String)> = Vec::new();
    if json_body {
        headers.push((String::from_str("content-type"), String::from_str("application/json")));
    }
    match signature {
        Some(text) => {
            headers.push((String::from_str(signature_header()), text));
        },
        None => {},
    }
    assert(pairs_view(headers@) =~= headers_of(option_text(signature), json_body));
    headers
}

/// The URL of a `GET`: the URL of the operation, and behind a `?` the encoded
/// pairs where there are any. Without pairs there is no `?`.
pub open spec fn get_url(base: Seq<char>, pairs: Seq<(Seq<char>, Seq<char>)>) -> Seq<char> {
    if pairs.len() == 0 {
        base
    } else {
        base + seq!['?'] + urlencoded(pairs)
    }
}

/// The `GET` request for an operation, a payload and an optional signature.
pub open spec fn get_request(
    base: Seq<char>,
    params: Json,
    signature: Option<Seq<char>>,
) -> Result<RequestContent, ApiError> {
    match query_of(params) {
        Ok(pairs) => Ok(
            RequestContent {
                method: Method::Get,
                url: get_url(base, pairs),
                headers: headers_of(signature, false),
                body: BodyContent::Empty,
            },
        ),
        Err(e) => Err(e),
    }
}

/// The `POST` request for an operation, a payload under its policy and an
/// optional signature: a JSON body where the policy asks for one, else a
/// multipart form.
pub open spec fn post_request(
    base: Seq<char>,
    body: Json,
    bytes_fields: Seq<Seq<char>>,
    json_body: bool,
    signature: Option<Seq<char>>,
) -> Result<RequestContent, ApiError> {
    if json_body {
        Ok(
            RequestContent {
                method: Method::Post,
                url: base,
                headers: headers_of(signature, true),
                body: BodyContent::Json(json_text(keyed(body))),
            },
        )
    } else {
        match form_of(body, bytes_fields) {
            Ok(form) => Ok(
                RequestContent {
                    method: Method::Post,
                    url: base,
                    headers: headers_of(signature, false),
                    body: BodyContent::Multipart(form),
                },
            ),
            Err(e) => Err(e),
        }
    }
}

impl ZkWasmServiceEndpoint {
    /// Builds the `GET` request for an operation with its parameters in the
    /// query string.
    pub fn get<U: ToJson>(&self, path: TaskEndpoint, params: &U, signature: Option<String>) -> (r:
        Result<Request, ApiError>)
        ensures
            match r {
                Ok(request) => get_request(self.url(&path), params.json(), option_text(signature))
                    == Ok::<RequestContent, ApiError>(request@),
                Err(e) => get_request(self.url(&path), params.json(), option_text(signature))
                    == Err::<RequestContent, ApiError>(e),
            },
    {
        let base = self.to_path(&path);
        let pairs = match query_pairs(&params.to_json()) {
            Ok(pairs) => pairs,
            Err(e) => return Err(e),
        };
        let encoded = urlencode(&pairs);
        let mut url = base;
        if encoded.as_str().unicode_len() > 0 {
            proof {
                reveal_strlit("?");
            }
            url.append("?");
            url.append(encoded.as_str());
            assert(url@ =~= self.url(&path) + seq!['?'] + urlencoded(pairs_view(pairs@)));
        }
        let headers = request_headers(signature, false);
        Ok(Request { method: Method::Get, url, headers, body: RequestBody::Empty })
    }

    /// Builds the `POST` request for an operation with its payload as the
    /// body.
    pub fn post<U: ToJson + SerializationAttributes>(
        &self,
        path: TaskEndpoint,
        body: &U,
        signature: Option<String>,
    ) -> (r: Result<Request, ApiError>)
        ensures
            match r {
                Ok(request) => post_request(
                    self.url(&path),
                    body.json(),
                    U::policy().bytes_fields,
                    U::policy().json_body,
                    option_text(signature),
                ) == Ok::<RequestContent, ApiError>(request@),
                Err(e) => post_request(
                    self.url(&path),
                    body.json(),
                    U::policy().bytes_fields,
                    U::policy().json_body,
                    option_text(signature),
                ) == Err::<RequestContent, ApiError>(e),
            },
    {
        let url = self.to_path(&path);
        let json_body = U::requires_json_body();
        let content = if json_body {
            RequestBody::Json(body.to_json().to_text())
        } else {
            match IntoMultipartForm::into_multipart_form(body) {
                Ok(form) => RequestBody::Multipart(form),
                Err(e) => return Err(e),
            }
        };
        let headers = request_headers(signature, json_body);
        Ok(Request { method: Method::Post, url, headers, body: content })
    }
}

/// The envelope of every answer of the service: a flag and the result.
#[derive(Clone, Debug, PartialEq)]
pub struct RequestResult<T> {
    pub success: bool,
    pub result: T,
}

impl<T: ToJson> ToJson for RequestResult<T> {
    open spec fn json(&self) -> Json {
        Json::Object(seq![("success"@, self.success.json()), ("result"@, self.result.json())])
    }

    fn to_json(&self) -> (v: JsonValue) {
        let mut fields: Vec<JsonField> = Vec::new();
        push_field(&mut fields, "success", self.success.to_json());
        push_field(&mut fields, "result", self.result.to_json());
        proof {
            assert(json_of_fields(fields@) =~= self.json()->Object_0);
        }
        JsonValue::Object(fields)
    }
}

impl<T: FromJson> FromJson for RequestResult<T> {
    open spec fn absent() -> Option<Json> {
        None
    }

    fn from_absent() -> (r: Option<Self>) {
        None
    }

    open spec fn decoded(j: Json) -> Option<Json> {
        match j {
            Json::Object(fields) => {
                let success = field_decoded::<bool>(fields, "success"@);
                let result = field_decoded::<T>(fields, "result"@);
                if success is Some && result is Some {
                    Some(Json::Object(seq![("success"@, success->0), ("result"@, result->0)]))
                } else {
                    None
                }
            },
            _ => None,
        }
    }

    fn from_json(v: &JsonValue) -> (r: Option<Self>) {
        match v {
            JsonValue::Object(fields) => {
                let success: bool = decode_field(fields, "success")?;
                let result: T = decode_field(fields, "result")?;
                Some(RequestResult { success, result })
            },
            _ => None,
        }
    }
}

/// The result that an answer of the service carries, in its wire form: the
/// answer is a JSON document, the document is the envelope, and the result of
/// the envelope is read as a `V`. `None` where one of the three fails.
pub open spec fn response_result<V: FromJson>(text: Seq<char>) -> Option<Json> {
    match json_parse(text) {
        Some(j) => match RequestResult::<V>::decoded(j) {
            Some(envelope) => Some(envelope->Object_0[1].1),
            None => None,
        },
        None => None,
    }
}

/// Reads the answer of the service and hands out the result of its envelope.
/// An answer that is not an envelope with a result of type `V` gives a
/// `DecodeError` that holds the answer as it came.
pub fn decode_response<V: FromJson>(text: &str) -> (r: Result<V, ApiError>)
    ensures
        match r {
            Ok(x) => response_result::<V>(text@) == Some(x.json()),
            Err(e) => {
                &&& response_result::<V>(text@) is None
                &&& e matches ApiError::DecodeError(body)
                &&& body@ == text@
            },
        },
{
    let envelope: Option<RequestResult<V>> = match JsonValue::parse(text) {
        Some(v) => RequestResult::<V>::from_json(&v),
        None => None,
    };
    match envelope {
        Some(e) => Ok(e.result),
        None => Err(ApiError::DecodeError(String::from_str(text))),
    }
}

impl<T: RoundTrip> RoundTrip for RequestResult<T> {
    proof fn lemma_round_trip(&self) {
        reveal_strlit("success");
        reveal_strlit("result");
        let fields = self.json()->Object_0;
        assert(name_key(fields[0].0, 0, 0, 0) == (7nat, 's', 's', 's'));
        assert(name_key(fields[1].0, 0, 0, 0) == (6nat, 'r', 'r', 'r'));
        assert forall|i: int, j: int| 0 <= i < j < fields.len() implies fields[i].0 != fields[j].0 by {
            assert(name_key(fields[i].0, 0, 0, 0) != name_key(fields[j].0, 0, 0, 0));
        }
        lemma_fields_found(fields);
        self.success.lemma_round_trip();
        self.result.lemma_round_trip();
    }
}

/// Wrapping a result into the envelope and reading the envelope back gives
/// the result.
pub proof fn lemma_envelope_round_trip<V: RoundTrip>(success: bool, result: V)
    ensures
        RequestResult::<V>::decoded((RequestResult { success, result }).json()) == Some(
            (RequestResult { success, result }).json(),
        ),
        RequestResult::<V>::decoded((RequestResult { success, result }).json())->0->Object_0[1].1
            == result.json(),
{
    (RequestResult { success, result }).lemma_round_trip();
}

/// A `GET` whose payload has only null fields goes to the URL of the
/// operation as it is: no `?`, no query.
pub proof fn lemma_get_without_filters(
    base: Seq<char>,
    fields: Seq<(Seq<char>, Json)>,
    signature: Option<Seq<char>>,
)
    requires
        forall|i: int| 0 <= i < fields.len() ==> (#[trigger] fields[i]).1 == Json::Null,
    ensures
        get_request(base, Json::Object(fields), signature) == Ok::<RequestContent, ApiError>(
            RequestContent {
                method: Method::Get,
                url: base,
                headers: headers_of(signature, false),
                body: BodyContent::Empty,
            },
        ),
{
    lemma_null_fields_give_no_query(fields);
}

} // verus!
