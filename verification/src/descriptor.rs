//! Job descriptors: what a job file says, before any of it is validated.
//!
//! A job file is a JSON object. Its member `processor_id` names the processor
//! that the job is for, and with it the members that the object must hold.
//! Members that a variant does not know are passed over.
use crate::error::Error;
use crate::json::{
    items_view, json_document, lemma_array_view, lemma_object_view, members_view, parse_json, Json,
    JsonValue,
};
use crate::text::same_text;
use vstd::prelude::*;
use vstd::string::StringExecFns;

verus! {

/// One header of a network job, as written in the job file.
#[derive(Debug)]
pub struct HeaderBuilder {
    pub name: String,
    pub value: String,
}

/// A network job, as written in the job file.
#[derive(Debug)]
pub struct NetworkIOBuilder {
    pub method: String,
    pub url: String,
    pub headers: Vec<HeaderBuilder>,
    pub body: Option<String>,
    /// The time allowed for the request, in whole seconds.
    pub timeout: Option<u64>,
    pub result_path: String,
}

/// A job descriptor: one variant for each processor.
#[non_exhaustive]
#[derive(Debug)]
pub enum IOBuilder {
    NetworkIO(NetworkIOBuilder),
}

/// The model of a [`HeaderBuilder`].
pub struct HeaderView {
    pub name: Seq<char>,
    pub value: Seq<char>,
}

/// The model of a [`NetworkIOBuilder`].
pub struct NetworkJobView {
    pub method: Seq<char>,
    pub url: Seq<char>,
    pub headers: Seq<HeaderView>,
    pub body: Option<Seq<char>>,
    pub timeout: Option<u64>,
    pub result_path: Seq<char>,
}

/// The model of an [`IOBuilder`].
pub enum JobView {
    NetworkIO(NetworkJobView),
}

impl View for HeaderBuilder {
    type V = HeaderView;

    open spec fn view(&self) -> HeaderView {
        HeaderView { name: self.name@, value: self.value@ }
    }
}

impl View for NetworkIOBuilder {
    type V = NetworkJobView;

    open spec fn view(&self) -> NetworkJobView {
        NetworkJobView {
            method: self.method@,
            url: self.url@,
            headers: self.headers@.map_values(|h: HeaderBuilder| h@),
            body: match self.body {
                Some(text) => Some(text@),
                None => None,
            },
            timeout: self.timeout,
            result_path: self.result_path@,
        }
    }
}

impl View for IOBuilder {
    type V = JobView;

    open spec fn view(&self) -> JobView {
        match self {
            IOBuilder::NetworkIO(job) => JobView::NetworkIO(job@),
        }
    }
}

/// The identifier of the network processor.
pub open spec fn network_io_id() -> Seq<char> {
    "com.proxy.network.io"@
}

/// The identifier of the network processor.
pub fn network_processor_id() -> (id: &'static str)
    ensures
        id@ == network_io_id(),
{
    "com.proxy.network.io"
}

/// The value of the first member with the given key.
pub open spec fn member(members: Seq<(Seq<char>, JsonValue)>, key: Seq<char>) -> Option<JsonValue>
    decreases members.len(),
{
    if members.len() == 0 {
        None
    } else if members[0].0 == key {
        Some(members[0].1)
    } else {
        member(members.drop_first(), key)
    }
}

/// A member that must be there and be a string.
pub open spec fn text_member(members: Seq<(Seq<char>, JsonValue)>, key: Seq<char>) -> Option<
    Seq<char>,
> {
    match member(members, key) {
        Some(JsonValue::Text(text)) => Some(text),
        _ => None,
    }
}

/// A member that may be missing or `null`, and is a string otherwise. The
/// outer `None` says that the member is there and is something else.
pub open spec fn optional_text_member(
    members: Seq<(Seq<char>, JsonValue)>,
    key: Seq<char>,
) -> Option<Option<Seq<char>>> {
    match member(members, key) {
        None => Some(None),
        Some(JsonValue::Null) => Some(None),
        Some(JsonValue::Text(text)) => Some(Some(text)),
        _ => None,
    }
}

/// A member that may be missing or `null`, and is an integer from 0 to
/// `u64::MAX` otherwise. The outer `None` says that the member is there and is
/// something else.
pub open spec fn optional_seconds_member(
    members: Seq<(Seq<char>, JsonValue)>,
    key: Seq<char>,
) -> Option<Option<u64>> {
    match member(members, key) {
        None => Some(None),
        Some(JsonValue::Null) => Some(None),
        Some(JsonValue::Number(Some(seconds))) => Some(Some(seconds)),
        _ => None,
    }
}

/// One header: an object with the strings `name` and `value`.
pub open spec fn header_of(item: JsonValue) -> Option<HeaderView> {
    match item {
        JsonValue::Object(members) => match (
            text_member(members, "name"@),
            text_member(members, "value"@),
        ) {
            (Some(name), Some(value)) => Some(HeaderView { name, value }),
            _ => None,
        },
        _ => None,
    }
}

/// The headers: every item of the array must be a header.
pub open spec fn headers_of(items: Seq<JsonValue>) -> Option<Seq<HeaderView>> {
    if forall|i: int| 0 <= i < items.len() ==> (#[trigger] header_of(items[i])) is Some {
        Some(items.map_values(|item: JsonValue| header_of(item)->0))
    } else {
        None
    }
}

/// A member that must be there and be an array of headers.
pub open spec fn headers_member(members: Seq<(Seq<char>, JsonValue)>, key: Seq<char>) -> Option<
    Seq<HeaderView>,
> {
    match member(members, key) {
        Some(JsonValue::Array(items)) => headers_of(items),
        _ => None,
    }
}

/// The network job that the members of an object describe.
pub open spec fn network_job_of(members: Seq<(Seq<char>, JsonValue)>) -> Option<NetworkJobView> {
    match (
        text_member(members, "method"@),
        text_member(members, "url"@),
        headers_member(members, "headers"@),
        optional_text_member(members, "body"@),
        optional_seconds_member(members, "timeout"@),
        text_member(members, "result_path"@),
    ) {
        (
            Some(method),
            Some(url),
            Some(headers),
            Some(body),
            Some(timeout),
            Some(result_path),
        ) => Some(NetworkJobView { method, url, headers, body, timeout, result_path }),
        _ => None,
    }
}

/// The job that a document describes: the document must be an object whose
/// `processor_id` is a known identifier, with the members of that variant.
pub open spec fn job_of(doc: JsonValue) -> Option<JobView> {
    match doc {
        JsonValue::Object(members) => if text_member(members, "processor_id"@) == Some(
            network_io_id(),
        ) {
            match network_job_of(members) {
                Some(job) => Some(JobView::NetworkIO(job)),
                None => None,
            }
        } else {
            None
        },
        _ => None,
    }
}

/// Finds the first member with the given key.
pub fn find_member<'a>(members: &'a Vec<(String, Json)>, key: &str) -> (found: Option<&'a Json>)
    ensures
        match found {
            Some(value) => member(members_view(members@), key@) == Some(value@),
            None => member(members_view(members@), key@) is None,
        },
{
    let ghost all = members_view(members@);
    let mut i: usize = 0;
    assert(all.skip(0) =~= all);
    while i < members.len()
        invariant
            i <= members.len(),
            all == members_view(members@),
            member(all, key@) == member(all.skip(i as int), key@),
        decreases members.len() - i,
    {
        assert(all.skip(i as int).drop_first() =~= all.skip(i + 1));
        assert(all.skip(i as int)[0] == all[i as int]);
        if same_text(members[i].0.as_str(), key) {
            return Some(&members[i].1);
        }
        i += 1;
    }
    None
}

/// Reads a member that must be there and be a string.
pub fn read_text(members: &Vec<(String, Json)>, key: &str) -> (found: Option<String>)
    ensures
        match found {
            Some(text) => text_member(members_view(members@), key@) == Some(text@),
            None => text_member(members_view(members@), key@) is None,
        },
{
    match find_member(members, key) {
        Some(Json::Text(text)) => Some(text.clone()),
        _ => None,
    }
}

/// Reads a member that may be missing or `null`, and is a string otherwise.
pub fn read_optional_text(members: &Vec<(String, Json)>, key: &str) -> (found: Option<
    Option<String>,
>)
    ensures
        match found {
            Some(Some(text)) => optional_text_member(members_view(members@), key@) == Some(
                Some(text@),
            ),
            Some(None) => optional_text_member(members_view(members@), key@) == Some(
                None::<Seq<char>>,
            ),
            None => optional_text_member(members_view(members@), key@) is None,
        },
{
    match find_member(members, key) {
        None => Some(None),
        Some(Json::Null) => Some(None),
        Some(Json::Text(text)) => Some(Some(text.clone())),
        _ => None,
    }
}

/// Reads a member that may be missing or `null`, and is a count of seconds
/// otherwise.
pub fn read_optional_seconds(members: &Vec<(String, Json)>, key: &str) -> (found: Option<
    Option<u64>,
>)
    ensures
        found == optional_seconds_member(members_view(members@), key@),
{
    match find_member(members, key) {
        None => Some(None),
        Some(Json::Null) => Some(None),
        Some(Json::Number(Some(seconds))) => Some(Some(*seconds)),
        _ => None,
    }
}

/// Reads one header.
pub fn read_header(item: &Json) -> (found: Option<HeaderBuilder>)
    ensures
        match found {
            Some(header) => header_of(item@) == Some(header@),
            None => header_of(item@) is None,
        },
{
    match item {
        Json::Object(members) => {
            proof {
                lemma_object_view(*members);
            }
            let name = read_text(members, "name");
            let value = read_text(members, "value");
            match (name, value) {
                (Some(name), Some(value)) => Some(HeaderBuilder { name, value }),
                _ => None,
            }
        },
        _ => None,
    }
}

/// Reads a member that must be there and be an array of headers.
pub fn read_headers(members: &Vec<(String, Json)>, key: &str) -> (found: Option<
    Vec<HeaderBuilder>,
>)
    ensures
        match found {
            Some(headers) => headers_member(members_view(members@), key@) == Some(
                headers@.map_values(|h: HeaderBuilder| h@),
            ),
            None => headers_member(members_view(members@), key@) is None,
        },
{
    match find_member(members, key) {
        Some(Json::Array(items)) => {
            proof {
                lemma_array_view(*items);
            }
            let ghost models = items_view(items@);
            let mut headers: Vec<HeaderBuilder> = Vec::new();
            let mut i: usize = 0;
            while i < items.len()
                invariant
                    i <= items.len(),
                    models == items_view(items@),
                    headers_member(members_view(members@), key@) == headers_of(models),
                    headers@.len() == i,
                    forall|k: int|
                        0 <= k < i ==> header_of(models[k]) == Some(#[trigger] headers@[k]@),
                decreases items.len() - i,
            {
                match read_header(&items[i]) {
                    Some(header) => {
                        headers.push(header);
                    },
                    None => {
                        assert(header_of(models[i as int]) is None);
                        return None;
                    },
                }
                i += 1;
            }
            proof {
                assert forall|k: int| 0 <= k < models.len() implies (#[trigger] header_of(
                    models[k],
                )) is Some by {
                    assert(header_of(models[k]) == Some(headers@[k]@));
                }
                assert(headers_of(models)->0 =~= headers@.map_values(|h: HeaderBuilder| h@)) by {
                    assert forall|k: int| 0 <= k < models.len() implies headers_of(models)->0[k]
                        == headers@.map_values(|h: HeaderBuilder| h@)[k] by {
                        assert(header_of(models[k]) == Some(headers@[k]@));
                    }
                }
            }
            Some(headers)
        },
        _ => None,
    }
}

/// Reads the members of a network job.
pub fn read_network_job(members: &Vec<(String, Json)>) -> (r: Result<NetworkIOBuilder, Error>)
    ensures
        match r {
            Ok(job) => network_job_of(members_view(members@)) == Some(job@),
            Err(e) => network_job_of(members_view(members@)) is None && e is SerdeJson,
        },
{
    let method = match read_text(members, "method") {
        Some(method) => method,
        None => {
            return Err(Error::SerdeJson(String::from_str("`method` must be a string")));
        },
    };
    let url = match read_text(members, "url") {
        Some(url) => url,
        None => {
            return Err(Error::SerdeJson(String::from_str("`url` must be a string")));
        },
    };
    let headers = match read_headers(members, "headers") {
        Some(headers) => headers,
        None => {
            return Err(
                Error::SerdeJson(
                    String::from_str(
                        "`headers` must be an array of objects with the strings `name` and `value`",
                    ),
                ),
            );
        },
    };
    let body = match read_optional_text(members, "body") {
        Some(body) => body,
        None => {
            return Err(Error::SerdeJson(String::from_str("`body` must be a string or null")));
        },
    };
    let timeout = match read_optional_seconds(members, "timeout") {
        Some(timeout) => timeout,
        None => {
            return Err(
                Error::SerdeJson(
                    String::from_str("`timeout` must be a whole number of seconds or null"),
                ),
            );
        },
    };
    let result_path = match read_text(members, "result_path") {
        Some(result_path) => result_path,
        None => {
            return Err(Error::SerdeJson(String::from_str("`result_path` must be a string")));
        },
    };
    Ok(NetworkIOBuilder { method, url, headers, body, timeout, result_path })
}

impl IOBuilder {
    /// Reads a job descriptor from a document: the document must be an object
    /// whose `processor_id` names a known processor, with the members of that
    /// processor's jobs.
    pub fn from_document(doc: &Json) -> (r: Result<IOBuilder, Error>)
        ensures
            match r {
                Ok(job) => job_of(doc@) == Some(job@),
                Err(e) => job_of(doc@) is None && e is SerdeJson,
            },
    {
        match doc {
            Json::Object(members) => {
                proof {
                    lemma_object_view(*members);
                }
                match read_text(members, "processor_id") {
                    Some(id) => {
                        if same_text(id.as_str(), network_processor_id()) {
                            match read_network_job(members) {
                                Ok(job) => Ok(IOBuilder::NetworkIO(job)),
                                Err(e) => Err(e),
                            }
                        } else {
                            Err(
                                Error::SerdeJson(
                                    String::from_str("unknown `processor_id`: ").concat(
                                        id.as_str(),
                                    ),
                                ),
                            )
                        }
                    },
                    None => Err(
                        Error::SerdeJson(String::from_str("`processor_id` must be a string")),
                    ),
                }
            },
            _ => Err(Error::SerdeJson(String::from_str("a job must be an object"))),
        }
    }

    /// Reads a job descriptor from the bytes of a job file.
    ///
    /// The bytes must be one JSON document, and that document must describe a
    /// job: see [`job_of`]. Anything else is an [`Error::SerdeJson`].
    pub fn new(bytes: &[u8]) -> (r: Result<IOBuilder, Error>)
        ensures
            match r {
                Ok(job) => json_document(bytes@) matches Some(doc) && job_of(doc) == Some(job@),
                Err(e) => e is SerdeJson && (json_document(bytes@) matches Some(doc) ==> job_of(
                    doc,
                ) is None),
            },
    {
        match parse_json(bytes) {
            Ok(doc) => IOBuilder::from_document(&doc),
            Err(e) => Err(Error::SerdeJson(e.to_string())),
        }
    }
}

/// The document that writes out one header.
pub open spec fn header_document(header: HeaderView) -> JsonValue {
    JsonValue::Object(
        seq![("name"@, JsonValue::Text(header.name)), ("value"@, JsonValue::Text(header.value))],
    )
}

/// The document that writes out a network job: an object with the
/// identifier of the network processor and every field of the job. A body or
/// a timeout that the job lacks is written as `null`.
pub open spec fn document_of(job: NetworkJobView) -> JsonValue {
    JsonValue::Object(
        seq![
            ("processor_id"@, JsonValue::Text(network_io_id())),
            ("method"@, JsonValue::Text(job.method)),
            ("url"@, JsonValue::Text(job.url)),
            (
                "headers"@,
                JsonValue::Array(job.headers.map_values(|h: HeaderView| header_document(h))),
            ),
            (
                "body"@,
                match job.body {
                    Some(text) => JsonValue::Text(text),
                    None => JsonValue::Null,
                },
            ),
            (
                "timeout"@,
                match job.timeout {
                    Some(seconds) => JsonValue::Number(Some(seconds)),
                    None => JsonValue::Null,
                },
            ),
            ("result_path"@, JsonValue::Text(job.result_path)),
        ],
    )
}

/// A header that is written out and read back is the same header.
pub proof fn lemma_header_round_trip(header: HeaderView)
    ensures
        header_of(header_document(header)) == Some(header),
{
    reveal_strlit("name");
    reveal_strlit("value");
    reveal_with_fuel(member, 3);
    assert("name"@ != "value"@) by {
        assert("name"@.len() != "value"@.len());
    }
}

/// Reading gives back what was written: the document that writes out a
/// network job is read as that job, field for field.
pub proof fn lemma_parse_round_trip(job: NetworkJobView)
    ensures
        job_of(document_of(job)) == Some(JobView::NetworkIO(job)),
{
    reveal_strlit("processor_id");
    reveal_strlit("method");
    reveal_strlit("url");
    reveal_strlit("headers");
    reveal_strlit("body");
    reveal_strlit("timeout");
    reveal_strlit("result_path");
    reveal_with_fuel(member, 8);
    let members = document_of(job)->Object_0;
    let items = job.headers.map_values(|h: HeaderView| header_document(h));
    assert forall|i: int| 0 <= i < items.len() implies (#[trigger] header_of(items[i])) == Some(
        job.headers[i],
    ) by {
        lemma_header_round_trip(job.headers[i]);
    }
    assert(headers_of(items) == Some(job.headers)) by {
        assert(headers_of(items)->0 =~= job.headers);
    }
    assert(member(members, "processor_id"@) == Some(JsonValue::Text(network_io_id())));
    assert(member(members, "method"@) == Some(JsonValue::Text(job.method))) by {
        assert("processor_id"@[0] != "method"@[0]);
    }
    assert(member(members, "url"@) == Some(JsonValue::Text(job.url))) by {
        assert("processor_id"@[0] != "url"@[0]);
        assert("method"@[0] != "url"@[0]);
    }
    assert(member(members, "headers"@) == Some(JsonValue::Array(items))) by {
        assert("processor_id"@[0] != "headers"@[0]);
        assert("method"@[0] != "headers"@[0]);
        assert("url"@[0] != "headers"@[0]);
    }
    assert(member(members, "body"@) == Some(members[4].1)) by {
        assert("processor_id"@[0] != "body"@[0]);
        assert("method"@[0] != "body"@[0]);
        assert("url"@[0] != "body"@[0]);
        assert("headers"@[0] != "body"@[0]);
    }
    assert(member(members, "timeout"@) == Some(members[5].1)) by {
        assert("processor_id"@[0] != "timeout"@[0]);
        assert("method"@[0] != "timeout"@[0]);
        assert("url"@[0] != "timeout"@[0]);
        assert("headers"@[0] != "timeout"@[0]);
        assert("body"@[0] != "timeout"@[0]);
    }
    assert(member(members, "result_path"@) == Some(JsonValue::Text(job.result_path))) by {
        assert("processor_id"@[0] != "result_path"@[0]);
        assert("method"@[0] != "result_path"@[0]);
        assert("url"@[0] != "result_path"@[0]);
        assert("headers"@[0] != "result_path"@[0]);
        assert("body"@[0] != "result_path"@[0]);
        assert("timeout"@[0] != "result_path"@[0]);
    }
}

/// A document whose `processor_id` is not the identifier of a known
/// processor describes no job, whatever else it holds.
pub proof fn lemma_unknown_processor_rejected(doc: JsonValue)
    requires
        !(doc matches JsonValue::Object(members) && text_member(members, "processor_id"@) == Some(
            network_io_id(),
        )),
    ensures
        job_of(doc) is None,
{
}

} // verus!
