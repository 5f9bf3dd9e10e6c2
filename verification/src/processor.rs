//! Validated jobs, the registry of processors, and the dispatch of a job to
//! its processor.
use crate::descriptor::{network_io_id, network_processor_id, HeaderView, JobView, NetworkJobView};
pub use crate::descriptor::{HeaderBuilder, IOBuilder, NetworkIOBuilder};
use crate::error::{lemma_message_not_empty, Error};
use crate::json::{json_object_text, object_text};
pub use crate::registry::Processors;
use crate::request::{
    duration_nanos, header_map_entries, header_map_try_insert, header_name_bytes,
    header_value_bytes, is_header_name, is_header_value, is_method_token, lower_bytes,
    method_token, parsed_url, url_text, HeaderEntries, HEADERS_SURE_TO_FIT,
};
use http::header::{HeaderMap, HeaderName, HeaderValue};
use http::Method;
use std::time::Duration;
use url::Url;
use vstd::prelude::*;
use vstd::utf8::encode_utf8;

verus! {

/// A network job whose every field was validated: an HTTP request and the
/// path for the record of its failure.
pub struct NetworkIO {
    method: Method,
    url: Url,
    headers: HeaderMap<HeaderValue>,
    body: Option<String>,
    timeout: Option<Duration>,
    result_path: String,
}

/// The model of a [`NetworkIO`].
pub struct RequestView {
    /// The method's token.
    pub method: Seq<u8>,
    /// The URL's serialization.
    pub url: Seq<char>,
    /// The header names in lower case, each with its values.
    pub headers: HeaderEntries,
    pub body: Option<Seq<char>>,
    /// The time allowed for the request, in nanoseconds.
    pub timeout: Option<nat>,
    pub result_path: Seq<char>,
}

impl View for NetworkIO {
    type V = RequestView;

    closed spec fn view(&self) -> RequestView {
        RequestView {
            method: method_token(self.method),
            url: url_text(self.url),
            headers: header_map_entries(self.headers),
            body: match self.body {
                Some(text) => Some(text@),
                None => None,
            },
            timeout: match self.timeout {
                Some(duration) => Some(duration_nanos(duration)),
                None => None,
            },
            result_path: self.result_path@,
        }
    }
}

/// What the validation of a network job finds: the first fault, in the order
/// method, URL, then the headers one by one, name before value; or none.
pub enum Verdict {
    InvalidMethod,
    UrlParse,
    InvalidHeaderName,
    InvalidHeaderValue,
    Valid,
}

/// The verdict on the headers: the fault of the first faulty header.
pub open spec fn headers_verdict(headers: Seq<HeaderView>) -> Verdict
    decreases headers.len(),
{
    if headers.len() == 0 {
        Verdict::Valid
    } else if !is_header_name(encode_utf8(headers[0].name)) {
        Verdict::InvalidHeaderName
    } else if !is_header_value(encode_utf8(headers[0].value)) {
        Verdict::InvalidHeaderValue
    } else {
        headers_verdict(headers.drop_first())
    }
}

/// The verdict on a network job.
pub open spec fn verdict(job: NetworkJobView) -> Verdict {
    if !is_method_token(encode_utf8(job.method)) {
        Verdict::InvalidMethod
    } else if parsed_url(job.url) is None {
        Verdict::UrlParse
    } else {
        headers_verdict(job.headers)
    }
}

/// The header map that the headers of a job make: each header in turn sets
/// the value of its name, so that of two headers with one name the later
/// stays.
pub open spec fn header_entries(headers: Seq<HeaderView>) -> HeaderEntries
    decreases headers.len(),
{
    if headers.len() == 0 {
        Map::empty()
    } else {
        header_entries(headers.drop_last()).insert(
            lower_bytes(encode_utf8(headers.last().name)),
            seq![encode_utf8(headers.last().value)],
        )
    }
}

/// The request that a valid network job describes. The job's timeout counts
/// whole seconds.
pub open spec fn request_of(job: NetworkJobView) -> RequestView {
    RequestView {
        method: encode_utf8(job.method),
        url: parsed_url(job.url)->0,
        headers: header_entries(job.headers),
        body: job.body,
        timeout: match job.timeout {
            Some(seconds) => Some((seconds * 1_000_000_000) as nat),
            None => None,
        },
        result_path: job.result_path,
    }
}

impl NetworkIO {
    pub fn method(&self) -> (method: &Method)
        ensures
            method_token(*method) == self@.method,
    {
        &self.method
    }

    pub fn url(&self) -> (url: &Url)
        ensures
            url_text(*url) == self@.url,
    {
        &self.url
    }

    pub fn headers(&self) -> (headers: &HeaderMap<HeaderValue>)
        ensures
            header_map_entries(*headers) == self@.headers,
    {
        &self.headers
    }

    pub fn body(&self) -> (body: &Option<String>)
        ensures
            body matches Some(text) ==> self@.body == Some(text@),
            body is None ==> self@.body is None,
    {
        &self.body
    }

    /// The time allowed for the request.
    pub fn timeout(&self) -> (timeout: Option<Duration>)
        ensures
            timeout matches Some(duration) ==> self@.timeout == Some(duration_nanos(duration)),
            timeout is None ==> self@.timeout is None,
    {
        self.timeout
    }

    pub fn result_path(&self) -> (path: &String)
        ensures
            path@ == self@.result_path,
    {
        &self.result_path
    }

    /// The parts of the request and the result path, for the one who sends
    /// it: method, URL, headers, body, timeout, result path.
    pub fn into_parts(self) -> (parts: (
        Method,
        Url,
        HeaderMap<HeaderValue>,
        Option<String>,
        Option<Duration>,
        String,
    ))
        ensures
            method_token(parts.0) == self@.method,
            url_text(parts.1) == self@.url,
            header_map_entries(parts.2) == self@.headers,
            parts.3 matches Some(text) ==> self@.body == Some(text@),
            parts.3 is None ==> self@.body is None,
            parts.4 matches Some(duration) ==> self@.timeout == Some(duration_nanos(duration)),
            parts.4 is None ==> self@.timeout is None,
            parts.5@ == self@.result_path,
    {
        (self.method, self.url, self.headers, self.body, self.timeout, self.result_path)
    }
}

/// Validates the headers of a job one by one, name before value, and stops at
/// the first fault.
pub fn validate_headers(headers: &Vec<HeaderBuilder>) -> (r: Result<
    Vec<(HeaderName, HeaderValue)>,
    Error,
>)
    ensures
        match r {
            Ok(pairs) => {
                &&& headers_verdict(headers@.map_values(|h: HeaderBuilder| h@)) is Valid
                &&& pairs@.len() == headers@.len()
                &&& forall|k: int|
                    0 <= k < pairs@.len() ==> {
                        &&& header_name_bytes((#[trigger] pairs@[k]).0) == lower_bytes(
                            encode_utf8(headers@[k].name@),
                        )
                        &&& header_value_bytes(pairs@[k].1) == encode_utf8(headers@[k].value@)
                    }
            },
            Err(Error::InvalidHeaderName(_)) => headers_verdict(
                headers@.map_values(|h: HeaderBuilder| h@),
            ) is InvalidHeaderName,
            Err(Error::InvalidHeaderValue(_)) => headers_verdict(
                headers@.map_values(|h: HeaderBuilder| h@),
            ) is InvalidHeaderValue,
            Err(_) => false,
        },
{
    let ghost all = headers@.map_values(|h: HeaderBuilder| h@);
    let mut pairs: Vec<(HeaderName, HeaderValue)> = Vec::new();
    let mut i: usize = 0;
    assert(all.skip(0) =~= all);
    while i < headers.len()
        invariant
            i <= headers.len(),
            all == headers@.map_values(|h: HeaderBuilder| h@),
            headers_verdict(all) == headers_verdict(all.skip(i as int)),
            pairs@.len() == i,
            forall|k: int|
                0 <= k < i ==> {
                    &&& header_name_bytes((#[trigger] pairs@[k]).0) == lower_bytes(
                        encode_utf8(headers@[k].name@),
                    )
                    &&& header_value_bytes(pairs@[k].1) == encode_utf8(headers@[k].value@)
                },
        decreases headers.len() - i,
    {
        assert(all.skip(i as int).drop_first() =~= all.skip(i + 1));
        assert(all.skip(i as int)[0] == headers@[i as int]@);
        let name = match HeaderName::from_bytes(headers[i].name.as_str().as_bytes()) {
            Ok(name) => name,
            Err(e) => {
                return Err(Error::InvalidHeaderName(e.to_string()));
            },
        };
        let value = match HeaderValue::from_bytes(headers[i].value.as_str().as_bytes()) {
            Ok(value) => value,
            Err(e) => {
                return Err(Error::InvalidHeaderValue(e.to_string()));
            },
        };
        pairs.push((name, value));
        i += 1;
    }
    Ok(pairs)
}

/// The header map that validated headers make: each in turn sets the value
/// of its name.
pub open spec fn pair_entries(pairs: Seq<(HeaderName, HeaderValue)>) -> HeaderEntries
    decreases pairs.len(),
{
    if pairs.len() == 0 {
        Map::empty()
    } else {
        pair_entries(pairs.drop_last()).insert(
            header_name_bytes(pairs.last().0),
            seq![header_value_bytes(pairs.last().1)],
        )
    }
}

/// Validated headers make the header map of the headers they were validated
/// from.
proof fn lemma_pair_entries(pairs: Seq<(HeaderName, HeaderValue)>, headers: Seq<HeaderView>)
    requires
        pairs.len() == headers.len(),
        forall|k: int|
            0 <= k < pairs.len() ==> {
                &&& header_name_bytes((#[trigger] pairs[k]).0) == lower_bytes(
                    encode_utf8(headers[k].name),
                )
                &&& header_value_bytes(pairs[k].1) == encode_utf8(headers[k].value)
            },
    ensures
        pair_entries(pairs) == header_entries(headers),
    decreases pairs.len(),
{
    if pairs.len() > 0 {
        assert(pairs.last() == pairs[pairs.len() - 1]);
        lemma_pair_entries(pairs.drop_last(), headers.drop_last());
    }
}

/// The names that the first headers of a list make are among the names that
/// the whole list makes, and both are finitely many: no more than there are
/// headers.
proof fn lemma_names_of_prefix(pairs: Seq<(HeaderName, HeaderValue)>, n: int)
    requires
        0 <= n <= pairs.len(),
    ensures
        pair_entries(pairs).dom().finite(),
        pair_entries(pairs.take(n)).dom().finite(),
        pair_entries(pairs.take(n)).dom().len() <= n,
        pair_entries(pairs.take(n)).dom().len() <= pair_entries(pairs).dom().len(),
    decreases pairs.len() - n,
{
    lemma_names_counted(pairs.take(n));
    if n < pairs.len() {
        lemma_names_of_prefix(pairs, n + 1);
        let longer = pairs.take(n + 1);
        assert(longer.drop_last() =~= pairs.take(n));
        assert(pair_entries(pairs.take(n)).dom().subset_of(pair_entries(longer).dom()));
        vstd::set_lib::lemma_len_subset(
            pair_entries(pairs.take(n)).dom(),
            pair_entries(longer).dom(),
        );
    } else {
        assert(pairs.take(n) =~= pairs);
    }
}

/// A list of headers makes finitely many names: no more than it has headers.
proof fn lemma_names_counted(pairs: Seq<(HeaderName, HeaderValue)>)
    ensures
        pair_entries(pairs).dom().finite(),
        pair_entries(pairs).dom().len() <= pairs.len(),
    decreases pairs.len(),
{
    if pairs.len() > 0 {
        lemma_names_counted(pairs.drop_last());
    }
}

/// Collects validated headers into a header map, in their order: each sets
/// the value of its name. Up to [`HEADERS_SURE_TO_FIT`] headers always fit,
/// and so do headers of fewer names than that, however many they are; of
/// others the map may refuse one.
pub fn collect_headers(pairs: Vec<(HeaderName, HeaderValue)>) -> (r: Result<
    HeaderMap<HeaderValue>,
    Error,
>)
    ensures
        match r {
            Ok(map) => header_map_entries(map) == pair_entries(pairs@),
            Err(Error::HeaderMapFull(_)) => {
                &&& pairs@.len() > HEADERS_SURE_TO_FIT
                &&& pair_entries(pairs@).dom().len() >= HEADERS_SURE_TO_FIT
            },
            Err(_) => false,
        },
{
    let ghost all = pairs@;
    let mut map = HeaderMap::new();
    assert(all.take(0) =~= Seq::<(HeaderName, HeaderValue)>::empty());
    for pair in it: pairs.into_iter()
        invariant
            it.seq() == all,
            header_map_entries(map) == pair_entries(all.take(it.index())),
    {
        let ghost k = it.index();
        proof {
            lemma_names_of_prefix(all, k);
        }
        assert(all.take(k + 1).drop_last() =~= all.take(k));
        assert(all.take(k + 1).last() == pair);
        let (name, value) = pair;
        match header_map_try_insert(&mut map, name, value) {
            Ok(()) => {},
            Err(e) => {
                return Err(Error::HeaderMapFull(e.to_string()));
            },
        }
    }
    assert(all.take(all.len() as int) =~= all);
    Ok(map)
}

impl NetworkIOBuilder {
    /// Validates the job: the method must be an HTTP method token, the URL an
    /// absolute URL, and every header a valid header name with a valid header
    /// value. The first fault found, in that order, is the error returned.
    ///
    /// A job without faults is returned as a request. Only of a job with more
    /// than [`HEADERS_SURE_TO_FIT`] headers, of at least as many names, may
    /// the header map refuse one.
    pub fn build(self) -> (r: Result<NetworkIO, Error>)
        ensures
            match r {
                Ok(io) => verdict(self@) is Valid && io@ == request_of(self@),
                Err(Error::InvalidMethod(_)) => verdict(self@) is InvalidMethod,
                Err(Error::UrlParse(_)) => verdict(self@) is UrlParse,
                Err(Error::InvalidHeaderName(_)) => verdict(self@) is InvalidHeaderName,
                Err(Error::InvalidHeaderValue(_)) => verdict(self@) is InvalidHeaderValue,
                Err(Error::HeaderMapFull(_)) => {
                    &&& verdict(self@) is Valid
                    &&& self@.headers.len() > HEADERS_SURE_TO_FIT
                    &&& header_entries(self@.headers).dom().len() >= HEADERS_SURE_TO_FIT
                },
                Err(_) => false,
            },
    {
        let method = match Method::from_bytes(self.method.as_str().as_bytes()) {
            Ok(method) => method,
            Err(e) => {
                return Err(Error::InvalidMethod(e.to_string()));
            },
        };
        let url = match Url::parse(self.url.as_str()) {
            Ok(url) => url,
            Err(e) => {
                return Err(Error::UrlParse(e.to_string()));
            },
        };
        let pairs = match validate_headers(&self.headers) {
            Ok(pairs) => pairs,
            Err(e) => {
                return Err(e);
            },
        };
        proof {
            lemma_pair_entries(pairs@, self@.headers);
        }
        let headers = match collect_headers(pairs) {
            Ok(headers) => headers,
            Err(e) => {
                return Err(e);
            },
        };
        let timeout = match self.timeout {
            Some(seconds) => Some(Duration::from_secs(seconds)),
            None => None,
        };
        Ok(
            NetworkIO {
                method,
                url,
                headers,
                body: self.body,
                timeout,
                result_path: self.result_path,
            },
        )
    }
}

/// A validated job of some processor.
pub enum Inner {
    NetworkIO(NetworkIO),
}

/// A validated job, ready for dispatch.
pub struct IO {
    inner: Inner,
}

/// The model of an [`IO`].
pub enum IOView {
    NetworkIO(RequestView),
}

impl View for IO {
    type V = IOView;

    closed spec fn view(&self) -> IOView {
        match self.inner {
            Inner::NetworkIO(io) => IOView::NetworkIO(io@),
        }
    }
}

impl IOView {
    /// The identifier of the processor that the job is for.
    pub open spec fn processor_id(self) -> Seq<char> {
        match self {
            IOView::NetworkIO(_) => network_io_id(),
        }
    }

    /// Where the record of the job's failure goes.
    pub open spec fn result_path(self) -> Seq<char> {
        match self {
            IOView::NetworkIO(io) => io.result_path,
        }
    }
}

impl IO {
    /// The identifier of the processor that the job is for.
    pub fn processor_id(&self) -> (id: &'static str)
        ensures
            id@ == self@.processor_id(),
    {
        match &self.inner {
            Inner::NetworkIO(_) => network_processor_id(),
        }
    }

    /// Where the record of the job's failure goes.
    pub fn result_path(&self) -> (path: &String)
        ensures
            path@ == self@.result_path(),
    {
        match &self.inner {
            Inner::NetworkIO(io) => io.result_path(),
        }
    }

    /// The job itself, for the processor that runs it.
    pub fn into_inner(self) -> (inner: Inner)
        ensures
            match inner {
                Inner::NetworkIO(io) => self@ == IOView::NetworkIO(io@),
            },
    {
        self.inner
    }
}

impl IOBuilder {
    /// Validates the descriptor: see [`NetworkIOBuilder::build`].
    pub fn build(self) -> (r: Result<IO, Error>)
        ensures
            match (self@, r) {
                (JobView::NetworkIO(job), Ok(io)) => verdict(job) is Valid && io@
                    == IOView::NetworkIO(request_of(job)),
                (JobView::NetworkIO(job), Err(Error::InvalidMethod(_))) => verdict(
                    job,
                ) is InvalidMethod,
                (JobView::NetworkIO(job), Err(Error::UrlParse(_))) => verdict(job) is UrlParse,
                (JobView::NetworkIO(job), Err(Error::InvalidHeaderName(_))) => verdict(
                    job,
                ) is InvalidHeaderName,
                (JobView::NetworkIO(job), Err(Error::InvalidHeaderValue(_))) => verdict(
                    job,
                ) is InvalidHeaderValue,
                (JobView::NetworkIO(job), Err(Error::HeaderMapFull(_))) => {
                    &&& verdict(job) is Valid
                    &&& job.headers.len() > HEADERS_SURE_TO_FIT
                    &&& header_entries(job.headers).dom().len() >= HEADERS_SURE_TO_FIT
                },
                (_, Err(_)) => false,
            },
    {
        match self {
            IOBuilder::NetworkIO(builder) => match builder.build() {
                Ok(io) => Ok(IO { inner: Inner::NetworkIO(io) }),
                Err(e) => Err(e),
            },
        }
    }
}

/// The record of a job's failure: the file to write, and the message that
/// goes into it.
#[derive(Debug)]
pub struct ResultArtifact {
    pub path: String,
    pub message: String,
}

impl ResultArtifact {
    /// The text of the record: a JSON object whose one member, `message`,
    /// holds the message. Writing it does not fail.
    pub fn to_bytes(&self) -> (r: Result<Vec<u8>, Error>)
        ensures
            r matches Ok(text) && text@ == json_object_text("message"@, self.message@),
    {
        match object_text("message", self.message.as_str()) {
            Ok(text) => Ok(text),
            Err(e) => Err(Error::SerdeJson(e.to_string())),
        }
    }
}

/// What is to be done with a job.
pub enum Dispatch<'a, P> {
    /// Run the job on its processor. Should the run fail, [`capture`] says
    /// what to record at `result_path`.
    Run { processor: &'a P, io: IO, result_path: String },
    /// No processor is registered for the job: write this record.
    Capture(ResultArtifact),
}

impl<P> Processors<P> {
    /// Decides what is to be done with a job. A job whose processor is
    /// registered is to be run on it. A job whose processor is missing is not
    /// run: the record of that failure is to be written to the job's result
    /// path.
    pub fn process<'a>(&'a self, io: IO) -> (dispatch: Dispatch<'a, P>)
        ensures
            match dispatch {
                Dispatch::Run { processor, io: job, result_path } => {
                    &&& self@.contains_key(io@.processor_id())
                    &&& *processor == self@[io@.processor_id()]
                    &&& job == io
                    &&& result_path@ == io@.result_path()
                },
                Dispatch::Capture(artifact) => {
                    &&& !self@.contains_key(io@.processor_id())
                    &&& artifact.path@ == io@.result_path()
                    &&& artifact.message@ == "processor not found: "@ + io@.processor_id()
                },
            },
    {
        let id = io.processor_id();
        let result_path = io.result_path().clone();
        match self.get(id) {
            Some(processor) => Dispatch::Run { processor, io, result_path },
            None => {
                let error = Error::ProcessorNotFound(id.to_owned());
                Dispatch::Capture(ResultArtifact { path: result_path, message: error.message() })
            },
        }
    }
}

/// What is to be recorded after a processor has run a job: nothing where the
/// run succeeded, and the rendered error at the job's result path where it
/// failed. The message of such a record is never empty.
pub fn capture(result_path: String, outcome: &Result<(), Error>) -> (artifact: Option<
    ResultArtifact,
>)
    ensures
        match *outcome {
            Ok(_) => artifact is None,
            Err(error) => {
                &&& artifact matches Some(record)
                &&& record.path@ == result_path@
                &&& record.message@ == error.spec_message()
                &&& record.message@.len() > 0
            },
        },
{
    match outcome {
        Ok(_) => None,
        Err(error) => {
            proof {
                lemma_message_not_empty(*error);
            }
            Some(ResultArtifact { path: result_path, message: error.message() })
        },
    }
}

} // verus!
