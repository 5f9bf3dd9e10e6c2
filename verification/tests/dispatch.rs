use fbr_service::descriptor::{IOBuilder, NetworkIOBuilder};
use fbr_service::error::Error;
use fbr_service::processor::{capture, Dispatch, Inner, ResultArtifact, IO};
use fbr_service::registry::Processors;

fn network_job(result_path: &str) -> IO {
    let builder = IOBuilder::NetworkIO(NetworkIOBuilder {
        method: "GET".to_string(),
        url: "http://example.com".to_string(),
        headers: vec![],
        body: None,
        timeout: None,
        result_path: result_path.to_string(),
    });
    match builder.build() {
        Ok(io) => io,
        Err(e) => panic!("unexpected: {:?}", e),
    }
}

#[test]
fn registry_holds_one_processor_under_each_identifier() {
    let mut processors: Processors<u32> = Processors::new(vec![]);
    assert_eq!(processors.get("a"), None);
    processors.add("a", 1);
    processors.add("b", 2);
    assert_eq!(processors.get("a"), Some(&1));
    assert_eq!(processors.get("b"), Some(&2));
    assert_eq!(processors.get("c"), None);
    assert_eq!(processors.get(""), None);
    processors.add("a", 3);
    assert_eq!(processors.get("a"), Some(&3));
    assert_eq!(processors.get("b"), Some(&2));
    assert_eq!(processors.remove("a"), Some(3));
    assert_eq!(processors.remove("a"), None);
    assert_eq!(processors.get("a"), None);
    assert_eq!(processors.get("b"), Some(&2));
    assert_eq!(processors.remove("c"), None);
    assert_eq!(processors.remove("b"), Some(2));
    assert_eq!(processors.get("b"), None);
}

#[test]
fn registry_made_of_entries_keeps_the_later_of_two() {
    let mut processors = Processors::new(vec![("a", "first"), ("b", "other"), ("a", "second")]);
    assert_eq!(processors.get("a"), Some(&"second"));
    assert_eq!(processors.get("b"), Some(&"other"));
    assert_eq!(processors.remove("a"), Some("second"));
    assert_eq!(processors.get("a"), None);
}

#[test]
fn job_with_a_registered_processor_is_to_be_run() {
    let processors = Processors::new(vec![("other", 1), ("com.proxy.network.io", 2)]);
    match processors.process(network_job("out/job1.json")) {
        Dispatch::Run { processor, io, result_path } => {
            assert_eq!(*processor, 2);
            assert_eq!(result_path, "out/job1.json");
            assert_eq!(io.processor_id(), "com.proxy.network.io");
            match io.into_inner() {
                Inner::NetworkIO(network) => {
                    assert_eq!(network.method().as_str(), "GET");
                    assert_eq!(network.url().as_str(), "http://example.com/");
                }
            }
        }
        Dispatch::Capture(artifact) => panic!("unexpected: {:?}", artifact),
    }
}

#[test]
fn job_without_a_processor_is_recorded() {
    let mut processors = Processors::new(vec![("com.proxy.network.io", 2)]);
    processors.remove("com.proxy.network.io");
    processors.add("com.proxy.other", 3);
    match processors.process(network_job("out/job1.json")) {
        Dispatch::Capture(artifact) => {
            assert_eq!(artifact.path, "out/job1.json");
            assert_eq!(artifact.message, "processor not found: com.proxy.network.io");
            assert_eq!(
                artifact.to_bytes().unwrap(),
                br#"{"message":"processor not found: com.proxy.network.io"}"#.to_vec()
            );
        }
        Dispatch::Run { .. } => panic!("unexpected run"),
    }
    match processors.process(network_job("out/job2.json")) {
        Dispatch::Capture(artifact) => assert_eq!(artifact.path, "out/job2.json"),
        Dispatch::Run { .. } => panic!("unexpected run"),
    }
}

#[test]
fn failed_run_is_recorded_with_its_message() {
    let outcome: Result<(), Error> =
        Err(Error::Reqwest("error sending request for url (http://unreachable.invalid/)".to_string()));
    let artifact = capture("out/job1.json".to_string(), &outcome).unwrap();
    assert_eq!(artifact.path, "out/job1.json");
    assert_eq!(
        artifact.message,
        "reqwest error: error sending request for url (http://unreachable.invalid/)"
    );
    assert_eq!(
        artifact.to_bytes().unwrap(),
        br#"{"message":"reqwest error: error sending request for url (http://unreachable.invalid/)"}"#
            .to_vec()
    );

    let artifact = capture(String::new(), &Err(Error::Reqwest(String::new()))).unwrap();
    assert!(!artifact.message.is_empty());
    assert_eq!(artifact.message, "reqwest error: ");
}

#[test]
fn successful_run_leaves_no_record() {
    assert!(capture("out/job1.json".to_string(), &Ok(())).is_none());
}

#[test]
fn record_is_written_as_json() {
    let artifact = ResultArtifact {
        path: "out/x.json".to_string(),
        message: "line\nbreak \"quoted\" back\\slash \u{1} é".to_string(),
    };
    let bytes = artifact.to_bytes().unwrap();
    assert_eq!(
        String::from_utf8(bytes.clone()).unwrap(),
        "{\"message\":\"line\\nbreak \\\"quoted\\\" back\\\\slash \\u0001 é\"}"
    );
    let value: serde_json::Value = serde_json::from_slice(&bytes).unwrap();
    assert_eq!(value.as_object().unwrap().len(), 1);
    assert_eq!(value["message"].as_str().unwrap(), artifact.message);
}

#[test]
fn every_error_renders_heading_and_cause() {
    let cause = || "cause".to_string();
    assert_eq!(Error::Notify(cause()).message(), "notify error: cause");
    assert_eq!(Error::Notifies(cause()).message(), "notify errors: cause");
    assert_eq!(Error::MpscRecv(cause()).message(), "mpsc recv error: cause");
    assert_eq!(Error::NotDirectory(cause()).message(), "the specified path is a file: cause");
    assert_eq!(Error::DirDoesNotExist(cause()).message(), "the specified path does not exist: cause");
    assert_eq!(Error::TokioJoin(cause()).message(), "tokio join error: cause");
    assert_eq!(Error::SerdeJson(cause()).message(), "serde_json error: cause");
    assert_eq!(Error::InvalidMethod(cause()).message(), "invalid method: cause");
    assert_eq!(Error::UrlParse(cause()).message(), "url parse error: cause");
    assert_eq!(Error::InvalidHeaderName(cause()).message(), "invalid header name: cause");
    assert_eq!(Error::InvalidHeaderValue(cause()).message(), "invalid header value: cause");
    assert_eq!(Error::HeaderMapFull(cause()).message(), "header map is full: cause");
    assert_eq!(Error::Reqwest(cause()).message(), "reqwest error: cause");
    assert_eq!(Error::ProcessorNotFound(cause()).message(), "processor not found: cause");
    assert_eq!(Error::ProcessorNotFound(String::new()).message(), "processor not found: ");
}
