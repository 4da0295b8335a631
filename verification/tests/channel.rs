use warrior4_appliance::adapter::{
    resolve_target, target_of, usable_addresses, ResolveError, Target, UrlParts,
};
use warrior4_appliance::api::Request;
use warrior4_appliance::check::{check_content, check_nonexistent, snippet, Fetch, TestResult};
use warrior4_appliance::ipc::{
    after_accept, command_output_request, handle_client, Acceptance, Reception,
};
use warrior4_appliance::wire::DecodeError;

#[test]
fn reader_forwards_each_line() {
    let request = Request::ProgressInfo { text: "Starting container warrior".to_string(), percent: 50 };
    assert_eq!(handle_client(&request.to_line()), Reception::Forward(request.clone()));
    assert_eq!(handle_client(&request.encode()), Reception::Forward(request));
}

#[test]
fn reader_ends_at_the_end_of_the_stream() {
    assert_eq!(handle_client(""), Reception::End);
}

#[test]
fn reader_rejects_a_line_that_is_no_event() {
    assert_eq!(handle_client("\n"), Reception::Reject(DecodeError::Malformed));
    assert_eq!(handle_client("{\"request\":\"info\"\n"), Reception::Reject(DecodeError::Malformed));
    assert_eq!(handle_client("{\"request\":\"info\"}\n"), Reception::Reject(DecodeError::MissingText));
    assert_eq!(
        handle_client("{\"request\":\"shutdown\",\"text\":\"\"}\n"),
        Reception::Reject(DecodeError::UnknownRequest)
    );
}

#[test]
fn server_pauses_one_second_after_a_failed_accept() {
    assert_eq!(after_accept(true), Acceptance::Serve);
    assert_eq!(after_accept(false), Acceptance::Pause { seconds: 1 });
}

#[test]
fn command_output_shows_the_last_line() {
    assert_eq!(
        command_output_request("Pulling image\nlayer 1 done\nlayer 2 done\n"),
        Request::CommandOutput { text: "layer 2 done".to_string() }
    );
    assert_eq!(
        command_output_request("Pulling image\nlayer 1"),
        Request::CommandOutput { text: "layer 1".to_string() }
    );
    assert_eq!(command_output_request(""), Request::CommandOutput { text: String::new() });
}

#[test]
fn snippet_matches_escape_ascii_cut_at_64() {
    let all: Vec<u8> = (0..=255u8).collect();
    let mut cases: Vec<Vec<u8>> = vec![
        vec![],
        b"hello".to_vec(),
        b"tab\there \"quoted\" 'single' back\\slash\r\n".to_vec(),
        vec![0, 1, 0x7f, 0x80, 0xff],
        vec![b'a'; 64],
        vec![b'a'; 65],
        vec![b'a'; 63].into_iter().chain([b'\n']).collect(),
        vec![b'a'; 62].into_iter().chain([0xff]).collect(),
        all.clone(),
    ];
    for start in 0..=255usize {
        cases.push(all[start..].to_vec());
    }
    for content in cases {
        let mut expected = content.escape_ascii().to_string();
        expected.truncate(64);
        assert_eq!(snippet(&content), expected);
    }
    assert_eq!(snippet(&vec![0x9d, b'\'', 0x0a]), "\\x9d\\'\\n");
}

fn response(status: u16, status_text: &str, body: &[u8]) -> Fetch {
    Fetch::Response { status, status_text: status_text.to_string(), body: body.to_vec() }
}

#[test]
fn nonexistent_name_must_not_resolve() {
    assert_eq!(
        check_nonexistent(&Fetch::HostNotFound { message: "host not found".to_string() }),
        TestResult::Pass
    );
    assert_eq!(
        check_nonexistent(&response(200, "200 OK", b"ok")),
        TestResult::Fail("unexpected response".to_string())
    );
    assert_eq!(
        check_nonexistent(&response(404, "404 Not Found", b"")),
        TestResult::Fail("unexpected response".to_string())
    );
    assert_eq!(
        check_nonexistent(&Fetch::Failed { message: "timeout: global".to_string() }),
        TestResult::Error("timeout: global".to_string())
    );
}

#[test]
fn content_must_match_byte_for_byte() {
    assert_eq!(check_content(&response(200, "200 OK", b"archiveteam\n"), "archiveteam\n"), TestResult::Pass);
    assert_eq!(check_content(&response(200, "200 OK", "\u{e9}".as_bytes()), "\u{e9}"), TestResult::Pass);
    assert_eq!(check_content(&response(200, "200 OK", b""), ""), TestResult::Pass);
    assert_eq!(
        check_content(&response(200, "200 OK", b"<html>\n"), "archiveteam\n"),
        TestResult::Fail("unexpected content '<html>\\n'".to_string())
    );
    assert_eq!(
        check_content(&response(200, "200 OK", b"archiveteam"), "archiveteam\n"),
        TestResult::Fail("unexpected content 'archiveteam'".to_string())
    );
    assert_eq!(
        check_content(&response(200, "200 OK", &[b'x'; 100]), "archiveteam\n"),
        TestResult::Fail(format!("unexpected content '{}'", "x".repeat(64)))
    );
    assert_eq!(
        check_content(&response(302, "302 Found", b"archiveteam\n"), "archiveteam\n"),
        TestResult::Fail("unexpected status code 302 Found".to_string())
    );
    assert_eq!(
        check_content(&Fetch::HostNotFound { message: "host not found".to_string() }, "x"),
        TestResult::Error("host not found".to_string())
    );
    assert_eq!(
        check_content(&Fetch::Failed { message: "io: reset".to_string() }, "x"),
        TestResult::Error("io: reset".to_string())
    );
}

#[test]
fn target_is_host_and_port_of_the_url() {
    let target = |host: &str, port| Ok(Target { host: host.to_string(), port });
    assert_eq!(resolve_target("http://example.org/path"), target("example.org", 80));
    assert_eq!(resolve_target("https://example.org/"), target("example.org", 443));
    assert_eq!(resolve_target("http://example.org:8080/"), target("example.org", 8080));
    assert_eq!(resolve_target("foo://example.org:1456"), target("example.org", 1456));
    assert_eq!(resolve_target("http://127.0.0.1/"), target("127.0.0.1", 80));
    assert_eq!(
        resolve_target("foo://example.org"),
        Err(ResolveError::BadUri("port".to_string()))
    );
    assert_eq!(
        resolve_target("data:text/plain,Stuff"),
        Err(ResolveError::BadUri("host".to_string()))
    );
    assert_eq!(
        resolve_target("example.org"),
        Err(ResolveError::BadUri("relative URL without a base".to_string()))
    );
    assert_eq!(resolve_target(""), Err(ResolveError::BadUri("relative URL without a base".to_string())));
}

#[test]
fn target_of_parts() {
    assert_eq!(
        target_of(Ok(UrlParts { host: Some("h".to_string()), port: Some(1) })),
        Ok(Target { host: "h".to_string(), port: 1 })
    );
    assert_eq!(
        target_of(Ok(UrlParts { host: None, port: Some(1) })),
        Err(ResolveError::BadUri("host".to_string()))
    );
    assert_eq!(
        target_of(Ok(UrlParts { host: None, port: None })),
        Err(ResolveError::BadUri("host".to_string()))
    );
    assert_eq!(
        target_of(Ok(UrlParts { host: Some("h".to_string()), port: None })),
        Err(ResolveError::BadUri("port".to_string()))
    );
    assert_eq!(
        target_of(Err("empty host".to_string())),
        Err(ResolveError::BadUri("empty host".to_string()))
    );
}

#[test]
fn at_most_sixteen_addresses_are_used() {
    assert_eq!(usable_addresses(0), Err(ResolveError::HostNotFound));
    assert_eq!(usable_addresses(1), Ok(1));
    assert_eq!(usable_addresses(16), Ok(16));
    assert_eq!(usable_addresses(17), Ok(16));
    assert_eq!(usable_addresses(usize::MAX), Ok(16));
}
