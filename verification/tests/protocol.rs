use gem::address::{join_if_relative, Url};
use gem::client::{
    describe_error, find_clrf, read_response, request_line, split_response, NetworkError,
};
use gem::gemtext::{
    is_toggle, parse_doc, parse_formatted, split_lines, str_eq, GemTextLine, Heading, Scheme,
};
use gem::status::{
    get_status, parse_status, split_status, ClientCertificateRequired, Input, PermanentFailure, Redirect, Status,
    Success, TemporaryFailure,
};

fn url(s: &str) -> Url {
    Url::parse(s).unwrap()
}

#[test]
fn status_success() {
    assert_eq!(
        parse_status("20 text/gemini\r\n"),
        Status::Success(Success::Success, "text/gemini".to_string())
    );
}

#[test]
fn status_permanent_redirect() {
    assert_eq!(
        parse_status("31 gemini://x/\r\n"),
        Status::Redirect(Redirect::Permanent, "gemini://x/".to_string())
    );
}

#[test]
fn status_not_found() {
    assert_eq!(
        parse_status("51 not found\r\n"),
        Status::PermanentFailure(PermanentFailure::NotFound, "not found".to_string())
    );
}

#[test]
fn status_unknown_is_no_error() {
    assert_eq!(parse_status("99 ???\r\n"), Status::Unknown(99, "???".to_string()));
    assert_eq!(parse_status("7 x"), Status::Unknown(7, "x".to_string()));
    assert_eq!(parse_status("700 x"), Status::Unknown(700, "x".to_string()));
}

#[test]
fn status_without_a_code_is_malformed() {
    assert_eq!(parse_status("abc def"), Status::Malformed("def".to_string()));
    assert_eq!(parse_status(""), Status::Malformed("".to_string()));
    assert_eq!(parse_status("1234 x"), Status::Malformed("x".to_string()));
    assert_eq!(parse_status("+20 x"), Status::Malformed("x".to_string()));
}

#[test]
fn status_without_text_has_no_text() {
    assert_eq!(parse_status("20"), Status::Success(Success::Success, "".to_string()));
    assert_eq!(parse_status("20\r\n"), Status::Success(Success::Success, "".to_string()));
    assert_eq!(parse_status("abc"), Status::Malformed("".to_string()));
}

#[test]
fn status_text_may_hold_a_tab() {
    assert_eq!(
        parse_status("20 text/plain\tx\r\n"),
        Status::Success(Success::Success, "text/plain\tx".to_string())
    );
    assert_eq!(
        parse_status("51  not\tfound "),
        Status::PermanentFailure(PermanentFailure::NotFound, "not\tfound".to_string())
    );
}

#[test]
fn status_line_in_two_parts() {
    assert_eq!(split_status(" 20 a b "), ("20", "a b"));
    assert_eq!(split_status("20\u{a0}x"), ("20", "x"));
    assert_eq!(split_status("20"), ("20", ""));
    assert_eq!(split_status(""), ("", ""));
}

#[test]
fn status_text_after_a_tab() {
    assert_eq!(
        parse_status("10\tyour name"),
        Status::InputExpected(Input::Input, "your name".to_string())
    );
}

#[test]
fn status_table() {
    let class = |code: i16| Status::new(code, String::new());
    let m = String::new;
    assert_eq!(class(10), Status::InputExpected(Input::Input, m()));
    assert_eq!(class(11), Status::InputExpected(Input::Sensitive, m()));
    assert_eq!(class(19), Status::InputExpected(Input::Input, m()));
    assert_eq!(class(20), Status::Success(Success::Success, m()));
    assert_eq!(class(29), Status::Success(Success::Success, m()));
    assert_eq!(class(30), Status::Redirect(Redirect::Temporary, m()));
    assert_eq!(class(31), Status::Redirect(Redirect::Permanent, m()));
    assert_eq!(class(39), Status::Redirect(Redirect::Temporary, m()));
    assert_eq!(class(40), Status::TemporaryFailure(TemporaryFailure::TemporaryFailure, m()));
    assert_eq!(class(41), Status::TemporaryFailure(TemporaryFailure::ServerUnavailable, m()));
    assert_eq!(class(42), Status::TemporaryFailure(TemporaryFailure::CGIError, m()));
    assert_eq!(class(43), Status::TemporaryFailure(TemporaryFailure::ProxyError, m()));
    assert_eq!(class(44), Status::TemporaryFailure(TemporaryFailure::SlowDown, m()));
    assert_eq!(class(45), Status::TemporaryFailure(TemporaryFailure::TemporaryFailure, m()));
    assert_eq!(class(50), Status::PermanentFailure(PermanentFailure::PermanentFailure, m()));
    assert_eq!(class(51), Status::PermanentFailure(PermanentFailure::NotFound, m()));
    assert_eq!(class(52), Status::PermanentFailure(PermanentFailure::Gone, m()));
    assert_eq!(class(53), Status::PermanentFailure(PermanentFailure::ProxyRequestRefused, m()));
    assert_eq!(class(58), Status::PermanentFailure(PermanentFailure::PermanentFailure, m()));
    assert_eq!(class(59), Status::PermanentFailure(PermanentFailure::BadRequest, m()));
    assert_eq!(
        class(60),
        Status::ClientCertificateRequired(ClientCertificateRequired::ClientCertificateRequired, m())
    );
    assert_eq!(
        class(61),
        Status::ClientCertificateRequired(
            ClientCertificateRequired::TransientCertificateRequired,
            m()
        )
    );
    assert_eq!(
        class(62),
        Status::ClientCertificateRequired(
            ClientCertificateRequired::AuthorizedCertificateRequired,
            m()
        )
    );
    assert_eq!(
        class(63),
        Status::ClientCertificateRequired(ClientCertificateRequired::CertificateNotAccepted, m())
    );
    assert_eq!(
        class(64),
        Status::ClientCertificateRequired(ClientCertificateRequired::FutureCertificateRejected, m())
    );
    assert_eq!(
        class(65),
        Status::ClientCertificateRequired(ClientCertificateRequired::ExpiredCertificateRejected, m())
    );
    assert_eq!(
        class(69),
        Status::ClientCertificateRequired(ClientCertificateRequired::ClientCertificateRequired, m())
    );
    assert_eq!(class(9), Status::Unknown(9, m()));
    assert_eq!(class(70), Status::Unknown(70, m()));
    assert_eq!(class(-1), Status::Unknown(-1, m()));
}

#[test]
fn code_is_one_to_three_digits() {
    assert_eq!(get_status("0"), Some(0));
    assert_eq!(get_status("020"), Some(20));
    assert_eq!(get_status("999"), Some(999));
    assert_eq!(get_status(""), None);
    assert_eq!(get_status("1000"), None);
    assert_eq!(get_status("2a"), None);
    assert_eq!(get_status("٢٠"), None);
}

#[test]
fn gemtext_document() {
    let doc = parse_doc("# Hi\n=> /a label\n* item\n> quote\n```\nraw\n```\n", &url("gemini://h/"));
    assert_eq!(
        doc,
        vec![
            GemTextLine::Heading(Heading::One("Hi".to_string())),
            GemTextLine::Link(Scheme::Gemini(url("gemini://h/a")), "label".to_string()),
            GemTextLine::ListItem("- item".to_string()),
            GemTextLine::Quote("quote".to_string()),
            GemTextLine::PreFormat("raw".to_string()),
        ]
    );
}

#[test]
fn gemtext_marks_are_looked_for_longest_first() {
    let base = url("gemini://h/");
    assert_eq!(
        parse_formatted("### three", &base),
        GemTextLine::Heading(Heading::Three("three".to_string()))
    );
    assert_eq!(
        parse_formatted("## two", &base),
        GemTextLine::Heading(Heading::Two("two".to_string()))
    );
    assert_eq!(
        parse_formatted("#one", &base),
        GemTextLine::Heading(Heading::One("one".to_string()))
    );
    assert_eq!(parse_formatted("plain # text ", &base), GemTextLine::Text("plain # text ".to_string()));
    assert_eq!(parse_formatted("", &base), GemTextLine::Text("".to_string()));
    assert_eq!(parse_formatted("=", &base), GemTextLine::Text("=".to_string()));
}

#[test]
fn gemtext_links() {
    let base = url("gemini://h/dir/page");
    assert_eq!(
        parse_formatted("=> gemini://other/x\tOther  place", &base),
        GemTextLine::Link(Scheme::Gemini(url("gemini://other/x")), "Other  place".to_string())
    );
    assert_eq!(
        parse_formatted("=>sibling", &base),
        GemTextLine::Link(Scheme::Gemini(url("gemini://h/dir/sibling")), "sibling".to_string())
    );
    assert_eq!(
        parse_formatted("=> gopher://g/1 old", &base),
        GemTextLine::Link(Scheme::Gopher(url("gopher://g/1")), "old".to_string())
    );
    assert_eq!(
        parse_formatted("=> https://w/ web", &base),
        GemTextLine::Link(Scheme::Http(url("https://w/")), "web".to_string())
    );
    assert_eq!(
        parse_formatted("=> http://w/ web", &base),
        GemTextLine::Link(Scheme::Http(url("http://w/")), "web".to_string())
    );
    assert_eq!(
        parse_formatted("=> mailto:a@b mail", &base),
        GemTextLine::Link(Scheme::Unknown(url("mailto:a@b")), "mail".to_string())
    );
}

#[test]
fn gemtext_link_without_an_address_is_kept() {
    let base = url("gemini://h/");
    assert_eq!(
        parse_formatted("=> http://[ broken", &base),
        GemTextLine::Link(Scheme::Unresolved("http://[".to_string()), "broken".to_string())
    );
    let doc = parse_doc("=> http://[ broken\nafter", &base);
    assert_eq!(doc.len(), 2);
    assert_eq!(doc[1], GemTextLine::Text("after".to_string()));
}

#[test]
fn gemtext_preformatted_lines_are_kept_as_they_are() {
    let doc = parse_doc("```alt\n# not a heading\n=> /x\n```\n# heading", &url("gemini://h/"));
    assert_eq!(
        doc,
        vec![
            GemTextLine::PreFormat("# not a heading".to_string()),
            GemTextLine::PreFormat("=> /x".to_string()),
            GemTextLine::Heading(Heading::One("heading".to_string())),
        ]
    );
}

#[test]
fn gemtext_of_nothing_is_empty() {
    assert_eq!(parse_doc("", &url("gemini://h/")), vec![]);
    assert_eq!(parse_doc("\n", &url("gemini://h/")), vec![GemTextLine::Text("".to_string())]);
}

#[test]
fn lines_end_with_line_feeds() {
    assert_eq!(split_lines("a\r\nb\n\nc"), vec!["a", "b", "", "c"]);
    assert_eq!(split_lines("a\n"), vec!["a"]);
    assert_eq!(split_lines("a\r"), vec!["a\r"]);
    assert_eq!(split_lines(""), Vec::<String>::new());
    let text = "x\r\n\r\ny\r\rz\n\n";
    let expected: Vec<String> = text.lines().map(|l| l.to_string()).collect();
    assert_eq!(split_lines(text), expected);
}

#[test]
fn fence_is_three_backticks() {
    assert!(is_toggle("```"));
    assert!(is_toggle("```rust"));
    assert!(!is_toggle("``"));
    assert!(!is_toggle(" ```"));
}

#[test]
fn texts_compare_by_their_characters() {
    assert!(str_eq("gemini", "gemini"));
    assert!(!str_eq("gemini", "gemin"));
    assert!(!str_eq("gemini", "gemink"));
    assert!(str_eq("", ""));
}

#[test]
fn address_is_parsed_by_the_url_crate() {
    assert_eq!(url("HTTPS://Example.ORG").as_str(), "https://example.org/");
    assert_eq!(url("gemini://h/a b").as_str(), "gemini://h/a%20b");
    assert_eq!(url("https://h").as_str(), "https://h/");
    assert_eq!(url("gemini://h/x").scheme(), "gemini");
    assert_eq!(url("mailto:a@b").scheme(), "mailto");
}

#[test]
fn address_errors() {
    let e = Url::parse("/relative").unwrap_err();
    assert!(e.relative);
    assert_eq!(e.message, "relative URL without a base");
    let e = Url::parse("http://[").unwrap_err();
    assert!(!e.relative);
    assert_eq!(e.message, "invalid IPv6 address");
    let e = Url::parse("https://h:99999/").unwrap_err();
    assert_eq!(e.message, "invalid port number");
}

#[test]
fn address_join() {
    let base = url("gemini://h/dir/page");
    assert_eq!(base.join("other").unwrap().as_str(), "gemini://h/dir/other");
    assert_eq!(base.join("/top").unwrap().as_str(), "gemini://h/top");
    assert_eq!(base.join("../up").unwrap().as_str(), "gemini://h/up");
    assert_eq!(base.join("gemini://x/").unwrap().as_str(), "gemini://x/");
    assert!(base.join("http://[").is_err());
    assert!(url("mailto:a@b").join("x").is_err());
}

#[test]
fn address_join_if_relative() {
    let base = url("gemini://h/dir/page");
    assert_eq!(join_if_relative(&base, "x").unwrap().as_str(), "gemini://h/dir/x");
    assert_eq!(join_if_relative(&base, "gopher://g/").unwrap().as_str(), "gopher://g/");
    let e = join_if_relative(&base, "http://[").unwrap_err();
    assert!(!e.relative);
}

#[test]
fn address_with_query() {
    let base = url("gemini://h/search");
    assert_eq!(base.with_query("a b").unwrap().as_str(), "gemini://h/search?a%20b");
    assert_eq!(url("gemini://h/s?old").with_query("new").unwrap().as_str(), "gemini://h/s?new");
}

#[test]
fn request_is_the_address_and_a_line_end() {
    assert_eq!(request_line(&url("gemini://h/x")), "gemini://h/x\r\n");
}

#[test]
fn response_is_split_at_the_first_line_end() {
    let r = b"20 text/gemini\r\n# Hi\r\nmore".to_vec();
    assert_eq!(find_clrf(&r), Some(14));
    assert_eq!(
        split_response(&r),
        Ok((b"20 text/gemini".to_vec(), b"# Hi\r\nmore".to_vec()))
    );
    assert_eq!(
        read_response(&r),
        Ok((
            Status::Success(Success::Success, "text/gemini".to_string()),
            "# Hi\r\nmore".to_string()
        ))
    );
    assert_eq!(split_response(&b"\r\n".to_vec()), Ok((vec![], vec![])));
}

#[test]
fn response_without_a_line_end_is_malformed() {
    assert_eq!(find_clrf(&b"20 text/gemini\n".to_vec()), None);
    assert_eq!(find_clrf(&b"\r".to_vec()), None);
    assert_eq!(find_clrf(&vec![]), None);
    assert_eq!(split_response(&b"20 text/gemini".to_vec()), Err(NetworkError::Malformed));
    assert_eq!(read_response(&b"20 \n\r".to_vec()), Err(NetworkError::Malformed));
}

#[test]
fn response_that_is_no_utf8_is_read_all_the_same() {
    let r = vec![b'2', b'0', b' ', 0xff, b'\r', b'\n', 0xc3, 0xa9, 0xc3];
    assert_eq!(
        read_response(&r),
        Ok((
            Status::Success(Success::Success, "\u{fffd}".to_string()),
            "\u{e9}\u{fffd}".to_string()
        ))
    );
}

#[test]
fn network_errors_in_words() {
    assert_eq!(describe_error(&NetworkError::Resolve("h:1965".into())), "Could not resolve h:1965");
    assert_eq!(describe_error(&NetworkError::Connect("h".into())), "Could not connect to h");
    assert_eq!(describe_error(&NetworkError::Tls("h".into())), "Could not connect to h");
    assert_eq!(describe_error(&NetworkError::Write("u".into())), "Could not write to u");
    assert_eq!(describe_error(&NetworkError::Read("u".into())), "Could not read u");
    assert_eq!(describe_error(&NetworkError::Malformed), "Could not find the clrf");
}
