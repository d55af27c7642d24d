use xml_webhook::config::{parse_flag, parse_method, Config, ConfigError, HttpMethod};
use xml_webhook::delivery::{
    begin_overwrite, build_payload, finish_overwrite, is_success_status, is_xml_content_type,
    response_action, should_read_content, ResponseAction, WebhookPayload, IGNORE_DURATION_SECS,
    SETTLE_DELAY_MILLIS,
};
use xml_webhook::dispatch::{dispatch, Dispatch, WatchEventKind};
use xml_webhook::paths::{file_name_or_empty, is_xml_extension, is_xml_file};
use xml_webhook::suppression::SuppressionSet;
use xml_webhook::text::{str_eq, str_eq_ignore_ascii_case, str_has_prefix};

fn some(s: &str) -> Option<String> {
    Some(s.to_string())
}

fn config(with_content: bool, overwrite: bool) -> Config {
    let flag = |b: bool| some(if b { "true" } else { "false" });
    Config::from_settings(None, some("http://hook"), None, flag(with_content), flag(overwrite))
        .unwrap()
}

#[test]
fn non_xml_extensions_are_not_delivered() {
    let set = SuppressionSet::new();
    for p in ["a.txt", "a.xmll", "a.xm", "xml", "a", "/watch/dir.xml/file.json", "a.xml.bak"] {
        assert!(!is_xml_file(p), "{}", p);
        assert_eq!(dispatch(WatchEventKind::Create, true, p, &set), Dispatch::NotXml);
    }
}

#[test]
fn xml_extension_in_any_case_is_delivered() {
    let set = SuppressionSet::new();
    for p in ["a.xml", "/watch/A.XML", "sub/b.Xml", "c.tar.xMl"] {
        assert!(is_xml_file(p), "{}", p);
        assert_eq!(dispatch(WatchEventKind::Create, true, p, &set), Dispatch::Deliver);
    }
}

#[test]
fn hidden_file_named_xml_has_no_extension() {
    assert!(!is_xml_file(".xml"));
    assert!(!is_xml_file("/watch/.xml"));
}

#[test]
fn xml_extension_check() {
    assert!(is_xml_extension("xml"));
    assert!(is_xml_extension("XmL"));
    assert!(!is_xml_extension("xmls"));
    assert!(!is_xml_extension(""));
}

#[test]
fn only_creations_of_regular_files_are_delivered() {
    let set = SuppressionSet::new();
    assert_eq!(dispatch(WatchEventKind::Other, true, "a.xml", &set), Dispatch::NotCreation);
    assert_eq!(dispatch(WatchEventKind::Create, false, "a.xml", &set), Dispatch::NotRegularFile);
}

#[test]
fn inserted_path_is_contained_until_removed() {
    let mut set = SuppressionSet::new();
    assert!(!set.contains("/w/a.xml"));
    set.insert("/w/a.xml");
    assert!(set.contains("/w/a.xml"));
    set.insert("/w/a.xml");
    set.insert("/w/b.xml");
    set.remove("/w/b.xml");
    assert!(set.contains("/w/a.xml"));
    assert!(!set.contains("/w/b.xml"));
    assert!(!set.contains("/w/a.xm"));
    set.remove("/w/a.xml");
    assert!(!set.contains("/w/a.xml"));
    set.remove("/w/a.xml");
    assert!(!set.contains("/w/a.xml"));
}

#[test]
fn overwrite_without_content_is_inert() {
    let c = config(false, true);
    assert!(c.overwrite_is_inert());
    assert!(!c.overwrite_enabled());
    assert_eq!(response_action(&c, 200, "application/xml"), ResponseAction::Sent);
    assert_eq!(response_action(&c, 200, "text/xml"), ResponseAction::Sent);
    let active = config(true, true);
    assert!(!active.overwrite_is_inert());
    assert!(active.overwrite_enabled());
}

#[test]
fn post_bogus_and_mixed_case_select_post() {
    assert_eq!(parse_method("post"), HttpMethod::Post);
    assert_eq!(parse_method("Post"), HttpMethod::Post);
    assert_eq!(parse_method("bogus"), HttpMethod::Post);
    assert_eq!(parse_method("POST"), HttpMethod::Post);
    assert_eq!(parse_method(""), HttpMethod::Post);
}

#[test]
fn other_verbs_in_any_case() {
    assert_eq!(parse_method("get"), HttpMethod::Get);
    assert_eq!(parse_method("Put"), HttpMethod::Put);
    assert_eq!(parse_method("PATCH"), HttpMethod::Patch);
    assert_eq!(parse_method("delete"), HttpMethod::Delete);
    assert_eq!(parse_method("gett"), HttpMethod::Post);
}

#[test]
fn xml_answer_overwrites_and_suppresses() {
    let c = config(true, true);
    let mut set = SuppressionSet::new();
    assert_eq!(
        response_action(&c, 200, "application/xml; charset=utf-8"),
        ResponseAction::ReadBody
    );
    assert!(begin_overwrite(&mut set, "a.xml", "<ok/>"));
    assert!(set.contains("a.xml"));
    assert!(finish_overwrite(&mut set, "a.xml", true));
    assert!(set.contains("a.xml"));
    // the release that follows after the ignore duration
    set.remove("a.xml");
    assert!(!set.contains("a.xml"));
    assert_eq!(IGNORE_DURATION_SECS, 2);
}

#[test]
fn plain_text_answer_keeps_file() {
    let c = config(true, true);
    assert_eq!(response_action(&c, 200, "text/plain"), ResponseAction::NotXmlContent);
    assert_eq!(response_action(&c, 200, ""), ResponseAction::NotXmlContent);
    assert_eq!(response_action(&c, 201, "text/xml"), ResponseAction::ReadBody);
}

#[test]
fn empty_answer_keeps_file() {
    let mut set = SuppressionSet::new();
    assert!(!begin_overwrite(&mut set, "a.xml", ""));
    assert!(!set.contains("a.xml"));
}

#[test]
fn failed_write_releases_path() {
    let mut set = SuppressionSet::new();
    assert!(begin_overwrite(&mut set, "a.xml", "<x/>"));
    assert!(!finish_overwrite(&mut set, "a.xml", false));
    assert!(!set.contains("a.xml"));
}

#[test]
fn failed_status_is_reported() {
    let c = config(true, true);
    assert_eq!(response_action(&c, 500, "application/xml"), ResponseAction::Failed);
    assert_eq!(response_action(&c, 404, "text/xml"), ResponseAction::Failed);
    assert_eq!(response_action(&config(false, false), 302, ""), ResponseAction::Failed);
    assert_eq!(response_action(&config(false, false), 204, ""), ResponseAction::Sent);
}

#[test]
fn success_status_range() {
    assert!(!is_success_status(199));
    assert!(is_success_status(200));
    assert!(is_success_status(299));
    assert!(!is_success_status(300));
    assert!(!is_success_status(0));
}

#[test]
fn xml_content_types() {
    assert!(is_xml_content_type("text/xml"));
    assert!(is_xml_content_type("application/xml; charset=utf-8"));
    assert!(!is_xml_content_type("Text/XML"));
    assert!(!is_xml_content_type("application/json"));
    assert!(!is_xml_content_type("text/xm"));
}

#[test]
fn missing_webhook_url_is_an_error() {
    let r = Config::from_settings(some("/data"), None, some("GET"), some("true"), some("true"));
    assert_eq!(r.as_ref().err(), Some(&ConfigError::MissingWebhookUrl));
    assert_eq!(
        ConfigError::MissingWebhookUrl.message(),
        "WEBHOOK_URL environment variable is required"
    );
}

#[test]
fn settings_defaults() {
    let c = Config::from_settings(None, some("http://h/x"), None, None, None).unwrap();
    assert_eq!(c.watch_dir, "/watch");
    assert_eq!(c.webhook_url, "http://h/x");
    assert_eq!(c.webhook_method, "POST");
    assert!(!c.include_content);
    assert!(!c.overwrite_with_response);
    assert_eq!(c.method(), HttpMethod::Post);
    assert_eq!(SETTLE_DELAY_MILLIS, 500);
}

#[test]
fn settings_given() {
    let c = Config::from_settings(some("/data"), some("u"), some("patch"), some("TRUE"), some("yes"))
        .unwrap();
    assert_eq!(c.watch_dir, "/data");
    assert_eq!(c.webhook_method, "patch");
    assert_eq!(c.method(), HttpMethod::Patch);
    assert!(c.include_content);
    assert!(!c.overwrite_with_response);
}

#[test]
fn flags_match_true_only() {
    assert!(parse_flag(&some("true")));
    assert!(parse_flag(&some("True")));
    assert!(!parse_flag(&some("")));
    assert!(!parse_flag(&some("1")));
    assert!(!parse_flag(&some("truex")));
    assert!(!parse_flag(&None));
}

#[test]
fn own_write_event_is_suppressed() {
    let mut set = SuppressionSet::new();
    assert!(begin_overwrite(&mut set, "/watch/b.xml", "<r/>"));
    assert!(finish_overwrite(&mut set, "/watch/b.xml", true));
    assert_eq!(dispatch(WatchEventKind::Create, true, "/watch/b.xml", &set), Dispatch::Suppressed);
    assert_eq!(dispatch(WatchEventKind::Create, true, "/watch/c.xml", &set), Dispatch::Deliver);
    set.remove("/watch/b.xml");
    assert_eq!(dispatch(WatchEventKind::Create, true, "/watch/b.xml", &set), Dispatch::Deliver);
}

#[test]
fn payload_with_content() {
    let c = config(true, false);
    assert!(should_read_content(&c));
    let p = build_payload(&c, "/watch/sub/a.xml", some("<a/>"));
    assert_eq!(p.event, "new_xml_file");
    assert_eq!(p.filepath, "/watch/sub/a.xml");
    assert_eq!(p.filename, "a.xml");
    assert_eq!(p.content.as_deref(), Some("<a/>"));
    assert!(p.timestamp.contains('T'));
}

#[test]
fn payload_without_content() {
    let c = config(false, false);
    assert!(!should_read_content(&c));
    let p = build_payload(&c, "/watch/a.xml", some("<a/>"));
    assert_eq!(p.content, None);
    let q = build_payload(&config(true, false), "/watch/a.xml", None);
    assert_eq!(q.content, None);
}

#[test]
fn payload_from_parts() {
    let p = WebhookPayload::new("/w/x.xml", "x.xml".to_string(), None, "t".to_string());
    assert_eq!(p.event, "new_xml_file");
    assert_eq!(p.filepath, "/w/x.xml");
    assert_eq!(p.filename, "x.xml");
    assert_eq!(p.timestamp, "t");
}

#[test]
fn file_names() {
    assert_eq!(file_name_or_empty("/watch/sub/a.xml"), "a.xml");
    assert_eq!(file_name_or_empty("a.xml"), "a.xml");
    assert_eq!(file_name_or_empty("/"), "");
    assert_eq!(file_name_or_empty("/watch/.."), "");
}

#[test]
fn text_helpers() {
    assert!(str_eq("abc", "abc"));
    assert!(!str_eq("abc", "abd"));
    assert!(!str_eq("ab", "abc"));
    assert!(str_eq_ignore_ascii_case("ÄbC", "Äbc"));
    assert!(!str_eq_ignore_ascii_case("ä", "Ä"));
    assert!(str_has_prefix("abc", ""));
    assert!(str_has_prefix("abc", "ab"));
    assert!(!str_has_prefix("ab", "abc"));
}
