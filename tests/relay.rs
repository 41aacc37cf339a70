use webhook_relay::classify::{classify, Rejection, Route};
use webhook_relay::dedup::{DedupCache, DedupKey, Freshness};
use webhook_relay::delivery::{
    delivery_reply, duplicate_reply, outcome_for_status, rejection_reply, webhook_url,
    DeliveryOutcome,
};
use webhook_relay::model::{SourceAbuseReport, SourceAttachment, SourceNote, SourceUser, Timestamp};
use webhook_relay::note::{prepare_note, select_image, translate_note, NoteAction};
use webhook_relay::report::{abuse_report_message, describe_user, translate_abuse_report};
use webhook_relay::text::normalize_origin;

fn user(name: Option<&str>, handle: &str, host: Option<&str>) -> SourceUser {
    SourceUser {
        display_name: name.map(String::from),
        handle: handle.to_string(),
        host: host.map(String::from),
        avatar_url: "https://example.test/avatar.png".to_string(),
    }
}

fn attachment(url: &str, media_type: &str) -> SourceAttachment {
    SourceAttachment { url: url.to_string(), media_type: media_type.to_string() }
}

fn note(id: &str, text: Option<&str>, attachments: Vec<SourceAttachment>) -> SourceNote {
    SourceNote {
        id: id.to_string(),
        created_at: Timestamp { seconds: 1_700_000_000, nanos: 5 },
        text: text.map(String::from),
        author: user(Some("Alice"), "alice", None),
        attachments,
    }
}

fn key(id: u64, server: &str, note_id: &str) -> DedupKey {
    DedupKey { destination_id: id, origin_server: server.to_string(), note_id: note_id.to_string() }
}

#[test]
fn missing_server_is_rejected() {
    let r = classify(None, Some("note"));
    assert!(matches!(r, Err(Rejection::MissingOrigin)));
}

#[test]
fn missing_type_is_rejected_with_fixed_text() {
    let r = classify(Some("https://example.test"), None).unwrap_err();
    assert!(matches!(r, Rejection::MissingType));
    assert_eq!(r.message(), "type field not found");
    let reply = rejection_reply(&r);
    assert_eq!(reply.status, 400);
    assert_eq!(reply.body, "type field not found");
}

#[test]
fn follow_is_unsupported_and_subscribe_unknown() {
    for t in ["follow", "followed", "unfollow"] {
        let r = classify(Some("https://example.test"), Some(t)).unwrap_err();
        assert_eq!(r.message(), format!("Unsupported event type: {t}"));
        assert!(matches!(r, Rejection::UnsupportedType(_)));
    }
    let r = classify(Some("https://example.test"), Some("subscribe")).unwrap_err();
    assert!(matches!(r, Rejection::UnknownType(_)));
    assert_eq!(r.message(), "Unknown event type: subscribe");
}

#[test]
fn note_kinds_route_to_notes() {
    for t in ["note", "reply", "mention", "renote", "note@someone", "note@"] {
        let d = classify(Some("https://example.test/"), Some(t)).unwrap();
        assert_eq!(d.route, Route::Note);
        assert_eq!(d.origin, "https://example.test");
    }
    let r = classify(Some("https://example.test"), Some("notes")).unwrap_err();
    assert!(matches!(r, Rejection::UnknownType(_)));
    let r = classify(Some("https://example.test"), Some("note")).unwrap();
    assert_eq!(r.origin, "https://example.test");
}

#[test]
fn abuse_report_routes_to_reports() {
    let d = classify(Some("https://example.test"), Some("abuseReport")).unwrap();
    assert_eq!(d.route, Route::AbuseReport);
    let r = classify(Some("https://example.test"), Some("abusereport")).unwrap_err();
    assert!(matches!(r, Rejection::UnknownType(_)));
}

#[test]
fn payload_rejections_have_text() {
    assert_eq!(Rejection::PayloadNotFound.message(), "webhokk payload not found");
    assert_eq!(Rejection::PayloadParseError.message(), "webhokk payload parse error");
    assert_eq!(Rejection::PayloadParseError.status(), 400);
    assert!(Rejection::MissingOrigin.message().starts_with("No 'server' payload found."));
}

#[test]
fn origin_normalization_strips_trailing_separators() {
    assert_eq!(normalize_origin("https://example.test/"), "https://example.test");
    assert_eq!(normalize_origin("https://example.test"), "https://example.test");
    assert_eq!(normalize_origin("https://example.test///"), "https://example.test");
    assert_eq!(normalize_origin("/"), "");
    assert_eq!(normalize_origin(""), "");
}

#[test]
fn same_note_twice_is_duplicate() {
    let mut cache = DedupCache::new(1024);
    let k = key(42, "https://example.test", "9abc");
    assert_eq!(cache.check_and_insert(&k), Freshness::Fresh);
    assert_eq!(cache.check_and_insert(&k), Freshness::Duplicate);
    assert_eq!(cache.check_and_insert(&key(43, "https://example.test", "9abc")), Freshness::Fresh);
    assert_eq!(cache.check_and_insert(&key(42, "https://other.test", "9abc")), Freshness::Fresh);
    assert_eq!(cache.check_and_insert(&key(42, "https://example.test", "9abd")), Freshness::Fresh);
}

#[test]
fn overflow_evicts_oldest_small_capacity() {
    let mut cache = DedupCache::new(3);
    for i in 1..=4u64 {
        assert_eq!(cache.check_and_insert(&key(i, "s", "n")), Freshness::Fresh);
    }
    // k_2 .. k_4 are still held
    assert_eq!(cache.check_and_insert(&key(2, "s", "n")), Freshness::Duplicate);
    assert_eq!(cache.check_and_insert(&key(3, "s", "n")), Freshness::Duplicate);
    assert_eq!(cache.check_and_insert(&key(4, "s", "n")), Freshness::Duplicate);
    // k_1 was evicted and is fresh again
    assert_eq!(cache.check_and_insert(&key(1, "s", "n")), Freshness::Fresh);
}

#[test]
fn eviction_is_not_reported_as_duplicate() {
    let mut cache = DedupCache::new(1);
    assert_eq!(cache.check_and_insert(&key(7, "https://a.test", "n1")), Freshness::Fresh);
    // evicts a key with the same destination and note id but another origin
    assert_eq!(cache.check_and_insert(&key(7, "https://b.test", "n1")), Freshness::Fresh);
    assert_eq!(cache.check_and_insert(&key(7, "https://a.test", "n1")), Freshness::Fresh);
}

#[test]
fn overflow_evicts_oldest_default_capacity() {
    let mut cache = DedupCache::new(1024);
    for i in 0..1025u64 {
        assert_eq!(cache.check_and_insert(&key(1, "s", &i.to_string())), Freshness::Fresh);
    }
    assert_eq!(cache.check_and_insert(&key(1, "s", "1")), Freshness::Duplicate);
    assert_eq!(cache.check_and_insert(&key(1, "s", "1024")), Freshness::Duplicate);
    assert_eq!(cache.check_and_insert(&key(1, "s", "0")), Freshness::Fresh);
}

#[test]
fn re_touched_key_survives_eviction() {
    let mut cache = DedupCache::new(2);
    cache.check_and_insert(&key(1, "s", "a"));
    cache.check_and_insert(&key(1, "s", "b"));
    assert_eq!(cache.check_and_insert(&key(1, "s", "a")), Freshness::Duplicate);
    assert_eq!(cache.check_and_insert(&key(1, "s", "c")), Freshness::Fresh);
    assert_eq!(cache.check_and_insert(&key(1, "s", "a")), Freshness::Duplicate);
    assert_eq!(cache.check_and_insert(&key(1, "s", "b")), Freshness::Fresh);
}

#[test]
fn svg_is_skipped_png_is_selected() {
    let atts = vec![
        attachment("https://example.test/a.svg", "image/svg+xml"),
        attachment("https://example.test/b.png", "image/png"),
    ];
    let image = select_image(&atts).unwrap();
    assert_eq!(image.url, "https://example.test/b.png");
    let embed = translate_note(&note("n1", Some("hi"), atts), "https://example.test");
    assert_eq!(embed.image.unwrap().url, "https://example.test/b.png");
}

#[test]
fn first_matching_image_wins() {
    let atts = vec![
        attachment("https://example.test/a.gif", "image/gif"),
        attachment("https://example.test/b.webp", "image/webp"),
        attachment("https://example.test/c.jpg", "image/jpeg"),
    ];
    assert_eq!(select_image(&atts).unwrap().url, "https://example.test/a.gif");
}

#[test]
fn no_matching_attachment_gives_no_image() {
    let atts = vec![
        attachment("https://example.test/a.svg", "image/svg+xml"),
        attachment("https://example.test/v.mp4", "video/mp4"),
    ];
    assert!(select_image(&atts).is_none());
    let embed = translate_note(&note("n1", None, atts), "https://example.test");
    assert!(embed.image.is_none());
    assert!(select_image(&Vec::new()).is_none());
}

#[test]
fn note_embed_fields() {
    let embed = translate_note(&note("9xyz", Some("hello"), vec![]), "https://example.test");
    assert_eq!(embed.title, "Alice (@alice)");
    assert_eq!(embed.description, "hello");
    assert_eq!(embed.url, "https://example.test/notes/9xyz");
    assert_eq!(embed.timestamp, Timestamp { seconds: 1_700_000_000, nanos: 5 });
    assert_eq!(embed.author.name, "@alice");
    assert_eq!(embed.author.url, "https://example.test/@alice");
    assert_eq!(embed.author.icon_url, "https://example.test/avatar.png");
}

#[test]
fn note_embed_fallbacks_and_remote_author() {
    let mut n = note("9xyz", None, vec![]);
    n.author = user(None, "bob", Some("remote.test"));
    let embed = translate_note(&n, "https://example.test");
    assert_eq!(embed.title, "bob (@bob)");
    assert_eq!(embed.description, "(no content)");
    assert_eq!(embed.author.name, "@bob");
    assert_eq!(embed.author.url, "https://example.test/@bob@remote.test");
}

#[test]
fn trailing_separator_gives_same_key_and_urls() {
    let a = classify(Some("https://example.test/"), Some("note")).unwrap();
    let b = classify(Some("https://example.test"), Some("note")).unwrap();
    assert_eq!(a.origin, b.origin);
    let ea = translate_note(&note("n1", None, vec![]), &a.origin);
    let eb = translate_note(&note("n1", None, vec![]), &b.origin);
    assert_eq!(ea.url, eb.url);
    assert_eq!(ea.url, "https://example.test/notes/n1");
    assert_eq!(ea.author.url, eb.author.url);
    let mut cache = DedupCache::new(8);
    assert!(matches!(prepare_note(&mut cache, 5, &a.origin, &note("n1", None, vec![])), NoteAction::Send(_)));
    assert!(matches!(prepare_note(&mut cache, 5, &b.origin, &note("n1", None, vec![])), NoteAction::Skip));
}

#[test]
fn prepare_note_sends_then_skips() {
    let mut cache = DedupCache::new(1024);
    let n = note("n1", Some("t"), vec![attachment("https://example.test/p.png", "image/png")]);
    match prepare_note(&mut cache, 11, "https://example.test", &n) {
        NoteAction::Send(m) => {
            assert!(m.content.is_none());
            assert_eq!(m.embeds.len(), 1);
            assert_eq!(m.embeds[0].url, "https://example.test/notes/n1");
            assert_eq!(m.embeds[0].image.as_ref().unwrap().url, "https://example.test/p.png");
        }
        NoteAction::Skip => panic!("first submission must be sent"),
    }
    assert!(matches!(prepare_note(&mut cache, 11, "https://example.test", &n), NoteAction::Skip));
    assert!(matches!(prepare_note(&mut cache, 12, "https://example.test", &n), NoteAction::Send(_)));
}

#[test]
fn abuse_report_with_unknown_users() {
    let report = SourceAbuseReport { target_user: None, reporter: None, comment: "spam".to_string() };
    let text = translate_abuse_report(&report);
    assert_eq!(text.matches("unknown_user").count(), 2);
    assert_eq!(
        text,
        "New abuse report created!\nReporter: unknown_user\nTarget User: unknown_user\nComment\nspam"
    );
    let m = abuse_report_message(&report);
    assert!(m.embeds.is_empty());
    assert_eq!(m.content.unwrap(), text);
}

#[test]
fn abuse_report_with_known_users() {
    let report = SourceAbuseReport {
        target_user: Some(user(None, "troll", Some("far.test"))),
        reporter: Some(user(Some("Mod"), "mod", None)),
        comment: "line one\nline two".to_string(),
    };
    assert_eq!(
        translate_abuse_report(&report),
        "New abuse report created!\nReporter: @mod\nTarget User: @troll@far.test\nComment\nline one\nline two"
    );
    assert_eq!(describe_user(&None), "unknown_user");
    assert_eq!(describe_user(&Some(user(None, "x", Some("h")))), "@x@h");
}

#[test]
fn webhook_url_from_id_and_token() {
    assert_eq!(
        webhook_url(1234567890123456789, "tok-en"),
        "https://discord.com/api/webhooks/1234567890123456789/tok-en"
    );
    assert_eq!(webhook_url(0, "t"), "https://discord.com/api/webhooks/0/t");
    assert_eq!(
        webhook_url(u64::MAX, "t"),
        "https://discord.com/api/webhooks/18446744073709551615/t"
    );
}

#[test]
fn status_classification_and_replies() {
    assert_eq!(outcome_for_status(200), DeliveryOutcome::Delivered);
    assert_eq!(outcome_for_status(204), DeliveryOutcome::Delivered);
    assert_eq!(outcome_for_status(400), DeliveryOutcome::Rejected);
    assert_eq!(outcome_for_status(404), DeliveryOutcome::Rejected);
    assert_eq!(outcome_for_status(503), DeliveryOutcome::Rejected);
    assert_eq!(outcome_for_status(599), DeliveryOutcome::Rejected);
    let r = delivery_reply(DeliveryOutcome::Delivered);
    assert_eq!((r.status, r.body.as_str()), (201, "successfully created"));
    let r = delivery_reply(DeliveryOutcome::Rejected);
    assert_eq!((r.status, r.body.as_str()), (500, "discord returns error"));
    let r = delivery_reply(DeliveryOutcome::TransportFailure);
    assert_eq!((r.status, r.body.as_str()), (500, "delivery failed"));
    let r = duplicate_reply();
    assert_eq!((r.status, r.body.as_str()), (200, "duplicated note so not sent to discord"));
}
