use app_iced::bridge::{ChatKind, ParticipantRole, Request};
use app_iced::network::{
    api_hash, api_id, cache_dir, coalesce_requests, data_dir_source, demo_chat_detail, demo_participants, env_path, env_value, join_path, parse_env, session_path,
    prioritize, search_throttled, ApiIdError, DataDirSource, SEARCH_THROTTLE_MS,
};

#[test]
fn open_chat_requests_are_handled_first() {
    let mut pending = vec![
        Request::MarkRead { id: 1 },
        Request::OpenChat { id: 2 },
        Request::DownloadAvatar { chat_id: 3 },
        Request::OpenChat { id: 4 },
    ];
    prioritize(&mut pending);
    let first_opens: Vec<i64> = pending
        .iter()
        .take_while(|r| matches!(r, Request::OpenChat { .. }))
        .map(|r| match r {
            Request::OpenChat { id } => *id,
            _ => unreachable!(),
        })
        .collect();
    assert!(
        first_opens.contains(&2) && first_opens.contains(&4),
        "all OpenChat requests must be processed before slower work"
    );
    assert!(
        pending
            .iter()
            .skip(first_opens.len())
            .all(|r| !matches!(r, Request::OpenChat { .. })),
        "no OpenChat must remain after the non-OpenChat work"
    );
}

#[test]
fn prioritize_is_stable_with_a_single_open_chat() {
    let mut pending = vec![
        Request::DownloadAvatar { chat_id: 1 },
        Request::OpenChat { id: 9 },
    ];
    prioritize(&mut pending);
    assert!(matches!(pending[0], Request::OpenChat { id: 9 }));
}

#[test]
fn prioritize_keeps_the_order_inside_each_group() {
    let mut pending = vec![
        Request::MarkRead { id: 1 },
        Request::OpenChat { id: 5 },
        Request::MarkRead { id: 2 },
        Request::OpenChat { id: 6 },
    ];
    prioritize(&mut pending);
    assert_eq!(pending.len(), 4);
    assert!(matches!(pending[0], Request::OpenChat { id: 5 }));
    assert!(matches!(pending[1], Request::OpenChat { id: 6 }));
    assert!(matches!(pending[2], Request::MarkRead { id: 1 }));
    assert!(matches!(pending[3], Request::MarkRead { id: 2 }));
}

#[test]
fn env_lines_are_trimmed_and_comments_skipped() {
    let e = parse_env("# comment\n API_ID = 12345 \n\nAPI_HASH=abc=def\r\nnoequals\n");
    assert_eq!(
        e,
        vec![
            ("API_ID".to_string(), "12345".to_string()),
            ("API_HASH".to_string(), "abc=def".to_string()),
        ]
    );
    assert!(parse_env("").is_empty());
}

#[test]
fn env_value_prefers_the_file_and_drops_empty_values() {
    assert_eq!(env_value(Some("a".into()), Some("b".into())), Some("a".to_string()));
    assert_eq!(env_value(None, Some("b".into())), Some("b".to_string()));
    assert_eq!(env_value(Some(String::new()), Some("b".into())), None);
    assert_eq!(env_value(None, Some(String::new())), None);
    assert_eq!(env_value(None, None), None);
}

#[test]
fn api_id_parses_or_reports_why_not() {
    assert_eq!(api_id(Some("12345".into()), None), Ok(12345));
    assert_eq!(api_id(None, Some("-7".into())), Ok(-7));
    assert_eq!(api_id(Some("12".into()), Some("34".into())), Ok(12));
    assert_eq!(api_id(None, None), Err(ApiIdError::Missing));
    assert_eq!(api_id(Some("abc".into()), None), Err(ApiIdError::NotANumber));
    assert_eq!(api_id(Some("99999999999".into()), None), Err(ApiIdError::NotANumber));
    assert_eq!(ApiIdError::NotANumber.message(), "API_ID must be a number");
    assert!(ApiIdError::Missing.message().starts_with("API_ID is missing"));
}

#[test]
fn api_hash_falls_back_to_the_built_in_value() {
    assert_eq!(api_hash(Some("h".into()), Some("d".into())), Some("h".to_string()));
    assert_eq!(api_hash(None, Some("d".into())), Some("d".to_string()));
    assert_eq!(api_hash(None, None), None);
}

#[test]
fn demo_details_and_members() {
    let d = demo_chat_detail(1002).expect("known demo chat");
    assert_eq!(d.title, "Rust Group");
    assert_eq!(d.kind, ChatKind::Group);
    assert_eq!(d.members_count, Some(5));
    assert!(demo_chat_detail(42).is_none());
    let c = demo_chat_detail(1001).unwrap();
    assert_eq!(c.username.as_deref(), Some("camille_dev"));
    assert_eq!(c.kind, ChatKind::User);

    let m = demo_participants(1002);
    assert_eq!(m.len(), 5);
    assert_eq!(m[0].id, 2001);
    assert_eq!(m[0].role, ParticipantRole::Creator);
    assert_eq!(m[1].name, "Léo");
    assert_eq!(m[4].username, None);
    assert_eq!(demo_participants(1004).len(), 4);
    assert!(demo_participants(1001).is_empty());
}

#[test]
fn keystroke_searches_coalesce_to_the_latest_query_per_mode() {
    let search = |id: Option<i64>, q: &str| Request::Search { id, query: q.to_string() };
    let batch = vec![
        search(None, "h"),
        Request::OpenChat { id: 5 },
        search(Some(5), " he"),
        search(None, "hel"),
        Request::MarkRead { id: 5 },
        search(None, "  hello  "),
    ];
    let (others, searches) = coalesce_requests(batch);
    assert_eq!(others.len(), 2);
    assert!(matches!(others[0], Request::OpenChat { id: 5 }));
    assert!(matches!(others[1], Request::MarkRead { id: 5 }));
    assert_eq!(searches, vec![(Some(5), "he".to_string()), (None, "hello".to_string())]);
}

#[test]
fn repeated_search_is_throttled_only_inside_the_window() {
    let last = Some((None, "hello".to_string()));
    let q = "hello".to_string();
    assert!(search_throttled(&last, 0, None, &q));
    assert!(search_throttled(&last, SEARCH_THROTTLE_MS - 1, None, &q));
    assert!(!search_throttled(&last, SEARCH_THROTTLE_MS, None, &q));
    assert!(!search_throttled(&last, 10, Some(1), &q));
    assert!(!search_throttled(&last, 10, None, &"help".to_string()));
    assert!(!search_throttled(&None, 0, None, &q));
}

#[test]
fn data_dir_prefers_the_variable_then_a_local_env_file() {
    assert_eq!(data_dir_source(true, true, true), DataDirSource::Configured);
    assert_eq!(data_dir_source(false, true, true), DataDirSource::WorkingDir);
    assert_eq!(data_dir_source(false, false, true), DataDirSource::Platform);
    assert_eq!(data_dir_source(false, false, false), DataDirSource::WorkingDir);
}

#[test]
fn data_files_sit_inside_the_data_directory() {
    assert_eq!(env_path("/home/u/.local/share/tg"), "/home/u/.local/share/tg/.env");
    assert_eq!(session_path("."), "./.tg.session");
    assert_eq!(cache_dir("/srv/tg/"), "/srv/tg/data");
    assert_eq!(join_path("", "data"), "data");
}
