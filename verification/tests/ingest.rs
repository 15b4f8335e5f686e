use blog_ingest::failure::Failure;
use blog_ingest::field::{classify_field, FieldRole, ImageSlot};
use blog_ingest::ingest::{
    clear_files, Action, Event, ImageReport, IngestionState, MetadataReport, Reply,
};
use blog_ingest::metadata::collect_metadata;
use blog_ingest::models::{CreateBlogPostDTO, NewPost};
use blog_ingest::sniff::{scan_upload, Outcome};

fn field(name: &str) -> Event {
    Event::FieldArrived { name: Some(name.to_string()) }
}

fn saved(slot: ImageSlot, handle: &str, outcome: Outcome) -> Event {
    Event::Image { slot, report: ImageReport::Saved { handle: handle.to_string(), outcome } }
}

fn parse_dto(payload: &[u8]) -> MetadataReport {
    let value: serde_json::Value = match serde_json::from_slice(payload) {
        Ok(value) => value,
        Err(_) => return MetadataReport::Unparsable,
    };
    let text = value.get("text").and_then(|v| v.as_str());
    let username = value.get("username").and_then(|v| v.as_str());
    match (text, username) {
        (Some(text), Some(username)) => MetadataReport::Parsed(CreateBlogPostDTO {
            text: text.to_string(),
            username: username.to_string(),
            avatar: value.get("avatar").and_then(|v| v.as_str()).map(|s| s.to_string()),
        }),
        _ => MetadataReport::Unparsable,
    }
}

fn read_metadata(payload: &[u8]) -> Event {
    match collect_metadata(&vec![payload.to_vec()]) {
        None => Event::Metadata(MetadataReport::Oversized),
        Some(bytes) => Event::Metadata(parse_dto(&bytes)),
    }
}

fn png_image(len: usize) -> Vec<u8> {
    let mut bytes = vec![0x89, 0x50, 0x4E, 0x47, 0x0D, 0x0A, 0x1A, 0x0A];
    bytes.resize(len, 0xAB);
    bytes
}

fn failure_of(action: Action) -> Reply {
    match action {
        Action::Reply(reply) => {
            assert!(reply.failure.is_some());
            reply
        }
        other => panic!("expected a reply, got {:?}", other),
    }
}

fn next_field(action: Action) -> Option<String> {
    match action {
        Action::NextField { discard } => discard,
        other => panic!("expected to go on, got {:?}", other),
    }
}

#[test]
fn fields_are_classified_by_name() {
    assert_eq!(classify_field("data"), FieldRole::Metadata);
    assert_eq!(classify_field("avatar"), FieldRole::Avatar);
    assert_eq!(classify_field("image"), FieldRole::PostImage);
    assert_eq!(classify_field("Data"), FieldRole::Unknown);
    assert_eq!(classify_field("images"), FieldRole::Unknown);
    assert_eq!(classify_field(""), FieldRole::Unknown);
    assert_eq!(FieldRole::Avatar.slot(), Some(ImageSlot::Avatar));
    assert_eq!(FieldRole::PostImage.slot(), Some(ImageSlot::PostImage));
    assert_eq!(FieldRole::Metadata.slot(), None);
    assert_eq!(FieldRole::Unknown.slot(), None);
}

#[test]
fn test_valid_blogpost_creation() {
    let mut state = IngestionState::new();
    assert!(matches!(state.step(field("data")), Action::ReadMetadata));
    let payload = b"{\"text\":\"Hello!\",\"username\":\"admin\"}";
    assert_eq!(next_field(state.step(read_metadata(payload))), None);
    assert!(state.has_metadata());

    assert!(matches!(state.step(field("image")), Action::SaveImage(ImageSlot::PostImage)));
    let upload = vec![png_image(4096), vec![1u8; 4096], vec![2u8; 2048]];
    let outcome = scan_upload(&upload);
    assert_eq!(outcome, Outcome::Accepted);
    assert_eq!(next_field(state.step(saved(ImageSlot::PostImage, "img-1", outcome))), None);
    assert_eq!(state.handle(ImageSlot::PostImage), Some(&"img-1".to_string()));
    assert_eq!(state.handle(ImageSlot::Avatar), None);

    let draft = match state.step(Event::StreamEnded) {
        Action::Persist(draft) => draft,
        other => panic!("expected a draft, got {:?}", other),
    };
    assert_eq!(draft.metadata.text, "Hello!");
    assert_eq!(draft.metadata.username, "admin");
    assert_eq!(draft.post_image, Some("img-1".to_string()));
    assert_eq!(draft.avatar, None);

    let date = chrono::NaiveDate::from_ymd_opt(2024, 5, 17).unwrap();
    let post = NewPost::from_create_blog_post_dto(draft.metadata, date, draft.avatar, draft.post_image);
    assert_eq!(post.text, "Hello!");
    assert_eq!(post.username, "admin");
    assert_eq!(post.date_of_publication, date);
    assert_eq!(post.post_image, Some("img-1".to_string()));
    assert!(post.avatar.is_none());

    match state.step(Event::Persisted { ok: true }) {
        Action::Reply(reply) => {
            assert_eq!(reply.status, 201);
            assert_eq!(reply.failure, None);
            assert!(reply.delete.is_empty());
            assert!(!reply.drain);
        }
        other => panic!("expected a reply, got {:?}", other),
    }
    assert_eq!(state.handle(ImageSlot::PostImage), None);
}

#[test]
fn image_may_arrive_before_the_metadata() {
    let mut state = IngestionState::new();
    assert!(matches!(state.step(field("avatar")), Action::SaveImage(ImageSlot::Avatar)));
    assert_eq!(next_field(state.step(saved(ImageSlot::Avatar, "a", Outcome::Accepted))), None);
    assert!(matches!(state.step(field("image")), Action::SaveImage(ImageSlot::PostImage)));
    assert_eq!(next_field(state.step(saved(ImageSlot::PostImage, "p", Outcome::Accepted))), None);
    assert!(matches!(state.step(field("data")), Action::ReadMetadata));
    let payload = b"{\"text\":\"t\",\"username\":\"u\",\"avatar\":null}";
    assert_eq!(next_field(state.step(read_metadata(payload))), None);
    match state.step(Event::StreamEnded) {
        Action::Persist(draft) => {
            assert_eq!(draft.avatar, Some("a".to_string()));
            assert_eq!(draft.post_image, Some("p".to_string()));
            assert_eq!(draft.metadata.avatar, None);
        }
        other => panic!("expected a draft, got {:?}", other),
    }
}

#[test]
fn metadata_alone_is_a_valid_request() {
    let mut state = IngestionState::new();
    state.step(field("data"));
    state.step(read_metadata(b"{\"text\":\"only text\",\"username\":\"me\"}"));
    match state.step(Event::StreamEnded) {
        Action::Persist(draft) => {
            assert_eq!(draft.metadata.text, "only text");
            assert_eq!(draft.avatar, None);
            assert_eq!(draft.post_image, None);
        }
        other => panic!("expected a draft, got {:?}", other),
    }
}

#[test]
fn test_invalid_blogpost_malformed_data() {
    let mut state = IngestionState::new();
    state.step(field("image"));
    state.step(saved(ImageSlot::PostImage, "img-7", Outcome::Accepted));
    assert!(matches!(state.step(field("data")), Action::ReadMetadata));
    let reply = failure_of(state.step(read_metadata(b"test")));
    assert_eq!(reply.status, 400);
    assert_eq!(reply.failure, Some(Failure::Malformed));
    assert_eq!(reply.delete, vec!["img-7".to_string()]);
    assert!(reply.drain);
    assert!(!state.has_metadata());
    assert_eq!(state.handle(ImageSlot::PostImage), None);
}

#[test]
fn test_invalid_blogpost_bad_avatar() {
    let mut state = IngestionState::new();
    state.step(field("data"));
    state.step(read_metadata(b"{\"text\":\"Hello!\",\"username\":\"admin\"}"));
    state.step(field("image"));
    state.step(saved(ImageSlot::PostImage, "img-1", Outcome::Accepted));
    assert!(matches!(state.step(field("avatar")), Action::SaveImage(ImageSlot::Avatar)));
    let jpeg = vec![vec![0xFFu8, 0xD8, 0xFF, 0xE0, 0x00, 0x10, 0x4A, 0x46, 0x49, 0x46]];
    let outcome = scan_upload(&jpeg);
    assert_eq!(outcome, Outcome::WrongFormat);
    let reply = failure_of(state.step(saved(ImageSlot::Avatar, "ava-1", outcome)));
    assert_eq!(reply.status, 400);
    assert_eq!(reply.failure, Some(Failure::WrongFormat));
    assert_eq!(reply.delete, vec!["ava-1".to_string(), "img-1".to_string()]);
    assert!(reply.drain);
    assert!(!state.has_metadata());
    let after = failure_of(state.step(Event::StreamEnded));
    assert_eq!(after.failure, Some(Failure::MissingMetadata));
    assert!(after.delete.is_empty());
}

#[test]
fn text_of_2001_bytes_is_refused() {
    let mut payload = b"{\"text\":\"".to_vec();
    payload.extend(std::iter::repeat(b'x').take(2001));
    payload.extend_from_slice(b"\",\"username\":\"admin\"}");
    assert_eq!(payload.len(), 2031);
    let mut state = IngestionState::new();
    assert!(matches!(state.step(field("data")), Action::ReadMetadata));
    let reply = failure_of(state.step(read_metadata(&payload)));
    assert_eq!(reply.status, 400);
    assert_eq!(reply.failure, Some(Failure::FieldTooLong));
    assert!(reply.failure.unwrap().size_limit());
    assert!(reply.delete.is_empty());
    assert!(reply.drain);
    assert!(!state.has_metadata());
    let after = failure_of(state.step(Event::StreamEnded));
    assert_eq!(after.failure, Some(Failure::MissingMetadata));
}

#[test]
fn payload_over_the_ceiling_is_refused_unparsed() {
    let mut payload = b"{\"text\":\"short\",\"username\":\"admin\",\"avatar\":\"".to_vec();
    payload.extend(std::iter::repeat(b'a').take(2100));
    payload.extend_from_slice(b"\"}");
    assert!(payload.len() > 2138);
    let mut state = IngestionState::new();
    state.step(saved(ImageSlot::PostImage, "img", Outcome::Accepted));
    let reply = failure_of(state.step(read_metadata(&payload)));
    assert_eq!(reply.status, 400);
    assert_eq!(reply.failure, Some(Failure::MetadataTooLarge));
    assert!(reply.failure.unwrap().size_limit());
    assert_eq!(reply.delete, vec!["img".to_string()]);
    assert!(reply.drain);
}

#[test]
fn text_of_2000_bytes_is_taken() {
    let mut state = IngestionState::new();
    let dto = CreateBlogPostDTO {
        text: "x".repeat(2000),
        username: "u".repeat(128),
        avatar: None,
    };
    assert_eq!(next_field(state.step(Event::Metadata(MetadataReport::Parsed(dto)))), None);
    assert!(state.has_metadata());
}

#[test]
fn username_of_129_bytes_is_refused() {
    let mut state = IngestionState::new();
    let dto = CreateBlogPostDTO { text: String::new(), username: "u".repeat(129), avatar: None };
    let reply = failure_of(state.step(Event::Metadata(MetadataReport::Parsed(dto))));
    assert_eq!(reply.failure, Some(Failure::FieldTooLong));
}

#[test]
fn limits_count_bytes_not_characters() {
    let mut state = IngestionState::new();
    let dto = CreateBlogPostDTO { text: "é".repeat(1001), username: "u".to_string(), avatar: None };
    let reply = failure_of(state.step(Event::Metadata(MetadataReport::Parsed(dto))));
    assert_eq!(reply.failure, Some(Failure::FieldTooLong));
}

#[test]
fn image_only_request_is_refused_and_cleaned_up() {
    let mut state = IngestionState::new();
    assert!(matches!(state.step(field("image")), Action::SaveImage(ImageSlot::PostImage)));
    state.step(saved(ImageSlot::PostImage, "img-9", Outcome::Accepted));
    let reply = failure_of(state.step(Event::StreamEnded));
    assert_eq!(reply.status, 400);
    assert_eq!(reply.failure, Some(Failure::MissingMetadata));
    assert_eq!(reply.delete, vec!["img-9".to_string()]);
    assert!(!reply.drain);
    assert_eq!(state.handle(ImageSlot::PostImage), None);
}

#[test]
fn oversized_image_is_a_size_limit_error() {
    let mut state = IngestionState::new();
    state.step(saved(ImageSlot::Avatar, "ava", Outcome::Accepted));
    let reply = failure_of(state.step(saved(ImageSlot::PostImage, "big", Outcome::TooLarge)));
    assert_eq!(reply.status, 400);
    assert_eq!(reply.failure, Some(Failure::ImageTooLarge));
    assert!(Failure::ImageTooLarge.size_limit());
    assert_eq!(reply.delete, vec!["ava".to_string()]);
    assert!(reply.drain);
}

#[test]
fn unknown_field_is_refused_with_cleanup() {
    let mut state = IngestionState::new();
    state.step(saved(ImageSlot::PostImage, "img", Outcome::Accepted));
    let reply = failure_of(state.step(field("attachment")));
    assert_eq!(reply.status, 400);
    assert_eq!(reply.failure, Some(Failure::UnknownField));
    assert_eq!(reply.delete, vec!["img".to_string()]);
    assert!(reply.drain);
}

#[test]
fn nameless_field_is_malformed() {
    let mut state = IngestionState::new();
    let reply = failure_of(state.step(Event::FieldArrived { name: None }));
    assert_eq!(reply.status, 400);
    assert_eq!(reply.failure, Some(Failure::Malformed));
    assert!(reply.delete.is_empty());
    assert!(reply.drain);
}

#[test]
fn stream_failure_is_malformed() {
    let mut state = IngestionState::new();
    state.step(saved(ImageSlot::Avatar, "a", Outcome::Accepted));
    state.step(saved(ImageSlot::PostImage, "p", Outcome::Accepted));
    let reply = failure_of(state.step(Event::StreamFailed));
    assert_eq!(reply.status, 400);
    assert_eq!(reply.failure, Some(Failure::Malformed));
    assert_eq!(reply.delete, vec!["p".to_string(), "a".to_string()]);
    assert!(reply.drain);
}

#[test]
fn unreadable_metadata_is_a_server_error() {
    let mut state = IngestionState::new();
    let reply = failure_of(state.step(Event::Metadata(MetadataReport::Unreadable)));
    assert_eq!(reply.status, 500);
    assert_eq!(reply.failure, Some(Failure::ReadFailed));
    assert!(reply.drain);
}

#[test]
fn store_failure_is_a_server_error_and_removes_the_partial_file() {
    let mut state = IngestionState::new();
    state.step(saved(ImageSlot::Avatar, "a", Outcome::Accepted));
    let event = Event::Image {
        slot: ImageSlot::PostImage,
        report: ImageReport::Failed { partial: Some("half".to_string()) },
    };
    let reply = failure_of(state.step(event));
    assert_eq!(reply.status, 500);
    assert_eq!(reply.failure, Some(Failure::StorageFailed));
    assert_eq!(reply.delete, vec!["half".to_string(), "a".to_string()]);

    let mut state = IngestionState::new();
    let event =
        Event::Image { slot: ImageSlot::Avatar, report: ImageReport::Failed { partial: None } };
    let reply = failure_of(state.step(event));
    assert_eq!(reply.failure, Some(Failure::StorageFailed));
    assert!(reply.delete.is_empty());
}

#[test]
fn persistence_failure_removes_both_images() {
    let mut state = IngestionState::new();
    state.step(saved(ImageSlot::Avatar, "a", Outcome::Accepted));
    state.step(saved(ImageSlot::PostImage, "p", Outcome::Accepted));
    state.step(read_metadata(b"{\"text\":\"t\",\"username\":\"u\"}"));
    assert!(matches!(state.step(Event::StreamEnded), Action::Persist(_)));
    let reply = failure_of(state.step(Event::Persisted { ok: false }));
    assert_eq!(reply.status, 500);
    assert_eq!(reply.failure, Some(Failure::PersistenceFailed));
    assert_eq!(reply.delete, vec!["p".to_string(), "a".to_string()]);
    assert!(!reply.drain);
}

#[test]
fn later_image_supersedes_the_earlier_one() {
    let mut state = IngestionState::new();
    assert_eq!(next_field(state.step(saved(ImageSlot::PostImage, "one", Outcome::Accepted))), None);
    assert_eq!(
        next_field(state.step(saved(ImageSlot::PostImage, "two", Outcome::Accepted))),
        Some("one".to_string())
    );
    assert_eq!(next_field(state.step(saved(ImageSlot::PostImage, "two", Outcome::Accepted))), None);
    assert_eq!(state.handle(ImageSlot::PostImage), Some(&"two".to_string()));
}

#[test]
fn identical_requests_give_records_with_their_own_handles() {
    let mut drafts = Vec::new();
    for handle in ["h-first", "h-second"] {
        let mut state = IngestionState::new();
        state.step(read_metadata(b"{\"text\":\"Hello!\",\"username\":\"admin\"}"));
        state.step(saved(ImageSlot::PostImage, handle, scan_upload(&vec![png_image(100)])));
        match state.step(Event::StreamEnded) {
            Action::Persist(draft) => drafts.push(draft),
            other => panic!("expected a draft, got {:?}", other),
        }
    }
    assert_eq!(drafts[0].metadata, drafts[1].metadata);
    assert_eq!(drafts[0].post_image, Some("h-first".to_string()));
    assert_eq!(drafts[1].post_image, Some("h-second".to_string()));
    assert_ne!(drafts[0].post_image, drafts[1].post_image);
}

#[test]
fn rollback_is_idempotent() {
    let mut state = IngestionState::new();
    assert!(state.rollback().is_empty());
    state.step(saved(ImageSlot::Avatar, "a", Outcome::Accepted));
    state.step(saved(ImageSlot::PostImage, "p", Outcome::Accepted));
    state.step(read_metadata(b"{\"text\":\"t\",\"username\":\"u\"}"));
    assert_eq!(state.rollback(), vec!["p".to_string(), "a".to_string()]);
    assert!(!state.has_metadata());
    assert!(state.rollback().is_empty());
}

#[test]
fn clear_files_names_the_image_first() {
    assert!(clear_files(None, None).is_empty());
    assert_eq!(clear_files(Some("i".to_string()), None), vec!["i".to_string()]);
    assert_eq!(clear_files(None, Some("a".to_string())), vec!["a".to_string()]);
    assert_eq!(
        clear_files(Some("i".to_string()), Some("a".to_string())),
        vec!["i".to_string(), "a".to_string()]
    );
}

#[test]
fn failures_map_to_status_codes() {
    let client = [
        Failure::Malformed,
        Failure::UnknownField,
        Failure::MetadataTooLarge,
        Failure::FieldTooLong,
        Failure::ImageTooLarge,
        Failure::WrongFormat,
        Failure::MissingMetadata,
    ];
    for failure in client {
        assert!(failure.client_error());
        assert_eq!(failure.status(), 400);
    }
    for failure in [Failure::ReadFailed, Failure::StorageFailed, Failure::PersistenceFailed] {
        assert!(!failure.client_error());
        assert!(!failure.size_limit());
        assert_eq!(failure.status(), 500);
    }
    assert!(Failure::MetadataTooLarge.size_limit());
    assert!(Failure::FieldTooLong.size_limit());
    assert!(!Failure::Malformed.size_limit());
    assert!(!Failure::WrongFormat.size_limit());
}

#[test]
fn size_limits_are_told_from_malformed_content() {
    assert_eq!(Failure::ImageTooLarge.reason(), "size limit exceeded");
    assert_eq!(Failure::MetadataTooLarge.reason(), "size limit exceeded");
    assert_eq!(Failure::FieldTooLong.reason(), "size limit exceeded");
    assert_eq!(Failure::WrongFormat.reason(), "malformed request");
    assert_eq!(Failure::Malformed.reason(), "malformed request");
    assert_eq!(Failure::UnknownField.reason(), "malformed request");
    assert_eq!(Failure::MissingMetadata.reason(), "malformed request");
    assert_eq!(Failure::StorageFailed.reason(), "internal error");
    assert_eq!(Failure::ReadFailed.reason(), "internal error");
    assert_eq!(Failure::PersistenceFailed.reason(), "internal error");
}
