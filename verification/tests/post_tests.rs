use jaya::controllers::post::CreatePayload;
use jaya::controllers::post_controller::PostController;
use jaya::data::post::shown_posts;
use jaya::data::post::Post;
use jaya::data::post::PostDB;
use jaya::model::post::template_data;
use jaya::model::post::PostTemplateData;
use jaya::time::show_text;
use jaya::time::show_time;
use jaya::time::Timestamp;

fn at(secs: i64) -> Option<Timestamp> {
    Some(Timestamp::new(secs, 0).unwrap())
}

#[test]
fn the_start_of_1970() {
    assert_eq!(Timestamp::new(0, 0).unwrap().format(), "1970-01-01 00:00:00");
}

#[test]
fn a_known_day() {
    assert_eq!(Timestamp::new(1431648000, 0).unwrap().format(), "2015-05-15 00:00:00");
    assert_eq!(Timestamp::new(1700000000, 0).unwrap().format(), "2023-11-14 22:13:20");
}

#[test]
fn nanoseconds_are_not_shown() {
    let t = Timestamp::new(1431648000, 999_999_999).unwrap();
    assert_eq!(t.format(), "2015-05-15 00:00:00");
    assert_eq!(t.secs(), 1431648000);
    assert_eq!(t.nanos(), 999_999_999);
}

#[test]
fn a_time_before_1970() {
    assert_eq!(Timestamp::new(-1, 0).unwrap().format(), "1969-12-31 23:59:59");
}

#[test]
fn a_time_that_the_calendar_does_not_have() {
    assert!(Timestamp::new(i64::MAX, 0).is_none());
    assert!(Timestamp::new(i64::MIN, 0).is_none());
    assert!(Timestamp::new(0, 2_000_000_000).is_none());
    assert!(Timestamp::new(0, 1_000_000_000).is_none());
}

#[test]
fn timestamps_are_valid_exactly_where_the_calendar_library_has_them() {
    for (secs, nanos) in [
        (0i64, 0u32),
        (59, 1_500_000_000),
        (60, 1_500_000_000),
        (-62_167_219_200, 0),
        (253_402_300_799, 0),
        (8_210_266_876_799, 0),
        (8_210_266_876_800, 0),
        (i64::MAX / 2, 0),
    ] {
        let theirs = chrono::DateTime::from_timestamp(secs, nanos);
        let ours = Timestamp::new(secs, nanos);
        assert_eq!(ours.is_some(), theirs.is_some());
        if let (Some(ours), Some(theirs)) = (ours, theirs) {
            assert_eq!(ours.format(), theirs.format("%Y-%m-%d %H:%M:%S").to_string());
            assert_eq!(ours.secs(), theirs.timestamp());
            assert_eq!(ours.nanos(), theirs.timestamp_subsec_nanos());
        }
    }
}

#[test]
fn nothing_is_shown_empty() {
    assert_eq!(show_time(&None), "");
    assert_eq!(show_text(&None), "");
    assert_eq!(show_text(&Some("x".to_string())), "x");
    assert_eq!(show_time(&at(0)), "1970-01-01 00:00:00");
}

#[test]
fn a_row_as_a_page_shows_it() {
    let row = PostDB {
        id: 7,
        title: Some("Hello".to_string()),
        body: Some("World".to_string()),
        created_at: at(1431648000),
        updated_at: at(1700000000),
    };
    let post = Post::from(&row);
    assert_eq!(post.id, 7);
    assert_eq!(post.title, "Hello");
    assert_eq!(post.body, "World");
    assert_eq!(post.created_at, "2015-05-15 00:00:00");
    assert_eq!(post.updated_at, "2023-11-14 22:13:20");
    let post: Post = row.into();
    assert_eq!(post.id, 7);
    assert_eq!(post.created_at, "2015-05-15 00:00:00");
}

#[test]
fn a_row_without_values_is_shown_empty() {
    let post = Post::from(PostDB::default());
    assert_eq!(post.id, 0);
    assert_eq!(post.title, "");
    assert_eq!(post.body, "");
    assert_eq!(post.created_at, "");
    assert_eq!(post.updated_at, "");
    let row = PostDB { id: -3, title: None, body: Some("b".to_string()), ..PostDB::default() };
    let post = Post::from(&row);
    assert_eq!((post.id, post.title.as_str(), post.body.as_str()), (-3, "", "b"));
}

#[test]
fn the_default_row() {
    let row = PostDB::default();
    assert_eq!(row.id, 0);
    assert!(row.title.is_none());
    assert!(row.body.is_none());
    assert!(row.created_at.is_none());
    assert!(row.updated_at.is_none());
}

#[test]
fn rows_are_shown_in_their_order() {
    let rows = vec![
        PostDB { id: 1, title: Some("a".to_string()), ..PostDB::default() },
        PostDB { id: 2, created_at: at(0), ..PostDB::default() },
        PostDB { id: 3, body: Some("c".to_string()), ..PostDB::default() },
    ];
    let shown = shown_posts(&rows);
    assert_eq!(shown.len(), 3);
    assert_eq!(shown[0].id, 1);
    assert_eq!(shown[0].title, "a");
    assert_eq!(shown[1].id, 2);
    assert_eq!(shown[1].created_at, "1970-01-01 00:00:00");
    assert_eq!(shown[2].id, 3);
    assert_eq!(shown[2].body, "c");
    assert!(shown_posts(&Vec::new()).is_empty());
}

#[test]
fn the_model_s_row_as_a_page_is_given_it() {
    let row = jaya::model::post::Post {
        id: 9,
        title: Some("T".to_string()),
        body: None,
        created_at: at(-1),
        updated_at: None,
    };
    let data = PostTemplateData::from(&row);
    assert_eq!(data.id, 9);
    assert_eq!(data.title, "T");
    assert_eq!(data.body, "");
    assert_eq!(data.created_at, "1969-12-31 23:59:59");
    assert_eq!(data.updated_at, "");
    let all = template_data(&vec![row]);
    assert_eq!(all.len(), 1);
    assert_eq!(all[0].created_at, "1969-12-31 23:59:59");
    let row = jaya::model::post::Post {
        id: 1,
        title: None,
        body: None,
        created_at: None,
        updated_at: at(0),
    };
    let data: PostTemplateData = row.into();
    assert_eq!(data.updated_at, "1970-01-01 00:00:00");
}

#[test]
fn a_payload_becomes_a_row_with_title_and_body_only() {
    let payload = CreatePayload { title: "Hello".to_string(), body: "World".to_string() };
    let row = payload.into_row();
    assert_eq!(row.id, 0);
    assert_eq!(row.title.as_deref(), Some("Hello"));
    assert_eq!(row.body.as_deref(), Some("World"));
    assert!(row.created_at.is_none());
    assert!(row.updated_at.is_none());
    let row = CreatePayload { title: String::new(), body: String::new() }.into_row();
    assert_eq!(row.title.as_deref(), Some(""));
    assert_eq!(row.body.as_deref(), Some(""));
}

#[test]
fn the_controller_holds_nothing() {
    assert_eq!(PostController, PostController);
    let payload = jaya::controllers::post_controller::CreatePayload {
        title: "t".to_string(),
        body: "b".to_string(),
    };
    assert_eq!(payload.title, "t");
    assert_eq!(payload.body, "b");
}
