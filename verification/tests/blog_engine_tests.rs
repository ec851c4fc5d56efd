use blog_engine::admin::{
    delete_post, edit_page, edit_page_with_uuid, edit_post, edit_post_with_uuid, Failure,
};
use blog_engine::blog::{blog_post, blog_post_on};
use blog_engine::auth::admin_validator;
use blog_engine::date::Date;
use blog_engine::model::{bool_from_int, DraftFlagError, Post, RawPost};
use blog_engine::table::{DbError, PostTable};
use blog_engine::tags::{join_tags, split_tags};

fn day(year: i32, month: u32, day: u32) -> Date {
    Date { year, month, day }
}

fn row(uuid: u128, title: &str, date: Date, slug: &str, tags: &str) -> RawPost {
    RawPost {
        uuid,
        draft: false,
        title: title.to_string(),
        date,
        updated: date,
        slug: slug.to_string(),
        tags: tags.to_string(),
        content: Some(format!("content of {}", title)),
    }
}

fn post(title: &str, slug: &str, tags: &[&str]) -> Post {
    Post {
        uuid: 0,
        draft: true,
        title: title.to_string(),
        date: day(2022, 3, 14),
        updated: day(2022, 3, 15),
        slug: slug.to_string(),
        tags: tags.iter().map(|t| t.to_string()).collect(),
        content: Some("hello".to_string()),
    }
}

fn sample_table() -> PostTable {
    PostTable::from_rows(vec![
        row(11, "first", day(2022, 3, 4), "first", "rust,blog"),
        row(22, "second", day(2022, 3, 5), "second", ""),
        row(33, "third", day(2022, 3, 5), "third", "rust"),
    ])
}

#[test]
fn split_tags_cuts_at_every_comma() {
    assert_eq!(split_tags("a,b,,c"), vec!["a", "b", "", "c"]);
    assert_eq!(split_tags("rust"), vec!["rust"]);
    assert_eq!(split_tags(""), vec![""]);
    assert_eq!(split_tags(","), vec!["", ""]);
    assert_eq!(split_tags("ünï,cödé"), vec!["ünï", "cödé"]);
}

#[test]
fn split_tags_loses_nothing_but_the_commas() {
    for s in ["a,b,,c", "", ",", "rust", ",x,"] {
        assert_eq!(split_tags(s).join(","), s);
        assert!(split_tags(s).iter().all(|t| !t.contains(',')));
    }
}

#[test]
fn join_tags_writes_tags_without_separator() {
    let tags = vec!["rust".to_string(), "blog".to_string()];
    assert_eq!(join_tags(&tags), "rustblog");
    assert_eq!(join_tags(&Vec::new()), "");
}

#[test]
fn bool_from_int_reads_zero_and_one() {
    assert_eq!(bool_from_int(0), Ok(false));
    assert_eq!(bool_from_int(1), Ok(true));
    assert_eq!(bool_from_int(2), Err(DraftFlagError { value: 2 }));
    assert_eq!(bool_from_int(-1), Err(DraftFlagError { value: u64::MAX }));
}

#[test]
fn admin_validator_accepts_only_the_admin() {
    assert!(admin_validator("alex", Some("pass")));
    assert!(!admin_validator("alex", None));
    assert!(!admin_validator("alex", Some("wrong")));
    assert!(!admin_validator("bob", Some("pass")));
    assert!(!admin_validator("", Some("")));
}

#[test]
fn from_reads_tags_column_as_list() {
    let p = Post::from(row(7, "t", day(2022, 3, 4), "s", "a,b"));
    assert_eq!(p.uuid, 7);
    assert_eq!(p.tags, vec!["a", "b"]);
    assert_eq!(p.title, "t");
    assert_eq!(p.slug, "s");
    assert_eq!(p.date, day(2022, 3, 4));
    assert_eq!(p.content.as_deref(), Some("content of t"));
}

#[test]
fn to_row_clears_draft_and_concatenates_tags() {
    let p = post("title", "slug", &["a", "b"]);
    let r = p.to_row(99);
    assert_eq!(r.uuid, 99);
    assert!(!r.draft);
    assert_eq!(r.tags, "ab");
    assert_eq!(r.title, "title");
    assert_eq!(r.updated, day(2022, 3, 15));
}

#[test]
fn single_tag_survives_write_and_read() {
    let p = post("t", "s", &["rust"]);
    let back = Post::from(p.to_row(5));
    assert_eq!(back.tags, vec!["rust"]);
}

#[test]
fn several_tags_come_back_as_one() {
    let p = post("t", "s", &["rust", "blog"]);
    let back = Post::from(p.to_row(5));
    assert_eq!(back.tags, vec!["rustblog"]);
    let none = post("t", "s", &[]);
    assert_eq!(Post::from(none.to_row(6)).tags, vec![""]);
}

#[test]
fn all_lists_every_row_in_order() {
    let t = sample_table();
    let posts = Post::all(&t);
    assert_eq!(posts.len(), 3);
    assert_eq!(posts[0].tags, vec!["rust", "blog"]);
    assert_eq!(posts[1].tags, vec![""]);
    assert_eq!(posts[2].uuid, 33);
    assert!(Post::all(&PostTable::new()).is_empty());
}

#[test]
fn insert_then_get_with_uuid_reads_post_back() {
    let mut t = sample_table();
    let r = Post::insert(post("new", "new-slug", &["x"]), &mut t);
    assert_eq!(t.len(), 4);
    assert!(!r.draft);
    assert_eq!((r.uuid >> 76) & 0xf, 4);
    assert_eq!((r.uuid >> 62) & 0x3, 2);
    let got = Post::get_with_uuid(r.uuid, &t).unwrap();
    assert_eq!(got.title, "new");
    assert_eq!(got.tags, vec!["x"]);
    assert!(!got.draft);
    assert_eq!(Post::all(&t)[3].slug, "new-slug");
}

#[test]
fn get_with_uuid_reports_missing_row() {
    let t = sample_table();
    assert_eq!(Post::get_with_uuid(44, &t).unwrap_err(), DbError::RowNotFound);
    assert_eq!(Post::get_with_uuid(22, &t).unwrap().title, "second");
}

#[test]
fn get_with_dateslug_matches_date_and_slug() {
    let t = sample_table();
    let p = Post::get_with_dateslug(day(2022, 3, 5), "third".to_string(), &t).unwrap();
    assert_eq!(p.uuid, 33);
    assert!(Post::get_with_dateslug(day(2022, 3, 4), "third".to_string(), &t).is_err());
    assert!(Post::get_with_dateslug(day(2022, 3, 6), "second".to_string(), &t).is_err());
}

#[test]
fn lookups_give_first_matching_row() {
    let t = PostTable::from_rows(vec![
        row(5, "older", day(2022, 1, 1), "same", ""),
        row(5, "newer", day(2022, 1, 1), "same", ""),
    ]);
    assert_eq!(Post::get_with_uuid(5, &t).unwrap().title, "older");
    let p = Post::get_with_dateslug(day(2022, 1, 1), "same".to_string(), &t).unwrap();
    assert_eq!(p.title, "older");
}

#[test]
fn delete_removes_only_that_post() {
    let mut t = sample_table();
    let victim = Post::get_with_uuid(22, &t).unwrap();
    assert_eq!(Post::delete(victim, &mut t), 22);
    assert_eq!(t.len(), 2);
    assert!(Post::get_with_uuid(22, &t).is_err());
    assert_eq!(Post::get_with_uuid(11, &t).unwrap().title, "first");
    assert_eq!(Post::get_with_uuid(33, &t).unwrap().title, "third");
}

#[test]
fn update_replaces_post_under_new_uuid() {
    let mut t = sample_table();
    let old = Post::get_with_uuid(11, &t).unwrap();
    let r = Post::update(old, post("edited", "first", &["e"]), &mut t);
    assert_eq!(t.len(), 3);
    assert!(Post::get_with_uuid(11, &t).is_err());
    assert_eq!(Post::get_with_uuid(r.uuid, &t).unwrap().title, "edited");
    assert_eq!(Post::all(&t)[2].title, "edited");
}

#[test]
fn try_new_parses_the_date() {
    let p = Post::try_new("title", "2022-03-04", "slug", "body").unwrap();
    assert_eq!(p.date, day(2022, 3, 4));
    assert!(!p.draft);
    assert!(p.tags.is_empty());
    assert_eq!(p.content.as_deref(), Some("body"));
    assert_eq!((p.uuid >> 76) & 0xf, 4);
    assert!(p.updated.month >= 1 && p.updated.month <= 12);
    assert!(Post::try_new("title", "not a date", "slug", "body").is_none());
    assert!(Post::try_new("title", "2022-02-30", "slug", "body").is_none());
}

#[test]
fn new_builds_post_from_parts() {
    let p = Post::_new("hello", "2021-12-31", "hello-world", "text");
    assert_eq!(p.title, "hello");
    assert_eq!(p.slug, "hello-world");
    assert_eq!(p.date, day(2021, 12, 31));
}

#[test]
fn edit_post_rejects_bad_uuid_text() {
    let mut t = sample_table();
    let r = edit_post("not-a-uuid", post("a", "b", &[]), &mut t);
    assert_eq!(r.unwrap_err(), Failure::InternalServerError);
    assert_eq!(t.len(), 3);
}

#[test]
fn edit_post_rejects_unknown_uuid() {
    let mut t = sample_table();
    let r = edit_post("00000000-0000-0000-0000-000000000063", post("a", "b", &[]), &mut t);
    assert_eq!(r.unwrap_err(), Failure::InternalServerError);
    assert_eq!(t.len(), 3);
}

#[test]
fn edit_post_replaces_named_post() {
    let mut t = sample_table();
    let (deleted, r) = edit_post("00000000-0000-0000-0000-00000000000b", post("a", "b", &[]), &mut t).unwrap();
    assert_eq!(deleted, 11);
    assert_eq!(t.len(), 3);
    assert!(Post::get_with_uuid(11, &t).is_err());
    assert_eq!(Post::get_with_uuid(r.uuid, &t).unwrap().title, "a");
}

#[test]
fn edit_page_answers_bad_and_unknown_uuids() {
    let t = sample_table();
    assert_eq!(edit_page("zzz", &t).unwrap_err(), Failure::InternalServerError);
    assert_eq!(edit_page("00000000000000000000000000000063", &t).unwrap_err(), Failure::NotFound);
    assert_eq!(edit_page("00000000000000000000000000000021", &t).unwrap().title, "third");
}

#[test]
fn delete_post_answers_unknown_uuid_with_500() {
    let mut t = sample_table();
    assert_eq!(delete_post(44, &mut t), Err(Failure::InternalServerError));
    assert_eq!(t.len(), 3);
    assert_eq!(delete_post(33, &mut t), Ok(33));
    assert_eq!(t.len(), 2);
}

#[test]
fn from_parts_keeps_every_part() {
    let p = Post::from_parts(42, "Hello", day(2022, 3, 4), day(2022, 3, 9), "hello", "Hi");
    assert_eq!(p.uuid, 42);
    assert_eq!(p.title, "Hello");
    assert_eq!(p.date, day(2022, 3, 4));
    assert_eq!(p.updated, day(2022, 3, 9));
    assert_eq!(p.slug, "hello");
    assert_eq!(p.content.as_deref(), Some("Hi"));
    assert!(!p.draft);
    assert!(p.tags.is_empty());
}

#[test]
fn edit_post_with_uuid_decides_on_the_parsed_identifier() {
    let mut t = sample_table();
    assert_eq!(
        edit_post_with_uuid(None, post("a", "b", &[]), &mut t).unwrap_err(),
        Failure::InternalServerError
    );
    assert_eq!(
        edit_post_with_uuid(Some(99), post("a", "b", &[]), &mut t).unwrap_err(),
        Failure::InternalServerError
    );
    assert_eq!(t.len(), 3);
    let (deleted, r) = edit_post_with_uuid(Some(22), post("a", "b", &[]), &mut t).unwrap();
    assert_eq!(deleted, 22);
    assert_eq!(Post::get_with_uuid(r.uuid, &t).unwrap().title, "a");
    assert!(Post::get_with_uuid(22, &t).is_err());
}

#[test]
fn edit_page_with_uuid_decides_on_the_parsed_identifier() {
    let t = sample_table();
    assert_eq!(edit_page_with_uuid(None, &t).unwrap_err(), Failure::InternalServerError);
    assert_eq!(edit_page_with_uuid(Some(99), &t).unwrap_err(), Failure::NotFound);
    assert_eq!(edit_page_with_uuid(Some(11), &t).unwrap().title, "first");
}

#[test]
fn blog_post_finds_post_by_date_text_and_slug() {
    let t = sample_table();
    assert_eq!(blog_post("2022-03-05", "third".to_string(), &t).unwrap().uuid, 33);
    assert_eq!(blog_post("2022-03-05", "nope".to_string(), &t).unwrap_err(), Failure::NotFound);
    assert_eq!(blog_post("05/03/2022", "third".to_string(), &t).unwrap_err(), Failure::NotFound);
    assert_eq!(blog_post("2022-02-30", "third".to_string(), &t).unwrap_err(), Failure::NotFound);
}

#[test]
fn blog_post_on_decides_on_the_parsed_date() {
    let t = sample_table();
    assert_eq!(blog_post_on(None, "first".to_string(), &t).unwrap_err(), Failure::NotFound);
    assert_eq!(blog_post_on(Some(day(2022, 3, 4)), "first".to_string(), &t).unwrap().uuid, 11);
    assert_eq!(
        blog_post_on(Some(day(2022, 3, 5)), "first".to_string(), &t).unwrap_err(),
        Failure::NotFound
    );
}
