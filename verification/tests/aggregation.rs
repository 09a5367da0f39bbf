//! The detail aggregator: ordering, media grouping, count defaults, author
//! joining, key collection and deduplication.

use feedcore::aggregate::author_ids;
use feedcore::aggregate::comment_author_ids;
use feedcore::aggregate::contains_str;
use feedcore::aggregate::dedup_keys;
use feedcore::aggregate::get_comment_details;
use feedcore::aggregate::get_post_details;
use feedcore::aggregate::post_ids;
use feedcore::aggregate::AggregateError;
use feedcore::models::CountRow;
use feedcore::models::MediaType;
use feedcore::models::Post;
use feedcore::models::PostComment;
use feedcore::models::PostMedia;
use feedcore::models::User;

fn user(id: &str) -> User {
    User {
        id: id.to_string(),
        email: format!("{}@example.com", id),
        username: format!("name-{}", id),
        profile_image_url: None,
        is_verified: true,
        created_at: 1000,
        updated_at: None,
    }
}

fn post(id: &str, user_id: &str) -> Post {
    Post {
        id: id.to_string(),
        user_id: user_id.to_string(),
        title: format!("title-{}", id),
        content: "content".to_string(),
        created_at: 2000,
        updated_at: None,
        deleted_at: None,
    }
}

fn media(id: &str, post_id: &str) -> PostMedia {
    PostMedia {
        id: id.to_string(),
        post_id: post_id.to_string(),
        media_url: format!("https://cdn.example.com/{}", id),
        media_type: MediaType::Image,
        mime_type: "image/png".to_string(),
        width: Some(100),
        height: Some(80),
        file_size: None,
        created_at: 2100,
    }
}

fn comment(id: &str, post_id: &str, user_id: &str) -> PostComment {
    PostComment {
        id: id.to_string(),
        post_id: post_id.to_string(),
        user_id: user_id.to_string(),
        parent_id: None,
        content: "hello".to_string(),
        created_at: 2200,
        updated_at: None,
        deleted_at: None,
    }
}

fn count(post_id: &str, n: i64) -> CountRow {
    CountRow {
        post_id: post_id.to_string(),
        count: n,
    }
}

#[test]
fn join_preserves_input_order_and_length() {
    let posts = vec![post("p1", "u1"), post("p2", "u2"), post("p3", "u1")];
    let users = vec![user("u2"), user("u1")];
    let media = vec![media("m1", "p1"), media("m2", "p2"), media("m3", "p1")];
    let comments = vec![count("p2", 4)];
    let likes = vec![count("p1", 7)];
    let details = get_post_details(posts, &users, &media, &comments, &likes).expect("join");
    assert_eq!(details.len(), 3);
    assert_eq!(details[0].post.id, "p1");
    assert_eq!(details[1].post.id, "p2");
    assert_eq!(details[2].post.id, "p3");
    assert_eq!(details[0].author.id, "u1");
    assert_eq!(details[1].author.id, "u2");
    assert_eq!(details[2].author.id, "u1");
    let m0: Vec<&str> = details[0].media.iter().map(|m| m.id.as_str()).collect();
    assert_eq!(m0, vec!["m1", "m3"]);
    assert_eq!(details[1].media.len(), 1);
    assert_eq!(details[1].media[0].id, "m2");
    assert_eq!(details[0].likes_count, 7);
    assert_eq!(details[0].comments_count, 0);
    assert_eq!(details[1].likes_count, 0);
    assert_eq!(details[1].comments_count, 4);
}

#[test]
fn permuted_input_keeps_row_for_row_correspondence() {
    let users = vec![user("u1"), user("u2")];
    let forward = vec![post("a", "u1"), post("b", "u2"), post("c", "u1")];
    let backward = vec![post("c", "u1"), post("b", "u2"), post("a", "u1")];
    let d1 = get_post_details(forward, &users, &Vec::new(), &Vec::new(), &Vec::new())
        .expect("join");
    let d2 = get_post_details(backward, &users, &Vec::new(), &Vec::new(), &Vec::new())
        .expect("join");
    let ids1: Vec<&str> = d1.iter().map(|d| d.post.id.as_str()).collect();
    let ids2: Vec<&str> = d2.iter().map(|d| d.post.id.as_str()).collect();
    assert_eq!(ids1, vec!["a", "b", "c"]);
    assert_eq!(ids2, vec!["c", "b", "a"]);
}

#[test]
fn post_without_media_gets_empty_list_not_absence() {
    let posts = vec![post("p9", "u1")];
    let users = vec![user("u1")];
    let media = vec![media("m1", "some-other-post")];
    let details =
        get_post_details(posts, &users, &media, &Vec::new(), &Vec::new()).expect("join");
    assert_eq!(details[0].media.len(), 0);
}

#[test]
fn fresh_post_detail_shows_zero_counts_and_empty_media() {
    // A just-created post: no media, no likes, no comments yet.
    let posts = vec![post("fresh", "author")];
    let users = vec![user("author")];
    let details =
        get_post_details(posts, &users, &Vec::new(), &Vec::new(), &Vec::new()).expect("join");
    assert_eq!(details.len(), 1);
    assert_eq!(details[0].post.title, "title-fresh");
    assert!(details[0].media.is_empty());
    assert_eq!(details[0].likes_count, 0);
    assert_eq!(details[0].comments_count, 0);
}

#[test]
fn missing_author_aborts_the_join() {
    let posts = vec![post("p1", "u1"), post("p2", "ghost")];
    let users = vec![user("u1")];
    let r = get_post_details(posts, &users, &Vec::new(), &Vec::new(), &Vec::new());
    assert_eq!(r.err(), Some(AggregateError::AuthorNotFound));
}

#[test]
fn empty_input_short_circuits_to_empty_output() {
    let details = get_post_details(Vec::new(), &Vec::new(), &Vec::new(), &Vec::new(), &Vec::new())
        .expect("empty join");
    assert!(details.is_empty());
}

#[test]
fn comment_join_attaches_authors_in_order() {
    let comments = vec![comment("c1", "p1", "u2"), comment("c2", "p1", "u1")];
    let users = vec![user("u1"), user("u2")];
    let details = get_comment_details(comments, &users).expect("join");
    assert_eq!(details.len(), 2);
    assert_eq!(details[0].comment.id, "c1");
    assert_eq!(details[0].author.id, "u2");
    assert_eq!(details[1].comment.id, "c2");
    assert_eq!(details[1].author.id, "u1");
}

#[test]
fn comment_join_fails_fast_on_missing_author() {
    let comments = vec![comment("c1", "p1", "nobody")];
    let users = vec![user("u1")];
    assert_eq!(
        get_comment_details(comments, &users).err(),
        Some(AggregateError::AuthorNotFound)
    );
}

#[test]
fn key_collection_projects_ids_in_order() {
    let posts = vec![post("p1", "u1"), post("p2", "u2"), post("p3", "u1")];
    assert_eq!(post_ids(&posts), vec!["p1", "p2", "p3"]);
    assert_eq!(author_ids(&posts), vec!["u1", "u2", "u1"]);
    let comments = vec![comment("c1", "p1", "u5"), comment("c2", "p2", "u5")];
    assert_eq!(comment_author_ids(&comments), vec!["u5", "u5"]);
}

#[test]
fn dedup_keeps_one_of_each_key() {
    let keys = vec![
        "a".to_string(),
        "b".to_string(),
        "a".to_string(),
        "c".to_string(),
        "b".to_string(),
    ];
    assert_eq!(dedup_keys(&keys), vec!["a", "b", "c"]);
}

#[test]
fn empty_key_set_stays_empty_so_no_fetch_is_needed() {
    assert!(dedup_keys(&Vec::new()).is_empty());
}

#[test]
fn contains_str_finds_only_present_keys() {
    let keys = vec!["x".to_string(), "y".to_string()];
    assert!(contains_str(&keys, "x"));
    assert!(!contains_str(&keys, "z"));
}
