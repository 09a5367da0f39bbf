//! The detail aggregator: joins independently fetched result sets into
//! detail view objects, in memory, preserving the caller's row order.
//!
//! The batch queries themselves are I/O and live outside; these functions
//! take the fetched rows as values.  Key collection and deduplication for
//! the batch fetchers live here too.

use vstd::prelude::*;
use crate::models::CountRow;
use crate::models::CountRowView;
use crate::models::Post;
use crate::models::PostComment;
use crate::models::PostCommentDetails;
use crate::models::PostDetails;
use crate::models::PostDetailsView;
use crate::models::PostMedia;
use crate::models::PostMediaView;
use crate::models::User;
use crate::models::UserView;
use crate::text::str_eq;

verus! {

/// Aggregation failure: a base row references an author that the user fetch
/// did not return.  The data-integrity invariant says this cannot happen on
/// consistent data, so it surfaces as an error rather than a detail object.
#[derive(Clone, Copy, PartialEq, Eq, Structural, Debug)]
pub enum AggregateError {
    AuthorNotFound,
}

/// The first user with the given id, searching from index `i`.
pub open spec fn spec_find_user(users: Seq<UserView>, id: Seq<char>, i: int) -> Option<UserView>
    decreases users.len() - i,
{
    if i < 0 || i >= users.len() {
        None
    } else if users[i].id == id {
        Some(users[i])
    } else {
        spec_find_user(users, id, i + 1)
    }
}

/// The count recorded for the given key, searching from index `i`; zero when
/// the key is absent.
pub open spec fn spec_count_for(rows: Seq<CountRowView>, id: Seq<char>, i: int) -> int
    decreases rows.len() - i,
{
    if i < 0 || i >= rows.len() {
        0
    } else if rows[i].post_id == id {
        rows[i].count
    } else {
        spec_count_for(rows, id, i + 1)
    }
}

/// The media rows belonging to the given post, in fetch order.
pub open spec fn spec_media_for(media: Seq<PostMediaView>, post_id: Seq<char>) -> Seq<
    PostMediaView,
> {
    media.filter(|m: PostMediaView| m.post_id == post_id)
}

/// Whether every base row's author is present in the fetched users.
pub open spec fn spec_authors_present(author_ids: Seq<Seq<char>>, users: Seq<UserView>) -> bool {
    forall|i: int|
        0 <= i < author_ids.len() ==> spec_find_user(users, #[trigger] author_ids[i], 0) is Some
}

/// The view of one assembled post detail.
pub open spec fn spec_post_detail(
    post: <Post as View>::V,
    users: Seq<UserView>,
    media: Seq<PostMediaView>,
    comment_counts: Seq<CountRowView>,
    like_counts: Seq<CountRowView>,
) -> PostDetailsView {
    PostDetailsView {
        post,
        author: spec_find_user(users, post.user_id, 0)->Some_0,
        media: spec_media_for(media, post.id),
        likes_count: spec_count_for(like_counts, post.id, 0),
        comments_count: spec_count_for(comment_counts, post.id, 0),
    }
}

/// Law: a base row that no fetched media row references gets the empty
/// media list — present and empty, never absent.
pub proof fn lemma_media_empty_when_unreferenced(media: Seq<PostMediaView>, post_id: Seq<char>)
    requires
        forall|i: int| 0 <= i < media.len() ==> (#[trigger] media[i]).post_id != post_id,
    ensures
        spec_media_for(media, post_id) == Seq::<PostMediaView>::empty(),
    decreases media.len(),
{
    reveal(Seq::filter);
    if media.len() > 0 {
        assert(forall|i: int|
            0 <= i < media.drop_last().len() ==> (#[trigger] media.drop_last()[i]).post_id
                != post_id);
        lemma_media_empty_when_unreferenced(media.drop_last(), post_id);
        assert(media.last().post_id != post_id);
    }
}

/// Looks up the first user with the given id.
fn find_user(users: &Vec<User>, id: &str) -> (r: Option<User>)
    ensures
        match r {
            Some(u) => spec_find_user(users@.map_values(|x: User| x@), id@, 0) == Some(u@),
            None => spec_find_user(users@.map_values(|x: User| x@), id@, 0) is None,
        },
{
    let ghost uvs = users@.map_values(|x: User| x@);
    let n = users.len();
    let mut i: usize = 0;
    while i < n
        invariant
            i <= n,
            n == users@.len(),
            uvs == users@.map_values(|x: User| x@),
            spec_find_user(uvs, id@, 0) == spec_find_user(uvs, id@, i as int),
        decreases n - i,
    {
        if str_eq(users[i].id.as_str(), id) {
            return Some(users[i].clone());
        }
        i = i + 1;
    }
    None
}

/// Looks up the count recorded for a key; zero when absent.
fn count_for(rows: &Vec<CountRow>, id: &str) -> (r: i64)
    ensures
        r as int == spec_count_for(rows@.map_values(|x: CountRow| x@), id@, 0),
{
    let ghost rvs = rows@.map_values(|x: CountRow| x@);
    let n = rows.len();
    let mut i: usize = 0;
    while i < n
        invariant
            i <= n,
            n == rows@.len(),
            rvs == rows@.map_values(|x: CountRow| x@),
            spec_count_for(rvs, id@, 0) == spec_count_for(rvs, id@, i as int),
        decreases n - i,
    {
        if str_eq(rows[i].post_id.as_str(), id) {
            return rows[i].count;
        }
        i = i + 1;
    }
    0
}

/// Collects the media rows belonging to one post, in fetch order.
fn media_for(media: &Vec<PostMedia>, post_id: &str) -> (r: Vec<PostMedia>)
    ensures
        r@.map_values(|m: PostMedia| m@) == spec_media_for(
            media@.map_values(|m: PostMedia| m@),
            post_id@,
        ),
{
    let ghost mvs = media@.map_values(|m: PostMedia| m@);
    let ghost pred = |m: PostMediaView| m.post_id == post_id@;
    let mut out: Vec<PostMedia> = Vec::new();
    let n = media.len();
    let mut i: usize = 0;
    while i < n
        invariant
            i <= n,
            n == media@.len(),
            mvs == media@.map_values(|m: PostMedia| m@),
            pred == (|m: PostMediaView| m.post_id == post_id@),
            out@.map_values(|m: PostMedia| m@) == mvs.take(i as int).filter(pred),
        decreases n - i,
    {
        proof {
            reveal(Seq::filter);
            assert(mvs.take(i + 1).drop_last() == mvs.take(i as int));
            assert(mvs.take(i + 1).last() == mvs[i as int]);
        }
        let ghost prev = out@.map_values(|m: PostMedia| m@);
        if str_eq(media[i].post_id.as_str(), post_id) {
            out.push(media[i].clone());
            proof {
                assert(out@.map_values(|m: PostMedia| m@) =~= prev.push(mvs[i as int]));
            }
        }
        i = i + 1;
    }
    proof {
        assert(mvs.take(n as int) == mvs);
    }
    out
}

/// Joins fetched rows into post details, one per base row, in base-row
/// order.  Succeeds exactly when every base row's author was fetched.
pub fn get_post_details(
    posts: Vec<Post>,
    users: &Vec<User>,
    media: &Vec<PostMedia>,
    comment_counts: &Vec<CountRow>,
    like_counts: &Vec<CountRow>,
) -> (r: Result<Vec<PostDetails>, AggregateError>)
    ensures
        r is Ok <==> spec_authors_present(
            posts@.map_values(|p: Post| p@.user_id),
            users@.map_values(|u: User| u@),
        ),
        r matches Err(e) ==> e == AggregateError::AuthorNotFound,
        r matches Ok(details) ==> {
            &&& details@.len() == posts@.len()
            &&& forall|i: int|
                0 <= i < posts@.len() ==> #[trigger] details@[i]@ == spec_post_detail(
                    posts@[i]@,
                    users@.map_values(|u: User| u@),
                    media@.map_values(|m: PostMedia| m@),
                    comment_counts@.map_values(|c: CountRow| c@),
                    like_counts@.map_values(|c: CountRow| c@),
                )
        },
{
    let ghost uvs = users@.map_values(|u: User| u@);
    let ghost mvs = media@.map_values(|m: PostMedia| m@);
    let ghost ccs = comment_counts@.map_values(|c: CountRow| c@);
    let ghost lcs = like_counts@.map_values(|c: CountRow| c@);
    let ghost author_ids = posts@.map_values(|p: Post| p@.user_id);
    let mut details: Vec<PostDetails> = Vec::new();
    let n = posts.len();
    let mut i: usize = 0;
    while i < n
        invariant
            i <= n,
            n == posts@.len(),
            uvs == users@.map_values(|u: User| u@),
            mvs == media@.map_values(|m: PostMedia| m@),
            ccs == comment_counts@.map_values(|c: CountRow| c@),
            lcs == like_counts@.map_values(|c: CountRow| c@),
            author_ids == posts@.map_values(|p: Post| p@.user_id),
            details@.len() == i,
            forall|j: int|
                0 <= j < i ==> #[trigger] details@[j]@ == spec_post_detail(
                    posts@[j]@,
                    uvs,
                    mvs,
                    ccs,
                    lcs,
                ),
            forall|j: int|
                0 <= j < i ==> spec_find_user(uvs, #[trigger] author_ids[j], 0) is Some,
        decreases n - i,
    {
        let post = posts[i].clone();
        let author = match find_user(users, post.user_id.as_str()) {
            Some(u) => u,
            None => {
                proof {
                    assert(author_ids[i as int] == posts@[i as int]@.user_id);
                }
                return Err(AggregateError::AuthorNotFound);
            },
        };
        let post_media = media_for(media, post.id.as_str());
        let likes_count = count_for(like_counts, post.id.as_str());
        let comments_count = count_for(comment_counts, post.id.as_str());
        details.push(
            PostDetails { post, author, media: post_media, likes_count, comments_count },
        );
        proof {
            assert(author_ids[i as int] == posts@[i as int]@.user_id);
        }
        i = i + 1;
    }
    Ok(details)
}

/// Joins fetched comments with their authors, one per base row, in base-row
/// order.  Succeeds exactly when every comment's author was fetched.
pub fn get_comment_details(comments: Vec<PostComment>, users: &Vec<User>) -> (r: Result<
    Vec<PostCommentDetails>,
    AggregateError,
>)
    ensures
        r is Ok <==> spec_authors_present(
            comments@.map_values(|c: PostComment| c@.user_id),
            users@.map_values(|u: User| u@),
        ),
        r matches Err(e) ==> e == AggregateError::AuthorNotFound,
        r matches Ok(details) ==> {
            &&& details@.len() == comments@.len()
            &&& forall|i: int|
                0 <= i < comments@.len() ==> {
                    &&& (#[trigger] details@[i]@).comment == comments@[i]@
                    &&& Some(details@[i]@.author) == spec_find_user(
                        users@.map_values(|u: User| u@),
                        comments@[i]@.user_id,
                        0,
                    )
                }
        },
{
    let ghost uvs = users@.map_values(|u: User| u@);
    let ghost author_ids = comments@.map_values(|c: PostComment| c@.user_id);
    let mut details: Vec<PostCommentDetails> = Vec::new();
    let n = comments.len();
    let mut i: usize = 0;
    while i < n
        invariant
            i <= n,
            n == comments@.len(),
            uvs == users@.map_values(|u: User| u@),
            author_ids == comments@.map_values(|c: PostComment| c@.user_id),
            details@.len() == i,
            forall|j: int|
                0 <= j < i ==> {
                    &&& (#[trigger] details@[j]@).comment == comments@[j]@
                    &&& Some(details@[j]@.author) == spec_find_user(uvs, comments@[j]@.user_id, 0)
                },
            forall|j: int|
                0 <= j < i ==> spec_find_user(uvs, #[trigger] author_ids[j], 0) is Some,
        decreases n - i,
    {
        let comment = comments[i].clone();
        let author = match find_user(users, comment.user_id.as_str()) {
            Some(u) => u,
            None => {
                proof {
                    assert(author_ids[i as int] == comments@[i as int]@.user_id);
                }
                return Err(AggregateError::AuthorNotFound);
            },
        };
        details.push(PostCommentDetails { comment, author });
        proof {
            assert(author_ids[i as int] == comments@[i as int]@.user_id);
        }
        i = i + 1;
    }
    Ok(details)
}

/// Whether some element of `v` reads `s`.
pub fn contains_str(v: &Vec<String>, s: &str) -> (r: bool)
    ensures
        r == v@.map_values(|p: String| p@).contains(s@),
{
    let ghost vs = v@.map_values(|p: String| p@);
    let n = v.len();
    let mut i: usize = 0;
    while i < n
        invariant
            i <= n,
            n == v@.len(),
            vs == v@.map_values(|p: String| p@),
            forall|j: int| 0 <= j < i ==> #[trigger] vs[j] != s@,
        decreases n - i,
    {
        if str_eq(v[i].as_str(), s) {
            proof {
                assert(vs[i as int] == s@);
            }
            return true;
        }
        i = i + 1;
    }
    proof {
        assert(!vs.contains(s@));
    }
    false
}

/// The ids of the given posts, in order, duplicates kept.
pub fn post_ids(posts: &Vec<Post>) -> (r: Vec<String>)
    ensures
        r@.map_values(|s: String| s@) == posts@.map_values(|p: Post| p@.id),
{
    let mut out: Vec<String> = Vec::new();
    let n = posts.len();
    let mut i: usize = 0;
    while i < n
        invariant
            i <= n,
            n == posts@.len(),
            out@.map_values(|s: String| s@) == posts@.map_values(|p: Post| p@.id).take(i as int),
        decreases n - i,
    {
        let ghost prev = out@.map_values(|s: String| s@);
        out.push(posts[i].id.clone());
        proof {
            assert(out@.map_values(|s: String| s@) =~= prev.push(posts@[i as int]@.id));
            assert(posts@.map_values(|p: Post| p@.id).take(i + 1) =~= prev.push(
                posts@[i as int]@.id,
            ));
        }
        i = i + 1;
    }
    proof {
        assert(posts@.map_values(|p: Post| p@.id).take(n as int) =~= posts@.map_values(
            |p: Post| p@.id,
        ));
    }
    out
}

/// The author ids of the given posts, in order, duplicates kept.
pub fn author_ids(posts: &Vec<Post>) -> (r: Vec<String>)
    ensures
        r@.map_values(|s: String| s@) == posts@.map_values(|p: Post| p@.user_id),
{
    let mut out: Vec<String> = Vec::new();
    let n = posts.len();
    let mut i: usize = 0;
    while i < n
        invariant
            i <= n,
            n == posts@.len(),
            out@.map_values(|s: String| s@) == posts@.map_values(|p: Post| p@.user_id).take(
                i as int,
            ),
        decreases n - i,
    {
        let ghost prev = out@.map_values(|s: String| s@);
        out.push(posts[i].user_id.clone());
        proof {
            assert(out@.map_values(|s: String| s@) =~= prev.push(posts@[i as int]@.user_id));
            assert(posts@.map_values(|p: Post| p@.user_id).take(i + 1) =~= prev.push(
                posts@[i as int]@.user_id,
            ));
        }
        i = i + 1;
    }
    proof {
        assert(posts@.map_values(|p: Post| p@.user_id).take(n as int) =~= posts@.map_values(
            |p: Post| p@.user_id,
        ));
    }
    out
}

/// The author ids of the given comments, in order, duplicates kept.
pub fn comment_author_ids(comments: &Vec<PostComment>) -> (r: Vec<String>)
    ensures
        r@.map_values(|s: String| s@) == comments@.map_values(|c: PostComment| c@.user_id),
{
    let mut out: Vec<String> = Vec::new();
    let n = comments.len();
    let mut i: usize = 0;
    while i < n
        invariant
            i <= n,
            n == comments@.len(),
            out@.map_values(|s: String| s@) == comments@.map_values(
                |c: PostComment| c@.user_id,
            ).take(i as int),
        decreases n - i,
    {
        let ghost prev = out@.map_values(|s: String| s@);
        out.push(comments[i].user_id.clone());
        proof {
            assert(out@.map_values(|s: String| s@) =~= prev.push(comments@[i as int]@.user_id));
            assert(comments@.map_values(|c: PostComment| c@.user_id).take(i + 1) =~= prev.push(
                comments@[i as int]@.user_id,
            ));
        }
        i = i + 1;
    }
    proof {
        assert(comments@.map_values(|c: PostComment| c@.user_id).take(n as int) =~= comments@
            .map_values(|c: PostComment| c@.user_id));
    }
    out
}

/// Deduplicates a key set before a batch fetch: every input key appears
/// exactly once in the result, and an empty input yields an empty result,
/// so no query need be issued for it.
#[verifier::rlimit(60)]
pub fn dedup_keys(keys: &Vec<String>) -> (r: Vec<String>)
    ensures
        r@.map_values(|s: String| s@).no_duplicates(),
        forall|a: int|
            0 <= a < r@.len() ==> keys@.map_values(|s: String| s@).contains(#[trigger] r@[a]@),
        forall|j: int|
            0 <= j < keys@.len() ==> r@.map_values(|s: String| s@).contains(#[trigger] keys@[j]@),
        (r@.len() == 0) == (keys@.len() == 0),
{
    let ghost kvs = keys@.map_values(|s: String| s@);
    let mut out: Vec<String> = Vec::new();
    let n = keys.len();
    let mut i: usize = 0;
    while i < n
        invariant
            i <= n,
            n == keys@.len(),
            kvs == keys@.map_values(|s: String| s@),
            out@.map_values(|s: String| s@).no_duplicates(),
            forall|a: int| 0 <= a < out@.len() ==> kvs.contains(#[trigger] out@[a]@),
            forall|j: int|
                0 <= j < i ==> out@.map_values(|s: String| s@).contains(#[trigger] kvs[j]),
            (out@.len() == 0) == (i == 0),
        decreases n - i,
    {
        let ghost ovs = out@.map_values(|s: String| s@);
        if !contains_str(&out, keys[i].as_str()) {
            out.push(keys[i].clone());
            proof {
                let nvs = out@.map_values(|s: String| s@);
                assert(nvs =~= ovs.push(kvs[i as int]));
                assert forall|a: int, b: int|
                    0 <= a < nvs.len() && 0 <= b < nvs.len() && a != b implies nvs[a]
                    != nvs[b] by {
                    if a < ovs.len() && b < ovs.len() {
                        assert(nvs[a] == ovs[a] && nvs[b] == ovs[b]);
                    } else if a < ovs.len() {
                        assert(nvs[a] == ovs[a] && nvs[b] == kvs[i as int]);
                        assert(ovs.contains(ovs[a]));
                    } else {
                        assert(nvs[b] == ovs[b] && nvs[a] == kvs[i as int]);
                        assert(ovs.contains(ovs[b]));
                    }
                }
                assert forall|j: int| 0 <= j < i + 1 implies nvs.contains(#[trigger] kvs[j]) by {
                    if j == i {
                        assert(nvs[nvs.len() - 1] == kvs[j]);
                    } else {
                        let a0 = choose|a0: int| 0 <= a0 < ovs.len() && ovs[a0] == kvs[j];
                        assert(nvs[a0] == kvs[j]);
                    }
                }
            }
        } else {
            proof {
                assert forall|j: int|
                    0 <= j < i + 1 implies ovs.contains(#[trigger] kvs[j]) by {}
            }
        }
        i = i + 1;
    }
    proof {
        assert forall|j: int|
            0 <= j < keys@.len() implies out@.map_values(|s: String| s@).contains(
            #[trigger] keys@[j]@,
        ) by {
            assert(kvs[j] == keys@[j]@);
        }
    }
    out
}

} // verus!
