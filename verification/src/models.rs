//! The relational entities and the derived detail views.
//!
//! Rows arrive from the store as plain values: identifiers and text as
//! strings, timestamps as epoch seconds, optional columns as `Option`.
//! Soft-deleted rows carry their deletion timestamp in `deleted_at`.

use vstd::prelude::*;
use crate::text::str_eq;

verus! {

/// The kind of a media attachment.
#[derive(Clone, Copy, PartialEq, Eq, Structural, Debug)]
pub enum MediaType {
    Image,
    Video,
    Document,
    Audio,
    Other,
}

/// The wire spelling of each media kind.
pub open spec fn spec_media_type_str(t: MediaType) -> Seq<char> {
    match t {
        MediaType::Image => "image"@,
        MediaType::Video => "video"@,
        MediaType::Document => "document"@,
        MediaType::Audio => "audio"@,
        MediaType::Other => "other"@,
    }
}

/// The media kind a wire spelling denotes, if any.
pub open spec fn spec_parse_media_type(s: Seq<char>) -> Option<MediaType> {
    if s == "image"@ {
        Some(MediaType::Image)
    } else if s == "video"@ {
        Some(MediaType::Video)
    } else if s == "document"@ {
        Some(MediaType::Document)
    } else if s == "audio"@ {
        Some(MediaType::Audio)
    } else if s == "other"@ {
        Some(MediaType::Other)
    } else {
        None
    }
}

impl MediaType {
    pub fn to_str(&self) -> (r: &str)
        ensures
            r@ == spec_media_type_str(*self),
    {
        match self {
            MediaType::Image => "image",
            MediaType::Video => "video",
            MediaType::Document => "document",
            MediaType::Audio => "audio",
            MediaType::Other => "other",
        }
    }

    /// Parses the wire spelling of a media kind; anything else is invalid.
    pub fn parse(s: &str) -> (r: Option<MediaType>)
        ensures
            r == spec_parse_media_type(s@),
    {
        if str_eq(s, "image") {
            Some(MediaType::Image)
        } else if str_eq(s, "video") {
            Some(MediaType::Video)
        } else if str_eq(s, "document") {
            Some(MediaType::Document)
        } else if str_eq(s, "audio") {
            Some(MediaType::Audio)
        } else if str_eq(s, "other") {
            Some(MediaType::Other)
        } else {
            None
        }
    }
}

/// A registered account.
pub struct User {
    pub id: String,
    pub email: String,
    pub username: String,
    pub profile_image_url: Option<String>,
    pub is_verified: bool,
    pub created_at: i64,
    pub updated_at: Option<i64>,
}

/// Mathematical model of a `User`.
pub struct UserView {
    pub id: Seq<char>,
    pub email: Seq<char>,
    pub username: Seq<char>,
    pub profile_image_url: Option<Seq<char>>,
    pub is_verified: bool,
    pub created_at: int,
    pub updated_at: Option<int>,
}

impl View for User {
    type V = UserView;

    open spec fn view(&self) -> UserView {
        UserView {
            id: self.id@,
            email: self.email@,
            username: self.username@,
            profile_image_url: match self.profile_image_url {
                Some(u) => Some(u@),
                None => None,
            },
            is_verified: self.is_verified,
            created_at: self.created_at as int,
            updated_at: match self.updated_at {
                Some(t) => Some(t as int),
                None => None,
            },
        }
    }
}

impl Clone for User {
    fn clone(&self) -> (res: Self)
        ensures
            res@ == self@,
    {
        User {
            id: self.id.clone(),
            email: self.email.clone(),
            username: self.username.clone(),
            profile_image_url: match &self.profile_image_url {
                Some(u) => Some(u.clone()),
                None => None,
            },
            is_verified: self.is_verified,
            created_at: self.created_at,
            updated_at: self.updated_at,
        }
    }
}

/// An ephemeral one-time login credential.
pub struct VerificationPin {
    pub id: String,
    pub email: String,
    pub pin: String,
    pub expires_at: i64,
    pub created_at: i64,
}

/// Mathematical model of a `VerificationPin`.
pub struct VerificationPinView {
    pub id: Seq<char>,
    pub email: Seq<char>,
    pub pin: Seq<char>,
    pub expires_at: int,
    pub created_at: int,
}

impl View for VerificationPin {
    type V = VerificationPinView;

    open spec fn view(&self) -> VerificationPinView {
        VerificationPinView {
            id: self.id@,
            email: self.email@,
            pin: self.pin@,
            expires_at: self.expires_at as int,
            created_at: self.created_at as int,
        }
    }
}

impl Clone for VerificationPin {
    fn clone(&self) -> (res: Self)
        ensures
            res@ == self@,
    {
        VerificationPin {
            id: self.id.clone(),
            email: self.email.clone(),
            pin: self.pin.clone(),
            expires_at: self.expires_at,
            created_at: self.created_at,
        }
    }
}

/// A post row; `deleted_at` is set when the post is soft-deleted.
pub struct Post {
    pub id: String,
    pub user_id: String,
    pub title: String,
    pub content: String,
    pub created_at: i64,
    pub updated_at: Option<i64>,
    pub deleted_at: Option<i64>,
}

/// Mathematical model of a `Post`.
pub struct PostView {
    pub id: Seq<char>,
    pub user_id: Seq<char>,
    pub title: Seq<char>,
    pub content: Seq<char>,
    pub created_at: int,
    pub updated_at: Option<int>,
    pub deleted_at: Option<int>,
}

impl View for Post {
    type V = PostView;

    open spec fn view(&self) -> PostView {
        PostView {
            id: self.id@,
            user_id: self.user_id@,
            title: self.title@,
            content: self.content@,
            created_at: self.created_at as int,
            updated_at: match self.updated_at {
                Some(t) => Some(t as int),
                None => None,
            },
            deleted_at: match self.deleted_at {
                Some(t) => Some(t as int),
                None => None,
            },
        }
    }
}

impl Clone for Post {
    fn clone(&self) -> (res: Self)
        ensures
            res@ == self@,
    {
        Post {
            id: self.id.clone(),
            user_id: self.user_id.clone(),
            title: self.title.clone(),
            content: self.content.clone(),
            created_at: self.created_at,
            updated_at: self.updated_at,
            deleted_at: self.deleted_at,
        }
    }
}

/// A media attachment of a post.
pub struct PostMedia {
    pub id: String,
    pub post_id: String,
    pub media_url: String,
    pub media_type: MediaType,
    pub mime_type: String,
    pub width: Option<i32>,
    pub height: Option<i32>,
    pub file_size: Option<i32>,
    pub created_at: i64,
}

/// Mathematical model of a `PostMedia`.
pub struct PostMediaView {
    pub id: Seq<char>,
    pub post_id: Seq<char>,
    pub media_url: Seq<char>,
    pub media_type: MediaType,
    pub mime_type: Seq<char>,
    pub width: Option<i32>,
    pub height: Option<i32>,
    pub file_size: Option<i32>,
    pub created_at: int,
}

impl View for PostMedia {
    type V = PostMediaView;

    open spec fn view(&self) -> PostMediaView {
        PostMediaView {
            id: self.id@,
            post_id: self.post_id@,
            media_url: self.media_url@,
            media_type: self.media_type,
            mime_type: self.mime_type@,
            width: self.width,
            height: self.height,
            file_size: self.file_size,
            created_at: self.created_at as int,
        }
    }
}

impl Clone for PostMedia {
    fn clone(&self) -> (res: Self)
        ensures
            res@ == self@,
    {
        PostMedia {
            id: self.id.clone(),
            post_id: self.post_id.clone(),
            media_url: self.media_url.clone(),
            media_type: self.media_type,
            mime_type: self.mime_type.clone(),
            width: self.width,
            height: self.height,
            file_size: self.file_size,
            created_at: self.created_at,
        }
    }
}

/// A like row; at most one exists per (post, user) pair.
pub struct PostLike {
    pub id: String,
    pub post_id: String,
    pub user_id: String,
    pub created_at: i64,
}

/// Mathematical model of a `PostLike`.
pub struct PostLikeView {
    pub id: Seq<char>,
    pub post_id: Seq<char>,
    pub user_id: Seq<char>,
    pub created_at: int,
}

impl View for PostLike {
    type V = PostLikeView;

    open spec fn view(&self) -> PostLikeView {
        PostLikeView {
            id: self.id@,
            post_id: self.post_id@,
            user_id: self.user_id@,
            created_at: self.created_at as int,
        }
    }
}

/// A comment row; `parent_id` links one level of threading.
pub struct PostComment {
    pub id: String,
    pub post_id: String,
    pub user_id: String,
    pub parent_id: Option<String>,
    pub content: String,
    pub created_at: i64,
    pub updated_at: Option<i64>,
    pub deleted_at: Option<i64>,
}

/// Mathematical model of a `PostComment`.
pub struct PostCommentView {
    pub id: Seq<char>,
    pub post_id: Seq<char>,
    pub user_id: Seq<char>,
    pub parent_id: Option<Seq<char>>,
    pub content: Seq<char>,
    pub created_at: int,
    pub updated_at: Option<int>,
    pub deleted_at: Option<int>,
}

impl View for PostComment {
    type V = PostCommentView;

    open spec fn view(&self) -> PostCommentView {
        PostCommentView {
            id: self.id@,
            post_id: self.post_id@,
            user_id: self.user_id@,
            parent_id: match self.parent_id {
                Some(p) => Some(p@),
                None => None,
            },
            content: self.content@,
            created_at: self.created_at as int,
            updated_at: match self.updated_at {
                Some(t) => Some(t as int),
                None => None,
            },
            deleted_at: match self.deleted_at {
                Some(t) => Some(t as int),
                None => None,
            },
        }
    }
}

impl Clone for PostComment {
    fn clone(&self) -> (res: Self)
        ensures
            res@ == self@,
    {
        PostComment {
            id: self.id.clone(),
            post_id: self.post_id.clone(),
            user_id: self.user_id.clone(),
            parent_id: match &self.parent_id {
                Some(p) => Some(p.clone()),
                None => None,
            },
            content: self.content.clone(),
            created_at: self.created_at,
            updated_at: self.updated_at,
            deleted_at: self.deleted_at,
        }
    }
}

/// One row of a grouped count query: a post id and how many matching rows
/// (likes or comments) it has.
pub struct CountRow {
    pub post_id: String,
    pub count: i64,
}

/// Mathematical model of a `CountRow`.
pub struct CountRowView {
    pub post_id: Seq<char>,
    pub count: int,
}

impl View for CountRow {
    type V = CountRowView;

    open spec fn view(&self) -> CountRowView {
        CountRowView { post_id: self.post_id@, count: self.count as int }
    }
}

impl Clone for CountRow {
    fn clone(&self) -> (res: Self)
        ensures
            res@ == self@,
    {
        CountRow { post_id: self.post_id.clone(), count: self.count }
    }
}

/// A post joined with its author, media and interaction counts.
pub struct PostDetails {
    pub post: Post,
    pub author: User,
    pub media: Vec<PostMedia>,
    pub likes_count: i64,
    pub comments_count: i64,
}

/// Mathematical model of a `PostDetails`.
pub struct PostDetailsView {
    pub post: PostView,
    pub author: UserView,
    pub media: Seq<PostMediaView>,
    pub likes_count: int,
    pub comments_count: int,
}

impl View for PostDetails {
    type V = PostDetailsView;

    open spec fn view(&self) -> PostDetailsView {
        PostDetailsView {
            post: self.post@,
            author: self.author@,
            media: self.media@.map_values(|m: PostMedia| m@),
            likes_count: self.likes_count as int,
            comments_count: self.comments_count as int,
        }
    }
}

/// A comment joined with its author.
pub struct PostCommentDetails {
    pub comment: PostComment,
    pub author: User,
}

/// Mathematical model of a `PostCommentDetails`.
pub struct PostCommentDetailsView {
    pub comment: PostCommentView,
    pub author: UserView,
}

impl View for PostCommentDetails {
    type V = PostCommentDetailsView;

    open spec fn view(&self) -> PostCommentDetailsView {
        PostCommentDetailsView { comment: self.comment@, author: self.author@ }
    }
}

} // verus!
