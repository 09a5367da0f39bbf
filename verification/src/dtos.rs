//! Request and response bodies, with their validation rules.
//!
//! Each inbound body validates itself; a failure is the 400 envelope with
//! one entry per offending field, exactly as the contracts spell out.
//! Lengths count characters.  The email and URL checks are the validator
//! library's, behind trusted wrappers, named `valid_email` and `valid_url`.

use vstd::prelude::*;
use vstd::string::StrSliceExecFns;
use crate::errors::HttpError;
use crate::errors::ValidationError;
use crate::errors::ValidationErrorView;
use crate::models::MediaType;
use crate::models::Post;
use crate::models::PostMedia;
use crate::models::User;
use crate::pagination::PaginationQuery;

verus! {

/// Whether the string is a valid email address under the HTML5 rules the
/// validator library implements.
pub uninterp spec fn valid_email(s: Seq<char>) -> bool;

/// Whether the string parses as a URL.
pub uninterp spec fn valid_url(s: Seq<char>) -> bool;

/// Relies on `validator::ValidateEmail::validate_email`: a deterministic
/// function of the string; the empty string is not a valid address.
#[verifier::external_body]
fn check_email(s: &str) -> (r: bool)
    ensures
        r == valid_email(s@),
        s@.len() == 0 ==> r == false,
{
    validator::ValidateEmail::validate_email(&s)
}

/// Relies on `validator::ValidateUrl::validate_url`: a deterministic
/// function of the string.
#[verifier::external_body]
fn check_url(s: &str) -> (r: bool)
    ensures
        r == valid_url(s@),
{
    validator::ValidateUrl::validate_url(&s)
}

/// One field error of the validation envelope.
pub open spec fn field_err(field: Seq<char>, message: Seq<char>) -> ValidationErrorView {
    ValidationErrorView { field, message }
}

fn push_error(errors: &mut Vec<ValidationError>, field: &str, message: &str)
    ensures
        final(errors)@.map_values(|e: ValidationError| e@) == old(errors)@.map_values(
            |e: ValidationError| e@,
        ).push(field_err(field@, message@)),
{
    let ghost prev = errors@.map_values(|e: ValidationError| e@);
    errors.push(ValidationError { field: field.to_owned(), message: message.to_owned() });
    proof {
        assert(errors@.map_values(|e: ValidationError| e@) =~= prev.push(
            field_err(field@, message@),
        ));
    }
}

/// The field errors of an email value: required and well-formed.
pub open spec fn spec_email_errors(email: Seq<char>) -> Seq<ValidationErrorView> {
    if email.len() == 0 {
        seq![field_err("email"@, "Email is required, Invalid email"@)]
    } else if !valid_email(email) {
        seq![field_err("email"@, "Invalid email"@)]
    } else {
        Seq::empty()
    }
}

fn append_email_errors(errors: &mut Vec<ValidationError>, email: &str)
    ensures
        final(errors)@.map_values(|e: ValidationError| e@) == old(errors)@.map_values(
            |e: ValidationError| e@,
        ) + spec_email_errors(email@),
{
    let ghost prev = errors@.map_values(|e: ValidationError| e@);
    if email.unicode_len() == 0 {
        push_error(errors, "email", "Email is required, Invalid email");
    } else if !check_email(email) {
        push_error(errors, "email", "Invalid email");
    }
    proof {
        assert(errors@.map_values(|e: ValidationError| e@) =~= prev + spec_email_errors(email@));
    }
}

/// The body of a login request.
pub struct LoginUserDto {
    pub email: String,
    pub username: String,
    pub profile_image_url: Option<String>,
}

/// The field errors of a login body.
pub open spec fn spec_login_errors(email: Seq<char>, username: Seq<char>) -> Seq<
    ValidationErrorView,
> {
    spec_email_errors(email) + (if username.len() == 0 {
        seq![field_err("username"@, "Username is required"@)]
    } else {
        Seq::<ValidationErrorView>::empty()
    })
}

impl LoginUserDto {
    /// Checks the body; a failure is the 400 envelope carrying exactly the
    /// offending fields.
    pub fn validate(&self) -> (r: Result<(), HttpError>)
        ensures
            r is Ok <==> spec_login_errors(self.email@, self.username@).len() == 0,
            r matches Err(e) ==> e@.status == 400 && e@.message
                == "Request body validation failed"@ && e@.errors == Some(
                spec_login_errors(self.email@, self.username@),
            ),
    {
        let mut errors: Vec<ValidationError> = Vec::new();
        append_email_errors(&mut errors, self.email.as_str());
        if self.username.as_str().unicode_len() == 0 {
            push_error(&mut errors, "username", "Username is required");
        }
        proof {
            assert(errors@.map_values(|e: ValidationError| e@) =~= spec_login_errors(
                self.email@,
                self.username@,
            ));
        }
        if errors.len() == 0 {
            Ok(())
        } else {
            Err(HttpError::validation_error(errors))
        }
    }
}

/// The body of an email-verification request.
pub struct VerifyEmailDto {
    pub email: String,
    pub pin: String,
}

/// The field errors of a verification body.
pub open spec fn spec_verify_errors(email: Seq<char>, pin: Seq<char>) -> Seq<ValidationErrorView> {
    spec_email_errors(email) + (if pin.len() == 0 {
        seq![field_err("pin"@, "Pin is required"@)]
    } else {
        Seq::<ValidationErrorView>::empty()
    })
}

impl VerifyEmailDto {
    /// Checks the body; a failure is the 400 envelope carrying exactly the
    /// offending fields.
    pub fn validate(&self) -> (r: Result<(), HttpError>)
        ensures
            r is Ok <==> spec_verify_errors(self.email@, self.pin@).len() == 0,
            r matches Err(e) ==> e@.status == 400 && e@.message
                == "Request body validation failed"@ && e@.errors == Some(
                spec_verify_errors(self.email@, self.pin@),
            ),
    {
        let mut errors: Vec<ValidationError> = Vec::new();
        append_email_errors(&mut errors, self.email.as_str());
        if self.pin.as_str().unicode_len() == 0 {
            push_error(&mut errors, "pin", "Pin is required");
        }
        proof {
            assert(errors@.map_values(|e: ValidationError| e@) =~= spec_verify_errors(
                self.email@,
                self.pin@,
            ));
        }
        if errors.len() == 0 {
            Ok(())
        } else {
            Err(HttpError::validation_error(errors))
        }
    }
}

/// The body of a comment-creation request.
pub struct CreateCommentDto {
    pub parent_id: Option<String>,
    pub post_id: String,
    pub content: String,
}

/// The field errors of a comment body: the post id is required and the
/// content length is bounded.
pub open spec fn spec_comment_errors(post_id: Seq<char>, content: Seq<char>) -> Seq<
    ValidationErrorView,
> {
    (if post_id.len() == 0 {
        seq![field_err("post_id"@, "Post ID is required"@)]
    } else {
        Seq::<ValidationErrorView>::empty()
    }) + (if content.len() == 0 || content.len() > 10000 {
        seq![field_err("content"@, "Content characters must be between 1 and 10000"@)]
    } else {
        Seq::<ValidationErrorView>::empty()
    })
}

impl CreateCommentDto {
    /// Checks the body; a failure is the 400 envelope carrying exactly the
    /// offending fields.
    pub fn validate(&self) -> (r: Result<(), HttpError>)
        ensures
            r is Ok <==> spec_comment_errors(self.post_id@, self.content@).len() == 0,
            r matches Err(e) ==> e@.status == 400 && e@.message
                == "Request body validation failed"@ && e@.errors == Some(
                spec_comment_errors(self.post_id@, self.content@),
            ),
    {
        let mut errors: Vec<ValidationError> = Vec::new();
        if self.post_id.as_str().unicode_len() == 0 {
            push_error(&mut errors, "post_id", "Post ID is required");
        }
        let content_len = self.content.as_str().unicode_len();
        if content_len == 0 || content_len > 10000 {
            push_error(&mut errors, "content", "Content characters must be between 1 and 10000");
        }
        proof {
            assert(errors@.map_values(|e: ValidationError| e@) =~= spec_comment_errors(
                self.post_id@,
                self.content@,
            ));
        }
        if errors.len() == 0 {
            Ok(())
        } else {
            Err(HttpError::validation_error(errors))
        }
    }
}

/// The body of a comment-update request.
pub struct UpdateCommentDto {
    pub content: String,
}

/// The field errors of a comment update: the content length is bounded.
pub open spec fn spec_update_comment_errors(content: Seq<char>) -> Seq<ValidationErrorView> {
    if content.len() == 0 || content.len() > 10000 {
        seq![field_err("content"@, "Content characters must be between 1 and 10000"@)]
    } else {
        Seq::empty()
    }
}

impl UpdateCommentDto {
    /// Checks the body; a failure is the 400 envelope carrying exactly the
    /// offending fields.
    pub fn validate(&self) -> (r: Result<(), HttpError>)
        ensures
            r is Ok <==> spec_update_comment_errors(self.content@).len() == 0,
            r matches Err(e) ==> e@.status == 400 && e@.message
                == "Request body validation failed"@ && e@.errors == Some(
                spec_update_comment_errors(self.content@),
            ),
    {
        let mut errors: Vec<ValidationError> = Vec::new();
        let content_len = self.content.as_str().unicode_len();
        if content_len == 0 || content_len > 10000 {
            push_error(&mut errors, "content", "Content characters must be between 1 and 10000");
        }
        proof {
            assert(errors@.map_values(|e: ValidationError| e@) =~= spec_update_comment_errors(
                self.content@,
            ));
        }
        if errors.len() == 0 {
            Ok(())
        } else {
            Err(HttpError::validation_error(errors))
        }
    }
}

/// One media attachment of a post-creation request.
pub struct PostMediaDto {
    pub url: String,
    pub media_type: MediaType,
    pub mime_type: String,
    pub width: Option<i32>,
    pub height: Option<i32>,
    pub size: Option<i32>,
}

/// The body of a post-creation request.
pub struct CreatePostDto {
    pub title: String,
    pub content: String,
    pub media: Vec<PostMediaDto>,
}

/// The field errors of a post body: the title length is bounded and the
/// content is required.
pub open spec fn spec_post_errors(title: Seq<char>, content: Seq<char>) -> Seq<
    ValidationErrorView,
> {
    (if title.len() == 0 || title.len() > 100 {
        seq![field_err("title"@, "Title's length must be between 1 and 100 characters"@)]
    } else {
        Seq::<ValidationErrorView>::empty()
    }) + (if content.len() == 0 {
        seq![field_err("content"@, "Post's content is required"@)]
    } else {
        Seq::<ValidationErrorView>::empty()
    })
}

impl CreatePostDto {
    /// Checks the body; a failure is the 400 envelope carrying exactly the
    /// offending fields.
    pub fn validate(&self) -> (r: Result<(), HttpError>)
        ensures
            r is Ok <==> spec_post_errors(self.title@, self.content@).len() == 0,
            r matches Err(e) ==> e@.status == 400 && e@.message
                == "Request body validation failed"@ && e@.errors == Some(
                spec_post_errors(self.title@, self.content@),
            ),
    {
        let mut errors: Vec<ValidationError> = Vec::new();
        let title_len = self.title.as_str().unicode_len();
        if title_len == 0 || title_len > 100 {
            push_error(&mut errors, "title", "Title's length must be between 1 and 100 characters");
        }
        if self.content.as_str().unicode_len() == 0 {
            push_error(&mut errors, "content", "Post's content is required");
        }
        proof {
            assert(errors@.map_values(|e: ValidationError| e@) =~= spec_post_errors(
                self.title@,
                self.content@,
            ));
        }
        if errors.len() == 0 {
            Ok(())
        } else {
            Err(HttpError::validation_error(errors))
        }
    }
}

/// The body of a post-update request.
pub struct UpdatePostDto {
    pub content: String,
}

/// The field errors of a post update: the content is required.
pub open spec fn spec_update_post_errors(content: Seq<char>) -> Seq<ValidationErrorView> {
    if content.len() == 0 {
        seq![field_err("content"@, "Post's content is required"@)]
    } else {
        Seq::empty()
    }
}

impl UpdatePostDto {
    /// Checks the body; a failure is the 400 envelope carrying exactly the
    /// offending fields.
    pub fn validate(&self) -> (r: Result<(), HttpError>)
        ensures
            r is Ok <==> spec_update_post_errors(self.content@).len() == 0,
            r matches Err(e) ==> e@.status == 400 && e@.message
                == "Request body validation failed"@ && e@.errors == Some(
                spec_update_post_errors(self.content@),
            ),
    {
        let mut errors: Vec<ValidationError> = Vec::new();
        if self.content.as_str().unicode_len() == 0 {
            push_error(&mut errors, "content", "Post's content is required");
        }
        proof {
            assert(errors@.map_values(|e: ValidationError| e@) =~= spec_update_post_errors(
                self.content@,
            ));
        }
        if errors.len() == 0 {
            Ok(())
        } else {
            Err(HttpError::validation_error(errors))
        }
    }
}

/// The body of a profile-update request.
pub struct UpdateProfileDto {
    pub username: Option<String>,
    pub profile_image_url: Option<String>,
}

/// The field errors of a profile update: a given username must be
/// non-empty and a given image URL must parse.
pub open spec fn spec_profile_errors(
    username: Option<Seq<char>>,
    profile_image_url: Option<Seq<char>>,
) -> Seq<ValidationErrorView> {
    (match username {
        Some(u) => if u.len() == 0 {
            seq![field_err("username"@, "Username is required"@)]
        } else {
            Seq::<ValidationErrorView>::empty()
        },
        None => Seq::<ValidationErrorView>::empty(),
    }) + (match profile_image_url {
        Some(u) => if !valid_url(u) {
            seq![field_err("profile_image_url"@, "Invalid profile image url"@)]
        } else {
            Seq::<ValidationErrorView>::empty()
        },
        None => Seq::<ValidationErrorView>::empty(),
    })
}

impl UpdateProfileDto {
    /// Checks the body; a failure is the 400 envelope carrying exactly the
    /// offending fields.
    pub fn validate(&self) -> (r: Result<(), HttpError>)
        ensures
            r is Ok <==> spec_profile_errors(
                match self.username {
                    Some(u) => Some(u@),
                    None => None,
                },
                match self.profile_image_url {
                    Some(u) => Some(u@),
                    None => None,
                },
            ).len() == 0,
            r matches Err(e) ==> e@.status == 400 && e@.message
                == "Request body validation failed"@ && e@.errors == Some(
                spec_profile_errors(
                    match self.username {
                        Some(u) => Some(u@),
                        None => None,
                    },
                    match self.profile_image_url {
                        Some(u) => Some(u@),
                        None => None,
                    },
                ),
            ),
    {
        let mut errors: Vec<ValidationError> = Vec::new();
        match &self.username {
            Some(u) => {
                if u.as_str().unicode_len() == 0 {
                    push_error(&mut errors, "username", "Username is required");
                }
            },
            None => {},
        }
        match &self.profile_image_url {
            Some(u) => {
                if !check_url(u.as_str()) {
                    push_error(&mut errors, "profile_image_url", "Invalid profile image url");
                }
            },
            None => {},
        }
        proof {
            assert(errors@.map_values(|e: ValidationError| e@) =~= spec_profile_errors(
                match self.username {
                    Some(u) => Some(u@),
                    None => None,
                },
                match self.profile_image_url {
                    Some(u) => Some(u@),
                    None => None,
                },
            ));
        }
        if errors.len() == 0 {
            Ok(())
        } else {
            Err(HttpError::validation_error(errors))
        }
    }
}

/// The body answering a successful email verification.
pub struct VerifyResponseDto {
    pub token: String,
    pub user: User,
}

/// The body answering a successful post creation.
pub struct CreatePostResponseDto {
    pub post: Post,
    pub media: Vec<PostMedia>,
}

/// The query string of a post-comments listing.
pub struct GetPostsCommentQuery {
    pub pagination: PaginationQuery,
    pub parent_id: Option<String>,
}

} // verus!
