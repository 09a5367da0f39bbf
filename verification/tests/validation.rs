//! Body validation, pagination resolution, and the smaller pure pieces:
//! media kinds, text conversions, storage naming and the handler
//! decisions.

use feedcore::config::Env;
use feedcore::dtos::CreateCommentDto;
use feedcore::dtos::CreatePostDto;
use feedcore::dtos::LoginUserDto;
use feedcore::dtos::UpdateCommentDto;
use feedcore::dtos::UpdatePostDto;
use feedcore::dtos::UpdateProfileDto;
use feedcore::dtos::VerifyEmailDto;
use feedcore::models::MediaType;
use feedcore::models::User;
use feedcore::models::VerificationPin;
use feedcore::pagination::PaginationQuery;
use feedcore::pin::generate_pin;
use feedcore::service::check_username_free;
use feedcore::service::check_verification_pin;
use feedcore::service::merge_profile;
use feedcore::service::normalize_parent_filter;
use feedcore::service::pin_expiry;
use feedcore::service::toggle_like;
use feedcore::service::user_for_verification;
use feedcore::service::user_or_not_found;
use feedcore::service::verification_mail_body;
use feedcore::service::LikeAction;
use feedcore::storage::storage_type_of;
use feedcore::storage::timestamped_name;
use feedcore::storage::DiskStorage;
use feedcore::storage::StorageError;
use feedcore::storage::StorageType;
use feedcore::storage::UploadOptions;
use feedcore::text::i64_to_string;
use feedcore::text::parse_i64;
use feedcore::text::split_on;
use feedcore::text::str_eq;
use feedcore::text::u64_to_string;

fn sample_user() -> User {
    User {
        id: "u1".to_string(),
        email: "u1@example.com".to_string(),
        username: "original".to_string(),
        profile_image_url: Some("https://example.com/old.png".to_string()),
        is_verified: true,
        created_at: 50,
        updated_at: None,
    }
}

#[test]
fn pagination_falls_back_on_negative_and_unparsable_values() {
    let q = PaginationQuery::from_params(Some("-5"), Some("abc"));
    assert_eq!(q.offset, 0);
    assert_eq!(q.limit, 20);
}

#[test]
fn pagination_defaults_when_missing() {
    let q = PaginationQuery::from_params(None, None);
    assert_eq!(q.offset, 0);
    assert_eq!(q.limit, 20);
}

#[test]
fn pagination_accepts_plain_values() {
    let q = PaginationQuery::from_params(Some("15"), Some("30"));
    assert_eq!(q.offset, 15);
    assert_eq!(q.limit, 30);
}

#[test]
fn pagination_treats_overflowing_numbers_as_unparsable() {
    let q = PaginationQuery::from_params(Some("99999999999999999999"), Some("1"));
    assert_eq!(q.offset, 0);
    assert_eq!(q.limit, 1);
}

#[test]
fn login_body_with_valid_fields_passes() {
    let dto = LoginUserDto {
        email: "person@example.com".to_string(),
        username: "person".to_string(),
        profile_image_url: None,
    };
    assert!(dto.validate().is_ok());
}

#[test]
fn login_body_with_bad_email_names_the_field() {
    let dto = LoginUserDto {
        email: "not-an-email".to_string(),
        username: "person".to_string(),
        profile_image_url: None,
    };
    let e = dto.validate().expect_err("invalid email must fail");
    assert_eq!(e.status, 400);
    assert_eq!(e.message, "Request body validation failed");
    let errors = e.errors.as_ref().expect("field errors");
    assert_eq!(errors.len(), 1);
    assert_eq!(errors[0].field, "email");
    assert_eq!(errors[0].message, "Invalid email");
}

#[test]
fn login_body_with_empty_fields_lists_both() {
    let dto = LoginUserDto {
        email: String::new(),
        username: String::new(),
        profile_image_url: None,
    };
    let e = dto.validate().expect_err("empty body must fail");
    let errors = e.errors.as_ref().expect("field errors");
    assert_eq!(errors.len(), 2);
    assert_eq!(errors[0].field, "email");
    assert_eq!(errors[0].message, "Email is required, Invalid email");
    assert_eq!(errors[1].field, "username");
    assert_eq!(errors[1].message, "Username is required");
}

#[test]
fn verify_body_requires_pin() {
    let dto = VerifyEmailDto {
        email: "person@example.com".to_string(),
        pin: String::new(),
    };
    let e = dto.validate().expect_err("empty pin must fail");
    let errors = e.errors.as_ref().expect("field errors");
    assert_eq!(errors.len(), 1);
    assert_eq!(errors[0].field, "pin");
    assert_eq!(errors[0].message, "Pin is required");
}

#[test]
fn comment_body_bounds_content_length() {
    let long = "x".repeat(10001);
    let dto = CreateCommentDto {
        parent_id: None,
        post_id: "p1".to_string(),
        content: long,
    };
    let e = dto.validate().expect_err("overlong content must fail");
    let errors = e.errors.as_ref().expect("field errors");
    assert_eq!(errors[0].field, "content");
    assert_eq!(
        errors[0].message,
        "Content characters must be between 1 and 10000"
    );
    let ok = CreateCommentDto {
        parent_id: None,
        post_id: "p1".to_string(),
        content: "y".repeat(10000),
    };
    assert!(ok.validate().is_ok());
    let update = UpdateCommentDto {
        content: String::new(),
    };
    assert!(update.validate().is_err());
}

#[test]
fn post_body_bounds_title_length() {
    let dto = CreatePostDto {
        title: "t".repeat(101),
        content: "body".to_string(),
        media: Vec::new(),
    };
    let e = dto.validate().expect_err("overlong title must fail");
    let errors = e.errors.as_ref().expect("field errors");
    assert_eq!(errors[0].field, "title");
    assert_eq!(
        errors[0].message,
        "Title's length must be between 1 and 100 characters"
    );
    let update = UpdatePostDto {
        content: String::new(),
    };
    let e2 = update.validate().expect_err("empty content must fail");
    assert_eq!(
        e2.errors.as_ref().expect("field errors")[0].message,
        "Post's content is required"
    );
}

#[test]
fn profile_body_checks_the_image_url() {
    let bad = UpdateProfileDto {
        username: Some("fine".to_string()),
        profile_image_url: Some("not a url".to_string()),
    };
    let e = bad.validate().expect_err("bad URL must fail");
    let errors = e.errors.as_ref().expect("field errors");
    assert_eq!(errors[0].field, "profile_image_url");
    assert_eq!(errors[0].message, "Invalid profile image url");
    let good = UpdateProfileDto {
        username: None,
        profile_image_url: Some("https://example.com/a.png".to_string()),
    };
    assert!(good.validate().is_ok());
}

#[test]
fn media_type_spellings_round_trip() {
    let kinds = [
        MediaType::Image,
        MediaType::Video,
        MediaType::Document,
        MediaType::Audio,
        MediaType::Other,
    ];
    for k in kinds.iter() {
        assert_eq!(MediaType::parse(k.to_str()), Some(*k));
    }
    assert_eq!(MediaType::parse("bogus"), None);
    assert_eq!(MediaType::Image.to_str(), "image");
}

#[test]
fn decimal_rendering_matches_expected_values() {
    assert_eq!(u64_to_string(0), "0");
    assert_eq!(u64_to_string(1048576), "1048576");
    assert_eq!(i64_to_string(-42), "-42");
    assert_eq!(i64_to_string(i64::MIN), "-9223372036854775808");
    assert_eq!(i64_to_string(i64::MAX), "9223372036854775807");
}

#[test]
fn integer_parsing_matches_std_behaviour() {
    assert_eq!(parse_i64("0"), Some(0));
    assert_eq!(parse_i64("+5"), Some(5));
    assert_eq!(parse_i64("-5"), Some(-5));
    assert_eq!(parse_i64("007"), Some(7));
    assert_eq!(parse_i64(""), None);
    assert_eq!(parse_i64("-"), None);
    assert_eq!(parse_i64("12a"), None);
    assert_eq!(parse_i64("9223372036854775807"), Some(i64::MAX));
    assert_eq!(parse_i64("9223372036854775808"), None);
    assert_eq!(parse_i64("-9223372036854775808"), Some(i64::MIN));
    assert_eq!(parse_i64("-9223372036854775809"), None);
}

#[test]
fn splitting_keeps_empty_pieces() {
    assert_eq!(split_on("/posts/abc", '/'), vec!["", "posts", "abc"]);
    assert_eq!(split_on("", '/'), vec![""]);
    assert_eq!(split_on("a  b", ' '), vec!["a", "", "b"]);
    assert!(str_eq("same", "same"));
    assert!(!str_eq("same", "other"));
}

#[test]
fn upload_names_carry_the_clock_reading() {
    assert_eq!(timestamped_name("photo.png", 42), "photo_42.png");
    assert_eq!(timestamped_name("archive.tar.gz", 7), "archive_7.tar.gz");
    assert_eq!(timestamped_name("noext", 9), "noext_9.");
}

#[test]
fn disk_storage_builds_full_paths() {
    let disk = DiskStorage::from_path("uploads".to_string());
    assert_eq!(disk.get_full_path("photo_42.png"), "uploads/photo_42.png");
}

#[test]
fn upload_options_builder_keeps_what_is_set() {
    let opts = UploadOptions::new(1234)
        .set_file_name("cat.gif".to_string())
        .set_content_type("image/gif".to_string());
    assert_eq!(opts.file_name, "cat.gif");
    assert_eq!(opts.content_type.as_deref(), Some("image/gif"));
    let bare = UploadOptions::new(1234);
    assert_eq!(bare.file_name, "1234");
    assert!(bare.content_type.is_none());
}

#[test]
fn storage_errors_print_their_backend() {
    assert_eq!(
        StorageError::Io("disk full".to_string()).message(),
        "[Storage Error] Io: disk full"
    );
    assert_eq!(
        StorageError::S3("denied".to_string()).message(),
        "[Storage Error] S3: denied"
    );
    assert_eq!(
        StorageError::InvalidUploadOptions("no type".to_string()).message(),
        "[Storage Error] Invalid Upload Options: no type"
    );
}

#[test]
fn storage_backend_selection_defaults_to_disk() {
    assert_eq!(storage_type_of(Some("s3")), StorageType::S3);
    assert_eq!(storage_type_of(Some("disk")), StorageType::Disk);
    assert_eq!(storage_type_of(Some("weird")), StorageType::Disk);
    assert_eq!(storage_type_of(None), StorageType::Disk);
}

#[test]
fn env_parsing_defaults_to_dev() {
    assert_eq!(Env::from_str("release"), Ok(Env::RELEASE));
    assert_eq!(Env::from_str("dev"), Ok(Env::DEV));
    assert_eq!(Env::from_str("anything"), Ok(Env::DEV));
}

#[test]
fn like_toggle_flips_deterministically() {
    assert_eq!(toggle_like(true), (LikeAction::Delete, false));
    assert_eq!(toggle_like(false), (LikeAction::Insert, true));
}

#[test]
fn verification_pin_is_judged_against_the_clock() {
    let pin = VerificationPin {
        id: "v1".to_string(),
        email: "p@example.com".to_string(),
        pin: "1234567".to_string(),
        expires_at: 1000,
        created_at: 700,
    };
    assert!(check_verification_pin(Some(pin.clone()), 999).is_ok());
    let expired = check_verification_pin(Some(pin), 1001).err().expect("expired");
    assert_eq!(expired.status, 400);
    assert_eq!(expired.message, "Verification pin expired");
    let missing = check_verification_pin(None, 0).err().expect("missing");
    assert_eq!(missing.message, "Invalid verification pin");
}

#[test]
fn user_lookups_map_to_the_right_statuses() {
    assert_eq!(user_or_not_found(None).err().expect("missing").status, 404);
    assert_eq!(
        user_for_verification(None).err().expect("missing").status,
        400
    );
    assert!(user_or_not_found(Some(sample_user())).is_ok());
    assert_eq!(
        check_username_free(Some(sample_user())).err().expect("taken").status,
        409
    );
    assert!(check_username_free(None).is_ok());
}

#[test]
fn profile_merge_prefers_the_body() {
    let user = sample_user();
    let (name, url) = merge_profile(
        &user,
        UpdateProfileDto {
            username: Some("renamed".to_string()),
            profile_image_url: None,
        },
    );
    assert_eq!(name, "renamed");
    assert_eq!(url.as_deref(), Some("https://example.com/old.png"));
    let (name2, url2) = merge_profile(
        &user,
        UpdateProfileDto {
            username: None,
            profile_image_url: Some("https://example.com/new.png".to_string()),
        },
    );
    assert_eq!(name2, "original");
    assert_eq!(url2.as_deref(), Some("https://example.com/new.png"));
}

#[test]
fn parent_filter_treats_empty_as_none() {
    assert_eq!(normalize_parent_filter(Some(String::new())), None);
    assert_eq!(
        normalize_parent_filter(Some("c9".to_string())),
        Some("c9".to_string())
    );
    assert_eq!(normalize_parent_filter(None), None);
}

#[test]
fn pin_lifetime_and_mail_text() {
    assert_eq!(pin_expiry(1000), 1300);
    assert_eq!(
        verification_mail_body("1234567"),
        "Your verification code is 1234567"
    );
}

#[test]
fn generated_pins_are_seven_digit_numbers_in_range() {
    for _ in 0..50 {
        let pin = generate_pin();
        assert_eq!(pin.len(), 7);
        let n: u32 = pin.parse().expect("numeric pin");
        assert!((1000000..9999999).contains(&n));
    }
}
