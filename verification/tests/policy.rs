use image_resolver::candidate::RawResult;
use image_resolver::config::{
    ImageResolver, ALLOWED_CONTENT_TYPES, ALLOWED_SUFFIXES, DEFAULT_MAX_HEIGHT, DEFAULT_MAX_SIZE,
    DEFAULT_MAX_WIDTH,
};
use image_resolver::error::{Measure, ResolutionError, Unsupported};
use image_resolver::message::AttachmentInfo;
use image_resolver::sanitize::{ends_with_any, is_listed};
use image_resolver::step::{Host, Pending, ResponseHead, Step};

fn attachment(filename: &str, size: u64, width: Option<u64>, height: Option<u64>) -> AttachmentInfo {
    AttachmentInfo { id: 900, filename: filename.to_string(), size, width, height }
}

fn head(status: u16, content_type: Option<&str>, content_length: Option<&str>) -> ResponseHead {
    ResponseHead {
        status,
        content_type: content_type.map(|s| s.to_string()),
        content_length: content_length.map(|s| s.to_string()),
    }
}

#[test]
fn new_gives_the_default_policy() {
    let config = ImageResolver::new();
    assert!(config.allow_gifs);
    assert!(config.allow_user_avatars);
    assert!(config.fallback_to_user_avatar);
    assert!(config.run_conversions);
    assert_eq!(config.max_width, 2048);
    assert_eq!(config.max_height, 2048);
    assert_eq!(config.max_size, 6 * 1024 * 1024);
    assert_eq!(DEFAULT_MAX_WIDTH, 2048);
    assert_eq!(DEFAULT_MAX_HEIGHT, 2048);
    assert_eq!(DEFAULT_MAX_SIZE, 6291456);
}

#[test]
fn setters_change_one_field_each() {
    let mut config = ImageResolver::new();
    config.disallow_gifs();
    assert_eq!(config, ImageResolver { allow_gifs: false, ..ImageResolver::new() });
    let mut config = ImageResolver::new();
    config.disallow_user_avatars();
    assert_eq!(config, ImageResolver { allow_user_avatars: false, ..ImageResolver::new() });
    let mut config = ImageResolver::new();
    config.disable_fallback_to_user_avatar();
    assert_eq!(config, ImageResolver { fallback_to_user_avatar: false, ..ImageResolver::new() });
    let mut config = ImageResolver::new();
    config.disable_conversions();
    assert_eq!(config, ImageResolver { run_conversions: false, ..ImageResolver::new() });
    let mut config = ImageResolver::new();
    config.max_width(100);
    assert_eq!(config, ImageResolver { max_width: 100, ..ImageResolver::new() });
    let mut config = ImageResolver::new();
    config.max_height(200);
    assert_eq!(config, ImageResolver { max_height: 200, ..ImageResolver::new() });
    let mut config = ImageResolver::new();
    config.max_size(300);
    assert_eq!(config, ImageResolver { max_size: 300, ..ImageResolver::new() });
}

#[test]
fn setters_chain() {
    let mut config = ImageResolver::new();
    config.disallow_gifs().max_width(640).max_height(480).max_size(1000).disable_conversions();
    assert_eq!(
        config,
        ImageResolver {
            allow_gifs: false,
            allow_user_avatars: true,
            fallback_to_user_avatar: true,
            run_conversions: false,
            max_width: 640,
            max_height: 480,
            max_size: 1000,
        }
    );
}

#[test]
fn allow_lists_hold_gif_only_where_allowed() {
    let mut config = ImageResolver::new();
    assert_eq!(
        config.allowed_content_types(),
        vec!["image/png", "image/jpeg", "image/jpg", "image/webp", "image/gif"]
    );
    assert_eq!(config.allowed_suffixes(), vec![".png", ".jpeg", ".jpg", ".webp", ".gif"]);
    config.disallow_gifs();
    assert_eq!(config.allowed_content_types(), ALLOWED_CONTENT_TYPES.to_vec());
    assert_eq!(config.allowed_suffixes(), ALLOWED_SUFFIXES.to_vec());
    assert_eq!(ALLOWED_CONTENT_TYPES, ["image/png", "image/jpeg", "image/jpg", "image/webp"]);
    assert_eq!(ALLOWED_SUFFIXES, [".png", ".jpeg", ".jpg", ".webp"]);
}

#[test]
fn list_membership() {
    let list = vec!["image/png", "image/gif"];
    assert!(is_listed(&list, "image/gif"));
    assert!(!is_listed(&list, "image/bmp"));
    assert!(!is_listed(&list, "image/png; charset=binary"));
    assert!(!is_listed(&Vec::new(), "image/png"));
    assert!(ends_with_any("a.jpeg", &vec![".png", ".jpeg"]));
    assert!(!ends_with_any("a.jpeg", &vec![".png", ".jpg"]));
    assert!(!ends_with_any("a.png", &Vec::new()));
}

#[test]
fn attachment_with_bmp_extension_is_unsupported_before_any_download() {
    let config = ImageResolver::new();
    let a = attachment("pic.bmp", 10, Some(10), Some(10));
    let suffixes = config.allowed_suffixes();
    assert_eq!(
        config.sanitize(RawResult::Attachment(&a), &suffixes),
        Step::Done(Err(ResolutionError::UnsupportedFormat(Unsupported::Extension(
            "bmp".to_string()
        ))))
    );
    assert_eq!(
        config.check_attachment(&a, &suffixes),
        Err(ResolutionError::UnsupportedFormat(Unsupported::Extension("bmp".to_string())))
    );
}

#[test]
fn gif_attachment_depends_on_the_policy() {
    let mut config = ImageResolver::new();
    let a = attachment("anim.gif", 10, Some(10), Some(10));
    assert_eq!(config.check_attachment(&a, &config.allowed_suffixes()), Ok(()));
    config.disallow_gifs();
    assert_eq!(
        config.check_attachment(&a, &config.allowed_suffixes()),
        Err(ResolutionError::UnsupportedFormat(Unsupported::Extension("gif".to_string())))
    );
}

#[test]
fn attachment_checks_run_in_order() {
    let config = ImageResolver::new();
    let suffixes = config.allowed_suffixes();
    let max = config.max_size as u64;
    // extension before size
    assert_eq!(
        config.check_attachment(&attachment("big.bmp", max + 1, None, None), &suffixes),
        Err(ResolutionError::UnsupportedFormat(Unsupported::Extension("bmp".to_string())))
    );
    // size before missing dimensions
    assert_eq!(
        config.check_attachment(&attachment("big.png", max + 1, None, None), &suffixes),
        Err(ResolutionError::TooLarge {
            measure: Measure::AttachmentSize,
            actual: max + 1,
            limit: max
        })
    );
    // missing dimensions before dimension ceilings
    assert_eq!(
        config.check_attachment(&attachment("a.png", max, Some(9999), None), &suffixes),
        Err(ResolutionError::InvalidMedia)
    );
    assert_eq!(
        config.check_attachment(&attachment("a.png", 0, None, Some(1)), &suffixes),
        Err(ResolutionError::InvalidMedia)
    );
    // width before height
    assert_eq!(
        config.check_attachment(&attachment("a.png", 1, Some(2049), Some(5000)), &suffixes),
        Err(ResolutionError::TooLarge { measure: Measure::Width, actual: 2049, limit: 2048 })
    );
    assert_eq!(
        config.check_attachment(&attachment("a.png", 1, Some(2048), Some(2049)), &suffixes),
        Err(ResolutionError::TooLarge { measure: Measure::Height, actual: 2049, limit: 2048 })
    );
    assert_eq!(
        config.check_attachment(&attachment("a.png", max, Some(2048), Some(2048)), &suffixes),
        Ok(())
    );
}

#[test]
fn valid_attachment_is_asked_for_by_its_identifier() {
    let config = ImageResolver::new();
    let a = attachment("photo.webp", 1000, Some(800), Some(600));
    assert_eq!(
        config.sanitize(RawResult::Attachment(&a), &config.allowed_suffixes()),
        Step::Wait(Pending::Download { attachment: 900 })
    );
}

#[test]
fn bytes_in_hand_pass_through_unchanged() {
    let mut config = ImageResolver::new();
    config.max_size(4);
    let suffixes = config.allowed_suffixes();
    assert_eq!(
        config.sanitize(RawResult::Bytes(vec![1, 2, 3, 4]), &suffixes),
        Step::Done(Ok(vec![1, 2, 3, 4]))
    );
    assert_eq!(config.sanitize(RawResult::Bytes(vec![]), &suffixes), Step::Done(Ok(vec![])));
    assert_eq!(config.deliver(vec![9, 9]), Ok(vec![9, 9]));
}

#[test]
fn oversized_bytes_are_too_large() {
    let mut config = ImageResolver::new();
    config.max_size(4);
    assert_eq!(
        config.sanitize(RawResult::Bytes(vec![1, 2, 3, 4, 5]), &config.allowed_suffixes()),
        Step::Done(Err(ResolutionError::TooLarge {
            measure: Measure::FileSize,
            actual: 5,
            limit: 4
        }))
    );
}

#[test]
fn url_is_freed_of_angle_brackets_and_requested() {
    let config = ImageResolver::new();
    assert_eq!(
        config.sanitize(
            RawResult::Url("<https://example.com/cat.png>".to_string()),
            &config.allowed_suffixes()
        ),
        Step::Wait(Pending::Response {
            url: "https://example.com/cat.png".to_string(),
            share_page: None
        })
    );
}

#[test]
fn share_page_url_is_requested_as_a_share_page() {
    let config = ImageResolver::new();
    assert_eq!(
        config.sanitize(
            RawResult::Url("<https://tenor.com/view/cat-gif-1/>".to_string()),
            &config.allowed_suffixes()
        ),
        Step::Wait(Pending::Response {
            url: "https://tenor.com/view/cat-gif-1/".to_string(),
            share_page: Some(Host::Tenor)
        })
    );
    assert_eq!(
        config.sanitize(
            RawResult::Url("https://giphy.com/gifs/abc".to_string()),
            &config.allowed_suffixes()
        ),
        Step::Wait(Pending::Response {
            url: "https://giphy.com/gifs/abc".to_string(),
            share_page: Some(Host::Giphy)
        })
    );
}

#[test]
fn head_checks_run_in_order() {
    let config = ImageResolver::new();
    let types = config.allowed_content_types();
    assert_eq!(
        config.check_head(&head(404, None, Some("99999999999")), &types),
        Err(ResolutionError::UpstreamError { status: 404 })
    );
    assert_eq!(
        config.check_head(&head(199, Some("image/png"), None), &types),
        Err(ResolutionError::UpstreamError { status: 199 })
    );
    assert_eq!(
        config.check_head(&head(300, Some("image/png"), None), &types),
        Err(ResolutionError::UpstreamError { status: 300 })
    );
    assert_eq!(
        config.check_head(&head(200, None, Some("99999999999")), &types),
        Err(ResolutionError::UnsupportedFormat(Unsupported::MissingContentType))
    );
    assert_eq!(
        config.check_head(&head(200, Some("text/html"), Some("99999999999")), &types),
        Err(ResolutionError::UnsupportedFormat(Unsupported::ContentType("text/html".to_string())))
    );
    assert_eq!(
        config.check_head(&head(200, Some("image/png"), Some("6291457")), &types),
        Err(ResolutionError::TooLarge {
            measure: Measure::FileSize,
            actual: 6291457,
            limit: 6291456
        })
    );
    assert_eq!(config.check_head(&head(200, Some("image/png"), Some("6291456")), &types), Ok(()));
    assert_eq!(config.check_head(&head(299, Some("image/gif"), None), &types), Ok(()));
}

#[test]
fn content_length_that_is_no_number_counts_as_zero() {
    let config = ImageResolver::new();
    let types = config.allowed_content_types();
    assert_eq!(config.check_head(&head(200, Some("image/png"), Some("lots")), &types), Ok(()));
    assert_eq!(config.check_head(&head(200, Some("image/png"), Some("")), &types), Ok(()));
    assert_eq!(
        config.check_head(&head(200, Some("image/png"), Some("99999999999999999999999")), &types),
        Ok(())
    );
}

#[test]
fn gif_content_type_depends_on_the_policy() {
    let mut config = ImageResolver::new();
    config.disallow_gifs();
    assert_eq!(
        config.check_head(&head(200, Some("image/gif"), None), &config.allowed_content_types()),
        Err(ResolutionError::UnsupportedFormat(Unsupported::ContentType("image/gif".to_string())))
    );
}
