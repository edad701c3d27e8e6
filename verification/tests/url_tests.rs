use picsumrs::config::{ImageDimensions, ImageEffects};
use picsumrs::url::{build_image_url, build_image_url_with_token, info_url, list_url, status_is_success};

#[test]
fn url_holds_path_and_effects_in_fixed_order() {
    let dims = ImageDimensions { width: 100, height: 200 };
    let effects = ImageEffects { grayscale: true, blur: Some(5), quality: None };
    let url = build_image_url_with_token(&dims, &effects, 42);
    assert_eq!(url, "https://picsum.photos/100/200?grayscale&blur=5&random=42");
    let gray = url.find("grayscale").unwrap();
    let blur = url.find("blur=5").unwrap();
    let random = url.find("random=").unwrap();
    assert!(url.starts_with("https://picsum.photos/100/200"));
    assert!(gray < blur && blur < random);
}

#[test]
fn absent_effects_contribute_no_parameter() {
    let dims = ImageDimensions { width: 1920, height: 1080 };
    let effects = ImageEffects { grayscale: false, blur: None, quality: None };
    let url = build_image_url_with_token(&dims, &effects, 7);
    assert_eq!(url, "https://picsum.photos/1920/1080?random=7");
    assert!(!url.contains("grayscale"));
    assert!(!url.contains("blur"));
    assert!(!url.contains("quality"));
}

#[test]
fn quality_parameter_sits_between_blur_and_random() {
    let dims = ImageDimensions { width: 10, height: 20 };
    let effects = ImageEffects { grayscale: false, blur: Some(2), quality: Some(85) };
    let url = build_image_url_with_token(&dims, &effects, 0);
    assert_eq!(url, "https://picsum.photos/10/20?blur=2&quality=85&random=0");
}

#[test]
fn fresh_urls_always_carry_a_cache_buster() {
    let dims = ImageDimensions { width: 100, height: 200 };
    let effects = ImageEffects { grayscale: true, blur: Some(5), quality: None };
    let url = build_image_url(&dims, &effects);
    assert!(url.starts_with("https://picsum.photos/100/200?grayscale&blur=5&random="));
    let token: &str = &url[url.find("random=").unwrap() + "random=".len()..];
    assert!(!token.is_empty());
    assert!(token.chars().all(|c| c.is_ascii_digit()));
}

#[test]
fn endpoint_urls() {
    assert_eq!(info_url(237), "https://picsum.photos/id/237/info");
    assert_eq!(list_url(2, 30), "https://picsum.photos/v2/list?page=2&limit=30");
}

#[test]
fn success_statuses_are_the_2xx_range() {
    assert!(status_is_success(200));
    assert!(status_is_success(204));
    assert!(status_is_success(299));
    assert!(!status_is_success(199));
    assert!(!status_is_success(300));
    assert!(!status_is_success(404));
    assert!(!status_is_success(500));
}
