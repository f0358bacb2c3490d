use pixiv_fetch::text::{last_segment, replace_all, u64_to_decimal};
use pixiv_fetch::transport::{item_url, listing_url, referer, user_agent};

#[test]
fn decimal_of_zero() {
    assert_eq!(u64_to_decimal(0), "0");
}

#[test]
fn decimal_of_single_digit() {
    assert_eq!(u64_to_decimal(7), "7");
}

#[test]
fn decimal_of_many_digits() {
    assert_eq!(u64_to_decimal(190), "190");
    assert_eq!(u64_to_decimal(100500), "100500");
}

#[test]
fn replace_all_replaces_every_occurrence() {
    assert_eq!(replace_all("a_p0b_p0", "_p0", "_p12"), "a_p12b_p12");
}

#[test]
fn replace_all_scans_left_to_right_without_overlap() {
    assert_eq!(replace_all("aaa", "aa", "b"), "ba");
}

#[test]
fn replace_all_leaves_text_without_matches() {
    assert_eq!(replace_all("hello", "_p0", "_p1"), "hello");
}

#[test]
fn last_segment_of_url() {
    assert_eq!(last_segment("http://x/abc_p0.png"), "abc_p0.png");
}

#[test]
fn last_segment_without_slash_is_whole() {
    assert_eq!(last_segment("abc.png"), "abc.png");
}

#[test]
fn last_segment_after_trailing_slash_is_empty() {
    assert_eq!(last_segment("http://x/dir/"), "");
}

#[test]
fn listing_url_embeds_account() {
    assert_eq!(
        listing_url("12345"),
        "https://www.pixiv.net/ajax/user/12345/profile/all?lang=zh"
    );
}

#[test]
fn item_url_embeds_item() {
    assert_eq!(item_url("98"), "https://www.pixiv.net/ajax/illust/98");
}

#[test]
fn fixed_identity_headers() {
    assert!(user_agent().starts_with("Mozilla/5.0"));
    assert_eq!(referer(), "https://www.pixiv.net/");
}
