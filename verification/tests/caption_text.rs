use yandere_bot::post::Post;
use yandere_bot::text::{chars_to_string, contains_chars, escape_chars, format_i64, str_to_chars};

fn cpost(id: i32, source: &str) -> Post {
    Post::new(
        id,
        String::from("tag"),
        0,
        1,
        String::from(source),
        10,
        String::from("md5"),
        1,
        String::from("png"),
        String::from("f"),
        String::from("https://files.example/sample.png"),
        1,
        String::from("q"),
        false,
        None,
        false,
    )
}

fn escaped(s: &str) -> String {
    chars_to_string(&escape_chars(&str_to_chars(s)))
}

#[test]
fn escape_prefixes_every_markup_character() {
    assert_eq!(escaped("a_b.c"), "a\\_b\\.c");
    assert_eq!(escaped("plain"), "plain");
    assert_eq!(escaped("_*[]()~`>#+-=|{}.!"), "\\_\\*\\[\\]\\(\\)\\~\\`\\>\\#\\+\\-\\=\\|\\{\\}\\.\\!");
    assert_eq!(escaped(""), "");
}

#[test]
fn format_i64_writes_decimal() {
    assert_eq!(chars_to_string(&format_i64(0)), "0");
    assert_eq!(chars_to_string(&format_i64(12345)), "12345");
    assert_eq!(chars_to_string(&format_i64(-7)), "-7");
    assert_eq!(chars_to_string(&format_i64(1121916)), "1121916");
}

#[test]
fn format_i64_handles_the_extremes() {
    assert_eq!(chars_to_string(&format_i64(i64::MIN)), "-9223372036854775808");
    assert_eq!(chars_to_string(&format_i64(i64::MAX)), "9223372036854775807");
}

#[test]
fn contains_finds_a_run() {
    let hay = str_to_chars("https://i.pximg.net/x.png");
    assert!(contains_chars(&hay, &str_to_chars("pximg")));
    assert!(!contains_chars(&hay, &str_to_chars("pixiv")));
    assert!(contains_chars(&hay, &str_to_chars("")));
}

#[test]
fn str_round_trips_through_chars() {
    let v = str_to_chars("caf\u{e9} post");
    assert_eq!(chars_to_string(&v), "caf\u{e9} post");
}

#[test]
fn caption_of_an_empty_source_is_the_post_page_alone() {
    let p = cpost(123, "");
    assert_eq!(p.get_caption(), "https://yande\\.re/post/show/123");
}

#[test]
fn caption_links_an_ordinary_source_under_its_host() {
    let p = cpost(5, "https://example.com/a.png");
    assert_eq!(
        p.get_caption(),
        "source: [example\\.com](https://example\\.com/a\\.png)\nhttps://yande\\.re/post/show/5"
    );
}

#[test]
fn caption_links_a_pixiv_source_to_the_picture_page() {
    let p = cpost(7, "https://i.pximg.net/img-original/img/2023/09/22/111879257_p0.png");
    assert_eq!(
        p.get_caption(),
        "source: [www\\.pixiv\\.net](https://www\\.pixiv\\.net/artworks/111879257)\nhttps://yande\\.re/post/show/7"
    );
}

#[test]
fn caption_of_an_unparsable_source_shows_it_escaped() {
    let p = cpost(9, "artist scan no. 4");
    assert_eq!(
        p.get_caption(),
        "source: artist scan no\\. 4\nhttps://yande\\.re/post/show/9"
    );
}

#[test]
fn a_pximg_mention_that_is_no_url_falls_back_to_plain_text() {
    let p = cpost(13, "pximg scan");
    assert_eq!(p.get_caption(), "source: pximg scan\nhttps://yande\\.re/post/show/13");
}

#[test]
fn caption_of_a_hostless_url_falls_back_to_plain_text() {
    let p = cpost(11, "unix:/run/foo.socket");
    assert_eq!(
        p.get_caption(),
        "source: unix:/run/foo\\.socket\nhttps://yande\\.re/post/show/11"
    );
}
