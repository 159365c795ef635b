use litehook::model::{ChannelCounters, PostReaction};
use litehook::parser::{markdown_text, parse_media, parse_page, parse_reaction, ParseError};

const PAGE: &str = r#"<!DOCTYPE html>
<html><body>
<div class="tgme_channel_info">
  <div class="tgme_channel_info_header">
    <i class="tgme_page_photo_image"><img src="https://cdn.example/photo.jpg"></i>
    <div class="tgme_channel_info_header_title"><span dir="auto">News Channel</span></div>
    <div class="tgme_channel_info_header_username"><a href="https://t.me/news">@news</a></div>
  </div>
  <div class="tgme_channel_info_counters">
    <div class="tgme_channel_info_counter"><span class="counter_value">1.8M</span> <span class="counter_type">subscribers</span></div>
    <div class="tgme_channel_info_counter"><span class="counter_value">12</span> <span class="counter_type">photos</span></div>
    <div class="tgme_channel_info_counter"><span class="counter_value">1</span> <span class="counter_type">video</span></div>
    <div class="tgme_channel_info_counter"><span class="counter_value">7</span> <span class="counter_type">files</span></div>
  </div>
  <div class="tgme_channel_info_description">Daily digest</div>
</div>
<section>
<div class="tgme_widget_message_wrap">
  <div class="tgme_widget_message" data-post="news/1">
    <div class="tgme_widget_message_author"><a class="tgme_widget_message_owner_name" href="https://t.me/news"><span dir="auto">News Channel</span></a></div>
    <a class="tgme_widget_message_photo_wrap" style="width:100px;background-image:url('https://cdn.example/1.jpg')"></a>
    <a class="tgme_widget_message_photo_wrap" style="width:100px"></a>
    <a class="tgme_widget_message_photo_wrap" style="background-image:url('https://cdn.example/2.jpg');height:3px"></a>
    <div class="tgme_widget_message_text">First post</div>
    <div class="tgme_widget_message_reactions"><span class="tgme_reaction"><i class="emoji"><b>&#x1F44D;</b></i>5.7K</span><span class="tgme_reaction"> 39 </span></div>
    <span class="tgme_widget_message_views">1.5K</span>
    <a class="tgme_widget_message_date" href="https://t.me/news/1"><time datetime="2026-02-14T15:45:21+00:00">15:45</time></a>
  </div>
</div>
<div class="tgme_widget_message_wrap">
  <div class="tgme_widget_message" data-post="news/2">
  </div>
</div>
</section>
</body></html>"#;

#[test]
fn page_without_channel_block_is_no_page() {
    assert!(matches!(parse_page("<html><body><p>nothing here</p></body></html>"), Ok(None)));
    assert!(matches!(parse_page(""), Ok(None)));
}

#[test]
fn page_gives_the_channel() {
    let page = parse_page(PAGE).unwrap().unwrap();
    let channel = page.channel;
    assert_eq!(channel.id, "news");
    assert_eq!(channel.name.as_deref(), Some("News Channel"));
    assert_eq!(channel.image.as_deref(), Some("https://cdn.example/photo.jpg"));
    assert_eq!(channel.counters.subscribers.as_deref(), Some("1.8M"));
    assert_eq!(channel.counters.photos.as_deref(), Some("12"));
    assert_eq!(channel.counters.videos.as_deref(), Some("1"));
    assert_eq!(channel.counters.links, None);
    assert_eq!(channel.description.as_deref().map(|d| d.trim()), Some("Daily digest"));
}

#[test]
fn page_gives_the_posts_in_order() {
    let page = parse_page(PAGE).unwrap().unwrap();
    assert_eq!(page.posts.len(), 2);
    let first = &page.posts[0];
    assert_eq!(first.id, "news/1");
    assert_eq!(first.author.as_deref(), Some("News Channel"));
    assert_eq!(first.text.as_deref().map(|t| t.trim()), Some("First post"));
    assert_eq!(
        first.media,
        Some(vec!["https://cdn.example/1.jpg".to_string(), "https://cdn.example/2.jpg".to_string()])
    );
    assert_eq!(
        first.reactions,
        Some(vec![
            PostReaction { emoji: Some("\u{1f44d}".to_string()), count: Some("5.7K".to_string()) },
            PostReaction { emoji: Some("unknown".to_string()), count: Some("39".to_string()) },
        ])
    );
    assert_eq!(first.views.as_deref(), Some("1.5K"));
    assert_eq!(first.date.as_deref(), Some("2026-02-14T15:45:21+00:00"));
}

#[test]
fn post_lacks_each_part_that_its_block_does_not_show() {
    let page = parse_page(PAGE).unwrap().unwrap();
    let second = &page.posts[1];
    assert_eq!(second.id, "news/2");
    assert_eq!(second.author, None);
    assert_eq!(second.text, None);
    assert_eq!(second.media, None);
    assert_eq!(second.reactions, None);
    assert_eq!(second.views, None);
    assert_eq!(second.date, None);
}

#[test]
fn markdown_of_the_text() {
    let html = PAGE.replace("First post", "Hello <b>bold</b> world");
    let page = parse_page(&html).unwrap().unwrap();
    assert_eq!(page.posts[0].text.as_deref().map(|t| t.trim()), Some("Hello **bold** world"));
}

#[test]
fn channel_without_handle_is_an_error() {
    let html = PAGE.replace("tgme_channel_info_header_username", "elsewhere");
    assert!(matches!(parse_page(&html), Err(ParseError::MissingChannelId)));
}

#[test]
fn channel_without_counters_is_an_error() {
    let html = PAGE.replace("tgme_channel_info_counters", "elsewhere");
    assert!(matches!(parse_page(&html), Err(ParseError::MissingCounters)));
}

#[test]
fn channel_image_without_source_is_an_error() {
    let html = PAGE.replace("<img src=\"https://cdn.example/photo.jpg\">", "<img>");
    assert!(matches!(parse_page(&html), Err(ParseError::MissingImageSource)));
}

#[test]
fn channel_without_image_has_none() {
    let html = PAGE.replace("tgme_page_photo_image", "elsewhere");
    let page = parse_page(&html).unwrap().unwrap();
    assert_eq!(page.channel.image, None);
    assert_eq!(page.channel.id, "news");
}

#[test]
fn post_block_without_message_is_an_error() {
    let html = PAGE.replace("class=\"tgme_widget_message\" data-post=\"news/2\"", "class=\"other\"");
    assert!(matches!(parse_page(&html), Err(ParseError::MissingMessage)));
}

#[test]
fn message_without_id_is_an_error() {
    let html = PAGE.replace(" data-post=\"news/2\"", "");
    assert!(matches!(parse_page(&html), Err(ParseError::MissingPostId)));
}

#[test]
fn media_url_is_what_stands_between_the_quotes() {
    assert_eq!(
        parse_media("width:10px;background-image:url('https://cdn.example/a.jpg')"),
        Some("https://cdn.example/a.jpg".to_string())
    );
    assert_eq!(parse_media("url('')"), Some(String::new()));
    assert_eq!(parse_media("url('a') url('b')"), Some("a".to_string()));
    assert_eq!(parse_media("')url('x')"), Some("x".to_string()));
    assert_eq!(parse_media("background:none"), None);
    assert_eq!(parse_media("url('unterminated"), None);
    assert_eq!(parse_media("url(\"double\")"), None);
    assert_eq!(parse_media(""), None);
}

#[test]
fn reaction_count_is_the_text_without_the_emoji() {
    assert_eq!(
        parse_reaction("\u{1f44d}5.7K", Some("\u{1f44d}".to_string())),
        PostReaction { emoji: Some("\u{1f44d}".to_string()), count: Some("5.7K".to_string()) }
    );
    assert_eq!(
        parse_reaction("  39 ", None),
        PostReaction { emoji: Some("unknown".to_string()), count: Some("39".to_string()) }
    );
    assert_eq!(
        parse_reaction("unknown 4", None),
        PostReaction { emoji: Some("unknown".to_string()), count: Some("4".to_string()) }
    );
    assert_eq!(
        parse_reaction("12", Some(String::new())),
        PostReaction { emoji: Some(String::new()), count: Some("12".to_string()) }
    );
}

#[test]
fn counters_record_known_kinds_only() {
    let mut counters = ChannelCounters::new();
    assert_eq!(counters.subscribers, None);
    counters.record("subscriber", "1".to_string());
    counters.record("photos", "2".to_string());
    counters.record("video", "3".to_string());
    counters.record("links", "4".to_string());
    counters.record("files", "5".to_string());
    counters.record("", "6".to_string());
    assert_eq!(counters.subscribers.as_deref(), Some("1"));
    assert_eq!(counters.photos.as_deref(), Some("2"));
    assert_eq!(counters.videos.as_deref(), Some("3"));
    assert_eq!(counters.links.as_deref(), Some("4"));
    counters.record("subscribers", "1.8M".to_string());
    counters.record("photo", "20".to_string());
    counters.record("videos", "30".to_string());
    counters.record("link", "40".to_string());
    assert_eq!(counters.subscribers.as_deref(), Some("1.8M"));
    assert_eq!(counters.photos.as_deref(), Some("20"));
    assert_eq!(counters.videos.as_deref(), Some("30"));
    assert_eq!(counters.links.as_deref(), Some("40"));
}

#[test]
fn markdown_of_a_conversion() {
    assert_eq!(markdown_text::<()>(Ok(Some("# Title".to_string()))), Ok("# Title".to_string()));
    assert_eq!(markdown_text::<()>(Ok(None)), Ok(String::new()));
    assert_eq!(markdown_text(Err(())), Err(ParseError::Markdown));
}

#[test]
fn text_that_cannot_be_converted_is_an_error() {
    let html = PAGE.replace("Daily digest", "%PDF-1.7");
    assert!(matches!(parse_page(&html), Err(ParseError::Markdown)));
    let html = PAGE.replace("First post", "%PDF-1.7");
    assert!(matches!(parse_page(&html), Err(ParseError::Markdown)));
}

#[test]
fn the_first_fault_of_a_page_is_reported() {
    let html = PAGE
        .replace("tgme_channel_info_counters", "elsewhere")
        .replace(" data-post=\"news/2\"", "");
    assert!(matches!(parse_page(&html), Err(ParseError::MissingCounters)));
    let html = PAGE.replace(" data-post=\"news/1\"", "").replace(
        "class=\"tgme_widget_message\" data-post=\"news/2\"",
        "class=\"other\"",
    );
    assert!(matches!(parse_page(&html), Err(ParseError::MissingPostId)));
}

#[test]
fn later_counter_of_a_kind_overrides() {
    let html = PAGE.replace(
        "<span class=\"counter_value\">7</span> <span class=\"counter_type\">files</span>",
        "<span class=\"counter_value\">2M</span> <span class=\"counter_type\">subscriber</span>",
    );
    let page = parse_page(&html).unwrap().unwrap();
    assert_eq!(page.channel.counters.subscribers.as_deref(), Some("2M"));
}
