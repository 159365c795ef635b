use litehook::config::ListenerConfig;
use litehook::model::{Health, ListenerRow, Post, PostReaction, PostRow};

fn sample_post(id: &str) -> Post {
    Post {
        id: id.to_string(),
        author: Some("Author".to_string()),
        text: Some("This is a test!".to_string()),
        media: Some(vec!["https://example.com/image.png".to_string()]),
        reactions: Some(vec![
            PostReaction { emoji: Some("\u{1f44d}".to_string()), count: Some("5.7K".to_string()) },
            PostReaction { emoji: Some("\u{1fa77}".to_string()), count: Some("39".to_string()) },
        ]),
        views: Some("1.5K".to_string()),
        date: Some("2026-02-14T15:45:21+00:00".to_string()),
    }
}

#[test]
fn post_of_a_row_has_every_text_column() {
    let row = PostRow {
        id: "test/1".to_string(),
        author: "Author".to_string(),
        text: "This is a test!".to_string(),
        media: Some(vec!["https://example.com/image.png".to_string()]),
        reactions: Some(vec![
            PostReaction { emoji: Some("\u{1f44d}".to_string()), count: Some("5.7K".to_string()) },
            PostReaction { emoji: Some("\u{1fa77}".to_string()), count: Some("39".to_string()) },
        ]),
        views: "1.5K".to_string(),
        date: "2026-02-14T15:45:21+00:00".to_string(),
    };
    assert_eq!(Post::from(row), sample_post("test/1"));
}

#[test]
fn post_of_a_row_without_media() {
    let row = PostRow {
        id: "test/2".to_string(),
        author: String::new(),
        text: String::new(),
        media: None,
        reactions: None,
        views: String::new(),
        date: String::new(),
    };
    let post = Post::from(row);
    assert_eq!(post.id, "test/2");
    assert_eq!(post.author.as_deref(), Some(""));
    assert_eq!(post.media, None);
    assert_eq!(post.reactions, None);
}

#[test]
fn post_clone_is_equal() {
    let post = sample_post("test/1");
    assert_eq!(post.clone(), post);
    assert_ne!(post.clone(), sample_post("test/2"));
}

#[test]
fn row_of_a_configuration() {
    let cfg = ListenerConfig {
        id: "news".to_string(),
        poll_interval: Some(60),
        channel_url: "https://t.me/s/news".to_string(),
        proxy_list_url: Some("https://p.example/list".to_string()),
        webhook_url: Some("https://w.example/h".to_string()),
        webhook_secret: Some("secret".to_string()),
    };
    let row = ListenerRow::from(cfg);
    assert_eq!(row.id, "news");
    assert!(row.active);
    assert_eq!(row.poll_interval, 60);
    assert_eq!(row.channel_url, "https://t.me/s/news");
    assert_eq!(row.proxy_list_url.as_deref(), Some("https://p.example/list"));
    assert_eq!(row.webhook_url, "https://w.example/h");
}

#[test]
fn configuration_of_a_row_has_no_secret() {
    let row = ListenerRow {
        id: "news".to_string(),
        active: true,
        poll_interval: 60,
        channel_url: "https://t.me/s/news".to_string(),
        proxy_list_url: None,
        webhook_url: "https://w.example/h".to_string(),
    };
    let cfg = ListenerConfig::from(row.clone());
    assert_eq!(cfg.id, "news");
    assert_eq!(cfg.poll_interval, Some(60));
    assert_eq!(cfg.channel_url, "https://t.me/s/news");
    assert_eq!(cfg.proxy_list_url, None);
    assert_eq!(cfg.webhook_url.as_deref(), Some("https://w.example/h"));
    assert_eq!(cfg.webhook_secret, None);
    let back = ListenerRow::from(cfg);
    assert_eq!(back.id, row.id);
    assert_eq!(back.poll_interval, row.poll_interval);
    assert_eq!(back.webhook_url, row.webhook_url);
}

#[test]
fn health_holds_its_fields() {
    let health = Health { ok: true, listeners: 3 };
    assert_eq!(health, Health { ok: true, listeners: 3 });
    assert_ne!(health, Health { ok: false, listeners: 3 });
}
