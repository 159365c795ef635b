use litehook::config::{ConfigError, GlobalListenerConfig, ListenerConfig};
use litehook::listener::{Action, Event, Listener, PollError};
use litehook::parser::ParseError;
use std::collections::HashSet;

fn page(ids: &[&str]) -> String {
    let mut html = String::from(
        "<html><body><div class=\"tgme_channel_info\">\
         <div class=\"tgme_channel_info_header_username\"><a>@news</a></div>\
         <div class=\"tgme_channel_info_counters\"></div></div>",
    );
    for id in ids {
        html.push_str(&format!(
            "<div class=\"tgme_widget_message_wrap\">\
             <div class=\"tgme_widget_message\" data-post=\"{}\">\
             <span class=\"tgme_widget_message_views\">7</span></div></div>",
            id
        ));
    }
    html.push_str("</body></html>");
    html
}

fn global(webhook: Option<&str>) -> GlobalListenerConfig {
    GlobalListenerConfig {
        poll_interval: Some(60),
        webhook_url: webhook.map(|w| w.to_string()),
        proxy_list_url: None,
        webhook_secret: Some("global-secret".to_string()),
    }
}

fn own(webhook: Option<&str>) -> ListenerConfig {
    ListenerConfig {
        id: "news".to_string(),
        poll_interval: None,
        channel_url: "https://t.me/s/news".to_string(),
        proxy_list_url: None,
        webhook_url: webhook.map(|w| w.to_string()),
        webhook_secret: None,
    }
}

/// A call of the webhook, as the driver saw it.
struct Call {
    url: String,
    secret: String,
    channel: String,
    posts: Vec<String>,
    attempt: u64,
}

/// The world around a worker: the pages that the channel shows cycle by
/// cycle, the store, and the statuses that the webhook answers with.
struct World {
    pages: Vec<String>,
    statuses: Vec<u16>,
    store: HashSet<String>,
    calls: Vec<Call>,
    sleeps: Vec<u64>,
}

impl World {
    fn new(pages: Vec<String>, statuses: Vec<u16>) -> World {
        World { pages, statuses, store: HashSet::new(), calls: Vec::new(), sleeps: Vec::new() }
    }

    /// Carries out one action and says what came of it.
    fn perform(&mut self, action: Action) -> Result<Event, Result<(), PollError>> {
        match action {
            Action::Fetch { url } => {
                assert_eq!(url, "https://t.me/s/news");
                if self.pages.is_empty() {
                    Ok(Event::Failed)
                } else {
                    Ok(Event::Fetched(self.pages.remove(0)))
                }
            }
            Action::Lookup { id } => Ok(Event::Looked(self.store.contains(&id))),
            Action::Store { post } => {
                self.store.insert(post.id);
                Ok(Event::Stored)
            }
            Action::Send { url, secret, channel, new_posts, attempt } => {
                self.calls.push(Call {
                    url,
                    secret,
                    channel: channel.id,
                    posts: new_posts.into_iter().map(|p| p.id).collect(),
                    attempt,
                });
                let status = if self.statuses.is_empty() { 200 } else { self.statuses.remove(0) };
                Ok(Event::Sent(status))
            }
            Action::Sleep { seconds } => {
                self.sleeps.push(seconds);
                Ok(Event::Wake)
            }
            Action::Exit(result) => Err(result),
        }
    }

    /// Drives the worker until it has slept through `cycles` poll intervals
    /// or has returned.
    fn drive(&mut self, worker: &mut Listener, cycles: usize) -> Option<Result<(), PollError>> {
        let mut event = Event::Wake;
        let mut slept = 0;
        loop {
            let action = worker.run(event);
            let ends_cycle = matches!(action, Action::Sleep { seconds } if seconds != 1);
            match self.perform(action) {
                Err(result) => return Some(result),
                Ok(next) => event = next,
            }
            if ends_cycle {
                slept += 1;
                if slept == cycles {
                    return None;
                }
            }
        }
    }
}

#[test]
fn new_worker_needs_a_valid_effective_configuration() {
    assert!(Listener::new(own(Some("https://w/")), &global(None)).is_ok());
    assert!(Listener::new(own(None), &global(Some("https://g/"))).is_ok());
    assert!(matches!(
        Listener::new(own(None), &global(None)),
        Err(ConfigError::WebhookUrlMissing)
    ));
    let mut elsewhere = own(Some("https://w/"));
    elsewhere.channel_url = "https://example.com/news".to_string();
    assert!(matches!(Listener::new(elsewhere, &global(None)), Err(ConfigError::ChannelUrl)));
    let mut hasty = own(Some("https://w/"));
    hasty.poll_interval = Some(2);
    assert!(matches!(Listener::new(hasty, &global(None)), Err(ConfigError::PollInterval)));
    let mut global_hasty = global(None);
    global_hasty.poll_interval = Some(1);
    assert!(matches!(
        Listener::new(own(Some("https://w/")), &global_hasty),
        Err(ConfigError::PollInterval)
    ));
    assert!(matches!(
        Listener::new(own(Some("no url")), &global(None)),
        Err(ConfigError::WebhookUrl)
    ));
}

#[test]
fn new_worker_holds_the_merged_configuration() {
    let worker = Listener::new(own(None), &global(Some("https://g/"))).unwrap();
    assert_eq!(worker.cfg().id, "news");
    assert_eq!(worker.cfg().webhook_url.as_deref(), Some("https://g/"));
    assert_eq!(worker.cfg().webhook_secret.as_deref(), Some("global-secret"));
    assert_eq!(worker.cfg().poll_interval, Some(60));
    assert!(!worker.is_done());
}

#[test]
fn dedup_across_cycles() {
    let mut worker = Listener::new(own(Some("https://w/")), &global(None)).unwrap();
    let mut world =
        World::new(vec![page(&["news/1", "news/2"]), page(&["news/1", "news/2", "news/3"])], vec![]);
    assert_eq!(world.drive(&mut worker, 2), None);
    assert_eq!(world.calls.len(), 2);
    assert_eq!(world.calls[0].posts, vec!["news/1", "news/2"]);
    assert_eq!(world.calls[0].channel, "news");
    assert_eq!(world.calls[0].attempt, 1);
    assert_eq!(world.calls[1].posts, vec!["news/3"]);
    assert_eq!(world.sleeps, vec![60, 60]);
    let mut sent: Vec<&String> = world.calls.iter().flat_map(|c| c.posts.iter()).collect();
    sent.sort();
    sent.dedup();
    assert_eq!(sent.len(), 3);
}

#[test]
fn a_post_shown_twice_on_a_page_is_sent_once() {
    let mut worker = Listener::new(own(Some("https://w/")), &global(None)).unwrap();
    let mut world = World::new(vec![page(&["news/1", "news/1", "news/2"])], vec![]);
    assert_eq!(world.drive(&mut worker, 1), None);
    assert_eq!(world.calls.len(), 1);
    assert_eq!(world.calls[0].posts, vec!["news/1", "news/2"]);
}

#[test]
fn empty_batch_makes_no_call() {
    let mut worker = Listener::new(own(Some("https://w/")), &global(None)).unwrap();
    let mut world = World::new(vec![page(&[]), page(&["news/1"]), page(&["news/1"])], vec![]);
    world.store.insert("news/1".to_string());
    assert_eq!(world.drive(&mut worker, 3), None);
    assert!(world.calls.is_empty());
    assert_eq!(world.sleeps, vec![60, 60, 60]);
}

#[test]
fn webhook_flaky() {
    let mut worker = Listener::new(own(Some("https://w/")), &global(None)).unwrap();
    let mut world = World::new(
        vec![page(&["news/1", "news/2"]), page(&["news/1", "news/2"])],
        vec![503, 503, 503, 503, 200],
    );
    assert_eq!(world.drive(&mut worker, 2), None);
    assert_eq!(world.calls.len(), 5);
    for (i, call) in world.calls.iter().enumerate() {
        assert_eq!(call.attempt, i as u64 + 1);
        assert_eq!(call.posts, vec!["news/1", "news/2"]);
        assert_eq!(call.url, "https://w/");
    }
    assert_eq!(world.sleeps, vec![1, 1, 1, 1, 60, 60]);
    assert!(world.store.contains("news/1") && world.store.contains("news/2"));
}

#[test]
fn webhook_down_for_all_attempts() {
    let mut worker = Listener::new(own(Some("https://w/")), &global(None)).unwrap();
    let mut world = World::new(
        vec![page(&["news/1", "news/2"]), page(&["news/1", "news/2"])],
        vec![503, 503, 503, 503, 503],
    );
    assert_eq!(world.drive(&mut worker, 2), None);
    assert_eq!(world.calls.len(), 5);
    assert_eq!(world.calls[4].attempt, 5);
    assert_eq!(world.sleeps, vec![1, 1, 1, 1, 60, 60]);
    assert!(world.store.contains("news/1") && world.store.contains("news/2"));
    assert!(!worker.is_done());
}

#[test]
fn a_call_without_answer_is_made_again() {
    let mut worker = Listener::new(own(Some("https://w/")), &global(None)).unwrap();
    assert!(matches!(worker.run(Event::Wake), Action::Fetch { .. }));
    assert!(matches!(worker.run(Event::Fetched(page(&["news/1"]))), Action::Lookup { .. }));
    assert!(matches!(worker.run(Event::Looked(false)), Action::Store { .. }));
    assert!(matches!(worker.run(Event::Stored), Action::Send { attempt: 1, .. }));
    assert!(matches!(worker.run(Event::Failed), Action::Sleep { seconds: 1 }));
    assert!(matches!(worker.run(Event::Wake), Action::Send { attempt: 2, .. }));
    assert!(matches!(worker.run(Event::Sent(204)), Action::Sleep { seconds: 60 }));
    assert!(matches!(worker.run(Event::Wake), Action::Fetch { .. }));
}

#[test]
fn global_reconfigure() {
    let mut worker = Listener::new(own(None), &global(Some("https://g/"))).unwrap();
    let mut world = World::new(vec![page(&["news/1"])], vec![]);
    assert_eq!(world.drive(&mut worker, 1), None);
    assert_eq!(world.calls.len(), 1);
    assert_eq!(world.calls[0].url, "https://g/");
    assert_eq!(world.calls[0].secret, "global-secret");

    let changed = GlobalListenerConfig {
        poll_interval: Some(30),
        webhook_url: Some("https://g2/".to_string()),
        proxy_list_url: None,
        webhook_secret: None,
    };
    let action = worker.run(Event::GlobalChanged(changed));
    assert!(matches!(&action, Action::Fetch { url } if url == "https://t.me/s/news"));
    assert_eq!(worker.cfg().webhook_url.as_deref(), Some("https://g2/"));
    assert_eq!(worker.cfg().poll_interval, Some(30));
    assert_eq!(worker.cfg().webhook_secret, None);

    let mut event = Event::Fetched(page(&["news/1", "news/2"]));
    loop {
        let action = worker.run(event);
        if let Action::Sleep { seconds } = action {
            assert_eq!(seconds, 30);
            break;
        }
        event = world.perform(action).unwrap();
    }
    assert_eq!(world.calls.len(), 2);
    assert_eq!(world.calls[1].url, "https://g2/");
    assert_eq!(world.calls[1].secret, "");
    assert_eq!(world.calls[1].posts, vec!["news/2"]);
}

#[test]
fn global_change_leaves_own_settings() {
    let mut worker = Listener::new(own(Some("https://own/")), &global(Some("https://g/"))).unwrap();
    let changed = global(Some("https://g2/"));
    assert!(matches!(worker.run(Event::GlobalChanged(changed)), Action::Fetch { .. }));
    assert_eq!(worker.cfg().webhook_url.as_deref(), Some("https://own/"));
}

#[test]
fn reconfigure_replaces_the_configuration_and_keeps_the_cycle() {
    let mut worker = Listener::new(own(Some("https://w/")), &global(None)).unwrap();
    assert!(matches!(worker.run(Event::Wake), Action::Fetch { .. }));
    assert!(matches!(worker.run(Event::Fetched(page(&["news/1"]))), Action::Lookup { .. }));
    let mut cfg = own(Some("https://w2/"));
    cfg.webhook_secret = Some("own-secret".to_string());
    worker.reconfigure(&global(None), cfg);
    assert_eq!(worker.cfg().webhook_url.as_deref(), Some("https://w2/"));
    assert!(matches!(worker.run(Event::Looked(false)), Action::Store { .. }));
    match worker.run(Event::Stored) {
        Action::Send { url, secret, attempt, .. } => {
            assert_eq!(url, "https://w2/");
            assert_eq!(secret, "own-secret");
            assert_eq!(attempt, 1);
        }
        other => panic!("expected a call, got {:?}", other),
    }
}

#[test]
fn stopped_worker_returns_with_success() {
    let mut worker = Listener::new(own(Some("https://w/")), &global(None)).unwrap();
    assert!(matches!(worker.run(Event::Wake), Action::Fetch { .. }));
    worker.stop();
    assert!(matches!(worker.run(Event::Fetched(page(&["news/1"]))), Action::Exit(Ok(()))));
    assert!(worker.is_done());
    assert!(matches!(worker.run(Event::Wake), Action::Exit(Ok(()))));
}

#[test]
fn cancelled_worker_returns_with_success() {
    let mut worker = Listener::new(own(Some("https://w/")), &global(None)).unwrap();
    assert!(matches!(worker.run(Event::Cancelled), Action::Exit(Ok(()))));
    assert!(worker.is_done());
    assert!(matches!(worker.run(Event::GlobalChanged(global(None))), Action::Exit(Ok(()))));
}

#[test]
fn failed_fetch_ends_the_worker() {
    let mut worker = Listener::new(own(Some("https://w/")), &global(None)).unwrap();
    let mut world = World::new(vec![], vec![]);
    assert_eq!(world.drive(&mut worker, 1), Some(Err(PollError::Fetch)));
    assert!(worker.is_done());
    assert!(matches!(worker.run(Event::Wake), Action::Exit(Err(PollError::Unexpected))));
    assert!(matches!(
        worker.run(Event::GlobalChanged(global(None))),
        Action::Exit(Err(PollError::Unexpected))
    ));
}

#[test]
fn page_without_channel_ends_the_worker() {
    let mut worker = Listener::new(own(Some("https://w/")), &global(None)).unwrap();
    let mut world = World::new(vec!["<html><body>gone</body></html>".to_string()], vec![]);
    assert_eq!(world.drive(&mut worker, 1), Some(Err(PollError::InvalidChannel)));
}

#[test]
fn unreadable_page_ends_the_worker() {
    let mut worker = Listener::new(own(Some("https://w/")), &global(None)).unwrap();
    let broken = page(&["news/1"]).replace(" data-post=\"news/1\"", "");
    let mut world = World::new(vec![broken], vec![]);
    assert_eq!(
        world.drive(&mut worker, 1),
        Some(Err(PollError::Parse(ParseError::MissingPostId)))
    );
}

#[test]
fn store_failure_ends_the_worker() {
    let mut worker = Listener::new(own(Some("https://w/")), &global(None)).unwrap();
    assert!(matches!(worker.run(Event::Wake), Action::Fetch { .. }));
    assert!(matches!(worker.run(Event::Fetched(page(&["news/1"]))), Action::Lookup { .. }));
    assert!(matches!(worker.run(Event::Failed), Action::Exit(Err(PollError::Store))));

    let mut worker = Listener::new(own(Some("https://w/")), &global(None)).unwrap();
    assert!(matches!(worker.run(Event::Wake), Action::Fetch { .. }));
    assert!(matches!(worker.run(Event::Fetched(page(&["news/1"]))), Action::Lookup { .. }));
    assert!(matches!(worker.run(Event::Looked(false)), Action::Store { .. }));
    assert!(matches!(worker.run(Event::Failed), Action::Exit(Err(PollError::Store))));
}

#[test]
fn missing_webhook_ends_the_worker_when_posts_are_new() {
    let mut worker = Listener::new(own(Some("https://w/")), &global(None)).unwrap();
    worker.reconfigure(&global(None), own(None));
    let mut world = World::new(vec![page(&["news/1"])], vec![]);
    assert_eq!(world.drive(&mut worker, 1), Some(Err(PollError::WebhookMissing)));
    assert!(world.calls.is_empty());
    assert!(world.store.contains("news/1"));
}

#[test]
fn negative_interval_ends_the_worker() {
    let mut worker = Listener::new(own(Some("https://w/")), &global(None)).unwrap();
    let mut cfg = own(Some("https://w/"));
    cfg.poll_interval = Some(-5);
    worker.reconfigure(&global(None), cfg);
    let mut world = World::new(vec![page(&[])], vec![]);
    assert_eq!(world.drive(&mut worker, 1), Some(Err(PollError::Interval)));
}

#[test]
fn an_event_that_answers_nothing_ends_the_worker() {
    let mut worker = Listener::new(own(Some("https://w/")), &global(None)).unwrap();
    assert!(matches!(worker.run(Event::Stored), Action::Exit(Err(PollError::Unexpected))));
    let mut worker = Listener::new(own(Some("https://w/")), &global(None)).unwrap();
    assert!(matches!(worker.run(Event::Wake), Action::Fetch { .. }));
    assert!(matches!(worker.run(Event::Sent(200)), Action::Exit(Err(PollError::Unexpected))));
}

#[test]
fn the_interval_of_a_cycle_is_read_when_it_begins() {
    let mut worker = Listener::new(own(Some("https://w/")), &global(None)).unwrap();
    assert!(matches!(worker.run(Event::Wake), Action::Fetch { .. }));
    let mut cfg = own(Some("https://w/"));
    cfg.poll_interval = Some(10);
    worker.reconfigure(&global(None), cfg);
    assert!(matches!(worker.run(Event::Fetched(page(&[]))), Action::Sleep { seconds: 60 }));
    assert!(matches!(worker.run(Event::Wake), Action::Fetch { .. }));
    assert!(matches!(worker.run(Event::Fetched(page(&[]))), Action::Sleep { seconds: 10 }));
}

#[test]
fn payload_of_a_call_holds_the_channel_and_the_new_posts() {
    let mut worker = Listener::new(own(Some("https://w/")), &global(None)).unwrap();
    let fetch = worker.run(Event::Wake);
    assert!(fetch.payload().is_none());
    assert!(matches!(worker.run(Event::Fetched(page(&["news/1"]))), Action::Lookup { .. }));
    assert!(matches!(worker.run(Event::Looked(false)), Action::Store { .. }));
    let call = worker.run(Event::Stored);
    let payload = call.payload().unwrap();
    assert_eq!(payload.channel.id, "news");
    assert_eq!(payload.new_posts.len(), 1);
    assert_eq!(payload.new_posts[0].id, "news/1");
    assert_eq!(payload.new_posts[0].views.as_deref(), Some("7"));
}
