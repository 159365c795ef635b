use litehook::proxy::{
    create_client, get_proxy, picked_proxy, proxy_candidates, proxy_url, ProxyError, HTTP_TIMEOUT,
};

#[test]
fn candidates_are_the_trimmed_lines_that_are_not_empty() {
    let list = " 10.0.0.1:1080 \r\n\r\n\t10.0.0.2:1080\n   \n10.0.0.3:1080";
    assert_eq!(proxy_candidates(list), vec!["10.0.0.1:1080", "10.0.0.2:1080", "10.0.0.3:1080"]);
    assert_eq!(proxy_candidates("one\n"), vec!["one"]);
    assert_eq!(proxy_candidates("\none"), vec!["one"]);
    assert!(proxy_candidates("").is_empty());
    assert!(proxy_candidates(" \n\r\n\t\n").is_empty());
}

#[test]
fn candidates_agree_with_std_lines() {
    let lists = ["a\nb", "a\r\nb\r\n", "\n\n", " a \n\n b", "a", "", "a\rb\n c"];
    for list in lists {
        let expected: Vec<String> =
            list.lines().map(|s| s.trim()).filter(|s| !s.is_empty()).map(|s| s.to_string()).collect();
        assert_eq!(proxy_candidates(list), expected);
    }
}

#[test]
fn a_proxy_is_one_of_the_addresses() {
    let list = "10.0.0.1:1080\n10.0.0.2:1080\n10.0.0.3:1080\n";
    let addresses = proxy_candidates(list);
    for _ in 0..50 {
        let addr = get_proxy(list).unwrap();
        assert!(addresses.contains(&addr));
    }
    assert_eq!(get_proxy(" only:1 \n"), Ok("only:1".to_string()));
}

#[test]
fn every_address_can_be_picked() {
    let list = "a:1\nb:2";
    let mut seen_a = false;
    let mut seen_b = false;
    for _ in 0..400 {
        match get_proxy(list).unwrap().as_str() {
            "a:1" => seen_a = true,
            "b:2" => seen_b = true,
            other => panic!("not an address of the list: {}", other),
        }
    }
    assert!(seen_a && seen_b);
}

#[test]
fn a_list_without_addresses_gives_no_proxy() {
    assert_eq!(get_proxy(""), Err(ProxyError::Empty));
    assert_eq!(get_proxy("\n  \n"), Err(ProxyError::Empty));
    assert_eq!(picked_proxy(None), Err(ProxyError::Empty));
    assert_eq!(picked_proxy(Some("x:1".to_string())), Ok("x:1".to_string()));
}

#[test]
fn proxy_url_is_socks5h() {
    assert_eq!(proxy_url("10.0.0.1:1080"), "socks5h://10.0.0.1:1080");
    assert_eq!(proxy_url(""), "socks5h://");
}

#[test]
fn client_settings() {
    let plain = create_client(None).unwrap();
    assert_eq!(plain.timeout, 30);
    assert_eq!(plain.timeout, HTTP_TIMEOUT);
    assert_eq!(plain.proxy, None);
    let proxied = create_client(Some("10.0.0.1:1080\n".to_string())).unwrap();
    assert_eq!(proxied.timeout, 30);
    assert_eq!(proxied.proxy.as_deref(), Some("socks5h://10.0.0.1:1080"));
    assert!(matches!(create_client(Some("\n".to_string())), Err(ProxyError::Empty)));
}
