use shellprobe::config::expand_tilde;
use shellprobe::web::{
    atb_url, classes_path, connection_result_for_status, media_path, page_elements_path,
    search_elements_path, search_pages_path, wp_root_url,
};

#[test]
fn url_encoding_escapes_reserved_bytes() {
    assert_eq!(media_path(&Some("a/b?c=d&e".to_string())).as_str(), "/media?search=a%2Fb%3Fc%3Dd%26e");
    assert_eq!(
        classes_path(&Some("safe-._~09AZaz".to_string())).as_str(),
        "/classes?framework=safe-._~09AZaz"
    );
    // Multi-byte characters are encoded byte by byte.
    assert_eq!(media_path(&Some("é".to_string())).as_str(), "/media?search=%C3%A9");
}

#[test]
fn atb_urls_trim_trailing_slashes() {
    assert_eq!(
        atb_url("https://site.example//", "/pages").as_str(),
        "https://site.example/wp-json/agent-bricks/v1/pages"
    );
    assert_eq!(
        atb_url("https://site.example", "/site/info").as_str(),
        "https://site.example/wp-json/agent-bricks/v1/site/info"
    );
    assert_eq!(wp_root_url("https://site.example/").as_str(), "https://site.example/wp-json/");
}

#[test]
fn page_search_path_caps_page_size() {
    assert_eq!(
        search_pages_path("two words", 10).as_str(),
        "/pages?search=two%20words&per_page=10"
    );
    assert_eq!(search_pages_path("q", 500).as_str(), "/pages?search=q&per_page=50");
}

#[test]
fn page_elements_path_formats_the_id() {
    assert_eq!(page_elements_path(0).as_str(), "/pages/0/elements");
    assert_eq!(page_elements_path(982734).as_str(), "/pages/982734/elements");
}

#[test]
fn element_search_path_includes_given_filters() {
    assert_eq!(
        search_elements_path(&None, &None, &None).as_str(),
        "/search/elements?per_page=50"
    );
    assert_eq!(
        search_elements_path(
            &Some("heading".to_string()),
            &Some("btn primary".to_string()),
            &Some(250),
        )
        .as_str(),
        "/search/elements?element_type=heading&global_class=btn%20primary&per_page=100"
    );
}

#[test]
fn classes_and_media_paths() {
    assert_eq!(classes_path(&None).as_str(), "/classes");
    assert_eq!(
        classes_path(&Some("core framework".to_string())).as_str(),
        "/classes?framework=core%20framework"
    );
    assert_eq!(media_path(&None).as_str(), "/media");
    assert_eq!(media_path(&Some("logo".to_string())).as_str(), "/media?search=logo");
}

#[test]
fn connection_statuses_map_to_messages() {
    let ok = connection_result_for_status(200, Some("My Site".to_string()));
    assert!(ok.success);
    assert_eq!(ok.status, 200);
    assert_eq!(ok.message.as_str(), "Connected successfully");
    assert_eq!(ok.site_name.as_deref(), Some("My Site"));

    for status in [401, 403] {
        let auth = connection_result_for_status(status, None);
        assert!(!auth.success);
        assert_eq!(
            auth.message.as_str(),
            "Invalid API key. Check your key in WordPress under Agent to Bricks."
        );
        assert_eq!(auth.site_name, None);
    }

    let missing = connection_result_for_status(404, None);
    assert!(!missing.success);
    assert_eq!(
        missing.message.as_str(),
        "Agent to Bricks plugin not found. Make sure it's installed and activated."
    );

    let other = connection_result_for_status(503, Some("ignored".to_string()));
    assert!(!other.success);
    assert_eq!(other.message.as_str(), "Server responded with status 503.");
    assert_eq!(other.site_name, None);
}

#[test]
fn tilde_expansion() {
    let home = Some("/home/u".to_string());
    assert_eq!(expand_tilde("~/cfg.toml", &home).as_str(), "/home/u/cfg.toml");
    assert_eq!(expand_tilde("~\\cfg.toml", &home).as_str(), "/home/u\\cfg.toml");
    assert_eq!(expand_tilde("/abs/path", &home).as_str(), "/abs/path");
    assert_eq!(expand_tilde("~", &home).as_str(), "~");
    assert_eq!(expand_tilde("~/cfg.toml", &None).as_str(), "~/cfg.toml");
}
