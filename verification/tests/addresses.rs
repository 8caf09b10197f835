use elastask::address::{
    build_tm_url, get_run_now_url, get_search_url, get_update_url_from_id, UrlError,
    KIBANA_RUN_NOW_API, MAX_ADDRESS_CHARS, SEARCH_API, SEARCH_PAGE, TASK_MANAGER_INDEX,
    UPDATE_API,
};
use elastask::config::Config;

fn store(path: &str) -> Config {
    let mut config = Config::defaults();
    config.elasticsearch_path = path.to_string();
    config
}

#[test]
fn operations_have_their_names() {
    assert_eq!(TASK_MANAGER_INDEX, ".kibana_task_manager/");
    assert_eq!(SEARCH_API, "_search/");
    assert_eq!(UPDATE_API, "_update/");
    assert_eq!(SEARCH_PAGE, "size=5000");
    assert_eq!(KIBANA_RUN_NOW_API, "api/task_manager/_run_now");
}

#[test]
fn operation_address_is_below_the_index() {
    let address = build_tm_url(&Config::defaults(), "_search/").unwrap();
    assert_eq!(address.to_string(), "http://localhost:9200/.kibana_task_manager/_search/");
    let address = build_tm_url(&store("https://es.example/prefix/"), "_update/").unwrap();
    assert_eq!(address.to_string(), "https://es.example/prefix/.kibana_task_manager/_update/");
}

#[test]
fn last_segment_of_the_base_is_replaced() {
    let address = build_tm_url(&store("http://es.example:9200/prefix"), "_update/").unwrap();
    assert_eq!(address.to_string(), "http://es.example:9200/.kibana_task_manager/_update/");
}

#[test]
fn search_asks_for_one_full_page() {
    assert_eq!(
        get_search_url(&Config::defaults()),
        Ok("http://localhost:9200/.kibana_task_manager/_search/?size=5000".to_string())
    );
    assert_eq!(
        get_search_url(&store("http://es.example:9200/%FF/")),
        Ok("http://es.example:9200/%FF/.kibana_task_manager/_search/?size=5000".to_string())
    );
}

#[test]
fn update_address_ends_in_the_identity() {
    assert_eq!(
        get_update_url_from_id(&Config::defaults(), "task:1"),
        Ok("http://localhost:9200/.kibana_task_manager/_update/task:1".to_string())
    );
    assert_eq!(
        get_update_url_from_id(&Config::defaults(), "abc-123_x.y~z"),
        Ok("http://localhost:9200/.kibana_task_manager/_update/abc-123_x.y~z".to_string())
    );
}

#[test]
fn identity_is_escaped_for_the_address_and_shown_plain() {
    let base = "http://localhost:9200/.kibana_task_manager/_update/";
    for id in ["a b", "a/b", "50%", "é", "a?b#c", "../up", "task:alerting:1"] {
        assert_eq!(
            get_update_url_from_id(&Config::defaults(), id),
            Ok(format!("{}{}", base, id)),
            "identity {:?}",
            id
        );
    }
}

#[test]
fn run_now_address_is_below_the_node() {
    assert_eq!(
        get_run_now_url("http://localhost:5601"),
        Ok("http://localhost:5601/api/task_manager/_run_now".to_string())
    );
    assert_eq!(
        get_run_now_url("http://kibana.example:5601/base/"),
        Ok("http://kibana.example:5601/base/api/task_manager/_run_now".to_string())
    );
    assert_eq!(
        get_run_now_url("http://kibana.example/a%20b/"),
        Ok("http://kibana.example/a b/api/task_manager/_run_now".to_string())
    );
}

#[test]
fn base_that_is_no_address_is_refused() {
    assert_eq!(build_tm_url(&store("not an address"), "_search/").unwrap_err(), UrlError::InvalidBase);
    assert_eq!(build_tm_url(&store(""), "_search/").unwrap_err(), UrlError::InvalidBase);
    assert_eq!(get_search_url(&store("/relative/path")), Err(UrlError::InvalidBase));
    assert_eq!(get_update_url_from_id(&store("es.example"), "t"), Err(UrlError::InvalidBase));
    assert_eq!(get_run_now_url("kibana"), Err(UrlError::InvalidBase));
}

#[test]
fn base_that_takes_no_reference_is_refused() {
    assert_eq!(
        build_tm_url(&store("mailto:admin@example.com"), "_search/").unwrap_err(),
        UrlError::InvalidReference
    );
    assert_eq!(get_search_url(&store("mailto:admin@example.com")), Err(UrlError::InvalidReference));
    assert_eq!(
        get_update_url_from_id(&store("mailto:admin@example.com"), "t"),
        Err(UrlError::InvalidReference)
    );
    assert_eq!(get_run_now_url("mailto:admin@example.com"), Err(UrlError::InvalidReference));
}

#[test]
fn escapes_that_are_no_utf8_are_refused() {
    assert_eq!(
        get_update_url_from_id(&store("http://es.example:9200/%FF/"), "t"),
        Err(UrlError::InvalidEncoding)
    );
    assert_eq!(get_run_now_url("http://kibana.example/%C3/"), Err(UrlError::InvalidEncoding));
}

#[test]
fn address_beyond_the_limit_takes_no_query() {
    let mut path = String::with_capacity(MAX_ADDRESS_CHARS + 32);
    path.push_str("http://es.example:9200/");
    while path.len() < MAX_ADDRESS_CHARS {
        path.push_str("aaaaaaaaaaaaaaaa");
    }
    path.push('/');
    assert_eq!(get_search_url(&store(&path)), Err(UrlError::TooLong));
}
