use puprs::query::{PollingMode, QueryHandler, QueryHandlerRegistry};

#[test]
fn builtins_resolve_by_prefix_and_fall_back_to_css() {
    let reg = QueryHandlerRegistry::with_builtins();
    let r = reg.resolve_selector("xpath//div[@id='a']");
    assert_eq!(r.name, "xpath");
    assert_eq!(r.selector, "/div[@id='a']");
    let r = reg.resolve_selector("text=Sign in");
    assert_eq!(r.name, "text");
    assert_eq!(r.selector, "Sign in");
    assert_eq!(r.polling, PollingMode::Mutation);
    let r = reg.resolve_selector("aria=Submit[role=\"button\"]");
    assert_eq!(r.name, "aria");
    assert_eq!(r.polling, PollingMode::Raf);
    let r = reg.resolve_selector("div > span");
    assert_eq!(r.name, "css");
    assert_eq!(r.selector, "div > span");
    assert_eq!(r.handler.query_one.as_deref(), Some("return element.querySelector(selector)"));
    // "css=" is no prefix: css is skipped when prefixes are tried.
    let r = reg.resolve_selector("css=div");
    assert_eq!(r.name, "css");
    assert_eq!(r.selector, "css=div");
}

#[test]
fn custom_handlers_match_first_and_can_be_removed() {
    let mut reg = QueryHandlerRegistry::with_builtins();
    reg.register("te", QueryHandler::from_query_one("return null".to_string(), PollingMode::Raf));
    let r = reg.resolve_selector("te=x");
    assert_eq!(r.name, "te");
    assert_eq!(r.selector, "x");
    // A custom handler named like a built-in replaces it.
    reg.register("text", QueryHandler::from_query_all("return []".to_string(), PollingMode::Raf));
    let r = reg.resolve_selector("text=hi");
    assert_eq!(r.name, "text");
    assert_eq!(r.polling, PollingMode::Raf);
    reg.unregister("te");
    let r = reg.resolve_selector("te=x");
    assert_eq!(r.name, "css");
    reg.register("mine", QueryHandler::from_query_one("return null".to_string(), PollingMode::Raf));
    reg.clear_custom();
    assert_eq!(reg.resolve_selector("mine/x").name, "css");
    // Clearing drops the overriding "text" handler too: the built-in one is back.
    assert_eq!(reg.resolve_selector("text=hi").polling, PollingMode::Mutation);
}

#[test]
fn derived_query_bodies_wrap_the_given_one() {
    let h = QueryHandler::from_query_all("return [1]".to_string(), PollingMode::Mutation);
    assert_eq!(h.resolved_query_all(), "return [1]");
    assert_eq!(
        h.resolved_query_one(),
        "const results = (function(element, selector) { return [1] })(element, selector);\n            return Array.isArray(results) ? (results[0] || null) : null;"
    );
    let h = QueryHandler::from_query_one("return x".to_string(), PollingMode::Mutation);
    assert_eq!(
        h.resolved_query_all(),
        "const result = (function(element, selector) { return x })(element, selector);\n            return result ? [result] : [];"
    );
    let both = QueryHandler::new("a".to_string(), "b".to_string(), PollingMode::Raf);
    assert_eq!(both.resolved_query_one(), "a");
    assert_eq!(both.resolved_query_all(), "b");
}

#[test]
fn resolution_without_css_handler() {
    let mut reg = QueryHandlerRegistry::with_builtins();
    reg.unregister("css");
    assert!(reg.try_resolve_selector("div.item").is_none());
    let r = reg.try_resolve_selector("xpath///a").unwrap();
    assert_eq!(r.name, "xpath");
    assert_eq!(r.selector, "//a");
    let r = QueryHandlerRegistry::with_builtins().try_resolve_selector("div.item").unwrap();
    assert_eq!(r.name, "css");
    assert_eq!(r.selector, "div.item");
}

#[test]
fn clearing_after_registering_restores_builtins() {
    let mut reg = QueryHandlerRegistry::with_builtins();
    reg.register("mine", QueryHandler::from_query_one("return null".to_string(), PollingMode::Raf));
    assert_eq!(reg.resolve_selector("mine=x").name, "mine");
    reg.clear_custom();
    let r = reg.resolve_selector("mine=x");
    assert_eq!(r.name, "css");
    assert_eq!(r.selector, "mine=x");
    assert_eq!(reg.resolve_selector("aria/Submit").name, "aria");
}

#[test]
fn first_registered_custom_handler_matches_first() {
    let mut reg = QueryHandlerRegistry::with_builtins();
    reg.register("a", QueryHandler::from_query_one("return null".to_string(), PollingMode::Mutation));
    reg.register("a/b", QueryHandler::from_query_one("return element".to_string(), PollingMode::Raf));
    let r = reg.resolve_selector("a/b=c");
    assert_eq!(r.name, "a");
    assert_eq!(r.selector, "b=c");
    assert_eq!(r.polling, PollingMode::Mutation);
    // Custom handlers still come before the built-in ones.
    reg.register("xpath-ish", QueryHandler::from_query_one("return null".to_string(), PollingMode::Raf));
    assert_eq!(reg.resolve_selector("xpath-ish=q").name, "xpath-ish");
    assert_eq!(reg.resolve_selector("xpath/q").name, "xpath");
}
