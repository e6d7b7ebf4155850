use puprs::error::Error;
use puprs::frame_handle::{script_tag_script_text, style_tag_script_text, AddTagOptions};

fn opts(url: Option<&str>, content: Option<&str>, ty: Option<&str>) -> AddTagOptions {
    AddTagOptions {
        url: url.map(str::to_string),
        content: content.map(str::to_string),
        script_type: ty.map(str::to_string),
    }
}

#[test]
fn script_tag_from_url_uses_default_type() {
    let s = script_tag_script_text(&opts(Some("https://x/a.js"), None, None)).unwrap();
    let expected = "new Promise((resolve, reject) => {\n                    const s = document.createElement('script');\n                    s.type = \"text/javascript\";\n                    s.src = \"https://x/a.js\";\n                    s.onload = resolve;\n                    s.onerror = reject;\n                    document.head.appendChild(s);\n                })";
    assert_eq!(s, expected);
}

#[test]
fn script_tag_url_wins_over_content() {
    let a = script_tag_script_text(&opts(Some("u"), Some("c"), Some("module"))).unwrap();
    assert!(a.contains("s.src = \"u\";"));
    assert!(a.contains("s.type = \"module\";"));
    assert!(!a.contains("textContent"));
}

#[test]
fn script_tag_inline_content_is_quoted() {
    let s = script_tag_script_text(&opts(None, Some("alert(\"hi\")\n"), Some("module"))).unwrap();
    let expected = "(() => {\n                    const s = document.createElement('script');\n                    s.type = \"module\";\n                    s.textContent = \"alert(\\\"hi\\\")\\n\";\n                    document.head.appendChild(s);\n                })()";
    assert_eq!(s, expected);
}

#[test]
fn tag_without_source_is_refused() {
    match script_tag_script_text(&opts(None, None, Some("module"))) {
        Err(Error::Other(m)) => assert_eq!(m, "AddTagOptions requires either url or content"),
        other => panic!("unexpected: {:?}", other),
    }
    match style_tag_script_text(&opts(None, None, None)) {
        Err(Error::Other(m)) => assert_eq!(m, "AddTagOptions requires either url or content"),
        other => panic!("unexpected: {:?}", other),
    }
}

#[test]
fn style_tags_link_or_inline() {
    let l = style_tag_script_text(&opts(Some("s.css"), Some("x"), None)).unwrap();
    let expected = "new Promise((resolve, reject) => {\n                    const l = document.createElement('link');\n                    l.rel = 'stylesheet';\n                    l.href = \"s.css\";\n                    l.onload = resolve;\n                    l.onerror = reject;\n                    document.head.appendChild(l);\n                })";
    assert_eq!(l, expected);
    let c = style_tag_script_text(&opts(None, Some("body{}"), None)).unwrap();
    let expected = "(() => {\n                    const s = document.createElement('style');\n                    s.textContent = \"body{}\";\n                    document.head.appendChild(s);\n                })()";
    assert_eq!(c, expected);
}
