use inboxly_ui::sanitize::{EXT_URL_SENTINEL, extract_ext_url, rewrite_attribute, sanitize_html};

#[test]
fn strips_script_tags() {
    let dirty = "<p>Hi</p><script>alert('xss')</script><p>bye</p>";
    let clean = sanitize_html(dirty);
    assert!(!clean.contains("<script"));
    assert!(!clean.contains("alert"));
    assert!(clean.contains("<p>Hi</p>"));
    assert!(clean.contains("<p>bye</p>"));
}

#[test]
fn strips_javascript_urls() {
    let dirty = "<a href=\"javascript:alert(1)\">click</a>";
    let clean = sanitize_html(dirty);
    assert!(!clean.contains("javascript:"));
}

#[test]
fn strips_event_handlers() {
    let dirty = "<img src=\"x\" onerror=\"alert(1)\">";
    let clean = sanitize_html(dirty);
    assert!(!clean.contains("onerror"));
}

#[test]
fn preserves_safe_formatting() {
    let dirty = "<p><strong>bold</strong> and <em>italic</em></p>";
    let clean = sanitize_html(dirty);
    assert!(clean.contains("<strong>bold</strong>"));
    assert!(clean.contains("<em>italic</em>"));
}

#[test]
fn rewrites_anchor_href_to_sentinel() {
    // Clicking <a href="https://..."> inside
    // the Dioxus webview would otherwise navigate the app away.
    // We rewrite to a sentinel fragment so WebKitGTK treats the
    // click as an in-page anchor (no-op) and the click handler
    // on .thread-message-body dispatches OpenExternalUrl instead.
    let dirty = "<a href=\"https://example.com/invoice\">view invoice</a>";
    let clean = sanitize_html(dirty);
    // The link text is preserved.
    assert!(clean.contains(">view invoice</a>"));
    // The sentinel prefix is applied.
    assert!(
        clean.contains("href=\"#inboxly-ext:https://example.com/invoice\""),
        "expected sentinel-prefixed href, got: {clean}"
    );
    // The original URL should NOT be reachable as a normal href
    // (no bare `href="https://` without the sentinel).
    assert!(!clean.contains("href=\"https://"));
}

#[test]
fn preserves_in_page_anchor_links() {
    // Within-email anchors (rare but legal) should stay as same-page
    // anchors and NOT get the sentinel prefix. The webview already
    // treats these as in-page navigation, which is fine.
    let dirty = "<a href=\"#section2\">jump</a>";
    let clean = sanitize_html(dirty);
    assert!(clean.contains("href=\"#section2\""));
    assert!(!clean.contains("inboxly-ext"));
}

#[test]
fn extract_ext_url_returns_original() {
    assert_eq!(
        extract_ext_url("#inboxly-ext:https://example.com/foo"),
        Some("https://example.com/foo")
    );
    assert_eq!(
        extract_ext_url("#inboxly-ext:mailto:a@b.com"),
        Some("mailto:a@b.com")
    );
}

#[test]
fn extract_ext_url_returns_none_for_plain_anchor() {
    assert_eq!(extract_ext_url("#section"), None);
    assert_eq!(extract_ext_url("https://example.com"), None);
    assert_eq!(extract_ext_url(""), None);
}

// Sanitiser-level defence in depth.
// The OpenExternalUrl handler also validates the scheme before
// calling open::that(), but this test pins the sanitiser invariant
// so future ammonia upgrades can't silently regress it.

#[test]
fn javascript_url_does_not_round_trip_through_sanitiser() {
    // Round-trip: sanitise <a href="javascript:..."> and then try
    // to extract the original URL via the JS bridge's logic.
    // The result MUST NOT be a javascript: URL.
    let dirty = "<a href=\"javascript:alert(1)\">click</a>";
    let clean = sanitize_html(dirty);

    // ammonia's default scheme allowlist must strip the
    // javascript: URL entirely. After sanitisation, there
    // should be NO trace of the word "javascript".
    assert!(
        !clean.contains("javascript"),
        "javascript: URL leaked through sanitiser: {clean}"
    );

    // Whatever ammonia decided to do with the <a> tag, the
    // result must not contain a sentinel-prefixed URL that
    // unwraps to a javascript: scheme. Find any href in the
    // sanitised output and verify it doesn't unwrap to evil.
    // We do a substring scan since a full HTML parse is overkill.
    for window in clean.split("href=\"").skip(1) {
        if let Some(end) = window.find('"') {
            let href = &window[..end];
            if let Some(unwrapped) = extract_ext_url(href) {
                assert!(
                    !unwrapped.starts_with("javascript:"),
                    "extracted URL is a javascript: scheme: {unwrapped}"
                );
            }
        }
    }
}

#[test]
fn data_url_does_not_round_trip_through_sanitiser() {
    // Same defence for data: URLs (which can encode arbitrary
    // payloads in some browsers — defence in depth).
    let dirty = "<a href=\"data:text/html,<script>alert(1)</script>\">click</a>";
    let clean = sanitize_html(dirty);
    for window in clean.split("href=\"").skip(1) {
        if let Some(end) = window.find('"') {
            let href = &window[..end];
            if let Some(unwrapped) = extract_ext_url(href) {
                assert!(
                    !unwrapped.starts_with("data:"),
                    "extracted URL is a data: scheme: {unwrapped}"
                );
            }
        }
    }
}

#[test]
fn strips_image_src_for_privacy() {
    // Tracking-pixel case: commercial senders embed <img src="tracker.com/..."
    // in emails so they know when users open them. Stripping src makes the
    // image blank (no network request) while preserving alt text and layout.
    let dirty = "<p>Hi</p><img src=\"https://tracker.example.com/pixel.gif?u=alan\" alt=\"tracker\">";
    let clean = sanitize_html(dirty);
    assert!(!clean.contains("tracker.example.com"), "src URL must be gone");
    assert!(!clean.contains("pixel.gif"), "no trace of the tracker path");
    assert!(clean.contains("<p>Hi</p>"), "rest of the body preserved");
    // Alt text is preserved for screen readers — ammonia's default attribute
    // list for <img> keeps alt.
    assert!(clean.contains("alt=\"tracker\"") || clean.contains("<img"));
}

#[test]
fn strips_image_srcset_for_privacy() {
    // srcset is a second channel that responsive images use to point at
    // multiple URLs. Must strip this too or retina-aware trackers still fire.
    let dirty = "<img srcset=\"https://t.com/1x.gif 1x, https://t.com/2x.gif 2x\">";
    let clean = sanitize_html(dirty);
    assert!(!clean.contains("t.com"), "no srcset URLs leak through");
    assert!(!clean.contains("srcset"), "srcset attribute itself gone");
}

#[test]
fn preserves_inline_data_url_images_for_safety() {
    // Inline data: URLs don't phone home — they're embedded bytes.
    // Ammonia's default permits them and our rm_tag_attributes doesn't
    // distinguish schemes, so data: URLs also get stripped. Document
    // that as current behavior; a follow-up can permit data: specifically.
    let dirty = "<img src=\"data:image/png;base64,iVBORw0KGgo=\">";
    let clean = sanitize_html(dirty);
    // Current behavior: strips ALL src, including safe data: URLs.
    // This is a conservative tradeoff — see "Eng Review Decisions" in plan.
    assert!(!clean.contains("data:image"));
}

#[test]
fn rewrite_attribute_prefixes_external_links_only() {
    assert_eq!(
        rewrite_attribute("a", "href", "https://x.org"),
        Some(format!("{EXT_URL_SENTINEL}https://x.org"))
    );
    assert_eq!(rewrite_attribute("a", "href", "#top"), Some("#top".to_string()));
    assert_eq!(rewrite_attribute("a", "title", "https://x.org"), Some("https://x.org".to_string()));
    assert_eq!(rewrite_attribute("img", "href", "https://x.org"), Some("https://x.org".to_string()));
}

#[test]
fn sentinel_round_trip_through_sanitiser() {
    let clean = sanitize_html("<a href=\"https://example.com/a?b=1\">x</a>");
    let start = clean.find("href=\"").unwrap() + 6;
    let end = start + clean[start..].find('"').unwrap();
    let href = &clean[start..end];
    assert_eq!(extract_ext_url(href), Some("https://example.com/a?b=1"));
}
