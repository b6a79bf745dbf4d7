use imgforge::config::source::SourcePattern;

#[test]
fn a_wildcard_stands_for_exactly_one_label() {
    let pattern = SourcePattern::parse("https://*.example.com/");

    assert!(pattern.matches("https://images.example.com/cat.jpg"));
    // Bare domain and multi-label subdomains are both outside the pattern,
    // which is what keeps `*.example.com` from being read as "anything
    // ending in example.com".
    assert!(!pattern.matches("https://example.com/cat.jpg"));
    assert!(!pattern.matches("https://a.b.example.com/cat.jpg"));
    assert!(!pattern.matches("http://images.example.com/cat.jpg"));
    // An attacker-controlled host must not be able to smuggle the suffix
    // into the path.
    assert!(!pattern.matches("https://evil.com/.example.com/cat.jpg"));
}

/// The suffix has to end the authority, not merely appear in it. Without
/// that anchor an attacker registers `example.com.evil.test`, prefixes a
/// label, and is fetched from — which is the whole of the SSRF the allow
/// list exists to prevent.
#[test]
fn a_wildcard_cannot_be_extended_into_another_domain() {
    // Both spellings of the pattern have to hold: only the trailing slash
    // was ever incidentally anchored.
    for spelling in ["https://*.example.com", "https://*.example.com/"] {
        let pattern = SourcePattern::parse(spelling);

        assert!(pattern.matches("https://img.example.com/cat.jpg"), "{spelling}");
        assert!(
            !pattern.matches("https://img.example.com.evil.test/cat.jpg"),
            "{spelling} must not admit a longer domain that merely starts the same way"
        );
        assert!(
            !pattern.matches("https://img.example.com.evil.test/.example.com/x"),
            "{spelling} must not be satisfied by a suffix hidden in the path"
        );
        // `user@host` puts the real host after the authority's `@`, which
        // is the same trick spelled with credentials.
        assert!(
            !pattern.matches("https://img.example.com@evil.test/cat.jpg"),
            "{spelling} must not admit a host smuggled past userinfo"
        );
        // A query or fragment ends the authority just as a slash does.
        assert!(
            !pattern.matches("https://img.example.com.evil.test?a=.example.com"),
            "{spelling} must not be satisfied from the query string"
        );
    }
}

/// An entry with a query is a prefix of the whole URL, query included.
/// Discarding it read `?tenant=public` as "any query or none", which
/// widened the boundary the operator wrote down.
#[test]
fn a_query_in_the_entry_restricts_the_match() {
    let pattern = SourcePattern::parse("https://api.example.test/render?tenant=public");

    assert!(pattern.matches("https://api.example.test/render?tenant=public"));
    // More query after the prefix is more URL after the prefix, which a
    // prefix permits.
    assert!(pattern.matches("https://api.example.test/render?tenant=public&size=2"));
    assert!(!pattern.matches("https://api.example.test/render?tenant=private"));
    assert!(!pattern.matches("https://api.example.test/render"));
    // A query pins the path with it: as a prefix of the raw URL, anything
    // more path would have to come before the `?`, and nothing can.
    assert!(!pattern.matches("https://api.example.test/render/extra?tenant=public"));
    assert!(!pattern.matches("https://api.example.test/other?tenant=public"));

    // An entry without a query keeps its prefix-of-the-path reading and
    // says nothing about the candidate's query.
    let open = SourcePattern::parse("https://api.example.test/render");
    assert!(open.matches("https://api.example.test/render?tenant=private"));
}

/// The literal form needs the same anchoring as the wildcard. Fixing only
/// the wildcard branch left `https://cdn.example.com` — the spelling most
/// operators reach for — matching `cdn.example.com.evil.test`, which is the
/// whole of the SSRF the allow list exists to prevent.
#[test]
fn a_literal_entry_cannot_be_extended_into_another_domain() {
    for spelling in ["https://cdn.example.com", "https://cdn.example.com/"] {
        let pattern = SourcePattern::parse(spelling);

        assert!(pattern.matches("https://cdn.example.com/cat.jpg"), "{spelling}");
        assert!(
            !pattern.matches("https://cdn.example.com.evil.test/cat.jpg"),
            "{spelling} must not admit a longer domain that starts the same way"
        );
        assert!(
            !pattern.matches("https://cdn.example.com@evil.test/cat.jpg"),
            "{spelling} must not admit a host smuggled past userinfo"
        );
        assert!(
            !pattern.matches("https://cdn.example.com.evil.test?a=cdn.example.com"),
            "{spelling} must not be satisfied from the query string"
        );
        // A different scheme is a different origin.
        assert!(!pattern.matches("http://cdn.example.com/cat.jpg"), "{spelling}");
        // A port is part of the authority, so an entry naming none does not
        // match a URL that does.
        assert!(!pattern.matches("https://cdn.example.com:8443/cat.jpg"), "{spelling}");
    }

    // An entry that names a port matches that port.
    let ported = SourcePattern::parse("https://cdn.example.com:8443/");
    assert!(ported.matches("https://cdn.example.com:8443/cat.jpg"));
    assert!(!ported.matches("https://cdn.example.com/cat.jpg"));
}

/// A path prefix has to survive dot segments. `/public/../private/x`
/// satisfies a naive `/public/` prefix while the URL parser resolves the
/// dots and fetches `/private/x` — the check and the request disagreeing
/// about what the URL says, which is the whole shape of this bug class.
#[test]
fn a_path_prefix_cannot_be_escaped_by_traversal() {
    for spelling in ["https://cdn.example.com/public/", "https://*.example.com/public/"] {
        let pattern = SourcePattern::parse(spelling);
        let host = if spelling.contains('*') {
            "img.example.com"
        } else {
            "cdn.example.com"
        };

        assert!(pattern.matches(&format!("https://{host}/public/cat.jpg")), "{spelling}");
        assert!(
            !pattern.matches(&format!("https://{host}/public/../private/secret.png")),
            "{spelling} must not admit a dot-segment escape"
        );
        assert!(
            !pattern.matches(&format!("https://{host}/public/../../etc/passwd")),
            "{spelling} must not admit a deeper escape"
        );
        // Percent-encoded dots resolve the same way once parsed.
        assert!(
            !pattern.matches(&format!("https://{host}/public/%2e%2e/private/secret.png")),
            "{spelling} must not admit an encoded escape"
        );
        // A path that merely contains "..'" in a segment name is not a
        // traversal and stays permitted.
        assert!(
            pattern.matches(&format!("https://{host}/public/a..b/cat.jpg")),
            "{spelling}"
        );
    }
}

/// Hosts are compared case-insensitively, as DNS does.
#[test]
fn host_matching_ignores_case() {
    assert!(SourcePattern::parse("https://cdn.example.com/").matches("https://CDN.Example.COM/cat.jpg"));
    assert!(SourcePattern::parse("https://*.example.com/").matches("https://IMG.Example.com/cat.jpg"));
}

/// A wildcard may also constrain the path, and that half stays a prefix.
#[test]
fn a_wildcard_can_carry_a_path_prefix() {
    let pattern = SourcePattern::parse("https://*.example.com/assets/");

    assert!(pattern.matches("https://img.example.com/assets/cat.jpg"));
    assert!(!pattern.matches("https://img.example.com/private/cat.jpg"));
    assert!(!pattern.matches("https://img.example.com.evil.test/assets/cat.jpg"));
}

#[test]
fn a_plain_pattern_matches_by_prefix() {
    let pattern = SourcePattern::parse("https://cdn.example.com/assets/");
    assert!(pattern.matches("https://cdn.example.com/assets/cat.jpg"));
    assert!(!pattern.matches("https://cdn.example.com/private/cat.jpg"));
}

