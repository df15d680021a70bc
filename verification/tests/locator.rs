use clipsync::locator::{decimal, locator_shaped};

#[test]
fn locators_have_scheme_host_and_port() {
    for address in [
        "http://127.0.0.1:8089",
        "https://example.com:443",
        "http://[::1]:8089",
        "a://b:0",
        "http://user@host:80",
        "http://exa mple.com:1",
    ] {
        assert!(locator_shaped(address), "{}", address);
    }
}

#[test]
fn scheme_host_and_port_are_all_needed() {
    for address in [
        "",
        "localhost",
        "127.0.0.1:8089",
        "host:80",
        "http://host",
        "/",
        "*",
        "://host:80",
        "http://:80",
        "http://host:",
        "http://",
        "http:/host:80",
        "http//host:80",
        "/http://host:80",
    ] {
        assert!(!locator_shaped(address), "{}", address);
    }
}

#[test]
fn the_port_is_decimal_and_ends_the_text() {
    for address in [
        "http://host:8o",
        "http://host:-1",
        "http://host:80/",
        "http://host:80/path",
        "http://host:80 ",
        "http://host:٣",
        "http://host/path:80",
        "http://a/b:80",
    ] {
        assert!(!locator_shaped(address), "{}", address);
    }
}

#[test]
fn decimal_digits() {
    for c in '0'..='9' {
        assert!(decimal(c));
    }
    for c in ['/', ':', 'a', ' ', '٣', '²'] {
        assert!(!decimal(c));
    }
}
