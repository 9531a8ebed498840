use rift_app::nl_prefix::nl_request;

#[test]
fn detects_hash_space_prefix() {
    assert_eq!(nl_request("# files changed today"), Some("files changed today"));
}

#[test]
fn ignores_plain_commands() {
    assert_eq!(nl_request("ls -la"), None);
    assert_eq!(nl_request("#nospace"), None);
    assert_eq!(nl_request("echo # mid-line"), None);
}

#[test]
fn ignores_empty_request() {
    assert_eq!(nl_request("#  "), None);
}

#[test]
fn trims_surrounding_whitespace_of_request() {
    assert_eq!(nl_request("#   show disk usage \t\n"), Some("show disk usage"));
    assert_eq!(nl_request("# a"), Some("a"));
}

#[test]
fn prefix_must_start_the_input() {
    assert_eq!(nl_request(" # leading space"), None);
    assert_eq!(nl_request(""), None);
    assert_eq!(nl_request("#"), None);
    assert_eq!(nl_request("# "), None);
}

#[test]
fn keeps_inner_whitespace_and_unicode() {
    assert_eq!(nl_request("# héllo   wörld\u{3000}"), Some("héllo   wörld"));
}
