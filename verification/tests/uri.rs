use nft_pipeline::uri::{resolve_uri, starts_with};

#[test]
fn ipfs_uri_goes_to_gateway() {
    assert_eq!(resolve_uri("ipfs://QmX"), "https://ipfs.io/ipfs/QmX");
    assert_eq!(resolve_uri("ipfs://QmX/1.json"), "https://ipfs.io/ipfs/QmX/1.json");
}

#[test]
fn arweave_uri_goes_to_gateway() {
    assert_eq!(resolve_uri("ar://abc123"), "https://arweave.net/abc123");
}

#[test]
fn other_uri_is_unchanged() {
    assert_eq!(resolve_uri("https://example.com/1.json"), "https://example.com/1.json");
    assert_eq!(resolve_uri("data:application/json,{}"), "data:application/json,{}");
    assert_eq!(resolve_uri(""), "");
}

#[test]
fn empty_path_is_passed_through() {
    assert_eq!(resolve_uri("ipfs://"), "https://ipfs.io/ipfs/");
    assert_eq!(resolve_uri("ar://"), "https://arweave.net/");
}

#[test]
fn scheme_is_case_sensitive_and_untrimmed() {
    assert_eq!(resolve_uri("IPFS://QmX"), "IPFS://QmX");
    assert_eq!(resolve_uri(" ipfs://QmX"), " ipfs://QmX");
    assert_eq!(resolve_uri("ipfs://QmX "), "https://ipfs.io/ipfs/QmX ");
    assert_eq!(resolve_uri("ipfs:/QmX"), "ipfs:/QmX");
}

#[test]
fn only_the_scheme_is_removed() {
    assert_eq!(resolve_uri("ipfs://ipfs://QmX"), "https://ipfs.io/ipfs/ipfs://QmX");
    assert_eq!(resolve_uri("ar://ipfs://QmX"), "https://arweave.net/ipfs://QmX");
}

#[test]
fn non_ascii_paths_are_kept() {
    assert_eq!(resolve_uri("ipfs://Qm/é.json"), "https://ipfs.io/ipfs/Qm/é.json");
}

#[test]
fn resolving_twice_changes_nothing() {
    for uri in ["ipfs://QmX", "ar://abc", "https://example.com/x", "", "ipfs://"] {
        let once = resolve_uri(uri);
        let twice = resolve_uri(&once);
        assert_eq!(once, twice);
    }
}

#[test]
fn prefix_test() {
    assert!(starts_with("ipfs://x", "ipfs://"));
    assert!(starts_with("abc", ""));
    assert!(starts_with("abc", "abc"));
    assert!(!starts_with("ab", "abc"));
    assert!(!starts_with("xbc", "abc"));
}
