use vaieart_services::config::paths::{config_directory, local_config_path};
use vaieart_services::deploy::remote::{remote_child, rsync_host, rsync_source, sh_quote};
use vaieart_services::env::EnvVars;
use vaieart_services::deploy::rendered_paths_for_output_dir;
use vaieart_services::process::{program_lookup, ProgramLookup};
use vaieart_services::text::{
    join_strings, str_less, str_replace_char, str_trim, u64_to_decimal, unique_strings,
};

fn strings(items: &[&str]) -> Vec<String> {
    items.iter().map(|s| s.to_string()).collect()
}

#[test]
fn env_insert_then_lookup_reads_back_the_value() {
    let mut env = EnvVars::new();
    env.insert("PORT".to_string(), "3000".to_string());
    env.insert("HOST".to_string(), "0.0.0.0".to_string());
    env.insert("PORT".to_string(), "4000".to_string());
    assert_eq!(env.get("PORT").map(String::as_str), Some("4000"));
    assert_eq!(env.get("HOST").map(String::as_str), Some("0.0.0.0"));
    assert_eq!(env.get("NONE"), None);
    assert_eq!(env.len(), 2);
    let (k, v) = env.entry(0);
    assert_eq!((k.as_str(), v.as_str()), ("HOST", "0.0.0.0"));
}

#[test]
fn env_insert_if_absent_keeps_what_is_set() {
    let mut env = EnvVars::new();
    env.insert("HOST".to_string(), "0.0.0.0".to_string());
    env.insert_if_absent("HOST".to_string(), "127.0.0.1".to_string());
    env.insert_if_absent("PORT".to_string(), "3000".to_string());
    assert_eq!(env.get("HOST").map(String::as_str), Some("0.0.0.0"));
    assert_eq!(env.get("PORT").map(String::as_str), Some("3000"));
    let copy = env.duplicate();
    assert_eq!(copy.len(), 2);
    assert_eq!(copy.get("PORT").map(String::as_str), Some("3000"));
}

#[test]
fn dedupe_keeps_first_occurrences_once() {
    assert_eq!(unique_strings(&strings(&["b", "a", "b", "c", "a"])), strings(&["b", "a", "c"]));
    assert!(unique_strings(&Vec::new()).is_empty());
}

#[test]
fn trimming_and_replacing() {
    assert_eq!(str_trim("\u{3000} x y \n"), "x y");
    assert_eq!(str_trim("   "), "");
    assert_eq!(str_replace_char("a'b'c", '\'', "''"), "a''b''c");
    assert_eq!(join_strings(&strings(&["a", "b", "c"]), ", "), "a, b, c");
    assert_eq!(u64_to_decimal(0), "0");
    assert_eq!(u64_to_decimal(40000), "40000");
    assert!(str_less("vaieart-a.service", "vaieart-b.service"));
    assert!(str_less("ab", "abc"));
    assert!(!str_less("abc", "abc"));
}

#[test]
fn paths_join_like_the_host() {
    let paths = rendered_paths_for_output_dir("/work/site/");
    assert_eq!(paths.caddyfile, "/work/site/Caddyfile");
    assert_eq!(paths.systemd_dir, "/work/site/systemd");
    match program_lookup("./build", &Some("/work/site".to_string()), false) {
        ProgramLookup::AtPath(p) => assert_eq!(p, "/work/site/./build"),
        ProgramLookup::OnSearchPath(_) => panic!("relative program"),
    }
    match program_lookup("/abs/build", &Some("/work/site".to_string()), false) {
        ProgramLookup::AtPath(p) => assert_eq!(p, "/abs/build"),
        ProgramLookup::OnSearchPath(_) => panic!("absolute program"),
    }
}

#[test]
fn config_paths_use_the_config_directory() {
    assert_eq!(config_directory("/work/site/services.toml"), "/work/site");
    assert_eq!(config_directory("services.toml"), ".");
    assert_eq!(local_config_path("/work/site/services.toml"), "/work/site/services.local.toml");
    assert_eq!(local_config_path("conf/prod.toml"), "conf/prod.local.toml");
}

#[test]
fn remote_paths_have_one_separator() {
    assert_eq!(remote_child("/tmp/x/", "/sync"), "/tmp/x/sync");
    assert_eq!(remote_child("/tmp/x", "sync"), "/tmp/x/sync");
    assert_eq!(rsync_source("/work/site/build", true), "/work/site/build/");
    assert_eq!(rsync_source("/work/site/build/", true), "/work/site/build/");
    assert_eq!(rsync_source("/work/site/Caddyfile", false), "/work/site/Caddyfile");
}

#[test]
fn rsync_brackets_ipv6_hosts_once() {
    assert_eq!(rsync_host("2001:db8::1"), "[2001:db8::1]");
    assert_eq!(rsync_host("[2001:db8::1]"), "[2001:db8::1]");
    assert_eq!(rsync_host("vaie.art"), "vaie.art");
    assert_eq!(sh_quote("a b"), "'a b'");
    assert_eq!(sh_quote("plain"), "plain");
}
