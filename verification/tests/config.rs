use passthrough::config::{CachePolicy, Config};
use std::str::FromStr;
use std::time::Duration;

#[test]
fn default_config() {
    let c = Config::default();
    assert_eq!(c.entry_timeout, Duration::from_secs(5));
    assert_eq!(c.attr_timeout, Duration::from_secs(5));
    assert_eq!(c.cache_policy, CachePolicy::Auto);
    assert!(!c.writeback);
    assert_eq!(c.root_dir, "/");
    assert!(!c.xattr);
    assert!(c.do_import);
    assert!(!c.no_open);
    assert!(!c.no_opendir);
    assert!(!c.killpriv_v2);
    assert!(!c.inode_file_handles);
}

#[test]
fn config_clone_is_equal() {
    let c = Config { root_dir: String::from("/srv"), xattr: true, ..Config::default() };
    assert_eq!(c.clone(), c);
    assert_ne!(c, Config::default());
}

#[test]
fn policy_names() {
    for s in ["never", "Never", "NEVER", "none", "None", "NONE"] {
        assert_eq!(CachePolicy::from_str(s), Ok(CachePolicy::Never));
    }
    for s in ["auto", "Auto", "AUTO"] {
        assert_eq!(s.parse::<CachePolicy>(), Ok(CachePolicy::Auto));
    }
    for s in ["always", "Always", "ALWAYS"] {
        assert_eq!(CachePolicy::from_str(s), Ok(CachePolicy::Always));
    }
}

#[test]
fn policy_names_that_are_none() {
    for s in ["", "aUTO", "auto ", "neverr", "nev", "alway\u{15f}", "\u{0}"] {
        assert_eq!(CachePolicy::from_str(s), Err("invalid cache policy"));
    }
}

#[test]
fn default_policy() {
    assert_eq!(CachePolicy::default(), CachePolicy::Auto);
}
