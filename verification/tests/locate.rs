use npd::locate::{config_candidates, default_candidates, find_config, join};
use npd::Error;
use std::path::Path;

fn strings(paths: &[&str]) -> Vec<String> {
    paths.iter().map(|p| p.to_string()).collect()
}

#[test]
fn join_puts_one_slash_between() {
    assert_eq!(join("/home/alice", ".mpdconf"), "/home/alice/.mpdconf");
    assert_eq!(join("/home/alice/", ".mpdconf"), "/home/alice/.mpdconf");
    assert_eq!(join("/", "etc"), "/etc");
    assert_eq!(join("", "mpd"), "mpd");
    assert_eq!(join("relative", "mpd"), "relative/mpd");
    assert_eq!(join("/a//", "b"), "/a//b");
}

#[test]
fn join_agrees_with_std() {
    for base in ["/home/alice", "/home/alice/", "/", "", "a", "a/", "/a//", "/\u{fc}ser"] {
        for name in ["mpd", "mpd.conf", ".mpdconf", ".mpd"] {
            assert_eq!(
                join(base, name),
                Path::new(base).join(name).to_str().unwrap(),
                "{:?} {:?}",
                base,
                name
            );
        }
    }
}

#[test]
fn candidates_come_in_order() {
    assert_eq!(
        config_candidates(Some("/home/alice/.config"), Some("/home/alice")),
        strings(&[
            "/home/alice/.config/mpd/mpd.conf",
            "/home/alice/.mpdconf",
            "/home/alice/.mpd/mpd.conf",
            "/etc/mpd.conf",
        ])
    );
}

#[test]
fn unknown_directories_are_left_out() {
    assert_eq!(
        config_candidates(None, Some("/root/")),
        strings(&["/root/.mpdconf", "/root/.mpd/mpd.conf", "/etc/mpd.conf"])
    );
    assert_eq!(
        config_candidates(Some("/xdg"), None),
        strings(&["/xdg/mpd/mpd.conf", "/etc/mpd.conf"])
    );
    assert_eq!(config_candidates(None, None), strings(&["/etc/mpd.conf"]));
}

#[test]
fn default_candidates_end_with_the_system_wide_file() {
    let paths = default_candidates();
    assert!(!paths.is_empty() && paths.len() <= 4);
    assert_eq!(paths[paths.len() - 1], "/etc/mpd.conf");
    for path in &paths {
        assert!(path.ends_with("mpd.conf") || path.ends_with(".mpdconf"), "{:?}", path);
    }
}

#[test]
fn first_present_candidate_is_found() {
    let candidates = strings(&["a", "b", "c"]);
    assert_eq!(find_config(&candidates, &vec![true]), Ok("a".to_string()));
    assert_eq!(find_config(&candidates, &vec![false, true]), Ok("b".to_string()));
    assert_eq!(find_config(&candidates, &vec![false, true, true]), Ok("b".to_string()));
    assert_eq!(find_config(&candidates, &vec![false, false, true]), Ok("c".to_string()));
    assert_eq!(find_config(&candidates, &vec![true, true, true]), Ok("a".to_string()));
}

#[test]
fn no_present_candidate_is_an_error() {
    let candidates = strings(&["a", "b", "c"]);
    assert_eq!(find_config(&candidates, &vec![false, false, false]), Err(Error::ConfigNotFound));
    assert_eq!(find_config(&candidates, &vec![false]), Err(Error::ConfigNotFound));
    assert_eq!(find_config(&candidates, &vec![]), Err(Error::ConfigNotFound));
    assert_eq!(find_config(&candidates, &vec![false, false, false, true]), Err(Error::ConfigNotFound));
    assert_eq!(find_config(&vec![], &vec![true]), Err(Error::ConfigNotFound));
    assert_eq!(Error::ConfigNotFound.message(), "failed to find MPD configuration file");
}
