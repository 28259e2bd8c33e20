use std::borrow::Cow;

use delta_hyperlinks::commit_pattern::CommitLineRegex;
use delta_hyperlinks::git_config::{
    get_remote_url, GitConfig, GitConfigEntry, GitRemote, GitRemoteRepo, GitRepo,
};
use delta_hyperlinks::hyperlinks::{
    format_commit_line_with_osc8_commit_hyperlink, format_osc8_file_hyperlink, make_feature,
    Config, OptionValue,
};
use delta_hyperlinks::osc8::format_osc8_hyperlink;

const H: &str = "342016d0a69d8361dc17396d9a441704416eb7bb";
const H2: &str = "0123456789abcdef0123456789abcdef01234567";

fn osc8(url: &str, text: &str) -> String {
    format!("\x1b]8;;{}\x1b\\{}\x1b]8;;\x1b\\", url, text)
}

fn remote(name: &str, url: Option<&str>, parsed: Option<GitRemoteRepo>) -> GitRemote {
    GitRemote {
        name: name.to_string(),
        url: url.map(|u| u.to_string()),
        parsed_url: parsed,
    }
}

fn github_config(repo: &str) -> GitConfig {
    GitConfig {
        repo: Some(GitRepo {
            remotes: vec![remote(
                "origin",
                Some("git@github.com:x/y.git"),
                Some(GitRemoteRepo::GitHubRepo(repo.to_string())),
            )],
        }),
    }
}

fn config(
    commit_format: Option<&str>,
    git_config: Option<GitConfig>,
    entries: Vec<(String, GitConfigEntry)>,
) -> Config {
    Config {
        hyperlinks_commit_link_format: commit_format.map(|f| f.to_string()),
        hyperlinks_file_link_format: "file://{path}#{line}".to_string(),
        git_config,
        git_config_entries: entries,
        commit_line_regex: CommitLineRegex::new(),
    }
}

fn workdir_entries(dir: &str) -> Vec<(String, GitConfigEntry)> {
    vec![(
        "delta.__workdir__".to_string(),
        GitConfigEntry::Path(dir.to_string()),
    )]
}

#[test]
fn test_commit_hyperlink_honors_insteadof() {
    let git_config = GitConfig {
        repo: Some(GitRepo {
            remotes: vec![remote(
                "origin",
                Some("github:dandavison/delta"),
                Some(GitRemoteRepo::GitHubRepo("dandavison/delta".to_string())),
            )],
        }),
    };
    let config = config(None, Some(git_config), vec![]);
    let line = format!("commit {}", H);
    let formatted = format_commit_line_with_osc8_commit_hyperlink(&line, &config);
    assert!(formatted.contains(&format!(
        "https://github.com/dandavison/delta/commit/{}",
        H
    )));
}

#[test]
fn commit_line_with_template() {
    let config = config(Some("http://x/{commit}"), None, vec![]);
    let line = format!("commit {}", H);
    let formatted = format_commit_line_with_osc8_commit_hyperlink(&line, &config);
    assert_eq!(
        formatted,
        format!("commit {}", osc8(&format!("http://x/{}", H), H))
    );
}

#[test]
fn commit_line_with_github_remote() {
    let config = config(None, Some(github_config("owner/repo")), vec![]);
    let line = format!("commit {}", H);
    let formatted = format_commit_line_with_osc8_commit_hyperlink(&line, &config);
    assert_eq!(
        formatted,
        format!(
            "commit {}",
            osc8(&format!("https://github.com/owner/repo/commit/{}", H), H)
        )
    );
}

#[test]
fn commit_line_template_wins_over_remote() {
    let config = config(Some("http://x/{commit}"), Some(github_config("owner/repo")), vec![]);
    let line = format!("commit {} (HEAD)", H);
    let formatted = format_commit_line_with_osc8_commit_hyperlink(&line, &config);
    assert_eq!(
        formatted,
        format!("commit {} (HEAD)", osc8(&format!("http://x/{}", H), H))
    );
}

#[test]
fn commit_line_empty_template_falls_back_to_remote() {
    let config = config(Some(""), Some(github_config("owner/repo")), vec![]);
    let line = format!("commit {}", H);
    let formatted = format_commit_line_with_osc8_commit_hyperlink(&line, &config);
    assert_eq!(
        formatted,
        format!(
            "commit {}",
            osc8(&format!("https://github.com/owner/repo/commit/{}", H), H)
        )
    );
}

#[test]
fn commit_line_without_link_source_is_unchanged() {
    let config = config(None, None, vec![]);
    let line = format!("commit {}", H);
    let formatted = format_commit_line_with_osc8_commit_hyperlink(&line, &config);
    assert_eq!(formatted, line);
    assert!(matches!(formatted, Cow::Borrowed(_)));
}

#[test]
fn commit_line_with_unsupported_remote_is_unchanged() {
    let git_config = GitConfig {
        repo: Some(GitRepo {
            remotes: vec![remote(
                "origin",
                Some("https://gitlab.com/a/b"),
                Some(GitRemoteRepo::Unsupported("a/b".to_string())),
            )],
        }),
    };
    let config = config(None, Some(git_config), vec![]);
    let line = format!("commit {}", H);
    assert_eq!(format_commit_line_with_osc8_commit_hyperlink(&line, &config), line);
}

#[test]
fn commit_line_without_hash_is_unchanged() {
    let config = config(Some("http://x/{commit}"), Some(github_config("o/r")), vec![]);
    for line in ["", "commit 342016d0a69d", "diff --git a/x b/x", "commit 342016D0A69D8361DC17396D9A441704416EB7BB"] {
        let formatted = format_commit_line_with_osc8_commit_hyperlink(line, &config);
        assert_eq!(formatted, line);
        assert!(matches!(formatted, Cow::Borrowed(_)));
    }
}

#[test]
fn commit_hash_needs_a_space_before_it() {
    let config = config(Some("http://x/{commit}"), None, vec![]);
    let line = format!("commit:{}", H);
    assert_eq!(format_commit_line_with_osc8_commit_hyperlink(&line, &config), line);
    let line = H.to_string();
    assert_eq!(format_commit_line_with_osc8_commit_hyperlink(&line, &config), line);
}

#[test]
fn commit_line_links_only_the_last_hash() {
    let config = config(Some("http://x/{commit}"), None, vec![]);
    let line = format!("merge {} {} end", H, H2);
    let formatted = format_commit_line_with_osc8_commit_hyperlink(&line, &config);
    assert_eq!(
        formatted,
        format!("merge {} {} end", H, osc8(&format!("http://x/{}", H2), H2))
    );
    let line = format!("{} {}", H, H2);
    let formatted = format_commit_line_with_osc8_commit_hyperlink(&line, &config);
    assert_eq!(
        formatted,
        format!("{} {}", H, osc8(&format!("http://x/{}", H2), H2))
    );
}

#[test]
fn commit_line_match_stays_on_the_first_line() {
    let config = config(Some("http://x/{commit}"), None, vec![]);
    let line = format!("a {}\nb {}", H, H2);
    let formatted = format_commit_line_with_osc8_commit_hyperlink(&line, &config);
    assert_eq!(
        formatted,
        format!("a {}\nb {}", osc8(&format!("http://x/{}", H), H), H2)
    );
}

#[test]
fn commit_hash_in_a_longer_hex_run() {
    let config = config(Some("http://x/{commit}"), None, vec![]);
    let line = format!("commit {}ff", H);
    let formatted = format_commit_line_with_osc8_commit_hyperlink(&line, &config);
    assert_eq!(
        formatted,
        format!("commit {}ff", osc8(&format!("http://x/{}", H), H))
    );
}

#[test]
fn template_placeholder_replaced_everywhere() {
    let config = config(Some("http://x/{commit}?c={commit}"), None, vec![]);
    let line = format!("commit {}", H);
    let formatted = format_commit_line_with_osc8_commit_hyperlink(&line, &config);
    assert_eq!(
        formatted,
        format!("commit {}", osc8(&format!("http://x/{}?c={}", H, H), H))
    );
}

#[test]
fn remote_url_needs_a_repository() {
    assert!(get_remote_url(&GitConfig { repo: None }).is_none());
}

#[test]
fn remote_url_needs_origin() {
    let gc = GitConfig {
        repo: Some(GitRepo {
            remotes: vec![remote(
                "upstream",
                Some("x"),
                Some(GitRemoteRepo::GitHubRepo("a/b".to_string())),
            )],
        }),
    };
    assert!(get_remote_url(&gc).is_none());
}

#[test]
fn remote_url_needs_a_url() {
    let gc = GitConfig {
        repo: Some(GitRepo {
            remotes: vec![remote(
                "origin",
                None,
                Some(GitRemoteRepo::GitHubRepo("a/b".to_string())),
            )],
        }),
    };
    assert!(get_remote_url(&gc).is_none());
}

#[test]
fn remote_url_needs_a_parsed_url() {
    let gc = GitConfig {
        repo: Some(GitRepo {
            remotes: vec![remote("origin", Some("not a url"), None)],
        }),
    };
    assert!(get_remote_url(&gc).is_none());
}

#[test]
fn remote_url_takes_the_origin_remote() {
    let gc = GitConfig {
        repo: Some(GitRepo {
            remotes: vec![
                remote(
                    "upstream",
                    Some("u"),
                    Some(GitRemoteRepo::GitHubRepo("up/stream".to_string())),
                ),
                remote(
                    "origin",
                    Some("o"),
                    Some(GitRemoteRepo::GitHubRepo("own/fork".to_string())),
                ),
            ],
        }),
    };
    match get_remote_url(&gc) {
        Some(GitConfigEntry::GitRemote(GitRemoteRepo::GitHubRepo(repo))) => {
            assert_eq!(repo, "own/fork")
        }
        _ => panic!("origin should resolve"),
    }
}

#[test]
fn file_link_without_workdir_is_the_path() {
    let config = config(None, None, vec![]);
    let formatted = format_osc8_file_hyperlink("a.txt", Some(42), "shown", &config);
    assert_eq!(formatted, "a.txt");
    assert!(matches!(formatted, Cow::Borrowed(_)));
    let entries = vec![(
        "delta.__workdir__".to_string(),
        GitConfigEntry::GitRemote(GitRemoteRepo::GitHubRepo("a/b".to_string())),
    )];
    let config = self::config(None, None, entries);
    assert_eq!(format_osc8_file_hyperlink("a.txt", None, "shown", &config), "a.txt");
}

#[test]
fn file_link_with_line_number() {
    let config = config(None, None, workdir_entries("/repo"));
    let formatted = format_osc8_file_hyperlink("a.txt", Some(42), "shown", &config);
    assert_eq!(formatted, osc8("file:///repo/a.txt#42", "shown"));
}

#[test]
fn file_link_without_line_number() {
    let config = config(None, None, workdir_entries("/repo"));
    let formatted = format_osc8_file_hyperlink("a.txt", None, "shown", &config);
    assert_eq!(formatted, osc8("file:///repo/a.txt#", "shown"));
}

#[test]
fn file_link_joins_paths() {
    let config = config(None, None, workdir_entries("/repo/"));
    let formatted = format_osc8_file_hyperlink("src/a.rs", Some(0), "a.rs", &config);
    assert_eq!(formatted, osc8("file:///repo/src/a.rs#0", "a.rs"));
    let formatted = format_osc8_file_hyperlink("/etc/hosts", Some(7), "hosts", &config);
    assert_eq!(formatted, osc8("file:///etc/hosts#7", "hosts"));
}

#[test]
fn file_link_large_line_number() {
    let mut config = config(None, None, workdir_entries("/r"));
    config.hyperlinks_file_link_format = "editor://open?file={path}&line={line}".to_string();
    let formatted = format_osc8_file_hyperlink("x", Some(18446744073709551615), "x", &config);
    assert_eq!(
        formatted,
        osc8("editor://open?file=/r/x&line=18446744073709551615", "x")
    );
}

#[test]
fn osc8_envelope() {
    assert_eq!(
        format_osc8_hyperlink("http://a", "b"),
        "\x1b]8;;http://a\x1b\\b\x1b]8;;\x1b\\"
    );
    let r = format_osc8_hyperlink("", "");
    assert_eq!(r, "\x1b]8;;\x1b\\\x1b]8;;\x1b\\");
    let r = format_osc8_hyperlink("u://x", "text");
    assert!(r.starts_with("\x1b]8;;"));
    assert_eq!(&r[5..10], "u://x");
    assert_eq!(&r[10..12], "\x1b\\");
    assert!(r.ends_with("\x1b]8;;\x1b\\"));
}

#[test]
fn hyperlinks_feature_turns_option_on() {
    let feature = make_feature();
    assert_eq!(feature.len(), 1);
    assert_eq!(feature[0].0, "hyperlinks");
    assert!(matches!(feature[0].1, OptionValue::Boolean(true)));
}
