//! Hyperlinking commit hashes and file paths.

use std::borrow::Cow;
use vstd::prelude::*;
use crate::commit_pattern::{captured_hash_at, hash_at, is_commit_hex, lemma_captured_unique, CommitCaptures, CommitLineRegex};
use crate::git_config::{find_entry, get_remote_url, github_repo_of, position_of_entry, GitConfig, GitConfigEntry, GitRemoteRepo};
use crate::osc8::{format_osc8_hyperlink, osc8};
use crate::text::{decimal, join_path, join_paths, replace_all, replace_str, usize_to_decimal};

verus! {

/// The settings the formatters read.
pub struct Config {
    /// A URL template with a `{commit}` placeholder.
    pub hyperlinks_commit_link_format: Option<String>,
    /// A URL template with `{path}` and `{line}` placeholders.
    pub hyperlinks_file_link_format: String,
    pub git_config: Option<GitConfig>,
    /// The entry mapping; the first entry under a key is its value.
    pub git_config_entries: Vec<(String, GitConfigEntry)>,
    pub commit_line_regex: CommitLineRegex,
}

/// The key under which the repository's working directory is stored.
pub open spec fn workdir_key() -> Seq<char> {
    "delta.__workdir__"@
}

/// The value an option takes when a feature is turned on.
pub enum OptionValue {
    Boolean(bool),
}

/// The `hyperlinks` feature: it turns the `hyperlinks` option on.
pub fn make_feature() -> (r: Vec<(String, OptionValue)>)
    ensures
        r@.len() == 1,
        r@[0].0@ == "hyperlinks"@,
        r@[0].1 == OptionValue::Boolean(true),
{
    let mut r: Vec<(String, OptionValue)> = Vec::new();
    r.push((String::from_str("hyperlinks"), OptionValue::Boolean(true)));
    r
}

/// `https://github.com/<repo>/commit/<commit>`.
pub open spec fn github_commit_url(commit: Seq<char>, repo: Seq<char>) -> Seq<char> {
    "https://github.com/"@ + repo + "/commit/"@ + commit
}

/// A non-empty commit URL template is configured.
pub open spec fn has_commit_template(config: Config) -> bool {
    match config.hyperlinks_commit_link_format {
        Some(format) => format@.len() > 0,
        None => false,
    }
}

/// The URL a commit links to: the configured template, if non-empty, with the
/// hash put in; else the GitHub page of the `origin` repository; else none.
pub open spec fn commit_url(config: Config, commit: Seq<char>) -> Option<Seq<char>> {
    match config.hyperlinks_commit_link_format {
        Some(format) if format@.len() > 0 => Some(replace_all(format@, "{commit}"@, commit)),
        _ => match github_repo_of(config.git_config) {
            Some(repo) => Some(github_commit_url(commit, repo)),
            None => None,
        },
    }
}

/// `s` with the 40 characters at `p` wrapped in a hyperlink to `url`.
pub open spec fn link_at(s: Seq<char>, p: int, url: Seq<char>) -> Seq<char> {
    s.subrange(0, p) + osc8(url, s.subrange(p, p + 40)) + s.subrange(p + 40, s.len() as int)
}

/// A line with its captured hash linked, when there is a hash and a URL for it.
pub open spec fn formatted_commit_line(s: Seq<char>, config: Config) -> Seq<char> {
    if exists|p: int| captured_hash_at(s, p) {
        let p = choose|p: int| captured_hash_at(s, p);
        match commit_url(config, s.subrange(p, p + 40)) {
            Some(url) => link_at(s, p, url),
            None => s,
        }
    } else {
        s
    }
}

/// The working directory, when the entry mapping holds it as a path.
pub open spec fn workdir_of(config: Config) -> Option<Seq<char>> {
    match find_entry(config.git_config_entries@, workdir_key()) {
        Some(GitConfigEntry::Path(dir)) => Some(dir@),
        _ => None,
    }
}

/// The file template with `{path}` replaced by the absolute path, then
/// `{line}` by the line number, or by nothing when there is none.
pub open spec fn file_url(
    format: Seq<char>,
    workdir: Seq<char>,
    relative_path: Seq<char>,
    line_number: Option<usize>,
) -> Seq<char> {
    let url = replace_all(format, "{path}"@, join_path(workdir, relative_path));
    match line_number {
        Some(n) => replace_all(url, "{line}"@, decimal(n as nat)),
        None => replace_all(url, "{line}"@, Seq::empty()),
    }
}

/// Links `text` to `relative_path` under the working directory; without a
/// working directory, gives `relative_path` itself.
pub open spec fn formatted_file_link(
    relative_path: Seq<char>,
    line_number: Option<usize>,
    text: Seq<char>,
    config: Config,
) -> Seq<char> {
    match workdir_of(config) {
        Some(dir) => osc8(
            file_url(config.hyperlinks_file_link_format@, dir, relative_path, line_number),
            text,
        ),
        None => relative_path,
    }
}

/// The GitHub page of `commit` in `github_repo`.
fn format_github_commit_url(commit: &str, github_repo: &str) -> (r: String)
    ensures
        r@ == github_commit_url(commit@, github_repo@),
{
    let mut r = String::from_str("https://github.com/");
    r.append(github_repo);
    r.append("/commit/");
    r.append(commit);
    r
}

/// `head`, the hash linked to `url`, `tail`.
fn link_captures(captures: &CommitCaptures, url: &str) -> (r: String)
    ensures
        r@ == captures.head@ + osc8(url@, captures.commit@) + captures.tail@,
{
    let link = format_osc8_hyperlink(url, captures.commit.as_str());
    let mut r = captures.head.clone();
    r.append(link.as_str());
    r.append(captures.tail.as_str());
    r
}

/// The line the captures were cut from, with its hash linked to the hash's
/// page on GitHub.
pub fn format_commit_line_captures_with_osc8_commit_hyperlink(
    captures: &CommitCaptures,
    github_repo: &str,
) -> (r: String)
    ensures
        r@ == captures.head@ + osc8(github_commit_url(captures.commit@, github_repo@), captures.commit@)
            + captures.tail@,
{
    let url = format_github_commit_url(captures.commit.as_str(), github_repo);
    link_captures(captures, url.as_str())
}

proof fn lemma_linked_captures(line: Seq<char>, config: Config, c: CommitCaptures, url: Seq<char>)
    requires
        c.splits(line),
        commit_url(config, c.commit@) == Some(url),
    ensures
        formatted_commit_line(line, config) == c.head@ + osc8(url, c.commit@) + c.tail@,
{
    let p = c.head@.len() as int;
    let q = choose|q: int| captured_hash_at(line, q);
    lemma_captured_unique(line, p, q);
}

/// The 40 characters from `i` on are lowercase hexadecimal digits.
pub open spec fn hex_run_at(s: Seq<char>, i: int) -> bool {
    forall|k: int| i <= k < i + 40 ==> is_commit_hex(#[trigger] s[k])
}

/// No run of 40 lowercase hexadecimal digits stands anywhere in `s`.
pub open spec fn has_no_hex_run(s: Seq<char>) -> bool {
    forall|i: int| 0 <= i && i + 40 <= s.len() ==> !#[trigger] hex_run_at(s, i)
}

/// A line without 40 hexadecimal digits in a row is never changed, whatever
/// the configuration.
pub proof fn lemma_line_without_hash_unchanged(line: Seq<char>, config: Config)
    requires
        has_no_hex_run(line),
    ensures
        formatted_commit_line(line, config) == line,
{
    assert forall|p: int| !hash_at(line, p) by {
        if hash_at(line, p) {
            assert(hex_run_at(line, p));
        }
    }
    lemma_uncaptured_line(line, config);
}

/// On a single line, the last hash is the one linked: everything before it,
/// earlier hashes included, stays literal text.
pub proof fn lemma_last_hash_linked(line: Seq<char>, config: Config, p: int)
    requires
        forall|k: int| 0 <= k < line.len() ==> line[k] != '\n',
        hash_at(line, p),
        forall|q: int| p < q ==> !hash_at(line, q),
        commit_url(config, line.subrange(p, p + 40)) is Some,
    ensures
        formatted_commit_line(line, config) == link_at(
            line,
            p,
            commit_url(config, line.subrange(p, p + 40))->0,
        ),
        formatted_commit_line(line, config).subrange(0, p) == line.subrange(0, p),
{
    assert(captured_hash_at(line, p));
    let q = choose|q: int| captured_hash_at(line, q);
    lemma_captured_unique(line, p, q);
    let r = formatted_commit_line(line, config);
    assert(r.subrange(0, p) =~= line.subrange(0, p));
}

proof fn lemma_uncaptured_line(line: Seq<char>, config: Config)
    requires
        forall|p: int| !hash_at(line, p),
    ensures
        formatted_commit_line(line, config) == line,
{
    if exists|p: int| captured_hash_at(line, p) {
        let p = choose|p: int| captured_hash_at(line, p);
        assert(hash_at(line, p));
    }
}

/// Links the commit hash of `line` (see `formatted_commit_line`); the line
/// comes back borrowed where nothing is linked.
pub fn format_commit_line_with_osc8_commit_hyperlink<'a>(line: &'a str, config: &Config) -> (r:
    Cow<'a, str>)
    ensures
        r@ == formatted_commit_line(line@, *config),
        (forall|p: int| !hash_at(line@, p)) ==> r@ == line@,
        !has_commit_template(*config) && github_repo_of(config.git_config) is None ==> r@ == line@,
{
    let template_set = match &config.hyperlinks_commit_link_format {
        Some(format) => format.as_str().unicode_len() > 0,
        None => false,
    };
    if template_set {
        let format = config.hyperlinks_commit_link_format.as_ref().unwrap();
        match config.commit_line_regex.captures(line) {
            Some(c) => {
                proof {
                    reveal_strlit("{commit}");
                }
                let url = replace_str(format.as_str(), "{commit}", c.commit.as_str());
                proof {
                    lemma_linked_captures(line@, *config, c, url@);
                }
                Cow::Owned(link_captures(&c, url.as_str()))
            },
            None => {
                proof {
                    lemma_uncaptured_line(line@, *config);
                }
                Cow::Borrowed(line)
            },
        }
    } else {
        let entry = match &config.git_config {
            Some(gc) => get_remote_url(gc),
            None => None,
        };
        match entry {
            Some(GitConfigEntry::GitRemote(GitRemoteRepo::GitHubRepo(repo))) => {
                match config.commit_line_regex.captures(line) {
                    Some(c) => {
                        proof {
                            lemma_linked_captures(
                                line@,
                                *config,
                                c,
                                github_commit_url(c.commit@, repo@),
                            );
                        }
                        Cow::Owned(
                            format_commit_line_captures_with_osc8_commit_hyperlink(
                                &c,
                                repo.as_str(),
                            ),
                        )
                    },
                    None => {
                        proof {
                            lemma_uncaptured_line(line@, *config);
                        }
                        Cow::Borrowed(line)
                    },
                }
            },
            _ => Cow::Borrowed(line),
        }
    }
}

/// Links `text` to the file `relative_path` (see `formatted_file_link`).
pub fn format_osc8_file_hyperlink<'a>(
    relative_path: &'a str,
    line_number: Option<usize>,
    text: &str,
    config: &Config,
) -> (r: Cow<'a, str>)
    ensures
        r@ == formatted_file_link(relative_path@, line_number, text@, *config),
        workdir_of(*config) is None ==> r@ == relative_path@,
{
    let key = String::from_str("delta.__workdir__");
    match position_of_entry(&config.git_config_entries, &key) {
        Some(i) => match &config.git_config_entries[i].1 {
            GitConfigEntry::Path(workdir) => {
                proof {
                    reveal_strlit("{path}");
                    reveal_strlit("{line}");
                    reveal_strlit("");
                }
                let absolute_path = join_paths(workdir.as_str(), relative_path);
                let url = replace_str(
                    config.hyperlinks_file_link_format.as_str(),
                    "{path}",
                    absolute_path.as_str(),
                );
                let url = match line_number {
                    Some(n) => {
                        let digits = usize_to_decimal(n);
                        replace_str(url.as_str(), "{line}", digits.as_str())
                    },
                    None => {
                        let nothing = "";
                        assert(nothing@ == Seq::<char>::empty());
                        replace_str(url.as_str(), "{line}", nothing)
                    },
                };
                Cow::Owned(format_osc8_hyperlink(url.as_str(), text))
            },
            _ => Cow::Borrowed(relative_path),
        },
        None => Cow::Borrowed(relative_path),
    }
}

} // verus!
