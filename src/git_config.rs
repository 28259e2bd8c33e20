//! What the hyperlink formatters read of git's metadata: the configuration
//! entries and the `origin` remote.

use vstd::prelude::*;

verus! {

/// A hosting provider's identifier for a remote repository.
pub enum GitRemoteRepo {
    /// A GitHub repository, as `owner/name`.
    GitHubRepo(String),
    /// A repository on a host that no fallback URL is built for.
    Unsupported(String),
}

impl GitRemoteRepo {
    /// A copy with the same variant and text.
    pub fn duplicate(&self) -> (r: GitRemoteRepo)
        ensures
            r == *self,
    {
        match self {
            GitRemoteRepo::GitHubRepo(s) => GitRemoteRepo::GitHubRepo(s.clone()),
            GitRemoteRepo::Unsupported(s) => GitRemoteRepo::Unsupported(s.clone()),
        }
    }
}

/// A value of the configuration's entry mapping.
pub enum GitConfigEntry {
    /// A filesystem path, such as the repository's working directory.
    Path(String),
    /// A resolved remote repository.
    GitRemote(GitRemoteRepo),
}

/// A remote of the repository, with what the remote-URL parser (which applies
/// the repository's `insteadOf` rewriting) made of its URL.
pub struct GitRemote {
    pub name: String,
    pub url: Option<String>,
    pub parsed_url: Option<GitRemoteRepo>,
}

/// An open repository: its remotes, in the order git lists them.
pub struct GitRepo {
    pub remotes: Vec<GitRemote>,
}

/// The git metadata handle: `repo` is `None` where no repository is available.
pub struct GitConfig {
    pub repo: Option<GitRepo>,
}

/// The first remote in `remotes` whose name is `name`.
pub open spec fn find_remote(remotes: Seq<GitRemote>, name: Seq<char>) -> Option<GitRemote>
    decreases remotes.len(),
{
    if remotes.len() == 0 {
        None
    } else if remotes[0].name@ == name {
        Some(remotes[0])
    } else {
        find_remote(remotes.drop_first(), name)
    }
}

/// The entry that the `origin` remote resolves to, if any: it must exist,
/// have a URL, and that URL must have parsed.
pub open spec fn remote_entry(git_config: GitConfig) -> Option<GitConfigEntry> {
    match git_config.repo {
        None => None,
        Some(repo) => match find_remote(repo.remotes@, "origin"@) {
            Some(remote) => if remote.url is Some {
                match remote.parsed_url {
                    Some(parsed) => Some(GitConfigEntry::GitRemote(parsed)),
                    None => None,
                }
            } else {
                None
            },
            None => None,
        },
    }
}

/// The `owner/name` of the GitHub repository that `origin` resolves to.
pub open spec fn github_repo_of(git_config: Option<GitConfig>) -> Option<Seq<char>> {
    match git_config {
        Some(gc) => match remote_entry(gc) {
            Some(GitConfigEntry::GitRemote(GitRemoteRepo::GitHubRepo(repo))) => Some(repo@),
            _ => None,
        },
        None => None,
    }
}

/// The first value stored under `key`.
pub open spec fn find_entry(entries: Seq<(String, GitConfigEntry)>, key: Seq<char>) -> Option<
    GitConfigEntry,
>
    decreases entries.len(),
{
    if entries.len() == 0 {
        None
    } else if entries[0].0@ == key {
        Some(entries[0].1)
    } else {
        find_entry(entries.drop_first(), key)
    }
}

/// The index of the first remote named `name`.
fn position_of_remote(remotes: &Vec<GitRemote>, name: &String) -> (r: Option<usize>)
    ensures
        match r {
            Some(i) => i < remotes@.len() && find_remote(remotes@, name@) == Some(remotes@[i as int]),
            None => find_remote(remotes@, name@) is None,
        },
{
    let mut i: usize = 0;
    assert(remotes@.subrange(0, remotes@.len() as int) =~= remotes@);
    while i < remotes.len()
        invariant
            i <= remotes@.len(),
            find_remote(remotes@, name@) == find_remote(remotes@.subrange(i as int, remotes@.len() as int), name@),
        decreases remotes@.len() - i,
    {
        let ghost rest = remotes@.subrange(i as int, remotes@.len() as int);
        assert(rest.drop_first() =~= remotes@.subrange(i + 1, remotes@.len() as int));
        if remotes[i].name == *name {
            return Some(i);
        }
        i = i + 1;
    }
    assert(remotes@.subrange(i as int, remotes@.len() as int) =~= Seq::<GitRemote>::empty());
    None
}

/// The index of the first entry stored under `key`.
pub(crate) fn position_of_entry(entries: &Vec<(String, GitConfigEntry)>, key: &String) -> (r: Option<usize>)
    ensures
        match r {
            Some(i) => i < entries@.len() && find_entry(entries@, key@) == Some(entries@[i as int].1),
            None => find_entry(entries@, key@) is None,
        },
{
    let mut i: usize = 0;
    assert(entries@.subrange(0, entries@.len() as int) =~= entries@);
    while i < entries.len()
        invariant
            i <= entries@.len(),
            find_entry(entries@, key@) == find_entry(entries@.subrange(i as int, entries@.len() as int), key@),
        decreases entries@.len() - i,
    {
        let ghost rest = entries@.subrange(i as int, entries@.len() as int);
        assert(rest.drop_first() =~= entries@.subrange(i + 1, entries@.len() as int));
        if entries[i].0 == *key {
            return Some(i);
        }
        i = i + 1;
    }
    assert(entries@.subrange(i as int, entries@.len() as int) =~= Seq::<(String, GitConfigEntry)>::empty());
    None
}

/// Resolves the `origin` remote into a configuration entry; every failure
/// along the way gives `None`.
pub fn get_remote_url(git_config: &GitConfig) -> (r: Option<GitConfigEntry>)
    ensures
        r == remote_entry(*git_config),
{
    match &git_config.repo {
        None => None,
        Some(repo) => {
            let origin = String::from_str("origin");
            match position_of_remote(&repo.remotes, &origin) {
                None => None,
                Some(i) => {
                    let remote = &repo.remotes[i];
                    if remote.url.is_none() {
                        None
                    } else {
                        match &remote.parsed_url {
                            Some(parsed) => Some(GitConfigEntry::GitRemote(parsed.duplicate())),
                            None => None,
                        }
                    }
                }
            }
        }
    }
}

} // verus!
