//! Local repository options and the hosting service's account, with the decisions the
//! commit and push steps make from them.

use vstd::prelude::*;
use crate::completion::CompletionError;
use crate::diff::has_prefix;
use crate::text::{append_chars, chars_of, string_from_chars};

verus! {

/// Options for the local repository; everything but the path is optional.
#[derive(Debug, Copy, Clone)]
pub struct Git<'a> {
    /// The path, almost always `.`
    pub path: &'a str,
    /// Add all untracked files to the index before committing
    pub auto_add: Option<&'a bool>,
    /// Push the local branch before opening a pull request
    pub auto_push: Option<&'a bool>,
    /// Sign commits
    pub sign_commits: Option<&'a bool>,
    /// The signing key, used only when signing
    pub key_id: Option<&'a str>,
    /// The author's name; the repository's configuration is asked when absent
    pub user_name: Option<&'a str>,
    /// The author's email; the repository's configuration is asked when absent
    pub user_email: Option<&'a str>,
    /// The path to the private key
    pub ssh_key_path: Option<&'a str>,
    /// The ssh user name
    pub ssh_user_name: Option<&'a str>,
}

/// The account on the hosting service that pull requests are opened with.
#[derive(Debug, Default)]
pub struct GitHub {
    github_token: String,
    github_url: String,
    github_username: String,
}

/// What the hosting service answers when a pull request is opened.
#[derive(Debug, Clone)]
pub struct PullResponse {
    pub url: String,
    pub html_url: String,
    pub diff_url: String,
    pub patch_url: String,
    pub issue_url: String,
    pub commits_url: String,
    pub review_comments_url: String,
    pub review_comment_url: String,
    pub statuses_url: String,
    pub number: String,
    pub state: String,
    pub locked: String,
}

/// `s` with every leading copy of a non-empty `prefix` removed.
pub open spec fn strip_prefixes(s: Seq<char>, prefix: Seq<char>) -> Seq<char>
    decreases s.len(),
{
    if prefix.len() > 0 && has_prefix(s, prefix) {
        strip_prefixes(s.skip(prefix.len() as int), prefix)
    } else {
        s
    }
}

/// What follows the last `sep` in `s`, or all of `s` when it has none.
pub open spec fn last_segment(s: Seq<char>, sep: char) -> Seq<char>
    decreases s.len(),
{
    if s.len() == 0 {
        s
    } else if s.last() == sep {
        Seq::<char>::empty()
    } else {
        last_segment(s.drop_last(), sep).push(s.last())
    }
}

/// The prefix of a local branch's full reference name.
pub open spec fn heads_prefix() -> Seq<char> {
    "refs/heads/"@
}

impl<'a> Git<'a> {
    /// Options with the given values.
    pub fn new(
        path: &'a str,
        auto_add: Option<&'a bool>,
        auto_push: Option<&'a bool>,
        sign_commits: Option<&'a bool>,
        key_id: Option<&'a str>,
        user_name: Option<&'a str>,
        user_email: Option<&'a str>,
        ssh_key_path: Option<&'a str>,
        ssh_user_name: Option<&'a str>,
    ) -> (r: Self)
        ensures
            r.path == path,
            r.auto_add == auto_add,
            r.auto_push == auto_push,
            r.sign_commits == sign_commits,
            r.key_id == key_id,
            r.user_name == user_name,
            r.user_email == user_email,
            r.ssh_key_path == ssh_key_path,
            r.ssh_user_name == ssh_user_name,
    {
        Git {
            path,
            auto_add,
            auto_push,
            sign_commits,
            key_id,
            user_name,
            user_email,
            ssh_key_path,
            ssh_user_name,
        }
    }

    /// Whether all files are added to the index before committing; off when unset.
    pub fn adds_all(&self) -> (r: bool)
        ensures
            r == (self.auto_add matches Some(b) && *b),
    {
        match self.auto_add {
            Some(b) => *b,
            None => false,
        }
    }

    /// Whether the branch is pushed before a pull request; on when unset.
    pub fn pushes_first(&self) -> (r: bool)
        ensures
            r == (self.auto_push matches Some(b) ==> *b),
    {
        match self.auto_push {
            Some(b) => *b,
            None => true,
        }
    }

    /// The commit's author: the configured name and email where set, else those the
    /// repository's configuration gave; an `IdentityUnresolved` error names what is
    /// missing from both.
    pub fn identity(&self, config_name: Option<String>, config_email: Option<String>) -> (r: Result<
        (String, String),
        CompletionError,
    >)
        ensures
            r is Ok <==> (self.user_name is Some || config_name is Some) && (self.user_email is Some
                || config_email is Some),
            r matches Ok((n, e)) ==> n@ == (match self.user_name {
                Some(u) => u@,
                None => config_name.unwrap()@,
            }) && e@ == (match self.user_email {
                Some(u) => u@,
                None => config_email.unwrap()@,
            }),
            r matches Err(x) ==> x is IdentityUnresolved,
    {
        let name = match self.user_name {
            Some(u) => u.to_string(),
            None => match config_name {
                Some(c) => c,
                None => {
                    return Err(CompletionError::IdentityUnresolved("user.name".to_string()));
                },
            },
        };
        let email = match self.user_email {
            Some(u) => u.to_string(),
            None => match config_email {
                Some(c) => c,
                None => {
                    return Err(CompletionError::IdentityUnresolved("user.email".to_string()));
                },
            },
        };
        Ok((name, email))
    }
}

impl<'a> Default for Git<'a> {
    /// The current directory, no auto-add, push first, no signing, key at
    /// `~/.ssh/id_rsa` for user `git`.
    fn default() -> (r: Git<'a>)
        ensures
            r.path@ == "."@,
            r.auto_add == Some(&false),
            r.auto_push == Some(&true),
            r.sign_commits == Some(&false),
            r.key_id is None,
            r.user_name is None,
            r.user_email is None,
            r.ssh_key_path matches Some(p) && p@ == "~/.ssh/id_rsa"@,
            r.ssh_user_name matches Some(u) && u@ == "git"@,
    {
        Git {
            path: ".",
            auto_add: Some(&false),
            auto_push: Some(&true),
            sign_commits: Some(&false),
            key_id: None,
            user_name: None,
            user_email: None,
            ssh_key_path: Some("~/.ssh/id_rsa"),
            ssh_user_name: Some("git"),
        }
    }
}

/// The full reference name of local branch `branch`: `refs/heads/` before the name with
/// every leading `refs/heads/` taken off.
pub fn branch_refname(branch: &str) -> (r: String)
    ensures
        r@ == heads_prefix() + strip_prefixes(branch@, heads_prefix()),
{
    let p = chars_of("refs/heads/");
    let cs = chars_of(branch);
    let mut start: usize = 0;
    proof {
        reveal_strlit("refs/heads/");
    }
    assert(p@.len() > 0);
    assert(cs@.skip(0) =~= cs@);
    while p.len() <= cs.len() - start && matches_at(&cs, start, &p)
        invariant
            p@ == heads_prefix(),
            p@.len() > 0,
            start <= cs.len(),
            strip_prefixes(cs@.skip(start as int), p@) == strip_prefixes(branch@, p@),
            cs@ == branch@,
        decreases cs.len() - start,
    {
        assert(has_prefix(cs@.skip(start as int), p@)) by {
            assert(cs@.skip(start as int).take(p.len() as int) =~= cs@.subrange(
                start as int,
                start + p.len(),
            ));
        }
        assert(cs@.skip(start as int).skip(p.len() as int) =~= cs@.skip(start + p.len()));
        start = start + p.len();
    }
    proof {
        if p.len() <= cs.len() - start {
            assert(cs@.skip(start as int).take(p.len() as int) =~= cs@.subrange(
                start as int,
                start + p.len(),
            ));
        }
    }
    let mut out = p.clone();
    let mut i: usize = start;
    while i < cs.len()
        invariant
            start <= i <= cs.len(),
            out@ == p@ + cs@.subrange(start as int, i as int),
        decreases cs.len() - i,
    {
        out.push(cs[i]);
        i = i + 1;
        assert(cs@.subrange(start as int, i as int) =~= cs@.subrange(start as int, i - 1 as int).push(
            cs@[i - 1],
        ));
    }
    assert(cs@.subrange(start as int, cs.len() as int) =~= cs@.skip(start as int));
    string_from_chars(&out)
}

/// Whether `p` occurs in `cs` at position `at`.
fn matches_at(cs: &Vec<char>, at: usize, p: &Vec<char>) -> (r: bool)
    requires
        at + p@.len() <= cs@.len(),
    ensures
        r == (cs@.subrange(at as int, at + p@.len()) == p@),
{
    let mut i: usize = 0;
    while i < p.len()
        invariant
            at + p.len() <= cs.len(),
            i <= p.len(),
            forall|j: int| 0 <= j < i ==> cs@[at + j] == p@[j],
        decreases p.len() - i,
    {
        if cs[at + i] != p[i] {
            assert(cs@.subrange(at as int, at + p@.len())[i as int] != p@[i as int]);
            return false;
        }
        i = i + 1;
    }
    assert(cs@.subrange(at as int, at + p@.len()) =~= p@);
    true
}

/// What follows the last `sep` in `path`, or all of it when there is none.
pub fn last_path_segment(path: &str, sep: char) -> (r: String)
    ensures
        r@ == last_segment(path@, sep),
{
    let cs = chars_of(path);
    let mut out: Vec<char> = Vec::new();
    let mut i: usize = 0;
    while i < cs.len()
        invariant
            i <= cs.len(),
            cs@ == path@,
            out@ == last_segment(cs@.take(i as int), sep),
        decreases cs.len() - i,
    {
        assert(cs@.take(i + 1 as int).drop_last() =~= cs@.take(i as int));
        if cs[i] == sep {
            out = Vec::new();
        } else {
            out.push(cs[i]);
        }
        i = i + 1;
    }
    assert(cs@.take(cs.len() as int) =~= cs@);
    string_from_chars(&out)
}

/// The address of an endpoint of the service's API: the base, a slash, the path.
pub fn api_endpoint(base_url: &str, tail: &str) -> (r: String)
    ensures
        r@ == base_url@ + seq!['/'] + tail@,
{
    let mut out = chars_of(base_url);
    out.push('/');
    append_chars(&mut out, &chars_of(tail));
    string_from_chars(&out)
}

impl GitHub {
    /// The account with this token and API address; `user_name` is what the service
    /// reported as the login, if it answered, and the name is empty otherwise.
    pub fn new(github_token: &str, github_url: &str, user_name: Option<String>) -> (r: Self)
        ensures
            r.token()@ == github_token@,
            r.url()@ == github_url@,
            r.username()@ == (match user_name {
                Some(u) => u@,
                None => Seq::<char>::empty(),
            }),
    {
        let name = match user_name {
            Some(u) => u,
            None => String::new(),
        };
        GitHub {
            github_token: github_token.to_string(),
            github_url: github_url.to_string(),
            github_username: name,
        }
    }

    /// The API token.
    pub closed spec fn token(&self) -> String {
        self.github_token
    }

    /// The API address.
    pub closed spec fn url(&self) -> String {
        self.github_url
    }

    /// The login of the account.
    pub closed spec fn username(&self) -> String {
        self.github_username
    }

    /// The API token.
    pub fn github_token(&self) -> (r: &str)
        ensures
            r@ == self.token()@,
    {
        self.github_token.as_str()
    }

    /// The API address.
    pub fn github_url(&self) -> (r: &str)
        ensures
            r@ == self.url()@,
    {
        self.github_url.as_str()
    }

    /// The login of the account.
    pub fn github_username(&self) -> (r: &str)
        ensures
            r@ == self.username()@,
    {
        self.github_username.as_str()
    }

    /// Where a pull request for the repository at `repo_path` is opened: the API address,
    /// `/repos/`, the login, `/`, the path's last segment and `/pulls`.
    pub fn pulls_url(&self, repo_path: &str, sep: char) -> (r: String)
        ensures
            r@ == self.url()@ + "/repos/"@ + self.username()@ + seq!['/'] + last_segment(
                repo_path@,
                sep,
            ) + "/pulls"@,
    {
        let mut out = chars_of(self.github_url.as_str());
        append_chars(&mut out, &chars_of("/repos/"));
        append_chars(&mut out, &chars_of(self.github_username.as_str()));
        out.push('/');
        let name = last_path_segment(repo_path, sep);
        append_chars(&mut out, &chars_of(name.as_str()));
        append_chars(&mut out, &chars_of("/pulls"));
        string_from_chars(&out)
    }
}

} // verus!
