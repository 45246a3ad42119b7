//! Repository settings as they are read from the settings file.

use vstd::prelude::*;

verus! {

/// Settings of the repository and the hosting service.
#[derive(Debug, Clone)]
pub struct GitSettings {
    /// The hosting service's API token, needed only for pull requests
    pub github_api_key: String,
    /// The hosting service's API address, needed only for pull requests
    pub github_api_url: String,
    /// Options of the local repository
    pub git_options: GitOptions,
}

/// Options of the local repository.
#[derive(Debug, Clone)]
pub struct GitOptions {
    /// The path to the repository, almost always `.`
    pub local_path: String,
    /// Add everything to the index before committing
    pub auto_add: bool,
    /// Push the branch before opening a pull request
    pub auto_push: bool,
    /// Sign commits
    pub sign_commits: bool,
    /// The signing key, used only when signing
    pub key_id: String,
    /// The author's name
    pub git_user_name: String,
    /// The author's email
    pub git_user_email: String,
    /// The path to the ssh key
    pub ssh_key_path: String,
    /// The ssh user name
    pub ssh_user_name: String,
}

impl Default for GitOptions {
    /// The current directory, no auto-add, push first, no signing, every text empty.
    fn default() -> (r: GitOptions)
        ensures
            r.local_path@ == "."@,
            !r.auto_add,
            r.auto_push,
            !r.sign_commits,
            r.key_id@.len() == 0,
            r.git_user_name@.len() == 0,
            r.git_user_email@.len() == 0,
            r.ssh_key_path@.len() == 0,
            r.ssh_user_name@.len() == 0,
    {
        GitOptions {
            local_path: ".".to_string(),
            auto_add: false,
            auto_push: true,
            sign_commits: false,
            key_id: String::new(),
            git_user_name: String::new(),
            git_user_email: String::new(),
            ssh_key_path: String::new(),
            ssh_user_name: String::new(),
        }
    }
}

impl Default for GitSettings {
    /// No token, no address, and the default repository options.
    fn default() -> (r: GitSettings)
        ensures
            r.github_api_key@.len() == 0,
            r.github_api_url@.len() == 0,
            r.git_options.local_path@ == "."@,
            !r.git_options.auto_add,
            r.git_options.auto_push,
            !r.git_options.sign_commits,
    {
        GitSettings {
            github_api_key: String::new(),
            github_api_url: String::new(),
            git_options: GitOptions::default(),
        }
    }
}

} // verus!
