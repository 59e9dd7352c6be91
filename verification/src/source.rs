//! The push event as the upstream provider sends it.

use vstd::prelude::*;

verus! {

/// Who wrote a commit.
#[derive(Clone, Debug)]
pub struct GitHubAuthor {
    pub name: String,
    pub email: String,
    pub username: String,
}

/// Mathematical value of a [`GitHubAuthor`].
pub ghost struct AuthorView {
    pub name: Seq<char>,
    pub email: Seq<char>,
    pub username: Seq<char>,
}

impl View for GitHubAuthor {
    type V = AuthorView;

    open spec fn view(&self) -> AuthorView {
        AuthorView { name: self.name@, email: self.email@, username: self.username@ }
    }
}

/// One commit of a push.
#[derive(Clone, Debug)]
pub struct GitHubCommit {
    pub id: String,
    pub message: String,
    pub author: GitHubAuthor,
    pub timestamp: String,
}

/// Mathematical value of a [`GitHubCommit`].
pub ghost struct CommitView {
    pub id: Seq<char>,
    pub message: Seq<char>,
    pub author: AuthorView,
    pub timestamp: Seq<char>,
}

impl View for GitHubCommit {
    type V = CommitView;

    open spec fn view(&self) -> CommitView {
        CommitView {
            id: self.id@,
            message: self.message@,
            author: self.author@,
            timestamp: self.timestamp@,
        }
    }
}

/// An account: the owner of a repository, or the sender of an event.
#[derive(Clone, Debug)]
pub struct GitHubOwner {
    pub login: String,
    pub id: i64,
    pub avatar_url: String,
    pub html_url: String,
}

/// Mathematical value of a [`GitHubOwner`].
pub ghost struct OwnerView {
    pub login: Seq<char>,
    pub id: i64,
    pub avatar_url: Seq<char>,
    pub html_url: Seq<char>,
}

impl View for GitHubOwner {
    type V = OwnerView;

    open spec fn view(&self) -> OwnerView {
        OwnerView {
            login: self.login@,
            id: self.id,
            avatar_url: self.avatar_url@,
            html_url: self.html_url@,
        }
    }
}

/// The repository that was pushed to.
#[derive(Clone, Debug)]
pub struct GitHubRepository {
    pub id: i64,
    pub name: String,
    pub full_name: String,
    pub owner: GitHubOwner,
    pub html_url: String,
    pub description: Option<String>,
    pub fork: bool,
    pub default_branch: String,
}

/// Mathematical value of a [`GitHubRepository`].
pub ghost struct RepositoryView {
    pub id: i64,
    pub name: Seq<char>,
    pub full_name: Seq<char>,
    pub owner: OwnerView,
    pub html_url: Seq<char>,
    pub description: Option<Seq<char>>,
    pub fork: bool,
    pub default_branch: Seq<char>,
}

/// The characters of a text that may be absent.
pub open spec fn optional_text(text: Option<String>) -> Option<Seq<char>> {
    match text {
        Some(s) => Some(s@),
        None => None,
    }
}

impl View for GitHubRepository {
    type V = RepositoryView;

    open spec fn view(&self) -> RepositoryView {
        RepositoryView {
            id: self.id,
            name: self.name@,
            full_name: self.full_name@,
            owner: self.owner@,
            html_url: self.html_url@,
            description: optional_text(self.description),
            fork: self.fork,
            default_branch: self.default_branch@,
        }
    }
}

/// A push: the ref that moved, the revisions before and after, and the
/// commits that came with it.
#[derive(Clone, Debug)]
pub struct PushEvent {
    pub ref_name: String,
    pub before: String,
    pub after: String,
    pub repository: GitHubRepository,
    /// Identity of the pusher as name/value pairs; the first pair with a
    /// given name is the one that counts.
    pub pusher: Vec<(String, String)>,
    pub sender: GitHubOwner,
    pub commits: Vec<GitHubCommit>,
}

/// Mathematical value of a [`PushEvent`].
pub ghost struct PushEventView {
    pub ref_name: Seq<char>,
    pub before: Seq<char>,
    pub after: Seq<char>,
    pub repository: RepositoryView,
    pub pusher: Seq<(Seq<char>, Seq<char>)>,
    pub sender: OwnerView,
    pub commits: Seq<CommitView>,
}

/// The values of a run of name/value pairs, in order.
pub open spec fn pair_views(pairs: Seq<(String, String)>) -> Seq<(Seq<char>, Seq<char>)> {
    Seq::new(pairs.len(), |i: int| (pairs[i].0@, pairs[i].1@))
}

/// The values of a run of commits, in order.
pub open spec fn source_commit_views(commits: Seq<GitHubCommit>) -> Seq<CommitView> {
    Seq::new(commits.len(), |i: int| commits[i]@)
}

impl View for PushEvent {
    type V = PushEventView;

    open spec fn view(&self) -> PushEventView {
        PushEventView {
            ref_name: self.ref_name@,
            before: self.before@,
            after: self.after@,
            repository: self.repository@,
            pusher: pair_views(self.pusher@),
            sender: self.sender@,
            commits: source_commit_views(self.commits@),
        }
    }
}

} // verus!
