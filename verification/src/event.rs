//! The normalised, provider-agnostic record of one delivery.

use vstd::prelude::*;

verus! {

/// One commit of a push, reduced to what readers are shown.
#[derive(Debug)]
pub struct GitHubWebhookCommit {
    pub id: String,
    pub message: String,
    pub author: String,
    pub timestamp: String,
}

/// Mathematical value of a [`GitHubWebhookCommit`].
pub ghost struct WebhookCommitView {
    pub id: Seq<char>,
    pub message: Seq<char>,
    pub author: Seq<char>,
    pub timestamp: Seq<char>,
}

impl View for GitHubWebhookCommit {
    type V = WebhookCommitView;

    open spec fn view(&self) -> WebhookCommitView {
        WebhookCommitView {
            id: self.id@,
            message: self.message@,
            author: self.author@,
            timestamp: self.timestamp@,
        }
    }
}

impl Clone for GitHubWebhookCommit {
    fn clone(&self) -> (copy: Self)
        ensures
            copy@ == self@,
    {
        GitHubWebhookCommit {
            id: self.id.clone(),
            message: self.message.clone(),
            author: self.author.clone(),
            timestamp: self.timestamp.clone(),
        }
    }
}

/// One stored delivery.
#[derive(Debug)]
pub struct GitHubWebhookEvent {
    pub id: String,
    pub event_type: String,
    pub repo: String,
    pub branch: String,
    pub author: String,
    pub author_avatar: String,
    pub timestamp: String,
    pub commits: Vec<GitHubWebhookCommit>,
}

/// Mathematical value of a [`GitHubWebhookEvent`].
pub ghost struct WebhookEventView {
    pub id: Seq<char>,
    pub event_type: Seq<char>,
    pub repo: Seq<char>,
    pub branch: Seq<char>,
    pub author: Seq<char>,
    pub author_avatar: Seq<char>,
    pub timestamp: Seq<char>,
    pub commits: Seq<WebhookCommitView>,
}

/// The values of a run of commits, in order.
pub open spec fn commit_views(commits: Seq<GitHubWebhookCommit>) -> Seq<WebhookCommitView> {
    Seq::new(commits.len(), |i: int| commits[i]@)
}

impl View for GitHubWebhookEvent {
    type V = WebhookEventView;

    open spec fn view(&self) -> WebhookEventView {
        WebhookEventView {
            id: self.id@,
            event_type: self.event_type@,
            repo: self.repo@,
            branch: self.branch@,
            author: self.author@,
            author_avatar: self.author_avatar@,
            timestamp: self.timestamp@,
            commits: commit_views(self.commits@),
        }
    }
}

impl Clone for GitHubWebhookEvent {
    fn clone(&self) -> (copy: Self)
        ensures
            copy@ == self@,
    {
        let mut commits: Vec<GitHubWebhookCommit> = Vec::new();
        let mut i: usize = 0;
        while i < self.commits.len()
            invariant
                i <= self.commits.len(),
                commits.len() == i,
                forall|j: int| 0 <= j < i ==> commits[j]@ == self.commits[j]@,
            decreases self.commits.len() - i,
        {
            commits.push(self.commits[i].clone());
            i += 1;
        }
        assert(commit_views(commits@) =~= commit_views(self.commits@));
        GitHubWebhookEvent {
            id: self.id.clone(),
            event_type: self.event_type.clone(),
            repo: self.repo.clone(),
            branch: self.branch.clone(),
            author: self.author.clone(),
            author_avatar: self.author_avatar.clone(),
            timestamp: self.timestamp.clone(),
            commits,
        }
    }
}

} // verus!
