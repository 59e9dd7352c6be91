//! Reading a push event out of a JSON document: every required member must
//! be present and of the expected kind.

use vstd::prelude::*;
use crate::decode::DecodeError;
use crate::json::Json;
use crate::source::{
    AuthorView, CommitView, GitHubAuthor, GitHubCommit, GitHubOwner, GitHubRepository, OwnerView,
    PushEvent, PushEventView, RepositoryView, optional_text, pair_views, source_commit_views,
};

verus! {

/// The string member `key` of `doc`.
pub open spec fn text_field(doc: Json, key: Seq<char>) -> Option<Seq<char>> {
    match doc.member(key) {
        Some(value) => value.text(),
        None => None,
    }
}

/// The integer member `key` of `doc`.
pub open spec fn integer_field(doc: Json, key: Seq<char>) -> Option<i64> {
    match doc.member(key) {
        Some(value) => value.integer(),
        None => None,
    }
}

/// The boolean member `key` of `doc`.
pub open spec fn flag_field(doc: Json, key: Seq<char>) -> Option<bool> {
    match doc.member(key) {
        Some(value) => value.flag(),
        None => None,
    }
}

/// The member `key` of `doc` where it may be left out: a missing member and
/// `null` both stand for no text; anything but a string is refused.
pub open spec fn optional_text_field(doc: Json, key: Seq<char>) -> Option<Option<Seq<char>>> {
    match doc.member(key) {
        None => Some(None),
        Some(Json::Null) => Some(None),
        Some(Json::String(s)) => Some(Some(s@)),
        Some(_) => None,
    }
}

/// The commit author that `doc` describes.
pub open spec fn author_of(doc: Json) -> Option<AuthorView> {
    match (text_field(doc, "name"@), text_field(doc, "email"@), text_field(doc, "username"@)) {
        (Some(name), Some(email), Some(username)) => Some(AuthorView { name, email, username }),
        _ => None,
    }
}

/// The account that `doc` describes.
pub open spec fn owner_of(doc: Json) -> Option<OwnerView> {
    match (
        text_field(doc, "login"@),
        integer_field(doc, "id"@),
        text_field(doc, "avatar_url"@),
        text_field(doc, "html_url"@),
    ) {
        (Some(login), Some(id), Some(avatar_url), Some(html_url)) => Some(
            OwnerView { login, id, avatar_url, html_url },
        ),
        _ => None,
    }
}

/// What the member `key` of `doc` describes under the reading `read`.
pub open spec fn nested<T>(doc: Json, key: Seq<char>, read: spec_fn(Json) -> Option<T>) -> Option<T> {
    match doc.member(key) {
        Some(value) => read(value),
        None => None,
    }
}

/// The repository that `doc` describes.
pub open spec fn repository_of(doc: Json) -> Option<RepositoryView> {
    match (
        integer_field(doc, "id"@),
        text_field(doc, "name"@),
        text_field(doc, "full_name"@),
        nested(doc, "owner"@, |value: Json| owner_of(value)),
        text_field(doc, "html_url"@),
        optional_text_field(doc, "description"@),
        flag_field(doc, "fork"@),
        text_field(doc, "default_branch"@),
    ) {
        (
            Some(id),
            Some(name),
            Some(full_name),
            Some(owner),
            Some(html_url),
            Some(description),
            Some(fork),
            Some(default_branch),
        ) => Some(
            RepositoryView {
                id,
                name,
                full_name,
                owner,
                html_url,
                description,
                fork,
                default_branch,
            },
        ),
        _ => None,
    }
}

/// The commit that `doc` describes.
pub open spec fn commit_of(doc: Json) -> Option<CommitView> {
    match (
        text_field(doc, "id"@),
        text_field(doc, "message"@),
        nested(doc, "author"@, |value: Json| author_of(value)),
        text_field(doc, "timestamp"@),
    ) {
        (Some(id), Some(message), Some(author), Some(timestamp)) => Some(
            CommitView { id, message, author, timestamp },
        ),
        _ => None,
    }
}

/// The commits that an array describes, one per element and in its order;
/// nothing if any element is not a commit.
pub open spec fn commits_of(doc: Json) -> Option<Seq<CommitView>> {
    match doc {
        Json::Array(items) => if forall|i: int| 0 <= i < items.len() ==> commit_of(#[trigger] items[i]) is Some {
            Some(Seq::new(items.len() as nat, |i: int| commit_of(items[i])->0))
        } else {
            None
        },
        _ => None,
    }
}

/// The name/value pairs that an object describes, one per member and in its
/// order; nothing if any member's value is not a string.
pub open spec fn pairs_of(doc: Json) -> Option<Seq<(Seq<char>, Seq<char>)>> {
    match doc {
        Json::Object(members) => if forall|i: int|
            0 <= i < members.len() ==> (#[trigger] members[i]).1.text() is Some {
            Some(
                Seq::new(
                    members.len() as nat,
                    |i: int| (members[i].0@, members[i].1.text()->0),
                ),
            )
        } else {
            None
        },
        _ => None,
    }
}

/// The push event that `doc` describes; nothing if a required member is
/// missing or of the wrong kind.
pub open spec fn push_event_of(doc: Json) -> Option<PushEventView> {
    match (
        text_field(doc, "ref"@),
        text_field(doc, "before"@),
        text_field(doc, "after"@),
        nested(doc, "repository"@, |value: Json| repository_of(value)),
        nested(doc, "pusher"@, |value: Json| pairs_of(value)),
        nested(doc, "sender"@, |value: Json| owner_of(value)),
        nested(doc, "commits"@, |value: Json| commits_of(value)),
    ) {
        (
            Some(ref_name),
            Some(before),
            Some(after),
            Some(repository),
            Some(pusher),
            Some(sender),
            Some(commits),
        ) => Some(
            PushEventView { ref_name, before, after, repository, pusher, sender, commits },
        ),
        _ => None,
    }
}

/// Reads the string member `key`.
pub fn read_text(doc: &Json, key: &str) -> (found: Option<String>)
    ensures
        optional_text(found) == text_field(*doc, key@),
{
    match doc.get(key) {
        Some(Json::String(s)) => Some(s.clone()),
        _ => None,
    }
}

/// Reads the integer member `key`.
pub fn read_integer(doc: &Json, key: &str) -> (found: Option<i64>)
    ensures
        found == integer_field(*doc, key@),
{
    match doc.get(key) {
        Some(Json::Number(Some(n))) => Some(*n),
        _ => None,
    }
}

/// Reads the boolean member `key`.
pub fn read_flag(doc: &Json, key: &str) -> (found: Option<bool>)
    ensures
        found == flag_field(*doc, key@),
{
    match doc.get(key) {
        Some(Json::Bool(b)) => Some(*b),
        _ => None,
    }
}

/// Reads the member `key` where it may be left out or be `null`.
pub fn read_optional_text(doc: &Json, key: &str) -> (found: Option<Option<String>>)
    ensures
        match found {
            Some(text) => optional_text_field(*doc, key@) == Some(optional_text(text)),
            None => optional_text_field(*doc, key@) is None,
        },
{
    match doc.get(key) {
        None => Some(None),
        Some(Json::Null) => Some(None),
        Some(Json::String(s)) => Some(Some(s.clone())),
        Some(_) => None,
    }
}

/// Reads a commit author.
pub fn decode_author(doc: &Json) -> (found: Option<GitHubAuthor>)
    ensures
        match found {
            Some(author) => author_of(*doc) == Some(author@),
            None => author_of(*doc) is None,
        },
{
    let name = read_text(doc, "name")?;
    let email = read_text(doc, "email")?;
    let username = read_text(doc, "username")?;
    Some(GitHubAuthor { name, email, username })
}

/// Reads an account.
pub fn decode_owner(doc: &Json) -> (found: Option<GitHubOwner>)
    ensures
        match found {
            Some(owner) => owner_of(*doc) == Some(owner@),
            None => owner_of(*doc) is None,
        },
{
    let login = read_text(doc, "login")?;
    let id = read_integer(doc, "id")?;
    let avatar_url = read_text(doc, "avatar_url")?;
    let html_url = read_text(doc, "html_url")?;
    Some(GitHubOwner { login, id, avatar_url, html_url })
}

/// Reads a repository.
pub fn decode_repository(doc: &Json) -> (found: Option<GitHubRepository>)
    ensures
        match found {
            Some(repository) => repository_of(*doc) == Some(repository@),
            None => repository_of(*doc) is None,
        },
{
    let id = read_integer(doc, "id")?;
    let name = read_text(doc, "name")?;
    let full_name = read_text(doc, "full_name")?;
    let owner = decode_owner(doc.get("owner")?)?;
    let html_url = read_text(doc, "html_url")?;
    let description = read_optional_text(doc, "description")?;
    let fork = read_flag(doc, "fork")?;
    let default_branch = read_text(doc, "default_branch")?;
    Some(
        GitHubRepository {
            id,
            name,
            full_name,
            owner,
            html_url,
            description,
            fork,
            default_branch,
        },
    )
}

/// Reads a commit.
pub fn decode_commit(doc: &Json) -> (found: Option<GitHubCommit>)
    ensures
        match found {
            Some(commit) => commit_of(*doc) == Some(commit@),
            None => commit_of(*doc) is None,
        },
{
    let id = read_text(doc, "id")?;
    let message = read_text(doc, "message")?;
    let author = decode_author(doc.get("author")?)?;
    let timestamp = read_text(doc, "timestamp")?;
    Some(GitHubCommit { id, message, author, timestamp })
}

/// Reads an array of commits.
pub fn decode_commits(doc: &Json) -> (found: Option<Vec<GitHubCommit>>)
    ensures
        match found {
            Some(commits) => commits_of(*doc) == Some(source_commit_views(commits@)),
            None => commits_of(*doc) is None,
        },
{
    match doc {
        Json::Array(items) => {
            let mut commits: Vec<GitHubCommit> = Vec::new();
            let mut i: usize = 0;
            while i < items.len()
                invariant
                    *doc == Json::Array(*items),
                    i <= items.len(),
                    commits.len() == i,
                    forall|j: int| 0 <= j < i ==> commit_of(#[trigger] items[j]) == Some(commits[j]@),
                decreases items.len() - i,
            {
                match decode_commit(&items[i]) {
                    Some(commit) => commits.push(commit),
                    None => {
                        return None;
                    },
                }
                i += 1;
            }
            assert(commits_of(*doc)->0 =~= source_commit_views(commits@));
            Some(commits)
        },
        _ => None,
    }
}

/// Reads an object whose members are all strings as name/value pairs.
pub fn decode_pairs(doc: &Json) -> (found: Option<Vec<(String, String)>>)
    ensures
        match found {
            Some(pairs) => pairs_of(*doc) == Some(pair_views(pairs@)),
            None => pairs_of(*doc) is None,
        },
{
    match doc {
        Json::Object(members) => {
            let mut pairs: Vec<(String, String)> = Vec::new();
            let mut i: usize = 0;
            while i < members.len()
                invariant
                    *doc == Json::Object(*members),
                    i <= members.len(),
                    pairs.len() == i,
                    forall|j: int|
                        0 <= j < i ==> (#[trigger] members[j]).1.text() == Some(pairs[j].1@)
                            && members[j].0@ == pairs[j].0@,
                decreases members.len() - i,
            {
                match &members[i].1 {
                    Json::String(value) => pairs.push((members[i].0.clone(), value.clone())),
                    _ => {
                        return None;
                    },
                }
                i += 1;
            }
            assert(pairs_of(*doc)->0 =~= pair_views(pairs@));
            Some(pairs)
        },
        _ => None,
    }
}

/// Reads a push event out of a parsed payload.
pub fn decode_push_event(doc: &Json) -> (outcome: Result<PushEvent, DecodeError>)
    ensures
        match outcome {
            Ok(push) => push_event_of(*doc) == Some(push@),
            Err(error) => push_event_of(*doc) is None && error == DecodeError::MalformedPayload,
        },
{
    match read_push_event(doc) {
        Some(push) => Ok(push),
        None => Err(DecodeError::MalformedPayload),
    }
}

fn read_push_event(doc: &Json) -> (found: Option<PushEvent>)
    ensures
        match found {
            Some(push) => push_event_of(*doc) == Some(push@),
            None => push_event_of(*doc) is None,
        },
{
    let ref_name = read_text(doc, "ref")?;
    let before = read_text(doc, "before")?;
    let after = read_text(doc, "after")?;
    let repository = decode_repository(doc.get("repository")?)?;
    let pusher = decode_pairs(doc.get("pusher")?)?;
    let sender = decode_owner(doc.get("sender")?)?;
    let commits = decode_commits(doc.get("commits")?)?;
    Some(PushEvent { ref_name, before, after, repository, pusher, sender, commits })
}

} // verus!
