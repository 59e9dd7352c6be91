//! Turning a decoded push into the stored record: branch from ref, author
//! from pusher, identifier and timestamp from the moment of arrival.

use vstd::prelude::*;
use vstd::std_specs::iter::IteratorSpec;
use vstd::string::{StrSliceExecFns, StringExecFns};
use crate::event::{GitHubWebhookCommit, GitHubWebhookEvent, WebhookCommitView, WebhookEventView};
use crate::signature::same_text;
use crate::source::{CommitView, GitHubCommit, PushEvent, PushEventView, pair_views};

verus! {

/// The moment a delivery was taken in: a UTC instant together with its
/// RFC 3339 text. The text is always the one that belongs to the instant.
#[derive(Debug)]
pub struct Arrival {
    unix_seconds: i64,
    subsec_nanos: u32,
    rfc3339: String,
}

/// Mathematical value of an [`Arrival`].
pub ghost struct ArrivalView {
    /// Whole seconds since the Unix epoch.
    pub unix_seconds: int,
    /// Nanoseconds since the last whole second.
    pub subsec_nanos: int,
    /// The moment in UTC, written as RFC 3339.
    pub rfc3339: Seq<char>,
}

/// The RFC 3339 text of the UTC instant `unix_seconds` and `subsec_nanos`
/// after the Unix epoch; nothing for an instant that the calendar cannot
/// hold.
pub uninterp spec fn rfc3339_utc(unix_seconds: int, subsec_nanos: int) -> Option<Seq<char>>;

impl ArrivalView {
    /// Whether the text is the one that belongs to the instant.
    pub open spec fn well_formed(self) -> bool {
        rfc3339_utc(self.unix_seconds, self.subsec_nanos) == Some(self.rfc3339)
    }
}

impl View for Arrival {
    type V = ArrivalView;

    closed spec fn view(&self) -> ArrivalView {
        ArrivalView {
            unix_seconds: self.unix_seconds as int,
            subsec_nanos: self.subsec_nanos as int,
            rfc3339: self.rfc3339@,
        }
    }
}

/// `chrono::DateTime::<Utc>::from` on `std::time::SystemTime::now`, read
/// through `timestamp` and `timestamp_subsec_nanos`. A clock set before the
/// Unix epoch gives negative seconds. Trusted: whatever the clock says, the
/// two numbers are those of an instant that `chrono` can hold, so that
/// `from_timestamp` takes them back. `chrono` panics here only if the clock
/// lies outside its range of years, some 262,000 either side of year 0.
#[verifier::external_body]
fn clock_now() -> (moment: (i64, u32))
    ensures
        rfc3339_utc(moment.0 as int, moment.1 as int) is Some,
{
    let now = chrono::DateTime::<chrono::Utc>::from(std::time::SystemTime::now());
    (now.timestamp(), now.timestamp_subsec_nanos())
}

/// `chrono::DateTime::from_timestamp`, then `to_rfc3339`. Trusted: whether
/// the instant can be held, and the text written for it, depend on the two
/// numbers alone.
#[verifier::external_body]
fn rfc3339_text(unix_seconds: i64, subsec_nanos: u32) -> (text: Option<String>)
    ensures
        match text {
            Some(text) => rfc3339_utc(unix_seconds as int, subsec_nanos as int) == Some(text@),
            None => rfc3339_utc(unix_seconds as int, subsec_nanos as int) is None,
        },
{
    match chrono::DateTime::from_timestamp(unix_seconds, subsec_nanos) {
        Some(moment) => Some(moment.to_rfc3339()),
        None => None,
    }
}

impl Arrival {
    #[verifier::type_invariant]
    spec fn text_belongs_to_instant(&self) -> bool {
        rfc3339_utc(self.unix_seconds as int, self.subsec_nanos as int) == Some(self.rfc3339@)
    }

    /// The arrival at the given instant, if the calendar can hold it.
    pub fn at(unix_seconds: i64, subsec_nanos: u32) -> (arrival: Option<Arrival>)
        ensures
            match arrival {
                Some(arrival) => arrival@.unix_seconds == unix_seconds && arrival@.subsec_nanos
                    == subsec_nanos && arrival@.well_formed(),
                None => rfc3339_utc(unix_seconds as int, subsec_nanos as int) is None,
            },
    {
        match rfc3339_text(unix_seconds, subsec_nanos) {
            Some(rfc3339) => Some(Arrival { unix_seconds, subsec_nanos, rfc3339 }),
            None => None,
        }
    }

    /// The present moment, by the system clock.
    pub fn now() -> (arrival: Arrival)
        ensures
            arrival@.well_formed(),
    {
        let (unix_seconds, subsec_nanos) = clock_now();
        match Arrival::at(unix_seconds, subsec_nanos) {
            Some(arrival) => arrival,
            None => unreached(),
        }
    }

    /// Whole seconds since the Unix epoch.
    pub fn unix_seconds(&self) -> (seconds: i64)
        ensures
            seconds == self@.unix_seconds,
    {
        self.unix_seconds
    }

    /// Nanoseconds since the last whole second.
    pub fn subsec_nanos(&self) -> (nanos: u32)
        ensures
            nanos == self@.subsec_nanos,
    {
        self.subsec_nanos
    }

    /// The moment in UTC, written as RFC 3339.
    pub fn rfc3339(&self) -> (text: &str)
        ensures
            text@ == self@.rfc3339,
            self@.well_formed(),
    {
        proof {
            use_type_invariant(self);
        }
        self.rfc3339.as_str()
    }
}

/// Where the last `/`-separated segment of `text` begins: just after the
/// final `/`, or at the start when there is none.
pub open spec fn segment_start(text: Seq<char>) -> int
    decreases text.len(),
{
    if text.len() == 0 {
        0
    } else if text.last() == '/' {
        text.len() as int
    } else {
        segment_start(text.drop_last())
    }
}

/// The branch a ref names: its last `/`-separated segment, or `unknown` for
/// a ref without any `/` (the empty ref among them).
pub open spec fn branch_of(ref_name: Seq<char>) -> Seq<char> {
    if segment_start(ref_name) == 0 {
        "unknown"@
    } else {
        ref_name.subrange(segment_start(ref_name), ref_name.len() as int)
    }
}

proof fn lemma_segment_start(text: Seq<char>)
    ensures
        0 <= segment_start(text) <= text.len(),
        segment_start(text) > 0 ==> text[segment_start(text) - 1] == '/',
        forall|i: int| segment_start(text) <= i < text.len() ==> text[i] != '/',
        segment_start(text) == 0 <==> !text.contains('/'),
    decreases text.len(),
{
    if text.len() > 0 && text.last() != '/' {
        let shorter = text.drop_last();
        lemma_segment_start(shorter);
        assert forall|i: int| segment_start(text) <= i < text.len() implies text[i] != '/' by {
            if i < shorter.len() {
                assert(text[i] == shorter[i]);
            }
        }
        if shorter.contains('/') {
            let i = choose|i: int| 0 <= i < shorter.len() && shorter[i] == '/';
            assert(text[i] == '/');
        }
        if text.contains('/') {
            let i = choose|i: int| 0 <= i < text.len() && text[i] == '/';
            assert(shorter[i] == '/');
        }
    } else if text.len() > 0 {
        assert(text[text.len() - 1] == '/');
    }
}

/// A ref without any `/` has the branch `unknown`. Any other ref is some
/// head, a `/`, and then its branch, and the branch holds no `/`.
pub proof fn lemma_branch_is_last_segment(ref_name: Seq<char>)
    ensures
        !ref_name.contains('/') ==> branch_of(ref_name) == "unknown"@,
        ref_name.contains('/') ==> ({
            let branch = branch_of(ref_name);
            &&& !branch.contains('/')
            &&& branch.len() < ref_name.len()
            &&& ref_name == ref_name.take(ref_name.len() - branch.len() - 1).push('/') + branch
        }),
{
    lemma_segment_start(ref_name);
    if ref_name.contains('/') {
        let branch = branch_of(ref_name);
        let start = segment_start(ref_name);
        if branch.contains('/') {
            let i = choose|i: int| 0 <= i < branch.len() && branch[i] == '/';
            assert(ref_name[start + i] == '/');
        }
        assert(ref_name =~= ref_name.take(start - 1).push('/') + branch);
    }
}

/// Extracts the branch from a ref.
pub fn branch_name(ref_name: &str) -> (branch: String)
    ensures
        branch@ == branch_of(ref_name@),
{
    let length = ref_name.unicode_len();
    let mut rest = ref_name.chars();
    let mut seen: usize = 0;
    let mut start: usize = 0;
    assert(ref_name@.skip(0) =~= ref_name@);
    assert(ref_name@.take(0) =~= Seq::<char>::empty());
    loop
        invariant
            rest.obeys_prophetic_iter_laws(),
            length == ref_name@.len(),
            start <= seen <= length,
            rest.remaining() == ref_name@.skip(seen as int),
            start == segment_start(ref_name@.take(seen as int)),
        ensures
            start <= length,
            start == segment_start(ref_name@),
        decreases length - seen,
    {
        match rest.next() {
            Some(c) => {
                assert(ref_name@.skip(seen as int)[0] == ref_name@[seen as int]);
                assert(ref_name@.skip(seen as int).drop_first() =~= ref_name@.skip(seen + 1));
                assert(ref_name@.take(seen + 1).drop_last() =~= ref_name@.take(seen as int));
                assert(ref_name@.take(seen + 1).last() == ref_name@[seen as int]);
                seen += 1;
                if c == '/' {
                    start = seen;
                }
            },
            None => {
                assert(ref_name@.take(seen as int) =~= ref_name@);
                break;
            },
        }
    }
    if start == 0 {
        String::from_str("unknown")
    } else {
        String::from_str(ref_name.substring_char(start, length))
    }
}

/// The value of the first pair called `key`.
pub open spec fn pair_value(pairs: Seq<(Seq<char>, Seq<char>)>, key: Seq<char>) -> Option<Seq<char>>
    decreases pairs.len(),
{
    if pairs.len() == 0 {
        None
    } else if pairs[0].0 == key {
        Some(pairs[0].1)
    } else {
        pair_value(pairs.drop_first(), key)
    }
}

/// The display name of whoever pushed: the pusher's `name`, or `unknown`
/// when the pusher has none.
pub open spec fn author_of_pusher(pusher: Seq<(Seq<char>, Seq<char>)>) -> Seq<char> {
    match pair_value(pusher, "name"@) {
        Some(name) => name,
        None => "unknown"@,
    }
}

/// No pair is found under a name that no pair carries.
proof fn lemma_pair_value_absent(pairs: Seq<(Seq<char>, Seq<char>)>, key: Seq<char>)
    requires
        forall|i: int| 0 <= i < pairs.len() ==> pairs[i].0 != key,
    ensures
        pair_value(pairs, key) is None,
    decreases pairs.len(),
{
    if pairs.len() > 0 {
        let rest = pairs.drop_first();
        assert forall|i: int| 0 <= i < rest.len() implies rest[i].0 != key by {
            assert(rest[i] == pairs[i + 1]);
        }
        lemma_pair_value_absent(rest, key);
    }
}

/// A pusher identity that has no `name` gives the author `unknown`.
pub proof fn lemma_author_without_name_is_unknown(pusher: Seq<(Seq<char>, Seq<char>)>)
    requires
        forall|i: int| 0 <= i < pusher.len() ==> pusher[i].0 != "name"@,
    ensures
        author_of_pusher(pusher) == "unknown"@,
{
    lemma_pair_value_absent(pusher, "name"@);
}

/// Picks the display name out of a pusher identity.
pub fn author_name(pusher: &Vec<(String, String)>) -> (author: String)
    ensures
        author@ == author_of_pusher(pair_views(pusher@)),
{
    let ghost pairs = pair_views(pusher@);
    let mut i: usize = 0;
    assert(pairs.skip(0) =~= pairs);
    while i < pusher.len()
        invariant
            pairs == pair_views(pusher@),
            i <= pusher.len(),
            pair_value(pairs, "name"@) == pair_value(pairs.skip(i as int), "name"@),
        decreases pusher.len() - i,
    {
        assert(pairs.skip(i as int)[0] == pairs[i as int]);
        if same_text(pusher[i].0.as_str(), "name") {
            return pusher[i].1.clone();
        }
        assert(pairs.skip(i as int).drop_first() =~= pairs.skip(i + 1));
        i += 1;
    }
    String::from_str("unknown")
}

/// The character for a decimal digit.
pub open spec fn digit(value: int) -> char {
    if value == 0 {
        '0'
    } else if value == 1 {
        '1'
    } else if value == 2 {
        '2'
    } else if value == 3 {
        '3'
    } else if value == 4 {
        '4'
    } else if value == 5 {
        '5'
    } else if value == 6 {
        '6'
    } else if value == 7 {
        '7'
    } else if value == 8 {
        '8'
    } else {
        '9'
    }
}

/// A natural number in decimal, without leading zeros.
pub open spec fn decimal_digits(value: nat) -> Seq<char>
    decreases value,
{
    if value < 10 {
        seq![digit(value as int)]
    } else {
        decimal_digits(value / 10).push(digit((value % 10) as int))
    }
}

/// An integer in decimal, with a leading `-` when it is negative.
pub open spec fn decimal(value: int) -> Seq<char> {
    if value < 0 {
        seq!['-'] + decimal_digits((-value) as nat)
    } else {
        decimal_digits(value as nat)
    }
}

/// The identifier given to an event taken in at `unix_seconds`.
pub open spec fn event_id(unix_seconds: int) -> Seq<char> {
    "github_"@ + decimal(unix_seconds)
}

fn digit_text(value: u64) -> (text: &'static str)
    requires
        value < 10,
    ensures
        text@ == seq![digit(value as int)],
{
    proof {
        reveal_strlit("0");
        reveal_strlit("1");
        reveal_strlit("2");
        reveal_strlit("3");
        reveal_strlit("4");
        reveal_strlit("5");
        reveal_strlit("6");
        reveal_strlit("7");
        reveal_strlit("8");
        reveal_strlit("9");
    }
    let text = if value == 0 {
        "0"
    } else if value == 1 {
        "1"
    } else if value == 2 {
        "2"
    } else if value == 3 {
        "3"
    } else if value == 4 {
        "4"
    } else if value == 5 {
        "5"
    } else if value == 6 {
        "6"
    } else if value == 7 {
        "7"
    } else if value == 8 {
        "8"
    } else {
        "9"
    };
    assert(text@ =~= seq![digit(value as int)]);
    text
}

/// Writes a natural number in decimal.
pub fn natural_text(value: u64) -> (text: String)
    ensures
        text@ == decimal_digits(value as nat),
    decreases value,
{
    if value < 10 {
        String::from_str(digit_text(value))
    } else {
        let mut text = natural_text(value / 10);
        text.append(digit_text(value % 10));
        assert(text@ =~= decimal_digits(value as nat));
        text
    }
}

/// Writes an integer in decimal.
pub fn decimal_text(value: i64) -> (text: String)
    ensures
        text@ == decimal(value as int),
{
    if value < 0 {
        let magnitude: u64 = (-(value + 1)) as u64 + 1;
        proof {
            reveal_strlit("-");
        }
        let mut text = String::from_str("-");
        let digits = natural_text(magnitude);
        text.append(digits.as_str());
        assert(text@ =~= decimal(value as int));
        text
    } else {
        natural_text(value as u64)
    }
}

/// The stored form of one commit: its author reduced to the name.
pub open spec fn normalized_commit(commit: CommitView) -> WebhookCommitView {
    WebhookCommitView {
        id: commit.id,
        message: commit.message,
        author: commit.author.name,
        timestamp: commit.timestamp,
    }
}

/// The stored form of a push taken in at `arrival`.
pub open spec fn normalized(push: PushEventView, arrival: ArrivalView) -> WebhookEventView {
    WebhookEventView {
        id: event_id(arrival.unix_seconds),
        event_type: "push"@,
        repo: push.repository.full_name,
        branch: branch_of(push.ref_name),
        author: author_of_pusher(push.pusher),
        author_avatar: push.sender.avatar_url,
        timestamp: arrival.rfc3339,
        commits: Seq::new(push.commits.len(), |i: int| normalized_commit(push.commits[i])),
    }
}

/// Reduces a commit to its stored form.
pub fn normalize_commit(commit: &GitHubCommit) -> (stored: GitHubWebhookCommit)
    ensures
        stored@ == normalized_commit(commit@),
{
    GitHubWebhookCommit {
        id: commit.id.clone(),
        message: commit.message.clone(),
        author: commit.author.name.clone(),
        timestamp: commit.timestamp.clone(),
    }
}

/// Builds the stored record of a push taken in at `arrival`. Its timestamp
/// is the RFC 3339 text of the very instant whose seconds stand in its id.
pub fn normalize(push: &PushEvent, arrival: &Arrival) -> (event: GitHubWebhookEvent)
    ensures
        event@ == normalized(push@, arrival@),
        arrival@.well_formed(),
{
    proof {
        use_type_invariant(arrival);
    }
    let mut commits: Vec<GitHubWebhookCommit> = Vec::new();
    let mut i: usize = 0;
    while i < push.commits.len()
        invariant
            i <= push.commits.len(),
            commits.len() == i,
            forall|j: int| 0 <= j < i ==> commits[j]@ == normalized_commit(push.commits[j]@),
        decreases push.commits.len() - i,
    {
        commits.push(normalize_commit(&push.commits[i]));
        i += 1;
    }
    let mut id = String::from_str("github_");
    let seconds = decimal_text(arrival.unix_seconds);
    id.append(seconds.as_str());
    let event = GitHubWebhookEvent {
        id,
        event_type: String::from_str("push"),
        repo: push.repository.full_name.clone(),
        branch: branch_name(push.ref_name.as_str()),
        author: author_name(&push.pusher),
        author_avatar: push.sender.avatar_url.clone(),
        timestamp: arrival.rfc3339.clone(),
        commits,
    };
    assert(event@.commits =~= normalized(push@, arrival@).commits);
    event
}

} // verus!
