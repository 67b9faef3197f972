//! What a fetch needs before it can go out to the tracker and what it makes of
//! the replies: the credential, the repository identifier, the search
//! queries, the text of a failure, and the rules for merging search results
//! and following pages.

use crate::text::{chars_of, string_of};
use std::collections::HashSet;
use vstd::prelude::*;

verus! {

/// A failure that is found before any request is sent.
#[derive(Clone, Copy, Debug, PartialEq, Eq, Structural)]
pub enum FetchError {
    /// Neither place that may hold the credential holds one.
    Configuration,
    /// The repository identifier lacks the separator between owner and name.
    Validation,
}

impl FetchError {
    /// The text of the failure.
    pub open spec fn text(self) -> Seq<char> {
        match self {
            FetchError::Configuration => "GITHUB_TOKEN not set (or GH_TOKEN fallback)"@,
            FetchError::Validation => "Invalid repo name (expected owner/repo)"@,
        }
    }

    /// The text of the failure.
    pub fn message(&self) -> (message: String)
        ensures
            message@ == self.text(),
    {
        match self {
            FetchError::Configuration => String::from_str(
                "GITHUB_TOKEN not set (or GH_TOKEN fallback)",
            ),
            FetchError::Validation => String::from_str("Invalid repo name (expected owner/repo)"),
        }
    }
}

/// The credential to use: the primary one where it is there, else the
/// fallback.
pub open spec fn chosen_token(primary: Option<Seq<char>>, fallback: Option<Seq<char>>) -> Option<
    Seq<char>,
> {
    match primary {
        Some(token) => Some(token),
        None => fallback,
    }
}

/// Picks the credential: the primary one where it is there, else the
/// fallback. With neither, the fetch cannot be configured.
pub fn github_token(primary: Option<String>, fallback: Option<String>) -> (token: Result<
    String,
    FetchError,
>)
    ensures
        match token {
            Ok(t) => chosen_token(primary.deep_view(), fallback.deep_view()) == Some(t@),
            Err(e) => chosen_token(primary.deep_view(), fallback.deep_view()) is None && e
                == FetchError::Configuration,
        },
{
    match primary {
        Some(token) => Ok(token),
        None => match fallback {
            Some(token) => Ok(token),
            None => Err(FetchError::Configuration),
        },
    }
}

/// Takes a repository identifier apart at its first `/` into owner and name.
/// An identifier without `/` is refused.
pub fn split_repo(repo: &str) -> (parts: Result<(String, String), FetchError>)
    ensures
        match parts {
            Ok((owner, name)) => repo@ == owner@ + seq!['/'] + name@ && !owner@.contains('/'),
            Err(e) => !repo@.contains('/') && e == FetchError::Validation,
        },
{
    let chars = chars_of(repo);
    let mut i: usize = 0;
    while i < chars.len() && chars[i] != '/'
        invariant
            i <= chars.len(),
            forall|j: int| 0 <= j < i ==> chars@[j] != '/',
        decreases chars.len() - i,
    {
        i += 1;
    }
    if i < chars.len() {
        let owner = string_of(&chars, 0, i);
        let name = string_of(&chars, i + 1, chars.len());
        Ok((owner, name))
    } else {
        Err(FetchError::Validation)
    }
}

/// What the tracker's client reports of a request that failed.
#[derive(Debug, PartialEq)]
pub enum ApiFailure {
    /// The tracker answered, with an error of its own.
    Remote {
        /// The status of the answer, as the tracker gave it.
        status: String,
        /// The tracker's message.
        message: String,
        /// Where the tracker documents the error, if it says so.
        documentation_url: Option<String>,
        /// The single errors that the tracker lists, if any.
        errors: Option<Vec<String>>,
    },
    /// The request failed on the way, or its answer could not be read.
    Transport {
        /// The client's description of what went wrong.
        description: String,
    },
}

/// An [`ApiFailure`] as a mathematical value.
pub enum ApiFailureView {
    Remote {
        status: Seq<char>,
        message: Seq<char>,
        documentation_url: Option<Seq<char>>,
        errors: Option<Seq<Seq<char>>>,
    },
    Transport { description: Seq<char> },
}

impl View for ApiFailure {
    type V = ApiFailureView;

    open spec fn view(&self) -> ApiFailureView {
        match self {
            ApiFailure::Remote { status, message, documentation_url, errors } => {
                ApiFailureView::Remote {
                    status: status@,
                    message: message@,
                    documentation_url: documentation_url.deep_view(),
                    errors: errors.deep_view(),
                }
            },
            ApiFailure::Transport { description } => ApiFailureView::Transport {
                description: description@,
            },
        }
    }
}

/// Every entry of `errors`, each with a blank before it.
pub open spec fn listed(errors: Seq<Seq<char>>) -> Seq<char>
    decreases errors.len(),
{
    if errors.len() == 0 {
        Seq::empty()
    } else {
        listed(errors.drop_last()) + " "@ + errors.last()
    }
}

/// The part of a failure's text that points to the documentation.
pub open spec fn docs_part(documentation_url: Option<Seq<char>>) -> Seq<char> {
    match documentation_url {
        Some(url) => " | Docs: "@ + url,
        None => Seq::empty(),
    }
}

/// The part of a failure's text that lists the single errors. A list
/// without entries leaves no trace.
pub open spec fn errors_part(errors: Option<Seq<Seq<char>>>) -> Seq<char> {
    match errors {
        Some(list) => if list.len() > 0 {
            " | Errors:"@ + listed(list)
        } else {
            Seq::empty()
        },
        None => Seq::empty(),
    }
}

/// The one line of text that stands for a failure: for an error of the
/// tracker its status, message, documentation and single errors; for any
/// other failure the client's description.
pub open spec fn failure_text(failure: ApiFailureView) -> Seq<char> {
    match failure {
        ApiFailureView::Remote { status, message, documentation_url, errors } => {
            "GitHub API error ("@ + status + "): "@ + message + docs_part(documentation_url)
                + errors_part(errors)
        },
        ApiFailureView::Transport { description } => description,
    }
}

/// Renders a failure into one line of text.
pub fn format_octocrab_error(err: &ApiFailure) -> (text: String)
    ensures
        text@ == failure_text(err@),
{
    match err {
        ApiFailure::Remote { status, message, documentation_url, errors } => {
            let mut msg = String::from_str("GitHub API error (");
            msg.append(status.as_str());
            msg.append("): ");
            msg.append(message.as_str());
            match documentation_url {
                Some(url) => {
                    msg.append(" | Docs: ");
                    msg.append(url.as_str());
                },
                None => {},
            }
            let ghost head = msg@;
            match errors {
                Some(list) => {
                    if list.len() > 0 {
                        msg.append(" | Errors:");
                        let mut i: usize = 0;
                        while i < list.len()
                            invariant
                                i <= list.len(),
                                msg@ == head + " | Errors:"@ + listed(
                                    list.deep_view().take(i as int),
                                ),
                            decreases list.len() - i,
                        {
                            proof {
                                assert(list.deep_view().take(i + 1).drop_last()
                                    == list.deep_view().take(i as int));
                            }
                            msg.append(" ");
                            msg.append(list[i].as_str());
                            i += 1;
                        }
                        proof {
                            assert(list.deep_view().take(i as int) == list.deep_view());
                        }
                    }
                },
                None => {},
            }
            msg
        },
        ApiFailure::Transport { description } => description.clone(),
    }
}

/// The step of a fetch at which a request failed.
#[derive(Clone, Copy, Debug, PartialEq, Eq, Structural)]
pub enum Stage {
    /// Reading the pull request itself.
    GetPr,
    /// Listing the first page of changed files.
    ListFiles,
    /// Following the link to a further page of changed files.
    Pagination,
    /// Reading the diff.
    GetDiff,
}

impl Stage {
    /// What the text of a failure at this step begins with.
    pub open spec fn prefix(self) -> Seq<char> {
        match self {
            Stage::GetPr => "get PR failed: "@,
            Stage::ListFiles => "list_files failed: "@,
            Stage::Pagination => "list_files pagination failed: "@,
            Stage::GetDiff => "Octocrab get_diff failed: "@,
        }
    }
}

/// The message for a request that failed at `stage`.
pub fn stage_failure_message(stage: Stage, failure: &ApiFailure) -> (message: String)
    ensures
        message@ == stage.prefix() + failure_text(failure@),
{
    let mut message = match stage {
        Stage::GetPr => String::from_str("get PR failed: "),
        Stage::ListFiles => String::from_str("list_files failed: "),
        Stage::Pagination => String::from_str("list_files pagination failed: "),
        Stage::GetDiff => String::from_str("Octocrab get_diff failed: "),
    };
    let text = format_octocrab_error(failure);
    message.append(text.as_str());
    message
}

/// The text of the message for a search that failed.
pub open spec fn search_failure_text(query: Seq<char>, failure: ApiFailureView) -> Seq<char> {
    "Octocrab search failed for `"@ + query + "`: "@ + failure_text(failure)
}

/// The message for the search `query` that failed.
pub fn search_failure_message(query: &str, failure: &ApiFailure) -> (message: String)
    ensures
        message@ == search_failure_text(query@, failure@),
{
    let mut message = String::from_str("Octocrab search failed for `");
    message.append(query);
    message.append("`: ");
    let text = format_octocrab_error(failure);
    message.append(text.as_str());
    message
}

/// The three searches that together find the open pull requests that concern
/// `login`: those it wrote, those it is asked to review, and those it has
/// reviewed.
pub open spec fn search_query_texts(login: Seq<char>) -> Seq<Seq<char>> {
    seq![
        "is:pr is:open author:"@ + login,
        "is:pr is:open review-requested:"@ + login,
        "is:pr is:open reviewed-by:"@ + login,
    ]
}

/// The search queries for `login`, in the order in which they are sent.
pub fn search_queries(login: &str) -> (queries: Vec<String>)
    ensures
        queries.deep_view() == search_query_texts(login@),
{
    let mut authored = String::from_str("is:pr is:open author:");
    authored.append(login);
    let mut requested = String::from_str("is:pr is:open review-requested:");
    requested.append(login);
    let mut reviewed = String::from_str("is:pr is:open reviewed-by:");
    reviewed.append(login);
    let mut queries: Vec<String> = Vec::new();
    queries.push(authored);
    queries.push(requested);
    queries.push(reviewed);
    queries
}

/// Whether an item of the tracker is open.
#[derive(Clone, Copy, Debug, PartialEq, Eq, Structural)]
pub enum IssueState {
    Open,
    Closed,
    /// A state that this library has no name for.
    Unknown,
}

/// One item of a search result, as the tracker's client hands it over.
#[derive(Debug, PartialEq)]
pub struct IssueRecord {
    /// The identifier that the tracker gave the item; it never changes.
    pub id: u64,
    /// The path of the address of the item's repository.
    pub repository_path: String,
    pub number: u64,
    pub state: IssueState,
    pub title: String,
    /// The login of the item's author.
    pub author: String,
    /// When the item was last updated, as ISO-8601 text.
    pub updated_at: String,
}

/// An [`IssueRecord`] as a mathematical value.
pub struct IssueRecordView {
    pub id: u64,
    pub repository_path: Seq<char>,
    pub number: u64,
    pub state: IssueState,
    pub title: Seq<char>,
    pub author: Seq<char>,
    pub updated_at: Seq<char>,
}

impl View for IssueRecord {
    type V = IssueRecordView;

    open spec fn view(&self) -> IssueRecordView {
        IssueRecordView {
            id: self.id,
            repository_path: self.repository_path@,
            number: self.number,
            state: self.state,
            title: self.title@,
            author: self.author@,
            updated_at: self.updated_at@,
        }
    }
}

impl DeepView for IssueRecord {
    type V = IssueRecordView;

    open spec fn deep_view(&self) -> IssueRecordView {
        self@
    }
}

impl Clone for IssueRecord {
    fn clone(&self) -> (copy: Self)
        ensures
            copy == *self,
    {
        IssueRecord {
            id: self.id,
            repository_path: self.repository_path.clone(),
            number: self.number,
            state: self.state,
            title: self.title.clone(),
            author: self.author.clone(),
            updated_at: self.updated_at.clone(),
        }
    }
}

/// Whether an item with the identifier `id` is among `items`.
pub open spec fn has_id(items: Seq<IssueRecordView>, id: u64) -> bool {
    exists|i: int| 0 <= i < items.len() && #[trigger] items[i].id == id
}

/// No two of `items` share an identifier.
pub open spec fn distinct_ids(items: Seq<IssueRecordView>) -> bool {
    forall|i: int, j: int|
        0 <= i < j < items.len() ==> #[trigger] items[i].id != #[trigger] items[j].id
}

/// `items` without repetitions: an item stays where no item before it has its
/// identifier, and those that stay keep their order.
pub open spec fn first_seen(items: Seq<IssueRecordView>) -> Seq<IssueRecordView>
    decreases items.len(),
{
    if items.len() == 0 {
        Seq::empty()
    } else {
        let kept = first_seen(items.drop_last());
        if has_id(items.drop_last(), items.last().id) {
            kept
        } else {
            kept.push(items.last())
        }
    }
}

/// Dropping repetitions neither loses an identifier nor invents one.
pub proof fn lemma_first_seen_keeps_ids(items: Seq<IssueRecordView>, id: u64)
    ensures
        has_id(first_seen(items), id) <==> has_id(items, id),
    decreases items.len(),
{
    if items.len() > 0 {
        let front = items.drop_last();
        let kept = first_seen(front);
        lemma_first_seen_keeps_ids(front, id);
        if has_id(items, id) {
            let i = choose|i: int| 0 <= i < items.len() && #[trigger] items[i].id == id;
            if i < front.len() {
                assert(front[i].id == id);
                let k = choose|k: int| 0 <= k < kept.len() && #[trigger] kept[k].id == id;
                assert(first_seen(items)[k].id == id);
            } else if has_id(front, id) {
                let k = choose|k: int| 0 <= k < kept.len() && #[trigger] kept[k].id == id;
                assert(first_seen(items)[k].id == id);
            } else {
                assert(first_seen(items)[kept.len() as int].id == id);
            }
        }
        if has_id(first_seen(items), id) {
            let k = choose|k: int|
                0 <= k < first_seen(items).len() && #[trigger] first_seen(items)[k].id == id;
            if k < kept.len() {
                assert(kept[k].id == id);
                let i = choose|i: int| 0 <= i < front.len() && #[trigger] front[i].id == id;
                assert(items[i].id == id);
            } else {
                assert(items[items.len() - 1].id == id);
            }
        }
    }
}

/// After repetitions are dropped, every identifier occurs once.
pub proof fn lemma_first_seen_distinct(items: Seq<IssueRecordView>)
    ensures
        distinct_ids(first_seen(items)),
    decreases items.len(),
{
    if items.len() > 0 {
        let front = items.drop_last();
        lemma_first_seen_distinct(front);
        lemma_first_seen_keeps_ids(front, items.last().id);
        let kept = first_seen(front);
        let all = first_seen(items);
        assert forall|i: int, j: int| 0 <= i < j < all.len() implies #[trigger] all[i].id
            != #[trigger] all[j].id by {
            if j < kept.len() {
                assert(kept[i].id != kept[j].id);
            } else {
                assert(all[i] == kept[i]);
                if kept[i].id == items.last().id {
                    assert(has_id(kept, items.last().id));
                }
            }
        }
    }
}

/// Where no identifier repeats, there is nothing to drop.
pub proof fn lemma_first_seen_of_distinct(items: Seq<IssueRecordView>)
    requires
        distinct_ids(items),
    ensures
        first_seen(items) == items,
    decreases items.len(),
{
    if items.len() > 0 {
        let front = items.drop_last();
        assert(distinct_ids(front)) by {
            assert forall|i: int, j: int| 0 <= i < j < front.len() implies #[trigger] front[i].id
                != #[trigger] front[j].id by {
                assert(items[i].id != items[j].id);
            }
        }
        lemma_first_seen_of_distinct(front);
        if has_id(front, items.last().id) {
            let i = choose|i: int| 0 <= i < front.len() && #[trigger] front[i].id == items.last().id;
            assert(items[i].id != items[items.len() - 1].id);
        }
        assert(front.push(items.last()) == items);
    }
}

/// What was seen first stays first: the merged list of a longer input begins
/// with the merged list of the shorter one.
pub proof fn lemma_first_seen_extends(before: Seq<IssueRecordView>, more: Seq<IssueRecordView>)
    ensures
        first_seen(before).len() <= first_seen(before + more).len(),
        first_seen(before + more).take(first_seen(before).len() as int) == first_seen(before),
    decreases more.len(),
{
    if more.len() == 0 {
        assert(before + more == before);
    } else {
        lemma_first_seen_extends(before, more.drop_last());
        assert((before + more).drop_last() == before + more.drop_last());
    }
}

/// Merging in two steps gives what merging in one step gives.
pub proof fn lemma_first_seen_in_steps(before: Seq<IssueRecordView>, more: Seq<IssueRecordView>)
    ensures
        first_seen(first_seen(before) + more) == first_seen(before + more),
    decreases more.len(),
{
    if more.len() == 0 {
        assert(before + more == before);
        assert(first_seen(before) + more == first_seen(before));
        lemma_first_seen_distinct(before);
        lemma_first_seen_of_distinct(first_seen(before));
    } else {
        let front = more.drop_last();
        lemma_first_seen_in_steps(before, front);
        assert((before + more).drop_last() == before + front);
        assert((first_seen(before) + more).drop_last() == first_seen(before) + front);
        lemma_ids_of_concat(before, front, more.last().id);
        lemma_ids_of_concat(first_seen(before), front, more.last().id);
        lemma_first_seen_keeps_ids(before, more.last().id);
    }
}

/// An identifier is in a concatenation exactly if it is in one of the parts.
pub proof fn lemma_ids_of_concat(a: Seq<IssueRecordView>, b: Seq<IssueRecordView>, id: u64)
    ensures
        has_id(a + b, id) <==> has_id(a, id) || has_id(b, id),
{
    if has_id(a, id) {
        let i = choose|i: int| 0 <= i < a.len() && #[trigger] a[i].id == id;
        assert((a + b)[i].id == id);
    }
    if has_id(b, id) {
        let i = choose|i: int| 0 <= i < b.len() && #[trigger] b[i].id == id;
        assert((a + b)[a.len() + i].id == id);
    }
    if has_id(a + b, id) {
        let i = choose|i: int| 0 <= i < (a + b).len() && #[trigger] (a + b)[i].id == id;
        if i < a.len() {
            assert(a[i].id == id);
        } else {
            assert(b[i - a.len()].id == id);
        }
    }
}

/// The identifiers of `items`, as a set.
pub open spec fn id_set(items: Seq<IssueRecordView>) -> Set<u64> {
    Set::new(|id: u64| has_id(items, id))
}

/// A list fetch under way: the searches still to run, and what the searches
/// so far have found, merged.
pub struct ListFetch {
    queries: Vec<String>,
    cursor: usize,
    seen: HashSet<u64>,
    merged: Vec<IssueRecord>,
}

/// A [`ListFetch`] as a mathematical value.
pub struct ListFetchView {
    /// All searches of the fetch, in the order in which they are sent.
    pub queries: Seq<Seq<char>>,
    /// The index of the search that is out.
    pub cursor: nat,
    /// What the searches before that one found, without repetitions.
    pub merged: Seq<IssueRecordView>,
}

/// What a list fetch does next.
pub enum ListProgress {
    /// Send the search that the state names, and come back with the reply.
    Search(ListFetch),
    /// All searches are in: this is the merged list.
    Done(Vec<IssueRecord>),
    /// A search failed: this is the message.
    Failed(String),
}

impl View for ListFetch {
    type V = ListFetchView;

    closed spec fn view(&self) -> ListFetchView {
        ListFetchView {
            queries: self.queries.deep_view(),
            cursor: self.cursor as nat,
            merged: self.merged.deep_view(),
        }
    }
}

impl ListFetch {
    #[verifier::type_invariant]
    spec fn well_formed(self) -> bool {
        &&& self.cursor < self.queries.len()
        &&& distinct_ids(self.merged.deep_view())
        &&& self.seen@ == id_set(self.merged.deep_view())
    }

    /// Starts a list fetch for `login`: the first search goes out, and
    /// nothing is merged yet.
    pub fn begin(login: &str) -> (progress: ListProgress)
        ensures
            progress matches ListProgress::Search(state) && state@ == (ListFetchView {
                queries: search_query_texts(login@),
                cursor: 0,
                merged: Seq::empty(),
            }),
    {
        broadcast use vstd::std_specs::hash::group_hash_axioms;

        let queries = search_queries(login);
        let seen: HashSet<u64> = HashSet::new();
        let merged: Vec<IssueRecord> = Vec::new();
        proof {
            assert(queries.deep_view().len() == 3);
            assert(merged.deep_view() == Seq::<IssueRecordView>::empty());
            assert(seen@ == id_set(merged.deep_view()));
        }
        ListProgress::Search(ListFetch { queries, cursor: 0, seen, merged })
    }

    /// The search that is out.
    pub fn query(&self) -> (query: &String)
        ensures
            self@.cursor < self@.queries.len(),
            query@ == self@.queries[self@.cursor as int],
    {
        proof {
            use_type_invariant(self);
        }
        &self.queries[self.cursor]
    }

    /// Takes the reply to the search that is out. A failure ends the fetch
    /// with its message. A page of results is merged into what was found
    /// before, an item whose identifier was seen already being dropped; then
    /// the next search goes out, or, after the last one, the fetch is done.
    pub fn advance(self, reply: Result<Vec<IssueRecord>, ApiFailure>) -> (progress: ListProgress)
        ensures
            self@.cursor < self@.queries.len(),
            match reply {
                Err(failure) => progress matches ListProgress::Failed(message) && message@
                    == search_failure_text(self@.queries[self@.cursor as int], failure@),
                Ok(page) => if self@.cursor + 1 < self@.queries.len() {
                    progress matches ListProgress::Search(next) && next@ == (ListFetchView {
                        queries: self@.queries,
                        cursor: self@.cursor + 1,
                        merged: first_seen(self@.merged + page.deep_view()),
                    })
                } else {
                    progress matches ListProgress::Done(items) && items.deep_view() == first_seen(
                        self@.merged + page.deep_view(),
                    )
                },
            },
    {
        broadcast use vstd::std_specs::hash::group_hash_axioms;

        proof {
            use_type_invariant(&self);
        }
        let ListFetch { queries, cursor, seen, merged } = self;
        match reply {
            Err(failure) => ListProgress::Failed(
                search_failure_message(queries[cursor].as_str(), &failure),
            ),
            Ok(page) => {
                let mut seen = seen;
                let mut merged = merged;
                let ghost before = merged.deep_view();
                let mut k: usize = 0;
                proof {
                    lemma_first_seen_of_distinct(before);
                }
                while k < page.len()
                    invariant
                        k <= page.len(),
                        merged.deep_view() == first_seen(before + page.deep_view().take(k as int)),
                        seen@ == id_set(before + page.deep_view().take(k as int)),
                    decreases page.len() - k,
                {
                    let ghost input = before + page.deep_view().take(k as int);
                    let ghost grown = before + page.deep_view().take(k + 1);
                    proof {
                        assert(grown.drop_last() == input);
                    }
                    let fresh = seen.insert(page[k].id);
                    if fresh {
                        let item = page[k].clone();
                        merged.push(item);
                    }
                    proof {
                        assert forall|id: u64| #[trigger]
                            seen@.contains(id) <==> has_id(grown, id) by {
                            lemma_ids_of_concat(input, seq![page[k as int]@], id);
                            assert(input + seq![page[k as int]@] == grown);
                            if id == page[k as int].id {
                                assert(seq![page[k as int]@][0].id == id);
                            }
                        }
                    }
                    k += 1;
                }
                proof {
                    assert(page.deep_view().take(k as int) == page.deep_view());
                    lemma_first_seen_distinct(before + page.deep_view());
                    assert forall|id: u64| #[trigger]
                        id_set(before + page.deep_view()).contains(id) <==> id_set(
                            merged.deep_view(),
                        ).contains(id) by {
                        lemma_first_seen_keeps_ids(before + page.deep_view(), id);
                    }
                    assert(id_set(before + page.deep_view()) == id_set(merged.deep_view()));
                }
                if cursor + 1 < queries.len() {
                    ListProgress::Search(ListFetch { queries, cursor: cursor + 1, seen, merged })
                } else {
                    ListProgress::Done(merged)
                }
            },
        }
    }
}

/// A list fetch that gets a page for each of its three searches ends with
/// every item of the three pages once, at the place where it first occurred.
pub proof fn lemma_three_pages_merge(
    first: Seq<IssueRecordView>,
    second: Seq<IssueRecordView>,
    third: Seq<IssueRecordView>,
)
    ensures
        first_seen(first_seen(first_seen(Seq::empty() + first) + second) + third) == first_seen(
            first + second + third,
        ),
        distinct_ids(first_seen(first + second + third)),
        forall|id: u64|
            has_id(first_seen(first + second + third), id) <==> has_id(first, id) || has_id(
                second,
                id,
            ) || has_id(third, id),
{
    lemma_first_seen_in_steps(first, second);
    lemma_first_seen_in_steps(first + second, third);
    lemma_first_seen_distinct(first + second + third);
    assert forall|id: u64|
        has_id(first_seen(first + second + third), id) <==> has_id(first, id) || has_id(
            second,
            id,
        ) || has_id(third, id) by {
        lemma_first_seen_keeps_ids(first + second + third, id);
        lemma_ids_of_concat(first + second, third, id);
        lemma_ids_of_concat(first, second, id);
    }
}

/// One changed file of a pull request, as the tracker's client hands it over.
#[derive(Debug, PartialEq)]
pub struct DiffRecord {
    pub filename: String,
    /// The name of the kind of change, in the client's spelling.
    pub status: String,
    pub additions: u64,
    pub deletions: u64,
    /// The patch text, where the tracker sent one.
    pub patch: Option<String>,
}

/// A [`DiffRecord`] as a mathematical value.
pub struct DiffRecordView {
    pub filename: Seq<char>,
    pub status: Seq<char>,
    pub additions: u64,
    pub deletions: u64,
    pub patch: Option<Seq<char>>,
}

impl View for DiffRecord {
    type V = DiffRecordView;

    open spec fn view(&self) -> DiffRecordView {
        DiffRecordView {
            filename: self.filename@,
            status: self.status@,
            additions: self.additions,
            deletions: self.deletions,
            patch: self.patch.deep_view(),
        }
    }
}

impl DeepView for DiffRecord {
    type V = DiffRecordView;

    open spec fn deep_view(&self) -> DiffRecordView {
        self@
    }
}

/// One page of the list of changed files.
#[derive(Debug, PartialEq)]
pub struct FilePage {
    /// The files of this page, in the tracker's order.
    pub items: Vec<DiffRecord>,
    /// The link to the page after this one, where there is one.
    pub next: Option<String>,
}

/// A changed-files fetch under way: what the pages so far held, and the link
/// to the page that is out.
pub struct FilesFetch {
    head_sha: String,
    files: Vec<DiffRecord>,
    link: String,
}

/// A [`FilesFetch`] as a mathematical value.
pub struct FilesFetchView {
    /// The commit at the head of the pull request.
    pub head_sha: Seq<char>,
    /// The files of all pages so far, in the tracker's order.
    pub files: Seq<DiffRecordView>,
    /// The link to the page that is out.
    pub link: Seq<char>,
}

/// What a changed-files fetch does next.
pub enum FilesProgress {
    /// Get the page behind the link that the state names, and come back with
    /// the reply.
    GetPage(FilesFetch),
    /// No page is left: these are all files, and the head commit.
    Done(Vec<DiffRecord>, String),
    /// Following a link failed: this is the message.
    Failed(String),
}

impl View for FilesFetch {
    type V = FilesFetchView;

    closed spec fn view(&self) -> FilesFetchView {
        FilesFetchView {
            head_sha: self.head_sha@,
            files: self.files.deep_view(),
            link: self.link@,
        }
    }
}

/// Appends the files of `more` to `files`, in order.
fn append_files(files: &mut Vec<DiffRecord>, more: Vec<DiffRecord>)
    ensures
        final(files).deep_view() == old(files).deep_view() + more.deep_view(),
{
    let mut more = more;
    files.append(&mut more);
}

impl FilesFetch {
    /// Starts a changed-files fetch with the head commit of the pull request
    /// and the first page of its files. The fetch goes on where the page
    /// links to a next one, and is done where it does not.
    pub fn begin(head_sha: String, first: FilePage) -> (progress: FilesProgress)
        ensures
            match first.next {
                Some(link) => progress matches FilesProgress::GetPage(state) && state@ == (
                FilesFetchView {
                    head_sha: head_sha@,
                    files: first.items.deep_view(),
                    link: link@,
                }),
                None => progress matches FilesProgress::Done(files, sha) && files.deep_view()
                    == first.items.deep_view() && sha@ == head_sha@,
            },
    {
        let FilePage { items, next } = first;
        match next {
            Some(link) => FilesProgress::GetPage(FilesFetch { head_sha, files: items, link }),
            None => FilesProgress::Done(items, head_sha),
        }
    }

    /// The link to the page that is out.
    pub fn link(&self) -> (link: &String)
        ensures
            link@ == self@.link,
    {
        &self.link
    }

    /// Takes the reply to the request for the page that is out. A failure
    /// ends the fetch with its message. A link that leads to no page ends it
    /// with the files so far. A page adds its files behind those so far; the
    /// fetch then goes on with the page's link to the next one, and is done
    /// where the page has none.
    pub fn advance(self, reply: Result<Option<FilePage>, ApiFailure>) -> (progress: FilesProgress)
        ensures
            match reply {
                Err(failure) => progress matches FilesProgress::Failed(message) && message@
                    == Stage::Pagination.prefix() + failure_text(failure@),
                Ok(None) => progress matches FilesProgress::Done(files, sha) && files.deep_view()
                    == self@.files && sha@ == self@.head_sha,
                Ok(Some(page)) => match page.next {
                    Some(link) => progress matches FilesProgress::GetPage(state) && state@ == (
                    FilesFetchView {
                        head_sha: self@.head_sha,
                        files: self@.files + page.items.deep_view(),
                        link: link@,
                    }),
                    None => progress matches FilesProgress::Done(files, sha) && files.deep_view()
                        == self@.files + page.items.deep_view() && sha@ == self@.head_sha,
                },
            },
    {
        let FilesFetch { head_sha, files, link } = self;
        match reply {
            Err(failure) => FilesProgress::Failed(
                stage_failure_message(Stage::Pagination, &failure),
            ),
            Ok(None) => FilesProgress::Done(files, head_sha),
            Ok(Some(page)) => {
                let FilePage { items, next } = page;
                let mut files = files;
                append_files(&mut files, items);
                match next {
                    Some(link) => FilesProgress::GetPage(FilesFetch { head_sha, files, link }),
                    None => FilesProgress::Done(files, head_sha),
                }
            },
        }
    }
}

/// How many of `paths` are `filename`.
pub open spec fn count_of(paths: Seq<Seq<char>>, filename: Seq<char>) -> nat
    decreases paths.len(),
{
    if paths.len() == 0 {
        0
    } else {
        count_of(paths.drop_last(), filename) + if paths.last() == filename {
            1nat
        } else {
            0nat
        }
    }
}

/// Counts the review comments on one file: the entries of `paths`, the file
/// paths of all review comments of a pull request, that are `filename`.
pub fn count_comments(paths: &Vec<String>, filename: &String) -> (count: usize)
    ensures
        count == count_of(paths.deep_view(), filename@),
{
    let mut count: usize = 0;
    let mut i: usize = 0;
    while i < paths.len()
        invariant
            i <= paths.len(),
            count <= i,
            count == count_of(paths.deep_view().take(i as int), filename@),
        decreases paths.len() - i,
    {
        proof {
            assert(paths.deep_view().take(i + 1).drop_last() == paths.deep_view().take(i as int));
        }
        if paths[i] == *filename {
            count += 1;
        }
        i += 1;
    }
    proof {
        assert(paths.deep_view().take(i as int) == paths.deep_view());
    }
    count
}

} // verus!
