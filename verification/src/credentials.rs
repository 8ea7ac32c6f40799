//! Credentials and the two shapes of a credentials file.

use vstd::prelude::*;
use crate::strings;

verus! {

/// One set of credentials for the Kiro API.
#[derive(Clone, Debug)]
pub struct KiroCredentials {
    /// Number under which the credentials are listed.
    pub id: Option<u64>,
    pub access_token: Option<String>,
    pub refresh_token: Option<String>,
    /// Expiry of the access token.
    pub expires_at: Option<String>,
    /// `idc`, `social` or `api_key`.
    pub auth_method: Option<String>,
    pub client_id: Option<String>,
    pub client_secret: Option<String>,
    /// Smaller numbers are tried first.
    pub priority: u32,
    pub region: Option<String>,
    /// Region for refreshing tokens.
    pub auth_region: Option<String>,
    /// Region for API requests.
    pub api_region: Option<String>,
    /// Name of the endpoint to use in place of the default one.
    pub endpoint: Option<String>,
    pub kiro_api_key: Option<String>,
    /// Further fields of the file, kept as they were read.
    pub extra: Option<String>,
}

/// Credentials over texts.
#[verifier::ext_equal]
pub struct CredentialsView {
    pub id: Option<u64>,
    pub access_token: Option<Seq<char>>,
    pub refresh_token: Option<Seq<char>>,
    pub expires_at: Option<Seq<char>>,
    pub auth_method: Option<Seq<char>>,
    pub client_id: Option<Seq<char>>,
    pub client_secret: Option<Seq<char>>,
    pub priority: u32,
    pub region: Option<Seq<char>>,
    pub auth_region: Option<Seq<char>>,
    pub api_region: Option<Seq<char>>,
    pub endpoint: Option<Seq<char>>,
    pub kiro_api_key: Option<Seq<char>>,
    pub extra: Option<Seq<char>>,
}

impl View for KiroCredentials {
    type V = CredentialsView;

    open spec fn view(&self) -> CredentialsView {
        CredentialsView {
            id: self.id,
            access_token: strings::text_of(self.access_token),
            refresh_token: strings::text_of(self.refresh_token),
            expires_at: strings::text_of(self.expires_at),
            auth_method: strings::text_of(self.auth_method),
            client_id: strings::text_of(self.client_id),
            client_secret: strings::text_of(self.client_secret),
            priority: self.priority,
            region: strings::text_of(self.region),
            auth_region: strings::text_of(self.auth_region),
            api_region: strings::text_of(self.api_region),
            endpoint: strings::text_of(self.endpoint),
            kiro_api_key: strings::text_of(self.kiro_api_key),
            extra: strings::text_of(self.extra),
        }
    }
}

/// Credentials without any value, with the priority that is tried first.
pub open spec fn no_credentials() -> CredentialsView {
    CredentialsView {
        id: None,
        access_token: None,
        refresh_token: None,
        expires_at: None,
        auth_method: None,
        client_id: None,
        client_secret: None,
        priority: 0,
        region: None,
        auth_region: None,
        api_region: None,
        endpoint: None,
        kiro_api_key: None,
        extra: None,
    }
}

impl Default for KiroCredentials {
    fn default() -> (r: KiroCredentials)
        ensures
            r@ == no_credentials(),
    {
        KiroCredentials {
            id: None,
            access_token: None,
            refresh_token: None,
            expires_at: None,
            auth_method: None,
            client_id: None,
            client_secret: None,
            priority: 0,
            region: None,
            auth_region: None,
            api_region: None,
            endpoint: None,
            kiro_api_key: None,
            extra: None,
        }
    }
}

/// The content of a credentials file: one object or an array of objects.
#[derive(Clone, Debug)]
pub enum CredentialsConfig {
    Single(KiroCredentials),
    Multiple(Vec<KiroCredentials>),
}

impl CredentialsConfig {
    /// The credentials in the order of the file.
    pub open spec fn list(self) -> Seq<KiroCredentials> {
        match self {
            CredentialsConfig::Single(credential) => seq![credential],
            CredentialsConfig::Multiple(credentials) => credentials@,
        }
    }

    /// The file holds no credentials.
    pub fn is_empty(&self) -> (r: bool)
        ensures
            r == (self.list().len() == 0),
    {
        match self {
            CredentialsConfig::Single(_) => false,
            CredentialsConfig::Multiple(credentials) => credentials.len() == 0,
        }
    }

    /// The file holds an array.
    pub fn is_multiple(&self) -> (r: bool)
        ensures
            r == (self is Multiple),
    {
        match self {
            CredentialsConfig::Single(_) => false,
            CredentialsConfig::Multiple(_) => true,
        }
    }

    /// The credentials in the order of the file.
    pub fn into_credentials(self) -> (r: Vec<KiroCredentials>)
        ensures
            r@ == self.list(),
    {
        match self {
            CredentialsConfig::Single(credential) => vec![credential],
            CredentialsConfig::Multiple(credentials) => credentials,
        }
    }

    /// The credentials ordered by priority, the smallest number first; equal
    /// priorities keep the order of the file.
    pub fn into_sorted_credentials(self) -> (r: Vec<KiroCredentials>)
        ensures
            is_stable_sort(self.list(), r@),
    {
        sort_by_priority(self.into_credentials())
    }
}

/// Priorities do not decrease from one position to a later one.
pub open spec fn is_sorted_by_priority(list: Seq<KiroCredentials>) -> bool {
    forall|i: int, j: int|
        0 <= i <= j < list.len() ==> (#[trigger] list[i]).priority <= (#[trigger] list[j]).priority
}

/// The credentials of one priority, in the order of the list.
pub open spec fn with_priority(list: Seq<KiroCredentials>, priority: u32) -> Seq<KiroCredentials> {
    list.filter(|credential: KiroCredentials| credential.priority == priority)
}

/// `sorted` is the list ordered by priority, where the credentials of each
/// priority keep their order.
pub open spec fn is_stable_sort(list: Seq<KiroCredentials>, sorted: Seq<KiroCredentials>) -> bool {
    &&& is_sorted_by_priority(sorted)
    &&& forall|priority: u32| #[trigger]
        with_priority(sorted, priority) == with_priority(list, priority)
}

proof fn lemma_with_priority_push(list: Seq<KiroCredentials>, c: KiroCredentials, priority: u32)
    ensures
        with_priority(list.push(c), priority) == (if c.priority == priority {
            with_priority(list, priority).push(c)
        } else {
            with_priority(list, priority)
        }),
{
    reveal(Seq::filter);
    assert(list.push(c).drop_last() =~= list);
}

proof fn lemma_with_priority_insert(
    list: Seq<KiroCredentials>,
    k: int,
    c: KiroCredentials,
    priority: u32,
)
    requires
        0 <= k <= list.len(),
        forall|i: int| k <= i < list.len() ==> (#[trigger] list[i]).priority > c.priority,
    ensures
        with_priority(list.insert(k, c), priority) == (if c.priority == priority {
            with_priority(list, priority).push(c)
        } else {
            with_priority(list, priority)
        }),
    decreases list.len(),
{
    if k == list.len() {
        assert(list.insert(k, c) =~= list.push(c));
        lemma_with_priority_push(list, c, priority);
    } else {
        let rest = list.drop_last();
        let last = list.last();
        assert(list.insert(k, c) =~= rest.insert(k, c).push(last));
        assert(list =~= rest.push(last));
        assert(list[list.len() - 1].priority > c.priority);
        lemma_with_priority_insert(rest, k, c, priority);
        lemma_with_priority_push(rest, last, priority);
        lemma_with_priority_push(rest.insert(k, c), last, priority);
    }
}

/// A list has one order by priority that keeps ties.
pub proof fn law_stable_sort_is_unique(
    list: Seq<KiroCredentials>,
    a: Seq<KiroCredentials>,
    b: Seq<KiroCredentials>,
)
    requires
        is_stable_sort(list, a),
        is_stable_sort(list, b),
    ensures
        a == b,
{
    assert forall|priority: u32| #[trigger]
        with_priority(a, priority) == with_priority(b, priority) by {
        assert(with_priority(a, priority) == with_priority(list, priority));
        assert(with_priority(b, priority) == with_priority(list, priority));
    }
    lemma_sorted_lists_agree(a, b);
}

proof fn lemma_with_priority_occurs(list: Seq<KiroCredentials>, priority: u32)
    requires
        with_priority(list, priority).len() > 0,
    ensures
        exists|i: int| 0 <= i < list.len() && (#[trigger] list[i]).priority == priority,
    decreases list.len(),
{
    reveal(Seq::filter);
    if list.len() > 0 && list.last().priority != priority {
        let rest = list.drop_last();
        assert(list =~= rest.push(list.last()));
        lemma_with_priority_push(rest, list.last(), priority);
        lemma_with_priority_occurs(rest, priority);
        let i = choose|i: int| 0 <= i < rest.len() && (#[trigger] rest[i]).priority == priority;
        assert(list[i].priority == priority);
    } else if list.len() > 0 {
        assert(list[list.len() - 1].priority == priority);
    }
}

proof fn lemma_highest_is_in_both(a: Seq<KiroCredentials>, b: Seq<KiroCredentials>)
    requires
        a.len() > 0,
        is_sorted_by_priority(b),
        with_priority(a, a.last().priority) == with_priority(b, a.last().priority),
    ensures
        b.len() > 0,
        a.last().priority <= b.last().priority,
{
    let p = a.last().priority;
    assert(a =~= a.drop_last().push(a.last()));
    lemma_with_priority_push(a.drop_last(), a.last(), p);
    lemma_with_priority_occurs(b, p);
    let i = choose|i: int| 0 <= i < b.len() && (#[trigger] b[i]).priority == p;
    assert(b[i].priority <= b[b.len() - 1].priority);
}

proof fn lemma_sorted_lists_agree(a: Seq<KiroCredentials>, b: Seq<KiroCredentials>)
    requires
        is_sorted_by_priority(a),
        is_sorted_by_priority(b),
        forall|priority: u32| #[trigger]
            with_priority(a, priority) == with_priority(b, priority),
    ensures
        a == b,
    decreases a.len(),
{
    if a.len() == 0 && b.len() == 0 {
        assert(a =~= b);
    } else {
        if a.len() == 0 {
            assert(with_priority(b, b.last().priority) == with_priority(a, b.last().priority));
            lemma_highest_is_in_both(b, a);
        }
        lemma_highest_is_in_both(a, b);
        assert(with_priority(b, b.last().priority) == with_priority(a, b.last().priority));
        lemma_highest_is_in_both(b, a);
        let a_rest = a.drop_last();
        let b_rest = b.drop_last();
        assert(a =~= a_rest.push(a.last()));
        assert(b =~= b_rest.push(b.last()));
        assert forall|priority: u32|
            with_priority(a_rest, priority) == with_priority(b_rest, priority) && a.last()
                == b.last() by {
            let p = a.last().priority;
            lemma_with_priority_push(a_rest, a.last(), p);
            lemma_with_priority_push(b_rest, b.last(), p);
            assert(with_priority(a, p) == with_priority(b, p));
            assert(with_priority(a, p).last() == a.last());
            assert(with_priority(b, p).last() == b.last());
            assert(with_priority(a, p).drop_last() =~= with_priority(a_rest, p));
            assert(with_priority(b, p).drop_last() =~= with_priority(b_rest, p));
            lemma_with_priority_push(a_rest, a.last(), priority);
            lemma_with_priority_push(b_rest, b.last(), priority);
            assert(with_priority(a, priority) == with_priority(b, priority));
        }
        assert(with_priority(a_rest, 0) == with_priority(b_rest, 0));
        lemma_sorted_lists_agree(a_rest, b_rest);
    }
}

fn sort_by_priority(list: Vec<KiroCredentials>) -> (r: Vec<KiroCredentials>)
    ensures
        is_stable_sort(list@, r@),
{
    let ghost given = list@;
    let mut r: Vec<KiroCredentials> = Vec::new();
    proof {
        assert(given.take(0) =~= r@);
    }
    for c in it: list
        invariant
            it.seq() == given,
            is_sorted_by_priority(r@),
            forall|priority: u32| #[trigger]
                with_priority(r@, priority) == with_priority(given.take(it.index()), priority),
    {
        let ghost n: int = it.index();
        let ghost before = r@;
        let mut k: usize = r.len();
        while k > 0 && r[k - 1].priority > c.priority
            invariant
                k <= r@.len(),
                is_sorted_by_priority(r@),
                forall|i: int| k <= i < r@.len() ==> (#[trigger] r@[i]).priority > c.priority,
            decreases k,
        {
            k = k - 1;
        }
        r.insert(k, c);
        proof {
            assert(given.take(n + 1) =~= given.take(n).push(c));
            assert forall|priority: u32| #[trigger]
                with_priority(r@, priority) == with_priority(given.take(n + 1), priority) by {
                assert(with_priority(before, priority) == with_priority(given.take(n), priority));
                lemma_with_priority_insert(before, k as int, c, priority);
                lemma_with_priority_push(given.take(n), c, priority);
            }
        }
    }
    proof {
        assert(given.take(given.len() as int) =~= given);
    }
    r
}

} // verus!
