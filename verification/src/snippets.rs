use vstd::prelude::*;
use vstd::string::StringExecFns;

use crate::chars::{ascii_lower, chars_eq, chars_eq_str, chars_to_string, skip_chars, str_to_chars, take_chars, to_ascii_lowercase};

verus! {

broadcast use vstd::seq_lib::group_to_multiset_ensures;

/// A point in time: whole seconds since the Unix epoch and the nanoseconds past them.
#[derive(Debug, Clone, Copy, PartialEq, Eq)]
pub struct Timestamp {
    pub secs: i64,
    pub nanos: u32,
}

/// Whether `a` is no later than `b`.
pub open spec fn ts_le(a: Timestamp, b: Timestamp) -> bool {
    a.secs < b.secs || (a.secs == b.secs && a.nanos <= b.nanos)
}

fn ts_le_exec(a: Timestamp, b: Timestamp) -> (r: bool)
    ensures
        r == ts_le(a, b),
{
    a.secs < b.secs || (a.secs == b.secs && a.nanos <= b.nanos)
}

/// A stored code snippet.
#[derive(Debug)]
pub struct Snippet {
    pub name: String,
    pub content: String,
    pub created_at: Timestamp,
}

/// A snippet as plain values.
pub struct SnippetView {
    pub name: Seq<char>,
    pub content: Seq<char>,
    pub created_at: Timestamp,
}

impl View for Snippet {
    type V = SnippetView;

    open spec fn view(&self) -> SnippetView {
        SnippetView { name: self.name@, content: self.content@, created_at: self.created_at }
    }
}

impl Snippet {
    /// A copy of the snippet.
    pub fn duplicate(&self) -> (r: Snippet)
        ensures
            r@ == self@,
    {
        Snippet { name: self.name.clone(), content: self.content.clone(), created_at: self.created_at }
    }
}

pub open spec fn snippets_view(s: Seq<Snippet>) -> Seq<SnippetView> {
    s.map_values(|x: Snippet| x@)
}

/// Errors of the snippet store that do not come from the storage medium.
#[derive(Debug, PartialEq, Eq)]
pub enum AppError {
    /// No snippet has the name.
    NotFound(String),
    /// The storage specification cannot be used.
    InvalidConfig(String),
    /// The command-line arguments do not name one action.
    InvalidArgs(String),
}

pub enum AppErrorView {
    NotFound(Seq<char>),
    InvalidConfig(Seq<char>),
    InvalidArgs(Seq<char>),
}

impl View for AppError {
    type V = AppErrorView;

    open spec fn view(&self) -> AppErrorView {
        match self {
            AppError::NotFound(s) => AppErrorView::NotFound(s@),
            AppError::InvalidConfig(s) => AppErrorView::InvalidConfig(s@),
            AppError::InvalidArgs(s) => AppErrorView::InvalidArgs(s@),
        }
    }
}

pub open spec fn app_error_text(e: AppErrorView) -> Seq<char> {
    match e {
        AppErrorView::NotFound(n) => "snippet '"@ + n + "' not found"@,
        AppErrorView::InvalidConfig(m) => "invalid storage config: "@ + m,
        AppErrorView::InvalidArgs(m) => "invalid arguments: "@ + m,
    }
}

impl AppError {
    /// The human-readable description of the error.
    pub fn message(&self) -> (m: String)
        ensures
            m@ == app_error_text(self@),
    {
        match self {
            AppError::NotFound(n) => {
                let mut m = String::from_str("snippet '");
                m.append(n.as_str());
                m.append("' not found");
                m
            },
            AppError::InvalidConfig(s) => {
                let mut m = String::from_str("invalid storage config: ");
                m.append(s.as_str());
                m
            },
            AppError::InvalidArgs(s) => {
                let mut m = String::from_str("invalid arguments: ");
                m.append(s.as_str());
                m
            },
        }
    }
}

/// The instant that `chrono::DateTime::parse_from_rfc3339` reads from a text, in UTC:
/// whole seconds since the Unix epoch and the nanoseconds past them; `None` where the text
/// is not an RFC 3339 date and time.
pub uninterp spec fn rfc3339_parse(s: Seq<char>) -> Option<(i64, u32)>;

/// Reads an RFC 3339 date and time (`DateTime::parse_from_rfc3339`, then `timestamp` and
/// `timestamp_subsec_nanos`). Trusted: the outcome is the crate's reading of exactly this
/// text (named, not spelled out).
#[verifier::external_body]
fn parse_rfc3339(s: &str) -> (r: Option<(i64, u32)>)
    ensures
        r == rfc3339_parse(s@),
{
    match chrono::DateTime::parse_from_rfc3339(s) {
        Ok(dt) => Some((dt.timestamp(), dt.timestamp_subsec_nanos())),
        Err(_) => None,
    }
}

/// The RFC 3339 text that `chrono` writes for an instant in UTC
/// (`DateTime::<Utc>::from_timestamp`, then `to_rfc3339`); `None` where the instant is out
/// of the crate's range.
pub uninterp spec fn rfc3339_format(secs: i64, nanos: u32) -> Option<Seq<char>>;

/// Writes an instant as RFC 3339 text. Trusted: the outcome is the crate's text for exactly
/// this instant (named, not spelled out).
#[verifier::external_body]
fn format_rfc3339(secs: i64, nanos: u32) -> (r: Option<String>)
    ensures
        r is Some <==> rfc3339_format(secs, nanos) is Some,
        r is Some ==> rfc3339_format(secs, nanos) == Some(r->Some_0@),
{
    chrono::DateTime::<chrono::Utc>::from_timestamp(secs, nanos).map(|dt| dt.to_rfc3339())
}

/// The text under which a snippet's creation time is stored: the instant in RFC 3339.
pub fn created_at_text(t: Timestamp) -> (r: Option<String>)
    ensures
        r is Some <==> rfc3339_format(t.secs, t.nanos) is Some,
        r is Some ==> rfc3339_format(t.secs, t.nanos) == Some(r->Some_0@),
{
    format_rfc3339(t.secs, t.nanos)
}

/// A snippet from its stored fields; the creation time is stored as RFC 3339 text, and
/// `None` where that text cannot be read.
pub fn snippet_from_fields(name: String, content: String, created_at: &str) -> (r: Option<Snippet>)
    ensures
        match rfc3339_parse(created_at@) {
            Some((s, n)) => r matches Some(x) && x@ == (SnippetView {
                name: name@,
                content: content@,
                created_at: Timestamp { secs: s, nanos: n },
            }),
            None => r is None,
        },
{
    match parse_rfc3339(created_at) {
        Some((secs, nanos)) => Some(Snippet { name, content, created_at: Timestamp { secs, nanos } }),
        None => None,
    }
}

/// The snippets whose name is not `name`, in their order.
pub open spec fn without_name(s: Seq<SnippetView>, name: Seq<char>) -> Seq<SnippetView>
    decreases s.len(),
{
    if s.len() == 0 {
        s
    } else if s.last().name == name {
        without_name(s.drop_last(), name)
    } else {
        without_name(s.drop_last(), name).push(s.last())
    }
}

/// The first snippet named `name`.
pub open spec fn first_named(s: Seq<SnippetView>, name: Seq<char>) -> Option<SnippetView>
    decreases s.len(),
{
    if s.len() == 0 {
        None
    } else if s[0].name == name {
        Some(s[0])
    } else {
        first_named(s.drop_first(), name)
    }
}

/// The store after a snippet is created: any snippet with the same name goes, and the new
/// one comes last.
pub open spec fn spec_create(
    s: Seq<SnippetView>,
    name: Seq<char>,
    content: Seq<char>,
    now: Timestamp,
) -> Seq<SnippetView> {
    without_name(s, name).push(SnippetView { name, content, created_at: now })
}

/// `x` placed into the sorted `s` after every snippet created no later than it.
pub open spec fn insert_by_time(s: Seq<SnippetView>, x: SnippetView) -> Seq<SnippetView>
    decreases s.len(),
{
    if s.len() == 0 {
        seq![x]
    } else if ts_le(s.last().created_at, x.created_at) {
        s.push(x)
    } else {
        insert_by_time(s.drop_last(), x).push(s.last())
    }
}

/// The snippets ordered by creation time; snippets created at the same time keep their
/// order (a stable sort).
pub open spec fn sort_by_time(s: Seq<SnippetView>) -> Seq<SnippetView>
    decreases s.len(),
{
    if s.len() == 0 {
        s
    } else {
        insert_by_time(sort_by_time(s.drop_last()), s.last())
    }
}

pub open spec fn sorted_by_time(s: Seq<SnippetView>) -> bool {
    forall|i: int, j: int| 0 <= i <= j < s.len() ==> ts_le(s[i].created_at, s[j].created_at)
}

proof fn lemma_without_name_len(s: Seq<SnippetView>, name: Seq<char>)
    ensures
        without_name(s, name).len() <= s.len(),
        without_name(s, name).len() == s.len() <==> first_named(s, name) is None,
    decreases s.len(),
{
    if s.len() > 0 {
        lemma_without_name_len(s.drop_last(), name);
        lemma_first_named_last(s, name);
    }
}

proof fn lemma_first_named_last(s: Seq<SnippetView>, name: Seq<char>)
    requires
        s.len() > 0,
    ensures
        first_named(s, name) is None <==> (first_named(s.drop_last(), name) is None
            && s.last().name != name),
    decreases s.len(),
{
    if s.len() > 1 {
        lemma_first_named_last(s.drop_first(), name);
        assert(s.drop_first().drop_last() == s.drop_last().drop_first());
        assert(s.drop_last()[0] == s[0]);
        assert(s.drop_first().last() == s.last());
        if s[0].name != name {
            assert(first_named(s, name) == first_named(s.drop_first(), name));
            assert(first_named(s.drop_last(), name) == first_named(s.drop_last().drop_first(), name));
        } else {
            assert(first_named(s.drop_last(), name) == Some(s[0]));
        }
    } else {
        assert(s.drop_last().len() == 0);
        assert(s.last() == s[0]);
        assert(s.drop_first().len() == 0);
    }
}

/// After a delete no snippet of that name is left, so a read of it finds nothing, and
/// removing the name again changes nothing.
pub proof fn lemma_without_name_idempotent(s: Seq<SnippetView>, name: Seq<char>)
    ensures
        without_name(without_name(s, name), name) == without_name(s, name),
        first_named(without_name(s, name), name) is None,
    decreases s.len(),
{
    if s.len() > 0 {
        lemma_without_name_idempotent(s.drop_last(), name);
        let w = without_name(s.drop_last(), name);
        if s.last().name != name {
            assert(w.push(s.last()).drop_last() == w);
            lemma_first_named_last(w.push(s.last()), name);
        }
    }
}

proof fn lemma_first_named_push(w: Seq<SnippetView>, x: SnippetView, n: Seq<char>)
    ensures
        first_named(w.push(x), n) == match first_named(w, n) {
            Some(y) => Some(y),
            None => if x.name == n {
                Some(x)
            } else {
                None
            },
        },
    decreases w.len(),
{
    if w.len() == 0 {
        assert(w.push(x).drop_first().len() == 0);
    } else {
        assert(w.push(x)[0] == w[0]);
        assert(w.push(x).drop_first() == w.drop_first().push(x));
        lemma_first_named_push(w.drop_first(), x, n);
    }
}

proof fn lemma_first_named_without(s: Seq<SnippetView>, name: Seq<char>, n: Seq<char>)
    requires
        n != name,
    ensures
        first_named(without_name(s, name), n) == first_named(s, n),
    decreases s.len(),
{
    if s.len() > 0 {
        lemma_first_named_without(s.drop_last(), name, n);
        lemma_first_named_push(s.drop_last(), s.last(), n);
        assert(s.drop_last().push(s.last()) == s);
        if s.last().name != name {
            lemma_first_named_push(without_name(s.drop_last(), name), s.last(), n);
        }
    }
}

/// Reading a name right after creating it gives the snippet just created.
pub proof fn lemma_read_after_create(
    s: Seq<SnippetView>,
    name: Seq<char>,
    content: Seq<char>,
    now: Timestamp,
)
    ensures
        first_named(spec_create(s, name, content, now), name) == Some(
            SnippetView { name, content, created_at: now },
        ),
{
    lemma_without_name_idempotent(s, name);
    lemma_first_named_push(
        without_name(s, name),
        SnippetView { name, content, created_at: now },
        name,
    );
}

/// Creating or deleting a snippet leaves what every other name reads unchanged.
pub proof fn lemma_other_names_unaffected(
    s: Seq<SnippetView>,
    name: Seq<char>,
    content: Seq<char>,
    now: Timestamp,
    other: Seq<char>,
)
    requires
        other != name,
    ensures
        first_named(spec_create(s, name, content, now), other) == first_named(s, other),
        first_named(without_name(s, name), other) == first_named(s, other),
{
    lemma_first_named_without(s, name, other);
    lemma_first_named_push(
        without_name(s, name),
        SnippetView { name, content, created_at: now },
        other,
    );
}

/// Creating a name again replaces the earlier snippet of that name: the store is what the
/// later create alone would make of it, so each name is stored at most once.
pub proof fn lemma_create_replaces(
    s: Seq<SnippetView>,
    name: Seq<char>,
    first: Seq<char>,
    first_at: Timestamp,
    second: Seq<char>,
    second_at: Timestamp,
)
    ensures
        spec_create(spec_create(s, name, first, first_at), name, second, second_at)
            == spec_create(s, name, second, second_at),
{
    lemma_delete_after_create(s, name, first, first_at);
}

/// Deleting a name right after creating it leaves the store as deleting it alone would.
pub proof fn lemma_delete_after_create(
    s: Seq<SnippetView>,
    name: Seq<char>,
    content: Seq<char>,
    now: Timestamp,
)
    ensures
        without_name(spec_create(s, name, content, now), name) == without_name(s, name),
{
    let w = without_name(s, name);
    let c = spec_create(s, name, content, now);
    assert(c.drop_last() == w);
    lemma_without_name_idempotent(s, name);
}

/// Adds a snippet to the store, replacing any snippet of the same name.
pub fn create_snippet(snippets: Vec<Snippet>, name: &str, content: &str, now: Timestamp) -> (r:
    Vec<Snippet>)
    ensures
        snippets_view(r@) == spec_create(snippets_view(snippets@), name@, content@, now),
{
    let n = str_to_chars(name);
    let mut kept: Vec<Snippet> = Vec::new();
    let mut i: usize = 0;
    let ghost sv = snippets_view(snippets@);
    while i < snippets.len()
        invariant
            i <= snippets.len(),
            n@ == name@,
            sv == snippets_view(snippets@),
            snippets_view(kept@) == without_name(sv.take(i as int), name@),
        decreases snippets.len() - i,
    {
        assert(sv.take(i + 1).drop_last() == sv.take(i as int));
        assert(sv.take(i + 1).last() == snippets@[i as int]@);
        let same = chars_eq(&str_to_chars(snippets[i].name.as_str()), &n);
        if !same {
            let ghost before = kept@;
            kept.push(snippets[i].duplicate());
            assert(snippets_view(kept@) =~= snippets_view(before).push(snippets@[i as int]@));
        }
        i = i + 1;
    }
    assert(sv.take(snippets.len() as int) == sv);
    let ghost before = kept@;
    let fresh = Snippet {
        name: String::from_str(name),
        content: String::from_str(content),
        created_at: now,
    };
    kept.push(fresh);
    assert(snippets_view(kept@) =~= snippets_view(before).push(
        SnippetView { name: name@, content: content@, created_at: now },
    ));
    kept
}

/// The first snippet named `name`; `NotFound` if there is none.
pub fn read_snippet(snippets: &Vec<Snippet>, name: &str) -> (r: Result<Snippet, AppError>)
    ensures
        match first_named(snippets_view(snippets@), name@) {
            Some(x) => r is Ok && r->Ok_0@ == x,
            None => r is Err && r->Err_0@ == AppErrorView::NotFound(name@),
        },
{
    let n = str_to_chars(name);
    let ghost sv = snippets_view(snippets@);
    let mut i: usize = 0;
    assert(sv.skip(0) == sv);
    while i < snippets.len()
        invariant
            i <= snippets.len(),
            n@ == name@,
            sv == snippets_view(snippets@),
            first_named(sv, name@) == first_named(sv.skip(i as int), name@),
        decreases snippets.len() - i,
    {
        assert(sv.skip(i as int)[0] == snippets@[i as int]@);
        assert(sv.skip(i as int).drop_first() == sv.skip(i + 1));
        if chars_eq(&str_to_chars(snippets[i].name.as_str()), &n) {
            return Ok(snippets[i].duplicate());
        }
        i = i + 1;
    }
    Err(AppError::NotFound(String::from_str(name)))
}

/// Removes every snippet named `name`; `NotFound` if there is none.
pub fn delete_snippet(snippets: Vec<Snippet>, name: &str) -> (r: Result<Vec<Snippet>, AppError>)
    ensures
        match first_named(snippets_view(snippets@), name@) {
            Some(_) => r is Ok && snippets_view(r->Ok_0@) == without_name(
                snippets_view(snippets@),
                name@,
            ),
            None => r is Err && r->Err_0@ == AppErrorView::NotFound(name@),
        },
{
    let n = str_to_chars(name);
    let before = snippets.len();
    let mut kept: Vec<Snippet> = Vec::new();
    let mut i: usize = 0;
    let ghost sv = snippets_view(snippets@);
    while i < snippets.len()
        invariant
            i <= snippets.len(),
            n@ == name@,
            sv == snippets_view(snippets@),
            snippets_view(kept@) == without_name(sv.take(i as int), name@),
        decreases snippets.len() - i,
    {
        assert(sv.take(i + 1).drop_last() == sv.take(i as int));
        assert(sv.take(i + 1).last() == snippets@[i as int]@);
        let same = chars_eq(&str_to_chars(snippets[i].name.as_str()), &n);
        if !same {
            let ghost old_kept = kept@;
            kept.push(snippets[i].duplicate());
            assert(snippets_view(kept@) =~= snippets_view(old_kept).push(snippets@[i as int]@));
        }
        i = i + 1;
    }
    assert(sv.take(snippets.len() as int) == sv);
    proof {
        lemma_without_name_len(sv, name@);
    }
    assert(snippets_view(kept@).len() == kept@.len());
    if kept.len() == before {
        return Err(AppError::NotFound(String::from_str(name)));
    }
    Ok(kept)
}

proof fn lemma_insert_by_time_at(s: Seq<SnippetView>, x: SnippetView, k: int)
    requires
        0 <= k <= s.len(),
        forall|j: int| k <= j < s.len() ==> !ts_le(s[j].created_at, x.created_at),
        k == 0 || ts_le(s[k - 1].created_at, x.created_at),
    ensures
        insert_by_time(s, x) == s.insert(k, x),
    decreases s.len() - k,
{
    if k < s.len() {
        lemma_insert_by_time_at(s.drop_last(), x, k);
        assert(s.insert(k, x) =~= s.drop_last().insert(k, x).push(s.last()));
    } else {
        assert(s.insert(k, x) =~= s.push(x));
    }
}

fn insert_by_time_exec(v: &mut Vec<Snippet>, x: Snippet)
    ensures
        snippets_view(final(v)@) == insert_by_time(snippets_view(old(v)@), x@),
{
    let mut k: usize = v.len();
    let ghost s = snippets_view(v@);
    while k > 0 && !ts_le_exec(v[k - 1].created_at, x.created_at)
        invariant
            k <= v.len(),
            s == snippets_view(v@),
            forall|j: int| k <= j < s.len() ==> !ts_le(s[j].created_at, x.created_at),
        decreases k,
    {
        k = k - 1;
    }
    proof {
        lemma_insert_by_time_at(s, x@, k as int);
    }
    let ghost xv = x@;
    v.insert(k, x);
    assert(snippets_view(v@) =~= s.insert(k as int, xv));
}

/// The snippets ordered by creation time, those created at the same time in their order.
pub fn list_by_created_at(snippets: Vec<Snippet>) -> (r: Vec<Snippet>)
    ensures
        snippets_view(r@) == sort_by_time(snippets_view(snippets@)),
{
    let ghost sv = snippets_view(snippets@);
    let mut out: Vec<Snippet> = Vec::new();
    let mut i: usize = 0;
    while i < snippets.len()
        invariant
            i <= snippets.len(),
            sv == snippets_view(snippets@),
            snippets_view(out@) == sort_by_time(sv.take(i as int)),
        decreases snippets.len() - i,
    {
        let x = snippets[i].duplicate();
        assert(x@ == sv[i as int]);
        assert(sv.take(i + 1).drop_last() == sv.take(i as int));
        insert_by_time_exec(&mut out, x);
        i = i + 1;
    }
    assert(sv.take(snippets.len() as int) == sv);
    out
}

proof fn lemma_insert_sorted(s: Seq<SnippetView>, x: SnippetView)
    requires
        sorted_by_time(s),
    ensures
        sorted_by_time(insert_by_time(s, x)),
        insert_by_time(s, x).to_multiset() == s.to_multiset().insert(x),
    decreases s.len(),
{
    if s.len() == 0 {
        assert(seq![x] == Seq::<SnippetView>::empty().push(x));
    } else if ts_le(s.last().created_at, x.created_at) {
        let r = s.push(x);
        assert(insert_by_time(s, x) == r);
        assert forall|i: int, j: int| 0 <= i <= j < r.len() implies ts_le(
            r[i].created_at,
            r[j].created_at,
        ) by {
            if j == s.len() {
                if i < s.len() {
                    assert(ts_le(s[i].created_at, s[s.len() - 1].created_at));
                }
            }
        }
    } else {
        let p = s.drop_last();
        assert forall|i: int, j: int| 0 <= i <= j < p.len() implies ts_le(
            p[i].created_at,
            p[j].created_at,
        ) by {
            assert(p[i] == s[i] && p[j] == s[j]);
        }
        lemma_insert_sorted(p, x);
        let q = insert_by_time(p, x);
        assert(s == p.push(s.last()));
        assert forall|i: int| 0 <= i < q.len() implies ts_le(
            q[i].created_at,
            s.last().created_at,
        ) by {
            assert(q.to_multiset().count(q[i]) > 0);
            assert(p.to_multiset().insert(x).count(q[i]) > 0);
            if q[i] != x {
                assert(p.to_multiset().count(q[i]) > 0);
                assert(p.contains(q[i]));
                let k = choose|k: int| 0 <= k < p.len() && p[k] == q[i];
                assert(ts_le(s[k].created_at, s[s.len() - 1].created_at));
            }
        }
        let r = q.push(s.last());
        assert(insert_by_time(s, x) == r);
        assert forall|i: int, j: int| 0 <= i <= j < r.len() implies ts_le(
            r[i].created_at,
            r[j].created_at,
        ) by {
            if j == q.len() {
                if i < q.len() {
                    assert(ts_le(q[i].created_at, s.last().created_at));
                }
            } else {
                assert(r[i] == q[i] && r[j] == q[j]);
            }
        }
    }
}

/// Listing orders the snippets by creation time and keeps every snippet, each as often as
/// it was stored.
pub proof fn lemma_sort_by_time(s: Seq<SnippetView>)
    ensures
        sorted_by_time(sort_by_time(s)),
        sort_by_time(s).to_multiset() == s.to_multiset(),
    decreases s.len(),
{
    if s.len() > 0 {
        lemma_sort_by_time(s.drop_last());
        lemma_insert_sorted(sort_by_time(s.drop_last()), s.last());
        assert(s == s.drop_last().push(s.last()));
    }
}

/// Listing orders the snippets by their full creation instant, seconds first and then
/// nanoseconds, and keeps every snippet, each as often as it was stored.
pub proof fn lemma_list_ordered_by_instant(s: Seq<SnippetView>)
    ensures
        forall|i: int, j: int|
            0 <= i < j < sort_by_time(s).len() ==> (#[trigger] sort_by_time(s)[i]).created_at.secs
                < (#[trigger] sort_by_time(s)[j]).created_at.secs || (
            sort_by_time(s)[i].created_at.secs == sort_by_time(s)[j].created_at.secs
                && sort_by_time(s)[i].created_at.nanos <= sort_by_time(s)[j].created_at.nanos),
        sort_by_time(s).to_multiset() == s.to_multiset(),
{
    lemma_sort_by_time(s);
    let r = sort_by_time(s);
    assert forall|i: int, j: int| 0 <= i < j < r.len() implies (#[trigger] r[i]).created_at.secs
        < (#[trigger] r[j]).created_at.secs || (r[i].created_at.secs == r[j].created_at.secs
        && r[i].created_at.nanos <= r[j].created_at.nanos) by {
        assert(ts_le(r[i].created_at, r[j].created_at));
    }
}

/// The snippets created at the time `t`, in their order.
pub open spec fn created_at_time(s: Seq<SnippetView>, t: Timestamp) -> Seq<SnippetView>
    decreases s.len(),
{
    if s.len() == 0 {
        s
    } else if s.last().created_at == t {
        created_at_time(s.drop_last(), t).push(s.last())
    } else {
        created_at_time(s.drop_last(), t)
    }
}

proof fn lemma_insert_by_time_same_time(u: Seq<SnippetView>, x: SnippetView, t: Timestamp)
    ensures
        created_at_time(insert_by_time(u, x), t) == if x.created_at == t {
            created_at_time(u, t).push(x)
        } else {
            created_at_time(u, t)
        },
    decreases u.len(),
{
    if u.len() == 0 {
        assert(insert_by_time(u, x) == seq![x]);
        assert(seq![x].drop_last() == u);
    } else if ts_le(u.last().created_at, x.created_at) {
        assert(u.push(x).drop_last() == u);
    } else {
        let v = insert_by_time(u.drop_last(), x);
        lemma_insert_by_time_same_time(u.drop_last(), x, t);
        assert(v.push(u.last()).drop_last() == v);
    }
}

/// Listing is stable: the snippets created at any one time come out in the order in which
/// they were stored.
pub proof fn lemma_sort_by_time_stable(s: Seq<SnippetView>, t: Timestamp)
    ensures
        created_at_time(sort_by_time(s), t) == created_at_time(s, t),
    decreases s.len(),
{
    if s.len() > 0 {
        lemma_sort_by_time_stable(s.drop_last(), t);
        lemma_insert_by_time_same_time(sort_by_time(s.drop_last()), s.last(), t);
    }
}

/// Where the snippets are kept, as read from a `KIND:/path/to/file` specification.
#[derive(Debug, PartialEq, Eq)]
pub enum StorageConfig {
    Json(String),
    Sqlite(String),
}

/// The storage that a `KIND:PATH` specification names: the part before the first `:` is
/// the kind (`JSON` or `SQLITE`), the rest the path.
pub open spec fn spec_storage(spec: Seq<char>) -> Result<(bool, Seq<char>), AppErrorView> {
    match colon_at(spec) {
        None => Err(AppErrorView::InvalidConfig("expected format KIND:/path/to/file"@)),
        Some(i) => {
            let kind = spec.take(i);
            let path = spec.skip(i + 1);
            if kind == "JSON"@ {
                Ok((true, path))
            } else if kind == "SQLITE"@ {
                Ok((false, path))
            } else {
                Err(
                    AppErrorView::InvalidConfig(
                        "unknown storage kind '"@ + kind + "', expected JSON or SQLITE"@,
                    ),
                )
            }
        },
    }
}

/// The position of the first `:`.
pub open spec fn colon_at(s: Seq<char>) -> Option<int> {
    if exists|i: int| 0 <= i < s.len() && s[i] == ':' {
        Some(choose|i: int| 0 <= i < s.len() && s[i] == ':' && forall|j: int| 0 <= j < i ==> s[j] != ':')
    } else {
        None
    }
}

/// Reads a storage specification such as `JSON:/tmp/a.json` or `SQLITE:/tmp/a.sqlite`.
pub fn parse_storage_spec(spec: &str) -> (r: Result<StorageConfig, AppError>)
    ensures
        match spec_storage(spec@) {
            Ok((true, p)) => r matches Ok(StorageConfig::Json(q)) && q@ == p,
            Ok((false, p)) => r matches Ok(StorageConfig::Sqlite(q)) && q@ == p,
            Err(e) => r is Err && r->Err_0@ == e,
        },
{
    let v = str_to_chars(spec);
    let mut i: usize = 0;
    while i < v.len() && v[i] != ':'
        invariant
            i <= v.len(),
            forall|j: int| 0 <= j < i ==> v@[j] != ':',
        decreases v.len() - i,
    {
        i = i + 1;
    }
    if i == v.len() {
        return Err(AppError::InvalidConfig(String::from_str("expected format KIND:/path/to/file")));
    }
    proof {
        let c = choose|c: int| 0 <= c < v@.len() && v@[c] == ':' && forall|j: int| 0 <= j < c ==> v@[j] != ':';
        assert(v@[i as int] == ':');
        if c < i {
        } else if c > i {
            assert(v@[i as int] != ':');
        }
        assert(colon_at(v@) == Some(i as int));
    }
    let kind = take_chars(&v, i);
    let path = chars_to_string(&skip_chars(&v, i + 1));
    if chars_eq_str(&kind, "JSON") {
        Ok(StorageConfig::Json(path))
    } else if chars_eq_str(&kind, "SQLITE") {
        Ok(StorageConfig::Sqlite(path))
    } else {
        let mut m = String::from_str("unknown storage kind '");
        m.append(chars_to_string(&kind).as_str());
        m.append("', expected JSON or SQLITE");
        Err(AppError::InvalidConfig(m))
    }
}

/// The storage that the `SNIPPETS_APP_STORAGE` setting names; without the setting, the JSON
/// file `snippets.json`.
pub fn storage_from_setting(setting: Option<String>) -> (r: Result<StorageConfig, AppError>)
    ensures
        match setting {
            None => r matches Ok(StorageConfig::Json(p)) && p@ == "snippets.json"@,
            Some(s) => match spec_storage(s@) {
                Ok((true, p)) => r matches Ok(StorageConfig::Json(q)) && q@ == p,
                Ok((false, p)) => r matches Ok(StorageConfig::Sqlite(q)) && q@ == p,
                Err(e) => r is Err && r->Err_0@ == e,
            },
        },
{
    match setting {
        Some(s) => parse_storage_spec(s.as_str()),
        None => Ok(StorageConfig::Json(String::from_str("snippets.json"))),
    }
}

/// A store of snippets kept as JSON in one file.
pub struct JsonStorage {
    pub path: String,
}

impl JsonStorage {
    /// A store kept in the file at `path`.
    pub fn new(path: String) -> (s: Self)
        ensures
            s.path == path,
    {
        JsonStorage { path }
    }
}

/// What the command line asks for.
#[derive(Debug, PartialEq, Eq)]
pub enum Action {
    /// Store a snippet under this name, with the content downloaded from the URL if one is
    /// given, and read from standard input otherwise.
    Create { name: String, download: Option<String> },
    Read(String),
    Delete(String),
    List,
}

pub open spec fn count_actions(name: bool, read: bool, delete: bool, list: bool) -> int {
    (if name { 1int } else { 0int }) + (if read { 1int } else { 0int }) + (if delete {
        1int
    } else {
        0int
    }) + (if list { 1int } else { 0int })
}

/// Picks the one action the command line names. Exactly one of `--name`, `--read`,
/// `--delete`, `--list` must be given, and `--download` only with `--name`.
pub fn choose_action(
    name: Option<String>,
    read: Option<String>,
    delete: Option<String>,
    list: bool,
    download: Option<String>,
) -> (r: Result<Action, AppError>)
    ensures
        count_actions(name is Some, read is Some, delete is Some, list) != 1 ==> r is Err
            && r->Err_0@ == AppErrorView::InvalidArgs(
            "exactly one of --name / --read / --delete / --list must be provided"@,
        ),
        count_actions(name is Some, read is Some, delete is Some, list) == 1 && download is Some
            && name is None ==> r is Err && r->Err_0@ == AppErrorView::InvalidArgs(
            "--download can be used only together with --name"@,
        ),
        count_actions(name is Some, read is Some, delete is Some, list) == 1 && (download is None
            || name is Some) ==> r is Ok && (match r->Ok_0 {
            Action::Create { name: n, download: d } => name == Some(n) && download == d,
            Action::Read(n) => read == Some(n),
            Action::Delete(n) => delete == Some(n),
            Action::List => list,
        }),
{
    let mut actions: u8 = 0;
    if name.is_some() {
        actions = actions + 1;
    }
    if read.is_some() {
        actions = actions + 1;
    }
    if delete.is_some() {
        actions = actions + 1;
    }
    if list {
        actions = actions + 1;
    }
    if actions != 1 {
        return Err(
            AppError::InvalidArgs(
                String::from_str(
                    "exactly one of --name / --read / --delete / --list must be provided",
                ),
            ),
        );
    }
    if download.is_some() && name.is_none() {
        return Err(
            AppError::InvalidArgs(
                String::from_str("--download can be used only together with --name"),
            ),
        );
    }
    match name {
        Some(n) => {
            return Ok(Action::Create { name: n, download });
        },
        None => {},
    }
    match read {
        Some(n) => {
            return Ok(Action::Read(n));
        },
        None => {},
    }
    match delete {
        Some(n) => Ok(Action::Delete(n)),
        None => Ok(Action::List),
    }
}

/// Verbosity of the log.
#[derive(Debug, Clone, Copy, PartialEq, Eq)]
pub enum LogLevel {
    Error,
    Warn,
    Info,
    Debug,
    Trace,
}

/// The log level that a setting names, ignoring ASCII case; `Info` for anything else.
pub open spec fn spec_log_level(s: Seq<char>) -> LogLevel {
    let l = ascii_lower(s);
    if l == "error"@ {
        LogLevel::Error
    } else if l == "warn"@ {
        LogLevel::Warn
    } else if l == "debug"@ {
        LogLevel::Debug
    } else if l == "trace"@ {
        LogLevel::Trace
    } else {
        LogLevel::Info
    }
}

/// Reads the log level setting.
pub fn log_level(s: &str) -> (r: LogLevel)
    ensures
        r == spec_log_level(s@),
{
    let l = to_ascii_lowercase(&str_to_chars(s));
    if chars_eq_str(&l, "error") {
        LogLevel::Error
    } else if chars_eq_str(&l, "warn") {
        LogLevel::Warn
    } else if chars_eq_str(&l, "debug") {
        LogLevel::Debug
    } else if chars_eq_str(&l, "trace") {
        LogLevel::Trace
    } else {
        LogLevel::Info
    }
}

} // verus!
