use vstd::prelude::*;
use vstd::string::StringExecFns;

use crate::naming::{append_chars, append_str, decimal, decimal_chars};
use crate::chars::{chars_eq_str, chars_to_string, find_char, first_index, skip_chars, str_to_chars, take_chars};

verus! {

/// A file and the tags it carries.
#[derive(Debug)]
pub struct FileEntry {
    pub path: String,
    pub tags: Vec<String>,
}

/// A file entry as plain values.
pub struct FileEntryView {
    pub path: Seq<char>,
    pub tags: Seq<Seq<char>>,
}

pub open spec fn strs(v: Seq<String>) -> Seq<Seq<char>> {
    v.map_values(|s: String| s@)
}

impl View for FileEntry {
    type V = FileEntryView;

    open spec fn view(&self) -> FileEntryView {
        FileEntryView { path: self.path@, tags: strs(self.tags@) }
    }
}

pub open spec fn entries_view(v: Seq<FileEntry>) -> Seq<FileEntryView> {
    v.map_values(|e: FileEntry| e@)
}

/// An index of tagged files kept in memory (and stored as JSON by its owner).
pub struct JsonIndex {
    pub path: String,
    pub entries: Vec<FileEntry>,
}

/// `tags` with each of `new`, in order, appended unless already present.
pub open spec fn merge_tags(tags: Seq<Seq<char>>, new: Seq<Seq<char>>) -> Seq<Seq<char>>
    decreases new.len(),
{
    if new.len() == 0 {
        tags
    } else {
        let prev = merge_tags(tags, new.drop_last());
        if prev.contains(new.last()) {
            prev
        } else {
            prev.push(new.last())
        }
    }
}

/// The position of the first entry for `path`.
#[verifier::opaque]
pub open spec fn position_of(e: Seq<FileEntryView>, path: Seq<char>) -> Option<int> {
    if exists|i: int| 0 <= i < e.len() && e[i].path == path {
        Some(
            choose|i: int|
                0 <= i < e.len() && e[i].path == path && forall|j: int|
                    0 <= j < i ==> e[j].path != path,
        )
    } else {
        None
    }
}

/// The entries after tagging `path` with `tags`: the first entry for the path gains the
/// tags it lacks; without one, a new entry with exactly `tags` comes last.
pub open spec fn index_add(e: Seq<FileEntryView>, path: Seq<char>, tags: Seq<Seq<char>>) -> Seq<
    FileEntryView,
> {
    match position_of(e, path) {
        Some(i) => e.update(i, FileEntryView { path, tags: merge_tags(e[i].tags, tags) }),
        None => e.push(FileEntryView { path, tags }),
    }
}

/// Whether an entry carries every one of `tags`.
pub open spec fn has_all(entry: FileEntryView, tags: Seq<Seq<char>>) -> bool {
    forall|k: int| 0 <= k < tags.len() ==> entry.tags.contains(tags[k])
}

/// The entries that carry every one of `tags`, in order.
pub open spec fn index_get(e: Seq<FileEntryView>, tags: Seq<Seq<char>>) -> Seq<FileEntryView>
    decreases e.len(),
{
    if e.len() == 0 {
        e
    } else if has_all(e.last(), tags) {
        index_get(e.drop_last(), tags).push(e.last())
    } else {
        index_get(e.drop_last(), tags)
    }
}

/// The entries whose path is not `path`, in order.
pub open spec fn index_remove(e: Seq<FileEntryView>, path: Seq<char>) -> Seq<FileEntryView>
    decreases e.len(),
{
    if e.len() == 0 {
        e
    } else if e.last().path == path {
        index_remove(e.drop_last(), path)
    } else {
        index_remove(e.drop_last(), path).push(e.last())
    }
}

/// No two entries share a path.
pub open spec fn paths_unique(e: Seq<FileEntryView>) -> bool {
    forall|i: int, j: int| 0 <= i < j < e.len() ==> e[i].path != e[j].path
}

fn dup_strings(v: &Vec<String>) -> (r: Vec<String>)
    ensures
        strs(r@) == strs(v@),
{
    let mut r: Vec<String> = Vec::new();
    let mut i: usize = 0;
    while i < v.len()
        invariant
            i <= v.len(),
            strs(r@) == strs(v@.take(i as int)),
        decreases v.len() - i,
    {
        let ghost before = r@;
        r.push(v[i].clone());
        assert(strs(r@) =~= strs(before).push(v@[i as int]@));
        assert(v@.take(i + 1) == v@.take(i as int).push(v@[i as int]));
        assert(strs(v@.take(i + 1)) =~= strs(v@.take(i as int)).push(v@[i as int]@));
        i = i + 1;
    }
    assert(v@.take(v.len() as int) == v@);
    r
}

fn slice_strings(v: &[String]) -> (r: Vec<String>)
    ensures
        strs(r@) == strs(v@),
{
    let mut r: Vec<String> = Vec::new();
    let mut i: usize = 0;
    while i < v.len()
        invariant
            i <= v@.len(),
            strs(r@) == strs(v@.take(i as int)),
        decreases v@.len() - i,
    {
        let ghost before = r@;
        r.push(v[i].clone());
        assert(strs(r@) =~= strs(before).push(v@[i as int]@));
        assert(v@.take(i + 1) == v@.take(i as int).push(v@[i as int]));
        assert(strs(v@.take(i + 1)) =~= strs(v@.take(i as int)).push(v@[i as int]@));
        i = i + 1;
    }
    assert(v@.take(v@.len() as int) == v@);
    r
}

fn contains_string(v: &Vec<String>, s: &String) -> (r: bool)
    ensures
        r == strs(v@).contains(s@),
{
    let mut i: usize = 0;
    while i < v.len()
        invariant
            i <= v.len(),
            forall|j: int| 0 <= j < i ==> v@[j]@ != s@,
        decreases v.len() - i,
    {
        if v[i] == *s {
            assert(strs(v@)[i as int] == s@);
            return true;
        }
        i = i + 1;
    }
    assert forall|j: int| 0 <= j < strs(v@).len() implies strs(v@)[j] != s@ by {
        assert(strs(v@)[j] == v@[j]@);
    }
    false
}

impl FileEntry {
    /// A copy of the entry.
    pub fn duplicate(&self) -> (r: FileEntry)
        ensures
            r@ == self@,
    {
        FileEntry { path: self.path.clone(), tags: dup_strings(&self.tags) }
    }
}

fn find_path(e: &Vec<FileEntry>, path: &str) -> (r: Option<usize>)
    ensures
        r matches Some(i) ==> i < e@.len() && position_of(entries_view(e@), path@) == Some(
            i as int,
        ),
        r is None ==> position_of(entries_view(e@), path@) is None,
{
    reveal(position_of);
    let ghost ev = entries_view(e@);
    let p = String::from_str(path);
    let mut i: usize = 0;
    while i < e.len()
        invariant
            i <= e.len(),
            p@ == path@,
            ev == entries_view(e@),
            forall|j: int| 0 <= j < i ==> ev[j].path != path@,
        decreases e.len() - i,
    {
        if e[i].path == p {
            proof {
                reveal(position_of);
                let ii = i as int;
                assert(ev[ii].path == path@);
                assert(0 <= ii < ev.len() && ev[ii].path == path@ && forall|j: int|
                    0 <= j < ii ==> ev[j].path != path@);
                assert(exists|k: int| 0 <= k < ev.len() && ev[k].path == path@);
                let c = choose|c: int|
                    0 <= c < ev.len() && ev[c].path == path@ && forall|j: int|
                        0 <= j < c ==> ev[j].path != path@;
                assert(0 <= c < ev.len() && ev[c].path == path@);
                if c > ii {
                    assert(ev[ii].path != path@);
                }
                if c < ii {
                    assert(ev[c].path != path@);
                }
                assert(position_of(ev, path@) == Some(ii));
            }
            return Some(i);
        }
        i = i + 1;
    }
    assert(!exists|j: int| 0 <= j < ev.len() && ev[j].path == path@);
    assert(position_of(ev, path@) is None) by {
        reveal(position_of);
    }
    None
}

fn merge_tags_exec(tags: &mut Vec<String>, new: &[String])
    ensures
        strs(final(tags)@) == merge_tags(strs(old(tags)@), strs(new@)),
{
    let ghost base = strs(tags@);
    let mut i: usize = 0;
    while i < new.len()
        invariant
            i <= new@.len(),
            strs(tags@) == merge_tags(base, strs(new@).take(i as int)),
        decreases new@.len() - i,
    {
        let ghost nv = strs(new@);
        assert(nv.take(i + 1).drop_last() == nv.take(i as int));
        assert(nv.take(i + 1).last() == new@[i as int]@);
        if !contains_string(tags, &new[i]) {
            let ghost before = tags@;
            tags.push(new[i].clone());
            assert(strs(tags@) =~= strs(before).push(new@[i as int]@));
        }
        i = i + 1;
    }
    assert(strs(new@).take(new@.len() as int) == strs(new@));
}

fn has_all_exec(entry: &FileEntry, tags: &[String]) -> (r: bool)
    ensures
        r == has_all(entry@, strs(tags@)),
{
    let mut k: usize = 0;
    while k < tags.len()
        invariant
            k <= tags@.len(),
            forall|j: int| 0 <= j < k ==> entry@.tags.contains(strs(tags@)[j]),
        decreases tags@.len() - k,
    {
        if !contains_string(&entry.tags, &tags[k]) {
            assert(!entry@.tags.contains(strs(tags@)[k as int]));
            return false;
        }
        k = k + 1;
    }
    true
}

fn retag_entry(entries: &mut Vec<FileEntry>, i: usize, path: &str, tags: &[String])
    requires
        position_of(entries_view(old(entries)@), path@) == Some(i as int),
        i < old(entries)@.len(),
    ensures
        entries_view(final(entries)@) == index_add(
            entries_view(old(entries)@),
            path@,
            strs(tags@),
        ),
{
    let ghost ev = entries_view(entries@);
    let mut t = dup_strings(&entries[i].tags);
    assert(strs(t@) == ev[i as int].tags);
    merge_tags_exec(&mut t, tags);
    let entry = FileEntry { path: String::from_str(path), tags: t };
    let ghost ent = entry@;
    assert(ent == FileEntryView { path: path@, tags: merge_tags(ev[i as int].tags, strs(tags@)) });
    entries.set(i, entry);
    assert(entries_view(entries@) =~= ev.update(i as int, ent));
}

impl JsonIndex {
    /// An index named `path` holding `entries`.
    pub fn from_entries(path: String, entries: Vec<FileEntry>) -> (r: JsonIndex)
        ensures
            r.path == path,
            entries_view(r.entries@) == entries_view(entries@),
    {
        JsonIndex { path, entries }
    }

    /// Tags the file `path` with `tags`: an existing entry gains the tags it lacks, in
    /// order; otherwise a new entry with exactly `tags` is appended.
    pub fn add(&mut self, path: &str, tags: &[String])
        ensures
            final(self).path == old(self).path,
            entries_view(final(self).entries@) == index_add(
                entries_view(old(self).entries@),
                path@,
                strs(tags@),
            ),
    {
        match find_path(&self.entries, path) {
            Some(i) => {
                retag_entry(&mut self.entries, i, path, tags);
            },
            None => {
                let ghost ev = entries_view(self.entries@);
                let entry = FileEntry { path: String::from_str(path), tags: slice_strings(tags) };
                let ghost ent = entry@;
                self.entries.push(entry);
                assert(entries_view(self.entries@) =~= ev.push(ent));
            },
        }
    }

    /// The entries carrying every one of `tags`, in index order.
    pub fn get(&self, tags: &[String]) -> (r: Vec<FileEntry>)
        ensures
            entries_view(r@) == index_get(entries_view(self.entries@), strs(tags@)),
    {
        let ghost ev = entries_view(self.entries@);
        let mut out: Vec<FileEntry> = Vec::new();
        let mut i: usize = 0;
        while i < self.entries.len()
            invariant
                i <= self.entries.len(),
                ev == entries_view(self.entries@),
                entries_view(out@) == index_get(ev.take(i as int), strs(tags@)),
            decreases self.entries.len() - i,
        {
            assert(ev.take(i + 1).drop_last() == ev.take(i as int));
            assert(ev.take(i + 1).last() == self.entries@[i as int]@);
            if has_all_exec(&self.entries[i], tags) {
                let ghost before = out@;
                out.push(self.entries[i].duplicate());
                assert(entries_view(out@) =~= entries_view(before).push(self.entries@[i as int]@));
            }
            i = i + 1;
        }
        assert(ev.take(self.entries.len() as int) == ev);
        out
    }

    /// Drops every entry for `path`; tells whether there was one.
    pub fn remove(&mut self, path: &str) -> (removed: bool)
        ensures
            final(self).path == old(self).path,
            entries_view(final(self).entries@) == index_remove(
                entries_view(old(self).entries@),
                path@,
            ),
            removed == exists|i: int|
                0 <= i < old(self).entries@.len() && #[trigger] old(self).entries@[i].path@
                    == path@,
    {
        let ghost ev = entries_view(self.entries@);
        let p = String::from_str(path);
        let len_before = self.entries.len();
        let mut kept: Vec<FileEntry> = Vec::new();
        let mut i: usize = 0;
        while i < self.entries.len()
            invariant
                i <= self.entries.len(),
                p@ == path@,
                ev == entries_view(self.entries@),
                entries_view(kept@) == index_remove(ev.take(i as int), path@),
            decreases self.entries.len() - i,
        {
            assert(ev.take(i + 1).drop_last() == ev.take(i as int));
            assert(ev.take(i + 1).last() == self.entries@[i as int]@);
            if self.entries[i].path != p {
                let ghost before = kept@;
                kept.push(self.entries[i].duplicate());
                assert(entries_view(kept@) =~= entries_view(before).push(self.entries@[i as int]@));
            }
            i = i + 1;
        }
        assert(ev.take(self.entries.len() as int) == ev);
        proof {
            lemma_index_remove_len(ev, path@);
            if exists|i: int| 0 <= i < ev.len() && #[trigger] ev[i].path == path@ {
                let i = choose|i: int| 0 <= i < ev.len() && #[trigger] ev[i].path == path@;
                assert(self.entries@[i].path@ == path@);
            }
            if exists|i: int|
                0 <= i < self.entries@.len() && #[trigger] self.entries@[i].path@ == path@ {
                let i = choose|i: int|
                    0 <= i < self.entries@.len() && #[trigger] self.entries@[i].path@ == path@;
                assert(ev[i].path == path@);
            }
        }
        self.entries = kept;
        self.entries.len() < len_before
    }
}

} // verus!

verus! {

proof fn lemma_merge_tags_contains(tags: Seq<Seq<char>>, new: Seq<Seq<char>>)
    ensures
        forall|t: Seq<char>| tags.contains(t) ==> merge_tags(tags, new).contains(t),
        forall|k: int| 0 <= k < new.len() ==> merge_tags(tags, new).contains(new[k]),
        forall|t: Seq<char>|
            merge_tags(tags, new).contains(t) ==> tags.contains(t) || new.contains(t),
    decreases new.len(),
{
    if new.len() > 0 {
        let p = new.drop_last();
        lemma_merge_tags_contains(tags, p);
        let prev = merge_tags(tags, p);
        let m = merge_tags(tags, new);
        assert(m == prev || m == prev.push(new.last()));
        assert forall|t: Seq<char>| prev.contains(t) implies m.contains(t) by {
            let k = choose|k: int| 0 <= k < prev.len() && prev[k] == t;
            assert(m[k] == t);
        }
        assert(m.contains(new.last())) by {
            if prev.contains(new.last()) {
            } else {
                assert(m[prev.len() as int] == new.last());
            }
        }
        assert forall|k: int| 0 <= k < new.len() implies m.contains(new[k]) by {
            if k < new.len() - 1 {
                assert(p[k] == new[k]);
                assert(prev.contains(p[k]));
            }
        }
        assert forall|t: Seq<char>| m.contains(t) implies tags.contains(t) || new.contains(t) by {
            let k = choose|k: int| 0 <= k < m.len() && m[k] == t;
            if k < prev.len() {
                assert(prev[k] == t);
                assert(prev.contains(t));
                if p.contains(t) {
                    let j = choose|j: int| 0 <= j < p.len() && p[j] == t;
                    assert(new[j] == t);
                }
            } else {
                assert(t == new.last());
                assert(new[new.len() - 1] == t);
            }
        }
    }
}

proof fn lemma_first_position_exists(e: Seq<FileEntryView>, path: Seq<char>, i: int)
    requires
        0 <= i < e.len(),
        e[i].path == path,
    ensures
        exists|m: int|
            0 <= m < e.len() && e[m].path == path && forall|j: int|
                0 <= j < m ==> e[j].path != path,
    decreases i,
{
    if exists|j: int| 0 <= j < i && e[j].path == path {
        let j = choose|j: int| 0 <= j < i && e[j].path == path;
        lemma_first_position_exists(e, path, j);
    } else {
        assert(forall|j: int| 0 <= j < i ==> e[j].path != path);
    }
}

proof fn lemma_position_found(e: Seq<FileEntryView>, path: Seq<char>)
    ensures
        position_of(e, path) matches Some(i) ==> 0 <= i < e.len() && e[i].path == path
            && forall|j: int| 0 <= j < i ==> e[j].path != path,
        position_of(e, path) is None ==> forall|j: int| 0 <= j < e.len() ==> e[j].path != path,
{
    reveal(position_of);
    if exists|i: int| 0 <= i < e.len() && e[i].path == path {
        let i = choose|i: int| 0 <= i < e.len() && e[i].path == path;
        lemma_first_position_exists(e, path, i);
    }
}

/// After a file is tagged, the index holds an entry for it that carries every tag given.
pub proof fn lemma_add_then_entry_has_tags(
    e: Seq<FileEntryView>,
    path: Seq<char>,
    tags: Seq<Seq<char>>,
)
    ensures
        exists|i: int|
            0 <= i < index_add(e, path, tags).len() && #[trigger] index_add(e, path, tags)[i].path
                == path && has_all(index_add(e, path, tags)[i], tags),
{
    lemma_position_found(e, path);
    let r = index_add(e, path, tags);
    match position_of(e, path) {
        Some(i) => {
            lemma_merge_tags_contains(e[i].tags, tags);
            assert(r[i].path == path && has_all(r[i], tags));
        },
        None => {
            let n = e.len() as int;
            assert(r[n].tags == tags);
            assert forall|k: int| 0 <= k < tags.len() implies r[n].tags.contains(tags[k]) by {
                assert(r[n].tags[k] == tags[k]);
            }
            assert(r[n].path == path && has_all(r[n], tags));
        },
    }
}

/// A query returns exactly the entries that carry every asked tag, in index order: each
/// returned entry is in the index and carries them, and each such entry is returned.
pub proof fn lemma_get_exact(e: Seq<FileEntryView>, tags: Seq<Seq<char>>)
    ensures
        forall|k: int|
            0 <= k < index_get(e, tags).len() ==> has_all(#[trigger] index_get(e, tags)[k], tags)
                && e.contains(index_get(e, tags)[k]),
        forall|i: int| 0 <= i < e.len() && has_all(e[i], tags) ==> index_get(e, tags).contains(
            e[i],
        ),
    decreases e.len(),
{
    if e.len() > 0 {
        let p = e.drop_last();
        lemma_get_exact(p, tags);
        let g = index_get(p, tags);
        assert forall|k: int| 0 <= k < index_get(e, tags).len() implies has_all(
            #[trigger] index_get(e, tags)[k],
            tags,
        ) && e.contains(index_get(e, tags)[k]) by {
            if k < g.len() {
                assert(index_get(e, tags)[k] == g[k]);
                let j = choose|j: int| 0 <= j < p.len() && p[j] == g[k];
                assert(e[j] == g[k]);
            } else {
                assert(index_get(e, tags)[k] == e.last());
                assert(e[e.len() - 1] == e.last());
            }
        }
        assert forall|i: int| 0 <= i < e.len() && has_all(e[i], tags) implies index_get(
            e,
            tags,
        ).contains(e[i]) by {
            if i < e.len() - 1 {
                assert(p[i] == e[i]);
                assert(g.contains(p[i]));
                let k = choose|k: int| 0 <= k < g.len() && g[k] == p[i];
                assert(index_get(e, tags)[k] == e[i]);
            } else {
                assert(index_get(e, tags) == g.push(e.last()));
                assert(index_get(e, tags)[g.len() as int] == e[i]);
            }
        }
    }
}

proof fn lemma_index_remove_len(e: Seq<FileEntryView>, path: Seq<char>)
    ensures
        index_remove(e, path).len() <= e.len(),
        index_remove(e, path).len() < e.len() <==> exists|i: int|
            0 <= i < e.len() && #[trigger] e[i].path == path,
    decreases e.len(),
{
    if e.len() > 0 {
        let p = e.drop_last();
        lemma_index_remove_len(p, path);
        if exists|i: int| 0 <= i < p.len() && #[trigger] p[i].path == path {
            let i = choose|i: int| 0 <= i < p.len() && #[trigger] p[i].path == path;
            assert(e[i].path == path);
        }
        if exists|i: int| 0 <= i < e.len() && #[trigger] e[i].path == path {
            let i = choose|i: int| 0 <= i < e.len() && #[trigger] e[i].path == path;
            if i < e.len() - 1 {
                assert(p[i].path == path);
            }
        }
    }
}

/// A query returns exactly the entries that carry every asked tag: each returned entry is
/// one of the index's entries and its tags contain each asked tag, and each entry whose tags
/// contain every asked tag is returned.
pub proof fn lemma_get_carries_every_tag(e: Seq<FileEntryView>, tags: Seq<Seq<char>>)
    ensures
        forall|k: int, j: int|
            0 <= k < index_get(e, tags).len() && 0 <= j < tags.len() ==> (#[trigger] index_get(
                e,
                tags,
            )[k]).tags.contains(#[trigger] tags[j]),
        forall|k: int| 0 <= k < index_get(e, tags).len() ==> e.contains(#[trigger] index_get(e, tags)[k]),
        forall|i: int|
            0 <= i < e.len() && (forall|j: int| 0 <= j < tags.len() ==> e[i].tags.contains(
                #[trigger] tags[j],
            )) ==> index_get(e, tags).contains(#[trigger] e[i]),
{
    lemma_get_exact(e, tags);
    assert forall|k: int, j: int|
        0 <= k < index_get(e, tags).len() && 0 <= j < tags.len() implies (#[trigger] index_get(
        e,
        tags,
    )[k]).tags.contains(#[trigger] tags[j]) by {
        assert(has_all(index_get(e, tags)[k], tags));
    }
    assert forall|i: int|
        0 <= i < e.len() && (forall|j: int| 0 <= j < tags.len() ==> e[i].tags.contains(
            #[trigger] tags[j],
        )) implies index_get(e, tags).contains(#[trigger] e[i]) by {
        assert(has_all(e[i], tags));
    }
}

/// After a file is removed, no entry has its path, and every other entry stays, in order.
pub proof fn lemma_remove_then_absent(e: Seq<FileEntryView>, path: Seq<char>)
    ensures
        forall|k: int|
            0 <= k < index_remove(e, path).len() ==> (#[trigger] index_remove(e, path)[k]).path
                != path,
        forall|i: int| 0 <= i < e.len() && e[i].path != path ==> index_remove(e, path).contains(
            e[i],
        ),
    decreases e.len(),
{
    if e.len() > 0 {
        let p = e.drop_last();
        lemma_remove_then_absent(p, path);
        let g = index_remove(p, path);
        assert forall|k: int| 0 <= k < index_remove(e, path).len() implies (
        #[trigger] index_remove(e, path)[k]).path != path by {
            if k < g.len() {
                assert(index_remove(e, path)[k] == g[k]);
            }
        }
        assert forall|i: int| 0 <= i < e.len() && e[i].path != path implies index_remove(
            e,
            path,
        ).contains(e[i]) by {
            if i < e.len() - 1 {
                assert(p[i] == e[i]);
                let k = choose|k: int| 0 <= k < g.len() && g[k] == p[i];
                assert(index_remove(e, path)[k] == e[i]);
            } else {
                assert(index_remove(e, path)[g.len() as int] == e[i]);
            }
        }
    }
}

/// Tagging keeps paths unique: an index in which no two entries share a path stays so.
pub proof fn lemma_add_keeps_paths_unique(
    e: Seq<FileEntryView>,
    path: Seq<char>,
    tags: Seq<Seq<char>>,
)
    requires
        paths_unique(e),
    ensures
        paths_unique(index_add(e, path, tags)),
{
    lemma_position_found(e, path);
    let r = index_add(e, path, tags);
    match position_of(e, path) {
        Some(i) => {
            assert forall|a: int, b: int| 0 <= a < b < r.len() implies r[a].path != r[b].path by {
                assert(r[a].path == e[a].path);
                assert(r[b].path == e[b].path);
            }
        },
        None => {
            assert forall|a: int, b: int| 0 <= a < b < r.len() implies r[a].path != r[b].path by {
                if b < e.len() {
                    assert(r[a] == e[a] && r[b] == e[b]);
                }
            }
        },
    }
}

proof fn lemma_merge_tags_noop(tags: Seq<Seq<char>>, new: Seq<Seq<char>>)
    requires
        forall|k: int| 0 <= k < new.len() ==> tags.contains(new[k]),
    ensures
        merge_tags(tags, new) == tags,
    decreases new.len(),
{
    if new.len() > 0 {
        let p = new.drop_last();
        assert forall|k: int| 0 <= k < p.len() implies tags.contains(p[k]) by {
            assert(p[k] == new[k]);
        }
        lemma_merge_tags_noop(tags, p);
        assert(tags.contains(new[new.len() - 1]));
    }
}

/// Tagging a file twice with the same tags changes nothing the second time.
pub proof fn lemma_add_idempotent(e: Seq<FileEntryView>, path: Seq<char>, tags: Seq<Seq<char>>)
    ensures
        index_add(index_add(e, path, tags), path, tags) == index_add(e, path, tags),
{
    let r = index_add(e, path, tags);
    lemma_position_found(e, path);
    lemma_position_found(r, path);
    match position_of(e, path) {
        Some(i) => {
            lemma_merge_tags_contains(e[i].tags, tags);
            assert forall|j: int| 0 <= j < i implies r[j].path != path by {
                assert(r[j] == e[j]);
            }
            assert(position_of(r, path) == Some(i)) by {
                reveal(position_of);
                assert(0 <= i < r.len() && r[i].path == path && forall|j: int|
                    0 <= j < i ==> r[j].path != path);
                let c = choose|c: int|
                    0 <= c < r.len() && r[c].path == path && forall|j: int|
                        0 <= j < c ==> r[j].path != path;
                if c > i {
                    assert(r[i].path != path);
                }
                if c < i {
                    assert(r[c].path != path);
                }
            }
            lemma_merge_tags_noop(r[i].tags, tags);
            assert(index_add(r, path, tags) =~= r);
        },
        None => {
            let n = e.len() as int;
            assert forall|j: int| 0 <= j < n implies r[j].path != path by {
                assert(r[j] == e[j]);
            }
            assert(position_of(r, path) == Some(n)) by {
                reveal(position_of);
                assert(0 <= n < r.len() && r[n].path == path && forall|j: int|
                    0 <= j < n ==> r[j].path != path);
                let c = choose|c: int|
                    0 <= c < r.len() && r[c].path == path && forall|j: int|
                        0 <= j < c ==> r[j].path != path;
                if c < n {
                    assert(r[c].path != path);
                }
            }
            assert forall|k: int| 0 <= k < tags.len() implies r[n].tags.contains(tags[k]) by {
                assert(r[n].tags[k] == tags[k]);
            }
            lemma_merge_tags_noop(r[n].tags, tags);
            assert(index_add(r, path, tags) =~= r);
        },
    }
}

/// Where an index is kept, as named by a `type:path` setting.
#[derive(Debug, PartialEq, Eq)]
pub enum IndexLocation {
    /// A JSON file at the path.
    Json(String),
    /// An SQLite database at the path.
    Sqlite(String),
}

/// The setting used when none is given.
pub open spec fn default_index_spec() -> Seq<char> {
    "json:.files_index.json"@
}

/// The location that a `type:path` setting names: the part before the first `:` is the
/// type (`json` or `sqlite`), the rest the path. `Ok((true, path))` is JSON, `Ok((false,
/// path))` SQLite.
pub open spec fn spec_index_location(spec: Seq<char>) -> Result<(bool, Seq<char>), Seq<char>> {
    match first_index(spec, ':') {
        None => Err("FILES_INDEX_PATH must be in format type:path"@),
        Some(i) => {
            let kind = spec.take(i);
            let path = spec.skip(i + 1);
            if kind == "json"@ {
                Ok((true, path))
            } else if kind == "sqlite"@ {
                Ok((false, path))
            } else {
                Err("unknown storage type: "@ + kind)
            }
        },
    }
}

/// Reads the index location setting (`FILES_INDEX_PATH`); without one, the index is the
/// JSON file `.files_index.json`. A malformed setting gives the message to report.
pub fn index_location(setting: Option<String>) -> (r: Result<IndexLocation, String>)
    ensures
        ({
            let spec = match setting {
                Some(s) => s@,
                None => default_index_spec(),
            };
            match spec_index_location(spec) {
                Ok((true, p)) => r matches Ok(IndexLocation::Json(q)) && q@ == p,
                Ok((false, p)) => r matches Ok(IndexLocation::Sqlite(q)) && q@ == p,
                Err(m) => r is Err && r->Err_0@ == m,
            }
        }),
{
    let v = match setting {
        Some(s) => str_to_chars(s.as_str()),
        None => str_to_chars("json:.files_index.json"),
    };
    proof {
        reveal_strlit("json:.files_index.json");
    }
    let i = match find_char(&v, ':') {
        Some(i) => i,
        None => {
            return Err(String::from_str("FILES_INDEX_PATH must be in format type:path"));
        },
    };
    let kind = take_chars(&v, i);
    let path = chars_to_string(&skip_chars(&v, i + 1));
    if chars_eq_str(&kind, "json") {
        Ok(IndexLocation::Json(path))
    } else if chars_eq_str(&kind, "sqlite") {
        Ok(IndexLocation::Sqlite(path))
    } else {
        let mut m = String::from_str("unknown storage type: ");
        m.append(chars_to_string(&kind).as_str());
        Err(m)
    }
}

/// The placeholders `?1, ?2, ..., ?n` of a query with `n` parameters.
pub open spec fn placeholders(n: nat) -> Seq<char>
    decreases n,
{
    if n == 0 {
        seq![]
    } else if n == 1 {
        "?1"@
    } else {
        placeholders((n - 1) as nat) + ", ?"@ + decimal(n)
    }
}

/// The query for the entries that carry each of `n` tags: the tags are the parameters `?1`
/// to `?n`, and `?{n + 1}` is their number.
pub open spec fn tag_query_text(n: nat) -> Seq<char> {
    "SELECT e.id, e.path FROM entries e
             JOIN tags t ON t.entry_id = e.id
             WHERE t.tag IN ("@ + placeholders(n) + ")
             GROUP BY e.id
             HAVING COUNT(DISTINCT t.tag) = ?"@ + decimal(n + 1)
}

/// The database query for the entries that carry every one of `tag_count` tags; `None`
/// where no tag is asked for, since then no entry is returned.
pub fn tag_query(tag_count: usize) -> (r: Option<String>)
    requires
        tag_count < usize::MAX,
    ensures
        tag_count == 0 ==> r is None,
        tag_count > 0 ==> (r matches Some(q) && q@ == tag_query_text(tag_count as nat)),
{
    if tag_count == 0 {
        return None;
    }
    let mut out: Vec<char> = str_to_chars(
        "SELECT e.id, e.path FROM entries e
             JOIN tags t ON t.entry_id = e.id
             WHERE t.tag IN (",
    );
    let ghost head = out@;
    append_str(&mut out, "?1");
    let mut k: usize = 1;
    while k < tag_count
        invariant
            1 <= k <= tag_count,
            tag_count < usize::MAX,
            out@ == head + placeholders(k as nat),
        decreases tag_count - k,
    {
        k = k + 1;
        append_str(&mut out, ", ?");
        let d = decimal_chars(k);
        append_chars(&mut out, &d);
        assert(out@ == head + placeholders(k as nat));
    }
    append_str(&mut out, ")
             GROUP BY e.id
             HAVING COUNT(DISTINCT t.tag) = ?");
    let d = decimal_chars(tag_count + 1);
    append_chars(&mut out, &d);
    Some(chars_to_string(&out))
}

} // verus!
