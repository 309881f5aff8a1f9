use vstd::prelude::*;

use crate::chars::{chars_to_string, str_to_chars, take_chars};

verus! {

/// The part of `s` before the first `c`, or all of `s` (`s.split(c).next()`).
pub open spec fn before_first(s: Seq<char>, c: char) -> Seq<char>
    decreases s.len(),
{
    if s.len() == 0 {
        s
    } else if s[0] == c {
        seq![]
    } else {
        seq![s[0]] + before_first(s.drop_first(), c)
    }
}

/// The part of `s` after the last `a` or `b`, or all of `s` (`s.rsplit([a, b]).next()`).
pub open spec fn after_last_of(s: Seq<char>, a: char, b: char) -> Seq<char>
    decreases s.len(),
{
    if s.len() == 0 {
        s
    } else if s.last() == a || s.last() == b {
        seq![]
    } else {
        after_last_of(s.drop_last(), a, b).push(s.last())
    }
}

/// `s` without the `c`s at its end (`s.trim_end_matches(c)`).
pub open spec fn trim_end_char(s: Seq<char>, c: char) -> Seq<char>
    decreases s.len(),
{
    if s.len() > 0 && s.last() == c {
        trim_end_char(s.drop_last(), c)
    } else {
        s
    }
}

/// The position of the last `.` in `s`.
pub open spec fn last_dot(s: Seq<char>) -> Option<int>
    decreases s.len(),
{
    if s.len() == 0 {
        None
    } else if s.last() == '.' {
        Some(s.len() - 1)
    } else {
        last_dot(s.drop_last())
    }
}

/// The stem of a path made of the single component `name` (`Path::file_stem`): none for an
/// empty name, `.` or `..`; the whole name where it has no `.` but a leading one; otherwise
/// what comes before the last `.`.
pub open spec fn file_stem(name: Seq<char>) -> Option<Seq<char>> {
    if name.len() == 0 || name == seq!['.'] || name == seq!['.', '.'] {
        None
    } else {
        match last_dot(name) {
            None => Some(name),
            Some(i) => if i == 0 {
                Some(name)
            } else {
                Some(name.take(i))
            },
        }
    }
}

pub open spec fn digit_char(d: nat) -> char {
    ((d + 48) as u32) as char
}

/// The decimal digits of `n`, without leading zeros (`format!("{n}")`).
pub open spec fn decimal(n: nat) -> Seq<char>
    decreases n,
{
    if n < 10 {
        seq![digit_char(n)]
    } else {
        decimal(n / 10).push(digit_char(n % 10))
    }
}

/// The file name under which the image read from `line` (a path or a URL) is stored:
/// `{index}_{stem}.png`, where the stem is that of the last path segment, without any
/// query, and `image` where there is none.
pub open spec fn spec_derive_name(line: Seq<char>, index: nat) -> Seq<char> {
    let raw = before_first(line, '?');
    let last = after_last_of(raw, '/', '\\');
    let stem = match file_stem(last) {
        Some(st) => if st.len() > 0 {
            st
        } else {
            "image"@
        },
        None => "image"@,
    };
    decimal(index) + "_"@ + stem + ".png"@
}

/// The file name under which the page downloaded from `url` is stored: the last path
/// segment without query and fragment, prefixed with `{index}_`; `index.html` where the
/// segment is empty, and `.html` appended where it holds no `.`.
pub open spec fn spec_name_from_url(url: Seq<char>, index: nat) -> Seq<char> {
    let raw = before_first(url, '?');
    let last = after_last_of(raw, '/', '/');
    let stem = before_first(trim_end_char(last, '/'), '#');
    if stem.len() == 0 {
        decimal(index) + "_index.html"@
    } else if stem.contains('.') {
        decimal(index) + "_"@ + stem
    } else {
        decimal(index) + "_"@ + stem + ".html"@
    }
}

fn digit_of(d: usize) -> (c: char)
    requires
        d < 10,
    ensures
        c == digit_char(d as nat),
{
    let b: u8 = (d as u8) + 48;
    let c = b as char;
    assert(c == digit_char(d as nat));
    c
}

/// The decimal digits of `n`.
pub fn decimal_chars(n: usize) -> (r: Vec<char>)
    ensures
        r@ == decimal(n as nat),
    decreases n,
{
    if n < 10 {
        let mut v: Vec<char> = Vec::new();
        v.push(digit_of(n));
        assert(v@ =~= seq![digit_char(n as nat)]);
        v
    } else {
        let mut v = decimal_chars(n / 10);
        v.push(digit_of(n % 10));
        v
    }
}

fn before_first_char(v: &Vec<char>, c: char) -> (r: Vec<char>)
    ensures
        r@ == before_first(v@, c),
{
    let mut i: usize = 0;
    while i < v.len() && v[i] != c
        invariant
            i <= v.len(),
            forall|j: int| 0 <= j < i ==> v@[j] != c,
        decreases v.len() - i,
    {
        i = i + 1;
    }
    proof {
        lemma_before_first(v@, c, i as int);
    }
    take_chars(v, i)
}

proof fn lemma_before_first(s: Seq<char>, c: char, i: int)
    requires
        0 <= i <= s.len(),
        forall|j: int| 0 <= j < i ==> s[j] != c,
        i == s.len() || s[i] == c,
    ensures
        before_first(s, c) == s.take(i),
    decreases i,
{
    if i > 0 {
        lemma_before_first(s.drop_first(), c, i - 1);
        assert(s.take(i) =~= seq![s[0]] + s.drop_first().take(i - 1));
    } else if s.len() == 0 {
        assert(s.take(0) =~= s);
    } else {
        assert(s.take(0) =~= seq![]);
    }
}

proof fn lemma_after_last(s: Seq<char>, a: char, b: char, k: int)
    requires
        0 <= k <= s.len(),
        forall|j: int| k <= j < s.len() ==> s[j] != a && s[j] != b,
        k == 0 || s[k - 1] == a || s[k - 1] == b,
    ensures
        after_last_of(s, a, b) == s.skip(k),
    decreases s.len() - k,
{
    if k < s.len() {
        lemma_after_last(s.drop_last(), a, b, k);
        assert(s.skip(k) =~= s.drop_last().skip(k).push(s.last()));
    } else if s.len() == 0 {
        assert(s.skip(k) =~= s);
    } else {
        assert(s.skip(k) =~= seq![]);
    }
}

fn after_last_char(v: &Vec<char>, a: char, b: char) -> (r: Vec<char>)
    ensures
        r@ == after_last_of(v@, a, b),
{
    let mut k: usize = v.len();
    while k > 0 && v[k - 1] != a && v[k - 1] != b
        invariant
            k <= v.len(),
            forall|j: int| k <= j < v.len() ==> v@[j] != a && v@[j] != b,
        decreases k,
    {
        k = k - 1;
    }
    proof {
        lemma_after_last(v@, a, b, k as int);
    }
    crate::chars::skip_chars(v, k)
}

proof fn lemma_trim_end_char(s: Seq<char>, c: char, k: int)
    requires
        0 <= k <= s.len(),
        forall|j: int| k <= j < s.len() ==> s[j] == c,
        k == 0 || s[k - 1] != c,
    ensures
        trim_end_char(s, c) == s.take(k),
    decreases s.len() - k,
{
    if k < s.len() {
        lemma_trim_end_char(s.drop_last(), c, k);
        assert(s.drop_last().take(k) == s.take(k));
    } else {
        assert(s.take(k) == s);
    }
}

fn trim_end_char_exec(v: &Vec<char>, c: char) -> (r: Vec<char>)
    ensures
        r@ == trim_end_char(v@, c),
{
    let mut k: usize = v.len();
    while k > 0 && v[k - 1] == c
        invariant
            k <= v.len(),
            forall|j: int| k <= j < v.len() ==> v@[j] == c,
        decreases k,
    {
        k = k - 1;
    }
    proof {
        lemma_trim_end_char(v@, c, k as int);
    }
    take_chars(v, k)
}

proof fn lemma_last_dot(s: Seq<char>, k: int)
    requires
        0 <= k <= s.len(),
        forall|j: int| k <= j < s.len() ==> s[j] != '.',
    ensures
        k == 0 ==> last_dot(s) is None,
        k > 0 && s[k - 1] == '.' ==> last_dot(s) == Some(k - 1),
    decreases s.len() - k,
{
    if k < s.len() {
        lemma_last_dot(s.drop_last(), k);
    }
}

fn file_stem_exec(name: &Vec<char>) -> (r: Option<Vec<char>>)
    ensures
        match file_stem(name@) {
            Some(st) => r is Some && r->Some_0@ == st,
            None => r is None,
        },
{
    if name.len() == 0 || (name.len() == 1 && name[0] == '.') || (name.len() == 2 && name[0]
        == '.' && name[1] == '.') {
        proof {
            if name.len() == 1 {
                assert(name@ =~= seq!['.']);
            }
            if name.len() == 2 {
                assert(name@ =~= seq!['.', '.']);
            }
        }
        return None;
    }
    assert(name@ != seq!['.']) by {
        if name@ == seq!['.'] {
            assert(name@.len() == 1 && name@[0] == '.');
        }
    }
    assert(name@ != seq!['.', '.']) by {
        if name@ == seq!['.', '.'] {
            assert(name@.len() == 2 && name@[0] == '.' && name@[1] == '.');
        }
    }
    let mut k: usize = name.len();
    while k > 0 && name[k - 1] != '.'
        invariant
            k <= name.len(),
            forall|j: int| k <= j < name.len() ==> name@[j] != '.',
        decreases k,
    {
        k = k - 1;
    }
    proof {
        lemma_last_dot(name@, k as int);
    }
    if k <= 1 {
        Some(name.clone())
    } else {
        Some(take_chars(name, k - 1))
    }
}

fn contains_char(v: &Vec<char>, c: char) -> (r: bool)
    ensures
        r == v@.contains(c),
{
    let mut i: usize = 0;
    while i < v.len()
        invariant
            i <= v.len(),
            forall|j: int| 0 <= j < i ==> v@[j] != c,
        decreases v.len() - i,
    {
        if v[i] == c {
            assert(v@[i as int] == c);
            return true;
        }
        i = i + 1;
    }
    false
}

pub(crate) fn append_str(v: &mut Vec<char>, s: &str)
    ensures
        final(v)@ == old(v)@ + s@,
{
    let t = str_to_chars(s);
    let mut i: usize = 0;
    while i < t.len()
        invariant
            i <= t.len(),
            t@ == s@,
            v@ == old(v)@ + t@.take(i as int),
        decreases t.len() - i,
    {
        v.push(t[i]);
        assert(t@.take(i + 1) == t@.take(i as int).push(t@[i as int]));
        i = i + 1;
    }
    assert(t@.take(t.len() as int) == t@);
}

pub(crate) fn append_chars(v: &mut Vec<char>, t: &Vec<char>)
    ensures
        final(v)@ == old(v)@ + t@,
{
    let mut i: usize = 0;
    while i < t.len()
        invariant
            i <= t.len(),
            v@ == old(v)@ + t@.take(i as int),
        decreases t.len() - i,
    {
        v.push(t[i]);
        assert(t@.take(i + 1) == t@.take(i as int).push(t@[i as int]));
        i = i + 1;
    }
    assert(t@.take(t.len() as int) == t@);
}

/// The file name `{index}_{stem}.png` for the image read from `line`.
pub fn derive_name(line: &str, index: usize) -> (r: String)
    ensures
        r@ == spec_derive_name(line@, index as nat),
{
    let v = str_to_chars(line);
    let raw = before_first_char(&v, '?');
    let last = after_last_char(&raw, '/', '\\');
    let mut out = decimal_chars(index);
    append_str(&mut out, "_");
    match file_stem_exec(&last) {
        Some(st) => {
            if st.len() > 0 {
                append_chars(&mut out, &st);
            } else {
                append_str(&mut out, "image");
            }
        },
        None => {
            append_str(&mut out, "image");
        },
    }
    append_str(&mut out, ".png");
    chars_to_string(&out)
}

/// The file name for the page downloaded from `url`.
pub fn name_from_url(url: &str, index: usize) -> (r: String)
    ensures
        r@ == spec_name_from_url(url@, index as nat),
{
    let v = str_to_chars(url);
    let raw = before_first_char(&v, '?');
    let last = after_last_char(&raw, '/', '/');
    let trimmed = trim_end_char_exec(&last, '/');
    let stem = before_first_char(&trimmed, '#');
    let mut out = decimal_chars(index);
    if stem.len() == 0 {
        append_str(&mut out, "_index.html");
    } else if contains_char(&stem, '.') {
        append_str(&mut out, "_");
        append_chars(&mut out, &stem);
    } else {
        append_str(&mut out, "_");
        append_chars(&mut out, &stem);
        append_str(&mut out, ".html");
    }
    chars_to_string(&out)
}

/// The file name `{index}.png` under which the image on line `index` of the list is stored.
pub fn numbered_png_name(index: usize) -> (r: String)
    ensures
        r@ == decimal(index as nat) + ".png"@,
{
    let mut out = decimal_chars(index);
    append_str(&mut out, ".png");
    chars_to_string(&out)
}

} // verus!
