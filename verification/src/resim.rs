//! Commands of the simulator: the expansion of `${name}` placeholders in a
//! transaction manifest, and the metadata of a new mutable-supply token.
use vstd::prelude::*;

use vstd::std_specs::iter::IteratorSpec;

use crate::types::ResourceAddress;

verus! {

broadcast use vstd::string::group_string_axioms;

/// Whether `c` is white space in the sense of Unicode's `White_Space`
/// property, which is what `char::is_whitespace` tests.
pub open spec fn is_white_space(c: char) -> bool {
    let u = c as u32;
    (0x9 <= u <= 0xd) || u == 0x20 || u == 0x85 || u == 0xa0 || u == 0x1680 || (0x2000 <= u
        <= 0x200a) || u == 0x2028 || u == 0x2029 || u == 0x202f || u == 0x205f || u == 0x3000
}

fn white_space(c: char) -> (r: bool)
    ensures
        r == is_white_space(c),
{
    let u = c as u32;
    (0x9 <= u && u <= 0xd) || u == 0x20 || u == 0x85 || u == 0xa0 || u == 0x1680 || (0x2000 <= u
        && u <= 0x200a) || u == 0x2028 || u == 0x2029 || u == 0x202f || u == 0x205f || u == 0x3000
}

/// The text without its leading white space.
pub open spec fn trim_start(s: Seq<char>) -> Seq<char>
    decreases s.len(),
{
    if s.len() > 0 && is_white_space(s[0]) {
        trim_start(s.drop_first())
    } else {
        s
    }
}

/// The text without its trailing white space.
pub open spec fn trim_end(s: Seq<char>) -> Seq<char>
    decreases s.len(),
{
    if s.len() > 0 && is_white_space(s.last()) {
        trim_end(s.drop_last())
    } else {
        s
    }
}

/// The text without its leading and trailing white space.
pub open spec fn trim(s: Seq<char>) -> Seq<char> {
    trim_end(trim_start(s))
}

/// The value of the variable `name` in `env`: that of its first entry of
/// that name, or the empty text where there is none.
pub open spec fn env_value(env: Seq<(String, String)>, name: Seq<char>) -> Seq<char>
    decreases env.len(),
{
    if env.len() == 0 {
        Seq::empty()
    } else if env[0].0@ == name {
        env[0].1@
    } else {
        env_value(env.drop_first(), name)
    }
}

/// From index `j` on, the index of the first `}`, unless a line break comes first.
pub open spec fn scan_close(s: Seq<char>, j: int) -> Option<int>
    decreases s.len() - j,
{
    if j < 0 || j >= s.len() {
        None
    } else if s[j] == '}' {
        Some(j)
    } else if s[j] == '\n' {
        None
    } else {
        scan_close(s, j + 1)
    }
}

/// Where a placeholder `${name}` starts at index `i`, the index of its
/// closing `}`: the name is at least one character long, holds no line
/// break, and ends before the first `}` that follows its first character.
pub open spec fn placeholder_at(s: Seq<char>, i: int) -> Option<int> {
    if 0 <= i && i + 2 < s.len() && s[i] == '$' && s[i + 1] == '{' && s[i + 2] != '\n' {
        scan_close(s, i + 3)
    } else {
        None
    }
}

/// A closing index, where there is one, is at or after the start and holds `}`.
pub proof fn lemma_scan_close_in_range(s: Seq<char>, j: int)
    ensures
        scan_close(s, j) matches Some(k) ==> j <= k < s.len() && s[k] == '}',
    decreases s.len() - j,
{
    if 0 <= j < s.len() && s[j] != '}' && s[j] != '\n' {
        lemma_scan_close_in_range(s, j + 1);
    }
}

/// The text from index `i` on, each placeholder replaced by the value of the
/// variable that it names, its name trimmed of white space.
pub open spec fn expand_from(s: Seq<char>, env: Seq<(String, String)>, i: int) -> Seq<char>
    decreases s.len() - i,
{
    if i < 0 || i >= s.len() {
        Seq::empty()
    } else {
        match placeholder_at(s, i) {
            Some(k) => {
                proof {
                    lemma_scan_close_in_range(s, i + 3);
                }
                env_value(env, trim(s.subrange(i + 2, k))) + expand_from(s, env, k + 1)
            },
            None => seq![s[i]] + expand_from(s, env, i + 1),
        }
    }
}

/// The manifest with every placeholder replaced.
pub open spec fn pre_processed(manifest: Seq<char>, env: Seq<(String, String)>) -> Seq<char> {
    expand_from(manifest, env, 0)
}

/// The characters of a text.
fn chars_of(s: &str) -> (r: Vec<char>)
    ensures
        r@ == s@,
{
    let mut it = s.chars();
    let mut r: Vec<char> = Vec::new();
    loop
        invariant
            r@ + it.remaining() == s@,
            it.obeys_prophetic_iter_laws(),
        decreases s@.len() - r@.len(),
    {
        match it.next() {
            Some(c) => {
                r.push(c);
                assert(r@ + it.remaining() =~= s@);
            },
            None => {
                assert(r@ =~= s@);
                return r;
            },
        }
    }
}

fn find_close(s: &Vec<char>, start: usize) -> (r: Option<usize>)
    ensures
        match scan_close(s@, start as int) {
            Some(k) => r == Some(k as usize),
            None => r is None,
        },
{
    let mut j = start;
    while j < s.len()
        invariant
            start <= j,
            scan_close(s@, j as int) == scan_close(s@, start as int),
        decreases s.len() - j,
    {
        if s[j] == '}' {
            return Some(j);
        } else if s[j] == '\n' {
            return None;
        }
        j += 1;
    }
    None
}

fn placeholder_at_index(s: &Vec<char>, i: usize) -> (r: Option<usize>)
    requires
        i < s@.len(),
    ensures
        match placeholder_at(s@, i as int) {
            Some(k) => r == Some(k as usize),
            None => r is None,
        },
{
    if s.len() - i > 2 && s[i] == '$' && s[i + 1] == '{' && s[i + 2] != '\n' {
        find_close(s, i + 3)
    } else {
        None
    }
}

/// The bounds of `s[lo..hi]` without its leading and trailing white space.
fn trim_bounds(s: &Vec<char>, lo: usize, hi: usize) -> (r: (usize, usize))
    requires
        lo <= hi <= s@.len(),
    ensures
        lo <= r.0 <= r.1 <= hi,
        s@.subrange(r.0 as int, r.1 as int) == trim(s@.subrange(lo as int, hi as int)),
{
    let mut a = lo;
    while a < hi && white_space(s[a])
        invariant
            lo <= a <= hi,
            hi <= s@.len(),
            trim_start(s@.subrange(lo as int, hi as int)) == trim_start(
                s@.subrange(a as int, hi as int),
            ),
        decreases hi - a,
    {
        assert(s@.subrange(a as int, hi as int).drop_first() =~= s@.subrange(a + 1, hi as int));
        a += 1;
    }
    assert(trim_start(s@.subrange(a as int, hi as int)) == s@.subrange(a as int, hi as int));
    let mut b = hi;
    while b > a && white_space(s[b - 1])
        invariant
            a <= b <= hi,
            hi <= s@.len(),
            trim_end(s@.subrange(a as int, hi as int)) == trim_end(s@.subrange(a as int, b as int)),
        decreases b - a,
    {
        assert(s@.subrange(a as int, b as int).drop_last() =~= s@.subrange(a as int, b - 1));
        b -= 1;
    }
    assert(trim_end(s@.subrange(a as int, b as int)) == s@.subrange(a as int, b as int));
    (a, b)
}

/// Whether `s[lo..hi]` is the text `t`.
fn chars_equal_str(s: &Vec<char>, lo: usize, hi: usize, t: &str) -> (r: bool)
    requires
        lo <= hi <= s@.len(),
    ensures
        r == (s@.subrange(lo as int, hi as int) == t@),
{
    let n = t.unicode_len();
    if n != hi - lo {
        return false;
    }
    let mut i: usize = 0;
    while i < n
        invariant
            lo <= hi <= s@.len(),
            n == hi - lo,
            n == t@.len(),
            i <= n,
            forall|j: int| 0 <= j < i ==> s@[lo + j] == t@[j],
        decreases n - i,
    {
        if s[lo + i] != t.get_char(i) {
            assert(s@.subrange(lo as int, hi as int)[i as int] != t@[i as int]);
            return false;
        }
        i += 1;
    }
    assert(s@.subrange(lo as int, hi as int) =~= t@);
    true
}

/// The value in `env` of the variable whose name is `s[lo..hi]`.
fn env_lookup<'a>(env: &'a Vec<(String, String)>, s: &Vec<char>, lo: usize, hi: usize) -> (r:
    &'a str)
    requires
        lo <= hi <= s@.len(),
    ensures
        r@ == env_value(env@, s@.subrange(lo as int, hi as int)),
{
    let ghost name = s@.subrange(lo as int, hi as int);
    let mut i: usize = 0;
    assert(env@.subrange(0, env@.len() as int) =~= env@);
    while i < env.len()
        invariant
            i <= env@.len(),
            lo <= hi <= s@.len(),
            name == s@.subrange(lo as int, hi as int),
            env_value(env@, name) == env_value(env@.subrange(i as int, env@.len() as int), name),
        decreases env@.len() - i,
    {
        let ghost rest = env@.subrange(i as int, env@.len() as int);
        assert(rest.drop_first() =~= env@.subrange(i + 1, env@.len() as int));
        if chars_equal_str(s, lo, hi, env[i].0.as_str()) {
            return env[i].1.as_str();
        }
        i += 1;
    }
    proof {
        reveal_strlit("");
    }
    ""
}

impl Run {
    /// Replaces every `${name}` placeholder of a manifest by the value of
    /// the variable `name` in `env`, the name trimmed of white space; a
    /// variable that `env` lacks counts as empty.
    pub fn pre_process_manifest(manifest: &str, env: &Vec<(String, String)>) -> (r: String)
        ensures
            r@ == pre_processed(manifest@, env@),
    {
        let s = chars_of(manifest);
        let n = s.len();
        let mut out = String::new();
        let mut run_start: usize = 0;
        let mut i: usize = 0;
        assert(out@ + s@.subrange(0, 0) + expand_from(s@, env@, 0) =~= expand_from(s@, env@, 0));
        while i < n
            invariant
                n == s@.len(),
                s@ == manifest@,
                run_start <= i <= n,
                out@ + s@.subrange(run_start as int, i as int) + expand_from(s@, env@, i as int)
                    == expand_from(s@, env@, 0),
            decreases n - i,
        {
            match placeholder_at_index(&s, i) {
                Some(k) => {
                    proof {
                        lemma_scan_close_in_range(s@, i + 3);
                    }
                    let ghost before = out@;
                    let piece = manifest.substring_char(run_start, i);
                    out.append(piece);
                    let (lo, hi) = trim_bounds(&s, i + 2, k);
                    let value = env_lookup(env, &s, lo, hi);
                    out.append(value);
                    proof {
                        let ghost v = env_value(env@, trim(s@.subrange(i + 2, k as int)));
                        assert(expand_from(s@, env@, i as int) == v + expand_from(
                            s@,
                            env@,
                            k + 1,
                        ));
                        assert(out@ == before + s@.subrange(run_start as int, i as int) + v);
                        assert(s@.subrange(k + 1, k + 1) =~= Seq::<char>::empty());
                        assert(out@ + s@.subrange(k + 1, k + 1) + expand_from(s@, env@, k + 1)
                            =~= before + s@.subrange(run_start as int, i as int) + (v
                            + expand_from(s@, env@, k + 1)));
                    }
                    i = k + 1;
                    run_start = i;
                },
                None => {
                    proof {
                        assert(expand_from(s@, env@, i as int) == seq![s@[i as int]]
                            + expand_from(s@, env@, i + 1));
                        assert(s@.subrange(run_start as int, i + 1) =~= s@.subrange(
                            run_start as int,
                            i as int,
                        ) + seq![s@[i as int]]);
                        assert(out@ + s@.subrange(run_start as int, i + 1) + expand_from(
                            s@,
                            env@,
                            i + 1,
                        ) =~= out@ + s@.subrange(run_start as int, i as int) + (seq![s@[i as int]]
                            + expand_from(s@, env@, i + 1)));
                    }
                    i += 1;
                },
            }
        }
        let piece = manifest.substring_char(run_start, n);
        out.append(piece);
        assert(out@ =~= expand_from(s@, env@, 0));
        out
    }
}

/// Compiles, signs and runs a transaction manifest.
pub struct Run {
    /// The path to a transaction manifest file.
    pub path: String,
    /// The private keys used for signing, separated by comma.
    pub signing_keys: Option<String>,
    /// Turn on tracing.
    pub trace: bool,
}

/// A manifest in which no `$` occurs is left as it is.
pub proof fn law_manifest_without_placeholders_is_unchanged(
    manifest: Seq<char>,
    env: Seq<(String, String)>,
)
    requires
        forall|i: int| 0 <= i < manifest.len() ==> manifest[i] != '$',
    ensures
        pre_processed(manifest, env) == manifest,
{
    lemma_expand_plain(manifest, env, 0);
    assert(manifest.subrange(0, manifest.len() as int) =~= manifest);
}

proof fn lemma_expand_plain(s: Seq<char>, env: Seq<(String, String)>, i: int)
    requires
        0 <= i <= s.len(),
        forall|j: int| 0 <= j < s.len() ==> s[j] != '$',
    ensures
        expand_from(s, env, i) == s.subrange(i, s.len() as int),
    decreases s.len() - i,
{
    if i < s.len() {
        lemma_expand_plain(s, env, i + 1);
        assert(s.subrange(i, s.len() as int) =~= seq![s[i]] + s.subrange(i + 1, s.len() as int));
    } else {
        assert(s.subrange(i, s.len() as int) =~= Seq::<char>::empty());
    }
}

/// The metadata entry for `key`, where a value is given.
pub open spec fn metadata_entry(key: Seq<char>, value: Option<String>) -> Seq<(Seq<char>, Seq<char>)> {
    match value {
        Some(v) => seq![(key, v@)],
        None => Seq::empty(),
    }
}

/// Create a token with mutable supply.
pub struct NewTokenMutable {
    /// The minter resource address.
    pub minter_resource_address: ResourceAddress,
    /// The symbol.
    pub symbol: Option<String>,
    /// The name.
    pub name: Option<String>,
    /// The description.
    pub description: Option<String>,
    /// The website URL.
    pub url: Option<String>,
    /// The ICON url.
    pub icon_url: Option<String>,
    /// Output a transaction manifest without execution.
    pub manifest: Option<String>,
    /// The private keys used for signing, separated by comma.
    pub signing_keys: Option<String>,
    /// Turn on tracing.
    pub trace: bool,
}

impl NewTokenMutable {
    /// The metadata of the new token, as pairs of key and value.
    pub open spec fn spec_metadata(&self) -> Seq<(Seq<char>, Seq<char>)> {
        metadata_entry("symbol"@, self.symbol) + metadata_entry("name"@, self.name)
            + metadata_entry("description"@, self.description) + metadata_entry("url"@, self.url)
            + metadata_entry("icon_url"@, self.icon_url)
    }

    /// The metadata of the new token: one entry for each of the symbol, the
    /// name, the description, the URL and the icon URL that is given.
    pub fn metadata(&self) -> (r: Vec<(String, String)>)
        ensures
            r@.map_values(|p: (String, String)| (p.0@, p.1@)) == self.spec_metadata(),
    {
        let mut r: Vec<(String, String)> = Vec::new();
        push_entry(&mut r, "symbol", &self.symbol);
        push_entry(&mut r, "name", &self.name);
        push_entry(&mut r, "description", &self.description);
        push_entry(&mut r, "url", &self.url);
        push_entry(&mut r, "icon_url", &self.icon_url);
        assert(r@.map_values(|p: (String, String)| (p.0@, p.1@)) =~= self.spec_metadata());
        r
    }
}

fn push_entry(r: &mut Vec<(String, String)>, key: &str, value: &Option<String>)
    ensures
        final(r)@.map_values(|p: (String, String)| (p.0@, p.1@)) == old(r)@.map_values(
            |p: (String, String)| (p.0@, p.1@),
        ) + metadata_entry(key@, *value),
{
    let ghost before = old(r)@;
    match value {
        Some(v) => {
            r.push((key.to_owned(), v.clone()));
        },
        None => {},
    }
    assert(r@.map_values(|p: (String, String)| (p.0@, p.1@)) =~= before.map_values(
        |p: (String, String)| (p.0@, p.1@),
    ) + metadata_entry(key@, *value));
}

/// The value of a variable is that of the first entry whose key is its name
/// exactly; where no key is its name, the value is empty. An entry whose key
/// differs from the name, such as a proper prefix of it, never supplies the value.
pub proof fn law_env_value_is_first_exact_match(
    env: Seq<(String, String)>,
    name: Seq<char>,
    k: int,
)
    ensures
        (0 <= k < env.len() && env[k].0@ == name && forall|j: int| 0 <= j < k ==> env[j].0@ != name)
            ==> env_value(env, name) == env[k].1@,
        (forall|j: int| 0 <= j < env.len() ==> env[j].0@ != name) ==> env_value(env, name)
            == Seq::<char>::empty(),
    decreases env.len(),
{
    if env.len() > 0 {
        let rest = env.drop_first();
        law_env_value_is_first_exact_match(rest, name, k - 1);
        if 0 <= k < env.len() && env[k].0@ == name && forall|j: int| 0 <= j < k ==> env[j].0@ != name {
            if k > 0 {
                assert(env[0].0@ != name);
                assert forall|j: int| 0 <= j < k - 1 implies rest[j].0@ != name by {
                    assert(rest[j] == env[j + 1]);
                }
                assert(rest[k - 1] == env[k]);
            }
        }
        if forall|j: int| 0 <= j < env.len() ==> env[j].0@ != name {
            assert(env[0].0@ != name);
            assert forall|j: int| 0 <= j < rest.len() implies rest[j].0@ != name by {
                assert(rest[j] == env[j + 1]);
            }
        }
    }
}

/// Text without `$` expands to itself, whatever follows it.
proof fn lemma_expand_through_plain(s: Seq<char>, env: Seq<(String, String)>, i: int, m: int)
    requires
        0 <= i <= m <= s.len(),
        forall|j: int| i <= j < m ==> s[j] != '$',
    ensures
        expand_from(s, env, i) == s.subrange(i, m) + expand_from(s, env, m),
    decreases m - i,
{
    if i < m {
        lemma_expand_through_plain(s, env, i + 1, m);
        assert(s.subrange(i, m) =~= seq![s[i]] + s.subrange(i + 1, m));
        assert(expand_from(s, env, i) == seq![s[i]] + expand_from(s, env, i + 1));
    } else {
        assert(s.subrange(i, m) =~= Seq::<char>::empty());
    }
}

/// Within a name free of `}` and line breaks, the closing brace is the one
/// that follows the name.
proof fn lemma_scan_to_close(s: Seq<char>, j: int, k: int)
    requires
        0 <= j <= k < s.len(),
        s[k] == '}',
        forall|i: int| j <= i < k ==> s[i] != '}' && s[i] != '\n',
    ensures
        scan_close(s, j) == Some(k),
    decreases k - j,
{
    if j < k {
        lemma_scan_to_close(s, j + 1, k);
    }
}

/// A placeholder `${n}` between two texts free of `$` is replaced by the value
/// of the variable whose name is `n` trimmed of white space: the value of the
/// first entry whose key is that name exactly, or the empty text where no key
/// is. The texts around it are kept.
pub proof fn law_placeholder_takes_named_value(
    p: Seq<char>,
    n: Seq<char>,
    q: Seq<char>,
    env: Seq<(String, String)>,
    k: int,
)
    requires
        forall|i: int| 0 <= i < p.len() ==> p[i] != '$',
        forall|i: int| 0 <= i < q.len() ==> q[i] != '$',
        n.len() > 0,
        forall|i: int| 0 <= i < n.len() ==> n[i] != '}' && n[i] != '\n',
    ensures
        pre_processed(p + seq!['$', '{'] + n + seq!['}'] + q, env) == p + env_value(env, trim(n))
            + q,
        (0 <= k < env.len() && env[k].0@ == trim(n) && forall|j: int|
            0 <= j < k ==> env[j].0@ != trim(n)) ==> pre_processed(
            p + seq!['$', '{'] + n + seq!['}'] + q,
            env,
        ) == p + env[k].1@ + q,
        (forall|j: int| 0 <= j < env.len() ==> env[j].0@ != trim(n)) ==> pre_processed(
            p + seq!['$', '{'] + n + seq!['}'] + q,
            env,
        ) == p + q,
{
    let s = p + seq!['$', '{'] + n + seq!['}'] + q;
    let a = p.len() as int;
    let close = a + 2 + n.len();
    assert(s[a] == '$' && s[a + 1] == '{');
    assert forall|i: int| 0 <= i < a implies s[i] != '$' by {
        assert(s[i] == p[i]);
    }
    lemma_expand_through_plain(s, env, 0, a);
    assert forall|i: int| a + 2 <= i < close implies s[i] != '}' && s[i] != '\n' by {
        assert(s[i] == n[i - a - 2]);
    }
    assert(s[close] == '}');
    assert(s[a + 2] == n[0]);
    lemma_scan_to_close(s, a + 3, close);
    assert(placeholder_at(s, a) == Some(close));
    assert(s.subrange(a + 2, close) =~= n);
    assert(expand_from(s, env, a) == env_value(env, trim(n)) + expand_from(s, env, close + 1));
    assert forall|i: int| close + 1 <= i < s.len() implies s[i] != '$' by {
        assert(s[i] == q[i - close - 1]);
    }
    lemma_expand_through_plain(s, env, close + 1, s.len() as int);
    assert(expand_from(s, env, s.len() as int) == Seq::<char>::empty());
    assert(s.subrange(0, a) =~= p);
    assert(s.subrange(close + 1, s.len() as int) =~= q);
    assert(s.subrange(close + 1, s.len() as int) + Seq::<char>::empty() =~= q);
    law_env_value_is_first_exact_match(env, trim(n), k);
    assert(pre_processed(s, env) =~= p + env_value(env, trim(n)) + q);
    assert(p + Seq::<char>::empty() + q =~= p + q);
}

proof fn lemma_concat_contains<A>(a: Seq<A>, b: Seq<A>, x: A)
    ensures
        (a + b).contains(x) <==> (a.contains(x) || b.contains(x)),
{
    if (a + b).contains(x) {
        let i = choose|i: int| 0 <= i < (a + b).len() && (a + b)[i] == x;
        if i < a.len() {
            assert(a[i] == x);
        } else {
            assert(b[i - a.len()] == x);
        }
    }
    if a.contains(x) {
        let i = choose|i: int| 0 <= i < a.len() && a[i] == x;
        assert((a + b)[i] == x);
    }
    if b.contains(x) {
        let i = choose|i: int| 0 <= i < b.len() && b[i] == x;
        assert((a + b)[a.len() + i] == x);
    }
}

/// Whether an optional field is given with the value `v`.
pub open spec fn given(field: Option<String>, v: Seq<char>) -> bool {
    match field {
        Some(s) => s@ == v,
        None => false,
    }
}

proof fn lemma_entry_contains(key: Seq<char>, value: Option<String>, k: Seq<char>, v: Seq<char>)
    ensures
        metadata_entry(key, value).contains((k, v)) <==> (k == key && given(value, v)),
{
    match value {
        Some(s) => {
            if k == key && s@ == v {
                assert(metadata_entry(key, value)[0] == (k, v));
            }
        },
        None => {},
    }
}

/// The token's metadata holds an entry with the key `symbol`, `name`,
/// `description`, `url` or `icon_url` exactly when the field of the same name
/// is given, and its value is that field's value.
pub proof fn law_metadata_keys_take_their_fields(cmd: NewTokenMutable, v: Seq<char>)
    ensures
        cmd.spec_metadata().contains(("symbol"@, v)) <==> (given(cmd.symbol, v)),
        cmd.spec_metadata().contains(("name"@, v)) <==> (given(cmd.name, v)),
        cmd.spec_metadata().contains(("description"@, v)) <==> (given(cmd.description, v)),
        cmd.spec_metadata().contains(("url"@, v)) <==> (given(cmd.url, v)),
        cmd.spec_metadata().contains(("icon_url"@, v)) <==> (given(cmd.icon_url, v)),
{
    reveal_strlit("symbol");
    reveal_strlit("name");
    reveal_strlit("description");
    reveal_strlit("url");
    reveal_strlit("icon_url");
    assert("symbol"@.len() == 6 && "name"@.len() == 4 && "description"@.len() == 11
        && "url"@.len() == 3 && "icon_url"@.len() == 8);
    let e1 = metadata_entry("symbol"@, cmd.symbol);
    let e2 = metadata_entry("name"@, cmd.name);
    let e3 = metadata_entry("description"@, cmd.description);
    let e4 = metadata_entry("url"@, cmd.url);
    let e5 = metadata_entry("icon_url"@, cmd.icon_url);
    let keys = seq!["symbol"@, "name"@, "description"@, "url"@, "icon_url"@];
    assert forall|k: Seq<char>| keys.contains(k) implies cmd.spec_metadata().contains((k, v))
        <==> (e1.contains((k, v)) || e2.contains((k, v)) || e3.contains((k, v)) || e4.contains(
        (k, v),
    ) || e5.contains((k, v))) by {
        lemma_concat_contains(e1 + e2 + e3 + e4, e5, (k, v));
        lemma_concat_contains(e1 + e2 + e3, e4, (k, v));
        lemma_concat_contains(e1 + e2, e3, (k, v));
        lemma_concat_contains(e1, e2, (k, v));
    }
    assert forall|k: Seq<char>| keys.contains(k) implies (e1.contains((k, v)) <==> (k == "symbol"@
        && given(cmd.symbol, v))) && (e2.contains((k, v)) <==> (k == "name"@
        && given(cmd.name, v))) && (e3.contains((k, v)) <==> (k
        == "description"@ && given(cmd.description, v))) && (e4.contains((k, v))
        <==> (k == "url"@ && given(cmd.url, v))) && (e5.contains((k, v)) <==> (k
        == "icon_url"@ && given(cmd.icon_url, v))) by {
        lemma_entry_contains("symbol"@, cmd.symbol, k, v);
        lemma_entry_contains("name"@, cmd.name, k, v);
        lemma_entry_contains("description"@, cmd.description, k, v);
        lemma_entry_contains("url"@, cmd.url, k, v);
        lemma_entry_contains("icon_url"@, cmd.icon_url, k, v);
    }
    assert(keys[0] == "symbol"@ && keys[1] == "name"@ && keys[2] == "description"@ && keys[3]
        == "url"@ && keys[4] == "icon_url"@);
    assert(keys.contains("symbol"@) && keys.contains("name"@) && keys.contains("description"@)
        && keys.contains("url"@) && keys.contains("icon_url"@));
}

proof fn lemma_trim_start_drops_white(w: Seq<char>, n: Seq<char>)
    requires
        forall|i: int| 0 <= i < w.len() ==> is_white_space(w[i]),
        n.len() > 0 ==> !is_white_space(n[0]),
    ensures
        trim_start(w + n) == n,
    decreases w.len(),
{
    if w.len() > 0 {
        assert((w + n).drop_first() =~= w.drop_first() + n);
        lemma_trim_start_drops_white(w.drop_first(), n);
    } else {
        assert(w + n =~= n);
    }
}

proof fn lemma_trim_end_drops_white(n: Seq<char>, w: Seq<char>)
    requires
        forall|i: int| 0 <= i < w.len() ==> is_white_space(w[i]),
        n.len() > 0 ==> !is_white_space(n.last()),
    ensures
        trim_end(n + w) == n,
    decreases w.len(),
{
    if w.len() > 0 {
        assert((n + w).drop_last() =~= n + w.drop_last());
        lemma_trim_end_drops_white(n, w.drop_last());
    } else {
        assert(n + w =~= n);
    }
}

/// Trimming removes exactly the white space around a name: a name that
/// neither starts nor ends with white space, padded on both sides with white
/// space, trims to itself.
pub proof fn law_trim_removes_surrounding_white_space(w1: Seq<char>, n: Seq<char>, w2: Seq<char>)
    requires
        forall|i: int| 0 <= i < w1.len() ==> is_white_space(w1[i]),
        forall|i: int| 0 <= i < w2.len() ==> is_white_space(w2[i]),
        n.len() > 0 ==> !is_white_space(n[0]) && !is_white_space(n.last()),
    ensures
        trim(w1 + n + w2) == n,
{
    if n.len() > 0 {
        assert(w1 + n + w2 =~= w1 + (n + w2));
        assert((n + w2)[0] == n[0]);
        lemma_trim_start_drops_white(w1, n + w2);
        lemma_trim_end_drops_white(n, w2);
    } else {
        assert(w1 + n + w2 =~= w1 + w2);
        assert forall|i: int| 0 <= i < (w1 + w2).len() implies is_white_space((w1 + w2)[i]) by {
            if i >= w1.len() {
                assert((w1 + w2)[i] == w2[i - w1.len()]);
            }
        }
        lemma_trim_start_drops_white(w1 + w2, Seq::<char>::empty());
        assert(w1 + w2 + Seq::<char>::empty() =~= w1 + w2);
        assert(trim_start(w1 + w2) == Seq::<char>::empty());
    }
}

/// A `${` whose name meets a line break before any `}` starts no placeholder:
/// text made of it between texts free of `$` is left as it is.
pub proof fn law_line_break_ends_placeholder(
    p: Seq<char>,
    n: Seq<char>,
    q: Seq<char>,
    env: Seq<(String, String)>,
)
    requires
        forall|i: int| 0 <= i < p.len() ==> p[i] != '$',
        forall|i: int| 0 <= i < n.len() ==> n[i] != '$' && n[i] != '}',
        forall|i: int| 0 <= i < q.len() ==> q[i] != '$',
    ensures
        pre_processed(p + seq!['$', '{'] + n + seq!['\n'] + q, env) == p + seq!['$', '{'] + n
            + seq!['\n'] + q,
{
    let s = p + seq!['$', '{'] + n + seq!['\n'] + q;
    let a = p.len() as int;
    let nl = a + 2 + n.len();
    assert(s[a] == '$' && s[a + 1] == '{' && s[nl] == '\n');
    assert forall|i: int| 0 <= i < a implies s[i] != '$' by {
        assert(s[i] == p[i]);
    }
    lemma_expand_through_plain(s, env, 0, a);
    assert forall|i: int| a + 2 <= i < nl implies s[i] != '}' && s[i] != '$' by {
        assert(s[i] == n[i - a - 2]);
    }
    if n.len() > 0 {
        lemma_scan_to_line_break(s, a + 3, nl);
    }
    assert(placeholder_at(s, a) is None);
    assert(expand_from(s, env, a) == seq![s[a]] + expand_from(s, env, a + 1));
    assert forall|i: int| a + 1 <= i < s.len() implies s[i] != '$' by {
        if i >= nl + 1 {
            assert(s[i] == q[i - nl - 1]);
        }
    }
    lemma_expand_through_plain(s, env, a + 1, s.len() as int);
    assert(expand_from(s, env, s.len() as int) == Seq::<char>::empty());
    assert(pre_processed(s, env) =~= s.subrange(0, a) + (seq![s[a]] + (s.subrange(
        a + 1,
        s.len() as int,
    ) + Seq::<char>::empty())));
    assert(s.subrange(0, a) + (seq![s[a]] + (s.subrange(a + 1, s.len() as int)
        + Seq::<char>::empty())) =~= s);
}

proof fn lemma_scan_to_line_break(s: Seq<char>, j: int, k: int)
    requires
        0 <= j <= k < s.len(),
        s[k] == '\n',
        forall|i: int| j <= i < k ==> s[i] != '}',
    ensures
        scan_close(s, j) is None,
    decreases k - j,
{
    if j < k && s[j] != '\n' {
        lemma_scan_to_line_break(s, j + 1, k);
    }
}

} // verus!
