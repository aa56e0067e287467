use vstd::prelude::*;

verus! {

/// `pattern` occurs in `s` as a run of consecutive characters.
pub open spec fn contains(s: Seq<char>, pattern: Seq<char>) -> bool {
    exists|i: int|
        0 <= i && i + pattern.len() <= s.len() && #[trigger] s.subrange(i, i + pattern.len())
            == pattern
}

/// The characters of a string slice, one per Unicode scalar value.
pub fn chars_of(s: &str) -> (r: Vec<char>)
    ensures
        r@ == s@,
{
    let n = s.unicode_len();
    let mut v: Vec<char> = Vec::new();
    let mut i: usize = 0;
    while i < n
        invariant
            n == s@.len(),
            i <= n,
            v@ == s@.subrange(0, i as int),
        decreases n - i,
    {
        v.push(s.get_char(i));
        i += 1;
        assert(v@ =~= s@.subrange(0, i as int));
    }
    assert(v@ =~= s@);
    v
}

fn occurs_at(s: &Vec<char>, p: &Vec<char>, i: usize) -> (r: bool)
    requires
        i + p.len() <= s.len(),
    ensures
        r == (s@.subrange(i as int, i + p.len()) == p@),
{
    let mut j: usize = 0;
    while j < p.len()
        invariant
            j <= p.len(),
            i + p.len() <= s.len(),
            forall|k: int| 0 <= k < j ==> s@[i + k] == p@[k],
        decreases p.len() - j,
    {
        if s[i + j] != p[j] {
            assert(s@.subrange(i as int, i + p.len())[j as int] != p@[j as int]);
            return false;
        }
        j += 1;
    }
    assert(s@.subrange(i as int, i + p.len()) =~= p@);
    true
}

/// Substring search over characters.
pub fn str_contains(s: &str, pattern: &str) -> (r: bool)
    ensures
        r == contains(s@, pattern@),
{
    let sv = chars_of(s);
    let pv = chars_of(pattern);
    if pv.len() > sv.len() {
        return false;
    }
    let mut i: usize = 0;
    let last = sv.len() - pv.len();
    loop
        invariant
            last == sv.len() - pv.len(),
            sv@ == s@,
            pv@ == pattern@,
            pv.len() <= sv.len(),
            i <= last,
            forall|k: int|
                0 <= k < i ==> #[trigger] s@.subrange(k, k + pattern@.len()) != pattern@,
        decreases last - i,
    {
        if occurs_at(&sv, &pv, i) {
            return true;
        }
        if i == last {
            return false;
        }
        i += 1;
    }
}

/// The concatenation of `parts` with `sep` between neighbours.
pub open spec fn join(parts: Seq<Seq<char>>, sep: Seq<char>) -> Seq<char>
    decreases parts.len(),
{
    if parts.len() == 0 {
        Seq::empty()
    } else if parts.len() == 1 {
        parts[0]
    } else {
        join(parts.drop_last(), sep) + sep + parts.last()
    }
}

/// The characters of an optional string.
pub open spec fn opt_view(o: Option<String>) -> Option<Seq<char>> {
    match o {
        Some(s) => Some(s@),
        None => None,
    }
}

/// The characters of an optional string, none where it is absent.
pub open spec fn or_empty(o: Option<String>) -> Seq<char> {
    match o {
        Some(s) => s@,
        None => Seq::empty(),
    }
}

/// The character sequences held by a sequence of strings.
pub open spec fn views(v: Seq<String>) -> Seq<Seq<char>> {
    v.map_values(|s: String| s@)
}

/// Joins `parts` with `sep`.
pub fn join_strings(parts: &Vec<String>, sep: &str) -> (r: String)
    ensures
        r@ == join(views(parts@), sep@),
{
    let mut out = String::new();
    let mut i: usize = 0;
    while i < parts.len()
        invariant
            i <= parts.len(),
            out@ == join(views(parts@.take(i as int)), sep@),
        decreases parts.len() - i,
    {
        if i > 0 {
            out.append(sep);
        }
        out.append(parts[i].as_str());
        i += 1;
        proof {
            let prev = views(parts@.take(i - 1));
            let cur = views(parts@.take(i as int));
            assert(cur.drop_last() =~= prev);
            assert(cur.last() == parts@[i - 1]@);
            if i == 1 {
                assert(prev.len() == 0);
            }
        }
    }
    assert(parts@.take(parts.len() as int) =~= parts@);
    out
}

} // verus!
