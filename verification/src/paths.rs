//! Unix path arithmetic on strings, with the meaning std gives
//! `PathBuf::push`/`Path::join`, `Path::file_name` and `Path::extension`
//! on Unix.
use vstd::prelude::*;
use crate::text::{split_on, lemma_split_on_step, lemma_split_on_nonempty, chars_of, string_of, suffix_from};

verus! {

/// `Path::join` on Unix: a path that starts at the root replaces the base;
/// otherwise a separator goes between them unless the base is empty or
/// already ends in one.
pub open spec fn spec_join(base: Seq<char>, p: Seq<char>) -> Seq<char> {
    if p.len() > 0 && p[0] == '/' {
        p
    } else if base.len() > 0 && base.last() != '/' {
        base + seq!['/'] + p
    } else {
        base + p
    }
}

/// A piece between separators that names something: not empty and not ".".
pub open spec fn is_named(c: Seq<char>) -> bool {
    c.len() > 0 && c != seq!['.']
}

/// The pieces of a path that `Path::components` reports as named
/// (normal ones and "..").
pub open spec fn named_components(s: Seq<char>) -> Seq<Seq<char>> {
    split_on(s, '/').filter(|c: Seq<char>| is_named(c))
}

/// `Path::file_name`: the last component, unless there is none or it is "..".
pub open spec fn spec_file_name(s: Seq<char>) -> Option<Seq<char>> {
    let cs = named_components(s);
    if cs.len() == 0 || cs.last() == seq!['.', '.'] {
        None
    } else {
        Some(cs.last())
    }
}

/// Where `c` last occurs in `s`.
pub open spec fn last_index_of(s: Seq<char>, c: char) -> Option<nat>
    decreases s.len(),
{
    if s.len() == 0 {
        None
    } else if s.last() == c {
        Some((s.len() - 1) as nat)
    } else {
        last_index_of(s.drop_last(), c)
    }
}

/// The extension of a file name: what follows its last '.', unless there
/// is no '.' or the only ones open the name.
pub open spec fn spec_extension_of_name(n: Seq<char>) -> Option<Seq<char>> {
    match last_index_of(n, '.') {
        Some(k) => if k > 0 {
            Some(n.skip((k + 1) as int))
        } else {
            None
        },
        None => None,
    }
}

/// `Path::extension`: the extension of the file name, if there is one.
pub open spec fn spec_extension(s: Seq<char>) -> Option<Seq<char>> {
    match spec_file_name(s) {
        Some(n) => spec_extension_of_name(n),
        None => None,
    }
}

pub open spec fn last_of(q: Seq<Seq<char>>) -> Option<Seq<char>> {
    if q.len() == 0 {
        None
    } else {
        Some(q.last())
    }
}

pub open spec fn opt_view(o: Option<Vec<char>>) -> Option<Seq<char>> {
    match o {
        Some(v) => Some(v@),
        None => None,
    }
}

/// Joining a relative path onto a base keeps the base as the front and
/// the relative path as the end, with at most one separator between.
pub proof fn lemma_join_relative(base: Seq<char>, p: Seq<char>)
    requires
        !(p.len() > 0 && p[0] == '/'),
    ensures
        base.len() + p.len() <= spec_join(base, p).len() <= base.len() + p.len() + 1,
        spec_join(base, p).subrange(0, base.len() as int) == base,
        spec_join(base, p).subrange(spec_join(base, p).len() - p.len(), spec_join(base, p).len() as int)
            == p,
{
    let j = spec_join(base, p);
    if base.len() > 0 && base.last() != '/' {
        assert(j =~= base + seq!['/'] + p);
    } else {
        assert(j =~= base + p);
    }
    assert(j.subrange(0, base.len() as int) =~= base);
    assert(j.subrange(j.len() - p.len(), j.len() as int) =~= p);
}

/// `Path::join` on character vectors.
pub fn join_chars(base: &Vec<char>, p: &Vec<char>) -> (r: Vec<char>)
    ensures
        r@ == spec_join(base@, p@),
{
    if p.len() > 0 && p[0] == '/' {
        return p.clone();
    }
    let mut r = base.clone();
    if base.len() > 0 && base[base.len() - 1] != '/' {
        r.push('/');
    }
    let mut i: usize = 0;
    let ghost start = r@;
    while i < p.len()
        invariant
            i <= p.len(),
            r@ == start + p@.take(i as int),
        decreases p.len() - i,
    {
        r.push(p[i]);
        i = i + 1;
        assert(p@.take(i as int) =~= p@.take(i - 1).push(p@[i - 1]));
    }
    assert(p@.take(p.len() as int) =~= p@);
    proof {
        if base@.len() > 0 && base@.last() != '/' {
            assert(start =~= base@ + seq!['/']);
        } else {
            assert(start =~= base@);
        }
    }
    r
}

fn is_named_chars(c: &Vec<char>) -> (r: bool)
    ensures
        r == is_named(c@),
{
    if c.len() == 0 {
        return false;
    }
    if c.len() == 1 && c[0] == '.' {
        assert(c@ =~= seq!['.']);
        return false;
    }
    assert(c@ != seq!['.']) by {
        if c@.len() == 1 {
            assert(c@[0] != seq!['.'][0]);
        }
    }
    true
}

proof fn lemma_named_push(q: Seq<Seq<char>>, x: Seq<char>)
    ensures
        q.push(x).filter(|c: Seq<char>| is_named(c)) == (if is_named(x) {
            q.filter(|c: Seq<char>| is_named(c)).push(x)
        } else {
            q.filter(|c: Seq<char>| is_named(c))
        }),
{
    reveal(Seq::filter);
    assert(q.push(x).drop_last() =~= q);
}

/// `Path::file_name` on character vectors.
pub fn file_name_chars(s: &Vec<char>) -> (r: Option<Vec<char>>)
    ensures
        opt_view(r) == spec_file_name(s@),
{
    let mut cur: Vec<char> = Vec::new();
    let mut last_named: Option<Vec<char>> = None;
    let mut i: usize = 0;
    proof {
        assert(s@.take(0) =~= Seq::<char>::empty());
        reveal(Seq::filter);
        assert(split_on(s@.take(0), '/').drop_last() =~= Seq::<Seq<char>>::empty());
    }
    while i < s.len()
        invariant
            i <= s.len(),
            split_on(s@.take(i as int), '/').len() >= 1,
            cur@ == split_on(s@.take(i as int), '/').last(),
            opt_view(last_named) == last_of(
                split_on(s@.take(i as int), '/').drop_last().filter(|c: Seq<char>| is_named(c)),
            ),
        decreases s.len() - i,
    {
        let ghost pre = split_on(s@.take(i as int), '/');
        proof {
            lemma_split_on_step(s@, i as int, '/');
        }
        let c = s[i];
        if c == '/' {
            proof {
                assert(pre =~= pre.drop_last().push(pre.last()));
                lemma_named_push(pre.drop_last(), pre.last());
                assert(pre.push(Seq::empty()).drop_last() =~= pre);
            }
            if is_named_chars(&cur) {
                last_named = Some(cur);
            }
            cur = Vec::new();
        } else {
            cur.push(c);
            proof {
                let post = pre.update(pre.len() - 1, pre.last().push(c));
                assert(post.drop_last() =~= pre.drop_last());
            }
        }
        i = i + 1;
    }
    proof {
        assert(s@.take(s.len() as int) =~= s@);
        let parts = split_on(s@, '/');
        assert(parts =~= parts.drop_last().push(parts.last()));
        lemma_named_push(parts.drop_last(), parts.last());
    }
    let candidate = if is_named_chars(&cur) {
        Some(cur)
    } else {
        last_named
    };
    match candidate {
        Some(n) => {
            if n.len() == 2 && n[0] == '.' && n[1] == '.' {
                assert(n@ =~= seq!['.', '.']);
                None
            } else {
                assert(n@ != seq!['.', '.']) by {
                    if n@.len() == 2 {
                        assert(n@[0] != '.' || n@[1] != '.');
                    }
                }
                Some(n)
            }
        },
        None => None,
    }
}

/// The extension of a file name, on character vectors.
pub fn extension_of_name_chars(n: &Vec<char>) -> (r: Option<Vec<char>>)
    ensures
        opt_view(r) == spec_extension_of_name(n@),
{
    let mut k: usize = n.len();
    assert(n@.take(k as int) =~= n@);
    while k > 0
        invariant
            k <= n.len(),
            last_index_of(n@, '.') == last_index_of(n@.take(k as int), '.'),
        decreases k,
    {
        if n[k - 1] == '.' {
            assert(n@.take(k as int).last() == '.');
            if k - 1 == 0 {
                return None;
            }
            return Some(suffix_from(n, k));
        }
        assert(n@.take(k as int).drop_last() =~= n@.take(k - 1));
        k = k - 1;
    }
    assert(n@.take(k as int) =~= Seq::<char>::empty());
    None
}

/// `Path::join` on Unix: `p` replaces `base` when it starts at the root,
/// and is otherwise appended with one separator between them.
pub fn join(base: &str, p: &str) -> (r: String)
    ensures
        r@ == spec_join(base@, p@),
{
    string_of(&join_chars(&chars_of(base), &chars_of(p)))
}

/// `Path::file_name` on Unix: the last named component of `path`, or
/// `None` when there is none or it is "..".
pub fn file_name(path: &str) -> (r: Option<String>)
    ensures
        r is Some == spec_file_name(path@) is Some,
        r matches Some(n) ==> spec_file_name(path@) == Some(n@),
{
    match file_name_chars(&chars_of(path)) {
        Some(n) => Some(string_of(&n)),
        None => None,
    }
}

/// `Path::extension` on Unix: what follows the last '.' of the file name.
pub fn extension(path: &str) -> (r: Option<String>)
    ensures
        r is Some == spec_extension(path@) is Some,
        r matches Some(e) ==> spec_extension(path@) == Some(e@),
{
    match file_name_chars(&chars_of(path)) {
        Some(n) => match extension_of_name_chars(&n) {
            Some(e) => Some(string_of(&e)),
            None => None,
        },
        None => None,
    }
}

} // verus!
