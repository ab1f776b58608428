use vstd::prelude::*;
use vstd::string::{StrSliceExecFns, StringExecFns};

verus! {

/// `s` cut at every `sep`, as `str::split` cuts it: one more piece than there
/// are separators, empty pieces kept.
pub open spec fn split_on(s: Seq<char>, sep: char) -> Seq<Seq<char>>
    decreases s.len(),
{
    if s.len() == 0 {
        seq![Seq::empty()]
    } else {
        let r = split_on(s.drop_last(), sep);
        if s.last() == sep {
            r.push(Seq::empty())
        } else {
            r.update(r.len() - 1, r.last().push(s.last()))
        }
    }
}

/// The length of the key of a `key=value` pair: the characters before the
/// first `=`, or all of them.
pub open spec fn key_end(p: Seq<char>) -> nat
    decreases p.len(),
{
    if p.len() == 0 {
        0
    } else if p[0] == '=' {
        0
    } else {
        1 + key_end(p.drop_first())
    }
}

/// Query parameters whose values never reach a log.
pub open spec fn is_sensitive(key: Seq<char>) -> bool {
    key == "code"@ || key == "client_secret"@
}

/// A pair as logged: `key=<scrubbed>` for a sensitive key, else `key=value`
/// (with an empty value when the pair has no `=`).
pub open spec fn scrub_pair(p: Seq<char>) -> Seq<char> {
    let k = key_end(p) as int;
    let key = p.take(k);
    if is_sensitive(key) {
        key + "=<scrubbed>"@
    } else if k < p.len() {
        key + "="@ + p.subrange(k + 1 as int, p.len() as int)
    } else {
        key + "="@
    }
}

/// The scrubbed pairs, empty pieces dropped, joined with `&`.
pub open spec fn render(pairs: Seq<Seq<char>>) -> Seq<char>
    decreases pairs.len(),
{
    if pairs.len() == 0 {
        Seq::empty()
    } else {
        let r = render(pairs.drop_last());
        let p = pairs.last();
        if p.len() == 0 {
            r
        } else if r.len() == 0 {
            scrub_pair(p)
        } else {
            r + "&"@ + scrub_pair(p)
        }
    }
}

proof fn lemma_key_end(p: Seq<char>, j: int)
    requires
        0 <= j <= p.len(),
        forall|k: int| 0 <= k < j ==> p[k] != '=',
        j == p.len() || p[j] == '=',
    ensures
        key_end(p) == j,
    decreases p.len(),
{
    if p.len() > 0 && p[0] != '=' {
        let t = p.drop_first();
        assert forall|k: int| 0 <= k < j - 1 implies t[k] != '=' by {
            assert(t[k] == p[k + 1]);
        }
        lemma_key_end(t, j - 1);
    }
}

/// Appends the logged form of the pair `q[start..end]` to `out`.
fn push_scrubbed_pair(out: &mut String, q: &str, start: usize, end: usize)
    requires
        start <= end <= q@.len(),
    ensures
        final(out)@ == old(out)@ + scrub_pair(q@.subrange(start as int, end as int)),
{
    let ghost p = q@.subrange(start as int, end as int);
    let mut j: usize = start;
    while j < end && q.get_char(j) != '='
        invariant
            start <= j <= end,
            end <= q@.len(),
            p == q@.subrange(start as int, end as int),
            forall|k: int| 0 <= k < j - start ==> p[k] != '=',
        decreases end - j,
    {
        j = j + 1;
    }
    proof {
        lemma_key_end(p, j - start);
    }
    let key = q.substring_char(start, j);
    assert(key@ =~= p.take(j - start));
    out.append(key);
    let key_owned = key.to_owned();
    if key_owned == "code".to_owned() || key_owned == "client_secret".to_owned() {
        out.append("=<scrubbed>");
    } else {
        out.append("=");
        if j < end {
            let value = q.substring_char(j + 1, end);
            assert(value@ =~= p.subrange(j - start + 1, p.len() as int));
            out.append(value);
        }
    }
}

/// The query string as it may be logged: each `code` and `client_secret`
/// value replaced by `<scrubbed>`, empty pairs dropped.
pub fn scrub_query(q: &str) -> (r: String)
    ensures
        r@ == render(split_on(q@, '&')),
{
    let n = q.unicode_len();
    let mut out = String::new();
    let mut start: usize = 0;
    let mut i: usize = 0;
    let ghost mut done: Seq<Seq<char>> = Seq::empty();
    assert(q@.take(0) =~= Seq::<char>::empty());
    assert(q@.subrange(0, 0) =~= Seq::<char>::empty());
    assert(done.push(Seq::<char>::empty()) =~= seq![Seq::<char>::empty()]);
    while i < n
        invariant
            n == q@.len(),
            start <= i <= n,
            split_on(q@.take(i as int), '&') == done.push(q@.subrange(start as int, i as int)),
            out@ == render(done),
        decreases n - i,
    {
        let c = q.get_char(i);
        assert(q@.take(i + 1).drop_last() =~= q@.take(i as int));
        assert(q@.take(i + 1).last() == c);
        if c == '&' {
            let ghost piece = q@.subrange(start as int, i as int);
            let ghost before = out@;
            assert(done.push(piece).drop_last() =~= done);
            assert(done.push(piece).last() == piece);
            if start < i {
                if !out.as_str().is_empty() {
                    out.append("&");
                }
                push_scrubbed_pair(&mut out, q, start, i);
                assert(out@ =~= render(done.push(piece)));
            } else {
                assert(piece.len() == 0);
            }
            proof {
                assert(done.push(piece).drop_last() =~= done);
                done = done.push(piece);
            }
            start = i + 1;
            assert(q@.subrange(start as int, start as int) =~= Seq::<char>::empty());
        } else {
            assert(q@.subrange(start as int, i + 1) =~= q@.subrange(start as int, i as int).push(c));
            assert(done.push(q@.subrange(start as int, i as int)).update(
                done.len() as int,
                q@.subrange(start as int, i + 1),
            ) =~= done.push(q@.subrange(start as int, i + 1)));
        }
        i = i + 1;
    }
    assert(q@.take(n as int) =~= q@);
    let ghost last = q@.subrange(start as int, n as int);
    if start < n {
        if !out.as_str().is_empty() {
            out.append("&");
        }
        push_scrubbed_pair(&mut out, q, start, n);
    }
    assert(done.push(last).drop_last() =~= done);
    assert(out@ =~= render(done.push(last)));
    out
}

} // verus!
