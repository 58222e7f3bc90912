//! Verified core of the executable-relative path resolver: splitting a
//! slash-delimited path specification into its ordered segments, and joining
//! segments back with slashes. The one OS query the resolver needs — the
//! location of the running program image — cannot be made here, so callers
//! join the segments onto that directory themselves.

use vstd::prelude::*;
use vstd::string::StrSliceExecFns;
use vstd::string::StringExecFns;

verus! {

/// The views of a sequence of strings.
pub open spec fn views_of(parts: Seq<String>) -> Seq<Seq<char>> {
    parts.map_values(|p: String| p@)
}

/// Holds when a text contains no slash.
pub open spec fn slash_free(s: Seq<char>) -> bool {
    forall|i: int| 0 <= i < s.len() ==> s[i] != '/'
}

/// The segments joined back into one text with a slash between each pair.
pub open spec fn join_slash(parts: Seq<Seq<char>>) -> Seq<char>
    decreases parts.len(),
{
    if parts.len() == 0 {
        Seq::empty()
    } else if parts.len() == 1 {
        parts[0]
    } else {
        join_slash(parts.drop_last()) + seq!['/'] + parts.last()
    }
}

/// Appending one more segment extends the joined text by a slash and that
/// segment (or is that segment alone, when it is the first).
proof fn lemma_join_slash_push(parts: Seq<Seq<char>>, p: Seq<char>)
    ensures
        parts.len() == 0 ==> join_slash(parts.push(p)) == p,
        parts.len() > 0 ==> join_slash(parts.push(p)) == join_slash(parts) + seq!['/'] + p,
{
    let w = parts.push(p);
    assert(w.drop_last() =~= parts);
    assert(w.last() == p);
    if parts.len() == 0 {
        assert(w[0] == p);
    }
}

/// Splits a path specification on `/` into its ordered segments: the segments
/// are slash-free, there is at least one, and joining them back with slashes
/// restores the input — which pins the split down exactly.
pub fn split_slash(path: &str) -> (parts: Vec<String>)
    ensures
        parts@.len() > 0,
        forall|k: int| 0 <= k < parts@.len() ==> slash_free(#[trigger] parts@[k]@),
        join_slash(views_of(parts@)) == path@,
{
    let n = path.unicode_len();
    let mut parts: Vec<String> = Vec::new();
    let mut start: usize = 0;
    let mut i: usize = 0;
    while i < n
        invariant
            start <= i <= n,
            n == path@.len(),
            parts@.len() == 0 ==> start == 0,
            parts@.len() > 0 ==> join_slash(views_of(parts@)) + seq!['/'] == path@.subrange(
                0,
                start as int,
            ),
            forall|k: int| 0 <= k < parts@.len() ==> slash_free(#[trigger] parts@[k]@),
            forall|j: int| start <= j < i ==> path@[j] != '/',
        decreases n - i,
    {
        if path.get_char(i) == '/' {
            let piece = path.substring_char(start, i).to_owned();
            proof {
                lemma_join_slash_push(views_of(parts@), piece@);
                assert(views_of(parts@.push(piece)) =~= views_of(parts@).push(piece@));
                assert(join_slash(views_of(parts@.push(piece))) + seq!['/'] =~= path@.subrange(
                    0,
                    i + 1,
                ));
            }
            parts.push(piece);
            start = i + 1;
        }
        i += 1;
    }
    let piece = path.substring_char(start, n).to_owned();
    proof {
        lemma_join_slash_push(views_of(parts@), piece@);
        assert(views_of(parts@.push(piece)) =~= views_of(parts@).push(piece@));
        assert(join_slash(views_of(parts@.push(piece))) =~= path@);
    }
    parts.push(piece);
    parts
}

/// Joins segments into one text with a slash between each pair — the inverse
/// of `split_slash`, and the textual form of resolving the segments in order.
pub fn join_parts(parts: &Vec<String>) -> (r: String)
    ensures
        r@ == join_slash(views_of(parts@)),
{
    let mut s = String::new();
    let mut k: usize = 0;
    while k < parts.len()
        invariant
            k <= parts@.len(),
            k == 0 ==> s@ == Seq::<char>::empty(),
            k > 0 ==> s@ == join_slash(views_of(parts@).subrange(0, k as int)),
        decreases parts@.len() - k,
    {
        if k > 0 {
            s.append("/");
        }
        s.append(parts[k].as_str());
        proof {
            let views = views_of(parts@);
            assert(views.subrange(0, k as int).push(views[k as int]) =~= views.subrange(
                0,
                k + 1,
            ));
            lemma_join_slash_push(views.subrange(0, k as int), views[k as int]);
            reveal_strlit("/");
            assert("/"@ =~= seq!['/']);
            if k == 0 {
                assert(s@ =~= join_slash(views.subrange(0, 1)));
            } else {
                assert(s@ =~= join_slash(views.subrange(0, k + 1)));
            }
        }
        k += 1;
    }
    proof {
        if parts@.len() > 0 {
            assert(views_of(parts@).subrange(0, parts@.len() as int) =~= views_of(parts@));
        }
    }
    s
}

} // verus!
