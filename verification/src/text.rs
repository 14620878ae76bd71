//! The small pieces of string logic the shell needs.

use vstd::prelude::*;

verus! {

/// Turn the text typed into the search entry into the content URI the
/// fetcher understands.  Search currently always targets stackoverflow.
pub fn uri_for_search_term(term: &str) -> (uri: String)
    ensures
        uri@ == "stackexchange://stackoverflow/"@ + term@,
{
    let mut uri = String::from_str("stackexchange://stackoverflow/");
    uri.append(term);
    uri
}

/// The parts put back together with `sep` between each two of them.  An
/// empty list joins to the empty text; a single part joins to itself.
pub open spec fn joined_with(parts: Seq<Seq<char>>, sep: char) -> Seq<char>
    decreases parts.len(),
{
    if parts.len() == 0 {
        Seq::empty()
    } else if parts.len() == 1 {
        parts[0]
    } else {
        parts[0] + seq![sep] + joined_with(parts.drop_first(), sep)
    }
}

/// Joining after appending one part appends that part, behind a separator
/// when something was there already.
proof fn lemma_joined_with_push(parts: Seq<Seq<char>>, part: Seq<char>, sep: char)
    ensures
        joined_with(parts.push(part), sep) == (if parts.len() == 0 {
            part
        } else {
            joined_with(parts, sep) + seq![sep] + part
        }),
    decreases parts.len(),
{
    if parts.len() == 0 {
        assert(parts.push(part)[0] == part);
    } else {
        lemma_joined_with_push(parts.drop_first(), part, sep);
        assert(parts.push(part).drop_first() =~= parts.drop_first().push(part));
        assert(parts.push(part)[0] == parts[0]);
        if parts.len() > 1 {
            assert(parts[0] + seq![sep] + (joined_with(parts.drop_first(), sep) + seq![sep]
                + part) =~= (parts[0] + seq![sep] + joined_with(parts.drop_first(), sep))
                + seq![sep] + part);
        }
    }
}

/// Split the package's authors field on `:`.  The parts, joined with `:`
/// again, give back the input, and no part holds a `:` of its own; that
/// pins the split exactly.  The empty input yields one empty part.
pub fn split_authors(authors: &str) -> (parts: Vec<String>)
    ensures
        parts@.len() >= 1,
        joined_with(parts@.map_values(|p: String| p@), ':') == authors@,
        forall|k: int| 0 <= k < parts@.len() ==> !(#[trigger] parts@[k])@.contains(':'),
{
    let n = authors.unicode_len();
    let mut parts: Vec<String> = Vec::new();
    let mut start: usize = 0;
    let mut i: usize = 0;
    while i < n
        invariant
            start <= i <= n,
            n == authors@.len(),
            joined_with(
                parts@.map_values(|p: String| p@).push(
                    authors@.subrange(start as int, i as int),
                ),
                ':',
            ) == authors@.subrange(0, i as int),
            forall|j: int| start <= j < i ==> authors@[j] != ':',
            forall|k: int| 0 <= k < parts@.len() ==> !(#[trigger] parts@[k])@.contains(':'),
        decreases n - i,
    {
        let ghost prev = parts@.map_values(|p: String| p@);
        let ghost seg = authors@.subrange(start as int, i as int);
        let c = authors.get_char(i);
        if c == ':' {
            let piece = String::from_str(authors.substring_char(start, i));
            proof {
                assert(!seg.contains(':')) by {
                    assert(forall|idx: int|
                        0 <= idx < seg.len() ==> #[trigger] seg[idx] == authors@[start + idx]
                            && seg[idx] != ':');
                }
            }
            parts.push(piece);
            proof {
                let cur = parts@.map_values(|p: String| p@);
                assert(cur =~= prev.push(seg)) by {
                    assert(forall|k: int|
                        0 <= k < cur.len() ==> #[trigger] cur[k] == parts@[k]@);
                }
                lemma_joined_with_push(prev, seg, ':');
                lemma_joined_with_push(cur, authors@.subrange(i as int + 1, i as int + 1), ':');
                assert(joined_with(
                    cur.push(authors@.subrange(i as int + 1, i as int + 1)),
                    ':',
                ) =~= authors@.subrange(0, i as int + 1));
            }
            start = i + 1;
        } else {
            proof {
                let seg1 = authors@.subrange(start as int, i as int + 1);
                assert(seg1 =~= seg.push(authors@[i as int]));
                lemma_joined_with_push(prev, seg, ':');
                lemma_joined_with_push(prev, seg1, ':');
                assert(joined_with(prev.push(seg1), ':') =~= authors@.subrange(
                    0,
                    i as int + 1,
                ));
            }
        }
        i = i + 1;
    }
    let ghost prev = parts@.map_values(|p: String| p@);
    let ghost seg = authors@.subrange(start as int, n as int);
    let last = String::from_str(authors.substring_char(start, n));
    proof {
        assert(!seg.contains(':')) by {
            assert(forall|idx: int|
                0 <= idx < seg.len() ==> #[trigger] seg[idx] == authors@[start + idx] && seg[idx]
                    != ':');
        }
        assert(authors@.subrange(0, n as int) =~= authors@);
    }
    parts.push(last);
    proof {
        let cur = parts@.map_values(|p: String| p@);
        assert(cur =~= prev.push(seg)) by {
            assert(forall|k: int| 0 <= k < cur.len() ==> #[trigger] cur[k] == parts@[k]@);
        }
    }
    parts
}

} // verus!
