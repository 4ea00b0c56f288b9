//! Request parsing: splitting a raw block of text into the ordered
//! list of non-empty request lines.
//!
//! A line ending is a `\n` together with the run of `\r` characters
//! immediately before it, so both bare `\n` and `\r\n` (and `\r\r\n`)
//! separate lines. Empty fragments are discarded. Input with no `\n`
//! at all is a single one-element list, kept verbatim.

use vstd::prelude::*;

verus! {

use crate::text;
use vstd::string::StrSliceExecFns;
use vstd::string::StringExecFns;

/// `s` with its trailing run of `\r` characters removed.
pub open spec fn strip_trailing_cr(s: Seq<char>) -> Seq<char>
    decreases s.len(),
{
    if s.len() > 0 && s[s.len() - 1] == '\r' {
        strip_trailing_cr(s.drop_last())
    } else {
        s
    }
}

/// The segments of `s` split at every `\n`, scanning left to right
/// with `cur` the partial segment already read: each segment that ends
/// at a `\n` loses its trailing `\r` run (it belongs to the line
/// ending), while the final segment keeps its characters as they are.
pub open spec fn split_segments(s: Seq<char>, cur: Seq<char>) -> Seq<Seq<char>>
    decreases s.len(),
{
    if s.len() == 0 {
        seq![cur]
    } else if s[0] == '\n' {
        seq![strip_trailing_cr(cur)] + split_segments(s.drop_first(), Seq::empty())
    } else {
        split_segments(s.drop_first(), cur.push(s[0]))
    }
}

/// The non-empty segments of `segs`, in order.
pub open spec fn keep_nonempty(segs: Seq<Seq<char>>) -> Seq<Seq<char>>
    decreases segs.len(),
{
    if segs.len() == 0 {
        Seq::empty()
    } else if segs[0].len() > 0 {
        seq![segs[0]] + keep_nonempty(segs.drop_first())
    } else {
        keep_nonempty(segs.drop_first())
    }
}

/// What parsing returns: for input with at least one `\n`, exactly the
/// non-empty segments between line endings, in order; for input with
/// no `\n`, the whole input as a single element.
pub open spec fn parse_spec(s: Seq<char>) -> Seq<Seq<char>> {
    if s.contains('\n') {
        keep_nonempty(split_segments(s, Seq::empty()))
    } else {
        seq![s]
    }
}

/// Every segment `keep_nonempty` returns is non-empty.
pub proof fn lemma_keep_nonempty_all(segs: Seq<Seq<char>>)
    ensures
        forall|i: int|
            0 <= i < keep_nonempty(segs).len() ==> #[trigger] keep_nonempty(segs)[i].len() > 0,
    decreases segs.len(),
{
    if segs.len() == 0 {
    } else if segs[0].len() > 0 {
        lemma_keep_nonempty_all(segs.drop_first());
        assert forall|i: int| 0 <= i < keep_nonempty(segs).len() implies #[trigger] keep_nonempty(
            segs,
        )[i].len() > 0 by {
            if i > 0 {
                assert(keep_nonempty(segs)[i] == keep_nonempty(segs.drop_first())[i - 1]);
            }
        }
    } else {
        lemma_keep_nonempty_all(segs.drop_first());
    }
}

/// `s` without its trailing `\r` run.
fn strip_cr(s: &str) -> (r: String)
    ensures
        r@ == strip_trailing_cr(s@),
    decreases s@.len(),
{
    let n: usize = s.unicode_len();
    if n > 0 && s.get_char(n - 1) == '\r' {
        let shorter = s.substring_char(0, n - 1);
        proof {
            assert(shorter@ =~= s@.drop_last());
        }
        strip_cr(shorter)
    } else {
        String::from_str(s)
    }
}

/// Splits raw multi-line input into the ordered list of request lines.
///
/// Input containing at least one line ending yields exactly its
/// non-empty segments, in order; input with none yields itself as the
/// single element.
pub fn parse_requests(requests_string: String) -> (r: Vec<String>)
    ensures
        r.deep_view() == parse_spec(requests_string@),
        requests_string@.contains('\n') ==> forall|i: int| 0 <= i < r.len() ==> r[i]@.len() > 0,
{
    let ghost s0: Seq<char> = requests_string@;
    let s = requests_string.as_str();
    let n: usize = s.unicode_len();
    let nl: usize = text::find_char(s, '\n');
    proof {
        text::lemma_first_index(s0, '\n');
    }
    if nl >= n {
        let mut out: Vec<String> = Vec::new();
        out.push(requests_string);
        proof {
            assert(!s0.contains('\n'));
            assert(out.deep_view() =~= seq![s0]);
        }
        return out;
    }
    let mut out: Vec<String> = Vec::new();
    let mut cur: String = String::new();
    let mut i: usize = 0;
    proof {
        assert(s0.skip(0) =~= s0);
        assert(out.deep_view() =~= Seq::<Seq<char>>::empty());
        assert(out.deep_view() + keep_nonempty(split_segments(s0, Seq::empty())) =~= keep_nonempty(
            split_segments(s0, Seq::empty()),
        ));
    }
    while i < n
        invariant
            n == s0.len(),
            s@ == s0,
            0 <= i <= n,
            s0.contains('\n'),
            keep_nonempty(split_segments(s0, Seq::empty())) == out.deep_view() + keep_nonempty(
                split_segments(s0.skip(i as int), cur@),
            ),
        decreases n - i,
    {
        let ghost rest: Seq<char> = s0.skip(i as int);
        proof {
            assert(rest[0] == s0[i as int]);
            assert(rest.drop_first() =~= s0.skip(i as int + 1));
        }
        let c = s.get_char(i);
        if c == '\n' {
            let kept = strip_cr(cur.as_str());
            let ghost segs_here: Seq<Seq<char>> = split_segments(rest, cur@);
            proof {
                assert(segs_here == seq![strip_trailing_cr(cur@)] + split_segments(
                    rest.drop_first(),
                    Seq::empty(),
                ));
                assert(segs_here[0] == kept@);
                assert(segs_here.drop_first() =~= split_segments(
                    s0.skip(i as int + 1),
                    Seq::empty(),
                ));
            }
            if kept.unicode_len() > 0 {
                let ghost dv0: Seq<Seq<char>> = out.deep_view();
                let ghost kept_view: Seq<char> = kept@;
                out.push(kept);
                proof {
                    assert(out.deep_view() =~= dv0.push(kept_view));
                    assert(dv0.push(kept_view) + keep_nonempty(
                        split_segments(s0.skip(i as int + 1), Seq::empty()),
                    ) =~= dv0 + keep_nonempty(segs_here));
                }
            } else {
                proof {
                    assert(keep_nonempty(segs_here) == keep_nonempty(
                        split_segments(s0.skip(i as int + 1), Seq::empty()),
                    ));
                }
            }
            cur = String::new();
        } else {
            let piece = s.substring_char(i, i + 1);
            proof {
                assert(piece@ =~= seq![s0[i as int]]);
                assert(cur@.push(s0[i as int]) =~= cur@ + piece@);
                assert(split_segments(rest, cur@) == split_segments(
                    s0.skip(i as int + 1),
                    cur@.push(s0[i as int]),
                ));
            }
            cur.append(piece);
        }
        i = i + 1;
    }
    proof {
        assert(s0.skip(n as int) =~= Seq::<char>::empty());
        assert(split_segments(s0.skip(n as int), cur@) == seq![cur@]);
        assert(seq![cur@].drop_first() =~= Seq::<Seq<char>>::empty());
        assert(keep_nonempty(Seq::<Seq<char>>::empty()) =~= Seq::<Seq<char>>::empty());
        if cur@.len() > 0 {
            assert(keep_nonempty(seq![cur@]) =~= seq![cur@]);
        } else {
            assert(keep_nonempty(seq![cur@]) =~= Seq::<Seq<char>>::empty());
        }
    }
    if cur.unicode_len() > 0 {
        let ghost dv0: Seq<Seq<char>> = out.deep_view();
        let ghost cur_view: Seq<char> = cur@;
        out.push(cur);
        proof {
            assert(out.deep_view() =~= dv0.push(cur_view));
            assert(dv0.push(cur_view) =~= dv0 + seq![cur_view]);
        }
    } else {
        proof {
            assert(out.deep_view() + Seq::<Seq<char>>::empty() =~= out.deep_view());
        }
    }
    proof {
        lemma_keep_nonempty_all(split_segments(s0, Seq::empty()));
        assert forall|i: int| 0 <= i < out.len() implies out[i]@.len() > 0 by {
            assert(out.deep_view()[i] == out[i]@);
        }
    }
    out
}

} // verus!
