//! Frames of the hub protocol: every JSON message is terminated by the
//! record separator `0x1E`, and one transport message may carry several.
use std::collections::VecDeque;

use vstd::prelude::*;

verus! {

/// Record separator that terminates every frame.
pub const RECORD_SEPARATOR: char = '\u{1e}';

/// The pieces of `s` between separators, as `str::split` yields them:
/// empty pieces included, always at least one.
pub open spec fn pieces(s: Seq<char>) -> Seq<Seq<char>>
    decreases s.len(),
{
    if s.len() == 0 {
        seq![Seq::<char>::empty()]
    } else {
        let p = pieces(s.drop_last());
        if s.last() == RECORD_SEPARATOR {
            p.push(Seq::<char>::empty())
        } else {
            p.drop_last().push(p.last().push(s.last()))
        }
    }
}

/// Holds of a piece that is not empty.
pub open spec fn non_empty(p: Seq<char>) -> bool {
    p.len() > 0
}

/// The non-empty pieces of `q`, in order.
pub open spec fn drop_empty(q: Seq<Seq<char>>) -> Seq<Seq<char>> {
    q.filter(|p: Seq<char>| non_empty(p))
}

/// The frames that a text carries: its non-empty pieces, in order.
pub open spec fn frames_of(s: Seq<char>) -> Seq<Seq<char>> {
    drop_empty(pieces(s))
}

/// Holds of a text in which no separator occurs.
pub open spec fn separator_free(s: Seq<char>) -> bool {
    forall|i: int| 0 <= i < s.len() ==> s[i] != RECORD_SEPARATOR
}

/// A payload terminated by the separator, as it goes on the wire.
pub open spec fn framed(payload: Seq<char>) -> Seq<char> {
    payload.push(RECORD_SEPARATOR)
}

/// Several payloads, each terminated by the separator, one after another.
pub open spec fn framed_all(payloads: Seq<Seq<char>>) -> Seq<char>
    decreases payloads.len(),
{
    if payloads.len() == 0 {
        Seq::<char>::empty()
    } else {
        framed_all(payloads.drop_last()) + framed(payloads.last())
    }
}

/// Terminates a serialised message with the record separator.
pub fn frame_to_string_with_separator(payload: String) -> (r: String)
    ensures
        r@ == framed(payload@),
{
    let mut r = payload;
    proof {
        reveal_strlit("\u{1e}");
    }
    r.append("\u{1e}");
    r
}

/// Filtering a sequence extended by one piece keeps the piece exactly when it is non-empty.
proof fn lemma_filter_push(done: Seq<Seq<char>>, cur: Seq<char>)
    ensures
        drop_empty(done.push(cur)) == (if non_empty(cur) {
            drop_empty(done).push(cur)
        } else {
            drop_empty(done)
        }),
{
    reveal(Seq::filter);
    assert(done.push(cur).drop_last() =~= done);
}

fn push_frame(frames: &mut VecDeque<String>, piece: String)
    ensures
        final(frames).deep_view() == old(frames).deep_view().push(piece@),
{
    frames.push_back(piece);
    assert(frames.deep_view() =~= old(frames).deep_view().push(piece@));
}

/// Splits `text` at the record separators and queues its non-empty pieces,
/// in order, at the back of `frames`.
pub fn queue_signalr_frames(text: &str, frames: &mut VecDeque<String>)
    ensures
        final(frames).deep_view() == old(frames).deep_view() + frames_of(text@),
{
    let n = text.unicode_len();
    let ghost s = text@;
    let ghost done: Seq<Seq<char>> = Seq::empty();
    let mut start: usize = 0;
    let mut i: usize = 0;
    assert(s.take(0) =~= Seq::<char>::empty());
    for c in it: text.chars()
        invariant
            n == s.len(),
            s == text@,
            it.seq() == s,
            i == it.index(),
            start <= i <= n,
            pieces(s.take(i as int)) == done.push(s.subrange(start as int, i as int)),
            frames.deep_view() == old(frames).deep_view() + drop_empty(done),
    {
        assert(s.take(i + 1).drop_last() =~= s.take(i as int));
        assert(s.take(i + 1).last() == c);
        if c == RECORD_SEPARATOR {
            let ghost cur = s.subrange(start as int, i as int);
            proof {
                lemma_filter_push(done, cur);
            }
            if start < i {
                let piece = text.substring_char(start, i).to_owned();
                push_frame(frames, piece);
            }
            proof {
                done = done.push(cur);
            }
            start = i + 1;
            assert(s.subrange(start as int, start as int) =~= Seq::<char>::empty());
        } else {
            assert(s.subrange(start as int, i + 1) =~= s.subrange(start as int, i as int).push(c));
        }
        i = i + 1;
    }
    assert(s.take(n as int) =~= s);
    let ghost cur = s.subrange(start as int, n as int);
    proof {
        lemma_filter_push(done, cur);
    }
    if start < n {
        let piece = text.substring_char(start, n).to_owned();
        push_frame(frames, piece);
    }
}

} // verus!

verus! {

/// Every text has at least one piece.
proof fn lemma_pieces_len(s: Seq<char>)
    ensures
        pieces(s).len() >= 1,
    decreases s.len(),
{
    if s.len() > 0 {
        lemma_pieces_len(s.drop_last());
    }
}

/// Splitting a concatenation: the last piece of `x` and the first of `y` join.
proof fn lemma_pieces_append(x: Seq<char>, y: Seq<char>)
    ensures
        pieces(x + y) == pieces(x).drop_last() + seq![pieces(x).last() + pieces(y)[0]]
            + pieces(y).drop_first(),
    decreases y.len(),
{
    lemma_pieces_len(x);
    lemma_pieces_len(y);
    let a = pieces(x).drop_last();
    let l = pieces(x).last();
    if y.len() == 0 {
        assert(x + y =~= x);
        assert(pieces(y) =~= seq![Seq::<char>::empty()]);
        assert(l + Seq::<char>::empty() =~= l);
        assert(pieces(x) =~= a + seq![l + pieces(y)[0]] + pieces(y).drop_first());
    } else {
        let yp = y.drop_last();
        let c = y.last();
        lemma_pieces_append(x, yp);
        lemma_pieces_len(yp);
        assert((x + y).drop_last() =~= x + yp);
        assert((x + y).last() == c);
        let q = pieces(yp);
        let p = pieces(x + yp);
        assert(p == a + seq![l + q[0]] + q.drop_first());
        if c == RECORD_SEPARATOR {
            assert(pieces(y) == q.push(Seq::<char>::empty()));
            assert(pieces(y)[0] == q[0]);
            assert(pieces(y).drop_first() =~= q.drop_first().push(Seq::<char>::empty()));
            assert(pieces(x + y) == p.push(Seq::<char>::empty()));
            assert(pieces(x + y) =~= a + seq![l + pieces(y)[0]] + pieces(y).drop_first());
        } else {
            assert(pieces(y) == q.drop_last().push(q.last().push(c)));
            assert(pieces(x + y) == p.drop_last().push(p.last().push(c)));
            if q.len() == 1 {
                assert(pieces(y) =~= seq![q[0].push(c)]);
                assert(p =~= a.push(l + q[0]));
                assert((l + q[0]).push(c) =~= l + q[0].push(c));
                assert(pieces(x + y) =~= a + seq![l + pieces(y)[0]] + pieces(y).drop_first());
            } else {
                assert(pieces(y)[0] == q[0]);
                assert(pieces(y).drop_first() =~= q.drop_first().drop_last().push(q.last().push(c)));
                assert(p.last() == q.last());
                assert(p.drop_last() =~= a + seq![l + q[0]] + q.drop_first().drop_last());
                assert(pieces(x + y) =~= a + seq![l + pieces(y)[0]] + pieces(y).drop_first());
            }
        }
    }
}

} // verus!

verus! {

/// Pieces of a text that ends with a separator: an empty piece follows.
proof fn lemma_pieces_separator(x: Seq<char>)
    ensures
        pieces(x.push(RECORD_SEPARATOR)) == pieces(x).push(Seq::<char>::empty()),
{
    assert(x.push(RECORD_SEPARATOR).drop_last() =~= x);
}

/// A separator-free text is a single piece.
proof fn lemma_pieces_separator_free(p: Seq<char>)
    requires
        separator_free(p),
    ensures
        pieces(p) == seq![p],
    decreases p.len(),
{
    if p.len() == 0 {
        assert(p =~= Seq::<char>::empty());
        assert(pieces(p) =~= seq![p]);
    } else {
        let q = p.drop_last();
        assert(separator_free(q)) by {
            assert forall|i: int| 0 <= i < q.len() implies q[i] != RECORD_SEPARATOR by {
                assert(q[i] == p[i]);
            }
        }
        lemma_pieces_separator_free(q);
        assert(p.last() != RECORD_SEPARATOR) by {
            assert(p.last() == p[p.len() - 1]);
        }
        assert(q.push(p.last()) =~= p);
        assert(pieces(p) =~= seq![p]);
    }
}

/// Every piece of a text is free of separators.
proof fn lemma_pieces_separator_free_each(s: Seq<char>)
    ensures
        forall|i: int| 0 <= i < pieces(s).len() ==> separator_free(#[trigger] pieces(s)[i]),
    decreases s.len(),
{
    if s.len() > 0 {
        let q = s.drop_last();
        lemma_pieces_separator_free_each(q);
        lemma_pieces_len(q);
        let pq = pieces(q);
        if s.last() != RECORD_SEPARATOR {
            let lp = pq.last().push(s.last());
            assert(separator_free(pq[pq.len() - 1]));
            assert(separator_free(lp)) by {
                assert forall|i: int| 0 <= i < lp.len() implies lp[i] != RECORD_SEPARATOR by {
                    if i < lp.len() - 1 {
                        assert(lp[i] == pq[pq.len() - 1][i]);
                    }
                }
            }
            assert forall|i: int| 0 <= i < pieces(s).len() implies separator_free(
                #[trigger] pieces(s)[i],
            ) by {
                if i < pieces(s).len() - 1 {
                    assert(pieces(s)[i] == pq[i]);
                }
            }
        } else {
            assert forall|i: int| 0 <= i < pieces(s).len() implies separator_free(
                #[trigger] pieces(s)[i],
            ) by {
                if i < pieces(s).len() - 1 {
                    assert(pieces(s)[i] == pq[i]);
                } else {
                    assert(pieces(s)[i] =~= Seq::<char>::empty());
                }
            }
        }
    }
}

/// Filtering keeps a property that every element has.
proof fn lemma_filter_keeps_separator_free(q: Seq<Seq<char>>)
    requires
        forall|i: int| 0 <= i < q.len() ==> separator_free(#[trigger] q[i]),
    ensures
        forall|i: int|
            0 <= i < drop_empty(q).len() ==> separator_free(
                #[trigger] drop_empty(q)[i],
            ),
    decreases q.len(),
{
    if q.len() > 0 {
        let d = q.drop_last();
        assert forall|i: int| 0 <= i < d.len() implies separator_free(#[trigger] d[i]) by {
            assert(d[i] == q[i]);
        }
        lemma_filter_keeps_separator_free(d);
        assert(d.push(q.last()) =~= q);
        lemma_filter_push(d, q.last());
        assert(separator_free(q[q.len() - 1]));
    }
}

/// Dropping the empty pieces of a sequence of non-empty pieces changes nothing.
pub proof fn lemma_drop_empty_keeps_non_empty(q: Seq<Seq<char>>)
    requires
        forall|i: int| 0 <= i < q.len() ==> non_empty(#[trigger] q[i]),
    ensures
        drop_empty(q) == q,
    decreases q.len(),
{
    if q.len() > 0 {
        let d = q.drop_last();
        assert forall|i: int| 0 <= i < d.len() implies non_empty(#[trigger] d[i]) by {
            assert(d[i] == q[i]);
        }
        lemma_drop_empty_keeps_non_empty(d);
        assert(d.push(q.last()) =~= q);
        lemma_filter_push(d, q.last());
        assert(non_empty(q[q.len() - 1]));
    } else {
        reveal(Seq::filter);
    }
}

/// Every frame that a text carries is non-empty and free of separators.
pub proof fn lemma_frames_well_formed(s: Seq<char>)
    ensures
        forall|i: int|
            0 <= i < frames_of(s).len() ==> non_empty(#[trigger] frames_of(s)[i]) && separator_free(
                frames_of(s)[i],
            ),
{
    lemma_pieces_separator_free_each(s);
    lemma_filter_keeps_separator_free(pieces(s));
    assert forall|i: int| 0 <= i < frames_of(s).len() implies non_empty(
        #[trigger] frames_of(s)[i],
    ) by {
        pieces(s).lemma_filter_pred(|p: Seq<char>| non_empty(p), i);
    }
}

/// Two texts joined by a separator carry the frames of the first, then those of the second.
pub proof fn lemma_frames_concat(a: Seq<char>, b: Seq<char>)
    ensures
        frames_of(a.push(RECORD_SEPARATOR) + b) == frames_of(a) + frames_of(b),
{
    let x = a.push(RECORD_SEPARATOR);
    lemma_pieces_append(x, b);
    lemma_pieces_separator(a);
    lemma_pieces_len(b);
    assert(pieces(x).drop_last() =~= pieces(a));
    assert(Seq::<char>::empty() + pieces(b)[0] =~= pieces(b)[0]);
    assert(pieces(x + b) =~= pieces(a) + pieces(b)) by {
        assert(pieces(b) =~= seq![pieces(b)[0]] + pieces(b).drop_first());
    }
    Seq::filter_distributes_over_add(pieces(a), pieces(b), |p: Seq<char>| non_empty(p));
}

/// Payloads free of separators, each framed and sent one after another, are
/// read back as the same payloads, with the empty ones left out.
pub proof fn lemma_framed_all_frames(payloads: Seq<Seq<char>>)
    requires
        forall|i: int| 0 <= i < payloads.len() ==> separator_free(#[trigger] payloads[i]),
    ensures
        frames_of(framed_all(payloads)) == drop_empty(payloads),
    decreases payloads.len(),
{
    lemma_framed_all_pieces(payloads);
    lemma_filter_push(payloads, Seq::<char>::empty());
}

/// The pieces of framed payloads: the payloads, then the empty rest after the last separator.
proof fn lemma_framed_all_pieces(payloads: Seq<Seq<char>>)
    requires
        forall|i: int| 0 <= i < payloads.len() ==> separator_free(#[trigger] payloads[i]),
    ensures
        pieces(framed_all(payloads)) == payloads.push(Seq::<char>::empty()),
    decreases payloads.len(),
{
    if payloads.len() == 0 {
        assert(pieces(framed_all(payloads)) =~= payloads.push(Seq::<char>::empty()));
    } else {
        let prev = payloads.drop_last();
        let p = payloads.last();
        assert forall|i: int| 0 <= i < prev.len() implies separator_free(#[trigger] prev[i]) by {
            assert(prev[i] == payloads[i]);
        }
        lemma_framed_all_pieces(prev);
        let x = framed_all(prev);
        assert(separator_free(payloads[payloads.len() - 1]));
        lemma_pieces_separator_free(p);
        lemma_pieces_append(x, p);
        assert(pieces(x).drop_last() =~= prev);
        assert(Seq::<char>::empty() + p =~= p);
        assert(pieces(x + p) =~= prev.push(p));
        assert(framed_all(payloads) =~= (x + p).push(RECORD_SEPARATOR));
        lemma_pieces_separator(x + p);
        assert(prev.push(p) =~= payloads);
    }
}

/// A non-empty payload free of separators, once framed, is read back as
/// exactly that payload; so is it without the final separator.
pub proof fn lemma_framed_round_trip(payload: Seq<char>)
    requires
        non_empty(payload),
        separator_free(payload),
    ensures
        frames_of(framed(payload)) == seq![payload],
        frames_of(payload) == seq![payload],
{
    lemma_pieces_separator_free(payload);
    lemma_pieces_separator(payload);
    lemma_filter_push(seq![payload], Seq::<char>::empty());
    lemma_drop_empty_keeps_non_empty(seq![payload]);
}

} // verus!
