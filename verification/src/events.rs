use vstd::prelude::*;

use vstd::string::StrSliceExecFns;

use crate::text::chars_of;

verus! {

/// Events of a server-sent stream are separated by a blank line: two line feeds in a row.
pub open spec fn is_separator_at(s: Seq<char>, i: int) -> bool {
    0 <= i && i + 1 < s.len() && s[i] == '\n' && s[i + 1] == '\n'
}

/// The position of the first separator that starts at or after `i`,
/// or `s.len()` where there is none.
pub open spec fn next_separator(s: Seq<char>, i: int) -> int
    decreases s.len() - i,
{
    if i + 1 >= s.len() {
        s.len() as int
    } else if is_separator_at(s, i) {
        i
    } else {
        next_separator(s, i + 1)
    }
}

/// The pieces of `s[start..]` between separators, taken left to right, each separator
/// ending the piece before it (what `str::split("\n\n")` yields).
pub open spec fn pieces_from(s: Seq<char>, start: int) -> Seq<Seq<char>>
    decreases s.len() - start,
{
    if start < 0 || start > s.len() {
        Seq::empty()
    } else {
        let j = next_separator(s, start);
        if is_separator_at(s, j) && start <= j {
            seq![s.subrange(start, j)] + pieces_from(s, j + 2)
        } else {
            seq![s.subrange(start, s.len() as int)]
        }
    }
}

/// The pieces of a stream body between blank lines.
pub open spec fn stream_events(s: Seq<char>) -> Seq<Seq<char>> {
    pieces_from(s, 0)
}

/// The marker that opens the data line of an event.
pub open spec fn data_marker() -> Seq<char> {
    seq!['d', 'a', 't', 'a', ':', ' ']
}

/// What follows the data marker of an event; empty where the event does not open with it.
pub open spec fn event_payload(event: Seq<char>) -> Seq<char> {
    if event.len() >= 6 && event.take(6) == data_marker() {
        event.skip(6)
    } else {
        Seq::empty()
    }
}

/// The payload of every event of a stream body, in order.
pub open spec fn stream_payloads_spec(s: Seq<char>) -> Seq<Seq<char>> {
    stream_events(s).map_values(|e: Seq<char>| event_payload(e))
}

/// With no separator in `[k, i)`, the search from `k` ends where the search from `i` ends.
proof fn lemma_next_separator_skip(s: Seq<char>, k: int, i: int)
    requires
        k <= i,
        forall|j: int| k <= j < i ==> !is_separator_at(s, j),
    ensures
        next_separator(s, k) == next_separator(s, i),
    decreases i - k,
{
    if k < i {
        lemma_next_separator_skip(s, k + 1, i);
    }
}

/// The search from `i` ends at a separator at or after `i`, or at `s.len()`.
proof fn lemma_next_separator_bounds(s: Seq<char>, i: int)
    requires
        0 <= i <= s.len(),
    ensures
        i <= next_separator(s, i) <= s.len(),
        next_separator(s, i) < s.len() ==> is_separator_at(s, next_separator(s, i)),
        forall|j: int| i <= j < next_separator(s, i) ==> !is_separator_at(s, j),
    decreases s.len() - i,
{
    if i + 1 < s.len() && !is_separator_at(s, i) {
        lemma_next_separator_bounds(s, i + 1);
    }
}

/// Two line feeds: the blank line that ends an event.
pub open spec fn event_separator() -> Seq<char> {
    seq!['\n', '\n']
}

/// A body made of one `data: ` event for each payload, each ended by a blank line,
/// as a server sends a stream.
pub open spec fn framed_stream(payloads: Seq<Seq<char>>) -> Seq<char>
    decreases payloads.len(),
{
    if payloads.len() == 0 {
        Seq::empty()
    } else {
        data_marker() + payloads[0] + event_separator() + framed_stream(payloads.drop_first())
    }
}

/// A payload that the framing carries unchanged: it holds no blank line and does not end
/// with a line feed.
pub open spec fn is_frameable(p: Seq<char>) -> bool {
    &&& forall|j: int| !is_separator_at(p, j)
    &&& (p.len() == 0 || p.last() != '\n')
}

/// Searching `p + b` from inside `b` is searching `b`, shifted by `p.len()`.
proof fn lemma_next_separator_shift(p: Seq<char>, b: Seq<char>, k: int)
    requires
        0 <= k <= b.len(),
    ensures
        next_separator(p + b, p.len() + k) == p.len() + next_separator(b, k),
    decreases b.len() - k,
{
    let s = p + b;
    if k + 1 < b.len() {
        assert(is_separator_at(s, p.len() + k) == is_separator_at(b, k));
        if !is_separator_at(b, k) {
            lemma_next_separator_shift(p, b, k + 1);
        }
    }
}

/// The pieces of `p + b` from inside `b` are the pieces of `b`.
proof fn lemma_pieces_shift(p: Seq<char>, b: Seq<char>, k: int)
    requires
        0 <= k <= b.len(),
    ensures
        pieces_from(p + b, p.len() + k) == pieces_from(b, k),
    decreases b.len() - k,
{
    let s = p + b;
    let j = next_separator(b, k);
    lemma_next_separator_shift(p, b, k);
    lemma_next_separator_bounds(b, k);
    lemma_next_separator_bounds(s, p.len() + k);
    assert(next_separator(s, p.len() + k) == p.len() + j);
    if j < b.len() {
        assert(is_separator_at(s, p.len() + j));
        assert(s.subrange(p.len() + k, p.len() + j) =~= b.subrange(k, j));
        lemma_pieces_shift(p, b, j + 2);
        assert(p.len() + j + 2 == p.len() + (j + 2));
    } else {
        assert(!is_separator_at(s, p.len() + j));
        assert(s.subrange(p.len() + k, s.len() as int) =~= b.subrange(k, b.len() as int));
    }
}

/// A blank line put after `a` (which does not end with a line feed) splits the pieces of
/// `a` from those of `b`.
proof fn lemma_pieces_concat(a: Seq<char>, b: Seq<char>, start: int)
    requires
        0 <= start <= a.len(),
        a.len() == 0 || a.last() != '\n',
    ensures
        pieces_from(a + event_separator() + b, start) == pieces_from(a, start) + pieces_from(
            b,
            0,
        ),
    decreases a.len() - start,
{
    let s = a + event_separator() + b;
    let l = a.len() as int;
    let ja = next_separator(a, start);
    lemma_next_separator_bounds(a, start);
    lemma_next_separator_bounds(s, start);
    assert forall|j: int| 0 <= j < l - 1 implies is_separator_at(s, j) == is_separator_at(
        a,
        j,
    ) by {}
    assert(!is_separator_at(s, l - 1));
    assert(is_separator_at(s, l));
    assert(s =~= (a + event_separator()) + b);
    if ja < l {
        lemma_next_separator_skip(s, start, ja);
        assert(next_separator(s, start) == ja);
        assert(s.subrange(start, ja) =~= a.subrange(start, ja));
        lemma_pieces_concat(a, b, ja + 2);
        assert(pieces_from(s, start) =~= seq![a.subrange(start, ja)] + pieces_from(s, ja + 2));
        assert(pieces_from(a, start) == seq![a.subrange(start, ja)] + pieces_from(a, ja + 2));
        assert(pieces_from(s, start) =~= pieces_from(a, start) + pieces_from(b, 0));
    } else {
        assert forall|j: int| start <= j < l implies !is_separator_at(s, j) by {}
        lemma_next_separator_skip(s, start, l);
        assert(next_separator(s, start) == l);
        assert(s.subrange(start, l) =~= a.subrange(start, l));
        lemma_pieces_shift(a + event_separator(), b, 0);
        assert(pieces_from(s, start) =~= seq![a.subrange(start, l)] + pieces_from(s, l + 2));
        assert(!is_separator_at(a, ja));
        assert(pieces_from(a, start) == seq![a.subrange(start, l)]);
        assert(pieces_from(s, start) =~= pieces_from(a, start) + pieces_from(b, 0));
    }
}

/// An event without a blank line in it is one piece.
proof fn lemma_pieces_single(e: Seq<char>)
    requires
        forall|j: int| !is_separator_at(e, j),
    ensures
        pieces_from(e, 0) == seq![e],
{
    lemma_next_separator_bounds(e, 0);
    assert(e.subrange(0, e.len() as int) =~= e);
}

/// The events of a framed body followed by `rest`: one per payload, then those of `rest`.
proof fn lemma_framed_events(payloads: Seq<Seq<char>>, rest: Seq<char>)
    requires
        forall|i: int| 0 <= i < payloads.len() ==> is_frameable(#[trigger] payloads[i]),
    ensures
        stream_events(framed_stream(payloads) + rest) == payloads.map_values(
            |p: Seq<char>| data_marker() + p,
        ) + stream_events(rest),
    decreases payloads.len(),
{
    if payloads.len() == 0 {
        assert(framed_stream(payloads) + rest =~= rest);
        assert(payloads.map_values(|p: Seq<char>| data_marker() + p) =~= Seq::<Seq<char>>::empty());
        assert(Seq::<Seq<char>>::empty() + stream_events(rest) =~= stream_events(rest));
    } else {
        let p0 = payloads[0];
        let tail = payloads.drop_first();
        let e = data_marker() + p0;
        assert(is_frameable(payloads[0]));
        assert forall|i: int| 0 <= i < tail.len() implies is_frameable(#[trigger] tail[i]) by {
            assert(tail[i] == payloads[i + 1]);
        }
        lemma_framed_events(tail, rest);
        assert(framed_stream(payloads) + rest =~= e + event_separator() + (framed_stream(tail)
            + rest));
        assert forall|j: int| !is_separator_at(e, j) by {
            if is_separator_at(e, j) {
                if j < 6 {
                    assert(e[j] == data_marker()[j]);
                } else {
                    assert(e[j] == p0[j - 6] && e[j + 1] == p0[j - 5]);
                    assert(is_separator_at(p0, j - 6));
                }
            }
        }
        assert(e.len() == 0 || e.last() != '\n') by {
            if p0.len() == 0 {
                assert(e =~= data_marker());
            } else {
                assert(e.last() == p0.last());
            }
        }
        lemma_pieces_concat(e, framed_stream(tail) + rest, 0);
        lemma_pieces_single(e);
        assert(payloads.map_values(|p: Seq<char>| data_marker() + p) =~= seq![e]
            + tail.map_values(|p: Seq<char>| data_marker() + p));
        assert(stream_events(framed_stream(payloads) + rest) =~= seq![e] + (tail.map_values(
            |p: Seq<char>| data_marker() + p,
        ) + stream_events(rest)));
    }
}

/// Cutting a body at a blank line: the events of `a`, blank line, `b` are the events of `a`
/// followed by the events of `b`, where `a` does not end with a line feed (else the blank
/// line would start one character earlier).
pub proof fn lemma_events_split(a: Seq<char>, b: Seq<char>)
    requires
        a.len() == 0 || a.last() != '\n',
    ensures
        stream_events(a + event_separator() + b) == stream_events(a) + stream_events(b),
{
    lemma_pieces_concat(a, b, 0);
}

/// Framing round trip: the payloads read back from a body that frames frameable payloads
/// are those payloads, followed by the empty payload of the empty piece after the last
/// blank line.
pub proof fn lemma_framed_payloads(payloads: Seq<Seq<char>>)
    requires
        forall|i: int| 0 <= i < payloads.len() ==> is_frameable(#[trigger] payloads[i]),
    ensures
        stream_payloads_spec(framed_stream(payloads)) == payloads.push(Seq::empty()),
{
    lemma_framed_events(payloads, Seq::empty());
    assert(framed_stream(payloads) + Seq::<char>::empty() =~= framed_stream(payloads));
    lemma_pieces_single(Seq::<char>::empty());
    let events = stream_events(framed_stream(payloads));
    assert(events =~= payloads.map_values(|p: Seq<char>| data_marker() + p).push(Seq::empty()));
    assert forall|i: int| 0 <= i < payloads.len() implies event_payload(
        data_marker() + #[trigger] payloads[i],
    ) == payloads[i] by {
        let e = data_marker() + payloads[i];
        assert(e.take(6) =~= data_marker());
        assert(e.skip(6) =~= payloads[i]);
    }
    assert(stream_payloads_spec(framed_stream(payloads)) =~= payloads.push(Seq::empty()));
}

/// The payload of the event `cs[from..to]`.
fn payload_of(s: &str, cs: &Vec<char>, from: usize, to: usize) -> (res: String)
    requires
        cs@ == s@,
        from <= to <= cs.len(),
    ensures
        res@ == event_payload(cs@.subrange(from as int, to as int)),
{
    let ghost event = cs@.subrange(from as int, to as int);
    if to - from >= 6 && cs[from] == 'd' && cs[from + 1] == 'a' && cs[from + 2] == 't'
        && cs[from + 3] == 'a' && cs[from + 4] == ':' && cs[from + 5] == ' ' {
        assert(event.take(6) =~= data_marker());
        let res = s.substring_char(from + 6, to).to_owned();
        assert(res@ =~= event.skip(6));
        res
    } else {
        assert(!(event.len() >= 6 && event.take(6) == data_marker())) by {
            if event.len() >= 6 && event.take(6) == data_marker() {
                assert(event.take(6)[0] == 'd');
                assert(event.take(6)[1] == 'a');
                assert(event.take(6)[2] == 't');
                assert(event.take(6)[3] == 'a');
                assert(event.take(6)[4] == ':');
                assert(event.take(6)[5] == ' ');
            }
        }
        String::new()
    }
}

/// Splits a server-sent event stream body at its blank lines and takes from each event
/// what follows `data: ` (an empty string for an event without it).
pub fn stream_payloads(s: &str) -> (res: Vec<String>)
    ensures
        res@.map_values(|p: String| p@) == stream_payloads_spec(s@),
{
    let cs = chars_of(s);
    let n = cs.len();
    let mut res: Vec<String> = Vec::new();
    let ghost mut done: Seq<Seq<char>> = Seq::empty();
    let mut start: usize = 0;
    let mut i: usize = 0;
    while n - i >= 2
        invariant
            cs@ == s@,
            n == cs.len(),
            start <= i <= n,
            forall|j: int| start <= j < i ==> !is_separator_at(cs@, j),
            done + pieces_from(cs@, start as int) == stream_events(cs@),
            res@.len() == done.len(),
            forall|k: int| 0 <= k < res@.len() ==> #[trigger] res@[k]@ == event_payload(done[k]),
        decreases n - i,
    {
        if cs[i] == '\n' && cs[i + 1] == '\n' {
            proof {
                lemma_next_separator_skip(cs@, start as int, i as int);
                assert(is_separator_at(cs@, i as int));
                assert(pieces_from(cs@, start as int) == seq![cs@.subrange(start as int, i as int)]
                    + pieces_from(cs@, i + 2));
            }
            let p = payload_of(s, &cs, start, i);
            res.push(p);
            proof {
                let piece = cs@.subrange(start as int, i as int);
                assert(done.push(piece) + pieces_from(cs@, i + 2) =~= done + pieces_from(
                    cs@,
                    start as int,
                ));
                done = done.push(piece);
            }
            start = i + 2;
            i = i + 2;
        } else {
            i = i + 1;
        }
    }
    proof {
        lemma_next_separator_skip(cs@, start as int, i as int);
        assert(next_separator(cs@, start as int) == n);
        assert(pieces_from(cs@, start as int) == seq![cs@.subrange(start as int, n as int)]);
    }
    let p = payload_of(s, &cs, start, n);
    res.push(p);
    proof {
        let piece = cs@.subrange(start as int, n as int);
        assert(done.push(piece) =~= stream_events(cs@));
        done = done.push(piece);
        assert(res@.map_values(|p: String| p@) =~= done.map_values(
            |e: Seq<char>| event_payload(e),
        ));
    }
    res
}

} // verus!
