//! The one-line bars: the mode pill and key hints of the status bar, the key
//! hints of the hint bar, and the search bar's title and text.
use crate::state::mode::AppMode;
use crate::state::search::SearchState;
use crate::text::{chars_of, occurs_at, owned, push_str, string_from_chars};
use crate::ui::view::{toned, Segment, Tone};
use vstd::prelude::*;

verus! {

/// The label and background tone of the mode pill.
pub open spec fn mode_pill_spec(mode: AppMode) -> (Seq<char>, Tone) {
    match mode {
        AppMode::Normal => (" NORMAL "@, Tone::Aqua),
        AppMode::Insert => (" INSERT "@, Tone::Orange),
        AppMode::Search => (" SEARCH "@, Tone::Yellow),
        AppMode::Command => (" SQL "@, Tone::Yellow),
        AppMode::Result => (" RESULT "@, Tone::Blue),
        AppMode::Help => (" HELP "@, Tone::Orange),
        AppMode::Visual => (" VISUAL "@, Tone::Purple),
    }
}

/// The label and background tone of the status bar's mode pill.
pub fn mode_pill(mode: &AppMode) -> (r: (&'static str, Tone))
    ensures
        (r.0@, r.1) == mode_pill_spec(*mode),
{
    match mode {
        AppMode::Normal => (" NORMAL ", Tone::Aqua),
        AppMode::Insert => (" INSERT ", Tone::Orange),
        AppMode::Search => (" SEARCH ", Tone::Yellow),
        AppMode::Command => (" SQL ", Tone::Yellow),
        AppMode::Result => (" RESULT ", Tone::Blue),
        AppMode::Help => (" HELP ", Tone::Orange),
        AppMode::Visual => (" VISUAL ", Tone::Purple),
    }
}

/// The hint bar's segments: `key:action` pairs separated by three spaces,
/// keys yellow, actions in the secondary text tone.
pub open spec fn hint_bar_spec(hints: Seq<(Seq<char>, Seq<char>)>) -> Seq<(Seq<char>, Tone)>
    decreases hints.len(),
{
    if hints.len() == 0 {
        Seq::empty()
    } else {
        let pre = hint_bar_spec(hints.drop_last());
        let sep = if hints.len() > 1 {
            seq![("   "@, Tone::Fg2)]
        } else {
            Seq::empty()
        };
        pre + sep + seq![
            (hints.last().0, Tone::Yellow),
            (":"@, Tone::Fg2),
            (hints.last().1, Tone::Fg1),
        ]
    }
}

/// The segments of the hint bar for `(key, action)` pairs.
pub fn hint_bar(hints: &[(&str, &str)]) -> (r: Vec<Segment>)
    ensures
        r@.map_values(|s: Segment| (s.text@, s.tone->0)) == hint_bar_spec(
            hints@.map_values(|h: (&str, &str)| (h.0@, h.1@)),
        ),
        forall|k: int| 0 <= k < r@.len() ==> (#[trigger] r@[k]).tone is Some && !r@[k].bold,
{
    let ghost hs = hints@.map_values(|h: (&str, &str)| (h.0@, h.1@));
    let n = hints.len();
    let mut out: Vec<Segment> = Vec::new();
    let mut i: usize = 0;
    while i < n
        invariant
            n == hints@.len(),
            hs == hints@.map_values(|h: (&str, &str)| (h.0@, h.1@)),
            i <= n,
            out@.map_values(|s: Segment| (s.text@, s.tone->0)) == hint_bar_spec(
                hs.subrange(0, i as int),
            ),
            forall|k: int| 0 <= k < out@.len() ==> (#[trigger] out@[k]).tone is Some && !out@[k].bold,
        decreases n - i,
    {
        let ghost before = out@;
        assert(hs.subrange(0, i + 1).drop_last() =~= hs.subrange(0, i as int));
        if i > 0 {
            out.push(toned(owned("   "), Tone::Fg2));
        }
        let (key, action) = hints[i];
        out.push(toned(owned(key), Tone::Yellow));
        out.push(toned(owned(":"), Tone::Fg2));
        out.push(toned(owned(action), Tone::Fg1));
        assert(out@.map_values(|s: Segment| (s.text@, s.tone->0)) =~= hint_bar_spec(
            hs.subrange(0, i + 1),
        ));
        i += 1;
    }
    assert(hs.subrange(0, n as int) =~= hs);
    out
}

/// The search bar's title and text: while typing, ` / ` and the query with a
/// trailing `_`; as a kept filter, ` Filter ` and `/` before the query.
pub fn search_bar_text(search: &SearchState) -> (r: (&'static str, String))
    ensures
        search.active ==> r.0@ == " / "@ && r.1@ == search.query@ + "_"@,
        !search.active ==> r.0@ == " Filter "@ && r.1@ == "/"@ + search.query@,
{
    if search.active {
        let mut t = search.query.clone();
        push_str(&mut t, "_");
        (" / ", t)
    } else {
        let mut t = owned("/");
        push_str(&mut t, search.query.as_str());
        (" Filter ", t)
    }
}

/// The pieces of `s` between the occurrences of `sep` (non-empty), scanning
/// from `i` for the next one and with the current piece starting at `start`
/// (std `str::split`).
pub open spec fn split_scan(s: Seq<char>, sep: Seq<char>, start: int, i: int) -> Seq<Seq<char>>
    decreases s.len() - i,
{
    if sep.len() == 0 || i < start || start < 0 {
        seq![s]
    } else if i + sep.len() > s.len() {
        seq![s.subrange(start, s.len() as int)]
    } else if occurs_at(s, sep, i) {
        seq![s.subrange(start, i)] + split_scan(s, sep, i + sep.len(), i + sep.len())
    } else {
        split_scan(s, sep, start, i + 1)
    }
}

/// The pieces of `s` between occurrences of two spaces.
pub open spec fn hint_pieces(s: Seq<char>) -> Seq<Seq<char>> {
    split_scan(s, seq![' ', ' '], 0, 0)
}

/// The non-empty pieces, in order.
pub open spec fn non_empty(ps: Seq<Seq<char>>) -> Seq<Seq<char>>
    decreases ps.len(),
{
    if ps.len() == 0 {
        ps
    } else if ps.last().len() == 0 {
        non_empty(ps.drop_last())
    } else {
        non_empty(ps.drop_last()).push(ps.last())
    }
}

/// The segments of one `key:action` hint: split at its first `:`; a hint
/// without one is shown whole in the secondary tone.
pub open spec fn hint_segments_spec(h: Seq<char>) -> Seq<(Seq<char>, Tone)> {
    if h.contains(':') {
        let k = choose|k: int| 0 <= k < h.len() && h[k] == ':' && forall|j: int| 0 <= j < k ==> h[j] != ':';
        seq![(h.subrange(0, k), Tone::Yellow), (":"@, Tone::Fg2), (h.subrange(k + 1, h.len() as int), Tone::Fg1)]
    } else {
        seq![(h, Tone::Fg2)]
    }
}

/// The status bar's hint segments for a list of hints, two spaces between
/// hints.
pub open spec fn hint_list_spec(hs: Seq<Seq<char>>) -> Seq<(Seq<char>, Tone)>
    decreases hs.len(),
{
    if hs.len() == 0 {
        Seq::empty()
    } else {
        let sep = if hs.len() > 1 {
            seq![("  "@, Tone::Fg2)]
        } else {
            Seq::empty()
        };
        hint_list_spec(hs.drop_last()) + sep + hint_segments_spec(hs.last())
    }
}

/// The pieces of `cs` between occurrences of two spaces.
fn split_double_space(cs: &Vec<char>) -> (r: Vec<Vec<char>>)
    ensures
        r@.map_values(|p: Vec<char>| p@) == hint_pieces(cs@),
{
    let n = cs.len();
    let mut out: Vec<Vec<char>> = Vec::new();
    let mut start: usize = 0;
    let mut i: usize = 0;
    let ghost sep = seq![' ', ' '];
    while i < n && n - i >= 2
        invariant
            n == cs@.len(),
            sep == seq![' ', ' '],
            start <= i,
            i <= n,
            out@.map_values(|p: Vec<char>| p@) + split_scan(cs@, sep, start as int, i as int)
                == hint_pieces(cs@),
        decreases n + 2 - i,
    {
        if cs[i] == ' ' && cs[i + 1] == ' ' {
            let mut piece: Vec<char> = Vec::new();
            let mut k = start;
            while k < i
                invariant
                    start <= k <= i,
                    i < n && n - i >= 2,
                    n == cs@.len(),
                    piece@ == cs@.subrange(start as int, k as int),
                decreases i - k,
            {
                piece.push(cs[k]);
                k += 1;
                assert(piece@ =~= cs@.subrange(start as int, k as int));
            }
            proof {
                assert(occurs_at(cs@, sep, i as int)) by {
                    assert(cs@.subrange(i as int, i + 2) =~= sep);
                }
            }
            let ghost before = out@;
            out.push(piece);
            assert(out@.map_values(|p: Vec<char>| p@) =~= before.map_values(|p: Vec<char>| p@).push(
                cs@.subrange(start as int, i as int),
            ));
            assert(out@.map_values(|p: Vec<char>| p@) + split_scan(cs@, sep, (i + 2) as int, (i + 2) as int)
                =~= before.map_values(|p: Vec<char>| p@) + split_scan(cs@, sep, start as int, i as int));
            i = i + 2;
            start = i;
        } else {
            proof {
                assert(!occurs_at(cs@, sep, i as int)) by {
                    if occurs_at(cs@, sep, i as int) {
                        assert(cs@.subrange(i as int, i + 2)[0] == cs@[i as int]);
                        assert(cs@.subrange(i as int, i + 2)[1] == cs@[i + 1]);
                    }
                }
            }
            i = i + 1;
        }
    }
    let mut last: Vec<char> = Vec::new();
    let mut k = start;
    while k < n
        invariant
            start <= k <= n,
            n == cs@.len(),
            last@ == cs@.subrange(start as int, k as int),
        decreases n - k,
    {
        last.push(cs[k]);
        k += 1;
        assert(last@ =~= cs@.subrange(start as int, k as int));
    }
    let ghost before = out@;
    out.push(last);
    assert(out@.map_values(|p: Vec<char>| p@) =~= before.map_values(|p: Vec<char>| p@).push(
        cs@.subrange(start as int, n as int),
    ));
    out
}

/// The segments of one hint.
fn push_hint_segments(out: &mut Vec<Segment>, h: &Vec<char>)
    ensures
        final(out)@.map_values(|s: Segment| (s.text@, s.tone->0)) == old(out)@.map_values(
            |s: Segment| (s.text@, s.tone->0),
        ) + hint_segments_spec(h@),
        forall|k: int| 0 <= k < old(out)@.len() ==> final(out)@[k] == old(out)@[k],
        forall|k: int|
            old(out)@.len() <= k < final(out)@.len() ==> (#[trigger] final(out)@[k]).tone is Some
                && !final(out)@[k].bold,
{
    let n = h.len();
    let mut k: usize = 0;
    while k < n && h[k] != ':'
        invariant
            n == h@.len(),
            k <= n,
            forall|j: int| 0 <= j < k ==> h@[j] != ':',
        decreases n - k,
    {
        k += 1;
    }
    let ghost before = out@;
    if k < n {
        proof {
            assert(h@.contains(':')) by {
                assert(h@[k as int] == ':');
            }
            let c = choose|c: int|
                0 <= c < h@.len() && h@[c] == ':' && forall|j: int| 0 <= j < c ==> h@[j] != ':';
            if c < k {
                assert(h@[c] != ':');
            } else if c > k {
                assert(h@[k as int] != ':');
            }
        }
        out.push(toned(string_from_chars(h, 0, k), Tone::Yellow));
        out.push(toned(owned(":"), Tone::Fg2));
        out.push(toned(string_from_chars(h, k + 1, n), Tone::Fg1));
    } else {
        proof {
            assert(!h@.contains(':')) by {
                if h@.contains(':') {
                    let c = choose|c: int| 0 <= c < h@.len() && h@[c] == ':';
                    assert(h@[c] != ':');
                }
            }
        }
        out.push(toned(string_from_chars(h, 0, n), Tone::Fg2));
        assert(h@.subrange(0, n as int) =~= h@);
    }
    assert(out@.map_values(|s: Segment| (s.text@, s.tone->0)) =~= before.map_values(
        |s: Segment| (s.text@, s.tone->0),
    ) + hint_segments_spec(h@));
}

/// The status bar's hint segments: the text is split at double spaces; each
/// non-empty hint shows its key (before the first `:`) yellow, the colon, and
/// its action; hints are two spaces apart.
pub fn hint_spans(hints: &str) -> (r: Vec<Segment>)
    ensures
        r@.map_values(|s: Segment| (s.text@, s.tone->0)) == hint_list_spec(
            non_empty(hint_pieces(hints@)),
        ),
        forall|k: int| 0 <= k < r@.len() ==> (#[trigger] r@[k]).tone is Some && !r@[k].bold,
{
    let cs = chars_of(hints);
    let pieces = split_double_space(&cs);
    let ghost ps = pieces@.map_values(|p: Vec<char>| p@);
    let n = pieces.len();
    let mut out: Vec<Segment> = Vec::new();
    let mut shown = false;
    let mut i: usize = 0;
    while i < n
        invariant
            n == pieces@.len(),
            ps == pieces@.map_values(|p: Vec<char>| p@),
            ps == hint_pieces(hints@),
            i <= n,
            shown == (non_empty(ps.subrange(0, i as int)).len() > 0),
            out@.map_values(|s: Segment| (s.text@, s.tone->0)) == hint_list_spec(
                non_empty(ps.subrange(0, i as int)),
            ),
            forall|k: int| 0 <= k < out@.len() ==> (#[trigger] out@[k]).tone is Some && !out@[k].bold,
        decreases n - i,
    {
        let ghost pre = ps.subrange(0, i as int);
        assert(ps.subrange(0, i + 1).drop_last() =~= pre);
        assert(ps.subrange(0, i + 1).last() == pieces@[i as int]@);
        if pieces[i].len() > 0 {
            let ghost ne = non_empty(pre);
            assert(non_empty(ps.subrange(0, i + 1)) == ne.push(pieces@[i as int]@));
            assert(ne.push(pieces@[i as int]@).drop_last() =~= ne);
            if shown {
                let ghost b = out@;
                out.push(toned(owned("  "), Tone::Fg2));
                assert(out@.map_values(|s: Segment| (s.text@, s.tone->0)) =~= b.map_values(
                    |s: Segment| (s.text@, s.tone->0),
                ).push(("  "@, Tone::Fg2)));
            }
            push_hint_segments(&mut out, &pieces[i]);
            assert(out@.map_values(|s: Segment| (s.text@, s.tone->0)) =~= hint_list_spec(
                ne.push(pieces@[i as int]@),
            ));
            shown = true;
        }
        i += 1;
    }
    assert(ps.subrange(0, n as int) =~= ps);
    out
}

} // verus!
