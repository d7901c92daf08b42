//! Built-in themes: the fallback palette, lookup by name and the ordering of a
//! loaded theme directory.
use crate::order::sorted_lt;
use crate::text::{compare_str, lemma_str_order, owned, str_eq, str_lt};
use crate::themes::palette::{Color, Theme, ThemeColors};
use vstd::prelude::*;

verus! {

/// The gruvbox palette used when no other theme can be loaded.
pub open spec fn gruvbox_colors() -> ThemeColors {
    ThemeColors {
        primary: Color::Rgb(0x28, 0x28, 0x28),
        secondary: Color::Rgb(0xeb, 0xdb, 0xb2),
        bg0: Color::Rgb(0x1d, 0x20, 0x21),
        bg1: Color::Rgb(0x28, 0x28, 0x28),
        bg2: Color::Rgb(0x3c, 0x38, 0x36),
        bg_sel: Color::Rgb(0x50, 0x49, 0x45),
        fg0: Color::Rgb(0xeb, 0xdb, 0xb2),
        fg1: Color::Rgb(0xa8, 0x99, 0x84),
        fg2: Color::Rgb(0x7c, 0x6f, 0x64),
        red: Color::Rgb(0xfb, 0x49, 0x34),
        green: Color::Rgb(0xb8, 0xbb, 0x26),
        yellow: Color::Rgb(0xfa, 0xbd, 0x2f),
        blue: Color::Rgb(0x83, 0xa5, 0x98),
        aqua: Color::Rgb(0x8e, 0xc0, 0x7c),
        orange: Color::Rgb(0xfe, 0x80, 0x19),
        purple: Color::Rgb(0xd3, 0x86, 0x9b),
    }
}

/// Returns the gruvbox theme used as a last-resort fallback.
pub fn fallback_theme() -> (t: Theme)
    ensures
        t.name@ == "gruvbox"@,
        t.colors == gruvbox_colors(),
{
    Theme {
        name: owned("gruvbox"),
        colors: ThemeColors {
            primary: Color::Rgb(0x28, 0x28, 0x28),
            secondary: Color::Rgb(0xeb, 0xdb, 0xb2),
            bg0: Color::Rgb(0x1d, 0x20, 0x21),
            bg1: Color::Rgb(0x28, 0x28, 0x28),
            bg2: Color::Rgb(0x3c, 0x38, 0x36),
            bg_sel: Color::Rgb(0x50, 0x49, 0x45),
            fg0: Color::Rgb(0xeb, 0xdb, 0xb2),
            fg1: Color::Rgb(0xa8, 0x99, 0x84),
            fg2: Color::Rgb(0x7c, 0x6f, 0x64),
            red: Color::Rgb(0xfb, 0x49, 0x34),
            green: Color::Rgb(0xb8, 0xbb, 0x26),
            yellow: Color::Rgb(0xfa, 0xbd, 0x2f),
            blue: Color::Rgb(0x83, 0xa5, 0x98),
            aqua: Color::Rgb(0x8e, 0xc0, 0x7c),
            orange: Color::Rgb(0xfe, 0x80, 0x19),
            purple: Color::Rgb(0xd3, 0x86, 0x9b),
        },
    }
}

/// The names of a list of themes.
pub open spec fn theme_names(s: Seq<Theme>) -> Seq<Seq<char>> {
    s.map_values(|t: Theme| t.name@)
}

/// The first theme named `name`, if any.
pub open spec fn first_named(themes: Seq<Theme>, name: Seq<char>, r: Option<Theme>) -> bool {
    match r {
        Some(t) => exists|i: int|
            0 <= i < themes.len() && themes[i] == t && #[trigger] themes[i].name@ == name && forall|
                j: int,
            |
                0 <= j < i ==> (#[trigger] themes[j]).name@ != name,
        None => forall|i: int| 0 <= i < themes.len() ==> (#[trigger] themes[i]).name@ != name,
    }
}

/// Finds a theme by exact case-sensitive name.
pub fn find_by_name(themes: &[Theme], name: &str) -> (r: Option<Theme>)
    ensures
        first_named(themes@, name@, r),
{
    let n = themes.len();
    let mut i: usize = 0;
    while i < n
        invariant
            n == themes@.len(),
            i <= n,
            forall|j: int| 0 <= j < i ==> (#[trigger] themes@[j]).name@ != name@,
        decreases n - i,
    {
        if str_eq(themes[i].name.as_str(), name) {
            let t = themes[i].clone();
            assert(themes@[i as int].name@ == name@);
            return Some(t);
        }
        i += 1;
    }
    None
}

/// Inserts `t` into the name-ordered list `v`, replacing a theme of the same
/// name.
fn upsert_by_name(v: &mut Vec<Theme>, t: Theme)
    requires
        sorted_lt(theme_names(old(v)@)),
    ensures
        sorted_lt(theme_names(final(v)@)),
        forall|x: Seq<char>|
            theme_names(final(v)@).contains(x) <==> (theme_names(old(v)@).contains(x) || x
                == t.name@),
        forall|k: int|
            0 <= k < final(v)@.len() && (#[trigger] final(v)@[k]).name@ == t.name@ ==> final(v)@[k]
                == t,
        forall|k: int|
            0 <= k < final(v)@.len() && (#[trigger] final(v)@[k]).name@ != t.name@ ==> old(
                v,
            )@.contains(final(v)@[k]),
{
    let n = v.len();
    let ghost tv = t.name@;
    let ghost old_v = v@;
    let ghost old_names = theme_names(v@);
    let mut p: usize = 0;
    while p < n
        invariant
            n == v@.len(),
            p <= n,
            v@ == old_v,
            old_names == theme_names(old_v),
            tv == t.name@,
            sorted_lt(old_names),
            forall|i: int| 0 <= i < p ==> str_lt(#[trigger] old_names[i], tv),
        ensures
            p <= n,
            forall|i: int| 0 <= i < p ==> str_lt(#[trigger] old_names[i], tv),
            p < n ==> !str_lt(old_names[p as int], tv),
        decreases n - p,
    {
        let c = compare_str(v[p].name.as_str(), t.name.as_str());
        proof {
            assert(old_names[p as int] == v@[p as int].name@);
            lemma_str_order(old_names[p as int], tv, tv);
        }
        if c >= 0 {
            break;
        }
        p += 1;
    }
    if p < n && compare_str(v[p].name.as_str(), t.name.as_str()) == 0 {
        proof {
            assert(old_names[p as int] == v@[p as int].name@);
            lemma_str_order(old_names[p as int], tv, tv);
        }
        v.set(p, t);
        proof {
            let nv = theme_names(v@);
            assert(nv =~= old_names);
            assert forall|k: int|
                0 <= k < v@.len() && (#[trigger] v@[k]).name@ == tv implies v@[k] == t by {
                if k != p {
                    assert(nv[k] == old_names[k]);
                    assert(old_names[p as int] == tv);
                    if k < p {
                        assert(str_lt(old_names[k], old_names[p as int]));
                    } else {
                        assert(str_lt(old_names[p as int], old_names[k]));
                    }
                    lemma_str_order(old_names[k], tv, tv);
                }
            }
            assert forall|k: int|
                0 <= k < v@.len() && (#[trigger] v@[k]).name@ != tv implies old_v.contains(
                v@[k],
            ) by {
                assert(v@[k] == old_v[k]);
            }
            assert forall|x: Seq<char>| nv.contains(x) <==> (old_names.contains(x) || x == tv) by {
                if x == tv {
                    assert(old_names[p as int] == x);
                }
            }
        }
        return;
    }
    proof {
        if p < n {
            assert(old_names[p as int] == v@[p as int].name@);
            lemma_str_order(old_names[p as int], tv, tv);
            assert(str_lt(tv, old_names[p as int]));
        }
    }
    v.insert(p, t);
    proof {
        let nv = theme_names(v@);
        assert(nv =~= old_names.insert(p as int, tv));
        assert forall|i: int, j: int| 0 <= i < j < nv.len() implies str_lt(
            #[trigger] nv[i],
            #[trigger] nv[j],
        ) by {
            if j < p {
                assert(nv[i] == old_names[i] && nv[j] == old_names[j]);
            } else if j == p {
                assert(nv[i] == old_names[i]);
            } else if i == p {
                assert(nv[j] == old_names[j - 1]);
                if j - 1 > p {
                    assert(str_lt(old_names[p as int], old_names[j - 1]));
                    lemma_str_order(tv, old_names[p as int], old_names[j - 1]);
                }
            } else if i < p {
                assert(nv[i] == old_names[i] && nv[j] == old_names[j - 1]);
            } else {
                assert(nv[i] == old_names[i - 1] && nv[j] == old_names[j - 1]);
            }
        }
        assert forall|x: Seq<char>| nv.contains(x) <==> (old_names.contains(x) || x == tv) by {
            if nv.contains(x) {
                let k = choose|k: int| 0 <= k < nv.len() && nv[k] == x;
                if k < p {
                    assert(old_names[k] == x);
                } else if k > p {
                    assert(old_names[k - 1] == x);
                }
            }
            if old_names.contains(x) {
                let k = choose|k: int| 0 <= k < old_names.len() && old_names[k] == x;
                if k < p {
                    assert(nv[k] == x);
                } else {
                    assert(nv[k + 1] == x);
                }
            }
            if x == tv {
                assert(nv[p as int] == x);
            }
        }
        assert forall|k: int|
            0 <= k < v@.len() && (#[trigger] v@[k]).name@ == tv implies v@[k] == t by {
            if k != p {
                assert(nv[k] == tv);
                assert(str_lt(nv[k], nv[p as int]) || str_lt(nv[p as int], nv[k]));
                lemma_str_order(tv, tv, tv);
            }
        }
        assert forall|k: int|
            0 <= k < v@.len() && (#[trigger] v@[k]).name@ != tv implies old_v.contains(v@[k]) by {
            if k < p {
                assert(v@[k] == old_v[k]);
            } else {
                assert(k != p);
                assert(v@[k] == old_v[k - 1]);
            }
        }
    }
}

/// `t` is the last theme in `themes` with its name.
pub open spec fn last_of_its_name(themes: Seq<Theme>, t: Theme) -> bool {
    exists|i: int|
        0 <= i < themes.len() && #[trigger] themes[i] == t && forall|j: int|
            i < j < themes.len() ==> (#[trigger] themes[j]).name@ != t.name@
}

/// Orders loaded themes by name, keeping the last theme of each name.
pub fn collect_by_name(themes: Vec<Theme>) -> (r: Vec<Theme>)
    ensures
        sorted_lt(theme_names(r@)),
        forall|x: Seq<char>| theme_names(r@).contains(x) <==> theme_names(themes@).contains(x),
        forall|k: int| 0 <= k < r@.len() ==> last_of_its_name(themes@, #[trigger] r@[k]),
{
    let n = themes.len();
    let mut out: Vec<Theme> = Vec::new();
    let mut i: usize = 0;
    while i < n
        invariant
            n == themes@.len(),
            i <= n,
            sorted_lt(theme_names(out@)),
            forall|x: Seq<char>|
                theme_names(out@).contains(x) <==> theme_names(themes@.subrange(0, i as int)).contains(
                    x,
                ),
            forall|k: int|
                0 <= k < out@.len() ==> last_of_its_name(
                    themes@.subrange(0, i as int),
                    #[trigger] out@[k],
                ),
        decreases n - i,
    {
        let t = themes[i].clone();
        let ghost before = out@;
        let ghost pre = themes@.subrange(0, i as int);
        let ghost post = themes@.subrange(0, i + 1);
        upsert_by_name(&mut out, t);
        proof {
            assert(post =~= pre.push(themes@[i as int]));
            assert(theme_names(post) =~= theme_names(pre).push(themes@[i as int].name@));
            assert forall|x: Seq<char>| theme_names(out@).contains(x) <==> theme_names(post).contains(
                x,
            ) by {
                assert(theme_names(out@).contains(x) <==> (theme_names(before).contains(x) || x
                    == t.name@));
                assert(theme_names(before).contains(x) <==> theme_names(pre).contains(x));
                if x == t.name@ {
                    assert(theme_names(post)[i as int] == x);
                }
                if theme_names(pre).contains(x) {
                    let k = choose|k: int| 0 <= k < theme_names(pre).len() && theme_names(pre)[k] == x;
                    assert(theme_names(post)[k] == x);
                }
                if theme_names(post).contains(x) {
                    let k = choose|k: int| 0 <= k < theme_names(post).len() && theme_names(post)[k]
                        == x;
                    if k < i {
                        assert(theme_names(pre)[k] == x);
                    }
                }
            }
            assert forall|k: int| 0 <= k < out@.len() implies last_of_its_name(
                post,
                #[trigger] out@[k],
            ) by {
                let u = out@[k];
                if u.name@ == t.name@ {
                    assert(u == t);
                    assert(post[i as int] == u);
                } else {
                    assert(before.contains(u));
                    let k2 = choose|k2: int| 0 <= k2 < before.len() && before[k2] == u;
                    assert(last_of_its_name(pre, before[k2]));
                    let w = choose|w: int|
                        0 <= w < pre.len() && #[trigger] pre[w] == u && forall|j: int|
                            w < j < pre.len() ==> (#[trigger] pre[j]).name@ != u.name@;
                    assert(post[w] == u);
                    assert forall|j: int| w < j < post.len() implies (#[trigger] post[j]).name@
                        != u.name@ by {
                        if j < i {
                            assert(post[j] == pre[j]);
                        }
                    }
                }
            }
        }
        i += 1;
    }
    assert(themes@.subrange(0, n as int) =~= themes@);
    out
}

} // verus!
