use vstd::prelude::*;
use vstd::multiset::Multiset;

verus! {

/// The largest of three channels.
pub open spec fn max3(a: u8, b: u8, c: u8) -> u8 {
    if a >= b && a >= c {
        a
    } else if b >= c {
        b
    } else {
        c
    }
}

/// The HSV value (brightness) of a colour, in channel units: the largest
/// of its red, green and blue channels.
pub open spec fn hsv_value(c: [u8; 3]) -> u8 {
    max3(c[0], c[1], c[2])
}

/// The HSV value of a colour is its largest channel: no channel exceeds
/// it, and it is one of the three channels.
pub proof fn lemma_hsv_value_is_largest_channel(c: [u8; 3])
    ensures
        hsv_value(c) >= c[0],
        hsv_value(c) >= c[1],
        hsv_value(c) >= c[2],
        hsv_value(c) == c[0] || hsv_value(c) == c[1] || hsv_value(c) == c[2],
{
}

/// Sorting by HSV value puts a colour before another whenever its largest
/// channel is smaller: in a sorted palette, if every channel of the colour
/// at `j` is below some channel of the colour at `i`, then `i` comes after
/// `j`.
pub proof fn lemma_sorted_orders_by_largest_channel(s: Seq<[u8; 3]>, i: int, j: int, ch: int)
    requires
        sorted_by_value(s),
        0 <= i < s.len(),
        0 <= j < s.len(),
        0 <= ch < 3,
        s[j][0] < s[i][ch] && s[j][1] < s[i][ch] && s[j][2] < s[i][ch],
    ensures
        j < i,
{
    lemma_hsv_value_is_largest_channel(s[i]);
    lemma_hsv_value_is_largest_channel(s[j]);
    if i <= j {
        assert(hsv_value(s[i]) <= hsv_value(s[j]));
    }
}

/// Whether the colours are in non-decreasing order of HSV value.
pub open spec fn sorted_by_value(s: Seq<[u8; 3]>) -> bool {
    forall|i: int, j: int| 0 <= i <= j < s.len() ==> hsv_value(#[trigger] s[i]) <= hsv_value(#[trigger] s[j])
}

/// The HSV value of a colour.
pub fn color_value(c: [u8; 3]) -> (v: u8)
    ensures
        v == hsv_value(c),
        v >= c[0] && v >= c[1] && v >= c[2],
        v == c[0] || v == c[1] || v == c[2],
{
    let r = c[0];
    let g = c[1];
    let b = c[2];
    if r >= g && r >= b {
        r
    } else if g >= b {
        g
    } else {
        b
    }
}

/// Orders a palette from darkest to brightest by HSV value. Colours of
/// equal value may come out in any order.
pub fn sort_palette_by_value(palette: Vec<[u8; 3]>) -> (sorted: Vec<[u8; 3]>)
    ensures
        sorted@.to_multiset() == palette@.to_multiset(),
        sorted_by_value(sorted@),
{
    broadcast use vstd::seq_lib::group_to_multiset_ensures;

    let mut sorted: Vec<[u8; 3]> = Vec::new();
    let n = palette.len();
    for k in 0..n
        invariant
            n == palette.len(),
            sorted@.to_multiset() == palette@.subrange(0, k as int).to_multiset(),
            sorted_by_value(sorted@),
    {
        let c = palette[k];
        let v = color_value(c);
        let mut pos: usize = 0;
        while pos < sorted.len() && color_value(sorted[pos]) <= v
            invariant
                pos <= sorted.len(),
                forall|j: int| 0 <= j < pos ==> hsv_value(#[trigger] sorted@[j]) <= v,
            decreases sorted.len() - pos,
        {
            pos = pos + 1;
        }
        let ghost before = sorted@;
        sorted.insert(pos, c);
        proof {
            assert(sorted@ =~= before.insert(pos as int, c));
            vstd::seq_lib::to_multiset_insert(before, pos as int, c);
            assert(palette@.subrange(0, k + 1) =~= palette@.subrange(0, k as int).push(c));
            vstd::seq_lib::to_multiset_build(palette@.subrange(0, k as int), c);
            assert(sorted@.to_multiset() == palette@.subrange(0, k + 1).to_multiset());
            assert forall|i: int, j: int| 0 <= i <= j < sorted@.len() implies hsv_value(
                #[trigger] sorted@[i],
            ) <= hsv_value(#[trigger] sorted@[j]) by {
                if i < pos && j < pos {
                    assert(sorted@[i] == before[i] && sorted@[j] == before[j]);
                } else if i < pos && j == pos {
                    assert(sorted@[i] == before[i]);
                } else if i < pos {
                    assert(sorted@[i] == before[i] && sorted@[j] == before[j - 1]);
                } else if i == pos && j > pos {
                    assert(sorted@[j] == before[j - 1]);
                    assert(hsv_value(before[pos as int]) > v);
                } else if i > pos {
                    assert(sorted@[i] == before[i - 1] && sorted@[j] == before[j - 1]);
                }
            }
        }
    }
    assert(palette@.subrange(0, n as int) =~= palette@);
    sorted
}

/// No two positions of the sequence hold colours of equal HSV value.
pub open spec fn distinct_values(s: Seq<[u8; 3]>) -> bool {
    forall|i: int, j: int|
        0 <= i < j < s.len() ==> hsv_value(#[trigger] s[i]) != hsv_value(#[trigger] s[j])
}

/// Any two colours of the multiset that have equal HSV value are equal.
pub open spec fn value_determines_color(m: Multiset<[u8; 3]>) -> bool {
    forall|x: [u8; 3], y: [u8; 3]|
        m.contains(x) && m.contains(y) && hsv_value(x) == hsv_value(y) ==> x == y
}

/// Two orderings by HSV value of the same colours are the same sequence,
/// when colours of equal value are equal.
pub proof fn lemma_sorted_by_value_unique(a: Seq<[u8; 3]>, b: Seq<[u8; 3]>)
    requires
        a.to_multiset() == b.to_multiset(),
        sorted_by_value(a),
        sorted_by_value(b),
        value_determines_color(a.to_multiset()),
    ensures
        a == b,
    decreases a.len(),
{
    broadcast use vstd::seq_lib::group_to_multiset_ensures;

    vstd::seq_lib::to_multiset_len(a);
    vstd::seq_lib::to_multiset_len(b);
    assert(a.len() == b.len());
    if a.len() == 0 {
        assert(a =~= b);
    } else {
        let n = a.len() as int;
        let x = a[n - 1];
        let y = b[n - 1];
        assert(b.contains(y));
        assert(a.to_multiset().count(y) > 0);
        assert(a.contains(y));
        let k = choose|k: int| 0 <= k < n && a[k] == y;
        assert(hsv_value(a[k]) <= hsv_value(a[n - 1]));
        assert(a.contains(x));
        assert(b.to_multiset().count(x) > 0);
        assert(b.contains(x));
        let m = choose|m: int| 0 <= m < n && b[m] == x;
        assert(hsv_value(b[m]) <= hsv_value(b[n - 1]));
        assert(a.to_multiset().contains(x));
        assert(a.to_multiset().contains(y));
        assert(x == y);
        let a2 = a.drop_last();
        let b2 = b.drop_last();
        assert(a2 =~= a.remove(n - 1));
        assert(b2 =~= b.remove(n - 1));
        assert(a2.to_multiset() =~= b2.to_multiset());
        assert forall|i: int, j: int| 0 <= i <= j < a2.len() implies hsv_value(#[trigger] a2[i])
            <= hsv_value(#[trigger] a2[j]) by {
            assert(a2[i] == a[i] && a2[j] == a[j]);
        }
        assert forall|i: int, j: int| 0 <= i <= j < b2.len() implies hsv_value(#[trigger] b2[i])
            <= hsv_value(#[trigger] b2[j]) by {
            assert(b2[i] == b[i] && b2[j] == b[j]);
        }
        assert forall|p: [u8; 3], q: [u8; 3]|
            a2.to_multiset().contains(p) && a2.to_multiset().contains(q) && hsv_value(p) == hsv_value(
                q,
            ) implies p == q by {
            assert(a.to_multiset().contains(p));
            assert(a.to_multiset().contains(q));
        }
        lemma_sorted_by_value_unique(a2, b2);
        assert(a =~= b) by {
            assert forall|i: int| 0 <= i < n implies a[i] == b[i] by {
                if i < n - 1 {
                    assert(a[i] == a2[i] && b[i] == b2[i]);
                }
            }
        }
    }
}

/// Sorting a palette twice gives the order of sorting it once, when no two
/// of its colours have equal HSV value: `once` and `twice` stand for what
/// the two calls of `sort_palette_by_value` return.
pub proof fn lemma_sort_twice_same_order(
    palette: Seq<[u8; 3]>,
    once: Seq<[u8; 3]>,
    twice: Seq<[u8; 3]>,
)
    requires
        distinct_values(palette),
        once.to_multiset() == palette.to_multiset(),
        sorted_by_value(once),
        twice.to_multiset() == once.to_multiset(),
        sorted_by_value(twice),
    ensures
        twice == once,
{
    broadcast use vstd::seq_lib::group_to_multiset_ensures;

    assert forall|x: [u8; 3], y: [u8; 3]|
        once.to_multiset().contains(x) && once.to_multiset().contains(y) && hsv_value(x)
            == hsv_value(y) implies x == y by {
        assert(palette.to_multiset().count(x) > 0);
        assert(palette.to_multiset().count(y) > 0);
        assert(palette.contains(x));
        assert(palette.contains(y));
        let i = choose|i: int| 0 <= i < palette.len() && palette[i] == x;
        let j = choose|j: int| 0 <= j < palette.len() && palette[j] == y;
        if i < j {
            assert(hsv_value(palette[i]) != hsv_value(palette[j]));
        } else if j < i {
            assert(hsv_value(palette[j]) != hsv_value(palette[i]));
        }
    }
    lemma_sorted_by_value_unique(once, twice);
}

/// Which of the four HSV intermediate values (`v`, `t`, `p`, `q`) become the
/// red, green and blue channels in each sixth of the hue circle.
pub open spec fn spec_hsv_sector_rgb<T>(sector: u32, v: T, t: T, p: T, q: T) -> (T, T, T) {
    if sector == 0 {
        (v, t, p)
    } else if sector == 1 {
        (q, v, p)
    } else if sector == 2 {
        (p, v, t)
    } else if sector == 3 {
        (p, q, v)
    } else if sector == 4 {
        (t, p, v)
    } else {
        (v, p, q)
    }
}

/// Arranges the HSV intermediate values into red, green and blue for the
/// given sixth of the hue circle (sectors past the fifth count as the last).
pub fn hsv_sector_rgb<T: Copy>(sector: u32, v: T, t: T, p: T, q: T) -> (rgb: (T, T, T))
    ensures
        rgb == spec_hsv_sector_rgb(sector, v, t, p, q),
{
    match sector {
        0 => (v, t, p),
        1 => (q, v, p),
        2 => (p, v, t),
        3 => (p, q, v),
        4 => (t, p, v),
        _ => (v, p, q),
    }
}

} // verus!
