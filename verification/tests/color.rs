use cntour::color::{color_value, hsv_sector_rgb, sort_palette_by_value};
use cntour::palettes::palette_neon;

fn max_channel(c: [u8; 3]) -> u8 {
    c[0].max(c[1]).max(c[2])
}

#[test]
fn value_is_the_largest_channel() {
    assert_eq!(color_value([10, 200, 30]), 200);
    assert_eq!(color_value([255, 0, 0]), 255);
    assert_eq!(color_value([1, 2, 3]), 3);
    assert_eq!(color_value([0, 0, 0]), 0);
}

#[test]
fn neon_sorted_by_value() {
    let sorted = sort_palette_by_value(palette_neon());
    // values: 247, 183, 163, 238, 240
    assert_eq!(
        sorted,
        vec![[58, 12, 163], [114, 9, 183], [67, 97, 238], [76, 201, 240], [247, 37, 133]]
    );
}

#[test]
fn sorting_keeps_every_colour_and_orders_them() {
    let input = vec![[9, 9, 9], [1, 200, 3], [50, 0, 0], [0, 0, 200], [9, 9, 9], [255, 255, 255], [0, 0, 0]];
    let sorted = sort_palette_by_value(input.clone());
    assert_eq!(sorted.len(), input.len());
    for w in sorted.windows(2) {
        assert!(max_channel(w[0]) <= max_channel(w[1]));
    }
    let mut a = input.clone();
    let mut b = sorted.clone();
    a.sort();
    b.sort();
    assert_eq!(a, b);
}

#[test]
fn sorting_empty_and_single() {
    assert_eq!(sort_palette_by_value(vec![]), Vec::<[u8; 3]>::new());
    assert_eq!(sort_palette_by_value(vec![[1, 2, 3]]), vec![[1, 2, 3]]);
}

#[test]
fn hsv_sectors_arrange_channels() {
    let (v, t, p, q) = ('v', 't', 'p', 'q');
    assert_eq!(hsv_sector_rgb(0, v, t, p, q), ('v', 't', 'p'));
    assert_eq!(hsv_sector_rgb(1, v, t, p, q), ('q', 'v', 'p'));
    assert_eq!(hsv_sector_rgb(2, v, t, p, q), ('p', 'v', 't'));
    assert_eq!(hsv_sector_rgb(3, v, t, p, q), ('p', 'q', 'v'));
    assert_eq!(hsv_sector_rgb(4, v, t, p, q), ('t', 'p', 'v'));
    assert_eq!(hsv_sector_rgb(5, v, t, p, q), ('v', 'p', 'q'));
    assert_eq!(hsv_sector_rgb(9, v, t, p, q), ('v', 'p', 'q'));
}

#[test]
fn sorting_twice_keeps_the_order_of_distinct_values() {
    let palette = vec![[200, 10, 10], [5, 5, 90], [0, 140, 0], [30, 30, 30]];
    let once = sort_palette_by_value(palette.clone());
    let twice = sort_palette_by_value(once.clone());
    assert_eq!(once, vec![[30, 30, 30], [5, 5, 90], [0, 140, 0], [200, 10, 10]]);
    assert_eq!(twice, once);
}
