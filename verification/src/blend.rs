use vstd::prelude::*;
use crate::values::BlendType;

verus! {

/// The most layers a blended image may have.
pub const MAX_LAYERS: usize = 16;

/// A blended request with no layers or more than `MAX_LAYERS`.
#[derive(Clone, Copy, Debug, PartialEq, Eq, Structural)]
pub enum LayerCountError {
    OutOfRange,
}

/// A blended image takes between one and sixteen layers.
pub fn check_layer_count(count: usize) -> (r: Result<(), LayerCountError>)
    ensures
        r is Ok <==> 1 <= count <= 16,
        r is Err ==> r == Err::<(), LayerCountError>(LayerCountError::OutOfRange),
{
    if count == 0 || count > MAX_LAYERS {
        Err(LayerCountError::OutOfRange)
    } else {
        Ok(())
    }
}

/// Whether the blend has a rule for combining layers: linear and
/// gradient blends have, the screen blend has none yet.
pub fn is_supported_blend(btype: BlendType) -> (r: bool)
    ensures
        r == !(btype is Screen),
{
    match btype {
        BlendType::Linear => true,
        BlendType::Gradient => true,
        BlendType::Screen => false,
    }
}

/// The smaller of two integers.
pub open spec fn min_int(a: int, b: int) -> int {
    if a <= b {
        a
    } else {
        b
    }
}

/// `a - b`, held at zero as `usize::saturating_sub` does.
pub open spec fn sat_sub(a: int, b: int) -> int {
    if a >= b {
        a - b
    } else {
        0
    }
}

/// The positions, row by row, of the pixels that the gradient blend
/// compares around `(x, y)`: right, left, below and above, each held at
/// the border of the image.
pub open spec fn spec_gradient_neighbors(x: int, y: int, width: int, height: int) -> Seq<int> {
    seq![
        y * width + min_int(x + 1, width - 1),
        y * width + sat_sub(x, 1),
        min_int(y + 1, height - 1) * width + x,
        sat_sub(y, 1) * width + x,
    ]
}

/// The positions of the right, left, lower and upper neighbours of a
/// pixel, each held at the border of the image.
pub fn gradient_neighbor_indices(x: usize, y: usize, width: usize, height: usize) -> (n: [usize; 4])
    requires
        x < width,
        y < height,
        width * height <= usize::MAX,
    ensures
        n[0] == spec_gradient_neighbors(x as int, y as int, width as int, height as int)[0],
        n[1] == spec_gradient_neighbors(x as int, y as int, width as int, height as int)[1],
        n[2] == spec_gradient_neighbors(x as int, y as int, width as int, height as int)[2],
        n[3] == spec_gradient_neighbors(x as int, y as int, width as int, height as int)[3],
        forall|k: int| 0 <= k < 4 ==> #[trigger] n@[k] < width * height,
        x + 1 < width ==> n[0] == y * width + x + 1,
        x + 1 == width ==> n[0] == y * width + x,
        x > 0 ==> n[1] == y * width + x - 1,
        x == 0 ==> n[1] == y * width,
        y + 1 < height ==> n[2] == (y + 1) * width + x,
        y + 1 == height ==> n[2] == y * width + x,
        y > 0 ==> n[3] == (y - 1) * width + x,
        y == 0 ==> n[3] == x,
{
    proof {
        lemma_row_position_in_image(y as int, x as int, width as int, height as int);
        lemma_row_position_in_image(min_int(y + 1, height - 1), x as int, width as int, height as int);
        lemma_row_position_in_image(sat_sub(y as int, 1), x as int, width as int, height as int);
        lemma_row_position_in_image(y as int, min_int(x + 1, width - 1), width as int, height as int);
        lemma_row_position_in_image(y as int, sat_sub(x as int, 1), width as int, height as int);
    }
    let right = if x + 1 < width - 1 { x + 1 } else { width - 1 };
    let left = x.saturating_sub(1);
    let below = if y + 1 < height - 1 { y + 1 } else { height - 1 };
    let above = y.saturating_sub(1);
    let row = y * width;
    let n = [row + right, row + left, below * width + x, above * width + x];
    assert(n@ =~= seq![n[0], n[1], n[2], n[3]]);
    n
}

/// The gradient blend compares each pixel with the pixels next to it in
/// its row and column: right, left, below and above. At the border, where
/// a neighbour would fall outside the image, the pixel itself stands in
/// for it.
pub proof fn lemma_gradient_neighbors_adjacent(x: int, y: int, width: int, height: int)
    requires
        0 <= x < width,
        0 <= y < height,
    ensures
        x + 1 < width ==> spec_gradient_neighbors(x, y, width, height)[0] == y * width + x + 1,
        x + 1 == width ==> spec_gradient_neighbors(x, y, width, height)[0] == y * width + x,
        x > 0 ==> spec_gradient_neighbors(x, y, width, height)[1] == y * width + x - 1,
        x == 0 ==> spec_gradient_neighbors(x, y, width, height)[1] == y * width + x,
        y + 1 < height ==> spec_gradient_neighbors(x, y, width, height)[2] == (y + 1) * width + x,
        y + 1 == height ==> spec_gradient_neighbors(x, y, width, height)[2] == y * width + x,
        y > 0 ==> spec_gradient_neighbors(x, y, width, height)[3] == (y - 1) * width + x,
        y == 0 ==> spec_gradient_neighbors(x, y, width, height)[3] == y * width + x,
{
}

/// A pixel inside the image has its row-by-row position inside the image.
pub proof fn lemma_row_position_in_image(y: int, x: int, width: int, height: int)
    requires
        0 <= x < width,
        0 <= y < height,
    ensures
        0 <= y * width + x < width * height,
        y * width + x <= (height - 1) * width + (width - 1),
{
    assert(0 <= y * width + x < width * height) by (nonlinear_arith)
        requires
            0 <= x < width,
            0 <= y < height,
    ;
    assert(y * width + x <= (height - 1) * width + (width - 1)) by (nonlinear_arith)
        requires
            0 <= x < width,
            0 <= y < height,
    ;
}

} // verus!
