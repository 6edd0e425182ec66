//! Style matrices and the style vector resolved from one.
//!
//! Row 0 of a style matrix is the mean style of the corpus; every other row is a
//! named style. The scalar type is left to the caller, and so is its arithmetic.

use vstd::prelude::*;
use crate::error::TtsError;

verus! {

/// A style file as decoded: the declared shape `[rows, columns]` and the values,
/// row by row.
#[derive(Debug, Clone, PartialEq)]
pub struct Data<T> {
    pub shape: [usize; 2],
    pub data: Vec<Vec<T>>,
}

/// A matrix of `rows` by `cols` values, stored row after row.
#[derive(Debug, Clone, PartialEq)]
pub struct StyleMatrix<T> {
    pub rows: usize,
    pub cols: usize,
    pub values: Vec<T>,
}

impl<T> StyleMatrix<T> {
    /// Whether the matrix is a rectangle with at least the mean row.
    pub open spec fn wf(&self) -> bool {
        &&& self.rows >= 1
        &&& self.values.len() == self.rows * self.cols
    }

    /// Row `i` of the matrix.
    pub open spec fn row(&self, i: int) -> Seq<T> {
        self.values@.subrange(i * self.cols, i * self.cols + self.cols)
    }

    /// Whether the matrix is a rectangle with at least the mean row.
    pub fn is_well_formed(&self) -> (ok: bool)
        ensures
            ok == self.wf(),
    {
        let count: usize = self.values.len();
        if self.rows == 0 {
            return false;
        }
        match self.rows.checked_mul(self.cols) {
            Some(size) => size == count,
            None => false,
        }
    }
}

/// Whether a decoded style file is what its shape declares: at least one row, as
/// many rows as declared, and in every row as many values as declared.
pub open spec fn fills_shape<T>(data: Data<T>) -> bool {
    &&& data.shape[0] >= 1
    &&& data.data.len() == data.shape[0]
    &&& forall|i: int| 0 <= i < data.data.len() ==> (#[trigger] data.data[i]).len() == data.shape[1]
}

/// Builds the style matrix of a decoded style file.
///
/// Row `i` of the matrix is row `i` of the file. A file that declares no row, or
/// whose rows are not those its shape declares, is refused.
pub fn load_style<T: Copy>(data: &Data<T>) -> (result: Result<StyleMatrix<T>, TtsError>)
    ensures
        match result {
            Ok(matrix) => {
                &&& fills_shape(*data)
                &&& matrix.wf()
                &&& matrix.rows == data.shape[0]
                &&& matrix.cols == data.shape[1]
                &&& forall|i: int| 0 <= i < matrix.rows ==> matrix.row(i) == (#[trigger] data.data[i])@
            },
            Err(e) => e == TtsError::BadContainer && !fills_shape(*data),
        },
{
    let rows: usize = data.shape[0];
    let cols: usize = data.shape[1];
    if rows == 0 || data.data.len() != rows {
        return Err(TtsError::BadContainer);
    }
    let mut values: Vec<T> = Vec::new();
    let mut i: usize = 0;
    while i < rows
        invariant
            i <= rows,
            rows == data.data.len(),
            rows == data.shape[0],
            cols == data.shape[1],
            values.len() == i * cols,
            forall|r: int| 0 <= r < i ==> (#[trigger] data.data[r]).len() == cols,
            forall|r: int|
                0 <= r < i ==> values@.subrange(r * cols, r * cols + cols) == (
                #[trigger] data.data[r])@,
        decreases rows - i,
    {
        let row = &data.data[i];
        if row.len() != cols {
            assert(data.data[i as int].len() != data.shape[1]);
            return Err(TtsError::BadContainer);
        }
        let ghost before = values@;
        let mut j: usize = 0;
        while j < cols
            invariant
                j <= cols,
                row.len() == cols,
                values@ == before + row@.take(j as int),
            decreases cols - j,
        {
            values.push(row[j]);
            j += 1;
        }
        proof {
            assert((i + 1) * cols == i * cols + cols) by (nonlinear_arith);
            assert(row@.take(cols as int) =~= row@);
            assert forall|r: int| 0 <= r < i + 1 implies values@.subrange(
                r * cols,
                r * cols + cols,
            ) == (#[trigger] data.data[r])@ by {
                if r < i {
                    assert(r * cols + cols <= i * cols) by (nonlinear_arith)
                        requires
                            0 <= r < i,
                            cols >= 0,
                    ;
                    assert(values@.subrange(r * cols, r * cols + cols) =~= before.subrange(
                        r * cols,
                        r * cols + cols,
                    ));
                } else {
                    assert(values@.subrange(r * cols, r * cols + cols) =~= row@);
                }
            }
        }
        i += 1;
    }
    Ok(StyleMatrix { rows, cols, values })
}

/// Whether `vector` is the style vector of row `style_id` under `blend`: element
/// by element, what `blend` gives for the mean, the style and the weight.
pub open spec fn is_blend_of<T, F: Fn(T, T, T) -> T>(
    vector: Seq<T>,
    matrix: StyleMatrix<T>,
    style_id: int,
    weight: T,
    blend: F,
) -> bool {
    &&& vector.len() == matrix.cols
    &&& forall|j: int|
        0 <= j < matrix.cols ==> blend.ensures(
            (matrix.row(0)[j], matrix.row(style_id)[j], weight),
            #[trigger] vector[j],
        )
}

/// How far the style vector stands from the mean row towards the row of the
/// style.
#[derive(Debug, Clone, Copy, PartialEq)]
pub enum StyleWeight<T> {
    /// Weight 0: the mean row.
    Zero,
    /// Weight 1: the row of the style.
    One,
    /// Any other weight.
    Other(T),
}

/// Whether `vector` is the style vector of row `style_id` at the weight: the mean
/// row at weight 0, the row of the style at weight 1, and at any other weight
/// what `blend` gives element by element.
pub open spec fn is_style_vector<T, F: Fn(T, T, T) -> T>(
    vector: Seq<T>,
    matrix: StyleMatrix<T>,
    style_id: int,
    weight: StyleWeight<T>,
    blend: F,
) -> bool {
    match weight {
        StyleWeight::Zero => vector == matrix.row(0),
        StyleWeight::One => vector == matrix.row(style_id),
        StyleWeight::Other(w) => is_blend_of(vector, matrix, style_id, w, blend),
    }
}

/// A copy of `len` values from `start` on.
fn copy_values<T: Copy>(values: &Vec<T>, start: usize, len: usize) -> (copy: Vec<T>)
    requires
        start + len <= values.len(),
    ensures
        copy@ == values@.subrange(start as int, start + len),
{
    let mut copy: Vec<T> = Vec::new();
    let mut j: usize = 0;
    while j < len
        invariant
            j <= len,
            start + len <= values.len(),
            copy@ == values@.subrange(start as int, start + j),
        decreases len - j,
    {
        copy.push(values[start + j]);
        j += 1;
    }
    copy
}

/// Resolves the style vector of style `style_id` at `weight`.
///
/// At weight 0 the vector is the mean row, at weight 1 the row of the style,
/// both as they stand in the matrix. At any other weight it is the mean row moved
/// towards the row of the style: `blend(mean, style, weight)` is to compute
/// `mean + (style - mean) * weight` in the caller's arithmetic, and is applied
/// element by element. An ill-shaped matrix is refused first, then an id outside
/// `0..rows`.
pub fn get_style_vector<T: Copy, F: Fn(T, T, T) -> T>(
    style_vectors: &StyleMatrix<T>,
    style_id: i32,
    weight: StyleWeight<T>,
    blend: F,
) -> (result: Result<Vec<T>, TtsError>)
    requires
        forall|mean: T, style: T, w: T| blend.requires((mean, style, w)),
    ensures
        match result {
            Ok(vector) => {
                &&& style_vectors.wf()
                &&& 0 <= style_id < style_vectors.rows
                &&& is_style_vector(vector@, *style_vectors, style_id as int, weight, blend)
            },
            Err(e) => if !style_vectors.wf() {
                e == TtsError::InvalidStyleShape
            } else {
                &&& !(0 <= style_id < style_vectors.rows)
                &&& e == (TtsError::InvalidStyleId {
                    style_id,
                    max_id: (style_vectors.rows - 1) as usize,
                })
            },
        },
{
    let rows: usize = style_vectors.rows;
    let cols: usize = style_vectors.cols;
    if !style_vectors.is_well_formed() {
        return Err(TtsError::InvalidStyleShape);
    }
    if style_id < 0 || style_id as usize >= rows {
        return Err(TtsError::InvalidStyleId { style_id, max_id: rows - 1 });
    }
    let id: usize = style_id as usize;
    assert(id * cols + cols <= rows * cols) by (nonlinear_arith)
        requires
            id < rows,
    ;
    let base: usize = id * cols;
    let w: T = match weight {
        StyleWeight::Zero => {
            return Ok(copy_values(&style_vectors.values, 0, cols));
        },
        StyleWeight::One => {
            return Ok(copy_values(&style_vectors.values, base, cols));
        },
        StyleWeight::Other(w) => w,
    };
    let mut vector: Vec<T> = Vec::new();
    let mut j: usize = 0;
    while j < cols
        invariant
            j <= cols,
            cols == style_vectors.cols,
            base == id * cols,
            base + cols <= style_vectors.values.len(),
            vector.len() == j,
            forall|mean: T, style: T, w: T| blend.requires((mean, style, w)),
            forall|k: int|
                0 <= k < j ==> blend.ensures(
                    (style_vectors.row(0)[k], style_vectors.row(id as int)[k], w),
                    #[trigger] vector[k],
                ),
        decreases cols - j,
    {
        let mean: T = style_vectors.values[j];
        let style: T = style_vectors.values[base + j];
        vector.push(blend(mean, style, w));
        j += 1;
    }
    Ok(vector)
}

/// At weight 0 the style vector is row 0 of the matrix, whatever the style.
pub proof fn lemma_weight_zero_gives_mean<T, F: Fn(T, T, T) -> T>(
    vector: Seq<T>,
    matrix: StyleMatrix<T>,
    style_id: int,
    blend: F,
)
    requires
        matrix.wf(),
        0 <= style_id < matrix.rows,
        is_style_vector(vector, matrix, style_id, StyleWeight::Zero, blend),
    ensures
        vector.len() == matrix.cols,
        forall|j: int| 0 <= j < matrix.cols ==> vector[j] == matrix.values[j],
{
    assert(matrix.rows * matrix.cols >= matrix.cols) by (nonlinear_arith)
        requires
            matrix.rows >= 1,
            matrix.cols >= 0,
    ;
}

/// At weight 1 the style vector is the row of the style in the matrix.
pub proof fn lemma_weight_one_gives_style<T, F: Fn(T, T, T) -> T>(
    vector: Seq<T>,
    matrix: StyleMatrix<T>,
    style_id: int,
    blend: F,
)
    requires
        matrix.wf(),
        0 <= style_id < matrix.rows,
        is_style_vector(vector, matrix, style_id, StyleWeight::One, blend),
    ensures
        vector.len() == matrix.cols,
        forall|j: int|
            0 <= j < matrix.cols ==> vector[j] == matrix.values[style_id * matrix.cols + j],
{
    assert(style_id * matrix.cols + matrix.cols <= matrix.rows * matrix.cols)
        by (nonlinear_arith)
        requires
            0 <= style_id < matrix.rows,
            matrix.cols >= 0,
    ;
}

} // verus!
