//! The feature matrix: a rectangular batch of feature words laid out in
//! row-major order, with the flattening and reshaping steps of the
//! request path and the proof that reshaping a flattened rectangular
//! batch recovers every entry.

use vstd::prelude::*;

verus! {

/// A rectangular `n_samples x n_features` batch of feature words in
/// row-major order: the entry at row `i`, column `j` sits at offset
/// `i * n_features + j` of `data`.
#[derive(Debug)]
pub struct FeatureMatrix {
    pub n_samples: usize,
    pub n_features: usize,
    pub data: Vec<u32>,
}

/// Every row of `rows` has exactly `k` entries.
pub open spec fn rectangular(rows: Seq<Seq<u32>>, k: nat) -> bool {
    forall|i: int| 0 <= i < rows.len() ==> (#[trigger] rows[i]).len() == k
}

/// `flat` reinterpreted as `n` rows of `k` entries each, row-major.
pub open spec fn chop(flat: Seq<u32>, n: nat, k: nat) -> Seq<Seq<u32>> {
    Seq::new(n, |i: int| flat.subrange(i * k, i * k + k))
}

impl View for FeatureMatrix {
    type V = Seq<Seq<u32>>;

    open spec fn view(&self) -> Seq<Seq<u32>> {
        chop(self.data@, self.n_samples as nat, self.n_features as nat)
    }
}

impl FeatureMatrix {
    /// The flat data really has the declared shape.
    pub open spec fn wf(self) -> bool {
        self.data@.len() == self.n_samples * self.n_features
    }

    /// The entry at row `i`, column `j`.
    pub fn get(&self, i: usize, j: usize) -> (r: u32)
        requires
            self.wf(),
            i < self.n_samples,
            j < self.n_features,
        ensures
            r == self@[i as int][j as int],
    {
        // Binds the data length to a usize, so the row-major offset is
        // known to fit one too.
        let _len = self.data.len();
        proof {
            lemma_row_major_offset_in_bounds(
                self.n_samples as int,
                self.n_features as int,
                i as int,
                j as int,
            );
        }
        let r = self.data[i * self.n_features + j];
        proof {
            assert(self@[i as int] == self.data@.subrange(
                i as int * self.n_features as int,
                i as int * self.n_features as int + self.n_features as int,
            ));
        }
        r
    }
}

/// In an `n x k` row-major layout, the offset of entry `(i, j)` lies
/// before the end of row `i`, which lies within the `n * k` words.
proof fn lemma_row_major_offset_in_bounds(n: int, k: int, i: int, j: int)
    requires
        0 <= i < n,
        0 <= j < k,
    ensures
        0 <= i * k + j,
        i * k + j < i * k + k,
        i * k + k <= n * k,
{
    assert(0 <= i * k + j && i * k + j < i * k + k && i * k + k <= n * k) by (nonlinear_arith)
        requires
            0 <= i < n,
            0 <= j < k,
    ;
}

/// Row-major flattening of a rectangular batch is lossless: the flat
/// sequence has `rows.len() * k` entries, and the entry of row `i`,
/// column `j` sits at offset `i * k + j`.
pub proof fn lemma_flatten_rectangular(rows: Seq<Seq<u32>>, k: nat)
    requires
        rectangular(rows, k),
    ensures
        rows.flatten().len() == rows.len() * k,
        forall|i: int, j: int|
            0 <= i < rows.len() && 0 <= j < k ==> rows.flatten()[i * k + j] == rows[i][j],
    decreases rows.len(),
{
    if rows.len() == 0 {
        assert(rows.flatten() =~= Seq::<u32>::empty());
    } else {
        let n = rows.len() as int;
        let head = rows.drop_last();
        let lastrow = rows.last();
        assert(head.push(lastrow) =~= rows);
        head.lemma_flatten_push(lastrow);
        assert(rows.flatten() == head.flatten() + lastrow);
        assert(rectangular(head, k));
        lemma_flatten_rectangular(head, k);
        assert((n - 1) * k + k == n * k) by (nonlinear_arith);
        assert(rows.flatten().len() == n * k);
        assert forall|i: int, j: int|
            0 <= i < n && 0 <= j < k implies rows.flatten()[i * k + j] == rows[i][j] by {
            if i < n - 1 {
                assert(0 <= i * k + j && i * k + j < (n - 1) * k) by (nonlinear_arith)
                    requires
                        0 <= i < n - 1,
                        0 <= j < k,
                ;
                assert(rows.flatten()[i * k + j] == head.flatten()[i * k + j]);
                assert(head[i] == rows[i]);
            } else {
                assert(i == n - 1);
                assert(i * k + j == (n - 1) * k + j);
                assert(rows.flatten()[i * k + j] == lastrow[j]);
            }
        }
    }
}

/// Flattening a rectangular batch and reshaping the flat sequence to
/// the same shape recovers the batch: entry `(i, j)` of the reshaped
/// matrix equals `rows[i][j]` for all valid `i`, `j`.
pub proof fn lemma_flatten_reshape_lossless(rows: Seq<Seq<u32>>, k: nat)
    requires
        rectangular(rows, k),
    ensures
        chop(rows.flatten(), rows.len(), k) == rows,
{
    lemma_flatten_rectangular(rows, k);
    let reshaped = chop(rows.flatten(), rows.len(), k);
    assert forall|i: int| 0 <= i < rows.len() implies reshaped[i] == rows[i] by {
        assert(0 <= i * k && i * k + k <= rows.len() * k) by (nonlinear_arith)
            requires
                0 <= i < rows.len(),
                k >= 0,
        ;
        assert forall|j: int| 0 <= j < k implies reshaped[i][j] == rows[i][j] by {
            lemma_row_major_offset_in_bounds(rows.len() as int, k as int, i, j);
            assert(reshaped[i][j] == rows.flatten()[i * k + j]);
        }
        assert(reshaped[i] =~= rows[i]);
    }
    assert(reshaped =~= rows);
}

/// Concatenate the rows of a feature batch into one flat sequence,
/// row-major: row 0 first, then row 1, and so on.
pub fn flatten_batch(features: &Vec<Vec<u32>>) -> (flat: Vec<u32>)
    ensures
        flat@ == features.deep_view().flatten(),
{
    let ghost dv = features.deep_view();
    let mut flat: Vec<u32> = Vec::new();
    proof {
        assert(dv.take(0) =~= Seq::<Seq<u32>>::empty());
        assert(dv.take(0).flatten() =~= Seq::<u32>::empty());
    }
    let n = features.len();
    for i in 0..n
        invariant
            n == features.len(),
            dv == features.deep_view(),
            flat@ == dv.take(i as int).flatten(),
    {
        let row = &features[i];
        let m = row.len();
        for j in 0..m
            invariant
                n == features.len(),
                i < n,
                dv == features.deep_view(),
                m == row.len(),
                row == &features[i as int],
                flat@ == dv.take(i as int).flatten() + row@.take(j as int),
        {
            flat.push(row[j]);
            proof {
                assert(row@.take(j + 1) =~= row@.take(j as int).push(row@[j as int]));
                assert(flat@ =~= dv.take(i as int).flatten() + row@.take(j + 1));
            }
        }
        proof {
            assert(row@.take(m as int) =~= row@);
            assert(dv[i as int] =~= row@);
            assert(dv.take(i + 1) =~= dv.take(i as int).push(dv[i as int]));
            dv.take(i as int).lemma_flatten_push(dv[i as int]);
            assert(flat@ =~= dv.take(i + 1).flatten());
        }
    }
    proof {
        assert(dv.take(n as int) =~= dv);
    }
    flat
}

/// The shape-mismatch message a failed reshape carries.
pub open spec fn msg_shape_mismatch() -> Seq<char> {
    "Input data length does not match the requested shape"@
}

/// Reinterpret a flat sequence as an `n_samples x n_features` matrix.
/// Succeeds exactly when the length matches the requested shape; the
/// data is kept verbatim. A mismatch yields the shape-mismatch message.
pub fn from_flat(n_samples: usize, n_features: usize, data: Vec<u32>) -> (r: Result<
    FeatureMatrix,
    String,
>)
    ensures
        match r {
            Ok(m) => {
                &&& data@.len() == n_samples * n_features
                &&& m.wf()
                &&& m.n_samples == n_samples
                &&& m.n_features == n_features
                &&& m.data@ == data@
            },
            Err(msg) => {
                &&& data@.len() != n_samples * n_features
                &&& msg@ == msg_shape_mismatch()
            },
        },
{
    let dlen = data.len();
    let fits = match n_samples.checked_mul(n_features) {
        Some(expected_len) => expected_len == dlen,
        None => false,
    };
    if fits {
        Ok(FeatureMatrix { n_samples, n_features, data })
    } else {
        Err(String::from_str("Input data length does not match the requested shape"))
    }
}

} // verus!
