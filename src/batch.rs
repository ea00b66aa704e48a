use vstd::prelude::*;
use rayon::iter::{IntoParallelIterator, ParallelIterator};
use crate::error::PipelineError;
use crate::raster::{
    buffer_size, decodable, decoded, output_shape, transform_item, transformed, Layout, Shape,
    Transform, ROUND_TRIP_LIMIT, TARGET_HEIGHT, TARGET_WIDTH,
};

verus! {

/// One named image: its name and its encoded bytes.
pub type Item = (String, Vec<u8>);

/// What one item's transform gave.
pub type ItemOutcome = Result<Item, PipelineError>;

/// Every outcome in `rs` is a success.
pub open spec fn all_ok(rs: Seq<ItemOutcome>) -> bool {
    forall|i: int| 0 <= i < rs.len() ==> #[trigger] rs[i] is Ok
}

/// `k` is the position of the first failed outcome in `rs`.
pub open spec fn first_failure(rs: Seq<ItemOutcome>, k: int) -> bool {
    &&& 0 <= k < rs.len()
    &&& rs[k] is Err
    &&& forall|j: int| 0 <= j < k ==> #[trigger] rs[j] is Ok
}

/// Every item of `items` is a decodable image.
pub open spec fn all_decodable(items: Seq<Item>) -> bool {
    forall|i: int| 0 <= i < items.len() ==> decodable(#[trigger] items[i].1@)
}

/// `out` is what transforming the decodable batch `items` with `t` gives: one item per
/// input, in order, under the same name, each a PNG that decodes to the shape `t` makes
/// of its input's (where that image is within `ROUND_TRIP_LIMIT`).
pub open spec fn batch_result(items: Seq<Item>, t: Transform, out: Seq<Item>) -> bool {
    &&& out.len() == items.len()
    &&& forall|i: int| 0 <= i < items.len() ==> (#[trigger] out[i]).0@ == items[i].0@
    &&& forall|i: int|
        0 <= i < items.len() && buffer_size(output_shape(t, decoded(items[i].1@)->Some_0))
            <= ROUND_TRIP_LIMIT ==> decoded((#[trigger] out[i]).1@) == Some(
            output_shape(t, decoded(items[i].1@)->Some_0),
        )
}

/// The items of a sequence of outcomes that are all successes.
pub open spec fn successes(rs: Seq<ItemOutcome>) -> Seq<Item> {
    rs.map_values(|o: ItemOutcome| o->Ok_0)
}

/// Relies on rayon: `into_par_iter` on a `Vec` is an indexed parallel iterator, `map`
/// keeps positions, and `collect` into a `Vec` puts each result at its input's position.
/// Each result is what `transform_item` returned on that input.
#[verifier::external_body]
fn par_transform(items: Vec<Item>, t: Transform) -> (r: Vec<ItemOutcome>)
    ensures
        r.len() == items.len(),
        forall|i: int|
            0 <= i < r.len() ==> transformed(items@[i].0@, items@[i].1@, t, #[trigger] r@[i]),
{
    items.into_par_iter().map(|(name, bytes)| transform_item(name, bytes, t)).collect()
}

/// Reduces per-item outcomes, in order, to one: all the items when every outcome is a
/// success, else the failure of the first failed outcome.
pub fn gather_results(results: Vec<ItemOutcome>) -> (r: Result<Vec<Item>, PipelineError>)
    ensures
        r is Ok <==> all_ok(results@),
        r is Ok ==> r->Ok_0@ == successes(results@),
        r is Err ==> exists|k: int|
            first_failure(results@, k) && #[trigger] results@[k] == Err::<Item, PipelineError>(
                r->Err_0,
            ),
{
    let mut i: usize = 0;
    while i < results.len()
        invariant
            i <= results.len(),
            forall|j: int| 0 <= j < i ==> #[trigger] results@[j] is Ok,
        decreases results.len() - i,
    {
        match &results[i] {
            Ok(_) => {},
            Err(e) => {
                assert(first_failure(results@, i as int));
                return Err(*e);
            },
        }
        i = i + 1;
    }
    let ghost rs = results@;
    let ghost n = rs.len();
    let mut rest = results;
    let mut reversed: Vec<Item> = Vec::new();
    while rest.len() > 0
        invariant
            all_ok(rs),
            n == rs.len(),
            rest@ == rs.subrange(0, rest.len() as int),
            rest.len() + reversed.len() == n,
            forall|j: int| 0 <= j < reversed.len() ==> #[trigger] reversed@[j] == rs[n - 1 - j]->Ok_0,
        decreases rest.len(),
    {
        let ghost before = rest@;
        match rest.pop() {
            Some(Ok(item)) => reversed.push(item),
            _ => {
                assert(before[before.len() - 1] is Ok);
            },
        }
        assert(rest@ =~= rs.subrange(0, rest.len() as int));
    }
    let mut out: Vec<Item> = Vec::new();
    while reversed.len() > 0
        invariant
            n == rs.len(),
            reversed.len() + out.len() == n,
            forall|j: int| 0 <= j < reversed.len() ==> #[trigger] reversed@[j] == rs[n - 1 - j]->Ok_0,
            forall|j: int| 0 <= j < out.len() ==> #[trigger] out@[j] == rs[j]->Ok_0,
        decreases reversed.len(),
    {
        match reversed.pop() {
            Some(item) => out.push(item),
            None => {},
        }
    }
    assert(out@ =~= successes(rs));
    Ok(out)
}

/// Transforms every item of `items` with `t`, in parallel, and returns the results in
/// submission order, each under its item's name. Succeeds exactly when every item is a
/// decodable image; otherwise the whole batch fails with `DecodeFailure`. An empty batch
/// succeeds with no items.
pub fn transform_batch(items: Vec<Item>, t: Transform) -> (r: Result<Vec<Item>, PipelineError>)
    ensures
        r is Ok <==> all_decodable(items@),
        r is Ok ==> batch_result(items@, t, r->Ok_0@),
        r is Err ==> r == Err::<Vec<Item>, PipelineError>(PipelineError::DecodeFailure),
{
    let ghost input = items@;
    let results = par_transform(items, t);
    let r = gather_results(results);
    proof {
        if all_decodable(input) {
            assert forall|i: int| 0 <= i < results@.len() implies #[trigger] results@[i] is Ok by {
                assert(decodable(input[i].1@));
                assert(transformed(input[i].0@, input[i].1@, t, results@[i]));
            }
        }
        if r is Ok {
            assert forall|i: int| 0 <= i < input.len() implies decodable(
                #[trigger] input[i].1@,
            ) by {
                assert(results@[i] is Ok);
                assert(transformed(input[i].0@, input[i].1@, t, results@[i]));
            }
            assert forall|i: int| 0 <= i < input.len() implies (#[trigger] r->Ok_0@[i]).0@
                == input[i].0@ by {
                assert(results@[i] is Ok);
                assert(transformed(input[i].0@, input[i].1@, t, results@[i]));
            }
            assert forall|i: int|
                0 <= i < input.len() && buffer_size(output_shape(t, decoded(input[i].1@)->Some_0))
                    <= ROUND_TRIP_LIMIT implies decoded((#[trigger] r->Ok_0@[i]).1@) == Some(
                output_shape(t, decoded(input[i].1@)->Some_0),
            ) by {
                assert(results@[i] is Ok);
                assert(transformed(input[i].0@, input[i].1@, t, results@[i]));
            }
        }
        if r is Err {
            let k = choose|k: int|
                first_failure(results@, k) && #[trigger] results@[k] == Err::<Item, PipelineError>(
                    r->Err_0,
                );
            assert(transformed(input[k].0@, input[k].1@, t, results@[k]));
        }
    }
    r
}

/// Resizes every item to `TARGET_WIDTH` x `TARGET_HEIGHT` and re-encodes it as PNG,
/// keeping names, order and each image's layout; `transform_batch` with
/// `Transform::Resize`.
pub fn resize_images(files_data: Vec<Item>) -> (r: Result<Vec<Item>, PipelineError>)
    ensures
        r is Ok <==> all_decodable(files_data@),
        r is Ok ==> batch_result(files_data@, Transform::Resize, r->Ok_0@),
        r is Ok ==> forall|i: int|
            0 <= i < files_data@.len() ==> decoded((#[trigger] r->Ok_0@[i]).1@) == Some(
                Shape {
                    width: TARGET_WIDTH,
                    height: TARGET_HEIGHT,
                    layout: decoded(files_data@[i].1@)->Some_0.layout,
                },
            ),
        r is Err ==> r == Err::<Vec<Item>, PipelineError>(PipelineError::DecodeFailure),
{
    let ghost input = files_data@;
    let r = transform_batch(files_data, Transform::Resize);
    proof {
        if r is Ok {
            assert forall|i: int| 0 <= i < input.len() implies decoded(
                (#[trigger] r->Ok_0@[i]).1@,
            ) == Some(
                Shape {
                    width: TARGET_WIDTH,
                    height: TARGET_HEIGHT,
                    layout: decoded(input[i].1@)->Some_0.layout,
                },
            ) by {
                resized_fits_round_trip(decoded(input[i].1@)->Some_0.layout);
            }
        }
    }
    r
}

/// A `TARGET_WIDTH` x `TARGET_HEIGHT` image of any layout is within `ROUND_TRIP_LIMIT`.
pub proof fn resized_fits_round_trip(layout: Layout)
    ensures
        buffer_size(Shape { width: TARGET_WIDTH, height: TARGET_HEIGHT, layout })
            <= ROUND_TRIP_LIMIT,
{
    assert((TARGET_WIDTH as nat) * (TARGET_HEIGHT as nat) == 90000);
}

} // verus!
