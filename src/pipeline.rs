use vstd::prelude::*;
use vstd::string::StringExecFns;
use crate::archive::{compress_images, entry_name, packed_entries, stored_zip, Entry, ENTRY_PREFIX};
use crate::batch::{all_decodable, batch_result, resize_images, transform_batch, Item};
use crate::error::{failure_status, PipelineError};
use crate::raster::{decoded, Shape, Transform, TARGET_HEIGHT, TARGET_WIDTH};

verus! {

/// Name given to an uploaded field that carries no file name.
pub const DEFAULT_ITEM_NAME: &'static str = "image.png";

/// Status of a response that carries the archive.
pub const STATUS_OK: u16 = 200;

/// Every item of `out` is a `TARGET_WIDTH` x `TARGET_HEIGHT` PNG in the layout of the
/// matching item of `items`.
pub open spec fn all_resized(items: Seq<Item>, out: Seq<Item>) -> bool {
    forall|i: int|
        0 <= i < items.len() ==> decoded((#[trigger] out[i]).1@) == Some(
            Shape {
                width: TARGET_WIDTH,
                height: TARGET_HEIGHT,
                layout: decoded(items[i].1@)->Some_0.layout,
            },
        )
}

/// The HTTP status that reports `outcome`.
pub open spec fn outcome_status(outcome: Result<Vec<u8>, PipelineError>) -> u16 {
    match outcome {
        Ok(_) => STATUS_OK,
        Err(e) => failure_status(e),
    }
}

/// Name of an uploaded item: its file name, or `DEFAULT_ITEM_NAME` where it has none.
pub fn item_name(file_name: Option<&str>) -> (r: String)
    ensures
        r@ == match file_name {
            Some(n) => n@,
            None => DEFAULT_ITEM_NAME@,
        },
{
    match file_name {
        Some(n) => String::from_str(n),
        None => String::from_str(DEFAULT_ITEM_NAME),
    }
}

/// Transforms the batch with `t` and packs the results, in order, into one stored
/// archive. Succeeds exactly when every item is a decodable image, with entry `i` named
/// `entry_name` of item `i`'s name and holding item `i`'s transformed PNG; otherwise the
/// whole batch fails with `DecodeFailure` and no archive is returned.
pub fn run_pipeline(items: Vec<Item>, t: Transform) -> (r: Result<Vec<u8>, PipelineError>)
    ensures
        r is Ok <==> all_decodable(items@),
        r is Err ==> r == Err::<Vec<u8>, PipelineError>(PipelineError::DecodeFailure),
        r is Ok ==> exists|out: Seq<Item>|
            batch_result(items@, t, out) && r->Ok_0@ == stored_zip(
                #[trigger] packed_entries(out),
            ),
        items@.len() == 0 ==> r is Ok && r->Ok_0@ == stored_zip(Seq::<Entry>::empty()),
{
    let ghost input = items@;
    let processed = match transform_batch(items, t) {
        Ok(list) => list,
        Err(e) => return Err(e),
    };
    let ghost out = processed@;
    let r = compress_images(processed);
    proof {
        assert(batch_result(input, t, out));
        if input.len() == 0 {
            assert(packed_entries(out) =~= Seq::<Entry>::empty());
        }
    }
    r
}

/// The work a batch request hands to its worker: resize every item, then pack the
/// results. Succeeds exactly when every item is a decodable image, each entry then
/// being a `TARGET_WIDTH` x `TARGET_HEIGHT` PNG in its input's layout; otherwise the whole
/// batch fails with `DecodeFailure`.
pub fn resize_and_pack(files_data: Vec<Item>) -> (r: Result<Vec<u8>, PipelineError>)
    ensures
        r is Ok <==> all_decodable(files_data@),
        r is Err ==> r == Err::<Vec<u8>, PipelineError>(PipelineError::DecodeFailure),
        r is Ok ==> exists|out: Seq<Item>|
            batch_result(files_data@, Transform::Resize, out) && all_resized(files_data@, out)
                && r->Ok_0@ == stored_zip(#[trigger] packed_entries(out)),
        files_data@.len() == 0 ==> r is Ok && r->Ok_0@ == stored_zip(Seq::<Entry>::empty()),
{
    let ghost input = files_data@;
    let list = match resize_images(files_data) {
        Ok(list) => list,
        Err(e) => return Err(e),
    };
    let ghost out = list@;
    let r = compress_images(list);
    proof {
        assert(batch_result(input, Transform::Resize, out));
        assert(all_resized(input, out));
        if input.len() == 0 {
            assert(packed_entries(out) =~= Seq::<Entry>::empty());
        }
    }
    r
}

/// The outcome of a batch once its worker is done: what the worker returned, or
/// `WorkerFailure` where the worker stopped without returning (`None`).
pub fn settle_outcome(joined: Option<Result<Vec<u8>, PipelineError>>) -> (r: Result<
    Vec<u8>,
    PipelineError,
>)
    ensures
        r == match joined {
            Some(outcome) => outcome,
            None => Err(PipelineError::WorkerFailure),
        },
{
    match joined {
        Some(outcome) => outcome,
        None => Err(PipelineError::WorkerFailure),
    }
}

/// HTTP status of the response to a batch with outcome `outcome`: 200 with the
/// archive, 400 for an undecodable item, 500 for any other failure.
pub fn response_status(outcome: &Result<Vec<u8>, PipelineError>) -> (r: u16)
    ensures
        r == outcome_status(*outcome),
{
    match outcome {
        Ok(_) => STATUS_OK,
        Err(e) => e.status_code(),
    }
}

/// Archive entries follow the batch: whatever order the workers finished in, the entries
/// packed from a batch result of `items` are exactly one per item, entry `i` named
/// `entry_name` of item `i`'s name and holding item `i`'s output bytes.
pub proof fn entries_follow_batch(items: Seq<Item>, t: Transform, out: Seq<Item>)
    requires
        batch_result(items, t, out),
    ensures
        packed_entries(out).len() == items.len(),
        forall|i: int|
            0 <= i < items.len() ==> (#[trigger] packed_entries(out)[i]).0 == entry_name(
                items[i].0@,
            ) && packed_entries(out)[i].1 == out[i].1@,
{
}

/// Entry names keep the item's name verbatim: whatever its characters (non-ASCII text,
/// slashes, `..` segments), the entry name is the prefix followed by exactly that name.
pub proof fn entry_name_is_verbatim(name: Seq<char>)
    ensures
        entry_name(name).len() == ENTRY_PREFIX@.len() + name.len(),
        entry_name(name).subrange(0, ENTRY_PREFIX@.len() as int) == ENTRY_PREFIX@,
        entry_name(name).subrange(ENTRY_PREFIX@.len() as int, entry_name(name).len() as int)
            == name,
{
    assert(entry_name(name).subrange(0, ENTRY_PREFIX@.len() as int) =~= ENTRY_PREFIX@);
    assert(entry_name(name).subrange(ENTRY_PREFIX@.len() as int, entry_name(name).len() as int)
        =~= name);
}

/// An empty batch is packed into an archive with no entries.
pub proof fn empty_batch_packs_no_entries(items: Seq<Item>)
    requires
        items.len() == 0,
    ensures
        packed_entries(items) == Seq::<Entry>::empty(),
{
    assert(packed_entries(items) =~= Seq::<Entry>::empty());
}

} // verus!
