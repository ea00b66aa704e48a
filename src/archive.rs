use vstd::prelude::*;
use vstd::string::StringExecFns;
use std::io::Write;
use crate::error::PipelineError;

verus! {

#[verifier::external_type_specification]
#[verifier::external_body]
pub struct ExZipError(zip::result::ZipError);

#[verifier::external_type_specification]
#[verifier::external_body]
pub struct ExIoError(std::io::Error);

/// A ZIP archive being written into memory. Verus sees nothing of the writer
/// inside; what has been written is `written_entries`.
#[verifier::external_body]
pub struct MemZipWriter {
    inner: zip::ZipWriter<std::io::Cursor<Vec<u8>>>,
}

/// The text put in front of every item's name to form its archive entry name.
pub const ENTRY_PREFIX: &'static str = "processed_";

/// Largest entry, in bytes, that ZIP stores without its 64-bit extension.
pub const MAX_ENTRY_SIZE: u64 = 0xFFFF_FFFF;

/// One archive entry: its name, its contents, and whether it carries 64-bit sizes.
pub type Entry = (Seq<char>, Seq<u8>, bool);

/// The entries, as (name, contents, large), that have been written to `w`, in order.
pub uninterp spec fn written_entries(w: MemZipWriter) -> Seq<Entry>;

/// Whether `w` is open and ready for the next call: not closed, and, once an entry has
/// been started, still writing that entry.
pub uninterp spec fn accepting(w: MemZipWriter) -> bool;

/// The bytes of the finished ZIP archive whose entries are `entries`, in order, each
/// stored without compression.
pub uninterp spec fn stored_zip(entries: Seq<Entry>) -> Seq<u8>;

/// Whether ZIP can hold `contents` in one entry with the given `large` flag.
pub open spec fn entry_fits(contents: Seq<u8>, large: bool) -> bool {
    large || contents.len() <= MAX_ENTRY_SIZE
}

/// Whether the entry last started, if any, still fits.
pub open spec fn last_fits(entries: Seq<Entry>) -> bool {
    entries.len() == 0 || entry_fits(entries.last().1, entries.last().2)
}

/// Archive entry name of an item called `name`: the prefix, then the name verbatim.
pub open spec fn entry_name(name: Seq<char>) -> Seq<char> {
    ENTRY_PREFIX@ + name
}

/// The entries that packing `items` writes: one per item, in order, named by
/// `entry_name`, holding the item's bytes unchanged, with 64-bit sizes only where the
/// bytes need them.
pub open spec fn packed_entries(items: Seq<(String, Vec<u8>)>) -> Seq<Entry> {
    items.map_values(
        |it: (String, Vec<u8>)| (entry_name(it.0@), it.1@, it.1@.len() > MAX_ENTRY_SIZE),
    )
}

/// Relies on `zip::ZipWriter::new` over an empty `Cursor<Vec<u8>>`: a new writer is open
/// and holds no entries.
#[verifier::external_body]
fn new_mem_writer() -> (w: MemZipWriter)
    ensures
        written_entries(w) == Seq::<Entry>::empty(),
        accepting(w),
{
    MemZipWriter { inner: zip::ZipWriter::new(std::io::Cursor::new(Vec::new())) }
}

/// Relies on `zip::ZipWriter::start_file` with stored (uncompressed) options and the
/// given `large_file` flag: writing to memory cannot fail, so it fails only where the
/// writer is closed or the previous entry outgrew its sizes; on success a new, empty
/// entry called `name` follows the earlier ones and is being written.
#[verifier::external_body]
fn start_stored_entry(w: &mut MemZipWriter, name: &str, large: bool) -> (r: Result<
    (),
    zip::result::ZipError,
>)
    ensures
        accepting(*old(w)) && last_fits(written_entries(*old(w))) ==> r is Ok,
        r is Ok ==> accepting(*final(w)),
        r is Ok ==> written_entries(*final(w)) == written_entries(*old(w)).push(
            (name@, Seq::<u8>::empty(), large),
        ),
{
    let options = zip::write::FileOptions::default().compression_method(
        zip::CompressionMethod::Stored,
    ).large_file(large);
    w.inner.start_file(name, options)
}

/// Relies on `std::io::Write::write_all` of `zip::ZipWriter`: writing to memory cannot
/// fail, so once an entry has been started it fails only where the writer is not ready or
/// the entry outgrows its sizes; on success the bytes are appended to that entry.
#[verifier::external_body]
fn append_to_entry(w: &mut MemZipWriter, bytes: &[u8]) -> (r: Result<(), std::io::Error>)
    requires
        written_entries(*old(w)).len() > 0,
    ensures
        accepting(*old(w)) && entry_fits(
            written_entries(*old(w)).last().1 + bytes@,
            written_entries(*old(w)).last().2,
        ) ==> r is Ok,
        r is Ok ==> accepting(*final(w)),
        r is Ok ==> {
            let before = written_entries(*old(w));
            written_entries(*final(w)) == before.drop_last().push(
                (before.last().0, before.last().1 + bytes@, before.last().2),
            )
        },
{
    w.inner.write_all(bytes)
}

/// Relies on `zip::ZipWriter::finish`: writing to memory cannot fail, so it fails only
/// where the writer is closed or the last entry outgrew its sizes; on success the buffer
/// holds the finished archive of the entries written.
#[verifier::external_body]
fn finish_mem_writer(w: MemZipWriter) -> (r: Result<Vec<u8>, zip::result::ZipError>)
    ensures
        accepting(w) && last_fits(written_entries(w)) ==> r is Ok,
        r is Ok ==> r->Ok_0@ == stored_zip(written_entries(w)),
{
    let mut inner = w.inner;
    Ok(inner.finish()?.into_inner())
}

/// Builds the archive entry name of an item called `name`.
pub fn make_entry_name(name: &str) -> (r: String)
    ensures
        r@ == entry_name(name@),
{
    String::from_str(ENTRY_PREFIX).concat(name)
}

/// Packs `list`, in order, into one stored ZIP archive: entry `i` is named
/// `entry_name` of item `i`'s name and holds item `i`'s bytes verbatim; names may repeat.
/// An empty list gives an archive with no entries. Always succeeds; an entry too large
/// for plain ZIP sizes gets the 64-bit extension.
pub fn compress_images(list: Vec<(String, Vec<u8>)>) -> (r: Result<Vec<u8>, PipelineError>)
    ensures
        r is Ok,
        r->Ok_0@ == stored_zip(packed_entries(list@)),
{
    let mut writer = new_mem_writer();
    let mut i: usize = 0;
    while i < list.len()
        invariant
            i <= list.len(),
            accepting(writer),
            written_entries(writer) == packed_entries(list@.subrange(0, i as int)),
        decreases list.len() - i,
    {
        let name = make_entry_name(list[i].0.as_str());
        let large = list[i].1.len() as u64 > MAX_ENTRY_SIZE;
        match start_stored_entry(&mut writer, name.as_str(), large) {
            Ok(()) => {},
            Err(_) => return Err(PipelineError::ArchiveFailure),
        }
        match append_to_entry(&mut writer, list[i].1.as_slice()) {
            Ok(()) => {},
            Err(_) => return Err(PipelineError::ArchiveFailure),
        }
        proof {
            let done = list@.subrange(0, i as int);
            let next = list@.subrange(0, i + 1);
            assert(next == done.push(list@[i as int]));
            assert(Seq::<u8>::empty() + list@[i as int].1@ =~= list@[i as int].1@);
            assert(packed_entries(next) =~= packed_entries(done).push(
                (entry_name(list@[i as int].0@), list@[i as int].1@, large),
            ));
        }
        i = i + 1;
    }
    assert(list@.subrange(0, list.len() as int) == list@);
    match finish_mem_writer(writer) {
        Ok(bytes) => Ok(bytes),
        Err(_) => Err(PipelineError::ArchiveFailure),
    }
}

} // verus!
