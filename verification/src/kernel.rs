//! Finding and unpacking the compressed kernel inside a boot kernel image.
//!
//! A boot kernel image is a loader stub followed by a gzip stream, so the
//! stream's offset is found by content. The scan works chunk by chunk, as a
//! reader that never holds more than one chunk would, and it keeps that
//! reader's blind spot: a signature that straddles two chunks is not seen.
//! The contracts say so in terms of [`detected_at`].

use vstd::prelude::*;
use vstd::slice::slice_subrange;
use crate::error::ImageBuilderError;

verus! {

/// The first bytes of a gzip stream: the two magic bytes and the method byte
/// for deflate.
pub const GZIP_MAGIC_NUM: [u8; 3] = [0x1F, 0x8B, 0x08];

/// How many bytes the scan looks at at a time.
pub const CHUNK_SIZE: usize = 1024;

/// The signature stands at `at` in `source`.
pub open spec fn signature_at(source: Seq<u8>, at: int) -> bool {
    &&& 0 <= at
    &&& at + 3 <= source.len()
    &&& source[at] == 0x1F
    &&& source[at + 1] == 0x8B
    &&& source[at + 2] == 0x08
}

/// The signature stands where the three bytes from there on are those of
/// [`GZIP_MAGIC_NUM`].
pub proof fn lemma_signature_is_the_magic_number(source: Seq<u8>, at: int)
    requires
        0 <= at,
        at + 3 <= source.len(),
    ensures
        signature_at(source, at) <==> source.subrange(at, at + 3) == GZIP_MAGIC_NUM@,
{
    let window = source.subrange(at, at + 3);
    assert(window[0] == source[at]);
    assert(window[1] == source[at + 1]);
    assert(window[2] == source[at + 2]);
    if signature_at(source, at) {
        assert(window =~= GZIP_MAGIC_NUM@);
    }
}

/// Three bytes that begin at `at` lie in one chunk.
pub open spec fn inside_one_chunk(at: int) -> bool {
    at % (CHUNK_SIZE as int) + GZIP_MAGIC_NUM@.len() <= CHUNK_SIZE
}

/// The scan can see a signature at `at`: it is there, and it does not
/// straddle two chunks.
pub open spec fn detected_at(source: Seq<u8>, at: int) -> bool {
    signature_at(source, at) && inside_one_chunk(at)
}

/// `at` is the first place where the scan sees a signature.
pub open spec fn is_first_detected(source: Seq<u8>, at: int) -> bool {
    detected_at(source, at) && forall|earlier: int| 0 <= earlier < at ==> !detected_at(
        source,
        earlier,
    )
}

/// Where the compressed stream starts, if the scan sees one.
pub open spec fn spec_locate(source: Seq<u8>) -> Option<int> {
    if exists|at: int| is_first_detected(source, at) {
        Some(choose|at: int| is_first_detected(source, at))
    } else {
        None
    }
}

/// There is at most one first place.
pub proof fn lemma_first_detected_is_unique(source: Seq<u8>, a: int, b: int)
    requires
        is_first_detected(source, a),
        is_first_detected(source, b),
    ensures
        a == b,
{
    if a < b {
        assert(!detected_at(source, a));
    } else if b < a {
        assert(!detected_at(source, b));
    }
}

/// A first place, once known, is what [`spec_locate`] gives.
pub proof fn lemma_locate_finds(source: Seq<u8>, at: int)
    requires
        is_first_detected(source, at),
    ensures
        spec_locate(source) == Some(at),
{
    let chosen = choose|c: int| is_first_detected(source, c);
    lemma_first_detected_is_unique(source, at, chosen);
}

/// Where the signature first stands in one chunk, if it stands there at all.
pub fn find_in_chunk(chunk: &[u8]) -> (found: Option<usize>)
    ensures
        match found {
            Some(position) => signature_at(chunk@, position as int) && forall|earlier: int|
                0 <= earlier < position ==> !signature_at(chunk@, earlier),
            None => forall|at: int| !signature_at(chunk@, at),
        },
{
    let len = chunk.len();
    let mut position: usize = 0;
    while position < len && len - position >= 3
        invariant
            len == chunk@.len(),
            position <= len,
            forall|at: int| 0 <= at < position ==> !signature_at(chunk@, at),
        decreases len - position,
    {
        if chunk[position] == GZIP_MAGIC_NUM[0] && chunk[position + 1] == GZIP_MAGIC_NUM[1]
            && chunk[position + 2] == GZIP_MAGIC_NUM[2] {
            return Some(position);
        }
        position += 1;
    }
    None
}

/// A signature inside a chunk of the input is a signature of the input, and
/// the other way round.
proof fn lemma_chunk_of_source(source: Seq<u8>, from: int, to: int, position: int)
    requires
        0 <= from <= to <= source.len(),
    ensures
        signature_at(source.subrange(from, to), position) <==> signature_at(
            source,
            from + position,
        ) && 0 <= position && from + position + 3 <= to,
{
    let chunk = source.subrange(from, to);
    if 0 <= position && position + 3 <= chunk.len() {
        assert(chunk[position] == source[from + position]);
        assert(chunk[position + 1] == source[from + position + 1]);
        assert(chunk[position + 2] == source[from + position + 2]);
    }
}

/// The scan itself: chunk after chunk, each searched on its own, the offsets
/// added up. `Some(at)` is the first detected signature; `None` says that
/// none is detected anywhere.
fn scan_chunks(source: &[u8]) -> (found: Option<usize>)
    ensures
        match found {
            Some(at) => is_first_detected(source@, at as int),
            None => forall|at: int| !detected_at(source@, at),
        },
{
    let len = source.len();
    let mut consumed: usize = 0;
    loop
        invariant
            len == source@.len(),
            consumed <= len,
            consumed % CHUNK_SIZE == 0 || consumed == len,
            forall|at: int| 0 <= at < consumed ==> !detected_at(source@, at),
        decreases len - consumed,
    {
        let read = if len - consumed < CHUNK_SIZE {
            len - consumed
        } else {
            CHUNK_SIZE
        };
        if read == 0 {
            assert forall|at: int| !detected_at(source@, at) by {
                if 0 <= at && at + 3 <= len {
                    assert(at < consumed);
                }
            }
            return None;
        }
        let chunk = slice_subrange(source, consumed, consumed + read);
        let found = find_in_chunk(chunk);
        proof {
            assert forall|position: int|
                signature_at(chunk@, position) <==> signature_at(source@, consumed + position)
                    && 0 <= position && consumed + position + 3 <= consumed + read by {
                lemma_chunk_of_source(
                    source@,
                    consumed as int,
                    consumed + read,
                    position,
                );
            }
            assert forall|at: int| consumed <= at < consumed + read implies (detected_at(
                source@,
                at,
            ) <==> signature_at(chunk@, at - consumed)) by {
                if read == CHUNK_SIZE {
                    assert(at % (CHUNK_SIZE as int) == at - consumed);
                } else {
                    assert(consumed + read == len);
                }
            }
        }
        match found {
            Some(position) => {
                assert(detected_at(source@, consumed + position));
                return Some(consumed + position);
            },
            None => {
                consumed += read;
            },
        }
    }
}

/// Locates the compressed stream in a boot kernel image.
///
/// The image is taken in chunks of [`CHUNK_SIZE`] bytes. The result is the
/// offset of the first signature that lies within one chunk; a signature
/// across a chunk boundary is passed over. With none in sight the scan fails
/// with `MissingGzipHeader`, and it never fails otherwise.
pub fn locate_stream_offset(source: &[u8]) -> (located: Result<u64, ImageBuilderError>)
    ensures
        match located {
            Ok(offset) => spec_locate(source@) == Some(offset as int),
            Err(error) => error is MissingGzipHeader && spec_locate(source@) is None,
        },
        located is Ok ==> is_first_detected(source@, located->Ok_0 as int),
        located is Err ==> forall|at: int| !detected_at(source@, at),
{
    match scan_chunks(source) {
        Some(at) => {
            proof {
                lemma_locate_finds(source@, at as int);
            }
            Ok(at as u64)
        },
        None => Err(ImageBuilderError::MissingGzipHeader),
    }
}

/// The data of the gzip member that `data` begins with, or `None` where
/// `data` does not begin with a sound gzip member.
pub uninterp spec fn gzip_member_contents(data: Seq<u8>) -> Option<Seq<u8>>;

/// Decompresses the gzip member at the start of `data` with
/// `flate2::read::GzDecoder`, read to its end.
///
/// The decoder reads one member and ignores what follows it. It is given a
/// byte slice, so what it returns depends on those bytes alone: the member's
/// data, or the error with which decoding stopped.
#[verifier::external_body]
fn gunzip_member(data: &[u8]) -> (decoded: Result<Vec<u8>, std::io::Error>)
    ensures
        match decoded {
            Ok(contents) => gzip_member_contents(data@) == Some(contents@),
            Err(_) => gzip_member_contents(data@) is None,
        },
{
    let mut contents = Vec::new();
    let mut decoder = flate2::read::GzDecoder::new(data);
    match std::io::Read::read_to_end(&mut decoder, &mut contents) {
        Ok(_) => Ok(contents),
        Err(error) => Err(error),
    }
}

/// What a kernel extraction returns once the decoder has answered: the
/// decoded kernel, or the decoder's error as an I/O failure.
pub fn kernel_from_decoded(decoded: Result<Vec<u8>, std::io::Error>) -> (kernel: Result<
    Vec<u8>,
    ImageBuilderError,
>)
    ensures
        match decoded {
            Ok(contents) => kernel == Ok::<Vec<u8>, ImageBuilderError>(contents),
            Err(error) => kernel == Err::<Vec<u8>, ImageBuilderError>(
                ImageBuilderError::Io(error),
            ),
        },
{
    match decoded {
        Ok(contents) => Ok(contents),
        Err(error) => Err(ImageBuilderError::Io(error)),
    }
}

/// What a boot kernel image yields.
pub enum Extraction {
    /// No compressed stream is located in the image.
    MissingHeader,
    /// A stream is located, and the bytes from there on do not decompress.
    Undecodable,
    /// A stream is located, and this is what it decompresses to.
    Kernel(Seq<u8>),
}

/// What the image yields: the bytes from the located offset on, decompressed.
pub open spec fn spec_extract_kernel(image: Seq<u8>) -> Extraction {
    match spec_locate(image) {
        None => Extraction::MissingHeader,
        Some(offset) => match gzip_member_contents(image.skip(offset)) {
            None => Extraction::Undecodable,
            Some(kernel) => Extraction::Kernel(kernel),
        },
    }
}

/// Extracts the kernel binary from a boot kernel image: locates the
/// compressed stream and decompresses it from there.
///
/// Fails with `MissingGzipHeader` exactly when no stream is located, and with
/// `Io` exactly when one is located and the bytes from there on are not a
/// sound gzip member.
pub fn extract_kernel(image: &[u8]) -> (kernel: Result<Vec<u8>, ImageBuilderError>)
    ensures
        match spec_extract_kernel(image@) {
            Extraction::MissingHeader => kernel is Err && kernel->Err_0 is MissingGzipHeader,
            Extraction::Undecodable => kernel is Err && kernel->Err_0 is Io,
            Extraction::Kernel(contents) => kernel is Ok && kernel->Ok_0@ == contents,
        },
{
    match scan_chunks(image) {
        None => Err(ImageBuilderError::MissingGzipHeader),
        Some(offset) => {
            proof {
                lemma_locate_finds(image@, offset as int);
            }
            let stream = slice_subrange(image, offset, image.len());
            assert(stream@ =~= image@.skip(offset as int));
            kernel_from_decoded(gunzip_member(stream))
        },
    }
}

/// A result of the scan is a place where the signature stands in full: a
/// near match, with another third byte, is never reported.
pub proof fn lemma_located_is_signature(source: Seq<u8>)
    ensures
        spec_locate(source) matches Some(at) ==> signature_at(source, at) && inside_one_chunk(at),
{
}

/// An input that holds the signature nowhere fails the scan, whatever else it
/// holds.
pub proof fn lemma_no_signature_is_missing(source: Seq<u8>)
    requires
        forall|at: int| !signature_at(source, at),
    ensures
        spec_locate(source) is None,
{
}

/// An input shorter than the signature fails the scan; the empty input does.
pub proof fn lemma_short_input_is_missing(source: Seq<u8>)
    requires
        source.len() < 3,
    ensures
        spec_locate(source) is None,
{
}

/// A signature behind a prefix that holds none is found right behind the
/// prefix, provided that it does not straddle two chunks there.
pub proof fn lemma_signature_after_prefix(prefix: Seq<u8>, rest: Seq<u8>)
    requires
        inside_one_chunk(prefix.len() as int),
        forall|at: int|
            0 <= at < prefix.len() ==> !signature_at(prefix + GZIP_MAGIC_NUM@ + rest, at),
    ensures
        spec_locate(prefix + GZIP_MAGIC_NUM@ + rest) == Some(prefix.len() as int),
{
    let source = prefix + GZIP_MAGIC_NUM@ + rest;
    let at = prefix.len() as int;
    assert(source[at] == GZIP_MAGIC_NUM@[0]);
    assert(source[at + 1] == GZIP_MAGIC_NUM@[1]);
    assert(source[at + 2] == GZIP_MAGIC_NUM@[2]);
    assert(is_first_detected(source, at));
    lemma_locate_finds(source, at);
}

/// A signature behind a prefix in which the signature's first byte does not
/// occur is found right behind the prefix, provided that it does not straddle
/// two chunks there.
pub proof fn lemma_signature_after_plain_prefix(prefix: Seq<u8>, rest: Seq<u8>)
    requires
        inside_one_chunk(prefix.len() as int),
        forall|i: int| 0 <= i < prefix.len() ==> prefix[i] != 0x1F,
    ensures
        spec_locate(prefix + GZIP_MAGIC_NUM@ + rest) == Some(prefix.len() as int),
{
    let source = prefix + GZIP_MAGIC_NUM@ + rest;
    assert forall|at: int| 0 <= at < prefix.len() implies !signature_at(source, at) by {
        assert(source[at] == prefix[at]);
    }
    lemma_signature_after_prefix(prefix, rest);
}

/// A signature that straddles two chunks is not what the scan reports.
pub proof fn lemma_straddling_is_passed_over(source: Seq<u8>, at: int)
    requires
        !inside_one_chunk(at),
    ensures
        spec_locate(source) != Some(at),
{
}

} // verus!
