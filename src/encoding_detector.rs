//! The guess of a byte stream's character encoding, shown in the status bar.

use chardetng::EncodingDetector;
use encoding_rs::Encoding;
use vstd::prelude::*;

verus! {

/// chardetng's detector, which accumulates the bytes of a stream.
#[verifier::external_type_specification]
#[verifier::external_body]
pub struct ExEncodingDetector(EncodingDetector);

/// An encoding of encoding_rs.
#[verifier::external_type_specification]
#[verifier::external_body]
pub struct ExEncoding(Encoding);

/// The bytes that a detector has been fed so far, in order.
pub uninterp spec fn detector_input(d: EncodingDetector) -> Seq<u8>;

/// Whether a detector has been told that its stream has ended.
pub uninterp spec fn detector_closed(d: EncodingDetector) -> bool;

/// The encoding that chardetng guesses for a complete stream, with no
/// top-level domain given and UTF-8 allowed as a guess.
pub uninterp spec fn guessed_encoding(stream: Seq<u8>) -> Encoding;

/// Relies on `EncodingDetector::new`: a fresh detector has seen no bytes and
/// its stream is still open.
pub assume_specification[ EncodingDetector::new ]() -> (r: EncodingDetector)
    ensures
        detector_input(r) == Seq::<u8>::empty(),
        !detector_closed(r),
;

/// Relies on `EncodingDetector::feed`: the stream is the concatenation of
/// the chunks fed, `last` ends it, and the result says whether a non-ASCII
/// byte has been seen. It panics when fed after the end of the stream.
pub assume_specification[ EncodingDetector::feed ](
    d: &mut EncodingDetector,
    buffer: &[u8],
    last: bool,
) -> (r: bool)
    requires
        !detector_closed(*old(d)),
    ensures
        detector_input(*final(d)) == detector_input(*old(d)) + buffer@,
        detector_closed(*final(d)) == last,
        r == exists|i: int|
            0 <= i < detector_input(*final(d)).len() && detector_input(*final(d))[i] >= 0x80,
;

/// Relies on `EncodingDetector::guess`: with no top-level domain and UTF-8
/// allowed, the guess for an ended stream depends on its bytes alone.
/// It panics only on a malformed top-level domain, which `None` is not.
pub assume_specification[ EncodingDetector::guess ](
    d: &EncodingDetector,
    tld: Option<&[u8]>,
    allow_utf8: bool,
) -> (r: &'static Encoding)
    requires
        tld is None,
    ensures
        allow_utf8 && detector_closed(*d) ==> *r == guessed_encoding(detector_input(*d)),
;

/// The best guess of the encoding of `text`, taken as a complete stream.
pub fn detect_encoding(text: &[u8]) -> (r: &'static Encoding)
    ensures
        *r == guessed_encoding(text@),
{
    let mut detector = EncodingDetector::new();
    detector.feed(text, true);
    proof {
        assert(Seq::<u8>::empty() + text@ == text@);
    }
    detector.guess(None, true)
}

} // verus!
