//! Decoding a verified release payload into a raw executable image.  On
//! platforms whose release assets come gzip-compressed the payload must be
//! decompressed; elsewhere it is already the executable image.

use vstd::prelude::*;
use crate::platform::Platform;

verus! {

/// The result of gzip-decompressing a byte stream: `Some` decompressed bytes
/// for a well-formed stream, `None` for a corrupt one.  Decompression is a
/// function of the input bytes alone; its value is not axiomatized here.
pub uninterp spec fn gunzip_of(data: Seq<u8>) -> Option<Seq<u8>>;

/// Relies on `flate2::bufread::GzDecoder`: reading it to the end yields the
/// full decompressed stream, or an error on a corrupt input; the outcome
/// depends on the input bytes alone.
#[verifier::external_body]
fn gunzip(data: &[u8]) -> (r: Option<Vec<u8>>)
    ensures
        match r {
            Some(v) => gunzip_of(data@) == Some(v@),
            None => gunzip_of(data@) is None,
        },
{
    let mut decoder = flate2::bufread::GzDecoder::new(data);
    let mut out = Vec::new();
    match std::io::Read::read_to_end(&mut decoder, &mut out) {
        Ok(_) => Some(out),
        Err(_) => None,
    }
}

/// The executable image a payload decodes to on the given platform, if any.
pub open spec fn decoded_image(plat: Platform, payload: Seq<u8>) -> Option<Seq<u8>> {
    if plat.asset_compressed() {
        gunzip_of(payload)
    } else {
        Some(payload)
    }
}

/// Decodes the downloaded payload into the executable image: decompresses it
/// where the platform distributes compressed assets, passes it through
/// elsewhere.  A decompression error is reported as `None`.
pub fn decode_payload(plat: Platform, payload: &[u8]) -> (r: Option<Vec<u8>>)
    ensures
        match r {
            Some(v) => decoded_image(plat, payload@) == Some(v@),
            None => decoded_image(plat, payload@) is None,
        },
{
    match plat {
        Platform::UnixLike => gunzip(payload),
        Platform::Windows => {
            let mut out: Vec<u8> = Vec::new();
            let mut i: usize = 0;
            while i < payload.len()
                invariant
                    i <= payload@.len(),
                    out@ == payload@.subrange(0, i as int),
                decreases payload@.len() - i,
            {
                out.push(payload[i]);
                proof {
                    assert(out@ =~= payload@.subrange(0, i + 1));
                }
                i = i + 1;
            }
            proof {
                assert(payload@.subrange(0, payload@.len() as int) =~= payload@);
            }
            Some(out)
        },
    }
}

} // verus!
