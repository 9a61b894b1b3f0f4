//! zstd compression of snapshot bytes.
use vstd::prelude::*;

verus! {

/// What `zstd::encode_all` produces for these bytes at this level.
pub uninterp spec fn zstd_frame(data: Seq<u8>, level: i32) -> Seq<u8>;

/// What `zstd::decode_all` yields for these bytes: the decompressed bytes,
/// or `None` where it reports an error.
pub uninterp spec fn zstd_decoded(frame: Seq<u8>) -> Option<Seq<u8>>;

/// Calls `zstd::encode_all` on a byte slice. Its output is named
/// `zstd_frame`; zstd is lossless, so decoding that output gives back the
/// input. At level 0 (zstd's default level) it reads from memory into a
/// `Vec` and so does not fail; nothing is claimed about errors at other
/// levels.
#[verifier::external_body]
pub(crate) fn encode_all(data: &[u8], level: i32) -> (r: Result<Vec<u8>, String>)
    ensures
        r matches Ok(v) ==> v@ == zstd_frame(data@, level) && zstd_decoded(v@) == Some(data@),
        level == 0 ==> r is Ok,
{
    zstd::encode_all(data, level).map_err(|e| e.to_string())
}

/// Calls `zstd::decode_all` on a byte slice; what it yields is named
/// `zstd_decoded`, its error carried as the error's text.
#[verifier::external_body]
pub(crate) fn decode_all(frame: &[u8]) -> (r: Result<Vec<u8>, String>)
    ensures
        match r {
            Ok(v) => zstd_decoded(frame@) == Some(v@),
            Err(_) => zstd_decoded(frame@) is None,
        },
{
    zstd::decode_all(frame).map_err(|e| e.to_string())
}

} // verus!
