//! The buffer growth protocol.
//!
//! Calls whose result is written into a caller-supplied buffer of unknown
//! required size are retried with doubled capacity until they succeed or a
//! hard ceiling is passed.  The attempted sizes only ever grow, by doubling
//! from the initial size, and never pass the ceiling.  The probe itself is
//! whatever the caller supplies — typically a native call — so the protocol
//! promises what holds of every outcome it can return.

use vstd::prelude::*;

use crate::types::Error;

verus! {

/// The first buffer size tried for a screenshot: enough for a compressed
/// 720p frame in most cases.
pub const IMAGE_INIT_SIZE: usize = 4 * 1024 * 1024;

/// The hard ceiling for a screenshot buffer: enough for a raw 4K frame.
pub const IMAGE_MAX_SIZE: usize = 32 * 1024 * 1024;

/// The first buffer size tried for an identifier string.
pub const UUID_INIT_SIZE: usize = 1024;

/// The hard ceiling for an identifier buffer, narrower than the screenshot
/// ceiling.
pub const UUID_MAX_SIZE: usize = 1024 * 1024;

/// Whether `s` arises from `init` by doubling zero or more times.
pub open spec fn doubled_from(init: nat, s: nat) -> bool
    decreases s,
{
    if s == init {
        true
    } else if s > init && s > 0 && s % 2 == 0 {
        doubled_from(init, s / 2)
    } else {
        false
    }
}

/// A doubled size never falls below where it started.
pub proof fn lemma_doubled_at_least(init: nat, s: nat)
    requires
        doubled_from(init, s),
    ensures
        s >= init,
    decreases s,
{
    if s != init {
        lemma_doubled_at_least(init, s / 2);
    }
}

/// Two sizes of the same doubling chain never sit closer than a factor of
/// two: the chain has no member strictly between a size and its double.
pub proof fn lemma_doubled_gap(init: nat, a: nat, b: nat)
    requires
        doubled_from(init, a),
        doubled_from(init, b),
        a < b,
    ensures
        b >= 2 * a,
    decreases b,
{
    lemma_doubled_at_least(init, a);
    assert(b != init);
    if a < b / 2 {
        lemma_doubled_gap(init, a, b / 2);
    } else if a > b / 2 {
        lemma_doubled_gap(init, b / 2, a);
        assert(false);
    }
}

/// The sizes the screenshot protocol may hand to its probe: doubled up from
/// the initial size, never past the ceiling.
pub open spec fn valid_image_attempt(s: nat) -> bool {
    doubled_from(IMAGE_INIT_SIZE as nat, s) && s <= IMAGE_MAX_SIZE
}

/// The sizes the identifier protocol may hand to its probe.
pub open spec fn valid_uuid_attempt(s: nat) -> bool {
    doubled_from(UUID_INIT_SIZE as nat, s) && s <= UUID_MAX_SIZE
}

/// Fetch a screenshot through a probe that fills a buffer of the requested
/// size and reports the written length, or fails for want of room.
///
/// The probe is only ever called on sizes doubled up from the initial size
/// and within the ceiling; a success is returned as is, and exhaustion of
/// the ceiling reports how large the buffer was allowed to get.
pub fn get_image_with<F: Fn(usize) -> Option<u64>>(probe: &F) -> (r: Result<u64, Error>)
    requires
        forall|s: usize| valid_image_attempt(s as nat) ==> call_requires(*probe, (s,)),
    ensures
        r matches Ok(n) ==> exists|s: usize|
            valid_image_attempt(s as nat) && call_ensures(*probe, (s,), Option::Some(n)),
        r matches Err(e) ==> e == Error::ContentTooLarge(IMAGE_MAX_SIZE) && forall|s: usize|
            valid_image_attempt(s as nat) ==> call_ensures(*probe, (s,), Option::<u64>::None),
{
    let mut size: usize = IMAGE_INIT_SIZE;
    proof {
        assert forall|s: usize|
            valid_image_attempt(s as nat) && s < IMAGE_INIT_SIZE implies call_ensures(
            *probe,
            (s,),
            Option::<u64>::None,
        ) by {
            lemma_doubled_at_least(IMAGE_INIT_SIZE as nat, s as nat);
        }
    }
    loop
        invariant
            valid_image_attempt(size as nat),
            forall|s: usize| valid_image_attempt(s as nat) ==> call_requires(*probe, (s,)),
            forall|s: usize| valid_image_attempt(s as nat) && s < size ==> call_ensures(
                *probe,
                (s,),
                Option::<u64>::None,
            ),
        decreases IMAGE_MAX_SIZE - size,
    {
        let outcome = probe(size);
        match outcome {
            Option::Some(n) => {
                return Result::Ok(n);
            },
            Option::None => {
                if size > IMAGE_MAX_SIZE / 2 {
                    proof {
                        assert forall|s: usize| valid_image_attempt(s as nat) implies call_ensures(
                            *probe,
                            (s,),
                            Option::<u64>::None,
                        ) by {
                            if s > size {
                                lemma_doubled_gap(
                                    IMAGE_INIT_SIZE as nat,
                                    size as nat,
                                    s as nat,
                                );
                            }
                        }
                    }
                    return Result::Err(Error::ContentTooLarge(IMAGE_MAX_SIZE));
                }
                proof {
                    lemma_doubled_at_least(IMAGE_INIT_SIZE as nat, size as nat);
                    assert forall|s: usize|
                        valid_image_attempt(s as nat) && s < 2 * size implies call_ensures(
                        *probe,
                        (s,),
                        Option::<u64>::None,
                    ) by {
                        if s > size {
                            lemma_doubled_gap(IMAGE_INIT_SIZE as nat, size as nat, s as nat);
                        }
                    }
                }
                size = size * 2;
            },
        }
    }
}

/// What one identifier probe can report: the buffer was too small, or the
/// bytes that were written.
pub enum UuidProbe {
    /// The engine signalled that the buffer does not suffice.
    TooSmall,
    /// The bytes the engine wrote, truncated to the reported length.
    Data(Vec<u8>),
}

/// Fetch the engine identifier bytes through a probe, growing the buffer
/// from the initial size and giving up with `Unknown` once the attempted
/// size would pass the identifier ceiling — the loop always terminates.
pub fn get_uuid_bytes_with<F: Fn(usize) -> UuidProbe>(probe: &F) -> (r: Result<Vec<u8>, Error>)
    requires
        forall|s: usize| valid_uuid_attempt(s as nat) ==> call_requires(*probe, (s,)),
    ensures
        r matches Ok(b) ==> exists|s: usize|
            valid_uuid_attempt(s as nat) && call_ensures(*probe, (s,), UuidProbe::Data(b)),
        r matches Err(e) ==> e == Error::Unknown && forall|s: usize|
            valid_uuid_attempt(s as nat) ==> call_ensures(*probe, (s,), UuidProbe::TooSmall),
{
    let mut size: usize = UUID_INIT_SIZE;
    proof {
        assert forall|s: usize|
            valid_uuid_attempt(s as nat) && s < UUID_INIT_SIZE implies call_ensures(
            *probe,
            (s,),
            UuidProbe::TooSmall,
        ) by {
            lemma_doubled_at_least(UUID_INIT_SIZE as nat, s as nat);
        }
    }
    loop
        invariant
            valid_uuid_attempt(size as nat),
            forall|s: usize| valid_uuid_attempt(s as nat) ==> call_requires(*probe, (s,)),
            forall|s: usize| valid_uuid_attempt(s as nat) && s < size ==> call_ensures(
                *probe,
                (s,),
                UuidProbe::TooSmall,
            ),
        decreases UUID_MAX_SIZE - size,
    {
        let outcome = probe(size);
        match outcome {
            UuidProbe::Data(b) => {
                return Result::Ok(b);
            },
            UuidProbe::TooSmall => {
                if size > UUID_MAX_SIZE / 2 {
                    proof {
                        assert forall|s: usize| valid_uuid_attempt(s as nat) implies call_ensures(
                            *probe,
                            (s,),
                            UuidProbe::TooSmall,
                        ) by {
                            if s > size {
                                lemma_doubled_gap(UUID_INIT_SIZE as nat, size as nat, s as nat);
                            }
                        }
                    }
                    return Result::Err(Error::Unknown);
                }
                proof {
                    lemma_doubled_at_least(UUID_INIT_SIZE as nat, size as nat);
                    assert forall|s: usize|
                        valid_uuid_attempt(s as nat) && s < 2 * size implies call_ensures(
                        *probe,
                        (s,),
                        UuidProbe::TooSmall,
                    ) by {
                        if s > size {
                            lemma_doubled_gap(UUID_INIT_SIZE as nat, size as nat, s as nat);
                        }
                    }
                }
                size = size * 2;
            },
        }
    }
}

/// What an identifier looks like once decoded leniently as text.
///
/// Relies on `String::from_utf8_lossy`: the decoding depends on the bytes
/// alone, and empty input decodes to the empty string.
pub uninterp spec fn utf8_lossy_of(bytes: Seq<u8>) -> Seq<char>;

/// Decode bytes as text, replacing invalid sequences.
///
/// Relies on `String::from_utf8_lossy`: the result is a function of the
/// bytes alone.
#[verifier::external_body]
fn bytes_to_text(b: &Vec<u8>) -> (r: String)
    ensures
        r@ == utf8_lossy_of(b@),
{
    String::from_utf8_lossy(b).into_owned()
}

/// Fetch the engine identifier as text: the identifier bytes, decoded
/// leniently.
pub fn get_uuid_with<F: Fn(usize) -> UuidProbe>(probe: &F) -> (r: Result<String, Error>)
    requires
        forall|s: usize| valid_uuid_attempt(s as nat) ==> call_requires(*probe, (s,)),
    ensures
        r matches Ok(u) ==> exists|s: usize, b: Vec<u8>|
            valid_uuid_attempt(s as nat) && call_ensures(*probe, (s,), UuidProbe::Data(b)) && u@
                == utf8_lossy_of(b@),
        r matches Err(e) ==> e == Error::Unknown && forall|s: usize|
            valid_uuid_attempt(s as nat) ==> call_ensures(*probe, (s,), UuidProbe::TooSmall),
{
    match get_uuid_bytes_with(probe) {
        Result::Ok(b) => Result::Ok(bytes_to_text(&b)),
        Result::Err(e) => Result::Err(e),
    }
}


/// The bytes the engine reported: the buffer cut to the reported length, or
/// kept whole where the report passes its end.
pub fn truncate_to_reported(bytes: Vec<u8>, reported: u64) -> (r: Vec<u8>)
    ensures
        r@ == (if reported <= bytes@.len() {
            bytes@.take(reported as int)
        } else {
            bytes@
        }),
{
    let mut bytes = bytes;
    if reported <= bytes.len() as u64 {
        bytes.truncate(reported as usize);
    }
    bytes
}

/// What one identifier probe reports, decided by the engine's two return
/// values: a written count equal to the null-size sentinel means the buffer
/// was too small; any other count is success, with the buffer cut to it.
pub fn uuid_probe_outcome(bytes: Vec<u8>, written: u64, null_size: u64) -> (r: UuidProbe)
    ensures
        if written == null_size {
            r == UuidProbe::TooSmall
        } else {
            r matches UuidProbe::Data(b) && b@ == (if written <= bytes@.len() {
                bytes@.take(written as int)
            } else {
                bytes@
            })
        },
{
    if written == null_size {
        UuidProbe::TooSmall
    } else {
        UuidProbe::Data(truncate_to_reported(bytes, written))
    }
}



} // verus!
