//! Wire codec: bounds-checked decoding and encoding of big-endian unsigned
//! integers and of the protocol's composite structures.
//!
//! Decoders read `buffer` at a cursor `offset` and advance it by exactly the
//! bytes consumed; on failure the cursor is left where it was and nothing is
//! recorded as consumed. Encoders write into `buffer` at a caller-supplied
//! `offset` and return the byte count written; on failure they touch no byte
//! outside the region they were asked to fill, and the integer encoders touch
//! none at all.

use vstd::prelude::*;

use crate::types::CommandHeader;
use crate::types::COMMAND_HDR_SIZE;
use crate::types::MAX_TPM_PROPERTIES;
use crate::types::GetCapabilityArgs;
use crate::types::RESPONSE_HDR_SIZE;
use crate::types::ResponseHeader;
use crate::types::StartupArgs;
use crate::types::GetCapabilityResponse;
use crate::types::TpmsTaggedProperty;
use crate::types::TpmuCapabilities;
use crate::types::StartupType;
use crate::types::TpmCapability;
use crate::types::TpmCommandCode;
use crate::types::TpmCommandTag;
use crate::types::TpmError;
use crate::types::TpmPt;
use crate::types::TpmRc;

verus! {

broadcast use vstd::slice::group_slice_axioms;

/// The `u16` that two big-endian bytes spell.
pub open spec fn spec_u16_from_be_bytes(s: Seq<u8>) -> u16
    recommends
        s.len() == 2,
{
    (s[0] * 0x100 + s[1]) as u16
}

/// The two big-endian bytes of a `u16`.
pub open spec fn spec_u16_to_be_bytes(v: u16) -> Seq<u8> {
    seq![(v / 0x100) as u8, (v % 0x100) as u8]
}

/// The `u32` that four big-endian bytes spell.
pub open spec fn spec_u32_from_be_bytes(s: Seq<u8>) -> u32
    recommends
        s.len() == 4,
{
    (s[0] * 0x1000000 + s[1] * 0x10000 + s[2] * 0x100 + s[3]) as u32
}

/// The four big-endian bytes of a `u32`.
pub open spec fn spec_u32_to_be_bytes(v: u32) -> Seq<u8> {
    seq![(v / 0x1000000) as u8, ((v / 0x10000) % 0x100) as u8, ((v / 0x100) % 0x100) as u8, (v % 0x100) as u8]
}

/// Encoding a `u16` and reading the bytes back yields the same value.
pub proof fn lemma_u16_be_roundtrip(v: u16)
    ensures
        spec_u16_from_be_bytes(spec_u16_to_be_bytes(v)) == v,
{
    assert((v / 0x100) % 0x100 == v / 0x100) by (bit_vector);
    assert((v / 0x100) * 0x100 + v % 0x100 == v) by (bit_vector);
}

/// Encoding a `u32` and reading the bytes back yields the same value.
pub proof fn lemma_u32_be_roundtrip(v: u32)
    ensures
        spec_u32_from_be_bytes(spec_u32_to_be_bytes(v)) == v,
{
    assert((v / 0x1000000) % 0x100 == v / 0x1000000) by (bit_vector);
    assert((v / 0x1000000) * 0x1000000 + ((v / 0x10000) % 0x100) * 0x10000 + ((v / 0x100)
        % 0x100) * 0x100 + v % 0x100 == v) by (bit_vector);
}

/// `new_s` is `old_s` with `data` written at `at` and every other byte kept.
pub open spec fn seq_spliced(old_s: Seq<u8>, new_s: Seq<u8>, at: int, data: Seq<u8>) -> bool {
    &&& new_s.len() == old_s.len()
    &&& 0 <= at && at + data.len() <= old_s.len()
    &&& new_s.subrange(at, at + data.len()) == data
    &&& forall|i: int|
        0 <= i < old_s.len() && !(at <= i < at + data.len()) ==> new_s[i] == old_s[i]
}

/// Decodes one byte at the cursor; fails with `Insufficient` when none
/// remains.
pub fn unmarshal_u8(buffer: &[u8], offset: &mut usize) -> (r: Result<u8, TpmError>)
    ensures
        match r {
            Ok(v) => {
                &&& *old(offset) + 1 <= buffer@.len()
                &&& *final(offset) == *old(offset) + 1
                &&& v == buffer@[*old(offset) as int]
            },
            Err(e) => {
                &&& *old(offset) + 1 > buffer@.len()
                &&& e.rc == TpmRc::Insufficient
                &&& *final(offset) == *old(offset)
            },
        },
{
    if offset_fits(buffer, *offset, 1) {
        let v = buffer[*offset];
        *offset += 1;
        Ok(v)
    } else {
        Err(TpmError { rc: TpmRc::Insufficient })
    }
}

/// Decodes a big-endian `u16` at the cursor; fails with `Insufficient` when
/// fewer than two bytes remain.
pub fn unmarshal_u16(buffer: &[u8], offset: &mut usize) -> (r: Result<u16, TpmError>)
    ensures
        match r {
            Ok(v) => {
                &&& *old(offset) + 2 <= buffer@.len()
                &&& *final(offset) == *old(offset) + 2
                &&& v == spec_u16_from_be_bytes(
                    buffer@.subrange(*old(offset) as int, *old(offset) + 2),
                )
            },
            Err(e) => {
                &&& *old(offset) + 2 > buffer@.len()
                &&& e.rc == TpmRc::Insufficient
                &&& *final(offset) == *old(offset)
            },
        },
{
    if offset_fits(buffer, *offset, 2) {
        let b0 = buffer[*offset];
        let b1 = buffer[*offset + 1];
        let v: u16 = (b0 as u16) * 0x100 + (b1 as u16);
        *offset += 2;
        Ok(v)
    } else {
        Err(TpmError { rc: TpmRc::Insufficient })
    }
}

/// Decodes a big-endian `u32` at the cursor; fails with `Insufficient` when
/// fewer than four bytes remain.
pub fn unmarshal_u32(buffer: &[u8], offset: &mut usize) -> (r: Result<u32, TpmError>)
    ensures
        match r {
            Ok(v) => {
                &&& *old(offset) + 4 <= buffer@.len()
                &&& *final(offset) == *old(offset) + 4
                &&& v == spec_u32_from_be_bytes(
                    buffer@.subrange(*old(offset) as int, *old(offset) + 4),
                )
            },
            Err(e) => {
                &&& *old(offset) + 4 > buffer@.len()
                &&& e.rc == TpmRc::Insufficient
                &&& *final(offset) == *old(offset)
            },
        },
{
    if offset_fits(buffer, *offset, 4) {
        let b0 = buffer[*offset];
        let b1 = buffer[*offset + 1];
        let b2 = buffer[*offset + 2];
        let b3 = buffer[*offset + 3];
        let v: u32 = (b0 as u32) * 0x1000000 + (b1 as u32) * 0x10000 + (b2 as u32) * 0x100 + (
        b3 as u32);
        *offset += 4;
        Ok(v)
    } else {
        Err(TpmError { rc: TpmRc::Insufficient })
    }
}

/// Whether `width` more bytes fit in `buffer` at `offset`, with no overflow
/// in the comparison.
fn offset_fits(buffer: &[u8], offset: usize, width: usize) -> (b: bool)
    ensures
        b == (offset + width <= buffer@.len()),
{
    buffer.len() >= width && offset <= buffer.len() - width
}

/// Encodes one byte at `offset`; fails with `Insufficient`, writing nothing,
/// when the buffer ends before it.
pub fn marshal_u8(buffer: &mut [u8], offset: usize, val: u8) -> (r: Result<usize, TpmError>)
    ensures
        final(buffer)@.len() == old(buffer)@.len(),
        match r {
            Ok(n) => {
                &&& offset + 1 <= old(buffer)@.len()
                &&& n == 1
                &&& seq_spliced(old(buffer)@, final(buffer)@, offset as int, seq![val])
            },
            Err(e) => {
                &&& offset + 1 > old(buffer)@.len()
                &&& e.rc == TpmRc::Insufficient
                &&& final(buffer)@ == old(buffer)@
            },
        },
{
    if buffer.len() < 1 || offset > buffer.len() - 1 {
        return Err(TpmError { rc: TpmRc::Insufficient });
    }
    buffer[offset] = val;
    proof {
        assert(buffer@.subrange(offset as int, offset + 1) =~= seq![val]);
    }
    Ok(1)
}

/// Encodes a `u16` as two big-endian bytes at `offset`; fails with
/// `Insufficient`, writing nothing, when the buffer ends before them.
pub fn marshal_u16(buffer: &mut [u8], offset: usize, val: u16) -> (r: Result<usize, TpmError>)
    ensures
        final(buffer)@.len() == old(buffer)@.len(),
        match r {
            Ok(n) => {
                &&& offset + 2 <= old(buffer)@.len()
                &&& n == 2
                &&& seq_spliced(old(buffer)@, final(buffer)@, offset as int, spec_u16_to_be_bytes(val))
            },
            Err(e) => {
                &&& offset + 2 > old(buffer)@.len()
                &&& e.rc == TpmRc::Insufficient
                &&& final(buffer)@ == old(buffer)@
            },
        },
{
    if buffer.len() < 2 || offset > buffer.len() - 2 {
        return Err(TpmError { rc: TpmRc::Insufficient });
    }
    buffer[offset] = (val / 0x100) as u8;
    buffer[offset + 1] = (val % 0x100) as u8;
    proof {
        assert(buffer@.subrange(offset as int, offset + 2) =~= spec_u16_to_be_bytes(val));
    }
    Ok(2)
}

/// Encodes a `u32` as four big-endian bytes at `offset`; fails with
/// `Insufficient`, writing nothing, when the buffer ends before them.
pub fn marshal_u32(buffer: &mut [u8], offset: usize, val: u32) -> (r: Result<usize, TpmError>)
    ensures
        final(buffer)@.len() == old(buffer)@.len(),
        match r {
            Ok(n) => {
                &&& offset + 4 <= old(buffer)@.len()
                &&& n == 4
                &&& seq_spliced(old(buffer)@, final(buffer)@, offset as int, spec_u32_to_be_bytes(val))
            },
            Err(e) => {
                &&& offset + 4 > old(buffer)@.len()
                &&& e.rc == TpmRc::Insufficient
                &&& final(buffer)@ == old(buffer)@
            },
        },
{
    if buffer.len() < 4 || offset > buffer.len() - 4 {
        return Err(TpmError { rc: TpmRc::Insufficient });
    }
    buffer[offset] = (val / 0x1000000) as u8;
    buffer[offset + 1] = ((val / 0x10000) % 0x100) as u8;
    buffer[offset + 2] = ((val / 0x100) % 0x100) as u8;
    buffer[offset + 3] = (val % 0x100) as u8;
    proof {
        assert(buffer@.subrange(offset as int, offset + 4) =~= spec_u32_to_be_bytes(val));
    }
    Ok(4)
}

/// What decoding an opcode at `at` of `s` yields: the raw integer decode
/// followed by the closed mapping, which fails on the sentinel.
pub open spec fn spec_unmarshal_command_code(s: Seq<u8>, at: int) -> Result<TpmCommandCode, TpmRc> {
    if at + 4 <= s.len() {
        let cc = TpmCommandCode::spec_from_u32(spec_u32_from_be_bytes(s.subrange(at, at + 4)));
        if cc is Unknown {
            Err(TpmRc::CommandCode)
        } else {
            Ok(cc)
        }
    } else {
        Err(TpmRc::Insufficient)
    }
}

/// Decodes an opcode; fails with `Insufficient` when fewer than four bytes
/// remain and with `CommandCode` when the value is outside the opcode set.
pub fn unmarshal_command_code(buffer: &[u8], offset: &mut usize) -> (r: Result<
    TpmCommandCode,
    TpmError,
>)
    ensures
        match r {
            Ok(cc) => {
                &&& spec_unmarshal_command_code(buffer@, *old(offset) as int) == Ok::<_, TpmRc>(cc)
                &&& !(cc is Unknown)
                &&& *final(offset) == *old(offset) + 4
            },
            Err(e) => spec_unmarshal_command_code(buffer@, *old(offset) as int) == Err::<
                TpmCommandCode,
                _,
            >(e.rc),
        },
{
    match unmarshal_u32(buffer, offset) {
        Ok(code) => {
            let cc = TpmCommandCode::from(code);
            match cc {
                TpmCommandCode::Unknown => Err(TpmError { rc: TpmRc::CommandCode }),
                _ => Ok(cc),
            }
        },
        Err(e) => Err(e),
    }
}

/// What decoding a session tag at `at` of `s` yields; the mapping fails with
/// `BadTag` on the sentinel.
pub open spec fn spec_unmarshal_tag(s: Seq<u8>, at: int) -> Result<TpmCommandTag, TpmRc> {
    if at + 2 <= s.len() {
        let tag = TpmCommandTag::spec_from_u16(spec_u16_from_be_bytes(s.subrange(at, at + 2)));
        if tag is Unknown {
            Err(TpmRc::BadTag)
        } else {
            Ok(tag)
        }
    } else {
        Err(TpmRc::Insufficient)
    }
}

/// Decodes a session tag; fails with `Insufficient` when fewer than two bytes
/// remain and with `BadTag` when the value is outside the tag set.
pub fn unmarshal_tag(buffer: &[u8], offset: &mut usize) -> (r: Result<TpmCommandTag, TpmError>)
    ensures
        match r {
            Ok(tag) => {
                &&& spec_unmarshal_tag(buffer@, *old(offset) as int) == Ok::<_, TpmRc>(tag)
                &&& !(tag is Unknown)
                &&& *final(offset) == *old(offset) + 2
            },
            Err(e) => spec_unmarshal_tag(buffer@, *old(offset) as int) == Err::<TpmCommandTag, _>(
                e.rc,
            ),
        },
{
    match unmarshal_u16(buffer, offset) {
        Ok(tag_u16) => {
            let tag = TpmCommandTag::from(tag_u16);
            match tag {
                TpmCommandTag::Unknown => Err(TpmError { rc: TpmRc::BadTag }),
                _ => Ok(tag),
            }
        },
        Err(e) => Err(e),
    }
}

/// What decoding a startup type at `at` of `s` yields; the mapping fails with
/// `Value` on the sentinel.
pub open spec fn spec_unmarshal_startup_type(s: Seq<u8>, at: int) -> Result<StartupType, TpmRc> {
    if at + 2 <= s.len() {
        let su = StartupType::spec_from_u16(spec_u16_from_be_bytes(s.subrange(at, at + 2)));
        if su is Unknown {
            Err(TpmRc::Value)
        } else {
            Ok(su)
        }
    } else {
        Err(TpmRc::Insufficient)
    }
}

/// Decodes a startup type; fails with `Insufficient` when fewer than two
/// bytes remain and with `Value` when the value is outside the known set.
pub fn unmarshal_startup_type(buffer: &[u8], offset: &mut usize) -> (r: Result<
    StartupType,
    TpmError,
>)
    ensures
        match r {
            Ok(su) => {
                &&& spec_unmarshal_startup_type(buffer@, *old(offset) as int) == Ok::<_, TpmRc>(su)
                &&& !(su is Unknown)
                &&& *final(offset) == *old(offset) + 2
            },
            Err(e) => spec_unmarshal_startup_type(buffer@, *old(offset) as int) == Err::<
                StartupType,
                _,
            >(e.rc),
        },
{
    match unmarshal_u16(buffer, offset) {
        Ok(su_type_u16) => {
            let su = StartupType::from(su_type_u16);
            match su {
                StartupType::Unknown => Err(TpmError { rc: TpmRc::Value }),
                _ => Ok(su),
            }
        },
        Err(e) => Err(e),
    }
}

/// What decoding a capability kind at `at` of `s` yields; the mapping fails
/// with `Value` on the sentinel.
pub open spec fn spec_unmarshal_capability(s: Seq<u8>, at: int) -> Result<TpmCapability, TpmRc> {
    if at + 4 <= s.len() {
        let cap = TpmCapability::spec_from_u32(spec_u32_from_be_bytes(s.subrange(at, at + 4)));
        if cap is Unknown {
            Err(TpmRc::Value)
        } else {
            Ok(cap)
        }
    } else {
        Err(TpmRc::Insufficient)
    }
}

/// Decodes a capability kind; fails with `Insufficient` when fewer than four
/// bytes remain and with `Value` when the value is outside the known set.
pub fn unmarshal_capability(buffer: &[u8], offset: &mut usize) -> (r: Result<
    TpmCapability,
    TpmError,
>)
    ensures
        match r {
            Ok(cap) => {
                &&& spec_unmarshal_capability(buffer@, *old(offset) as int) == Ok::<_, TpmRc>(cap)
                &&& !(cap is Unknown)
                &&& *final(offset) == *old(offset) + 4
            },
            Err(e) => spec_unmarshal_capability(buffer@, *old(offset) as int) == Err::<
                TpmCapability,
                _,
            >(e.rc),
        },
{
    match unmarshal_u32(buffer, offset) {
        Ok(capability) => {
            let cap = TpmCapability::from(capability);
            match cap {
                TpmCapability::Unknown => Err(TpmError { rc: TpmRc::Value }),
                _ => Ok(cap),
            }
        },
        Err(e) => Err(e),
    }
}

/// What decoding a property selector at `at` of `s` yields; the mapping fails
/// with `Value` on the sentinel.
pub open spec fn spec_unmarshal_pt(s: Seq<u8>, at: int) -> Result<TpmPt, TpmRc> {
    if at + 4 <= s.len() {
        let pt = TpmPt::spec_from_u32(spec_u32_from_be_bytes(s.subrange(at, at + 4)));
        if pt is Unknown {
            Err(TpmRc::Value)
        } else {
            Ok(pt)
        }
    } else {
        Err(TpmRc::Insufficient)
    }
}

/// Decodes a property selector; fails with `Insufficient` when fewer than
/// four bytes remain and with `Value` when the value is outside the known
/// set.
pub fn unmarshal_pt(buffer: &[u8], offset: &mut usize) -> (r: Result<TpmPt, TpmError>)
    ensures
        match r {
            Ok(pt) => {
                &&& spec_unmarshal_pt(buffer@, *old(offset) as int) == Ok::<_, TpmRc>(pt)
                &&& !(pt is Unknown)
                &&& *final(offset) == *old(offset) + 4
            },
            Err(e) => spec_unmarshal_pt(buffer@, *old(offset) as int) == Err::<TpmPt, _>(e.rc),
        },
{
    match unmarshal_u32(buffer, offset) {
        Ok(pt_u32) => {
            let pt = TpmPt::from(pt_u32);
            match pt {
                TpmPt::Unknown => Err(TpmError { rc: TpmRc::Value }),
                _ => Ok(pt),
            }
        },
        Err(e) => Err(e),
    }
}

/// What decoding `Startup` arguments at `at` of `s` yields: a single startup
/// type.
pub open spec fn spec_unmarshal_startup_args(s: Seq<u8>, at: int) -> Result<StartupArgs, TpmRc> {
    match spec_unmarshal_startup_type(s, at) {
        Ok(su) => Ok(StartupArgs { su_type: su }),
        Err(rc) => Err(rc),
    }
}

/// Decodes the arguments of `Startup`, propagating the first failure.
pub fn unmarshal_startup_args(buffer: &[u8], offset: &mut usize) -> (r: Result<
    StartupArgs,
    TpmError,
>)
    ensures
        match r {
            Ok(args) => {
                &&& spec_unmarshal_startup_args(buffer@, *old(offset) as int) == Ok::<_, TpmRc>(
                    args,
                )
                &&& *final(offset) == *old(offset) + 2
            },
            Err(e) => spec_unmarshal_startup_args(buffer@, *old(offset) as int) == Err::<
                StartupArgs,
                _,
            >(e.rc),
        },
{
    match unmarshal_startup_type(buffer, offset) {
        Ok(su_type) => Ok(StartupArgs { su_type }),
        Err(e) => Err(e),
    }
}

/// What decoding `GetCapability` arguments at `at` of `s` yields: a
/// capability kind, a property selector and a requested count, left to
/// right, stopping at the first failure.
pub open spec fn spec_unmarshal_get_capability_args(s: Seq<u8>, at: int) -> Result<
    GetCapabilityArgs,
    TpmRc,
> {
    match spec_unmarshal_capability(s, at) {
        Err(rc) => Err(rc),
        Ok(cap) => match spec_unmarshal_pt(s, at + 4) {
            Err(rc) => Err(rc),
            Ok(pt) => if at + 12 <= s.len() {
                Ok(
                    GetCapabilityArgs {
                        cap,
                        property: pt,
                        property_count: spec_u32_from_be_bytes(s.subrange(at + 8, at + 12)),
                    },
                )
            } else {
                Err(TpmRc::Insufficient)
            },
        },
    }
}

/// Decodes the arguments of `GetCapability`, propagating the first failure.
pub fn unmarshal_get_capability_args(buffer: &[u8], offset: &mut usize) -> (r: Result<
    GetCapabilityArgs,
    TpmError,
>)
    ensures
        match r {
            Ok(args) => {
                &&& spec_unmarshal_get_capability_args(buffer@, *old(offset) as int) == Ok::<
                    _,
                    TpmRc,
                >(args)
                &&& !(args.cap is Unknown)
                &&& !(args.property is Unknown)
                &&& *final(offset) == *old(offset) + 12
            },
            Err(e) => spec_unmarshal_get_capability_args(buffer@, *old(offset) as int) == Err::<
                GetCapabilityArgs,
                _,
            >(e.rc),
        },
{
    let cap = match unmarshal_capability(buffer, offset) {
        Ok(cap) => cap,
        Err(e) => return Err(e),
    };

    let property = match unmarshal_pt(buffer, offset) {
        Ok(prop) => prop,
        Err(e) => return Err(e),
    };

    let property_count = match unmarshal_u32(buffer, offset) {
        Ok(count) => count,
        Err(e) => return Err(e),
    };

    Ok(GetCapabilityArgs { cap, property, property_count })
}

/// What decoding a command envelope at `at` of `s` yields: tag, size and
/// opcode, left to right, stopping at the first failure.
pub open spec fn spec_unmarshal_command_header(s: Seq<u8>, at: int) -> Result<
    CommandHeader,
    TpmRc,
> {
    match spec_unmarshal_tag(s, at) {
        Err(rc) => Err(rc),
        Ok(tag) => if at + 6 <= s.len() {
            match spec_unmarshal_command_code(s, at + 6) {
                Err(rc) => Err(rc),
                Ok(cc) => Ok(
                    CommandHeader {
                        tag,
                        size: spec_u32_from_be_bytes(s.subrange(at + 2, at + 6)),
                        command_code: cc,
                    },
                ),
            }
        } else {
            Err(TpmRc::Insufficient)
        },
    }
}

/// Decodes a command envelope, propagating the first failure.
pub fn unmarshal_command_header(buffer: &[u8], offset: &mut usize) -> (r: Result<
    CommandHeader,
    TpmError,
>)
    ensures
        match r {
            Ok(h) => {
                &&& spec_unmarshal_command_header(buffer@, *old(offset) as int) == Ok::<_, TpmRc>(h)
                &&& h.wf()
                &&& *final(offset) == *old(offset) + COMMAND_HDR_SIZE
            },
            Err(e) => spec_unmarshal_command_header(buffer@, *old(offset) as int) == Err::<
                CommandHeader,
                _,
            >(e.rc),
        },
{
    let tag = match unmarshal_tag(buffer, offset) {
        Ok(val) => val,
        Err(e) => return Err(e),
    };

    let size = match unmarshal_u32(buffer, offset) {
        Ok(val) => val,
        Err(e) => return Err(e),
    };

    let command_code = match unmarshal_command_code(buffer, offset) {
        Ok(val) => val,
        Err(e) => return Err(e),
    };

    Ok(CommandHeader { tag, size, command_code })
}

/// Two consecutive splices into a buffer amount to one splice of the
/// concatenated data.
pub proof fn lemma_spliced_concat(
    s0: Seq<u8>,
    s1: Seq<u8>,
    s2: Seq<u8>,
    at: int,
    d1: Seq<u8>,
    d2: Seq<u8>,
)
    requires
        seq_spliced(s0, s1, at, d1),
        seq_spliced(s1, s2, at + d1.len(), d2),
    ensures
        seq_spliced(s0, s2, at, d1 + d2),
{
    assert forall|i: int| 0 <= i < d1.len() + d2.len() implies s2.subrange(
        at,
        at + d1.len() + d2.len(),
    )[i] == (d1 + d2)[i] by {
        if i < d1.len() {
            assert(s1.subrange(at, at + d1.len() as int)[i] == d1[i]);
        } else {
            assert(s2.subrange(at + d1.len(), at + d1.len() + d2.len())[i - d1.len()] == d2[i
                - d1.len()]);
        }
    }
    assert(s2.subrange(at, at + (d1 + d2).len()) =~= d1 + d2);
}

/// The bytes of a response envelope: tag, size and return code, big-endian.
pub open spec fn spec_response_header_bytes(h: ResponseHeader) -> Seq<u8>
    recommends
        h.wf(),
{
    spec_u16_to_be_bytes(h.tag.wire()) + spec_u32_to_be_bytes(h.size) + spec_u32_to_be_bytes(
        h.rc.wire(),
    )
}

/// Encodes a recognized session tag; encoding the sentinel is an error.
pub fn marshal_tag(buffer: &mut [u8], offset: usize, val: TpmCommandTag) -> (r: Result<
    usize,
    TpmError,
>)
    ensures
        final(buffer)@.len() == old(buffer)@.len(),
        match r {
            Ok(n) => {
                &&& !(val is Unknown)
                &&& offset + 2 <= old(buffer)@.len()
                &&& n == 2
                &&& seq_spliced(
                    old(buffer)@,
                    final(buffer)@,
                    offset as int,
                    spec_u16_to_be_bytes(val.wire()),
                )
            },
            Err(e) => {
                &&& final(buffer)@ == old(buffer)@
                &&& if val is Unknown {
                    e.rc == TpmRc::Value
                } else {
                    offset + 2 > old(buffer)@.len() && e.rc == TpmRc::Insufficient
                }
            },
        },
{
    match val {
        TpmCommandTag::Unknown => Err(TpmError { rc: TpmRc::Value }),
        _ => marshal_u16(buffer, offset, val.wire_value()),
    }
}

/// Encodes a return code; every return code has a wire value, so this fails
/// only for want of space.
pub fn marshal_rc(buffer: &mut [u8], offset: usize, val: TpmRc) -> (r: Result<usize, TpmError>)
    ensures
        final(buffer)@.len() == old(buffer)@.len(),
        match r {
            Ok(n) => {
                &&& offset + 4 <= old(buffer)@.len()
                &&& n == 4
                &&& seq_spliced(
                    old(buffer)@,
                    final(buffer)@,
                    offset as int,
                    spec_u32_to_be_bytes(val.wire()),
                )
            },
            Err(e) => {
                &&& offset + 4 > old(buffer)@.len()
                &&& e.rc == TpmRc::Insufficient
                &&& final(buffer)@ == old(buffer)@
            },
        },
{
    marshal_u32(buffer, offset, val.wire_value())
}

/// Encodes a response envelope left to right, propagating the first failure;
/// a sentinel tag fails with `Value`, and a failure writes nothing.
pub fn marshal_response_header(buffer: &mut [u8], offset: usize, val: &ResponseHeader) -> (r:
    Result<usize, TpmError>)
    ensures
        match r {
            Ok(n) => {
                &&& val.wf()
                &&& offset + RESPONSE_HDR_SIZE <= old(buffer)@.len()
                &&& n == RESPONSE_HDR_SIZE
                &&& seq_spliced(
                    old(buffer)@,
                    final(buffer)@,
                    offset as int,
                    spec_response_header_bytes(*val),
                )
            },
            Err(e) => {
                &&& final(buffer)@ == old(buffer)@
                &&& if !val.wf() {
                    e.rc == TpmRc::Value
                } else {
                    offset + RESPONSE_HDR_SIZE > old(buffer)@.len() && e.rc == TpmRc::Insufficient
                }
            },
        },
{
    if let TpmCommandTag::Unknown = val.tag {
        return Err(TpmError { rc: TpmRc::Value });
    }
    if buffer.len() < RESPONSE_HDR_SIZE || offset > buffer.len() - RESPONSE_HDR_SIZE {
        return Err(TpmError { rc: TpmRc::Insufficient });
    }

    let ghost buf0 = buffer@;
    let mut n = match marshal_tag(buffer, offset, val.tag) {
        Ok(n) => n,
        Err(e) => return Err(e),
    };
    let ghost buf1 = buffer@;

    n = n + match marshal_u32(buffer, offset + n, val.size) {
        Ok(n) => n,
        Err(e) => return Err(e),
    };
    let ghost buf2 = buffer@;

    n = n + match marshal_rc(buffer, offset + n, val.rc) {
        Ok(n) => n,
        Err(e) => return Err(e),
    };

    proof {
        lemma_spliced_concat(
            buf0,
            buf1,
            buf2,
            offset as int,
            spec_u16_to_be_bytes(val.tag.wire()),
            spec_u32_to_be_bytes(val.size),
        );
        lemma_spliced_concat(
            buf0,
            buf2,
            buffer@,
            offset as int,
            spec_u16_to_be_bytes(val.tag.wire()) + spec_u32_to_be_bytes(val.size),
            spec_u32_to_be_bytes(val.rc.wire()),
        );
    }
    Ok(n)
}

/// The bytes of one property entry: selector and value, big-endian.
pub open spec fn spec_tagged_property_bytes(p: TpmsTaggedProperty) -> Seq<u8>
    recommends
        !(p.property is Unknown),
{
    spec_u32_to_be_bytes(p.property.wire()) + spec_u32_to_be_bytes(p.val)
}

/// The first `n` entries of a property list, encoded left to right.
pub open spec fn spec_props_bytes(props: Seq<TpmsTaggedProperty>, n: int) -> Seq<u8>
    decreases n,
{
    if n <= 0 {
        Seq::empty()
    } else {
        spec_props_bytes(props, n - 1) + spec_tagged_property_bytes(props[n - 1])
    }
}

/// Each encoded property entry takes eight bytes.
pub proof fn lemma_props_bytes_len(props: Seq<TpmsTaggedProperty>, n: int)
    requires
        0 <= n,
    ensures
        spec_props_bytes(props, n).len() == 8 * n,
    decreases n,
{
    if n > 0 {
        lemma_props_bytes_len(props, n - 1);
    }
}

/// Whether the first `n` entries of a property list carry no sentinel
/// selector, so that each of them is encodable.
pub open spec fn spec_props_recognized(props: Seq<TpmsTaggedProperty>, n: int) -> bool {
    forall|i: int| 0 <= i < n ==> !(#[trigger] props[i].property is Unknown)
}

/// The bytes of a capability union: the wire format asks every capability
/// blob to re-emit its own kind, so the discriminant comes first, then the
/// element count, then exactly `count` entries.
pub open spec fn spec_tpmu_capability_bytes(u: TpmuCapabilities) -> Seq<u8>
    recommends
        !(u is Unknown),
{
    match u {
        TpmuCapabilities::TpmProps { count, properties } => spec_u32_to_be_bytes(
            TpmCapability::TpmProperty.wire(),
        ) + spec_u32_to_be_bytes(count) + spec_props_bytes(properties@, count as int),
        TpmuCapabilities::Unknown => Seq::empty(),
    }
}

/// Encodes one property entry; a sentinel selector fails with `Value`, and a
/// failure writes nothing.
pub fn marshal_tpms_tagged_property(buffer: &mut [u8], offset: usize, val: &TpmsTaggedProperty)
    -> (r: Result<usize, TpmError>)
    ensures
        match r {
            Ok(n) => {
                &&& !(val.property is Unknown)
                &&& offset + 8 <= old(buffer)@.len()
                &&& n == 8
                &&& seq_spliced(
                    old(buffer)@,
                    final(buffer)@,
                    offset as int,
                    spec_tagged_property_bytes(*val),
                )
            },
            Err(e) => {
                &&& final(buffer)@ == old(buffer)@
                &&& if val.property is Unknown {
                    e.rc == TpmRc::Value
                } else {
                    offset + 8 > old(buffer)@.len() && e.rc == TpmRc::Insufficient
                }
            },
        },
{
    if let TpmPt::Unknown = val.property {
        return Err(TpmError { rc: TpmRc::Value });
    }
    if buffer.len() < 8 || offset > buffer.len() - 8 {
        return Err(TpmError { rc: TpmRc::Insufficient });
    }

    let ghost buf0 = buffer@;
    let mut n = match marshal_u32(buffer, offset, val.property.wire_value()) {
        Ok(n) => n,
        Err(e) => return Err(e),
    };
    let ghost buf1 = buffer@;

    n = n + match marshal_u32(buffer, offset + n, val.val) {
        Ok(n) => n,
        Err(e) => return Err(e),
    };

    proof {
        lemma_spliced_concat(
            buf0,
            buf1,
            buffer@,
            offset as int,
            spec_u32_to_be_bytes(val.property.wire()),
            spec_u32_to_be_bytes(val.val),
        );
    }
    Ok(n)
}

/// Encodes a capability union: its own kind, the element count, then exactly
/// `count` entries of the fixed-capacity list, never the full capacity.
/// An unrecognized kind or entry selector fails with `Value`; too little
/// space fails with `Insufficient` before anything is written.
pub fn marshal_tpmu_capability_data(buffer: &mut [u8], offset: usize, val: &TpmuCapabilities)
    -> (r: Result<usize, TpmError>)
    requires
        val.wf(),
    ensures
        final(buffer)@.len() == old(buffer)@.len(),
        match r {
            Ok(n) => {
                &&& !(val is Unknown)
                &&& offset + n <= old(buffer)@.len()
                &&& n == spec_tpmu_capability_bytes(*val).len()
                &&& seq_spliced(
                    old(buffer)@,
                    final(buffer)@,
                    offset as int,
                    spec_tpmu_capability_bytes(*val),
                )
            },
            Err(e) => match *val {
                TpmuCapabilities::Unknown => {
                    &&& e.rc == TpmRc::Value
                    &&& final(buffer)@ == old(buffer)@
                },
                TpmuCapabilities::TpmProps { count, properties } => {
                    &&& if offset + 8 + 8 * (count as int) > old(buffer)@.len() {
                        e.rc == TpmRc::Insufficient && final(buffer)@ == old(buffer)@
                    } else {
                        e.rc == TpmRc::Value && !spec_props_recognized(
                            properties@,
                            count as int,
                        )
                    }
                    &&& forall|i: int|
                        0 <= i < old(buffer)@.len() && !(offset <= i < offset + 8 + 8 * (
                        count as int)) ==> final(buffer)@[i] == old(buffer)@[i]
                },
            },
        },
{
    let (count, properties) = match val {
        TpmuCapabilities::TpmProps { count, properties } => (*count, properties),
        TpmuCapabilities::Unknown => {
            return Err(TpmError { rc: TpmRc::Value });
        },
    };

    let needed: usize = 8 + 8 * (count as usize);
    if buffer.len() < needed || offset > buffer.len() - needed {
        proof {
            lemma_props_bytes_len(properties@, count as int);
        }
        return Err(TpmError { rc: TpmRc::Insufficient });
    }

    let ghost buf0 = buffer@;
    let mut n = match marshal_u32(buffer, offset, TpmCapability::TpmProperty.wire_value()) {
        Ok(n) => n,
        Err(e) => return Err(e),
    };
    let ghost buf1 = buffer@;

    n = n + match marshal_u32(buffer, offset + n, count) {
        Ok(n) => n,
        Err(e) => return Err(e),
    };

    proof {
        lemma_spliced_concat(
            buf0,
            buf1,
            buffer@,
            offset as int,
            spec_u32_to_be_bytes(TpmCapability::TpmProperty.wire()),
            spec_u32_to_be_bytes(count),
        );
    }

    let buffer_len: usize = buffer.len();
    let mut i: usize = 0;
    while i < count as usize
        invariant
            *val matches TpmuCapabilities::TpmProps { count: c, properties: p } && c == count && p
                == *properties,
            i <= count as usize,
            count as usize <= MAX_TPM_PROPERTIES,
            n == 8 + 8 * i,
            needed == 8 + 8 * (count as usize),
            buf0 == old(buffer)@,
            buffer@.len() == buf0.len(),
            buffer_len == buf0.len(),
            offset + needed <= buffer_len,
            spec_props_recognized(properties@, i as int),
            seq_spliced(
                buf0,
                buffer@,
                offset as int,
                spec_u32_to_be_bytes(TpmCapability::TpmProperty.wire()) + spec_u32_to_be_bytes(
                    count,
                ) + spec_props_bytes(properties@, i as int),
            ),
        decreases count as int - i as int,
    {
        proof {
            lemma_props_bytes_len(properties@, i as int);
        }
        let ghost buf_pre = buffer@;
        let ghost data_pre = spec_u32_to_be_bytes(TpmCapability::TpmProperty.wire())
            + spec_u32_to_be_bytes(count) + spec_props_bytes(properties@, i as int);

        n = n + match marshal_tpms_tagged_property(buffer, offset + n, &properties[i]) {
            Ok(written) => written,
            Err(e) => {
                proof {
                    assert(properties@[i as int].property is Unknown);
                }
                return Err(e);
            },
        };

        proof {
            lemma_spliced_concat(
                buf0,
                buf_pre,
                buffer@,
                offset as int,
                data_pre,
                spec_tagged_property_bytes(properties@[i as int]),
            );
            assert(data_pre + spec_tagged_property_bytes(properties@[i as int])
                =~= spec_u32_to_be_bytes(TpmCapability::TpmProperty.wire()) + spec_u32_to_be_bytes(
                count,
            ) + spec_props_bytes(properties@, i + 1));
        }
        i = i + 1;
    }

    proof {
        lemma_props_bytes_len(properties@, count as int);
    }
    Ok(n)
}

/// Encodes the reply of `GetCapability`: the pagination flag, then the
/// self-describing capability blob.
pub fn marshal_get_capability_response(buffer: &mut [u8], offset: usize, val: &GetCapabilityResponse)
    -> (r: Result<usize, TpmError>)
    requires
        val.data.data.wf(),
    ensures
        final(buffer)@.len() == old(buffer)@.len(),
        match r {
            Ok(n) => {
                &&& !(val.data.data is Unknown)
                &&& offset + n <= old(buffer)@.len()
                &&& n == spec_get_capability_response_bytes(*val).len()
                &&& seq_spliced(
                    old(buffer)@,
                    final(buffer)@,
                    offset as int,
                    spec_get_capability_response_bytes(*val),
                )
            },
            Err(e) => match val.data.data {
                TpmuCapabilities::Unknown => {
                    &&& e.rc == TpmRc::Value
                    &&& final(buffer)@ == old(buffer)@
                },
                TpmuCapabilities::TpmProps { count, properties } => {
                    &&& if offset + 9 + 8 * (count as int) > old(buffer)@.len() {
                        e.rc == TpmRc::Insufficient && final(buffer)@ == old(buffer)@
                    } else {
                        e.rc == TpmRc::Value && !spec_props_recognized(
                            properties@,
                            count as int,
                        )
                    }
                    &&& forall|i: int|
                        0 <= i < old(buffer)@.len() && !(offset <= i < offset + 9 + 8 * (
                        count as int)) ==> final(buffer)@[i] == old(buffer)@[i]
                },
            },
        },
{
    let count: usize = match &val.data.data {
        TpmuCapabilities::TpmProps { count, .. } => *count as usize,
        TpmuCapabilities::Unknown => {
            return Err(TpmError { rc: TpmRc::Value });
        },
    };

    let needed: usize = 9 + 8 * count;
    if buffer.len() < needed || offset > buffer.len() - needed {
        proof {
            match val.data.data {
                TpmuCapabilities::TpmProps { count: c, properties: pr } => {
                    lemma_props_bytes_len(pr@, c as int);
                },
                TpmuCapabilities::Unknown => {},
            }
        }
        return Err(TpmError { rc: TpmRc::Insufficient });
    }

    let ghost buf0 = buffer@;
    let more: u8 = if val.more_data {
        1
    } else {
        0
    };
    let mut n = match marshal_u8(buffer, offset, more) {
        Ok(n) => n,
        Err(e) => return Err(e),
    };
    let ghost buf1 = buffer@;

    n = n + match marshal_tpmu_capability_data(buffer, offset + n, &val.data.data) {
        Ok(n) => n,
        Err(e) => {
            return Err(e);
        },
    };

    proof {
        lemma_spliced_concat(
            buf0,
            buf1,
            buffer@,
            offset as int,
            seq![more],
            spec_tpmu_capability_bytes(val.data.data),
        );
    }
    Ok(n)
}

/// The bytes of a `GetCapability` reply: the pagination flag, then the
/// capability blob.
pub open spec fn spec_get_capability_response_bytes(resp: GetCapabilityResponse) -> Seq<u8>
    recommends
        !(resp.data.data is Unknown),
{
    seq![if resp.more_data { 1u8 } else { 0u8 }] + spec_tpmu_capability_bytes(resp.data.data)
}

/// What a client reading a response envelope at `at` of `s` sees: the tag,
/// the size and the return code, or nothing when the bytes are short or
/// carry a value outside its closed set. The core only encodes responses,
/// so this decoder is ghost: it states what the encoding commits to.
pub open spec fn spec_unmarshal_response_header(s: Seq<u8>, at: int) -> Option<ResponseHeader> {
    if at + RESPONSE_HDR_SIZE <= s.len() && 0 <= at {
        let tag = TpmCommandTag::spec_from_u16(spec_u16_from_be_bytes(s.subrange(at, at + 2)));
        let rc = TpmRc::spec_from_u32(spec_u32_from_be_bytes(s.subrange(at + 6, at + 10)));
        if tag is Unknown {
            None
        } else {
            match rc {
                Some(rc) => Some(
                    ResponseHeader {
                        tag,
                        size: spec_u32_from_be_bytes(s.subrange(at + 2, at + 6)),
                        rc,
                    },
                ),
                None => None,
            }
        }
    } else {
        None
    }
}

/// Round trip of the response envelope: a client that decodes what the core
/// encodes for any well-formed response header reads back that very header.
pub proof fn lemma_response_header_roundtrip(h: ResponseHeader)
    requires
        h.wf(),
    ensures
        spec_unmarshal_response_header(spec_response_header_bytes(h), 0) == Some(h),
{
    let bytes = spec_response_header_bytes(h);
    assert(bytes.subrange(0, 2) =~= spec_u16_to_be_bytes(h.tag.wire()));
    assert(bytes.subrange(2, 6) =~= spec_u32_to_be_bytes(h.size));
    assert(bytes.subrange(6, 10) =~= spec_u32_to_be_bytes(h.rc.wire()));
    lemma_u16_be_roundtrip(h.tag.wire());
    lemma_u32_be_roundtrip(h.size);
    lemma_u32_be_roundtrip(h.rc.wire());
}

} // verus!
