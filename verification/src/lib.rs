//! Command-processing core of a TPM emulator.
//!
//! The library decodes a binary command buffer against the TPM wire format,
//! dispatches it to the handler selected by its opcode, and encodes a binary
//! response. All integers on the wire are big-endian and unsigned. Every
//! failure a request can provoke resolves to exactly one return code, and
//! the caller always receives a well-formed response carrying it; only a
//! response buffer smaller than a response header — a violation of the
//! transport's contract — is outside the bargain, and `execute_command`
//! excludes it by precondition.

use vstd::prelude::*;

pub mod get_capability;
pub mod marshal;
pub mod platform;
pub mod startup;
pub mod tpm;
pub mod types;

use crate::marshal::marshal_response_header;
use crate::marshal::spec_response_header_bytes;
use crate::marshal::spec_u16_from_be_bytes;
use crate::marshal::spec_u32_from_be_bytes;
use crate::marshal::spec_unmarshal_command_header;
use crate::marshal::spec_unmarshal_startup_args;
use crate::marshal::unmarshal_command_header;
use crate::tpm::spec_dispatch_outcome;
use crate::tpm::spec_dispatch_started;
use crate::tpm::TpmInstance;
use crate::types::COMMAND_HDR_SIZE;
use crate::types::RESPONSE_HDR_SIZE;
use crate::types::ResponseHeader;
use crate::types::TpmCommandCode;
use crate::types::TpmCommandTag;
use crate::types::TpmRc;
use vstd::slice::slice_subrange;

verus! {

/// What a whole request leaves in the started flag: the dispatcher runs, and
/// can mark the instance started, only when the command envelope decodes.
pub open spec fn spec_execute_started(started_old: bool, request: Seq<u8>) -> bool {
    match spec_unmarshal_command_header(request, 0) {
        Ok(hdr) => spec_dispatch_started(started_old, hdr, request.skip(COMMAND_HDR_SIZE as int)),
        Err(_) => started_old,
    }
}

/// The response a whole request earns: its envelope and its payload bytes.
/// A request whose envelope does not decode earns a response under the
/// default tag with no payload and the failure's return code; a decoded
/// request echoes its own tag, and carries either the dispatcher's payload
/// under `Success` or no payload under the propagated return code. The
/// response's `size` field counts the envelope plus the payload.
pub open spec fn spec_execute_response(request: Seq<u8>, resp_len: int) -> (ResponseHeader, Seq<
    u8,
>) {
    match spec_unmarshal_command_header(request, 0) {
        Err(rc) => (
            ResponseHeader {
                tag: TpmCommandTag::NoSessions,
                size: RESPONSE_HDR_SIZE as u32,
                rc,
            },
            Seq::empty(),
        ),
        Ok(hdr) => match spec_dispatch_outcome(
            hdr,
            request.skip(COMMAND_HDR_SIZE as int),
            resp_len,
            RESPONSE_HDR_SIZE as int,
        ) {
            Ok(payload) => (
                ResponseHeader {
                    tag: hdr.tag,
                    size: (RESPONSE_HDR_SIZE + payload.len()) as u32,
                    rc: TpmRc::Success,
                },
                payload,
            ),
            Err(rc) => (
                ResponseHeader { tag: hdr.tag, size: RESPONSE_HDR_SIZE as u32, rc },
                Seq::empty(),
            ),
        },
    }
}

/// The core's one entry point: decodes the request envelope, dispatches the
/// command, and encodes the response envelope and payload into `response`,
/// returning the response's total byte length, always at least a header.
/// The transport must supply a response buffer that holds at least a
/// response header; within that bargain no failure is fatal, and every
/// failure comes back as the return code of a well-formed response.
pub fn execute_command(tpm: &mut TpmInstance, request: &[u8], response: &mut [u8]) -> (n: usize)
    requires
        old(response)@.len() >= RESPONSE_HDR_SIZE,
    ensures
        final(tpm).platform == old(tpm).platform,
        final(tpm).started == spec_execute_started(old(tpm).started, request@),
        final(response)@.len() == old(response)@.len(),
        ({
            let (rh, payload) = spec_execute_response(request@, old(response)@.len() as int);
            &&& n == RESPONSE_HDR_SIZE + payload.len()
            &&& n <= final(response)@.len()
            &&& final(response)@.subrange(0, RESPONSE_HDR_SIZE as int)
                == spec_response_header_bytes(rh)
            &&& final(response)@.subrange(RESPONSE_HDR_SIZE as int, n as int) == payload
            &&& forall|i: int|
                n <= i < final(response)@.len() ==> final(response)@[i] == old(response)@[i]
        }),
{
    let mut offset: usize = 0;

    let command_hdr = match unmarshal_command_header(request, &mut offset) {
        Ok(header) => header,
        Err(e) => {
            let response_hdr = ResponseHeader {
                tag: TpmCommandTag::NoSessions,
                size: RESPONSE_HDR_SIZE as u32,
                rc: e.rc,
            };
            match marshal_response_header(response, 0, &response_hdr) {
                Ok(_) => {},
                Err(_) => {
                    proof {
                        assert(false);
                    }
                },
            }
            proof {
                assert(response@.subrange(RESPONSE_HDR_SIZE as int, RESPONSE_HDR_SIZE as int)
                    =~= Seq::<u8>::empty());
            }
            return RESPONSE_HDR_SIZE;
        },
    };

    let params = slice_subrange(request, COMMAND_HDR_SIZE, request.len());
    proof {
        assert(params@ =~= request@.skip(COMMAND_HDR_SIZE as int));
    }

    let (payload_size, response_hdr) = match tpm.dispatch_command(
        &command_hdr,
        params,
        response,
        RESPONSE_HDR_SIZE,
    ) {
        Ok(size) => (
            size,
            ResponseHeader {
                tag: command_hdr.tag,
                size: (RESPONSE_HDR_SIZE + size) as u32,
                rc: TpmRc::Success,
            },
        ),
        Err(e) => (
            0usize,
            ResponseHeader { tag: command_hdr.tag, size: RESPONSE_HDR_SIZE as u32, rc: e.rc },
        ),
    };
    let ghost resp1 = response@;

    match marshal_response_header(response, 0, &response_hdr) {
        Ok(_) => {},
        Err(_) => {
            proof {
                assert(false);
            }
        },
    }

    proof {
        assert(response@.subrange(RESPONSE_HDR_SIZE as int, RESPONSE_HDR_SIZE + payload_size)
            =~= resp1.subrange(RESPONSE_HDR_SIZE as int, RESPONSE_HDR_SIZE + payload_size));
    }
    RESPONSE_HDR_SIZE + payload_size
}

/// An unsupported capability: a request that decodes to `GetCapability` and
/// whose capability field holds any wire value but the supported one earns a
/// `Value` response with no payload.
pub proof fn lemma_unsupported_capability(request: Seq<u8>, resp_len: int)
    requires
        spec_unmarshal_command_header(request, 0) matches Ok(hdr) && hdr.command_code
            is GetCapability,
        request.len() >= COMMAND_HDR_SIZE + 4,
        spec_u32_from_be_bytes(request.subrange(COMMAND_HDR_SIZE as int, COMMAND_HDR_SIZE + 4))
            != 0x6,
    ensures
        ({
            let (rh, payload) = spec_execute_response(request, resp_len);
            &&& rh.rc == TpmRc::Value
            &&& rh.size == RESPONSE_HDR_SIZE
            &&& payload.len() == 0
        }),
{
    let params = request.skip(COMMAND_HDR_SIZE as int);
    assert(params.subrange(0, 4) =~= request.subrange(
        COMMAND_HDR_SIZE as int,
        COMMAND_HDR_SIZE + 4,
    ));
}

/// A malformed header: a request shorter than a command envelope earns a
/// response under the default tag with no payload, failing with
/// `Insufficient` when the bytes run out first or with `BadTag` when the tag
/// field is present but unrecognized.
pub proof fn lemma_short_request(request: Seq<u8>, resp_len: int)
    requires
        request.len() < COMMAND_HDR_SIZE,
    ensures
        ({
            let (rh, payload) = spec_execute_response(request, resp_len);
            &&& rh.tag == TpmCommandTag::NoSessions
            &&& rh.size == RESPONSE_HDR_SIZE
            &&& payload.len() == 0
            &&& rh.rc == TpmRc::Insufficient || rh.rc == TpmRc::BadTag
        }),
{
}

/// An unknown opcode: a request long enough for an envelope, under a
/// recognized tag, whose opcode field is outside the known set earns a
/// `CommandCode` response with no payload; no handler runs.
pub proof fn lemma_unknown_opcode(request: Seq<u8>, resp_len: int)
    requires
        request.len() >= COMMAND_HDR_SIZE,
        !(TpmCommandTag::spec_from_u16(spec_u16_from_be_bytes(request.subrange(0, 2))) is Unknown),
        TpmCommandCode::spec_from_u32(spec_u32_from_be_bytes(request.subrange(6, 10))) is Unknown,
    ensures
        ({
            let (rh, payload) = spec_execute_response(request, resp_len);
            &&& rh.rc == TpmRc::CommandCode
            &&& rh.tag == TpmCommandTag::NoSessions
            &&& rh.size == RESPONSE_HDR_SIZE
            &&& payload.len() == 0
        }),
{
}

/// `Startup` marks the instance started: any request whose envelope decodes
/// to the `Startup` opcode and whose argument decodes — a `Clear` or `State`
/// startup type — leaves the started flag set, whatever the flag held before
/// and whatever return code the stubbed handler reports.
pub proof fn lemma_startup_marks_started(started_old: bool, request: Seq<u8>)
    requires
        spec_unmarshal_command_header(request, 0) matches Ok(hdr) && hdr.command_code is Startup,
        spec_unmarshal_startup_args(request.skip(COMMAND_HDR_SIZE as int), 0) is Ok,
    ensures
        spec_execute_started(started_old, request) == true,
{
}


} // verus!
