//! The module instance and its command dispatcher.

use vstd::prelude::*;

use crate::get_capability::lemma_manufacturer_response_bytes;
use crate::get_capability::spec_manufacturer_response_bytes;
use crate::get_capability::tpm2_get_capability;
use crate::marshal::marshal_get_capability_response;
use crate::marshal::seq_spliced;
use crate::marshal::spec_unmarshal_get_capability_args;
use crate::marshal::spec_unmarshal_startup_args;
use crate::marshal::unmarshal_get_capability_args;
use crate::marshal::unmarshal_startup_args;
use crate::platform::TpmPlatform;
use crate::startup::tpm2_startup;
use crate::types::CommandHeader;
use crate::types::TpmCommandCode;
use crate::types::TpmError;
use crate::types::TpmRc;

verus! {

/// The single mutable record of module lifecycle, owned by the dispatcher's
/// caller and passed by exclusive reference into every dispatch.
pub struct TpmInstance {
    /// Whether a `Startup` command has reached this instance.
    pub started: bool,
    /// The environment hooks the instance was constructed with.
    pub platform: TpmPlatform,
}

impl Default for TpmInstance {
    fn default() -> (tpm: TpmInstance)
        ensures
            tpm.started == false,
            tpm.platform == (TpmPlatform {  }),
    {
        TpmInstance { started: false, platform: TpmPlatform {  } }
    }
}

/// What the dispatcher leaves in the started flag: `Startup` marks the
/// instance started exactly when its argument decodes; nothing else touches
/// the flag.
pub open spec fn spec_dispatch_started(started_old: bool, cmd: CommandHeader, params: Seq<u8>) -> bool {
    started_old || (cmd.command_code is Startup && spec_unmarshal_startup_args(params, 0) is Ok)
}

/// What the dispatcher returns: the response payload bytes it writes, or the
/// return code of the first failure. `Startup` decodes its argument and, in
/// the present scope, always reports `CommandCode` after mutating the
/// instance; `GetCapability` decodes its arguments — the typed decoders admit
/// only the supported capability and property — and encodes the one-entry
/// manufacturer reply; an unrecognized opcode fails with `CommandCode`.
pub open spec fn spec_dispatch_outcome(
    cmd: CommandHeader,
    params: Seq<u8>,
    resp_len: int,
    at: int,
) -> Result<Seq<u8>, TpmRc> {
    match cmd.command_code {
        TpmCommandCode::Startup => match spec_unmarshal_startup_args(params, 0) {
            Ok(_) => Err(TpmRc::CommandCode),
            Err(rc) => Err(rc),
        },
        TpmCommandCode::GetCapability => match spec_unmarshal_get_capability_args(params, 0) {
            Ok(_) => {
                let payload = spec_manufacturer_response_bytes();
                if at + payload.len() <= resp_len {
                    Ok(payload)
                } else {
                    Err(TpmRc::Insufficient)
                }
            },
            Err(rc) => Err(rc),
        },
        TpmCommandCode::Unknown => Err(TpmRc::CommandCode),
    }
}

impl TpmInstance {
    /// A fresh, not yet started instance on the given platform.
    pub fn new(platform: &TpmPlatform) -> (tpm: TpmInstance)
        ensures
            tpm.started == false,
            tpm.platform == *platform,
    {
        TpmInstance { started: false, platform: *platform }
    }

    /// Hands a message to the platform's logging sink. The core cannot hold a
    /// caller-supplied function value, so the message is discarded here and a
    /// transport that wants output logs around its calls into the core.
    pub fn log(&self, msg: &str) {
        crate::platform::default_log(msg);
    }

    /// Selects the handler for the decoded header's opcode, hands it the
    /// parameter bytes, and writes the handler's encoded reply into
    /// `response_buffer` at `offset`, returning the payload byte count.
    /// The first failure is propagated as its return code, and a failing
    /// dispatch writes nothing.
    pub fn dispatch_command(
        &mut self,
        command: &CommandHeader,
        param_buffer: &[u8],
        response_buffer: &mut [u8],
        offset: usize,
    ) -> (r: Result<usize, TpmError>)
        ensures
            final(self).platform == old(self).platform,
            final(self).started == spec_dispatch_started(
                old(self).started,
                *command,
                param_buffer@,
            ),
            final(response_buffer)@.len() == old(response_buffer)@.len(),
            match r {
                Ok(n) => {
                    &&& spec_dispatch_outcome(
                        *command,
                        param_buffer@,
                        old(response_buffer)@.len() as int,
                        offset as int,
                    ) == Ok::<_, TpmRc>(
                        final(response_buffer)@.subrange(offset as int, offset + n),
                    )
                    &&& offset + n <= old(response_buffer)@.len()
                    &&& seq_spliced(
                        old(response_buffer)@,
                        final(response_buffer)@,
                        offset as int,
                        final(response_buffer)@.subrange(offset as int, offset + n),
                    )
                },
                Err(e) => {
                    &&& spec_dispatch_outcome(
                        *command,
                        param_buffer@,
                        old(response_buffer)@.len() as int,
                        offset as int,
                    ) == Err::<Seq<u8>, _>(e.rc)
                    &&& final(response_buffer)@ == old(response_buffer)@
                },
            },
    {
        let mut param_offset: usize = 0;
        match command.command_code {
            TpmCommandCode::Startup => {
                let args = match unmarshal_startup_args(param_buffer, &mut param_offset) {
                    Ok(args) => args,
                    Err(e) => return Err(e),
                };
                match tpm2_startup(self, &args) {
                    Ok(_) => Ok(0),
                    Err(e) => Err(e),
                }
            },
            TpmCommandCode::GetCapability => {
                let args = match unmarshal_get_capability_args(param_buffer, &mut param_offset) {
                    Ok(args) => args,
                    Err(e) => return Err(e),
                };

                let response = match tpm2_get_capability(self, &args) {
                    Ok(response) => response,
                    Err(e) => return Err(e),
                };
                proof {
                    lemma_manufacturer_response_bytes(response);
                }

                let size = match marshal_get_capability_response(response_buffer, offset, &response) {
                    Ok(size) => size,
                    Err(e) => return Err(e),
                };

                Ok(size)
            },
            TpmCommandCode::Unknown => Err(TpmError { rc: TpmRc::CommandCode }),
        }
    }
}

} // verus!
