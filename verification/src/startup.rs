//! The `Startup` command handler.

use vstd::prelude::*;

use crate::tpm::TpmInstance;
use crate::types::StartupArgs;
use crate::types::TpmError;
use crate::types::TpmRc;

verus! {

/// Marks the instance started, whatever the startup type asks for. The
/// success and already-started semantics are an unresolved extension point:
/// in the present scope the handler always reports a `CommandCode` failure
/// after the mutation, and callers must not rely on anything beyond that.
pub fn tpm2_startup(tpm: &mut TpmInstance, args: &StartupArgs) -> (r: Result<(), TpmError>)
    ensures
        final(tpm).started == true,
        final(tpm).platform == old(tpm).platform,
        r == Err::<(), TpmError>(TpmError { rc: TpmRc::CommandCode }),
{
    tpm.started = true;
    Err(TpmError { rc: TpmRc::CommandCode })
}

} // verus!
