//! The `GetCapability` command handler.
//!
//! Only the `TpmProperty` capability kind is supported, and within it only
//! the manufacturer property is populated, with a placeholder value; every
//! other selection fails with `Value`. The reply never paginates: `moreData`
//! stays false in the present scope.

use vstd::prelude::*;

use crate::marshal::spec_get_capability_response_bytes;
use crate::marshal::spec_props_bytes;
use crate::marshal::spec_tagged_property_bytes;
use crate::marshal::spec_u32_to_be_bytes;
use crate::tpm::TpmInstance;
use crate::types::GetCapabilityArgs;
use crate::types::GetCapabilityResponse;
use crate::types::MAX_TPM_PROPERTIES;
use crate::types::TpmCapability;
use crate::types::TpmError;
use crate::types::TpmPt;
use crate::types::TpmRc;
use crate::types::TpmsCapabilityData;
use crate::types::TpmsTaggedProperty;
use crate::types::TpmuCapabilities;

verus! {

/// The one property entry the module can report: the manufacturer, with a
/// placeholder value.
pub open spec fn spec_manufacturer_entry() -> TpmsTaggedProperty {
    TpmsTaggedProperty { property: TpmPt::Manufacturer, val: 0 }
}

/// The capability union a manufacturer lookup yields: a one-entry property
/// list, the rest of the fixed-capacity list left at its defaults.
pub open spec fn spec_manufacturer_props(u: TpmuCapabilities) -> bool {
    &&& u matches TpmuCapabilities::TpmProps { count, properties }
    &&& count == 1
    &&& properties@[0] == spec_manufacturer_entry()
    &&& forall|i: int|
        1 <= i < MAX_TPM_PROPERTIES ==> properties@[i] == (TpmsTaggedProperty {
            property: TpmPt::Unknown,
            val: 0,
        })
}

/// The encoded manufacturer reply: no pagination, the self-describing
/// capability kind, a count of one, and the single entry.
pub open spec fn spec_manufacturer_response_bytes() -> Seq<u8> {
    seq![0u8] + spec_u32_to_be_bytes(TpmCapability::TpmProperty.wire()) + spec_u32_to_be_bytes(1)
        + spec_tagged_property_bytes(spec_manufacturer_entry())
}

/// Every reply that holds the manufacturer union and no pagination flag
/// encodes to the same fixed bytes, whatever stands in the unused tail of
/// its property list.
pub proof fn lemma_manufacturer_response_bytes(resp: GetCapabilityResponse)
    requires
        resp.more_data == false,
        spec_manufacturer_props(resp.data.data),
    ensures
        spec_get_capability_response_bytes(resp) == spec_manufacturer_response_bytes(),
{
    match resp.data.data {
        TpmuCapabilities::TpmProps { count, properties } => {
            assert(spec_props_bytes(properties@, 0) == Seq::<u8>::empty());
            assert(spec_props_bytes(properties@, 1) =~= spec_tagged_property_bytes(
                properties@[0],
            ));
            assert(spec_get_capability_response_bytes(resp)
                =~= spec_manufacturer_response_bytes());
        },
        TpmuCapabilities::Unknown => {},
    }
}

/// Looks up one property of the module. Only the manufacturer is populated;
/// any other selector fails with `Value`. The instance is read, never
/// changed.
fn get_tpm_property(tpm: &mut TpmInstance, property: TpmPt, count: u32) -> (r: Result<
    TpmuCapabilities,
    TpmError,
>)
    ensures
        *final(tpm) == *old(tpm),
        match r {
            Ok(u) => property is Manufacturer && spec_manufacturer_props(u),
            Err(e) => !(property is Manufacturer) && e.rc == TpmRc::Value,
        },
{
    let default_prop = TpmsTaggedProperty { property: TpmPt::Unknown, val: 0 };
    let mut properties: [TpmsTaggedProperty; MAX_TPM_PROPERTIES] = [default_prop; MAX_TPM_PROPERTIES];

    match property {
        TpmPt::Manufacturer => {
            properties[0] = TpmsTaggedProperty { property, val: 0x0 };
            Ok(TpmuCapabilities::TpmProps { count: 1, properties })
        },
        _ => Err(TpmError { rc: TpmRc::Value }),
    }
}

/// Answers a capability query: succeeds exactly for the supported capability
/// kind and the manufacturer property, with a one-entry reply and no
/// pagination; everything else fails with `Value`. The instance is read,
/// never changed.
pub fn tpm2_get_capability(tpm: &mut TpmInstance, args: &GetCapabilityArgs) -> (r: Result<
    GetCapabilityResponse,
    TpmError,
>)
    ensures
        *final(tpm) == *old(tpm),
        match r {
            Ok(resp) => {
                &&& args.cap is TpmProperty
                &&& args.property is Manufacturer
                &&& resp.more_data == false
                &&& resp.data.cap is TpmProperty
                &&& spec_manufacturer_props(resp.data.data)
            },
            Err(e) => {
                &&& !(args.cap is TpmProperty && args.property is Manufacturer)
                &&& e.rc == TpmRc::Value
            },
        },
{
    let data = match args.cap {
        TpmCapability::TpmProperty => {
            match get_tpm_property(tpm, args.property, args.property_count) {
                Ok(data) => data,
                Err(e) => return Err(e),
            }
        },
        _ => {
            return Err(TpmError { rc: TpmRc::Value });
        },
    };

    Ok(
        GetCapabilityResponse {
            more_data: false,
            data: TpmsCapabilityData { cap: TpmCapability::TpmProperty, data },
        },
    )
}

} // verus!
