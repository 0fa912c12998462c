//! Protocol vocabulary: the closed sets of tags, opcodes, return codes and
//! per-command enumerations, with their wire values, plus the command and
//! response envelopes.
//!
//! Every enumeration that is decoded from the wire carries an explicit
//! `Unknown` sentinel; a wire value outside the known set always maps to it,
//! never to an arbitrary real variant, and encoding the sentinel is always an
//! error path.

use vstd::prelude::*;

verus! {

/// Byte length of a command envelope: tag (2) + size (4) + opcode (4).
pub const COMMAND_HDR_SIZE: usize = 2 + 4 + 4;

/// Byte length of a response envelope: tag (2) + size (4) + return code (4).
pub const RESPONSE_HDR_SIZE: usize = 2 + 4 + 4;

/// Largest message a transport is expected to carry to or from the core.
pub const MAX_MSG_SIZE: usize = 4096;

/// Capacity of the fixed property list inside a capability union.
pub const MAX_TPM_PROPERTIES: usize = 8;

/// The error type of every fallible operation of the core: a single return
/// code, the one that the eventual response will carry.
#[derive(Clone, Copy, Debug, PartialEq, Eq, Structural)]
pub struct TpmError {
    pub rc: TpmRc,
}

/// Outcome code of a request, embedded in every response.
#[derive(Clone, Copy, Debug, PartialEq, Eq, Structural)]
pub enum TpmRc {
    /// The command was executed and the response payload is valid.
    Success,
    /// The session tag of the request was not recognized.
    BadTag,
    /// A buffer was too short to decode from or encode into.
    Insufficient,
    /// Reserved initialization failure; no path of the core raises it yet.
    Initialize,
    /// The opcode was not recognized or is not implemented.
    CommandCode,
    /// An argument was semantically invalid, e.g. an unsupported capability.
    Value,
}

impl TpmRc {
    /// Wire value of the return code, as a response encodes it.
    pub open spec fn wire(self) -> u32 {
        match self {
            TpmRc::Success => 0x0,
            TpmRc::BadTag => 0x1E,
            TpmRc::Insufficient => 0x9A,
            TpmRc::Initialize => 0x100,
            TpmRc::CommandCode => 0x143,
            TpmRc::Value => 0x084,
        }
    }

    /// The return code a given wire value stands for, if any. Responses are
    /// encoded, never decoded, by the core, so this mapping is ghost: it
    /// states that distinct return codes have distinct wire values.
    pub open spec fn spec_from_u32(n: u32) -> Option<TpmRc> {
        if n == 0x0 {
            Some(TpmRc::Success)
        } else if n == 0x1E {
            Some(TpmRc::BadTag)
        } else if n == 0x9A {
            Some(TpmRc::Insufficient)
        } else if n == 0x100 {
            Some(TpmRc::Initialize)
        } else if n == 0x143 {
            Some(TpmRc::CommandCode)
        } else if n == 0x084 {
            Some(TpmRc::Value)
        } else {
            None
        }
    }

    /// Wire value of the return code.
    pub fn wire_value(&self) -> (n: u32)
        ensures
            n == self.wire(),
    {
        match self {
            TpmRc::Success => 0x0,
            TpmRc::BadTag => 0x1E,
            TpmRc::Insufficient => 0x9A,
            TpmRc::Initialize => 0x100,
            TpmRc::CommandCode => 0x143,
            TpmRc::Value => 0x084,
        }
    }
}

impl Default for TpmRc {
    fn default() -> (rc: Self)
        ensures
            rc == TpmRc::Success,
    {
        TpmRc::Success
    }
}

/// Operation selector of a command.
#[derive(Clone, Copy, Debug, PartialEq, Eq, Structural)]
pub enum TpmCommandCode {
    Startup,
    GetCapability,
    /// Sentinel for a wire value outside the known opcode set.
    Unknown,
}

impl TpmCommandCode {
    /// Total mapping from a wire value to an opcode; everything outside the
    /// known set maps to `Unknown`.
    pub open spec fn spec_from_u32(n: u32) -> TpmCommandCode {
        if n == 0x144 {
            TpmCommandCode::Startup
        } else if n == 0x17a {
            TpmCommandCode::GetCapability
        } else {
            TpmCommandCode::Unknown
        }
    }

    /// Wire value of a recognized opcode.
    pub open spec fn wire(self) -> u32
        recommends
            !(self is Unknown),
    {
        match self {
            TpmCommandCode::Startup => 0x144,
            TpmCommandCode::GetCapability => 0x17a,
            TpmCommandCode::Unknown => 0x0,
        }
    }

    /// Wire value of a recognized opcode; the sentinel has none.
    pub fn wire_value(&self) -> (n: u32)
        requires
            !(self is Unknown),
        ensures
            n == self.wire(),
    {
        match self {
            TpmCommandCode::Startup => 0x144,
            TpmCommandCode::GetCapability => 0x17a,
            TpmCommandCode::Unknown => 0x0,
        }
    }
}

/// Exhaustiveness of opcode decoding: every wire value outside the known
/// opcode set maps to the sentinel, never to a real opcode, so validation
/// cannot be bypassed by an unlisted value.
pub proof fn lemma_command_code_exhaustive(n: u32)
    requires
        n != 0x144,
        n != 0x17a,
    ensures
        TpmCommandCode::spec_from_u32(n) is Unknown,
{
}

impl From<u32> for TpmCommandCode {
    fn from(n: u32) -> (cc: TpmCommandCode)
        ensures
            cc == TpmCommandCode::spec_from_u32(n),
    {
        if n == 0x144 {
            TpmCommandCode::Startup
        } else if n == 0x17a {
            TpmCommandCode::GetCapability
        } else {
            TpmCommandCode::Unknown
        }
    }
}

impl vstd::std_specs::convert::FromSpecImpl<u32> for TpmCommandCode {
    open spec fn obeys_from_spec() -> bool {
        true
    }

    open spec fn from_spec(n: u32) -> TpmCommandCode {
        TpmCommandCode::spec_from_u32(n)
    }
}

impl Default for TpmCommandCode {
    fn default() -> (cc: Self)
        ensures
            cc == TpmCommandCode::Unknown,
    {
        TpmCommandCode::Unknown
    }
}

/// Session-mode indicator of a command or response, independent of the opcode.
#[derive(Clone, Copy, Debug, PartialEq, Eq, Structural)]
pub enum TpmCommandTag {
    NoSessions,
    Sessions,
    /// Sentinel for a wire value outside the known tag set.
    Unknown,
}

impl TpmCommandTag {
    /// Total mapping from a wire value to a tag; everything outside the known
    /// set maps to `Unknown`.
    pub open spec fn spec_from_u16(n: u16) -> TpmCommandTag {
        if n == 0x8001 {
            TpmCommandTag::NoSessions
        } else if n == 0x8002 {
            TpmCommandTag::Sessions
        } else {
            TpmCommandTag::Unknown
        }
    }

    /// Wire value of a recognized tag.
    pub open spec fn wire(self) -> u16
        recommends
            !(self is Unknown),
    {
        match self {
            TpmCommandTag::NoSessions => 0x8001,
            TpmCommandTag::Sessions => 0x8002,
            TpmCommandTag::Unknown => 0x0,
        }
    }

    /// Wire value of a recognized tag; the sentinel has none.
    pub fn wire_value(&self) -> (n: u16)
        requires
            !(self is Unknown),
        ensures
            n == self.wire(),
    {
        match self {
            TpmCommandTag::NoSessions => 0x8001,
            TpmCommandTag::Sessions => 0x8002,
            TpmCommandTag::Unknown => 0x0,
        }
    }
}

impl From<u16> for TpmCommandTag {
    fn from(n: u16) -> (tag: TpmCommandTag)
        ensures
            tag == TpmCommandTag::spec_from_u16(n),
    {
        if n == 0x8001 {
            TpmCommandTag::NoSessions
        } else if n == 0x8002 {
            TpmCommandTag::Sessions
        } else {
            TpmCommandTag::Unknown
        }
    }
}

impl vstd::std_specs::convert::FromSpecImpl<u16> for TpmCommandTag {
    open spec fn obeys_from_spec() -> bool {
        true
    }

    open spec fn from_spec(n: u16) -> TpmCommandTag {
        TpmCommandTag::spec_from_u16(n)
    }
}

impl Default for TpmCommandTag {
    fn default() -> (tag: Self)
        ensures
            tag == TpmCommandTag::Unknown,
    {
        TpmCommandTag::Unknown
    }
}

/// Kind of startup a `Startup` command requests.
#[derive(Clone, Copy, Debug, PartialEq, Eq, Structural)]
pub enum StartupType {
    Clear,
    State,
    /// Sentinel for a wire value outside the known set.
    Unknown,
}

impl StartupType {
    /// Total mapping from a wire value to a startup type; everything outside
    /// the known set maps to `Unknown`.
    pub open spec fn spec_from_u16(n: u16) -> StartupType {
        if n == 0x0 {
            StartupType::Clear
        } else if n == 0x1 {
            StartupType::State
        } else {
            StartupType::Unknown
        }
    }
}

impl From<u16> for StartupType {
    fn from(n: u16) -> (su: StartupType)
        ensures
            su == StartupType::spec_from_u16(n),
    {
        if n == 0x0 {
            StartupType::Clear
        } else if n == 0x1 {
            StartupType::State
        } else {
            StartupType::Unknown
        }
    }
}

impl vstd::std_specs::convert::FromSpecImpl<u16> for StartupType {
    open spec fn obeys_from_spec() -> bool {
        true
    }

    open spec fn from_spec(n: u16) -> StartupType {
        StartupType::spec_from_u16(n)
    }
}

impl Default for StartupType {
    fn default() -> (su: Self)
        ensures
            su == StartupType::Unknown,
    {
        StartupType::Unknown
    }
}

/// Envelope of an inbound request: `[tag: u16][size: u32][opcode: u32]`.
/// `size` is the total byte length of the command, header included.
#[derive(Clone, Copy, Debug, PartialEq, Eq, Structural)]
pub struct CommandHeader {
    pub tag: TpmCommandTag,
    pub size: u32,
    pub command_code: TpmCommandCode,
}

impl CommandHeader {
    /// A decoded header never carries a sentinel: the typed decoders reject
    /// unrecognized tags and opcodes.
    pub open spec fn wf(self) -> bool {
        &&& !(self.tag is Unknown)
        &&& !(self.command_code is Unknown)
    }
}

/// Envelope of a response: `[tag: u16][size: u32][return code: u32]`.
/// `size` is the header size plus the payload size, so it is at least
/// `RESPONSE_HDR_SIZE` on the wire.
#[derive(Clone, Copy, Debug, PartialEq, Eq, Structural)]
pub struct ResponseHeader {
    pub tag: TpmCommandTag,
    pub size: u32,
    pub rc: TpmRc,
}

impl ResponseHeader {
    /// A response header is encodable exactly when its tag is recognized.
    pub open spec fn wf(self) -> bool {
        !(self.tag is Unknown)
    }
}

/// A queryable category of module properties, selected by `GetCapability`.
#[derive(Clone, Copy, Debug, PartialEq, Eq, Structural)]
pub enum TpmCapability {
    TpmProperty,
    /// Sentinel for a wire value outside the known set.
    Unknown,
}

impl TpmCapability {
    /// Total mapping from a wire value to a capability kind; everything
    /// outside the known set maps to `Unknown`.
    pub open spec fn spec_from_u32(n: u32) -> TpmCapability {
        if n == 0x6 {
            TpmCapability::TpmProperty
        } else {
            TpmCapability::Unknown
        }
    }

    /// Wire value of a recognized capability kind.
    pub open spec fn wire(self) -> u32
        recommends
            !(self is Unknown),
    {
        match self {
            TpmCapability::TpmProperty => 0x6,
            TpmCapability::Unknown => 0x0,
        }
    }

    /// Wire value of a recognized capability kind; the sentinel has none.
    pub fn wire_value(&self) -> (n: u32)
        requires
            !(self is Unknown),
        ensures
            n == self.wire(),
    {
        match self {
            TpmCapability::TpmProperty => 0x6,
            TpmCapability::Unknown => 0x0,
        }
    }
}

impl From<u32> for TpmCapability {
    fn from(n: u32) -> (cap: TpmCapability)
        ensures
            cap == TpmCapability::spec_from_u32(n),
    {
        if n == 0x6 {
            TpmCapability::TpmProperty
        } else {
            TpmCapability::Unknown
        }
    }
}

impl vstd::std_specs::convert::FromSpecImpl<u32> for TpmCapability {
    open spec fn obeys_from_spec() -> bool {
        true
    }

    open spec fn from_spec(n: u32) -> TpmCapability {
        TpmCapability::spec_from_u32(n)
    }
}

impl Default for TpmCapability {
    fn default() -> (cap: Self)
        ensures
            cap == TpmCapability::Unknown,
    {
        TpmCapability::Unknown
    }
}

/// A specific named value within a capability category.
#[derive(Clone, Copy, Debug, PartialEq, Eq, Structural)]
pub enum TpmPt {
    Manufacturer,
    /// Sentinel for a wire value outside the known set.
    Unknown,
}

impl TpmPt {
    /// Total mapping from a wire value to a property selector; everything
    /// outside the known set maps to `Unknown`.
    pub open spec fn spec_from_u32(n: u32) -> TpmPt {
        if n == 0x105 {
            TpmPt::Manufacturer
        } else {
            TpmPt::Unknown
        }
    }

    /// Wire value of a recognized property selector.
    pub open spec fn wire(self) -> u32
        recommends
            !(self is Unknown),
    {
        match self {
            TpmPt::Manufacturer => 0x105,
            TpmPt::Unknown => 0x0,
        }
    }

    /// Wire value of a recognized property selector; the sentinel has none.
    pub fn wire_value(&self) -> (n: u32)
        requires
            !(self is Unknown),
        ensures
            n == self.wire(),
    {
        match self {
            TpmPt::Manufacturer => 0x105,
            TpmPt::Unknown => 0x0,
        }
    }
}

impl From<u32> for TpmPt {
    fn from(n: u32) -> (pt: TpmPt)
        ensures
            pt == TpmPt::spec_from_u32(n),
    {
        if n == 0x105 {
            TpmPt::Manufacturer
        } else {
            TpmPt::Unknown
        }
    }
}

impl vstd::std_specs::convert::FromSpecImpl<u32> for TpmPt {
    open spec fn obeys_from_spec() -> bool {
        true
    }

    open spec fn from_spec(n: u32) -> TpmPt {
        TpmPt::spec_from_u32(n)
    }
}

impl Default for TpmPt {
    fn default() -> (pt: Self)
        ensures
            pt == TpmPt::Unknown,
    {
        TpmPt::Unknown
    }
}

/// One property entry of a capability reply: `[property: u32][value: u32]`.
#[derive(Clone, Copy, Debug, PartialEq, Eq, Structural)]
pub struct TpmsTaggedProperty {
    pub property: TpmPt,
    pub val: u32,
}

impl Default for TpmsTaggedProperty {
    fn default() -> (p: Self)
        ensures
            p == (TpmsTaggedProperty { property: TpmPt::Unknown, val: 0 }),
    {
        TpmsTaggedProperty { property: TpmPt::Unknown, val: 0 }
    }
}

/// Tagged union over capability kinds. The sole implemented kind holds an
/// element count plus a fixed-capacity property list; only the first `count`
/// entries are meaningful, and only they are ever encoded.
#[derive(Clone, Copy, Debug, PartialEq, Eq)]
pub enum TpmuCapabilities {
    TpmProps { count: u32, properties: [TpmsTaggedProperty; MAX_TPM_PROPERTIES] },
    /// Sentinel for an unrecognized capability kind; encoding it is an error.
    Unknown,
}

impl TpmuCapabilities {
    /// The count of a property list never exceeds the list's fixed capacity.
    pub open spec fn wf(self) -> bool {
        match self {
            TpmuCapabilities::TpmProps { count, properties } => count <= MAX_TPM_PROPERTIES,
            TpmuCapabilities::Unknown => true,
        }
    }
}

impl Default for TpmuCapabilities {
    fn default() -> (data: Self)
        ensures
            data == TpmuCapabilities::Unknown,
    {
        TpmuCapabilities::Unknown
    }
}

/// A capability kind together with its data, as `GetCapability` replies.
#[derive(Clone, Copy, Debug, PartialEq, Eq)]
pub struct TpmsCapabilityData {
    pub cap: TpmCapability,
    pub data: TpmuCapabilities,
}

impl Default for TpmsCapabilityData {
    fn default() -> (data: Self)
        ensures
            data == (TpmsCapabilityData {
                cap: TpmCapability::Unknown,
                data: TpmuCapabilities::Unknown,
            }),
    {
        TpmsCapabilityData { cap: TpmCapability::Unknown, data: TpmuCapabilities::Unknown }
    }
}

/// Decoded argument of the `Startup` command: `[startupType: u16]`.
#[derive(Clone, Copy, Debug, PartialEq, Eq, Structural)]
pub struct StartupArgs {
    pub su_type: StartupType,
}

impl Default for StartupArgs {
    fn default() -> (args: Self)
        ensures
            args == (StartupArgs { su_type: StartupType::Unknown }),
    {
        StartupArgs { su_type: StartupType::Unknown }
    }
}

/// Decoded arguments of the `GetCapability` command:
/// `[capability: u32][property: u32][propertyCount: u32]`.
#[derive(Clone, Copy, Debug, PartialEq, Eq, Structural)]
pub struct GetCapabilityArgs {
    pub cap: TpmCapability,
    pub property: TpmPt,
    pub property_count: u32,
}

impl Default for GetCapabilityArgs {
    fn default() -> (args: Self)
        ensures
            args == (GetCapabilityArgs {
                cap: TpmCapability::Unknown,
                property: TpmPt::Unknown,
                property_count: 0,
            }),
    {
        GetCapabilityArgs { cap: TpmCapability::Unknown, property: TpmPt::Unknown, property_count: 0 }
    }
}

/// Typed reply of the `GetCapability` command:
/// `[moreData: u8][capability data]`.
#[derive(Clone, Copy, Debug, PartialEq, Eq)]
pub struct GetCapabilityResponse {
    pub more_data: bool,
    pub data: TpmsCapabilityData,
}

impl Default for GetCapabilityResponse {
    fn default() -> (resp: Self)
        ensures
            resp == (GetCapabilityResponse {
                more_data: false,
                data: TpmsCapabilityData {
                    cap: TpmCapability::Unknown,
                    data: TpmuCapabilities::Unknown,
                },
            }),
    {
        GetCapabilityResponse {
            more_data: false,
            data: TpmsCapabilityData { cap: TpmCapability::Unknown, data: TpmuCapabilities::Unknown },
        }
    }
}

} // verus!
