//! The data carried on the wire between the proxy and the sidecar.

use vstd::prelude::*;

verus! {

/// One in-flight HTTP transaction on a connection.
#[derive(Clone, Copy, Debug, PartialEq, Eq, Structural, Hash)]
pub struct RequestId {
    pub index: u32,
    pub generation: u32,
}

impl RequestId {
    /// The id as one integer: the index in the high half, the generation in
    /// the low half.
    pub open spec fn spec_key(self) -> u64 {
        (self.index as int * 0x1_0000_0000 + self.generation as int) as u64
    }

    pub fn key(&self) -> (r: u64)
        ensures
            r == self.spec_key(),
    {
        (self.index as u64) * 0x1_0000_0000u64 + (self.generation as u64)
    }
}

/// Two ids are equal exactly when their keys are.
pub proof fn lemma_request_key_injective(a: RequestId, b: RequestId)
    ensures
        a.spec_key() == b.spec_key() <==> a == b,
{
    assert(a.spec_key() == b.spec_key() ==> a == b) by (nonlinear_arith)
        requires
            a.spec_key() == (a.index as int * 0x1_0000_0000 + a.generation as int),
            b.spec_key() == (b.index as int * 0x1_0000_0000 + b.generation as int),
            a.generation < 0x1_0000_0000,
            b.generation < 0x1_0000_0000,
    ;
}

/// The protocol version chosen for a connection at handshake.
#[derive(Clone, Copy, Debug, PartialEq, Eq, Structural)]
pub enum Version {
    V1,
    V2,
    V2a,
}

impl Version {
    pub open spec fn spec_code(self) -> u32 {
        match self {
            Version::V1 => 0x01,
            Version::V2 => 0x02,
            Version::V2a => 0x2a,
        }
    }

    /// The version's numeric code on the wire.
    pub fn code(&self) -> (r: u32)
        ensures
            r == self.spec_code(),
    {
        match self {
            Version::V1 => 0x01,
            Version::V2 => 0x02,
            Version::V2a => 0x2a,
        }
    }

    /// The version with numeric code `c`, if there is one.
    pub fn from_code(c: u32) -> (r: Option<Version>)
        ensures
            r matches Some(v) ==> v.spec_code() == c,
            r is None <==> (c != 0x01 && c != 0x02 && c != 0x2a),
    {
        if c == 0x01 {
            Some(Version::V1)
        } else if c == 0x02 {
            Some(Version::V2)
        } else if c == 0x2a {
            Some(Version::V2a)
        } else {
            None
        }
    }
}

/// Result codes of host functions, mirrored on the wire and returned to the
/// module.
#[derive(Clone, Copy, Debug, PartialEq, Eq, Structural)]
pub enum ProxyStatus {
    Success,
    NotFound,
    BadArgument,
    SerializationFailure,
    ParseFailure,
    InvalidMemoryAccess,
    Empty,
    CasMismatch,
    InternalFailure,
    Unimplemented,
}

impl ProxyStatus {
    pub open spec fn spec_code(self) -> i32 {
        match self {
            ProxyStatus::Success => 0,
            ProxyStatus::NotFound => 1,
            ProxyStatus::BadArgument => 2,
            ProxyStatus::SerializationFailure => 3,
            ProxyStatus::ParseFailure => 4,
            ProxyStatus::InvalidMemoryAccess => 6,
            ProxyStatus::Empty => 7,
            ProxyStatus::CasMismatch => 8,
            ProxyStatus::InternalFailure => 10,
            ProxyStatus::Unimplemented => 12,
        }
    }

    /// The status's integer encoding.
    pub fn code(&self) -> (r: i32)
        ensures
            r == self.spec_code(),
    {
        match self {
            ProxyStatus::Success => 0,
            ProxyStatus::NotFound => 1,
            ProxyStatus::BadArgument => 2,
            ProxyStatus::SerializationFailure => 3,
            ProxyStatus::ParseFailure => 4,
            ProxyStatus::InvalidMemoryAccess => 6,
            ProxyStatus::Empty => 7,
            ProxyStatus::CasMismatch => 8,
            ProxyStatus::InternalFailure => 10,
            ProxyStatus::Unimplemented => 12,
        }
    }
}

/// Failures of host operations.
#[derive(Clone, Copy, Debug, PartialEq, Eq, Structural)]
pub enum HostError {
    InternalFailure,
    InvalidMemoryAccess,
    SerializationFailure,
    ParseFailure,
    BadArgument,
    NotFound,
    Empty,
    CasMismatch,
    Unimplemented,
    Utf8Error,
    HeaderNameError,
}

impl HostError {
    pub open spec fn spec_status(self) -> ProxyStatus {
        match self {
            HostError::InternalFailure => ProxyStatus::InternalFailure,
            HostError::InvalidMemoryAccess => ProxyStatus::InvalidMemoryAccess,
            HostError::SerializationFailure => ProxyStatus::SerializationFailure,
            HostError::ParseFailure => ProxyStatus::ParseFailure,
            HostError::BadArgument => ProxyStatus::BadArgument,
            HostError::NotFound => ProxyStatus::NotFound,
            HostError::Empty => ProxyStatus::Empty,
            HostError::CasMismatch => ProxyStatus::CasMismatch,
            HostError::Unimplemented => ProxyStatus::Unimplemented,
            HostError::Utf8Error => ProxyStatus::ParseFailure,
            HostError::HeaderNameError => ProxyStatus::BadArgument,
        }
    }

    /// The status that reports this error to the module and on the wire.
    pub fn status(&self) -> (r: ProxyStatus)
        ensures
            r == self.spec_status(),
    {
        match self {
            HostError::InternalFailure => ProxyStatus::InternalFailure,
            HostError::InvalidMemoryAccess => ProxyStatus::InvalidMemoryAccess,
            HostError::SerializationFailure => ProxyStatus::SerializationFailure,
            HostError::ParseFailure => ProxyStatus::ParseFailure,
            HostError::BadArgument => ProxyStatus::BadArgument,
            HostError::NotFound => ProxyStatus::NotFound,
            HostError::Empty => ProxyStatus::Empty,
            HostError::CasMismatch => ProxyStatus::CasMismatch,
            HostError::Unimplemented => ProxyStatus::Unimplemented,
            HostError::Utf8Error => ProxyStatus::ParseFailure,
            HostError::HeaderNameError => ProxyStatus::BadArgument,
        }
    }

    pub open spec fn spec_from_status(s: ProxyStatus) -> Option<HostError> {
        match s {
            ProxyStatus::Success => None,
            ProxyStatus::NotFound => Some(HostError::NotFound),
            ProxyStatus::BadArgument => Some(HostError::BadArgument),
            ProxyStatus::SerializationFailure => Some(HostError::SerializationFailure),
            ProxyStatus::ParseFailure => Some(HostError::ParseFailure),
            ProxyStatus::InvalidMemoryAccess => Some(HostError::InvalidMemoryAccess),
            ProxyStatus::Empty => Some(HostError::Empty),
            ProxyStatus::CasMismatch => Some(HostError::CasMismatch),
            ProxyStatus::InternalFailure => Some(HostError::InternalFailure),
            ProxyStatus::Unimplemented => Some(HostError::Unimplemented),
        }
    }

    /// The error that a non-`Ok` reply status stands for.
    pub fn from_status(s: ProxyStatus) -> (r: Option<HostError>)
        ensures
            r == Self::spec_from_status(s),
            r matches Some(e) ==> e.spec_status() == s,
    {
        match s {
            ProxyStatus::Success => None,
            ProxyStatus::NotFound => Some(HostError::NotFound),
            ProxyStatus::BadArgument => Some(HostError::BadArgument),
            ProxyStatus::SerializationFailure => Some(HostError::SerializationFailure),
            ProxyStatus::ParseFailure => Some(HostError::ParseFailure),
            ProxyStatus::InvalidMemoryAccess => Some(HostError::InvalidMemoryAccess),
            ProxyStatus::Empty => Some(HostError::Empty),
            ProxyStatus::CasMismatch => Some(HostError::CasMismatch),
            ProxyStatus::InternalFailure => Some(HostError::InternalFailure),
            ProxyStatus::Unimplemented => Some(HostError::Unimplemented),
        }
    }
}

/// The key-value maps that the ABI can name.
#[derive(Clone, Copy, Debug, PartialEq, Eq, Structural)]
pub enum MapType {
    HttpRequestHeaders,
    HttpRequestTrailers,
    HttpResponseHeaders,
    HttpResponseTrailers,
    GrpcReceiveInitialMetadata,
    GrpcReceiveTrailingMetadata,
    HttpCallResponseHeaders,
    HttpCallResponseTrailers,
}

impl MapType {
    pub open spec fn spec_from_code(c: i32) -> Option<MapType> {
        if c == 0 {
            Some(MapType::HttpRequestHeaders)
        } else if c == 1 {
            Some(MapType::HttpRequestTrailers)
        } else if c == 2 {
            Some(MapType::HttpResponseHeaders)
        } else if c == 3 {
            Some(MapType::HttpResponseTrailers)
        } else if c == 4 {
            Some(MapType::GrpcReceiveInitialMetadata)
        } else if c == 5 {
            Some(MapType::GrpcReceiveTrailingMetadata)
        } else if c == 6 {
            Some(MapType::HttpCallResponseHeaders)
        } else if c == 7 {
            Some(MapType::HttpCallResponseTrailers)
        } else {
            None
        }
    }

    /// The map type that the module names by `c`.
    pub fn from_code(c: i32) -> (r: Option<MapType>)
        ensures
            r == Self::spec_from_code(c),
    {
        if c == 0 {
            Some(MapType::HttpRequestHeaders)
        } else if c == 1 {
            Some(MapType::HttpRequestTrailers)
        } else if c == 2 {
            Some(MapType::HttpResponseHeaders)
        } else if c == 3 {
            Some(MapType::HttpResponseTrailers)
        } else if c == 4 {
            Some(MapType::GrpcReceiveInitialMetadata)
        } else if c == 5 {
            Some(MapType::GrpcReceiveTrailingMetadata)
        } else if c == 6 {
            Some(MapType::HttpCallResponseHeaders)
        } else if c == 7 {
            Some(MapType::HttpCallResponseTrailers)
        } else {
            None
        }
    }

    /// Header maps are the only maps the host serves.
    pub open spec fn spec_is_header_map(self) -> bool {
        self == MapType::HttpRequestHeaders || self == MapType::HttpResponseHeaders
    }
}

/// The buffers that the ABI can name.
#[derive(Clone, Copy, Debug, PartialEq, Eq, Structural)]
pub enum BufferType {
    HttpRequestBody,
    HttpResponseBody,
    DownstreamData,
    UpstreamData,
    HttpCallResponseBody,
    GrpcReceiveBuffer,
    VmConfiguration,
    PluginConfiguration,
}

impl BufferType {
    pub open spec fn spec_from_code(c: i32) -> Option<BufferType> {
        if c == 0 {
            Some(BufferType::HttpRequestBody)
        } else if c == 1 {
            Some(BufferType::HttpResponseBody)
        } else if c == 2 {
            Some(BufferType::DownstreamData)
        } else if c == 3 {
            Some(BufferType::UpstreamData)
        } else if c == 4 {
            Some(BufferType::HttpCallResponseBody)
        } else if c == 5 {
            Some(BufferType::GrpcReceiveBuffer)
        } else if c == 6 {
            Some(BufferType::VmConfiguration)
        } else if c == 7 {
            Some(BufferType::PluginConfiguration)
        } else {
            None
        }
    }

    /// The buffer type that the module names by `c`.
    pub fn from_code(c: i32) -> (r: Option<BufferType>)
        ensures
            r == Self::spec_from_code(c),
    {
        if c == 0 {
            Some(BufferType::HttpRequestBody)
        } else if c == 1 {
            Some(BufferType::HttpResponseBody)
        } else if c == 2 {
            Some(BufferType::DownstreamData)
        } else if c == 3 {
            Some(BufferType::UpstreamData)
        } else if c == 4 {
            Some(BufferType::HttpCallResponseBody)
        } else if c == 5 {
            Some(BufferType::GrpcReceiveBuffer)
        } else if c == 6 {
            Some(BufferType::VmConfiguration)
        } else if c == 7 {
            Some(BufferType::PluginConfiguration)
        } else {
            None
        }
    }

    /// Body buffers are the only buffers the host serves.
    pub open spec fn spec_is_body(self) -> bool {
        self == BufferType::HttpRequestBody || self == BufferType::HttpResponseBody
    }
}

/// The lifecycle callback that the proxy asks for, with its parameters.
#[derive(Clone, Copy, Debug, PartialEq, Eq, Structural)]
pub enum Handler {
    OnRequestHeaders { context_id: u32, num_headers: u32 },
    OnResponseHeaders { context_id: u32, num_headers: u32 },
    OnRequestBody { context_id: u32, body_size: u32, end_of_stream: bool },
    OnResponseBody { context_id: u32, body_size: u32, end_of_stream: bool },
    OnLog { context_id: u32 },
}

/// A host operation sent to the proxy, or the proxy's reply to one.
#[derive(Debug, PartialEq, Eq)]
pub enum HostMessage {
    Log { level: i32, message: Vec<u8> },
    GetMapPairs { map_type: MapType },
    SetMapPairs { map_type: MapType, map: Vec<u8> },
    GetMapValue { map_type: MapType, key: Vec<u8> },
    ReplaceMapValue { map_type: MapType, key: Vec<u8>, value: Vec<u8> },
    AddMapValue { map_type: MapType, key: Vec<u8>, value: Vec<u8> },
    RemoveMapValue { map_type: MapType, key: Vec<u8> },
    GetBufferBytes { buffer_type: BufferType, start: i32, max_size: i32 },
    SetBufferBytes { buffer_type: BufferType, start: i32, size: i32, value: Vec<u8> },
    GetProperty { path: Vec<u8> },
    SetProperty { path: Vec<u8>, value: Vec<u8> },
    Response { status: ProxyStatus, return_value: Vec<u8> },
}

} // verus!
