//! The decisions of a request's channel to the proxy: which calls the
//! request data answers, what a command changes in it, and whether a
//! command waits for the proxy's reply.

use vstd::prelude::*;
use crate::additional::{
    apply_command, deserialize_map_pairs, fast_reply, first_value, flatten, map_pairs_bytes, request_headers_edit, without, AdditionalInfo, FastPath,
};
use crate::list::fits_list;
use crate::wire::{HostMessage, MapType, RequestId, Version};

verus! {

/// How a command goes to the proxy.
#[derive(Clone, Copy, Debug, PartialEq, Eq, Structural)]
pub enum CommandRoute {
    /// Sent without waiting for an answer.
    Send,
    /// Sent as a call whose answer is awaited, and then dropped: the
    /// strictly serial version works this way.
    SendAndAwait,
}

/// A request's channel to the proxy.
pub struct ProxyWasmHost {
    pub version: Version,
    pub request_id: RequestId,
    pub additional_info: Option<AdditionalInfo>,
}

impl ProxyWasmHost {
    /// The request data, if the proxy attached any.
    pub open spec fn info(&self) -> Option<AdditionalInfo> {
        self.additional_info
    }

    pub fn new(version: Version, request_id: RequestId, additional_info: Option<AdditionalInfo>) -> (r:
        ProxyWasmHost)
        ensures
            r.version == version,
            r.request_id == request_id,
            r.info() == additional_info,
    {
        ProxyWasmHost { version, request_id, additional_info }
    }

    /// Answers a call from the request data where it can; without request
    /// data every call goes to the proxy.
    pub fn local_reply(&self, message: &HostMessage) -> (r: FastPath)
        ensures
            self.info() is None ==> r is AskProxy,
            self.info() matches Some(info) ==> {
                &&& message matches HostMessage::GetMapPairs { map_type } ==> (map_type
                    == MapType::HttpRequestHeaders && fits_list(flatten(info.headers())) ==> (r matches FastPath::Answer(Ok(b)) && b@ == map_pairs_bytes(info.headers())))
                &&& message matches HostMessage::GetMapValue { map_type, key } ==> (map_type
                    == MapType::HttpRequestHeaders ==> (first_value(info.headers(), key@) matches Some(v) ==> (r matches FastPath::Answer(Ok(b)) && b@ == v)))
                &&& message matches HostMessage::GetMapValue { map_type, key } ==> (map_type
                    == MapType::HttpRequestHeaders ==> (first_value(info.headers(), key@) is None ==> (r matches FastPath::Answer(Err(e)) && e == crate::wire::HostError::NotFound)))
                &&& message matches HostMessage::GetMapPairs { map_type } ==> (!(map_type
                    == MapType::HttpRequestHeaders && fits_list(flatten(info.headers()))) ==> r is AskProxy)
                &&& message matches HostMessage::GetMapValue { map_type, .. } ==> (map_type
                    != MapType::HttpRequestHeaders ==> r is AskProxy)
                &&& message matches HostMessage::GetProperty { path } ==> (first_value(info.properties(), path@) matches Some(v) ==> (r matches FastPath::Answer(Ok(b)) && b@ == v))
                &&& message matches HostMessage::GetProperty { path } ==> (first_value(info.properties(), path@) is None ==> r is AskProxy)
                &&& !(message is GetMapPairs || message is GetMapValue || message is GetProperty) ==> r is AskProxy
            },
    {
        match &self.additional_info {
            Some(info) => fast_reply(info, message),
            None => FastPath::AskProxy,
        }
    }

    /// Takes in a command before it is sent: on the versions whose
    /// envelopes carry request data, its header edits are applied to that
    /// data. The strictly serial version awaits the proxy's answer.
    pub fn command(&mut self, message: &HostMessage) -> (r: CommandRoute)
        ensures
            final(self).version == old(self).version,
            final(self).request_id == old(self).request_id,
            r == (if old(self).version == Version::V2 {
                CommandRoute::SendAndAwait
            } else {
                CommandRoute::Send
            }),
            old(self).version == Version::V2 || old(self).info() is None ==> final(self).info()
                == old(self).info(),
            old(self).version != Version::V2 && old(self).info() is Some ==> {
                let before = old(self).info()->Some_0;
                let after = final(self).info()->Some_0;
                &&& final(self).info() is Some
                &&& after.properties() == before.properties()
                &&& message matches HostMessage::AddMapValue { map_type, key, value } ==> (map_type
                    == MapType::HttpRequestHeaders ==> after.headers() == before.headers().push((key@, value@)))
                &&& message matches HostMessage::ReplaceMapValue { map_type, key, value } ==> (map_type
                    == MapType::HttpRequestHeaders ==> after.headers() == without(before.headers(), key@).push((key@, value@)))
                &&& message matches HostMessage::RemoveMapValue { map_type, key } ==> (map_type
                    == MapType::HttpRequestHeaders ==> after.headers() == without(before.headers(), key@))
                &&& message matches HostMessage::SetMapPairs { map_type, map } ==> (map_type
                    == MapType::HttpRequestHeaders ==> forall|p: Seq<(Seq<u8>, Seq<u8>)>| fits_list(flatten(p)) && #[trigger] map_pairs_bytes(p) == map@ ==> after.headers() == p)
                &&& message matches HostMessage::SetMapPairs { map_type, map } ==> (map_type
                    == MapType::HttpRequestHeaders ==> ((forall|p: Seq<(Seq<u8>, Seq<u8>)>| !(fits_list(flatten(p)) && #[trigger] map_pairs_bytes(p) == map@)) ==> after.headers() == before.headers()))
                &&& !(message is AddMapValue || message is ReplaceMapValue || message is RemoveMapValue || message is SetMapPairs) ==> after.headers() == before.headers()
                &&& !request_headers_edit(*message) ==> after.headers() == before.headers()
            },
    {
        if self.version == Version::V2 {
            return CommandRoute::SendAndAwait;
        }
        let mut taken = self.additional_info.take();
        match &mut taken {
            Some(info) => {
                let decoded = match message {
                    HostMessage::SetMapPairs { map, .. } => deserialize_map_pairs(map.as_slice()),
                    _ => None,
                };
                apply_command(info, message, decoded);
            },
            None => {},
        }
        self.additional_info = taken;
        CommandRoute::Send
    }
}

} // verus!
