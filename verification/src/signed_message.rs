//! The message that is written to disk in place of a request that is sent.

use vstd::prelude::*;
use crate::hex_text::{hex_encode, hex_of};

verus! {

/// The call kind of a request that only reads.
pub const QUERY: &'static str = "query";

/// The call kind of a request that changes state.
pub const UPDATE: &'static str = "update";

/// A request as it is kept for later: what the caller knows of it, the kind
/// of call, the request identifier of an update, and the signed request
/// itself in hexadecimal.
#[derive(Clone, Debug, PartialEq, Eq)]
pub struct SignedMessageV1 {
    pub version: usize,
    pub creation: String,
    pub expiration: String,
    pub network: String,
    pub call_type: String,
    pub sender: String,
    pub canister_id: String,
    pub method_name: String,
    pub arg: Vec<u8>,
    pub request_id: Option<String>,
    pub content: String,
}

pub struct SignedMessageV1View {
    pub version: usize,
    pub creation: Seq<char>,
    pub expiration: Seq<char>,
    pub network: Seq<char>,
    pub call_type: Seq<char>,
    pub sender: Seq<char>,
    pub canister_id: Seq<char>,
    pub method_name: Seq<char>,
    pub arg: Seq<u8>,
    pub request_id: Option<Seq<char>>,
    pub content: Seq<char>,
}

impl View for SignedMessageV1 {
    type V = SignedMessageV1View;

    open spec fn view(&self) -> SignedMessageV1View {
        SignedMessageV1View {
            version: self.version,
            creation: self.creation@,
            expiration: self.expiration@,
            network: self.network@,
            call_type: self.call_type@,
            sender: self.sender@,
            canister_id: self.canister_id@,
            method_name: self.method_name@,
            arg: self.arg@,
            request_id: match self.request_id {
                Some(id) => Some(id@),
                None => None,
            },
            content: self.content@,
        }
    }
}

impl SignedMessageV1View {
    /// This message with another call kind.
    pub open spec fn with_call_type(self, call_type: Seq<char>) -> SignedMessageV1View {
        SignedMessageV1View { call_type, ..self }
    }

    /// This message with the request identifier `request_id`, in hexadecimal.
    pub open spec fn with_request_id(self, request_id: Seq<u8>) -> SignedMessageV1View {
        SignedMessageV1View { request_id: Some(hex_of(request_id)), ..self }
    }

    /// This message with another content.
    pub open spec fn with_content(self, content: Seq<char>) -> SignedMessageV1View {
        SignedMessageV1View { content, ..self }
    }
}

impl SignedMessageV1 {
    /// A template: the metadata of a request to `method_name` of
    /// `canister_id`, with no call kind, no request identifier and no content
    /// yet.
    pub fn new(
        creation: String,
        expiration: String,
        network: String,
        sender: String,
        canister_id: String,
        method_name: String,
        arg: Vec<u8>,
    ) -> (message: SignedMessageV1)
        ensures
            message@ == (SignedMessageV1View {
                version: 1,
                creation: creation@,
                expiration: expiration@,
                network: network@,
                call_type: Seq::empty(),
                sender: sender@,
                canister_id: canister_id@,
                method_name: method_name@,
                arg: arg@,
                request_id: None,
                content: Seq::empty(),
            }),
    {
        SignedMessageV1 {
            version: 1,
            creation,
            expiration,
            network,
            call_type: String::new(),
            sender,
            canister_id,
            method_name,
            arg,
            request_id: None,
            content: String::new(),
        }
    }

    /// A copy of this message.
    pub fn duplicate(&self) -> (copy: SignedMessageV1)
        ensures
            copy@ == self@,
    {
        SignedMessageV1 {
            version: self.version,
            creation: self.creation.clone(),
            expiration: self.expiration.clone(),
            network: self.network.clone(),
            call_type: self.call_type.clone(),
            sender: self.sender.clone(),
            canister_id: self.canister_id.clone(),
            method_name: self.method_name.clone(),
            arg: self.arg.clone(),
            request_id: match &self.request_id {
                Some(id) => Some(id.clone()),
                None => None,
            },
            content: self.content.clone(),
        }
    }

    /// This message with another call kind.
    pub fn with_call_type(self, call_type: String) -> (message: SignedMessageV1)
        ensures
            message@ == self@.with_call_type(call_type@),
    {
        let mut message = self;
        message.call_type = call_type;
        message
    }

    /// This message with the request identifier `request_id`, in hexadecimal.
    pub fn with_request_id(self, request_id: &[u8]) -> (message: SignedMessageV1)
        ensures
            message@ == self@.with_request_id(request_id@),
    {
        let mut message = self;
        message.request_id = Some(hex_encode(request_id));
        message
    }

    /// This message with another content.
    pub fn with_content(self, content: String) -> (message: SignedMessageV1)
        ensures
            message@ == self@.with_content(content@),
    {
        let mut message = self;
        message.content = content;
        message
    }
}

} // verus!
