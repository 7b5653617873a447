//! Data types and functionality for encoding and decoding RDM packets.

pub mod error;
pub mod messages;
pub mod common;
pub mod custom;
pub mod device;
pub mod field_errors;
pub mod parameter;
pub mod request;
pub mod response;
pub mod text;
pub mod utils;
pub mod wire;
pub mod wire_layouts;
pub mod data_layouts;
pub mod code_tables;
pub mod frame_layouts;

use crate::rdm::common::{CommandClass, RdmFrameKind};
use crate::rdm::error::{ParameterDataError, RdmError};
use crate::rdm::request::{spec_decode_request, spec_request_data_too_long, RdmRequest};
use crate::rdm::response::{spec_decode_response, spec_response_decode_overruns, RdmResponse};
use crate::rdm::utils::{write_prefix, written_prefix};
use vstd::prelude::*;

verus! {

pub const RDM_START_CODE_BYTE: u8 = 0xcc;
pub const RDM_SUB_START_CODE_BYTE: u8 = 0x01;

pub const DISCOVERY_UNIQUE_BRANCH_PREAMBLE_BYTE: u8 = 0xfe;
pub const DISCOVERY_UNIQUE_BRANCH_PREAMBLE_SEPARATOR_BYTE: u8 = 0xaa;

pub const MIN_DISC_FRAME_LENGTH: usize = 17;
pub const MIN_RDM_FRAME_LENGTH: usize = 25;
pub const MAX_RDM_FRAME_LENGTH: usize = 257;
pub const MAX_RDM_PARAMETER_DATA_LENGTH: usize = 231;


/// An RDM frame: a request or a response.
#[derive(Clone, Copy, Debug, PartialEq)]
pub enum RdmFrame<'a> {
    Request(RdmRequest<'a>),
    Response(RdmResponse<'a>),
}

impl<'a> RdmFrame<'a> {
    pub fn frame_kind(&self) -> (k: RdmFrameKind)
        ensures
            k == (match self {
                RdmFrame::Request(_) => RdmFrameKind::Request,
                RdmFrame::Response(_) => RdmFrameKind::Response,
            }),
    {
        match self {
            RdmFrame::Request(_) => RdmFrameKind::Request,
            RdmFrame::Response(_) => RdmFrameKind::Response,
        }
    }

    /// The bytes of the frame.
    pub open spec fn spec_encode(self) -> Seq<u8> {
        match self {
            RdmFrame::Request(r) => r.spec_encode(),
            RdmFrame::Response(r) => r.spec_encode(),
        }
    }

    /// The size of the frame: that of the request, or the number of bytes of the response.
    pub fn size(&self) -> (n: usize)
        ensures
            self matches RdmFrame::Request(r) ==> n == 26 + r.spec_parameter_data_length(),
            self matches RdmFrame::Response(r) ==> n == r.spec_encode().len(),
    {
        match self {
            RdmFrame::Request(request) => request.size(),
            RdmFrame::Response(response) => response.encode().len(),
        }
    }

    /// Writes the frame at the start of `buf`: a request as its `encode` does, a response when `buf`
    /// has room for all of its bytes.
    pub fn encode(&self, buf: &mut [u8]) -> (r: Result<usize, RdmError>)
        requires
            self matches RdmFrame::Request(q) ==> {
                &&& old(buf)@.len() >= 24
                &&& q.parameter matches crate::rdm::request::RequestParameter::CustomParameter(c) ==> c.spec_length_fits()
                    && old(buf)@.len() >= 24 + c.parameter_data_length
                &&& !(24 + q.spec_parameter_data_length() <= old(buf)@.len() < 26 + q.spec_parameter_data_length())
            },
        ensures
            self matches RdmFrame::Request(q) ==> (old(buf)@.len() >= 26 + q.spec_parameter_data_length() ==> r
                == Ok::<usize, RdmError>((26 + q.spec_parameter_data_length()) as usize) && final(buf)@ == written_prefix(
                old(buf)@,
                q.spec_encode(),
            )),
            self matches RdmFrame::Request(q) ==> (old(buf)@.len() < 24 + q.spec_parameter_data_length() ==> r
                == Err::<usize, RdmError>(
                RdmError::ParameterData(ParameterDataError::BufferTooSmall {
                    provided: (old(buf)@.len() - 24) as usize,
                    required: q.spec_parameter_data_length() as usize,
                }),
            ) && final(buf)@ == old(buf)@.update(0, RDM_START_CODE_BYTE).update(1, RDM_SUB_START_CODE_BYTE)),
            self matches RdmFrame::Response(p) ==> (old(buf)@.len() >= p.spec_encode().len() ==> r == Ok::<usize, RdmError>(
                p.spec_encode().len() as usize,
            ) && final(buf)@ == written_prefix(old(buf)@, p.spec_encode())),
            self matches RdmFrame::Response(p) ==> (old(buf)@.len() < p.spec_encode().len() ==> r == Err::<usize, RdmError>(
                RdmError::InvalidBufferLength(old(buf)@.len() as usize, p.spec_encode().len() as usize),
            ) && final(buf)@ == old(buf)@),
    {
        match self {
            RdmFrame::Request(request) => request.encode(buf),
            RdmFrame::Response(response) => {
                let bytes = response.encode();
                if buf.len() < bytes.len() {
                    return Err(RdmError::InvalidBufferLength(buf.len(), bytes.len()));
                }
                write_prefix(buf, bytes.as_slice());
                Ok(bytes.len())
            },
        }
    }
}

/// A view of the bytes of one frame: from the start code to the end of the checksum.
#[derive(Clone, Copy, Debug, PartialEq)]
pub struct RdmFrameView<'a>(&'a [u8]);

/// The frame that a view of `bytes` decodes to, or why it decodes to none.
pub open spec fn spec_view_decode<'a>(bytes: Seq<u8>) -> Result<RdmFrame<'a>, RdmError> {
    match CommandClass::spec_try_from_u8(bytes[20]) {
        Err(e) => Err(e),
        Ok(cc) => match cc.spec_frame_kind() {
            RdmFrameKind::Request => match spec_decode_request::<'a>(bytes) {
                Ok(r) => Ok(RdmFrame::Request(r)),
                Err(e) => Err(e),
            },
            RdmFrameKind::Response => match spec_decode_response::<'a>(bytes) {
                Ok(r) => Ok(RdmFrame::Response(r)),
                Err(e) => Err(e),
            },
        },
    }
}

/// Whether decoding a view of `bytes` reads past their end.
pub open spec fn spec_view_decode_overruns(bytes: Seq<u8>) -> bool {
    ||| bytes.len() <= 20
    ||| match CommandClass::spec_try_from_u8(bytes[20]) {
        Ok(cc) => {
            ||| cc.spec_frame_kind() == RdmFrameKind::Request && spec_request_data_too_long(bytes)
            ||| cc.spec_frame_kind() == RdmFrameKind::Response && spec_response_decode_overruns(bytes)
        },
        Err(_) => false,
    }
}

impl<'a> RdmFrameView<'a> {
    /// The bytes of the frame.
    pub closed spec fn spec_bytes(self) -> Seq<u8> {
        self.0@
    }

    /// The view of the frame at the start of `data`: its start code is checked and it is cut to
    /// its message length and checksum.
    pub fn from_bytes(data: &'a [u8]) -> (r: Result<Self, RdmError>)
        requires
            data@.len() >= 1,
            data@[0] == RDM_START_CODE_BYTE ==> data@.len() >= 3,
        ensures
            data@[0] != RDM_START_CODE_BYTE ==> r == Err::<Self, RdmError>(RdmError::InvalidStartCode),
            data@[0] == RDM_START_CODE_BYTE && data@.len() < data@[2] + 2 ==> r == Err::<Self, RdmError>(RdmError::MalformedPacket),
            data@[0] == RDM_START_CODE_BYTE && data@.len() >= data@[2] + 2 ==> (r matches Ok(v)
                && v.spec_bytes() == data@.subrange(0, data@[2] + 2)),
    {
        if data[0] != RDM_START_CODE_BYTE {
            return Err(RdmError::InvalidStartCode);
        }
        let message_length = data[2] as usize;
        if data.len() < message_length + 2 {
            return Err(RdmError::MalformedPacket);
        }
        Ok(RdmFrameView(vstd::slice::slice_subrange(data, 0, message_length + 2)))
    }

    pub fn message_length(&self) -> (n: usize)
        requires
            self.spec_bytes().len() >= 3,
        ensures
            n == self.spec_bytes()[2],
    {
        self.0[2] as usize
    }

    pub fn command_class(&self) -> (r: Result<CommandClass, RdmError>)
        requires
            self.spec_bytes().len() > 20,
        ensures
            r == CommandClass::spec_try_from_u8(self.spec_bytes()[20]),
    {
        CommandClass::try_from_u8(self.0[20])
    }

    pub fn frame_kind(&self) -> (r: Result<RdmFrameKind, RdmError>)
        requires
            self.spec_bytes().len() > 20,
        ensures
            r == (match CommandClass::spec_try_from_u8(self.spec_bytes()[20]) {
                Ok(cc) => Ok(cc.spec_frame_kind()),
                Err(e) => Err(e),
            }),
    {
        match self.command_class() {
            Ok(cc) => Ok(cc.rdm_frame_kind()),
            Err(e) => Err(e),
        }
    }

    pub fn as_bytes(&self) -> (r: &'a [u8])
        ensures
            r@ == self.spec_bytes(),
    {
        self.0
    }

    /// Decodes the frame: a request or a response, by its command class.
    pub fn decode(&self) -> (r: Result<RdmFrame<'a>, RdmError>)
        requires
            !spec_view_decode_overruns(self.spec_bytes()),
        ensures
            r == spec_view_decode::<'a>(self.spec_bytes()),
    {
        let cc = match self.command_class() {
            Ok(cc) => cc,
            Err(e) => return Err(e),
        };
        match cc.rdm_frame_kind() {
            RdmFrameKind::Request => match RdmRequest::decode(self.0) {
                Ok(r) => Ok(RdmFrame::Request(r)),
                Err(e) => Err(e),
            },
            RdmFrameKind::Response => match RdmResponse::decode(self.0) {
                Ok(r) => Ok(RdmFrame::Response(r)),
                Err(e) => Err(e),
            },
        }
    }
}

impl<'a> RdmFrame<'a> {
    /// Decodes the frame at the start of `buf`: its view, then the view's frame.
    pub fn decode(buf: &'a [u8]) -> (r: Result<Self, RdmError>)
        requires
            buf@.len() >= 1,
            buf@[0] == RDM_START_CODE_BYTE ==> buf@.len() >= 3,
            buf@[0] == RDM_START_CODE_BYTE && buf@.len() >= buf@[2] + 2 ==> !spec_view_decode_overruns(
                buf@.subrange(0, buf@[2] + 2),
            ),
        ensures
            buf@[0] != RDM_START_CODE_BYTE ==> r == Err::<Self, RdmError>(RdmError::InvalidStartCode),
            buf@[0] == RDM_START_CODE_BYTE && buf@.len() < buf@[2] + 2 ==> r == Err::<Self, RdmError>(RdmError::MalformedPacket),
            buf@[0] == RDM_START_CODE_BYTE && buf@.len() >= buf@[2] + 2 ==> r == spec_view_decode::<'a>(
                buf@.subrange(0, buf@[2] + 2),
            ),
    {
        match RdmFrameView::from_bytes(buf) {
            Ok(view) => view.decode(),
            Err(e) => Err(e),
        }
    }
}

} // verus!
