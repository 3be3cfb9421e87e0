//! The two records that travel over a connection, and their bytes.
//!
//! A command and a result are each a tag followed by the payload that the
//! tag announces. Every record of a kind has the same length, whatever its
//! tag, so that a receiver knows how many bytes to wait for before it looks
//! at any of them. Numbers lie least significant byte first.
//!
//! In memory a record is a sum type: the payload that belongs to a tag can
//! be had only together with the tag. A tag that the library does not know
//! is a failure of its own.

use vstd::prelude::*;
use crate::ipc::wire::{
    get_i32, get_u32, get_u64, i32_at, i32_bytes, lemma_i32_bytes_of_value,
    lemma_i32_round_trip, lemma_u32_bytes_of_value, lemma_u32_round_trip,
    lemma_u64_bytes_of_value, lemma_u64_round_trip, put_i32, put_u32, put_u64, u32_at, u32_bytes,
    u64_at, u64_bytes,
};
use crate::vulkan::vk_shared_image::SharedImageData;
use crate::vulkan::vk_types::Format;

verus! {

/// The bytes of an image's name in a record. A shorter name is followed by
/// bytes that mean nothing but travel all the same.
pub const IMAGE_NAME_LEN: usize = 1024;

/// The bytes of a tag.
pub const TAG_LEN: usize = 4;

/// The bytes of a command.
pub const COMMAND_MSG_LEN: usize = 1028;

/// The bytes of a result.
pub const RESULT_MSG_LEN: usize = 28;

/// The number that stands for "find an image" in a tag.
pub const TAG_FIND_IMAGE: u32 = 0;

/// The operations that a command can ask for.
#[derive(Clone, Copy, Debug, PartialEq, Eq)]
pub enum CommandTag {
    FindImage,
}

/// The operations that a result can answer.
#[derive(Clone, Copy, Debug, PartialEq, Eq)]
pub enum ResultTag {
    FindImage,
}

/// Why bytes are no record.
#[derive(Clone, Copy, Debug, PartialEq, Eq)]
pub enum ProtocolError {
    /// There are more or fewer bytes than a record has.
    WrongLength,
    /// The bytes start with a tag that stands for no operation.
    UnrecognizedTag(u32),
}

/// What "find an image" asks: the image's name.
#[derive(Clone, Copy, Debug, PartialEq, Eq)]
pub struct CommFindImage {
    pub image_name: [u8; IMAGE_NAME_LEN],
}

/// A command.
#[derive(Clone, Copy, Debug, PartialEq, Eq)]
pub enum CommandMsg {
    FindImage(CommFindImage),
}

/// What "find an image" answers: the description of the image.
#[derive(Clone, Copy, Debug, PartialEq, Eq)]
pub struct ResultFindImage {
    pub img_data: SharedImageData,
}

/// A result.
#[derive(Clone, Copy, Debug, PartialEq, Eq)]
pub enum ResultMsg {
    FindImage(ResultFindImage),
}

/// A command as a mathematical value.
pub enum CommandMsgView {
    FindImage { image_name: Seq<u8> },
}

impl View for CommandMsg {
    type V = CommandMsgView;

    open spec fn view(&self) -> CommandMsgView {
        match *self {
            CommandMsg::FindImage(find) => CommandMsgView::FindImage {
                image_name: find.image_name@,
            },
        }
    }
}

impl CommandMsgView {
    /// Whether the value is one that a command in memory can have: the name
    /// fills its field.
    pub open spec fn wf(self) -> bool {
        match self {
            CommandMsgView::FindImage { image_name } => image_name.len() == IMAGE_NAME_LEN,
        }
    }
}

/// The bytes of a command: the tag, then the payload.
pub open spec fn encode_command(msg: CommandMsgView) -> Seq<u8> {
    match msg {
        CommandMsgView::FindImage { image_name } => u32_bytes(TAG_FIND_IMAGE) + image_name,
    }
}

/// The command that bytes stand for. Bytes of another length than a
/// command's stand for none, and neither do bytes with an unknown tag.
pub open spec fn decode_command(bytes: Seq<u8>) -> Result<CommandMsgView, ProtocolError> {
    if bytes.len() != COMMAND_MSG_LEN {
        Err(ProtocolError::WrongLength)
    } else if u32_at(bytes, 0) != TAG_FIND_IMAGE {
        Err(ProtocolError::UnrecognizedTag(u32_at(bytes, 0)))
    } else {
        Ok(
            CommandMsgView::FindImage {
                image_name: bytes.subrange(TAG_LEN as int, COMMAND_MSG_LEN as int),
            },
        )
    }
}

/// The bytes of a result: the tag, then the identifier, the width, the
/// height, the format and the size of the memory.
pub open spec fn encode_result(msg: ResultMsg) -> Seq<u8> {
    match msg {
        ResultMsg::FindImage(found) => u32_bytes(TAG_FIND_IMAGE) + u32_bytes(found.img_data.id)
            + u32_bytes(found.img_data.width) + u32_bytes(found.img_data.height) + i32_bytes(
            found.img_data.format.raw,
        ) + u64_bytes(found.img_data.allocation_size),
    }
}

/// The result that bytes stand for. Bytes of another length than a result's
/// stand for none, and neither do bytes with an unknown tag.
pub open spec fn decode_result(bytes: Seq<u8>) -> Result<ResultMsg, ProtocolError> {
    if bytes.len() != RESULT_MSG_LEN {
        Err(ProtocolError::WrongLength)
    } else if u32_at(bytes, 0) != TAG_FIND_IMAGE {
        Err(ProtocolError::UnrecognizedTag(u32_at(bytes, 0)))
    } else {
        Ok(
            ResultMsg::FindImage(
                ResultFindImage {
                    img_data: SharedImageData {
                        id: u32_at(bytes, 4),
                        width: u32_at(bytes, 8),
                        height: u32_at(bytes, 12),
                        format: Format { raw: i32_at(bytes, 16) },
                        allocation_size: u64_at(bytes, 20),
                    },
                },
            ),
        )
    }
}

impl CommandMsg {
    /// The operation that the command asks for.
    pub fn tag(&self) -> (tag: CommandTag)
        ensures
            tag == (match *self {
                CommandMsg::FindImage(_) => CommandTag::FindImage,
            }),
    {
        match self {
            CommandMsg::FindImage(_) => CommandTag::FindImage,
        }
    }

    /// The bytes of the command.
    pub fn encode(&self) -> (bytes: Vec<u8>)
        ensures
            bytes@ == encode_command(self@),
            bytes@.len() == COMMAND_MSG_LEN,
    {
        let mut bytes: Vec<u8> = Vec::new();
        match self {
            CommandMsg::FindImage(find) => {
                put_u32(&mut bytes, TAG_FIND_IMAGE);
                let mut i: usize = 0;
                while i < IMAGE_NAME_LEN
                    invariant
                        i <= IMAGE_NAME_LEN,
                        bytes@ == u32_bytes(TAG_FIND_IMAGE) + find.image_name@.subrange(
                            0,
                            i as int,
                        ),
                    decreases IMAGE_NAME_LEN - i,
                {
                    bytes.push(find.image_name[i]);
                    assert(find.image_name@.subrange(0, i + 1) =~= find.image_name@.subrange(
                        0,
                        i as int,
                    ).push(find.image_name@[i as int]));
                    i = i + 1;
                }
                assert(find.image_name@.subrange(0, IMAGE_NAME_LEN as int)
                    =~= find.image_name@);
            },
        }
        bytes
    }

    /// The command that `bytes` stand for.
    pub fn decode(bytes: &[u8]) -> (msg: Result<CommandMsg, ProtocolError>)
        ensures
            match msg {
                Ok(m) => decode_command(bytes@) == Ok::<CommandMsgView, ProtocolError>(m@),
                Err(e) => decode_command(bytes@) == Err::<CommandMsgView, ProtocolError>(e),
            },
    {
        if bytes.len() != COMMAND_MSG_LEN {
            return Err(ProtocolError::WrongLength);
        }
        let tag: u32 = get_u32(bytes, 0);
        if tag != TAG_FIND_IMAGE {
            return Err(ProtocolError::UnrecognizedTag(tag));
        }
        let mut image_name: [u8; IMAGE_NAME_LEN] = [0u8;IMAGE_NAME_LEN];
        let mut i: usize = 0;
        while i < IMAGE_NAME_LEN
            invariant
                i <= IMAGE_NAME_LEN,
                bytes@.len() == COMMAND_MSG_LEN,
                forall|j: int| 0 <= j < i ==> image_name@[j] == bytes@[TAG_LEN + j],
            decreases IMAGE_NAME_LEN - i,
        {
            image_name[i] = bytes[TAG_LEN + i];
            i = i + 1;
        }
        assert(image_name@ =~= bytes@.subrange(TAG_LEN as int, COMMAND_MSG_LEN as int));
        Ok(CommandMsg::FindImage(CommFindImage { image_name }))
    }
}

impl Default for CommandMsg {
    /// The command with every byte 0: "find an image" with an empty name.
    fn default() -> (msg: CommandMsg)
        ensures
            msg@ == (CommandMsgView::FindImage {
                image_name: Seq::new(IMAGE_NAME_LEN as nat, |i: int| 0u8),
            }),
    {
        let image_name: [u8; IMAGE_NAME_LEN] = [0u8;IMAGE_NAME_LEN];
        assert(image_name@ =~= Seq::new(IMAGE_NAME_LEN as nat, |i: int| 0u8));
        CommandMsg::FindImage(CommFindImage { image_name })
    }
}

impl ResultMsg {
    /// The operation that the result answers.
    pub fn tag(&self) -> (tag: ResultTag)
        ensures
            tag == (match *self {
                ResultMsg::FindImage(_) => ResultTag::FindImage,
            }),
    {
        match self {
            ResultMsg::FindImage(_) => ResultTag::FindImage,
        }
    }

    /// The bytes of the result.
    pub fn encode(&self) -> (bytes: Vec<u8>)
        ensures
            bytes@ == encode_result(*self),
            bytes@.len() == RESULT_MSG_LEN,
    {
        let mut bytes: Vec<u8> = Vec::new();
        match self {
            ResultMsg::FindImage(found) => {
                put_u32(&mut bytes, TAG_FIND_IMAGE);
                put_u32(&mut bytes, found.img_data.id);
                put_u32(&mut bytes, found.img_data.width);
                put_u32(&mut bytes, found.img_data.height);
                put_i32(&mut bytes, found.img_data.format.raw);
                put_u64(&mut bytes, found.img_data.allocation_size);
            },
        }
        bytes
    }

    /// The result that `bytes` stand for.
    pub fn decode(bytes: &[u8]) -> (msg: Result<ResultMsg, ProtocolError>)
        ensures
            msg == decode_result(bytes@),
    {
        if bytes.len() != RESULT_MSG_LEN {
            return Err(ProtocolError::WrongLength);
        }
        let tag: u32 = get_u32(bytes, 0);
        if tag != TAG_FIND_IMAGE {
            return Err(ProtocolError::UnrecognizedTag(tag));
        }
        let id: u32 = get_u32(bytes, 4);
        let width: u32 = get_u32(bytes, 8);
        let height: u32 = get_u32(bytes, 12);
        let format = Format { raw: get_i32(bytes, 16) };
        let allocation_size: u64 = get_u64(bytes, 20);
        Ok(
            ResultMsg::FindImage(
                ResultFindImage {
                    img_data: SharedImageData { id, width, height, format, allocation_size },
                },
            ),
        )
    }
}

impl Default for ResultMsg {
    /// The result with every byte 0: "find an image" with an image of no
    /// size.
    fn default() -> (msg: ResultMsg)
        ensures
            msg == ResultMsg::FindImage(
                ResultFindImage {
                    img_data: SharedImageData {
                        id: 0,
                        width: 0,
                        height: 0,
                        format: Format { raw: 0 },
                        allocation_size: 0,
                    },
                },
            ),
    {
        ResultMsg::FindImage(
            ResultFindImage {
                img_data: SharedImageData {
                    id: 0,
                    width: 0,
                    height: 0,
                    format: Format { raw: 0 },
                    allocation_size: 0,
                },
            },
        )
    }
}

/// Every command has the same number of bytes, and they start with its tag.
pub proof fn lemma_command_has_fixed_length(msg: CommandMsgView)
    requires
        msg.wf(),
    ensures
        encode_command(msg).len() == COMMAND_MSG_LEN,
        u32_at(encode_command(msg), 0) == TAG_FIND_IMAGE,
{
    match msg {
        CommandMsgView::FindImage { image_name } => {
            lemma_u32_round_trip(Seq::empty(), TAG_FIND_IMAGE, image_name);
            assert(Seq::<u8>::empty() + u32_bytes(TAG_FIND_IMAGE) + image_name =~= encode_command(
                msg,
            ));
        },
    }
}

/// Decoding the bytes of a command gives back the command, byte for byte:
/// also the bytes of the name that follow its end.
pub proof fn lemma_command_round_trip(msg: CommandMsgView)
    requires
        msg.wf(),
    ensures
        decode_command(encode_command(msg)) == Ok::<CommandMsgView, ProtocolError>(msg),
{
    lemma_command_has_fixed_length(msg);
    match msg {
        CommandMsgView::FindImage { image_name } => {
            assert(encode_command(msg).subrange(TAG_LEN as int, COMMAND_MSG_LEN as int)
                =~= image_name);
        },
    }
}

/// Two commands in memory that are the same mathematical value are the same
/// command, so a command that is encoded and decoded comes back unchanged.
pub proof fn lemma_command_is_its_view(a: CommandMsg, b: CommandMsg)
    requires
        a@ == b@,
    ensures
        a == b,
{
    match (a, b) {
        (CommandMsg::FindImage(x), CommandMsg::FindImage(y)) => {
            assert(x.image_name =~= y.image_name);
        },
    }
}

/// A command that is encoded and decoded comes back unchanged: whatever
/// command in memory the bytes of `sent` are decoded to is `sent` itself.
pub proof fn lemma_command_comes_back(sent: CommandMsg, received: CommandMsg)
    requires
        decode_command(encode_command(sent@)) == Ok::<CommandMsgView, ProtocolError>(received@),
    ensures
        received == sent,
{
    lemma_command_round_trip(sent@);
    lemma_command_is_its_view(received, sent);
}

/// Encoding the command that bytes stand for gives back the bytes.
pub proof fn lemma_command_bytes_round_trip(bytes: Seq<u8>)
    requires
        decode_command(bytes) is Ok,
    ensures
        encode_command(decode_command(bytes).unwrap()) == bytes,
        decode_command(bytes).unwrap().wf(),
{
    lemma_u32_bytes_of_value(bytes, 0);
    assert(encode_command(decode_command(bytes).unwrap()) =~= bytes);
}

/// Every result has the same number of bytes, and they start with its tag.
pub proof fn lemma_result_has_fixed_length(msg: ResultMsg)
    ensures
        encode_result(msg).len() == RESULT_MSG_LEN,
        u32_at(encode_result(msg), 0) == TAG_FIND_IMAGE,
{
    match msg {
        ResultMsg::FindImage(found) => {
            let d = found.img_data;
            let rest = u32_bytes(d.id) + u32_bytes(d.width) + u32_bytes(d.height) + i32_bytes(
                d.format.raw,
            ) + u64_bytes(d.allocation_size);
            lemma_u32_round_trip(Seq::empty(), TAG_FIND_IMAGE, rest);
            assert(Seq::<u8>::empty() + u32_bytes(TAG_FIND_IMAGE) + rest =~= encode_result(msg));
        },
    }
}

/// Decoding the bytes of a result gives back the result.
pub proof fn lemma_result_round_trip(msg: ResultMsg)
    ensures
        decode_result(encode_result(msg)) == Ok::<ResultMsg, ProtocolError>(msg),
{
    lemma_result_has_fixed_length(msg);
    match msg {
        ResultMsg::FindImage(found) => {
            let d = found.img_data;
            let tag = u32_bytes(TAG_FIND_IMAGE);
            let id = u32_bytes(d.id);
            let width = u32_bytes(d.width);
            let height = u32_bytes(d.height);
            let format = i32_bytes(d.format.raw);
            let size = u64_bytes(d.allocation_size);
            let all = encode_result(msg);
            assert(all =~= tag + id + (width + height + format + size));
            lemma_u32_round_trip(tag, d.id, width + height + format + size);
            assert(all =~= (tag + id) + width + (height + format + size));
            lemma_u32_round_trip(tag + id, d.width, height + format + size);
            assert(all =~= (tag + id + width) + height + (format + size));
            lemma_u32_round_trip(tag + id + width, d.height, format + size);
            assert(all =~= (tag + id + width + height) + format + size);
            lemma_i32_round_trip(tag + id + width + height, d.format.raw, size);
            assert(all =~= (tag + id + width + height + format) + size + Seq::<u8>::empty());
            lemma_u64_round_trip(tag + id + width + height + format, d.allocation_size, Seq::empty());
        },
    }
}

/// Encoding the result that bytes stand for gives back the bytes.
pub proof fn lemma_result_bytes_round_trip(bytes: Seq<u8>)
    requires
        decode_result(bytes) is Ok,
    ensures
        encode_result(decode_result(bytes).unwrap()) == bytes,
{
    lemma_u32_bytes_of_value(bytes, 0);
    lemma_u32_bytes_of_value(bytes, 4);
    lemma_u32_bytes_of_value(bytes, 8);
    lemma_u32_bytes_of_value(bytes, 12);
    lemma_i32_bytes_of_value(bytes, 16);
    lemma_u64_bytes_of_value(bytes, 20);
    assert(encode_result(decode_result(bytes).unwrap()) =~= bytes.subrange(0, 4) + bytes.subrange(
        4,
        8,
    ) + bytes.subrange(8, 12) + bytes.subrange(12, 16) + bytes.subrange(16, 20) + bytes.subrange(
        20,
        28,
    ));
    assert(bytes.subrange(0, 4) + bytes.subrange(4, 8) + bytes.subrange(8, 12) + bytes.subrange(
        12,
        16,
    ) + bytes.subrange(16, 20) + bytes.subrange(20, 28) =~= bytes);
}

} // verus!
