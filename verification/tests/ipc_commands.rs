use texture_share_vk::ipc::ipc_commands::{
    CommFindImage, CommandMsg, CommandTag, ProtocolError, ResultFindImage, ResultMsg, ResultTag,
    COMMAND_MSG_LEN, IMAGE_NAME_LEN, RESULT_MSG_LEN, TAG_FIND_IMAGE, TAG_LEN,
};
use texture_share_vk::ipc::wire::{get_i32, get_u32, get_u64, put_i32, put_u32, put_u64};
use texture_share_vk::vulkan::vk_shared_image::SharedImageData;
use texture_share_vk::vulkan::vk_types::Format;

fn named(name: &[u8]) -> CommandMsg {
    let mut image_name = [0u8; IMAGE_NAME_LEN];
    image_name[..name.len()].copy_from_slice(name);
    CommandMsg::FindImage(CommFindImage { image_name })
}

#[test]
fn the_lengths_of_the_records_are_fixed() {
    assert_eq!(TAG_LEN, 4);
    assert_eq!(IMAGE_NAME_LEN, 1024);
    assert_eq!(COMMAND_MSG_LEN, TAG_LEN + IMAGE_NAME_LEN);
    assert_eq!(RESULT_MSG_LEN, TAG_LEN + 4 + 4 + 4 + 4 + 8);
    assert_eq!(CommandMsg::default().encode().len(), COMMAND_MSG_LEN);
    assert_eq!(named(b"some image").encode().len(), COMMAND_MSG_LEN);
    assert_eq!(ResultMsg::default().encode().len(), RESULT_MSG_LEN);
}

#[test]
fn the_default_records_are_all_zero() {
    assert_eq!(CommandMsg::default().encode(), vec![0u8; COMMAND_MSG_LEN]);
    assert_eq!(ResultMsg::default().encode(), vec![0u8; RESULT_MSG_LEN]);
    assert_eq!(CommandMsg::default().tag(), CommandTag::FindImage);
    assert_eq!(ResultMsg::default().tag(), ResultTag::FindImage);
    assert_eq!(
        CommandMsg::decode(&vec![0u8; COMMAND_MSG_LEN]),
        Ok(CommandMsg::default())
    );
    assert_eq!(
        ResultMsg::decode(&vec![0u8; RESULT_MSG_LEN]),
        Ok(ResultMsg::default())
    );
}

#[test]
fn a_command_starts_with_its_tag_and_goes_on_with_the_name() {
    let bytes = named(b"abc").encode();
    assert_eq!(&bytes[..4], &TAG_FIND_IMAGE.to_le_bytes());
    assert_eq!(&bytes[4..7], b"abc");
    assert!(bytes[7..].iter().all(|b| *b == 0));
}

#[test]
fn a_command_comes_back_byte_for_byte() {
    let mut image_name = [0u8; IMAGE_NAME_LEN];
    for (i, b) in image_name.iter_mut().enumerate() {
        *b = (i * 7 + 3) as u8;
    }
    // A name that ends early, followed by bytes that mean nothing.
    image_name[5] = 0;
    let msg = CommandMsg::FindImage(CommFindImage { image_name });
    let bytes = msg.encode();
    let back = CommandMsg::decode(&bytes).unwrap();
    assert_eq!(back, msg);
    assert_eq!(back.encode(), bytes);
    let CommandMsg::FindImage(find) = back;
    assert_eq!(find.image_name[1023], ((1023 * 7 + 3) % 256) as u8);
}

#[test]
fn bytes_with_a_known_tag_come_back_from_the_command_they_stand_for() {
    let mut bytes = vec![0u8; COMMAND_MSG_LEN];
    for (i, b) in bytes.iter_mut().enumerate().skip(TAG_LEN) {
        *b = (255 - i % 256) as u8;
    }
    let msg = CommandMsg::decode(&bytes).unwrap();
    assert_eq!(msg.encode(), bytes);
}

#[test]
fn a_result_comes_back_unchanged() {
    let msg = ResultMsg::FindImage(ResultFindImage {
        img_data: SharedImageData {
            id: u32::MAX,
            width: 1920,
            height: 1080,
            format: Format { raw: 37 },
            allocation_size: u64::MAX,
        },
    });
    assert_eq!(ResultMsg::decode(&msg.encode()), Ok(msg));
    let negative = ResultMsg::FindImage(ResultFindImage {
        img_data: SharedImageData {
            id: 1,
            width: 0,
            height: 0,
            format: Format { raw: i32::MIN },
            allocation_size: 1,
        },
    });
    assert_eq!(ResultMsg::decode(&negative.encode()), Ok(negative));
}

#[test]
fn bytes_of_another_length_are_no_record() {
    assert_eq!(CommandMsg::decode(&[]), Err(ProtocolError::WrongLength));
    assert_eq!(
        CommandMsg::decode(&vec![0u8; COMMAND_MSG_LEN - 1]),
        Err(ProtocolError::WrongLength)
    );
    assert_eq!(
        CommandMsg::decode(&vec![0u8; COMMAND_MSG_LEN + 1]),
        Err(ProtocolError::WrongLength)
    );
    assert_eq!(ResultMsg::decode(&[0, 0, 0]), Err(ProtocolError::WrongLength));
    assert_eq!(
        ResultMsg::decode(&vec![0u8; RESULT_MSG_LEN + 1]),
        Err(ProtocolError::WrongLength)
    );
    // The length is looked at before the tag.
    assert_eq!(
        ResultMsg::decode(&[9, 9, 9, 9, 9]),
        Err(ProtocolError::WrongLength)
    );
}

#[test]
fn an_unknown_tag_is_named_in_the_failure() {
    let mut bytes = vec![0u8; COMMAND_MSG_LEN];
    bytes[0] = 1;
    assert_eq!(
        CommandMsg::decode(&bytes),
        Err(ProtocolError::UnrecognizedTag(1))
    );
    bytes[0] = 0;
    bytes[3] = 0x80;
    assert_eq!(
        CommandMsg::decode(&bytes),
        Err(ProtocolError::UnrecognizedTag(0x8000_0000))
    );
    let mut bytes = vec![0u8; RESULT_MSG_LEN];
    bytes[2] = 2;
    assert_eq!(
        ResultMsg::decode(&bytes),
        Err(ProtocolError::UnrecognizedTag(0x0002_0000))
    );
}

#[test]
fn numbers_lie_least_significant_byte_first() {
    let mut out = vec![0xaa];
    put_u32(&mut out, 0x0403_0201);
    assert_eq!(out, vec![0xaa, 1, 2, 3, 4]);
    put_u64(&mut out, 0x0c0b_0a09_0807_0605);
    assert_eq!(out, vec![0xaa, 1, 2, 3, 4, 5, 6, 7, 8, 9, 10, 11, 12]);
    put_i32(&mut out, -1);
    assert_eq!(&out[13..], &[0xff, 0xff, 0xff, 0xff]);
    put_i32(&mut out, i32::MIN);
    assert_eq!(&out[17..], &[0, 0, 0, 0x80]);
    put_i32(&mut out, 5);
    assert_eq!(&out[21..], &[5, 0, 0, 0]);

    assert_eq!(get_u32(&out, 1), 0x0403_0201);
    assert_eq!(get_u64(&out, 5), 0x0c0b_0a09_0807_0605);
    assert_eq!(get_i32(&out, 13), -1);
    assert_eq!(get_i32(&out, 17), i32::MIN);
    assert_eq!(get_i32(&out, 21), 5);
    assert_eq!(get_u32(&out, 13), u32::MAX);
}

#[test]
fn numbers_agree_with_the_bytes_of_the_standard_library() {
    for x in [0u32, 1, 255, 256, 65_535, 65_536, 0x00ff_ffff, 0x0100_0000, u32::MAX] {
        let mut out = Vec::new();
        put_u32(&mut out, x);
        assert_eq!(out, x.to_le_bytes().to_vec());
        assert_eq!(get_u32(&out, 0), x);
    }
    for x in [0u64, 1, 0xffff_ffff, 0x1_0000_0000, 0x1234_5678_9abc_def0, u64::MAX] {
        let mut out = Vec::new();
        put_u64(&mut out, x);
        assert_eq!(out, x.to_le_bytes().to_vec());
        assert_eq!(get_u64(&out, 0), x);
    }
    for x in [0i32, 1, -1, 37, i32::MAX, i32::MIN, -123_456] {
        let mut out = Vec::new();
        put_i32(&mut out, x);
        assert_eq!(out, x.to_le_bytes().to_vec());
        assert_eq!(get_i32(&out, 0), x);
    }
}
