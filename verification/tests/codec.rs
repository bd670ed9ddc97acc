use libublk::longhorn_rpc_protocal::can_read_header;
use libublk::longhorn_rpc_protocal::get_message_header_size;
use libublk::longhorn_rpc_protocal::read_header;
use libublk::longhorn_rpc_protocal::write_header;
use libublk::longhorn_rpc_protocal::write_header_old;
use libublk::longhorn_rpc_protocal::HeaderError;
use libublk::longhorn_rpc_protocal::MessageHeader;
use libublk::longhorn_rpc_protocal::MessageType;
use libublk::longhorn_rpc_protocal::MAGIC_VERSION;

fn sample() -> MessageHeader {
    MessageHeader {
        MagicVersion: MAGIC_VERSION,
        Seq: 0x0403_0201,
        Type: MessageType::TypeWrite.code(),
        Offset: 0x1817_1615_1413_1211,
        Size: 0x2423_2221,
        DataLength: 0x3433_3231,
    }
}

const SAMPLE_BYTES: [u8; 26] = [
    0x01, 0x1b, 0x01, 0x02, 0x03, 0x04, 0x01, 0x00, 0x00, 0x00, 0x11, 0x12, 0x13, 0x14, 0x15,
    0x16, 0x17, 0x18, 0x21, 0x22, 0x23, 0x24, 0x31, 0x32, 0x33, 0x34,
];

#[test]
fn header_size_is_26() {
    assert_eq!(get_message_header_size(), 26);
    assert_eq!(get_message_header_size(), 2 + 4 + 4 + 8 + 4 + 4);
}

#[test]
fn magic_version_value() {
    assert_eq!(MAGIC_VERSION, 0x1b01);
}

#[test]
fn message_type_codes() {
    assert_eq!(MessageType::TypeRead.code(), 0);
    assert_eq!(MessageType::TypeWrite.code(), 1);
    assert_eq!(MessageType::TypeResponse.code(), 2);
    assert_eq!(MessageType::TypeError.code(), 3);
    assert_eq!(MessageType::TypeEOF.code(), 4);
    assert_eq!(MessageType::TypeClose.code(), 5);
    assert_eq!(MessageType::TypePing.code(), 6);
    assert_eq!(MessageType::TypeUnmap.code(), 7);
    assert_eq!(MessageType::TypeUnmap as u32, 7);
    assert_eq!(MessageType::TypeRead as u32, 0);
    for c in 0u32..8 {
        assert_eq!(MessageType::from_code(c).unwrap().code(), c);
    }
    assert_eq!(MessageType::from_code(8), None);
    assert_eq!(MessageType::from_code(u32::MAX), None);
}

#[test]
fn write_header_gives_little_endian_bytes() {
    let mut buf = vec![0u8; 26];
    let n = write_header(&sample(), &mut buf);
    assert_eq!(n, 26);
    assert_eq!(buf, SAMPLE_BYTES.to_vec());
}

#[test]
fn write_header_old_gives_the_same_bytes() {
    let mut buf = vec![0xeeu8; 26];
    let n = write_header_old(&sample(), &mut buf);
    assert_eq!(n, 26);
    assert_eq!(buf, SAMPLE_BYTES.to_vec());
}

#[test]
fn write_header_leaves_the_rest_of_the_buffer() {
    let mut a = vec![0xabu8; 40];
    let mut b = vec![0xabu8; 40];
    assert_eq!(write_header(&sample(), &mut a), 26);
    assert_eq!(write_header_old(&sample(), &mut b), 26);
    assert_eq!(&a[..26], &SAMPLE_BYTES[..]);
    assert_eq!(&a[26..], &[0xabu8; 14][..]);
    assert_eq!(a, b);
}

#[test]
fn read_header_decodes_the_fields() {
    let mut msg = MessageHeader::default();
    let r = read_header(&mut msg, &SAMPLE_BYTES, 26);
    assert_eq!(r, Ok(26));
    assert_eq!(msg, sample());
}

#[test]
fn header_round_trip() {
    let headers = [
        MessageHeader { MagicVersion: MAGIC_VERSION, Seq: 0, Type: 0, Offset: 0, Size: 0, DataLength: 0 },
        MessageHeader {
            MagicVersion: MAGIC_VERSION,
            Seq: u32::MAX,
            Type: u32::MAX,
            Offset: u64::MAX,
            Size: u32::MAX,
            DataLength: u32::MAX,
        },
        MessageHeader {
            MagicVersion: MAGIC_VERSION,
            Seq: 1,
            Type: MessageType::TypeRead.code(),
            Offset: 4096,
            Size: 512,
            DataLength: 0,
        },
        MessageHeader {
            MagicVersion: MAGIC_VERSION,
            Seq: 0x8000_0000,
            Type: MessageType::TypeUnmap.code(),
            Offset: 0x8000_0000_0000_0000,
            Size: 0x0100_0000,
            DataLength: 0x00ff_ff00,
        },
        sample(),
    ];
    for h in headers {
        let mut buf = vec![0u8; get_message_header_size()];
        assert_eq!(write_header(&h, &mut buf), 26);
        let mut back = MessageHeader::default();
        assert_eq!(read_header(&mut back, &buf, 26), Ok(26));
        assert_eq!(back, h);

        let mut old = vec![0u8; get_message_header_size()];
        assert_eq!(write_header_old(&h, &mut old), 26);
        assert_eq!(old, buf);
    }
}

#[test]
fn read_header_refuses_wrong_magic() {
    let mut bytes = SAMPLE_BYTES;
    bytes[0] = 0x02;
    let before = MessageHeader {
        MagicVersion: 7,
        Seq: 8,
        Type: 9,
        Offset: 10,
        Size: 11,
        DataLength: 12,
    };
    let mut msg = before;
    let r = read_header(&mut msg, &bytes, 26);
    assert_eq!(r, Err(HeaderError::WrongMagicVersion));
    assert_eq!(msg.MagicVersion, 0x1b02);
    assert_eq!(msg.Seq, 8);
    assert_eq!(msg.Type, 9);
    assert_eq!(msg.Offset, 10);
    assert_eq!(msg.Size, 11);
    assert_eq!(msg.DataLength, 12);
}

#[test]
fn read_header_refuses_big_endian_magic() {
    let mut bytes = SAMPLE_BYTES;
    bytes[0] = 0x1b;
    bytes[1] = 0x01;
    let mut msg = MessageHeader::default();
    assert_eq!(read_header(&mut msg, &bytes, 26), Err(HeaderError::WrongMagicVersion));
    assert_eq!(msg.MagicVersion, 0x011b);
}

#[test]
fn read_header_refuses_wrong_magic_in_short_buffer() {
    let bytes = [0u8, 0u8];
    let mut msg = MessageHeader::default();
    assert_eq!(read_header(&mut msg, &bytes, 26), Err(HeaderError::WrongMagicVersion));
    assert_eq!(msg, MessageHeader::default());
}

#[test]
fn read_header_ignores_what_follows() {
    let mut bytes = SAMPLE_BYTES.to_vec();
    bytes.extend_from_slice(&[0xffu8; 100]);
    let mut msg = MessageHeader::default();
    assert_eq!(read_header(&mut msg, &bytes, 26), Ok(26));
    assert_eq!(msg, sample());
}

#[test]
fn default_header_is_zero() {
    let h = MessageHeader::default();
    assert_eq!(
        h,
        MessageHeader { MagicVersion: 0, Seq: 0, Type: 0, Offset: 0, Size: 0, DataLength: 0 }
    );
}

#[test]
fn headers_that_can_be_read() {
    assert!(can_read_header(&SAMPLE_BYTES));
    assert!(!can_read_header(&SAMPLE_BYTES[..25]));
    assert!(!can_read_header(&SAMPLE_BYTES[..2]));
    assert!(!can_read_header(&SAMPLE_BYTES[..1]));
    assert!(!can_read_header(&[]));
    // a wrong magic can be read, and refused, from two bytes on
    assert!(can_read_header(&[0, 0]));
    assert!(can_read_header(&[0x1b, 0x01, 0]));
    let mut long = SAMPLE_BYTES.to_vec();
    long.push(0);
    assert!(can_read_header(&long));
}
