use rs_iec60870_5::cs101::frame::{
    checksum, decode_frame, frame_more_octets, max_asdu_len, ControlField, Frame, CTRL_FCB, END_CHAR,
    MAX_FRAME_LEN, MAX_LENGTH_FIELD, START_VARIABLE,
};
use rs_iec60870_5::cs101::{prim_fc, sec_fc};
use rs_iec60870_5::Error;

/// Read one frame from the front of a byte stream the way an endpoint does:
/// as many octets as the decoder asks for, then decode them.
fn read_frame(stream: &mut &[u8], size: u8) -> Result<Frame, Error> {
    let mut buf: Vec<u8> = Vec::new();
    loop {
        let n = frame_more_octets(&buf, size);
        if n == 0 {
            break;
        }
        if stream.len() < n {
            return Err(Error::Io("end of stream".to_string()));
        }
        buf.extend_from_slice(&stream[..n]);
        *stream = &stream[n..];
    }
    decode_frame(&buf, size)
}

#[test]
fn control_field_round_trips_for_primary_frames() {
    for fun in 0u8..16 {
        for fcv in [false, true] {
            for fcb in [false, true] {
                for dir in [false, true] {
                    let c = ControlField::primary(fun, fcv, fcb, dir);
                    assert_eq!(ControlField::parse(c.value()), c);
                }
            }
        }
    }
}

#[test]
fn control_field_round_trips_for_secondary_frames() {
    for fun in 0u8..16 {
        for acd in [false, true] {
            for dir in [false, true] {
                let c = ControlField::secondary(fun, acd, dir);
                assert_eq!(ControlField::parse(c.value()), c);
            }
        }
    }
}

#[test]
fn fcb_is_only_encoded_when_fcv_is_set() {
    let c = ControlField::primary(prim_fc::RESET_LINK, false, true, false);
    assert_eq!(c.value() & CTRL_FCB, 0);
}

#[test]
fn reset_link_matches_the_standard_octets() {
    let f = Frame::Fixed {
        control: ControlField::primary(prim_fc::RESET_LINK, false, false, false),
        link_addr: 1,
    };
    assert_eq!(f.marshal(1).unwrap(), vec![0x10, 0x40, 0x01, 0x41, 0x16]);
}

#[test]
fn request_class2_matches_the_standard_octets() {
    let f = Frame::Fixed {
        control: ControlField::primary(prim_fc::REQ_DATA2, true, true, false),
        link_addr: 1,
    };
    assert_eq!(f.marshal(1).unwrap(), vec![0x10, 0x7b, 0x01, 0x7c, 0x16]);
}

#[test]
fn variable_frame_layout_and_checksum() {
    let f = Frame::Variable {
        control: ControlField::primary(prim_fc::USER_DATA_CONF, true, true, false),
        link_addr: 1,
        asdu: vec![0x64, 0x01, 0x06, 0x01, 0x00, 0x00, 0x14],
    };
    let raw = f.marshal(1).unwrap();
    assert_eq!(raw[0], START_VARIABLE);
    assert_eq!(raw[1], raw[2], "the length octet is repeated");
    assert_eq!(raw[1] as usize, 1 + 1 + 7, "control + address + ASDU");
    assert_eq!(raw[3], START_VARIABLE);
    assert_eq!(*raw.last().unwrap(), END_CHAR);
    let cs = raw[raw.len() - 2];
    let sum: u8 = raw[4..raw.len() - 2].iter().fold(0u8, |a, b| a.wrapping_add(*b));
    assert_eq!(cs, sum);
}

#[test]
fn frames_round_trip_through_the_reader() {
    for size in [1u8, 2] {
        let addr = if size == 1 { 200 } else { 0x1234 };
        for f in [
            Frame::SingleCharAck,
            Frame::Fixed { control: ControlField::secondary(sec_fc::CONF_ACK, true, false), link_addr: addr },
            Frame::Variable {
                control: ControlField::primary(prim_fc::USER_DATA_CONF, true, false, true),
                link_addr: addr,
                asdu: vec![1, 2, 3, 4, 5],
            },
        ] {
            let raw = f.marshal(size).unwrap();
            let mut r = raw.as_slice();
            assert_eq!(read_frame(&mut r, size).unwrap(), f, "size {size}");
            assert!(r.is_empty(), "the reader took exactly the frame");
        }
    }
}

#[test]
fn a_corrupted_checksum_is_rejected() {
    let f = Frame::Fixed {
        control: ControlField::primary(prim_fc::RESET_LINK, false, false, false),
        link_addr: 1,
    };
    let mut raw = f.marshal(1).unwrap();
    raw[3] ^= 0xff;
    let mut r = raw.as_slice();
    assert_eq!(read_frame(&mut r, 1), Err(Error::Frame("checksum mismatch")));
}

#[test]
fn a_missing_end_character_is_rejected() {
    let f = Frame::Fixed {
        control: ControlField::primary(prim_fc::RESET_LINK, false, false, false),
        link_addr: 1,
    };
    let mut raw = f.marshal(1).unwrap();
    *raw.last_mut().unwrap() = 0x00;
    let mut r = raw.as_slice();
    assert_eq!(read_frame(&mut r, 1), Err(Error::Frame("invalid end character")));
}

#[test]
fn mismatched_length_octets_are_rejected() {
    let mut raw = Frame::Variable {
        control: ControlField::primary(prim_fc::USER_DATA_CONF, true, true, false),
        link_addr: 1,
        asdu: vec![1, 2, 3],
    }
    .marshal(1)
    .unwrap();
    raw[2] = raw[2].wrapping_add(1);
    let mut r = raw.as_slice();
    assert_eq!(read_frame(&mut r, 1), Err(Error::Frame("length fields do not match")));
}

#[test]
fn an_unknown_start_character_is_rejected_one_octet_at_a_time() {
    let mut stream: &[u8] = &[0xaa, 0xbb, 0xe5];
    assert!(read_frame(&mut stream, 1).is_err());
    assert!(read_frame(&mut stream, 1).is_err());
    assert_eq!(read_frame(&mut stream, 1).unwrap(), Frame::SingleCharAck);
}

#[test]
fn a_variable_frame_shorter_than_its_header_is_rejected() {
    let mut stream: &[u8] = &[0x68, 0x01, 0x01, 0x68, 0x40, 0x40, 0x16];
    assert_eq!(
        read_frame(&mut stream, 2),
        Err(Error::Frame("frame is too short for its header"))
    );
}

#[test]
fn max_asdu_len_matches_the_standard() {
    assert_eq!(max_asdu_len(0), 254);
    assert_eq!(max_asdu_len(1), 253, "the figure IEC 60870-5-103 quotes");
    assert_eq!(max_asdu_len(2), 252);
    assert_eq!(MAX_FRAME_LEN, 261, "the largest frame on the wire is L+6");
}

fn build_variable_frame(control: u8, link_addr: &[u8], asdu: &[u8]) -> Vec<u8> {
    let l = (1 + link_addr.len() + asdu.len()) as u8;
    let mut out = vec![START_VARIABLE, l, l, START_VARIABLE, control];
    out.extend_from_slice(link_addr);
    out.extend_from_slice(asdu);
    out.push(checksum(control, link_addr, asdu));
    out.push(END_CHAR);
    out
}

#[test]
fn the_reader_accepts_every_legal_length_field() {
    for size in [1u8, 2] {
        let max = max_asdu_len(size);
        for asdu_len in [0, 1, 247, 248, max - 1, max] {
            let addr = vec![0x01; size as usize];
            let asdu = vec![0xab; asdu_len];
            let wire = build_variable_frame(0x53, &addr, &asdu);

            let want_l = 1 + size as usize + asdu_len;
            assert_eq!(wire[1] as usize, want_l);
            assert_eq!(wire.len(), want_l + 6, "the frame is L+6 octets");

            let mut r = wire.as_slice();
            let f = read_frame(&mut r, size)
                .unwrap_or_else(|e| panic!("size {size}, ASDU {asdu_len} (L={want_l}): {e:?}"));
            assert_eq!(f.asdu(), Some(&asdu[..]), "size {size}, ASDU {asdu_len}");
        }
    }
}

#[test]
fn the_largest_asdu_round_trips() {
    for size in [1u8, 2] {
        let f = Frame::Variable {
            control: ControlField::primary(prim_fc::USER_DATA_CONF, true, true, false),
            link_addr: 1,
            asdu: vec![0xcd; max_asdu_len(size)],
        };
        let raw = f
            .marshal(size)
            .unwrap_or_else(|e| panic!("the largest ASDU was refused for size {size}: {e:?}"));
        assert_eq!(raw[1] as usize, MAX_LENGTH_FIELD);
        assert_eq!(raw.len(), MAX_FRAME_LEN);

        let mut r = raw.as_slice();
        assert_eq!(read_frame(&mut r, size).unwrap(), f, "size {size}");
    }
}

#[test]
fn marshal_rejects_an_oversized_asdu() {
    for size in [0u8, 1, 2] {
        let f = Frame::Variable {
            control: ControlField::primary(prim_fc::USER_DATA_CONF, true, true, false),
            link_addr: 1,
            asdu: vec![0; max_asdu_len(size) + 1],
        };
        assert_eq!(
            f.marshal(size),
            Err(Error::Frame("frame length exceeds the FT1.2 maximum")),
            "size {size}"
        );
    }
}

#[test]
fn accessors_expose_the_frame_parts() {
    let f = Frame::Variable {
        control: ControlField::secondary(sec_fc::USER_DATA_CONF, true, false),
        link_addr: 7,
        asdu: vec![9, 9],
    };
    assert_eq!(f.link_addr(), Some(7));
    assert_eq!(f.asdu(), Some(&[9u8, 9][..]));
    assert!(f.control().unwrap().acd);
    assert_eq!(Frame::SingleCharAck.control(), None);
    assert_eq!(Frame::SingleCharAck.asdu(), None);
}

#[test]
fn a_link_address_size_above_two_is_refused() {
    assert_eq!(
        Frame::SingleCharAck.marshal(3),
        Err(Error::Frame("link address size must be 0, 1 or 2"))
    );
    assert_eq!(decode_frame(&[0xe5], 3), Err(Error::Frame("link address size must be 0, 1 or 2")));
    assert_eq!(decode_frame(&[0x68, 0x05], 1), Err(Error::UnexpectedEof));
}

#[test]
fn a_frame_without_link_address_round_trips() {
    let f = Frame::Fixed { control: ControlField::secondary(sec_fc::RESP_STATUS, false, false), link_addr: 0 };
    let raw = f.marshal(0).unwrap();
    assert_eq!(raw, vec![0x10, 0x0b, 0x0b, 0x16]);
    let mut r = raw.as_slice();
    assert_eq!(read_frame(&mut r, 0).unwrap(), f);
}

#[test]
fn the_control_field_prints_its_bits() {
    let c = ControlField::primary(prim_fc::REQ_DATA2, true, true, true);
    assert_eq!(c.to_string(), "CTRL<PRM,DIR FC=0x0B FCB=1>");
    let c = ControlField::secondary(sec_fc::RESP_LINK_NI, true, false);
    assert_eq!(c.to_string(), "CTRL<SEC FC=0x0F ACD=1>");
}
