use owrust::error::OwError;
use owrust::header::Header;
use owrust::print_message::PrintMessage;
use owrust::query::Operation;
use owrust::query::OwQuery;
use owrust::response::OwResponse;

#[test]
fn test_blank_query() {
    let query = OwQuery::new(0x10101010 as u32, OwQuery::READ, Some("/"), None, [0u8; 16]).unwrap();
    let desc = query.print_all("Test Query").join("\n").to_string();
    assert_eq!(
        desc,
        "Test Query  Version: 10001 tokens=1\nReturn code = 2\nFlags: C psi f.i   safe   \nPayload:2 Size:65536 Offset:0"
            .to_string()
    );
}

#[test]
fn test_blank_response() {
    let resp = OwResponse::new(0x10101010 as u32);
    let desc = resp.print_all("Test Response").join("\n").to_string();
    assert_eq!(
        desc,
        "Test Response  Version: 1\nUNKNOWN message number 0\nFlags: C psi f.i   safe   \nPayload:0 Size:0 Offset:0\n"
            .to_string()
    );
}

#[test]
fn header_round_trip_on_values() {
    let h = Header {
        version: 0x0001_0002,
        payload: 0xFFFF_FFFF,
        kind: 3,
        flags: 0x0502_0106,
        size: 65536,
        offset: 7,
    };
    let bytes = h.encode();
    assert_eq!(
        bytes,
        vec![0, 1, 0, 2, 255, 255, 255, 255, 0, 0, 0, 3, 5, 2, 1, 6, 0, 1, 0, 0, 0, 0, 0, 7]
    );
    let mut raw = [0u8; 24];
    raw.copy_from_slice(&bytes);
    assert_eq!(Header::decode(&raw), h);
    assert_eq!(Header::read(&bytes), Some(h));
    assert_eq!(Header::read(&bytes[..23]), None);
    assert_eq!(h.payload_length(), -1);
    assert_eq!(h.return_code(), 3);
    assert_eq!(h.content_len(), 0);
    assert_eq!(h.token_len(), 32);
}

#[test]
fn header_extreme_words_round_trip() {
    for word in [0u32, 1, 0x7FFF_FFFF, 0x8000_0000, 0xFFFF_FFFF, 0x0102_0304] {
        let h = Header { version: word, payload: !word, kind: word, flags: word, size: !word, offset: word };
        let bytes = h.encode();
        let mut raw = [0u8; 24];
        raw.copy_from_slice(&bytes);
        assert_eq!(Header::decode(&raw), h);
    }
}

#[test]
fn signed_and_unsigned_words() {
    assert_eq!(owrust::header::to_signed(0xFFFF_FFFF), -1);
    assert_eq!(owrust::header::to_signed(0x8000_0000), i32::MIN);
    assert_eq!(owrust::header::to_signed(0x7FFF_FFFF), i32::MAX);
    assert_eq!(owrust::header::to_unsigned(-1), 0xFFFF_FFFF);
    assert_eq!(owrust::header::to_unsigned(i32::MIN), 0x8000_0000);
    assert_eq!(owrust::header::to_unsigned(5), 5);
}

#[test]
fn write_query_has_path_nul_and_value() {
    let token = [7u8; 16];
    let q = OwQuery::new(0, OwQuery::WRITE, Some("/10.AA/temphigh"), Some(b"30.0"), token).unwrap();
    assert_eq!(q.payload, 16 + 4);
    assert_eq!(q.size, 4);
    assert_eq!(q.offset, 0);
    assert_eq!(q.content, b"/10.AA/temphigh\x0030.0".to_vec());
    assert_eq!(q.version, 0x1_0001);
    assert_eq!(q.tokenlist, vec![token]);
}

#[test]
fn query_without_path_is_empty() {
    let q = OwQuery::new(5, OwQuery::NOP, None, None, [1u8; 16]).unwrap();
    assert_eq!(q.payload, 0);
    assert_eq!(q.size, 65536);
    assert!(q.content.is_empty());
    assert_eq!(q.flags, 5);
    assert_eq!(q.mtype, 1);
}

#[test]
fn query_refuses_embedded_nul() {
    let r = OwQuery::new(0, OwQuery::READ, Some("/10.AA\0/x"), None, [0u8; 16]);
    assert_eq!(r, Err(OwError::Text("Nul Error".to_string())));
    let mut q = OwQuery::new(0, OwQuery::READ, Some("/a"), None, [0u8; 16]).unwrap();
    let before = q.content.clone();
    assert!(matches!(q.add_path("a\0"), Err(OwError::Text(_))));
    assert_eq!(q.content, before);
}

#[test]
fn query_bytes_are_header_content_tokens() {
    let mut q = OwQuery::new(0x0000_0102, OwQuery::READ, Some("/a"), None, [0xAB; 16]).unwrap();
    let mut second = [0u8; 16];
    for (i, b) in second.iter_mut().enumerate() {
        *b = i as u8;
    }
    assert_eq!(q.add_token(second), Ok(()));
    assert_eq!(q.version, 0x1_0002);
    let bytes = q.to_bytes();
    let mut want: Vec<u8> = vec![
        0, 1, 0, 2, 0, 0, 0, 3, 0, 0, 0, 2, 0, 0, 1, 2, 0, 1, 0, 0, 0, 0, 0, 0,
    ];
    want.extend_from_slice(b"/a\0");
    want.extend_from_slice(&[0xAB; 16]);
    want.extend_from_slice(&second);
    assert_eq!(bytes, want);
    let (back, used) = OwQuery::parse(&bytes).unwrap();
    assert_eq!(used, bytes.len());
    assert_eq!(back, q);
}

#[test]
fn add_token_refuses_a_token_that_is_there() {
    let first = [1u8; 16];
    let second = [2u8; 16];
    let mut q = OwQuery::new(7, OwQuery::READ, Some("/a"), None, first).unwrap();
    let before = q.clone();
    assert_eq!(q.add_token(first), Err(OwError::TopologyLoop));
    assert_eq!(q, before);
    assert_eq!(q.add_token(second), Ok(()));
    assert_eq!(q.tokenlist, vec![first, second]);
    assert_eq!(q.version, 0x1_0002);
    let held = q.clone();
    assert_eq!(q.add_token(first), Err(OwError::TopologyLoop));
    assert_eq!(q.add_token(second), Err(OwError::TopologyLoop));
    assert_eq!(q, held);
    // the version announces what the list holds, whatever it said before
    let mut odd = OwQuery::new(0, OwQuery::NOP, None, None, first).unwrap();
    odd.tokenlist.clear();
    odd.version = 0x1_0007;
    assert_eq!(odd.add_token(second), Ok(()));
    assert_eq!((odd.version, odd.tokenlist.len()), (0x1_0001, 1));
    odd.version = 5;
    assert_eq!(odd.add_token(first), Ok(()));
    assert_eq!((odd.version, odd.tokenlist.len()), (0x1_0002, 2));
}

#[test]
fn query_parse_needs_whole_frame() {
    let q = OwQuery::new(0, OwQuery::DIR, Some("/"), None, [3u8; 16]).unwrap();
    let bytes = q.to_bytes();
    for cut in [0usize, 10, 23, 24, 25, bytes.len() - 1] {
        assert!(OwQuery::parse(&bytes[..cut]).is_none(), "cut at {}", cut);
    }
    let mut longer = bytes.clone();
    longer.extend_from_slice(&[9, 9, 9]);
    let (back, used) = OwQuery::parse(&longer).unwrap();
    assert_eq!(used, bytes.len());
    assert_eq!(back, q);
}

#[test]
fn assemble_checks_lengths() {
    let h = Header { version: 0x1_0001, payload: 3, kind: 2, flags: 0, size: 0, offset: 0 };
    assert!(OwQuery::assemble(&h, b"/a\0".to_vec(), &[5u8; 16]).is_ok());
    assert!(matches!(OwQuery::assemble(&h, b"/a".to_vec(), &[5u8; 16]), Err(OwError::General(_))));
    assert!(matches!(OwQuery::assemble(&h, b"/a\0".to_vec(), &[5u8; 15]), Err(OwError::General(_))));
    assert!(OwResponse::assemble(&h, b"abc".to_vec()).is_ok());
    assert!(matches!(OwResponse::assemble(&h, b"abcd".to_vec()), Err(OwError::General(_))));
    let ping = Header { version: 0, payload: 0xFFFF_FFFF, kind: 0, flags: 0, size: 0, offset: 0 };
    let r = OwResponse::assemble(&ping, Vec::new()).unwrap();
    assert!(r.is_ping());
    assert_eq!(r.payload, -1);
}

#[test]
fn relay_appends_its_token_once() {
    let client = [1u8; 16];
    let relay = [2u8; 16];
    let q = OwQuery::new(0, OwQuery::READ, Some("/x"), None, client).unwrap();
    let bytes = q.to_bytes();
    let (seen, used) = OwQuery::get_plus_ping(&bytes, relay).unwrap();
    assert_eq!(used, bytes.len());
    assert_eq!(seen.tokenlist, vec![client, relay]);
    assert_eq!(seen.version, 0x1_0002);
    assert_eq!(seen.content, q.content);
    // the same query comes back to the relay
    let again = seen.to_bytes();
    assert_eq!(OwQuery::get_plus_ping(&again, relay), Err(OwError::TopologyLoop));
    assert_eq!(OwQuery::get(&again, relay), Err(OwError::TopologyLoop));
    assert!(matches!(OwQuery::get_plus_ping(&again[..30], relay), Err(OwError::General(_))));
}

#[test]
fn query_get_passes_over_keep_alives() {
    let relay = [2u8; 16];
    let ping = Header { version: 0, payload: 0xFFFF_FFFE, kind: 1, flags: 0, size: 0, offset: 0 };
    let q = OwQuery::new(0, OwQuery::READ, Some("/x"), None, [1u8; 16]).unwrap();
    let mut bytes = ping.encode();
    bytes.extend_from_slice(&ping.encode());
    bytes.extend_from_slice(&q.to_bytes());
    let (first, used) = OwQuery::get_plus_ping(&bytes, relay).unwrap();
    assert!(first.is_ping());
    assert_eq!(used, 24);
    let (found, used) = OwQuery::get(&bytes, relay).unwrap();
    assert_eq!(used, bytes.len());
    assert_eq!(found.payload, 3);
    assert_eq!(found.tokenlist, vec![[1u8; 16], relay]);
    assert!(matches!(OwQuery::get(&bytes[..48], relay), Err(OwError::General(_))));
}

#[test]
fn response_bytes_and_back() {
    let r = OwResponse {
        version: 0,
        payload: 5,
        ret: -22,
        flags: 0x0000_0106,
        size: 5,
        offset: 0,
        content: b"12.5\0".to_vec(),
    };
    let bytes = r.to_bytes();
    assert_eq!(&bytes[8..12], &[0xFF, 0xFF, 0xFF, 0xEA]);
    assert_eq!(bytes.len(), 29);
    let (back, used) = OwResponse::parse(&bytes).unwrap();
    assert_eq!(used, 29);
    assert_eq!(back, r);
    assert!(OwResponse::parse(&bytes[..28]).is_none());
    assert!(matches!(OwResponse::get_plus_ping(&bytes[..28]), Err(OwError::General(_))));
}

#[test]
fn response_get_passes_over_keep_alives() {
    let ping = OwResponse { version: 0, payload: -1, ret: 0, flags: 0, size: 0, offset: 0, content: vec![] };
    let answer = OwResponse { version: 0, payload: 2, ret: 2, flags: 0, size: 2, offset: 0, content: b"ok".to_vec() };
    let mut bytes = ping.to_bytes();
    assert_eq!(bytes.len(), 24);
    bytes.extend_from_slice(&ping.to_bytes());
    bytes.extend_from_slice(&answer.to_bytes());
    let (first, used) = OwResponse::get_plus_ping(&bytes).unwrap();
    assert_eq!((first.payload, used), (-1, 24));
    let (found, used) = OwResponse::get(&bytes).unwrap();
    assert_eq!(found, answer);
    assert_eq!(used, bytes.len());
    assert!(matches!(OwResponse::get(&bytes[..48]), Err(OwError::General(_))));
}

#[test]
fn operations_and_their_tags() {
    let all = [
        (Operation::Nop, 1, "NOP", false),
        (Operation::Read, 2, "READ", false),
        (Operation::Write, 3, "WRITE", false),
        (Operation::Dir, 4, "DIR", true),
        (Operation::Size, 5, "SIZE", false),
        (Operation::Present, 6, "PRESENT", false),
        (Operation::DirAll, 7, "DIRALL", true),
        (Operation::Get, 8, "GET", false),
        (Operation::DirAllSlash, 9, "DIRALLSLASH", true),
        (Operation::GetSlash, 10, "GETSLASH", false),
    ];
    for (op, tag, name, dir) in all {
        assert_eq!(op.tag(), tag);
        assert_eq!(Operation::from_tag(tag), Some(op));
        assert_eq!(OwQuery::message_name(tag), name);
        assert_eq!(op.is_directory(), dir);
    }
    assert_eq!(Operation::from_tag(0), None);
    assert_eq!(Operation::from_tag(11), None);
    assert_eq!(OwQuery::message_name(11), "UNKNOWN");
}

#[test]
fn trace_lines_of_a_write() {
    let q = OwQuery::new(0x0503_0024, OwQuery::WRITE, Some("/10.AA/temphigh"), Some(b"30.0"), [0u8; 16]).unwrap();
    assert_eq!(q.mtype_line_2(), "WRITE /10.AA/temphigh\0 => 33 30 2E 30");
    assert_eq!(q.string_path_pair(), ("/10.AA/temphigh\0".to_string(), "33 30 2E 30".to_string()));
    assert_eq!(q.return_line_2(), "Return code = 3");
    assert_eq!(q.line_2(), "Return code = 3");
    assert_eq!(q.flags_line_3(), "Flags: R mbar fic  uncached   persist ");
    assert_eq!(q.sizes_line_4(), "Payload:20 Size:4 Offset:0");
    assert_eq!(q.string_version(), "10001 tokens=1");
    assert_eq!(q.version_line_1("T"), "T  Version: 10001 tokens=1");
    assert_eq!(q.ret(), 3);
    assert_eq!(q.mtype(), 3);
}

#[test]
fn trace_lines_of_other_messages() {
    let dir = OwQuery::new(0, OwQuery::DIRALLSLASH, Some("/bus.0"), None, [0u8; 16]).unwrap();
    assert_eq!(dir.string_type(), "DIRALLSLASH /bus.0\0");
    let size = OwQuery::new(0, OwQuery::SIZE, Some("/x"), None, [0u8; 16]).unwrap();
    assert_eq!(size.string_type(), "SIZE");
    let mut odd = OwQuery::new(0, 77, None, None, [0u8; 16]).unwrap();
    assert_eq!(odd.string_type(), "UNKNOWN message number 77");
    odd.version = 0xAACDEF;
    assert_eq!(odd.string_version(), "AACDEF");
    odd.version = 0xABCDEF;
    assert_eq!(odd.string_version(), "ABCDEF tokens=52719");
    odd.version = 0;
    assert_eq!(odd.string_version(), "0");
    let failed = OwResponse { version: 0, payload: 0, ret: -1, flags: 0, size: 0, offset: 0, content: vec![] };
    assert_eq!(failed.return_line_2(), "Return code = -1");
    assert_eq!(failed.mtype(), 0xFFFF_FFFF);
    assert_eq!(failed.line_2(), "UNKNOWN message number 4294967295");
    assert_eq!(failed.string_payload(), "0");
    let ping = OwResponse { version: 0, payload: i32::MIN, ret: 0, flags: 0, size: u32::MAX, offset: 9, content: vec![] };
    assert_eq!(ping.sizes_line_4(), "Payload:-2147483648 Size:4294967295 Offset:9");
}

#[test]
fn trace_replaces_malformed_text() {
    let mut q = OwQuery::new(0, OwQuery::READ, Some("/a"), None, [0u8; 16]).unwrap();
    q.content = vec![b'/', 0xFF, b'a'];
    assert_eq!(q.string_path(), "/\u{FFFD}a");
    // a write whose sizes do not fit its content shows all of it as the path
    let mut w = OwQuery::new(0, OwQuery::WRITE, Some("/a"), Some(b"xy"), [0u8; 16]).unwrap();
    w.size = 9;
    assert_eq!(w.string_path_pair(), ("/a\0xy".to_string(), "".to_string()));
}

#[test]
fn bytes_missing_of_a_frame() {
    let r = OwResponse { version: 0, payload: 5, ret: 0, flags: 0, size: 5, offset: 0, content: b"12.5\0".to_vec() };
    let bytes = r.to_bytes();
    assert_eq!(OwResponse::missing(&[]), 24);
    assert_eq!(OwResponse::missing(&bytes[..10]), 14);
    assert_eq!(OwResponse::missing(&bytes[..24]), 5);
    assert_eq!(OwResponse::missing(&bytes[..27]), 2);
    assert_eq!(OwResponse::missing(&bytes), 0);
    let q = OwQuery::new(0, OwQuery::READ, Some("/a"), None, [1u8; 16]).unwrap();
    let bytes = q.to_bytes();
    assert_eq!(bytes.len(), 24 + 3 + 16);
    assert_eq!(OwQuery::missing(&[]), 24);
    assert_eq!(OwQuery::missing(&bytes[..24]), 19);
    assert_eq!(OwQuery::missing(&bytes[..30]), 13);
    assert_eq!(OwQuery::missing(&bytes), 0);
    let ping = Header { version: 0, payload: 0xFFFF_FFFF, kind: 0, flags: 0, size: 0, offset: 0 };
    let mut stream = ping.encode();
    assert_eq!(OwQuery::missing(&stream), 0);
    assert_eq!(OwQuery::missing_past_pings(&stream), 24);
    stream.extend_from_slice(&bytes[..24]);
    assert_eq!(OwQuery::missing_past_pings(&stream), 19);
    stream.extend_from_slice(&bytes[24..]);
    assert_eq!(OwQuery::missing_past_pings(&stream), 0);
    assert!(OwQuery::get(&stream, [2u8; 16]).is_ok());
}
