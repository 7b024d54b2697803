use owrust::client::basename;
use owrust::client::last_segment;
use owrust::client::OwClient;
use owrust::error::OwError;
use owrust::receive::receive;
use owrust::receive::Receiver;
use owrust::receive::ReceiverState;
use owrust::response::OwResponse;
use owrust::Format;
use owrust::Pressure;
use owrust::Temperature;

fn frame(payload: i32, ret: i32, content: &[u8]) -> OwResponse {
    OwResponse { version: 0, payload, ret, flags: 0, size: 0, offset: 0, content: content.to_vec() }
}

fn ping() -> OwResponse {
    frame(-1, 0, b"")
}

fn client() -> OwClient {
    OwClient::new([9u8; 16])
}

#[test]
fn new_client() {
    let owc = OwClient::new([0u8; 16]);
    assert_eq!(owc.temperature, Temperature::DEFAULT);
    assert_eq!(owc.pressure, Pressure::DEFAULT);
    assert_eq!(owc.format, Format::DEFAULT);
}

#[test]
fn new_client_defaults() {
    let owc = owrust::new([4u8; 16]);
    assert_eq!(owc.owserver, "localhost:4304");
    assert_eq!(owc.listener, None);
    assert_eq!(owc.token, [4u8; 16]);
    assert_eq!(owc.flags, 2);
    assert_eq!((owc.size, owc.offset, owc.debug), (0, 0, 0));
    assert!(!owc.slash && !owc.hex && !owc.bare && !owc.prune && !owc.persistence);
    assert_eq!(owc, OwClient::new([4u8; 16]));
}

#[test]
fn printable_test() {
    let mut owc = OwClient::new([0u8; 16]);
    // Regular
    owc.hex = false;
    let v: Vec<u8> = vec![72, 101, 108, 108, 111];
    let x = owc.show_result(v).unwrap();
    assert_eq!(x, "Hello");

    // Hex
    owc.hex = true;
    let v: Vec<u8> = vec![72, 101, 108, 108, 111];
    let x = owc.show_result(v).unwrap();
    assert_eq!(x, "48 65 6C 6C 6F");
}

#[test]
fn bn_test() {
    let xs = vec![
        ("basename", "basename".to_string()),
        ("basename.0", "basename".to_string()),
        ("basename.1/", "basename".to_string()),
        ("/dir/basename", "basename".to_string()),
        ("dir/basename/", "basename".to_string()),
        ("/root/dir/basename.2.3", "basename".to_string()),
    ];
    for x in xs {
        let s = basename(x.0);
        assert_eq!(s, x.1);
    }
}

#[test]
fn basename_edge_cases() {
    assert_eq!(basename(""), "");
    assert_eq!(basename("/"), "");
    assert_eq!(basename("///"), "");
    assert_eq!(basename("/10.AA/.hidden"), "");
    assert_eq!(basename("/10.AA//"), "10");
    assert_eq!(basename("/bus.0/10.AA/r_id"), "r_id");
}

#[test]
fn show_result_edge_cases() {
    let mut owc = client();
    assert_eq!(owc.show_result(vec![]), Ok(String::new()));
    assert_eq!(owc.show_result(vec![0xC3, 0xA9]), Ok("\u{e9}".to_string()));
    assert_eq!(owc.show_result(vec![0xC3]), Err(OwError::Text("Utf8 Error".to_string())));
    assert_eq!(owc.show_result(vec![b'a', 0xFF]), Err(OwError::Text("Utf8 Error".to_string())));
    owc.hex = true;
    assert_eq!(owc.show_result(vec![]), Ok(String::new()));
    assert_eq!(owc.show_result(vec![0, 0x0A, 0xFF]), Ok("00 0A FF".to_string()));
    assert_eq!(owc.show_result(vec![0xC3]), Ok("C3".to_string()));
}

#[test]
fn hex_decode() {
    let mut owc = client();
    owc.hex = true;
    assert_eq!(owc.input_to_write("48656C6C6F"), Ok(b"Hello".to_vec()));
    assert_eq!(owc.input_to_write("48656c6c6f"), Ok(b"Hello".to_vec()));
    assert_eq!(owc.input_to_write(""), Ok(vec![]));
    assert_eq!(owc.input_to_write("00ff7F"), Ok(vec![0, 255, 127]));
    assert_eq!(
        owc.input_to_write("486"),
        Err(OwError::Numeric("Hex string should be an even length".to_string()))
    );
    assert_eq!(owc.input_to_write("G1"), Err(OwError::Numeric("Bad hex characters".to_string())));
    assert!(matches!(owc.input_to_write("48G1"), Err(OwError::Numeric(_))));
    assert!(matches!(owc.input_to_write("+1"), Err(OwError::Numeric(_))));
    assert!(matches!(owc.input_to_write("4 "), Err(OwError::Numeric(_))));
    assert!(matches!(owc.input_to_write("\u{e9}"), Err(OwError::Numeric(_))));
    owc.hex = false;
    assert_eq!(owc.input_to_write("G1"), Ok(b"G1".to_vec()));
    assert_eq!(owc.input_to_write("30.0"), Ok(b"30.0".to_vec()));
    assert_eq!(owc.input_to_write("\u{e9}"), Ok(vec![0xC3, 0xA9]));
}

#[test]
fn write_end_to_end() {
    let owc = client();
    let q = owc.make_write("/10.AA/temphigh", b"30.0").unwrap();
    assert_eq!(q.payload as usize, "/10.AA/temphigh\0".len() + 4);
    assert_eq!(q.size, 4);
    assert_eq!(q.mtype, 3);
    assert_eq!(q.flags, owc.flags);
    assert_eq!(q.tokenlist, vec![[9u8; 16]]);
    assert_eq!(owc.write(vec![frame(0, 0, b"")]), Ok(()));
    assert_eq!(owc.write(vec![frame(0, -1, b"")]), Err(OwError::Output(-1)));
    assert_eq!(owc.write(vec![frame(0, 5, b"")]), Err(OwError::Output(5)));
    assert_eq!(
        OwError::Output(-1).describe(),
        "Output error: Return code from owserver is error -1"
    );
    assert!(matches!(owc.write(vec![]), Err(OwError::General(_))));
    assert!(matches!(owc.write(vec![ping(), ping()]), Err(OwError::General(_))));
}

#[test]
fn queries_of_each_call() {
    let mut owc = client();
    assert_eq!(owc.make_read("/a").unwrap().mtype, 2);
    assert_eq!(owc.make_dir("/a").unwrap().mtype, 4);
    assert_eq!(owc.make_size("/a").unwrap().mtype, 5);
    assert_eq!(owc.make_present("/a").unwrap().mtype, 6);
    assert_eq!(owc.make_dirall("/a").unwrap().mtype, 7);
    assert_eq!(owc.make_get("/a").unwrap().mtype, 8);
    assert_eq!(owc.make_dirallslash("/a").unwrap().mtype, 9);
    assert_eq!(owc.make_getslash("/a").unwrap().mtype, 10);
    owc.slash = true;
    assert_eq!(owc.make_dirall("/a").unwrap().mtype, 9);
    assert_eq!(owc.make_get("/a").unwrap().mtype, 10);
    let q = owc.make_read("/a").unwrap();
    assert_eq!(q.content, b"/a\0".to_vec());
    assert_eq!((q.payload, q.size, q.offset), (3, 65536, 0));
    assert!(matches!(owc.make_read("/a\0b"), Err(OwError::Text(_))));
    assert!(matches!(owc.make_write("\0", b"1"), Err(OwError::Text(_))));
}

#[test]
fn read_takes_the_first_frame_that_is_no_ping() {
    let owc = client();
    assert_eq!(owc.read(vec![frame(4, 4, b"12.5")]), Ok(b"12.5".to_vec()));
    assert_eq!(owc.read(vec![ping(), ping(), frame(4, 4, b"12.5"), frame(1, 0, b"x")]), Ok(b"12.5".to_vec()));
    assert_eq!(owc.get(vec![ping(), frame(2, 0, b"ab")]), Ok(b"ab".to_vec()));
    assert_eq!(owc.read(vec![frame(0, -5, b"")]), Ok(vec![]));
    assert!(matches!(owc.read(vec![ping()]), Err(OwError::General(_))));
}

#[test]
fn present_and_size() {
    let owc = client();
    assert_eq!(owc.present(vec![frame(0, 0, b"")]), Ok(true));
    assert_eq!(owc.present(vec![ping(), frame(0, -1, b"")]), Ok(false));
    assert_eq!(owc.size(vec![frame(0, 12, b"")]), Ok(12));
    assert_eq!(owc.size(vec![frame(0, 0, b"")]), Ok(0));
    assert_eq!(owc.size(vec![ping(), frame(0, -3, b"")]), Err(OwError::Output(-3)));
    assert!(matches!(owc.size(vec![]), Err(OwError::General(_))));
}

#[test]
fn ping_transparency_on_values() {
    let owc = client();
    let with = || vec![ping(), frame(7, 0, b"/10.AA\0"), ping(), ping(), frame(7, 0, b"/05.BB\0"), ping(), frame(0, 0, b"")];
    let without = || vec![frame(7, 0, b"/10.AA\0"), frame(7, 0, b"/05.BB\0"), frame(0, 0, b"")];
    assert_eq!(owc.dir(with()), owc.dir(without()));
    assert_eq!(owc.dirall(with()), owc.dirall(without()));
    assert_eq!(owc.read(with()), owc.read(without()));
    assert_eq!(owc.get(with()), owc.get(without()));
    assert_eq!(owc.write(with()), owc.write(without()));
    assert_eq!(owc.present(with()), owc.present(without()));
    assert_eq!(owc.size(with()), owc.size(without()));
    assert_eq!(receive(true, with()), receive(true, without()));
    assert_eq!(receive(false, with()), receive(false, without()));
    assert_eq!(owc.dir(with()), Ok(vec!["/10.AA".to_string(), "/05.BB".to_string()]));
}

#[test]
fn directory_aggregation() {
    let frames = vec![frame(7, 0, b"/10.AA\0"), frame(7, 0, b"/05.BB\0"), frame(0, 0, b"")];
    let all = receive(true, frames).unwrap();
    assert_eq!(all.payload, 14);
    assert_eq!(all.content, b"/10.AA,/05.BB\0".to_vec());
    assert_eq!(String::from_utf8_lossy(&all.content).trim_end_matches('\0'), "/10.AA,/05.BB");
}

#[test]
fn aggregation_edge_cases() {
    // an empty listing is the closing frame alone
    let empty = receive(true, vec![ping(), frame(0, 0, b"")]).unwrap();
    assert_eq!((empty.payload, empty.content.len()), (0, 0));
    // one frame and the closing frame
    let one = receive(true, vec![frame(3, 0, b"/a\0"), frame(0, 0, b""), frame(3, 0, b"/b\0")]).unwrap();
    assert_eq!(one.content, b"/a\0".to_vec());
    // no closing frame: no answer yet
    assert!(matches!(receive(true, vec![frame(3, 0, b"/a\0"), frame(3, 0, b"/b\0")]), Err(OwError::General(_))));
    assert!(matches!(receive(true, vec![]), Err(OwError::General(_))));
    // three frames
    let three = receive(true, vec![frame(3, 0, b"/a\0"), frame(3, 0, b"/b\0"), ping(), frame(3, 0, b"/c\0"), frame(0, 0, b"")]).unwrap();
    assert_eq!(three.content, b"/a,/b,/c\0".to_vec());
    assert_eq!(three.payload, 9);
    // payloads that cannot be summed
    let big = OwResponse { version: 0, payload: i32::MAX, ret: 0, flags: 0, size: 0, offset: 0, content: b"/a\0".to_vec() };
    assert!(matches!(receive(true, vec![frame(3, 0, b"/a\0"), big, frame(0, 0, b"")]), Err(OwError::Input(_))));
}

#[test]
fn receiver_step_by_step() {
    let r = Receiver::listing();
    assert!(!r.is_done());
    let r = r.accept(ping());
    assert_eq!(r.state, ReceiverState::Waiting);
    let r = r.accept(frame(3, 0, b"/a\0"));
    assert!(!r.is_done());
    let r = r.accept(ping()).accept(frame(3, 0, b"/b\0"));
    assert_eq!(r.state, ReceiverState::Gathering(frame(6, 0, b"/a,/b\0")));
    let r = r.accept(frame(0, 0, b""));
    assert!(r.is_done());
    let r = r.accept(frame(3, 0, b"/c\0"));
    assert_eq!(r.finish(), Ok(frame(6, 0, b"/a,/b\0")));
    let s = Receiver::single().accept(ping());
    assert!(!s.is_done());
    let s = s.accept(frame(3, 7, b"abc"));
    assert!(s.is_done());
    assert_eq!(s.finish(), Ok(frame(3, 7, b"abc")));
}

#[test]
fn bare_filtering() {
    let mut owc = client();
    owc.apply(owrust::parse_args::Setting::Bare);
    assert!(owc.bare && !owc.prune);
    let mut raw = b"/10.AA/address,/10.AA/temperature,/10.AA/id".to_vec();
    assert_eq!(owc.dirboth(&mut raw), Ok(vec!["/10.AA/temperature".to_string()]));
    let mut pruning = client();
    pruning.apply(owrust::parse_args::Setting::Prune);
    let mut raw = b"/10.AA/address,/10.AA/temperature,/10.AA/id".to_vec();
    assert_eq!(pruning.dirboth(&mut raw), Ok(vec!["/10.AA/temperature".to_string()]));
    let mut only_prune = client();
    only_prune.prune = true;
    let mut raw = b"/10.AA/address,/10.AA/temperature,/10.AA/id".to_vec();
    assert_eq!(only_prune.dirboth(&mut raw), Ok(vec!["/10.AA/temperature".to_string()]));
    let plain = client();
    let mut raw = b"/10.AA/address,/10.AA/temperature,/10.AA/id".to_vec();
    assert_eq!(
        plain.dirboth(&mut raw),
        Ok(vec!["/10.AA/address".to_string(), "/10.AA/temperature".to_string(), "/10.AA/id".to_string()])
    );
}

#[test]
fn filtered_names() {
    let mut owc = client();
    owc.bare = true;
    let mut raw = b"/a/address,/a/crc8,/a/family,/a/id,/a/locator,/a/r_address,/a/r_id,/a/r_locator,/a/type,/a/temperature,/a/r_type,/a/address.1,/a/Address,/a/id/,/a/idx,id,/id/x,/a/bus".to_vec();
    assert_eq!(
        owc.dirboth(&mut raw),
        Ok(vec![
            "/a/temperature".to_string(),
            "/a/r_type".to_string(),
            "/a/address.1".to_string(),
            "/a/Address".to_string(),
            "/a/idx".to_string(),
            "/id/x".to_string(),
            "/a/bus".to_string(),
        ])
    );
    let mut empty = b",/,//".to_vec();
    assert_eq!(owc.dirboth(&mut empty), Ok(vec!["".to_string(), "/".to_string(), "//".to_string()]));
}

#[test]
fn final_segments() {
    assert_eq!(last_segment("/10.AA/address.1"), "address.1");
    assert_eq!(last_segment("/10.AA/id/"), "id");
    assert_eq!(last_segment("/10.AA//"), "10.AA");
    assert_eq!(last_segment("name"), "name");
    assert_eq!(last_segment(""), "");
    assert_eq!(last_segment("///"), "");
}

#[test]
fn dirboth_takes_zero_bytes_out() {
    let owc = client();
    let mut raw = b"/10.AA\0,/05\0.BB\0\0".to_vec();
    assert_eq!(owc.dirboth(&mut raw), Ok(vec!["/10.AA".to_string(), "/05.BB".to_string()]));
    assert_eq!(raw, b"/10.AA,/05.BB".to_vec());
    let mut none = Vec::new();
    assert_eq!(owc.dirboth(&mut none), Ok(vec![String::new()]));
    let mut commas = b",a,,".to_vec();
    assert_eq!(owc.dirboth(&mut commas), Ok(vec!["".to_string(), "a".to_string(), "".to_string(), "".to_string()]));
    let mut bad = vec![b'/', 0xFF, 0, b','];
    assert_eq!(owc.dirboth(&mut bad), Err(OwError::Text("Utf8 Error".to_string())));
    assert_eq!(bad, vec![b'/', 0xFF, b',']);
}

#[test]
fn dir_of_frames() {
    let mut owc = client();
    let frames = || vec![frame(18, 0, b"/10.AA/temperature"), ping(), frame(10, 0, b"/10.AA/id\0"), frame(0, 0, b"")];
    assert_eq!(owc.dir(frames()), Ok(vec!["/10.AA/temperatur".to_string(), "/10.AA/id".to_string()]));
    owc.prune = true;
    assert_eq!(owc.dirall(frames()), Ok(vec!["/10.AA/temperatur".to_string()]));
    assert!(matches!(owc.dir(vec![frame(2, 0, b"/a")]), Err(OwError::General(_))));
    assert!(matches!(owc.dir(vec![frame(2, 0, &[0xFF, 0]), frame(0, 0, b"")]), Err(OwError::Text(_))));
}

#[test]
fn errors_in_words() {
    assert_eq!(OwError::General("x".to_string()).describe(), "An error: x");
    assert_eq!(OwError::Input("x".to_string()).describe(), "Input error: x");
    assert_eq!(OwError::Output(0).describe(), "Output error: Return code from owserver is error 0");
    assert_eq!(OwError::Output(i32::MIN).describe(), "Output error: Return code from owserver is error -2147483648");
    assert_eq!(OwError::Io("x".to_string()).describe(), "IO error: x");
    assert_eq!(OwError::Args("x".to_string()).describe(), "Args error: x");
    assert_eq!(OwError::Numeric("x".to_string()).describe(), "Non-numeric characters: x");
    assert_eq!(OwError::Text("x".to_string()).describe(), "Text conversion error: x");
    assert_eq!(OwError::TopologyLoop.describe(), "An error: Loop in owserver topology");
    assert!(OwError::Io("x".to_string()).is_transport());
    assert!(!OwError::TopologyLoop.is_transport());
}
