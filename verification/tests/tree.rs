use owrust::error::OwError;
use owrust::parse_args::debug_switch;
use owrust::parse_args::parse_number;
use owrust::parse_args::value_setting;
use owrust::parse_args::ValueKind;
use owrust::Format;
use owrust::parse_args::OptionGroup;
use owrust::parse_args::Setting;
use owrust::text::hex_text;
use owrust::text::parse_hex;
use owrust::text::push_decimal;
use owrust::text::push_hex;
use owrust::text::same_text;
use owrust::text::split_text;
use owrust::tree::Dir;
use owrust::tree::File;
use owrust::Pressure;
use owrust::Temperature;

#[test]
fn entries_of_a_listing() {
    let f = File::new("/10.AA/temperature".to_string());
    assert_eq!((f.name.as_str(), f.dir), ("temperature", false));
    assert_eq!(f.path, "/10.AA/temperature");
    let d = File::new("/10.AA/".to_string());
    assert_eq!((d.name.as_str(), d.dir), ("10.AA", true));
    let plain = File::new("name".to_string());
    assert_eq!((plain.name.as_str(), plain.dir), ("name", false));
    let empty = File::new(String::new());
    assert_eq!((empty.name.as_str(), empty.dir), ("", false));
    let root = File::new("/".to_string());
    assert_eq!((root.name.as_str(), root.dir), ("", true));
    let double = File::new("/a//".to_string());
    assert_eq!((double.name.as_str(), double.dir), ("", true));
    let start = File::root("/bus.0".to_string());
    assert_eq!((start.name.as_str(), start.path.as_str(), start.dir), ("/bus.0", "/bus.0", true));
}

#[test]
fn lines_of_a_tree() {
    let f = File::new("/10.AA/temperature".to_string());
    assert_eq!(f.line("", false), "\u{251c}\u{2500}\u{2500} temperature");
    assert_eq!(f.line("", true), "\u{2514}\u{2500}\u{2500} temperature");
    assert_eq!(f.line("\u{2502}   ", true), "\u{2502}   \u{2514}\u{2500}\u{2500} temperature");
    assert_eq!(File::child_prefix("", true), "    ");
    assert_eq!(File::child_prefix("    ", false), "    \u{2502}   ");
}

#[test]
fn directory_of_a_listing() {
    let dir = Dir::new(vec!["/10.AA/".to_string(), "/uncached/".to_string(), "/x".to_string()]);
    assert_eq!(dir.contents.len(), 3);
    assert_eq!(dir.contents[1].name, "uncached");
    assert!(dir.contents[0].dir && dir.contents[1].dir && !dir.contents[2].dir);
    assert!(!dir.is_last(0) && !dir.is_last(1) && dir.is_last(2) && !dir.is_last(3));
    let none = Dir::null_dir();
    assert!(none.contents.is_empty());
    assert!(!none.is_last(0));
    assert_eq!(Dir::new(vec![]), none);
}

#[test]
fn numbers_in_text() {
    for (n, want) in [(0i64, "0"), (7, "7"), (10, "10"), (65536, "65536"), (-1, "-1"), (-120, "-120"), (i64::MAX, "9223372036854775807"), (i64::MIN, "-9223372036854775808")] {
        let mut s = String::from(">");
        push_decimal(&mut s, n);
        assert_eq!(s, format!(">{}", want));
    }
    for (n, want) in [(0u32, "0"), (9, "9"), (10, "A"), (15, "F"), (16, "10"), (0x10001, "10001"), (u32::MAX, "FFFFFFFF")] {
        let mut s = String::new();
        push_hex(&mut s, n);
        assert_eq!(s, want);
    }
}

#[test]
fn hex_text_and_back() {
    assert_eq!(hex_text(&[]), "");
    assert_eq!(hex_text(&[0x0F]), "0F");
    assert_eq!(hex_text(&[0, 0x9A, 0xFF]), "00 9A FF");
    assert_eq!(parse_hex(b"009aFf"), Some(vec![0, 0x9A, 0xFF]));
    assert_eq!(parse_hex(b""), Some(vec![]));
    assert_eq!(parse_hex(b"0"), None);
    assert_eq!(parse_hex(b"0g"), None);
    assert_eq!(parse_hex(b"g0"), None);
    assert_eq!(parse_hex(b"/0"), None);
    assert_eq!(parse_hex(b":0"), None);
    assert_eq!(parse_hex(b"@0"), None);
    assert_eq!(parse_hex(b"`0"), None);
    for b in 0u8..=255 {
        let text = hex_text(&[b]);
        assert_eq!(parse_hex(text.as_bytes()), Some(vec![b]));
    }
}

#[test]
fn text_split_at_a_separator() {
    assert_eq!(split_text("", ','), vec![""]);
    assert_eq!(split_text("a", ','), vec!["a"]);
    assert_eq!(split_text(",", ','), vec!["", ""]);
    assert_eq!(split_text("a,b", ','), vec!["a", "b"]);
    assert_eq!(split_text(",a,,b,", ','), vec!["", "a", "", "b", ""]);
    assert_eq!(split_text("/10.AA/\u{e9}", '/'), vec!["", "10.AA", "\u{e9}"]);
    for text in ["", "x", "a,b,,c", ",,"] {
        let want: Vec<String> = text.split(',').map(String::from).collect();
        assert_eq!(split_text(text, ','), want);
    }
    assert!(same_text("id", "id"));
    assert!(!same_text("id", "Id"));
    assert!(!same_text("id", "idx"));
    assert!(same_text("", ""));
}

#[test]
fn switches_of_the_groups() {
    let temperature = OptionGroup::Temperature.switches();
    let names: Vec<(&str, &str)> = temperature.iter().map(|s| (s.short, s.long)).collect();
    assert_eq!(names, vec![("-C", "--Celsius"), ("-F", "--Farenheit"), ("-K", "--Kelvin"), ("-R", "--Rankine")]);
    assert_eq!(temperature[2].sets, Setting::Temperature(Temperature::KELVIN));
    let pressure = OptionGroup::Pressure.switches();
    let names: Vec<&str> = pressure.iter().map(|s| s.long).collect();
    assert_eq!(names, vec!["--mmhg", "--inhg", "--mbar", "--atm", "--pa", "--psi"]);
    assert!(pressure.iter().all(|s| s.short.is_empty()));
    assert_eq!(pressure[4].sets, Setting::Pressure(Pressure::PA));
    let directory = OptionGroup::Directory.switches();
    let sets: Vec<Setting> = directory.iter().map(|s| s.sets.clone()).collect();
    assert_eq!(sets, vec![Setting::Slash, Setting::Bare, Setting::Prune]);
    assert_eq!(OptionGroup::Data.switches()[0].long, "--hex");
    assert_eq!(OptionGroup::Persist.switches()[0].sets, Setting::Persist);
    assert!(OptionGroup::Server.switches().is_empty());
    assert!(OptionGroup::Listener.switches().is_empty());
    assert!(OptionGroup::Format.switches().is_empty());
    let debug = debug_switch();
    assert_eq!((debug.short, debug.long, debug.sets), ("-d", "--debug", Setting::Debug));
}

#[test]
fn options_with_values() {
    let names = |g: OptionGroup| -> Vec<(&str, &str, ValueKind)> {
        g.values().iter().map(|o| (o.short, o.long, o.kind)).collect()
    };
    assert_eq!(names(OptionGroup::Server), vec![("-s", "--server", ValueKind::Server)]);
    assert_eq!(names(OptionGroup::Listener), vec![("-p", "--port", ValueKind::Listener)]);
    assert_eq!(names(OptionGroup::Format), vec![("-f", "--format", ValueKind::Format)]);
    assert_eq!(
        names(OptionGroup::Data),
        vec![("", "--size", ValueKind::Size), ("", "--offset", ValueKind::Offset)]
    );
    assert!(names(OptionGroup::Temperature).is_empty());
    assert!(names(OptionGroup::Persist).is_empty());
    assert_eq!(value_setting(ValueKind::Server, "h:1"), Ok(Setting::Server("h:1".to_string())));
    assert_eq!(
        value_setting(ValueKind::Listener, "localhost:14304"),
        Ok(Setting::Listener("localhost:14304".to_string()))
    );
    assert_eq!(value_setting(ValueKind::Format, "fi.c"), Ok(Setting::Format(Format::FIdC)));
    assert!(matches!(value_setting(ValueKind::Format, "x"), Err(OwError::Input(_))));
    assert_eq!(value_setting(ValueKind::Size, "12"), Ok(Setting::Size(12)));
    assert_eq!(value_setting(ValueKind::Offset, "0"), Ok(Setting::Offset(0)));
    assert!(matches!(value_setting(ValueKind::Size, "-1"), Err(OwError::Args(_))));
    assert!(matches!(value_setting(ValueKind::Offset, ""), Err(OwError::Args(_))));
}

#[test]
fn numbers_from_text() {
    for text in ["0", "7", "+7", "007", "4294967295", "+4294967295", "00000000000000000000000012"] {
        assert_eq!(parse_number(text), text.parse::<u32>().ok(), "{}", text);
        assert!(parse_number(text).is_some());
    }
    for text in ["", "+", "-1", "4294967296", "99999999999999999999999", "1a", "a1", " 1", "1 ", "++1", "1+", "\u{661}"] {
        assert_eq!(parse_number(text), None, "{}", text);
        assert!(text.parse::<u32>().is_err());
    }
    assert_eq!(parse_number("4294967295"), Some(u32::MAX));
}
