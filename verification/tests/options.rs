use owrust::client::OwClient;
use owrust::error::OwError;
use owrust::flags;
use owrust::flags::Format;
use owrust::flags::Pressure;
use owrust::flags::Temperature;
use owrust::parse_args::format_match;
use owrust::parse_args::help_text;
use owrust::parse_args::helper_tail;
use owrust::parse_args::long;
use owrust::parse_args::parse_device;
use owrust::parse_args::short;
use owrust::parse_args::OptionGroup;
use owrust::parse_args::OwDir;
use owrust::parse_args::OwGet;
use owrust::parse_args::OwLib;
use owrust::parse_args::OwPresent;
use owrust::parse_args::OwRead;
use owrust::parse_args::OwSize;
use owrust::parse_args::OwSnoop;
use owrust::parse_args::OwTree;
use owrust::parse_args::OwWrite;
use owrust::parse_args::Program;
use owrust::parse_args::Setting;

#[test]
fn main_test_short() {
    let r = short(&"Xxx".to_string());
    assert_eq!(r, "-X");
}

#[test]
fn main_test_long() {
    let r = long(&"Xxx".to_string());
    assert_eq!(r, "--Xxx");
}

#[test]
fn parse_args_test_short() {
    let r = short(&"Xxx".to_string());
    assert_eq!(r, "-X");
}

#[test]
fn parse_args_test_long() {
    let r = long(&"Xxx".to_string());
    assert_eq!(r, "--Xxx");
}

#[test]
fn test_short() {
    let r = short(&"Xxx".to_string());
    assert_eq!(r, "-X");
}

#[test]
fn test_long() {
    let r = long(&"Xxx".to_string());
    assert_eq!(r, "--Xxx");
}

#[test]
fn short_and_long_of_other_names() {
    assert_eq!(short(&"".to_string()), "-X");
    assert_eq!(short(&"Celsius".to_string()), "-C");
    assert_eq!(short(&"\u{e9}t\u{e9}".to_string()), "-\u{e9}");
    assert_eq!(long(&"".to_string()), "--");
    assert_eq!(long(&"persist".to_string()), "--persist");
}

#[test]
fn format_names() {
    assert_eq!(parse_device("fi"), Ok(Format::FI));
    assert_eq!(parse_device("f.i"), Ok(Format::FdI));
    assert_eq!(parse_device("fic"), Ok(Format::FIC));
    assert_eq!(parse_device("f.ic"), Ok(Format::FdIC));
    assert_eq!(parse_device("fi.c"), Ok(Format::FIdC));
    assert_eq!(parse_device("f.i.c"), Ok(Format::FdIdC));
    assert!(parse_device("FI").is_err());
    assert!(parse_device("").is_err());
    assert_eq!(format_match("f.i.c"), Ok(Format::FdIdC));
    assert_eq!(format_match("f-i"), Err(OwError::Input("Invalid format f-i".to_string())));
}

fn configured(settings: Vec<Setting>) -> OwClient {
    let mut client = OwClient::new([0u8; 16]);
    client.configure(settings);
    client
}

#[test]
fn temperature_settings_reach_the_flags() {
    for (t, bits) in [
        (Temperature::CELSIUS, flags::TEMPERATURE_C),
        (Temperature::KELVIN, flags::TEMPERATURE_K),
        (Temperature::FARENHEIT, flags::TEMPERATURE_F),
        (Temperature::RANKINE, flags::TEMPERATURE_R),
        (Temperature::DEFAULT, flags::TEMPERATURE_C),
    ] {
        let client = configured(vec![Setting::Temperature(t)]);
        assert_eq!(client.temperature, t);
        assert_eq!(client.flags & flags::TEMPERATURE_MASK, bits);
        assert_eq!(client.flags, flags::BUS_RET | bits);
    }
}

#[test]
fn pressure_and_persistence_settings_reach_the_flags() {
    for (p, bits) in [
        (Pressure::MBAR, flags::PRESSURE_MBAR),
        (Pressure::MMHG, flags::PRESSURE_MMHG),
        (Pressure::INHG, flags::PRESSURE_INHG),
        (Pressure::ATM, flags::PRESSURE_ATM),
        (Pressure::PA, flags::PRESSURE_PA),
        (Pressure::PSI, flags::PRESSURE_PSI),
        (Pressure::DEFAULT, flags::PRESSURE_MBAR),
    ] {
        let client = configured(vec![Setting::Pressure(p)]);
        assert_eq!(client.flags & flags::PRESSURE_MASK, bits);
    }
    let client = configured(vec![Setting::Persist]);
    assert!(client.persistence);
    assert_eq!(client.flags & flags::PERSISTENCE, flags::PERSISTENCE);
}

#[test]
fn format_settings_reach_the_flags() {
    for (f, bits) in [
        (Format::FI, 0x0100_0000u32),
        (Format::FdI, 0),
        (Format::FIC, 0x0500_0000),
        (Format::FIdC, 0x0400_0000),
        (Format::FdIC, 0x0300_0000),
        (Format::FdIdC, 0x0200_0000),
        (Format::DEFAULT, 0),
    ] {
        let client = configured(vec![Setting::Format(f)]);
        assert_eq!(client.flags & flags::FORMAT_MASK, bits);
        assert_eq!(f.bits(), bits);
    }
}

#[test]
fn all_groups_in_one_flag_word() {
    let client = configured(vec![
        Setting::Temperature(Temperature::RANKINE),
        Setting::Pressure(Pressure::PA),
        Setting::Format(Format::FIC),
        Setting::Persist,
        Setting::Bare,
    ]);
    assert_eq!(client.flags, 0x0517_0004);
    assert_eq!(flags::make_flag_word(false, false, Temperature::DEFAULT, Pressure::DEFAULT, Format::DEFAULT), 2);
    assert_eq!(flags::make_flag_word(true, true, Temperature::KELVIN, Pressure::INHG, Format::FdIC), 0x030E_0004);
}

#[test]
fn later_setting_holds_and_prune_is_bare() {
    let client = configured(vec![
        Setting::Temperature(Temperature::CELSIUS),
        Setting::Temperature(Temperature::KELVIN),
        Setting::Prune,
        Setting::Server("example:4304".to_string()),
        Setting::Listener("localhost:14304".to_string()),
        Setting::Size(10),
        Setting::Offset(3),
        Setting::Hex,
        Setting::Slash,
        Setting::Debug,
        Setting::Debug,
    ]);
    assert_eq!(client.temperature, Temperature::KELVIN);
    assert!(client.prune && client.bare && client.hex && client.slash);
    assert_eq!(client.owserver, "example:4304");
    assert_eq!(client.listener, Some("localhost:14304".to_string()));
    assert_eq!((client.size, client.offset, client.debug), (10, 3, 2));
    assert_eq!(client.flags & flags::BUS_RET, 0);
    let mut loud = OwClient::new([0u8; 16]);
    loud.debug = u32::MAX;
    loud.apply(Setting::Debug);
    assert_eq!(loud.debug, u32::MAX);
}

#[test]
fn no_listener_unless_set() {
    let client = configured(vec![]);
    assert_eq!(client.listener, None);
    assert_eq!(client.owserver, "localhost:4304");
}

#[test]
fn flag_words_in_words() {
    assert_eq!(flags::flag_string(0), "C mbar f.i      ");
    assert_eq!(flags::flag_string(0x10101010), "C psi f.i   safe   ");
    assert_eq!(flags::flag_string(0x0517_013E), "R pa fic ownet uncached safe alias persist bus");
    assert_eq!(flags::flag_string(0x0618_0000), "C ? ?      ");
    assert_eq!(flags::flag_string(0x0201_0000), "F mbar f.i.c      ");
    assert_eq!(flags::flag_string(0x0302_0000), "K mbar f.ic      ");
    assert_eq!(flags::flag_string(0x0404_0000), "C atm fi.c      ");
    assert_eq!(flags::flag_string(0x0108_0000), "C mmhg fi      ");
    assert_eq!(flags::flag_string(0x000C_0000), "C inhg f.i      ");
}

#[test]
fn programs_and_their_options() {
    let server = OptionGroup::Server;
    let listener = OptionGroup::Listener;
    let format = OptionGroup::Format;
    let temperature = OptionGroup::Temperature;
    let pressure = OptionGroup::Pressure;
    let data = OptionGroup::Data;
    let directory = OptionGroup::Directory;
    let persist = OptionGroup::Persist;
    assert_eq!(OwDir.groups(), vec![server, directory, format, persist]);
    assert_eq!(OwTree.groups(), vec![server, directory, format, persist]);
    assert_eq!(OwGet.groups(), vec![server, directory, format, temperature, pressure, data, persist]);
    assert_eq!(OwRead.groups(), vec![server, temperature, pressure, data, persist]);
    assert_eq!(OwWrite.groups(), vec![server, temperature, pressure, data, persist]);
    assert_eq!(OwSize.groups(), vec![server, persist]);
    assert_eq!(OwPresent.groups(), vec![server, persist]);
    assert_eq!(OwSnoop.groups(), vec![server, listener]);
    assert_eq!(
        OwLib.groups(),
        vec![server, listener, format, temperature, pressure, data, directory, persist]
    );
    assert!(OwTree.always_persistent());
    assert!(!OwDir.always_persistent());
    assert_eq!(OwTree.own_settings(), vec![Setting::Persist]);
    assert_eq!(OwRead.own_settings(), vec![]);
}

#[test]
fn help_of_a_program() {
    let usage = OwSize.usage();
    assert_eq!(
        usage,
        vec![
            "owsize [OPTIONS] [PATH]",
            "\tHow much data would a read potentially return (in bytes)",
            "\tMore than one PATH can be given",
            "",
            "OPTIONS",
        ]
    );
    let help = help_text(&OwSize);
    assert_eq!(help.len(), 5 + 2 + 2 + 6);
    assert_eq!(help[5], "OwServer address (default localhost:4304)");
    assert_eq!(help[7], "Persistence keeps connection to owserver open");
    assert_eq!(&help[9..], &helper_tail()[..]);
    assert_eq!(help[14], "See https://github.com/alfille/owrust for more information");
    assert_eq!(OptionGroup::Temperature.help().len(), 5);
    for lines in [OwDir.usage(), OwTree.usage(), OwGet.usage(), OwRead.usage(), OwWrite.usage(), OwPresent.usage(), OwSnoop.usage(), OwLib.usage()] {
        assert_eq!(lines.last().unwrap(), "OPTIONS");
    }
}
