//! What the command line can set, and which program takes which options.
//!
//! The program reads its arguments and turns them into `Setting`s, in the
//! order of the option groups of the tool that runs; `OwClient::configure`
//! applies them and makes the flag word. The help texts are here as well.

use vstd::prelude::*;
use vstd::string::StringSliceAdditionalSpecFns;
use crate::client::OwClient;
use crate::error::OwError;
use crate::flags::flags_of;
use crate::flags::Format;
use crate::flags::Pressure;
use crate::flags::Temperature;
use crate::text::same_text;
use crate::text::texts;

verus! {

/// The address format that a `--format` value names.
pub open spec fn format_named(s: Seq<char>) -> Option<Format> {
    if s == "fi"@ {
        Some(Format::FI)
    } else if s == "f.i"@ {
        Some(Format::FdI)
    } else if s == "fic"@ {
        Some(Format::FIC)
    } else if s == "f.ic"@ {
        Some(Format::FdIC)
    } else if s == "fi.c"@ {
        Some(Format::FIdC)
    } else if s == "f.i.c"@ {
        Some(Format::FdIdC)
    } else {
        None
    }
}

/// Reads the value of `--format`: one of `fi`, `f.i`, `fic`, `f.ic`, `fi.c`
/// and `f.i.c`.
pub fn parse_device(s: &str) -> (r: Result<Format, &'static str>)
    ensures
        match format_named(s@) {
            Some(f) => r == Ok::<Format, &'static str>(f),
            None => r is Err,
        },
{
    if same_text(s, "fi") {
        Ok(Format::FI)
    } else if same_text(s, "f.i") {
        Ok(Format::FdI)
    } else if same_text(s, "fic") {
        Ok(Format::FIC)
    } else if same_text(s, "f.ic") {
        Ok(Format::FdIC)
    } else if same_text(s, "fi.c") {
        Ok(Format::FIdC)
    } else if same_text(s, "f.i.c") {
        Ok(Format::FdIdC)
    } else {
        Err("Not a format")
    }
}

/// Reads the value of `--format`, and fails with `Input` and the value for
/// anything that names no format.
pub fn format_match(s: &str) -> (r: Result<Format, OwError>)
    ensures
        match format_named(s@) {
            Some(f) => r == Ok::<Format, OwError>(f),
            None => r matches Err(OwError::Input(m)) && m@ == "Invalid format "@ + s@,
        },
{
    match parse_device(s) {
        Ok(f) => Ok(f),
        Err(_) => Err(OwError::Input("Invalid format ".to_owned().concat(s))),
    }
}

/// The short form of an option: a dash and the first character of its name,
/// `X` for a name without characters.
pub fn short(opt: &String) -> (flag: String)
    ensures
        flag@ == seq![
            '-',
            if opt@.len() > 0 {
                opt@[0]
            } else {
                'X'
            },
        ],
{
    let name = opt.as_str();
    let c = if name.is_empty() {
        'X'
    } else {
        name.get_char(0)
    };
    let mut flag = String::new();
    flag.push('-');
    flag.push(c);
    flag
}

/// The long form of an option: two dashes and its name.
pub fn long(opt: &String) -> (flag: String)
    ensures
        flag@ == seq!['-', '-'] + opt@,
{
    let mut flag = String::new();
    flag.push('-');
    flag.push('-');
    flag.append(opt.as_str());
    flag
}

/// One thing that the command line sets.
#[derive(Debug, Clone, PartialEq, Eq)]
pub enum Setting {
    Temperature(Temperature),
    Pressure(Pressure),
    Format(Format),
    /// `--hex`
    Hex,
    /// `--size`
    Size(u32),
    /// `--offset`
    Offset(u32),
    /// `--server`
    Server(String),
    /// `--port`
    Listener(String),
    /// `--dir`
    Slash,
    /// `--bare`
    Bare,
    /// `--prune`, another way to ask for a bare listing
    Prune,
    /// `--persist`
    Persist,
    /// `--debug`, once for each level
    Debug,
}

/// A configuration as the values it holds.
pub struct Config {
    pub owserver: Seq<char>,
    pub listener: Option<Seq<char>>,
    pub token: Seq<u8>,
    pub temperature: Temperature,
    pub pressure: Pressure,
    pub format: Format,
    pub size: u32,
    pub offset: u32,
    pub slash: bool,
    pub hex: bool,
    pub bare: bool,
    pub prune: bool,
    pub persistence: bool,
    pub debug: u32,
    pub flags: u32,
}

/// The values of a client's configuration.
pub open spec fn config_of(c: OwClient) -> Config {
    Config {
        owserver: c.owserver@,
        listener: match c.listener {
            Some(l) => Some(l@),
            None => None,
        },
        token: c.token@,
        temperature: c.temperature,
        pressure: c.pressure,
        format: c.format,
        size: c.size,
        offset: c.offset,
        slash: c.slash,
        hex: c.hex,
        bare: c.bare,
        prune: c.prune,
        persistence: c.persistence,
        debug: c.debug,
        flags: c.flags,
    }
}

/// The configuration after one setting. The flag word is left as it is.
pub open spec fn applied(c: Config, s: Setting) -> Config {
    match s {
        Setting::Temperature(t) => Config { temperature: t, ..c },
        Setting::Pressure(p) => Config { pressure: p, ..c },
        Setting::Format(f) => Config { format: f, ..c },
        Setting::Hex => Config { hex: true, ..c },
        Setting::Size(n) => Config { size: n, ..c },
        Setting::Offset(n) => Config { offset: n, ..c },
        Setting::Server(a) => Config { owserver: a@, ..c },
        Setting::Listener(a) => Config { listener: Some(a@), ..c },
        Setting::Slash => Config { slash: true, ..c },
        Setting::Bare => Config { bare: true, ..c },
        Setting::Prune => Config { bare: true, prune: true, ..c },
        Setting::Persist => Config { persistence: true, ..c },
        Setting::Debug => Config {
            debug: if c.debug < u32::MAX {
                (c.debug + 1) as u32
            } else {
                c.debug
            },
            ..c
        },
    }
}

/// The configuration after the settings of a list, in their order.
pub open spec fn applied_all(c: Config, settings: Seq<Setting>) -> Config
    decreases settings.len(),
{
    if settings.len() == 0 {
        c
    } else {
        applied(applied_all(c, settings.drop_last()), settings.last())
    }
}

/// The configuration with the flag word that it asks for.
pub open spec fn flagged(c: Config) -> Config {
    Config { flags: flags_of(c.bare, c.persistence, c.temperature, c.pressure, c.format), ..c }
}

impl OwClient {
    /// Applies one setting. The flag word is left as it is.
    pub fn apply(&mut self, setting: Setting)
        ensures
            config_of(*final(self)) == applied(config_of(*old(self)), setting),
    {
        match setting {
            Setting::Temperature(t) => {
                self.temperature = t;
            },
            Setting::Pressure(p) => {
                self.pressure = p;
            },
            Setting::Format(f) => {
                self.format = f;
            },
            Setting::Hex => {
                self.hex = true;
            },
            Setting::Size(n) => {
                self.size = n;
            },
            Setting::Offset(n) => {
                self.offset = n;
            },
            Setting::Server(a) => {
                self.owserver = a;
            },
            Setting::Listener(a) => {
                self.listener = Some(a);
            },
            Setting::Slash => {
                self.slash = true;
            },
            Setting::Bare => {
                self.bare = true;
            },
            Setting::Prune => {
                self.bare = true;
                self.prune = true;
            },
            Setting::Persist => {
                self.persistence = true;
            },
            Setting::Debug => {
                if self.debug < u32::MAX {
                    self.debug = self.debug + 1;
                }
            },
        }
    }

    /// Applies the settings of a command line in their order, so that of
    /// two settings for one thing the later holds, and then makes the flag
    /// word.
    pub fn configure(&mut self, settings: Vec<Setting>)
        ensures
            config_of(*final(self)) == flagged(applied_all(config_of(*old(self)), settings@)),
    {
        for setting in it: settings
            invariant
                it.seq() == settings@,
                config_of(*self) == applied_all(
                    config_of(*old(self)),
                    settings@.take(it.index() as int),
                ),
        {
            proof {
                let upto = settings@.take(it.index() + 1);
                assert(upto.drop_last() =~= settings@.take(it.index() as int));
                assert(upto.last() == setting);
            }
            self.apply(setting);
        }
        assert(settings@.take(settings@.len() as int) =~= settings@);
        self.make_flags();
    }
}

/// The groups of options that the programs share.
#[derive(Clone, Copy, Debug, PartialEq, Eq, Structural)]
pub enum OptionGroup {
    Server,
    Listener,
    Format,
    Temperature,
    Pressure,
    Data,
    Directory,
    Persist,
}

/// A program of the suite: what it is, and which options it takes.
pub trait Program {
    /// The groups of options that the program takes, in the order in which
    /// it reads them.
    spec fn option_groups(&self) -> Seq<OptionGroup>;

    /// True if the program keeps its connection whatever the command line
    /// says.
    spec fn persists(&self) -> bool;

    /// The head of the program's help: how to call it and what it does.
    spec fn usage_text(&self) -> Seq<Seq<char>>;

    /// The groups of options that the program takes, in the order in which
    /// it reads them.
    fn groups(&self) -> (g: Vec<OptionGroup>)
        ensures
            g@ == self.option_groups(),
    ;

    /// True if the program keeps its connection whatever the command line
    /// says.
    fn always_persistent(&self) -> (b: bool)
        ensures
            b == self.persists(),
    ;

    /// The head of the program's help: how to call it and what it does.
    fn usage(&self) -> (lines: Vec<String>)
        ensures
            texts(lines@) == self.usage_text(),
    ;

    /// The settings that the program adds to those of the command line.
    fn own_settings(&self) -> (settings: Vec<Setting>)
        ensures
            settings@ == if self.persists() {
                seq![Setting::Persist]
            } else {
                Seq::<Setting>::empty()
            },
    {
        let mut settings: Vec<Setting> = Vec::new();
        if self.always_persistent() {
            settings.push(Setting::Persist);
        }
        settings
    }
}

/// The texts of a list of literals.
pub open spec fn literal_texts(lines: Seq<&str>) -> Seq<Seq<char>> {
    Seq::new(lines.len(), |i: int| lines[i]@)
}

fn help_lines(head: &[&str]) -> (lines: Vec<String>)
    ensures
        texts(lines@) == literal_texts(head@),
{
    let mut lines: Vec<String> = Vec::new();
    let mut i: usize = 0;
    while i < head.len()
        invariant
            i <= head@.len(),
            lines@.len() == i,
            forall|k: int| 0 <= k < i ==> (#[trigger] lines@[k])@ == head@[k]@,
        decreases head@.len() - i,
    {
        lines.push(head[i].to_owned());
        i = i + 1;
    }
    assert(texts(lines@) =~= literal_texts(head@));
    lines
}

fn groups_of(list: &[OptionGroup]) -> (g: Vec<OptionGroup>)
    ensures
        g@ == list@,
{
    vstd::slice::slice_to_vec(list)
}

/// The directory lister.
#[derive(Clone, Copy, Debug, PartialEq, Eq, Structural)]
pub struct OwDir;

/// The tree walker.
#[derive(Clone, Copy, Debug, PartialEq, Eq, Structural)]
pub struct OwTree;

/// The reader of values and directories.
#[derive(Clone, Copy, Debug, PartialEq, Eq, Structural)]
pub struct OwGet;

/// The reader of values.
#[derive(Clone, Copy, Debug, PartialEq, Eq, Structural)]
pub struct OwRead;

/// The writer of values.
#[derive(Clone, Copy, Debug, PartialEq, Eq, Structural)]
pub struct OwWrite;

/// The size query.
#[derive(Clone, Copy, Debug, PartialEq, Eq, Structural)]
pub struct OwSize;

/// The presence test.
#[derive(Clone, Copy, Debug, PartialEq, Eq, Structural)]
pub struct OwPresent;

/// The relay that shows its traffic.
#[derive(Clone, Copy, Debug, PartialEq, Eq, Structural)]
pub struct OwSnoop;

/// A program that uses the library with every option.
#[derive(Clone, Copy, Debug, PartialEq, Eq, Structural)]
pub struct OwLib;

impl Program for OwDir {
    open spec fn option_groups(&self) -> Seq<OptionGroup> {
        seq![OptionGroup::Server, OptionGroup::Directory, OptionGroup::Format, OptionGroup::Persist]
    }

    open spec fn persists(&self) -> bool {
        false
    }

    open spec fn usage_text(&self) -> Seq<Seq<char>> {
        seq![
            "owdir [OPTIONS] [PATH]"@,
            "\tList a 1-wire directory using owserver"@,
            "\tMore than one PATH can be given"@,
            ""@,
            "OPTIONS"@,
        ]
    }

    fn groups(&self) -> Vec<OptionGroup> {
        groups_of(&[OptionGroup::Server, OptionGroup::Directory, OptionGroup::Format, OptionGroup::Persist])
    }

    fn always_persistent(&self) -> bool {
        false
    }

    fn usage(&self) -> (lines: Vec<String>) {
        let head: [&str; 5] = [
                "owdir [OPTIONS] [PATH]",
                "\tList a 1-wire directory using owserver",
                "\tMore than one PATH can be given",
                "",
                "OPTIONS",
        ];
        let lines = help_lines(&head);
        assert(literal_texts(head@) =~= self.usage_text());
        lines
    }
}

impl Program for OwTree {
    open spec fn option_groups(&self) -> Seq<OptionGroup> {
        seq![OptionGroup::Server, OptionGroup::Directory, OptionGroup::Format, OptionGroup::Persist]
    }

    open spec fn persists(&self) -> bool {
        true
    }

    open spec fn usage_text(&self) -> Seq<Seq<char>> {
        seq![
            "owtree [OPTIONS] [PATH]"@,
            "\tShow a deep 1-wire directory structure using owserver"@,
            "\tMore than one PATH can be given"@,
            ""@,
            "OPTIONS"@,
        ]
    }

    fn groups(&self) -> Vec<OptionGroup> {
        groups_of(&[OptionGroup::Server, OptionGroup::Directory, OptionGroup::Format, OptionGroup::Persist])
    }

    fn always_persistent(&self) -> bool {
        true
    }

    fn usage(&self) -> (lines: Vec<String>) {
        let head: [&str; 5] = [
                "owtree [OPTIONS] [PATH]",
                "\tShow a deep 1-wire directory structure using owserver",
                "\tMore than one PATH can be given",
                "",
                "OPTIONS",
        ];
        let lines = help_lines(&head);
        assert(literal_texts(head@) =~= self.usage_text());
        lines
    }
}

impl Program for OwGet {
    open spec fn option_groups(&self) -> Seq<OptionGroup> {
        seq![OptionGroup::Server, OptionGroup::Directory, OptionGroup::Format, OptionGroup::Temperature, OptionGroup::Pressure, OptionGroup::Data, OptionGroup::Persist]
    }

    open spec fn persists(&self) -> bool {
        false
    }

    open spec fn usage_text(&self) -> Seq<Seq<char>> {
        seq![
            "owget [OPTIONS] [PATH]"@,
            "\tList a 1-wire directory or read a value using owserver"@,
            "\tcombined function of owread and owdir depending on PATH"@,
            "\tMore than one PATH can be given"@,
            ""@,
            "OPTIONS"@,
        ]
    }

    fn groups(&self) -> Vec<OptionGroup> {
        groups_of(&[OptionGroup::Server, OptionGroup::Directory, OptionGroup::Format, OptionGroup::Temperature, OptionGroup::Pressure, OptionGroup::Data, OptionGroup::Persist])
    }

    fn always_persistent(&self) -> bool {
        false
    }

    fn usage(&self) -> (lines: Vec<String>) {
        let head: [&str; 6] = [
                "owget [OPTIONS] [PATH]",
                "\tList a 1-wire directory or read a value using owserver",
                "\tcombined function of owread and owdir depending on PATH",
                "\tMore than one PATH can be given",
                "",
                "OPTIONS",
        ];
        let lines = help_lines(&head);
        assert(literal_texts(head@) =~= self.usage_text());
        lines
    }
}

impl Program for OwRead {
    open spec fn option_groups(&self) -> Seq<OptionGroup> {
        seq![OptionGroup::Server, OptionGroup::Temperature, OptionGroup::Pressure, OptionGroup::Data, OptionGroup::Persist]
    }

    open spec fn persists(&self) -> bool {
        false
    }

    open spec fn usage_text(&self) -> Seq<Seq<char>> {
        seq![
            "owread [OPTIONS] [PATH]"@,
            "\tRead a 1-wire file using owserver"@,
            "\ttypically a sensor or memory reading"@,
            "\tMore than one PATH can be given"@,
            ""@,
            "OPTIONS"@,
        ]
    }

    fn groups(&self) -> Vec<OptionGroup> {
        groups_of(&[OptionGroup::Server, OptionGroup::Temperature, OptionGroup::Pressure, OptionGroup::Data, OptionGroup::Persist])
    }

    fn always_persistent(&self) -> bool {
        false
    }

    fn usage(&self) -> (lines: Vec<String>) {
        let head: [&str; 6] = [
                "owread [OPTIONS] [PATH]",
                "\tRead a 1-wire file using owserver",
                "\ttypically a sensor or memory reading",
                "\tMore than one PATH can be given",
                "",
                "OPTIONS",
        ];
        let lines = help_lines(&head);
        assert(literal_texts(head@) =~= self.usage_text());
        lines
    }
}

impl Program for OwWrite {
    open spec fn option_groups(&self) -> Seq<OptionGroup> {
        seq![OptionGroup::Server, OptionGroup::Temperature, OptionGroup::Pressure, OptionGroup::Data, OptionGroup::Persist]
    }

    open spec fn persists(&self) -> bool {
        false
    }

    open spec fn usage_text(&self) -> Seq<Seq<char>> {
        seq![
            "owwrite [OPTIONS] [PATH] [Value]..."@,
            "\tWrite to a 1-wire file using owserver"@,
            "\tto set device memory or configuration"@,
            "\tMore than one PATH VALUE pair can be given"@,
            ""@,
            "OPTIONS"@,
        ]
    }

    fn groups(&self) -> Vec<OptionGroup> {
        groups_of(&[OptionGroup::Server, OptionGroup::Temperature, OptionGroup::Pressure, OptionGroup::Data, OptionGroup::Persist])
    }

    fn always_persistent(&self) -> bool {
        false
    }

    fn usage(&self) -> (lines: Vec<String>) {
        let head: [&str; 6] = [
                "owwrite [OPTIONS] [PATH] [Value]...",
                "\tWrite to a 1-wire file using owserver",
                "\tto set device memory or configuration",
                "\tMore than one PATH VALUE pair can be given",
                "",
                "OPTIONS",
        ];
        let lines = help_lines(&head);
        assert(literal_texts(head@) =~= self.usage_text());
        lines
    }
}

impl Program for OwSize {
    open spec fn option_groups(&self) -> Seq<OptionGroup> {
        seq![OptionGroup::Server, OptionGroup::Persist]
    }

    open spec fn persists(&self) -> bool {
        false
    }

    open spec fn usage_text(&self) -> Seq<Seq<char>> {
        seq![
            "owsize [OPTIONS] [PATH]"@,
            "\tHow much data would a read potentially return (in bytes)"@,
            "\tMore than one PATH can be given"@,
            ""@,
            "OPTIONS"@,
        ]
    }

    fn groups(&self) -> Vec<OptionGroup> {
        groups_of(&[OptionGroup::Server, OptionGroup::Persist])
    }

    fn always_persistent(&self) -> bool {
        false
    }

    fn usage(&self) -> (lines: Vec<String>) {
        let head: [&str; 5] = [
                "owsize [OPTIONS] [PATH]",
                "\tHow much data would a read potentially return (in bytes)",
                "\tMore than one PATH can be given",
                "",
                "OPTIONS",
        ];
        let lines = help_lines(&head);
        assert(literal_texts(head@) =~= self.usage_text());
        lines
    }
}

impl Program for OwPresent {
    open spec fn option_groups(&self) -> Seq<OptionGroup> {
        seq![OptionGroup::Server, OptionGroup::Persist]
    }

    open spec fn persists(&self) -> bool {
        false
    }

    open spec fn usage_text(&self) -> Seq<Seq<char>> {
        seq![
            "owpresent [OPTIONS] [PATH]"@,
            "\tIs the 1-wire file valid using owserver"@,
            "\tMore than one PATH can be given"@,
            "\tReturns 0 (false) or 1 (true)"@,
            ""@,
            "OPTIONS"@,
        ]
    }

    fn groups(&self) -> Vec<OptionGroup> {
        groups_of(&[OptionGroup::Server, OptionGroup::Persist])
    }

    fn always_persistent(&self) -> bool {
        false
    }

    fn usage(&self) -> (lines: Vec<String>) {
        let head: [&str; 6] = [
                "owpresent [OPTIONS] [PATH]",
                "\tIs the 1-wire file valid using owserver",
                "\tMore than one PATH can be given",
                "\tReturns 0 (false) or 1 (true)",
                "",
                "OPTIONS",
        ];
        let lines = help_lines(&head);
        assert(literal_texts(head@) =~= self.usage_text());
        lines
    }
}

impl Program for OwSnoop {
    open spec fn option_groups(&self) -> Seq<OptionGroup> {
        seq![OptionGroup::Server, OptionGroup::Listener]
    }

    open spec fn persists(&self) -> bool {
        false
    }

    open spec fn usage_text(&self) -> Seq<Seq<char>> {
        seq![
            "owsnoop [OPTIONS]"@,
            "\tRelay queries to owserver"@,
            "\tShows the message contents back and forth"@,
            ""@,
            "OPTIONS"@,
        ]
    }

    fn groups(&self) -> Vec<OptionGroup> {
        groups_of(&[OptionGroup::Server, OptionGroup::Listener])
    }

    fn always_persistent(&self) -> bool {
        false
    }

    fn usage(&self) -> (lines: Vec<String>) {
        let head: [&str; 5] = [
                "owsnoop [OPTIONS]",
                "\tRelay queries to owserver",
                "\tShows the message contents back and forth",
                "",
                "OPTIONS",
        ];
        let lines = help_lines(&head);
        assert(literal_texts(head@) =~= self.usage_text());
        lines
    }
}

impl Program for OwLib {
    open spec fn option_groups(&self) -> Seq<OptionGroup> {
        seq![OptionGroup::Server, OptionGroup::Listener, OptionGroup::Format, OptionGroup::Temperature, OptionGroup::Pressure, OptionGroup::Data, OptionGroup::Directory, OptionGroup::Persist]
    }

    open spec fn persists(&self) -> bool {
        false
    }

    open spec fn usage_text(&self) -> Seq<Seq<char>> {
        seq![
            "owrust library [OPTIONS]"@,
            "Configure library"@,
            ""@,
            "OPTIONS"@,
        ]
    }

    fn groups(&self) -> Vec<OptionGroup> {
        groups_of(&[OptionGroup::Server, OptionGroup::Listener, OptionGroup::Format, OptionGroup::Temperature, OptionGroup::Pressure, OptionGroup::Data, OptionGroup::Directory, OptionGroup::Persist])
    }

    fn always_persistent(&self) -> bool {
        false
    }

    fn usage(&self) -> (lines: Vec<String>) {
        let head: [&str; 4] = [
                "owrust library [OPTIONS]",
                "Configure library",
                "",
                "OPTIONS",
        ];
        let lines = help_lines(&head);
        assert(literal_texts(head@) =~= self.usage_text());
        lines
    }
}

/// An option without a value: its short form (empty where it has none), its
/// long form, and what it sets.
#[derive(Debug, Clone, PartialEq, Eq)]
pub struct Switch {
    pub short: &'static str,
    pub long: &'static str,
    pub sets: Setting,
}

/// A switch as the values it holds.
pub struct SwitchView {
    pub short: Seq<char>,
    pub long: Seq<char>,
    pub sets: Setting,
}

/// The values of a list of switches.
pub open spec fn switch_views(switches: Seq<Switch>) -> Seq<SwitchView> {
    Seq::new(
        switches.len(),
        |i: int|
            SwitchView { short: switches[i].short@, long: switches[i].long@, sets: switches[i].sets },
    )
}

/// The switches of a group of options, in the order in which they are
/// looked for: where two of them set the same thing, the later one holds.
/// The groups `Server`, `Listener` and `Format` have options with values
/// only.
pub open spec fn group_switches(group: OptionGroup) -> Seq<SwitchView> {
    match group {
        OptionGroup::Temperature => seq![
            SwitchView { short: "-C"@, long: "--Celsius"@, sets: Setting::Temperature(Temperature::CELSIUS) },
            SwitchView { short: "-F"@, long: "--Farenheit"@, sets: Setting::Temperature(Temperature::FARENHEIT) },
            SwitchView { short: "-K"@, long: "--Kelvin"@, sets: Setting::Temperature(Temperature::KELVIN) },
            SwitchView { short: "-R"@, long: "--Rankine"@, sets: Setting::Temperature(Temperature::RANKINE) },
        ],
        OptionGroup::Pressure => seq![
            SwitchView { short: ""@, long: "--mmhg"@, sets: Setting::Pressure(Pressure::MMHG) },
            SwitchView { short: ""@, long: "--inhg"@, sets: Setting::Pressure(Pressure::INHG) },
            SwitchView { short: ""@, long: "--mbar"@, sets: Setting::Pressure(Pressure::MBAR) },
            SwitchView { short: ""@, long: "--atm"@, sets: Setting::Pressure(Pressure::ATM) },
            SwitchView { short: ""@, long: "--pa"@, sets: Setting::Pressure(Pressure::PA) },
            SwitchView { short: ""@, long: "--psi"@, sets: Setting::Pressure(Pressure::PSI) },
        ],
        OptionGroup::Data => seq![
            SwitchView { short: ""@, long: "--hex"@, sets: Setting::Hex },
        ],
        OptionGroup::Directory => seq![
            SwitchView { short: ""@, long: "--dir"@, sets: Setting::Slash },
            SwitchView { short: ""@, long: "--bare"@, sets: Setting::Bare },
            SwitchView { short: ""@, long: "--prune"@, sets: Setting::Prune },
        ],
        OptionGroup::Persist => seq![
            SwitchView { short: ""@, long: "--persist"@, sets: Setting::Persist },
        ],
        _ => Seq::empty(),
    }
}

/// What an option with a value sets.
#[derive(Clone, Copy, Debug, PartialEq, Eq, Structural)]
pub enum ValueKind {
    Server,
    Listener,
    Format,
    Size,
    Offset,
}

/// An option with a value: its short form (empty where it has none), its
/// long form, and what the value sets.
#[derive(Clone, Copy, Debug, PartialEq, Eq)]
pub struct ValueOption {
    pub short: &'static str,
    pub long: &'static str,
    pub kind: ValueKind,
}

/// An option with a value as the values it holds.
pub struct ValueOptionView {
    pub short: Seq<char>,
    pub long: Seq<char>,
    pub kind: ValueKind,
}

/// The values of a list of options with values.
pub open spec fn value_views(options: Seq<ValueOption>) -> Seq<ValueOptionView> {
    Seq::new(
        options.len(),
        |i: int|
            ValueOptionView {
                short: options[i].short@,
                long: options[i].long@,
                kind: options[i].kind,
            },
    )
}

/// The options with values of a group of options.
pub open spec fn group_values(group: OptionGroup) -> Seq<ValueOptionView> {
    match group {
        OptionGroup::Server => seq![
            ValueOptionView { short: "-s"@, long: "--server"@, kind: ValueKind::Server },
        ],
        OptionGroup::Listener => seq![
            ValueOptionView { short: "-p"@, long: "--port"@, kind: ValueKind::Listener },
        ],
        OptionGroup::Format => seq![
            ValueOptionView { short: "-f"@, long: "--format"@, kind: ValueKind::Format },
        ],
        OptionGroup::Data => seq![
            ValueOptionView { short: ""@, long: "--size"@, kind: ValueKind::Size },
            ValueOptionView { short: ""@, long: "--offset"@, kind: ValueKind::Offset },
        ],
        _ => Seq::empty(),
    }
}

/// The number that a run of decimal digits writes.
pub open spec fn digits_value(digits: Seq<u8>) -> nat
    decreases digits.len(),
{
    if digits.len() == 0 {
        0
    } else {
        (digits_value(digits.drop_last()) * 10 + (digits.last() - 48)) as nat
    }
}

/// True if every byte is a decimal digit.
pub open spec fn all_digits(digits: Seq<u8>) -> bool {
    forall|i: int| 0 <= i < digits.len() ==> 48 <= #[trigger] digits[i] <= 57
}

/// The digits of a number's text: the text without a plus sign in front.
pub open spec fn unsigned_part(text: Seq<u8>) -> Seq<u8> {
    if text.len() > 0 && text[0] == 43 {
        text.skip(1)
    } else {
        text
    }
}

/// The number that a text writes: decimal digits, at least one, with or
/// without a plus sign in front, that do not go beyond 32 bits.
pub open spec fn number_named(text: Seq<u8>) -> Option<u32> {
    let digits = unsigned_part(text);
    if digits.len() > 0 && all_digits(digits) && digits_value(digits) <= u32::MAX {
        Some(digits_value(digits) as u32)
    } else {
        None
    }
}

/// More digits do not write a smaller number.
pub proof fn lemma_digits_grow(digits: Seq<u8>, n: int)
    requires
        0 <= n <= digits.len(),
        all_digits(digits),
    ensures
        digits_value(digits.take(n)) <= digits_value(digits),
    decreases digits.len() - n,
{
    if n < digits.len() {
        lemma_digits_grow(digits, n + 1);
        assert(digits.take(n + 1).drop_last() =~= digits.take(n));
    } else {
        assert(digits.take(n) =~= digits);
    }
}

/// Reads a number of at most 32 bits from its decimal text.
pub fn parse_number(text: &str) -> (r: Option<u32>)
    ensures
        r == number_named(text.spec_bytes()),
{
    let bytes = text.as_bytes();
    let start: usize = if bytes.len() > 0 && bytes[0] == 43 {
        1
    } else {
        0
    };
    let digits = vstd::slice::slice_subrange(bytes, start, bytes.len());
    assert(digits@ =~= unsigned_part(bytes@));
    if digits.len() == 0 {
        return None;
    }
    let mut value: u64 = 0;
    let mut i: usize = 0;
    while i < digits.len()
        invariant
            i <= digits@.len(),
            digits@.len() > 0,
            digits@ == unsigned_part(text.spec_bytes()),
            value == digits_value(digits@.take(i as int)),
            value <= u32::MAX,
            all_digits(digits@.take(i as int)),
        decreases digits@.len() - i,
    {
        let d: u8 = digits[i];
        if d < 48 || d > 57 {
            assert(!(48 <= digits@[i as int] <= 57));
            assert(!all_digits(digits@));
            return None;
        }
        let ghost upto = digits@.take(i + 1);
        assert(upto.drop_last() =~= digits@.take(i as int));
        assert(upto.last() == d);
        assert(all_digits(upto)) by {
            assert forall|k: int| 0 <= k < upto.len() implies 48 <= #[trigger] upto[k] <= 57 by {
                if k < i {
                    assert(upto[k] == digits@.take(i as int)[k]);
                }
            }
        }
        value = value * 10 + (d - 48) as u64;
        assert(value == digits_value(upto));
        if value > 0xFFFF_FFFF {
            proof {
                if all_digits(digits@) {
                    lemma_digits_grow(digits@, i + 1);
                }
            }
            return None;
        }
        i = i + 1;
    }
    assert(digits@.take(i as int) =~= digits@);
    Some(value as u32)
}

/// What an option with a value sets, given the text of the value.
pub open spec fn value_set(kind: ValueKind, text: &str) -> Option<Setting> {
    match kind {
        ValueKind::Server => None,
        ValueKind::Listener => None,
        ValueKind::Format => match format_named(text@) {
            Some(f) => Some(Setting::Format(f)),
            None => None,
        },
        ValueKind::Size => match number_named(text.spec_bytes()) {
            Some(n) => Some(Setting::Size(n)),
            None => None,
        },
        ValueKind::Offset => match number_named(text.spec_bytes()) {
            Some(n) => Some(Setting::Offset(n)),
            None => None,
        },
    }
}

/// Turns the value of an option into a setting. An address is taken as it
/// is. Fails with `Input` for a value of `--format` that names no format,
/// and with `Args` for a size or an offset that is no number of 32 bits.
pub fn value_setting(kind: ValueKind, text: &str) -> (r: Result<Setting, OwError>)
    ensures
        kind == ValueKind::Server ==> (r matches Ok(Setting::Server(a)) && a@ == text@),
        kind == ValueKind::Listener ==> (r matches Ok(Setting::Listener(a)) && a@ == text@),
        kind != ValueKind::Server && kind != ValueKind::Listener ==> match value_set(kind, text) {
            Some(s) => r == Ok::<Setting, OwError>(s),
            None => if kind == ValueKind::Format {
                r matches Err(OwError::Input(_))
            } else {
                r matches Err(OwError::Args(_))
            },
        },
{
    match kind {
        ValueKind::Server => Ok(Setting::Server(text.to_owned())),
        ValueKind::Listener => Ok(Setting::Listener(text.to_owned())),
        ValueKind::Format => match format_match(text) {
            Ok(f) => Ok(Setting::Format(f)),
            Err(e) => Err(e),
        },
        ValueKind::Size => match parse_number(text) {
            Some(n) => Ok(Setting::Size(n)),
            None => Err(OwError::Args("Size is no number".to_owned())),
        },
        ValueKind::Offset => match parse_number(text) {
            Some(n) => Ok(Setting::Offset(n)),
            None => Err(OwError::Args("Offset is no number".to_owned())),
        },
    }
}

/// The help of a group of options.
pub open spec fn group_help(group: OptionGroup) -> Seq<Seq<char>> {
    match group {
        OptionGroup::Server => seq![
            "OwServer address (default localhost:4304)"@,
            "\t-s\t--server\tIp address of owserver to contact"@,
        ],
        OptionGroup::Listener => seq![
            "Listening address (no default but required)"@,
            "\t-p\t--port\tIp address this program will answer on"@,
        ],
        OptionGroup::Format => seq![
            "Device format displayed"@,
            "\t-f\t--format"@,
            "\t\t\tfi | f.i"@,
            "\t\t\tfic | fi.c | f.ic | f.i.c"@,
        ],
        OptionGroup::Temperature => seq![
            "Temperature Scale (default Celsius)"@,
            "\t-C\t--Celsius"@,
            "\t-F\t--Farenheit"@,
            "\t-K\t--Kelvin"@,
            "\t-R\t--Rankine"@,
        ],
        OptionGroup::Pressure => seq![
            "Pressure Scale (default mBar)"@,
            "\t--mmhg  mm Mercury"@,
            "\t--inhg  inches Mercury"@,
            "\t--mbar  milli Bar"@,
            "\t--atm   atmospheres"@,
            "\t--pa    Pascals"@,
            "\t--psi   pounds / in^2"@,
        ],
        OptionGroup::Data => seq![
            "Data display (default text)"@,
            "\t--hex\tShow hexadecimal bytes"@,
            "\t--size\tLimit data size returned (in bytes)"@,
            "\t--offset\tposition (in bytes) to start data returned"@,
        ],
        OptionGroup::Directory => seq![
            "Directory display options"@,
            "\t--dir\tMark directories with a trailing '/'"@,
            "\t--bare\tExclude non-device entries and convenience device entries (e.g. address)"@,
            "\t--prune\tSame as --bare"@,
        ],
        OptionGroup::Persist => seq![
            "Persistence keeps connection to owserver open"@,
            "\t--persist\tFor better performance on repeated queries"@,
        ],
    }
}

/// The end of every program's help.
pub open spec fn general_help() -> Seq<Seq<char>> {
    seq![
        ""@,
        "General"@,
        "\t-h\t--help\tThis help message"@,
        "\t-d\t--debug\tShow debugging information"@,
        ""@,
        "See https://github.com/alfille/owrust for more information"@,
    ]
}

impl OptionGroup {
    /// The options with values of this group.
    pub fn values(self) -> (list: Vec<ValueOption>)
        ensures
            value_views(list@) == group_values(self),
    {
        let mut list: Vec<ValueOption> = Vec::new();
        match self {
            OptionGroup::Server => {
                list.push(ValueOption { short: "-s", long: "--server", kind: ValueKind::Server });
            },
            OptionGroup::Listener => {
                list.push(ValueOption { short: "-p", long: "--port", kind: ValueKind::Listener });
            },
            OptionGroup::Format => {
                list.push(ValueOption { short: "-f", long: "--format", kind: ValueKind::Format });
            },
            OptionGroup::Data => {
                list.push(ValueOption { short: "", long: "--size", kind: ValueKind::Size });
                list.push(ValueOption { short: "", long: "--offset", kind: ValueKind::Offset });
            },
            _ => {},
        }
        assert(value_views(list@) =~= group_values(self));
        list
    }

    /// The switches of this group, in the order in which they are looked
    /// for.
    pub fn switches(self) -> (list: Vec<Switch>)
        ensures
            switch_views(list@) == group_switches(self),
    {
        let mut list: Vec<Switch> = Vec::new();
        match self {
            OptionGroup::Temperature => {
                list.push(Switch { short: "-C", long: "--Celsius", sets: Setting::Temperature(Temperature::CELSIUS) });
                list.push(Switch { short: "-F", long: "--Farenheit", sets: Setting::Temperature(Temperature::FARENHEIT) });
                list.push(Switch { short: "-K", long: "--Kelvin", sets: Setting::Temperature(Temperature::KELVIN) });
                list.push(Switch { short: "-R", long: "--Rankine", sets: Setting::Temperature(Temperature::RANKINE) });
            },
            OptionGroup::Pressure => {
                list.push(Switch { short: "", long: "--mmhg", sets: Setting::Pressure(Pressure::MMHG) });
                list.push(Switch { short: "", long: "--inhg", sets: Setting::Pressure(Pressure::INHG) });
                list.push(Switch { short: "", long: "--mbar", sets: Setting::Pressure(Pressure::MBAR) });
                list.push(Switch { short: "", long: "--atm", sets: Setting::Pressure(Pressure::ATM) });
                list.push(Switch { short: "", long: "--pa", sets: Setting::Pressure(Pressure::PA) });
                list.push(Switch { short: "", long: "--psi", sets: Setting::Pressure(Pressure::PSI) });
            },
            OptionGroup::Data => {
                list.push(Switch { short: "", long: "--hex", sets: Setting::Hex });
            },
            OptionGroup::Directory => {
                list.push(Switch { short: "", long: "--dir", sets: Setting::Slash });
                list.push(Switch { short: "", long: "--bare", sets: Setting::Bare });
                list.push(Switch { short: "", long: "--prune", sets: Setting::Prune });
            },
            OptionGroup::Persist => {
                list.push(Switch { short: "", long: "--persist", sets: Setting::Persist });
            },
            _ => {},
        }
        assert(switch_views(list@) =~= group_switches(self));
        list
    }

    /// The help of this group of options.
    pub fn help(self) -> (lines: Vec<String>)
        ensures
            texts(lines@) == group_help(self),
    {
        match self {
            OptionGroup::Server => {
                let head: [&str; 2] = [
                    "OwServer address (default localhost:4304)",
                    "\t-s\t--server\tIp address of owserver to contact",
                ];
                let lines = help_lines(&head);
                assert(literal_texts(head@) =~= group_help(self));
                lines
            },
            OptionGroup::Listener => {
                let head: [&str; 2] = [
                    "Listening address (no default but required)",
                    "\t-p\t--port\tIp address this program will answer on",
                ];
                let lines = help_lines(&head);
                assert(literal_texts(head@) =~= group_help(self));
                lines
            },
            OptionGroup::Format => {
                let head: [&str; 4] = [
                    "Device format displayed",
                    "\t-f\t--format",
                    "\t\t\tfi | f.i",
                    "\t\t\tfic | fi.c | f.ic | f.i.c",
                ];
                let lines = help_lines(&head);
                assert(literal_texts(head@) =~= group_help(self));
                lines
            },
            OptionGroup::Temperature => {
                let head: [&str; 5] = [
                    "Temperature Scale (default Celsius)",
                    "\t-C\t--Celsius",
                    "\t-F\t--Farenheit",
                    "\t-K\t--Kelvin",
                    "\t-R\t--Rankine",
                ];
                let lines = help_lines(&head);
                assert(literal_texts(head@) =~= group_help(self));
                lines
            },
            OptionGroup::Pressure => {
                let head: [&str; 7] = [
                    "Pressure Scale (default mBar)",
                    "\t--mmhg  mm Mercury",
                    "\t--inhg  inches Mercury",
                    "\t--mbar  milli Bar",
                    "\t--atm   atmospheres",
                    "\t--pa    Pascals",
                    "\t--psi   pounds / in^2",
                ];
                let lines = help_lines(&head);
                assert(literal_texts(head@) =~= group_help(self));
                lines
            },
            OptionGroup::Data => {
                let head: [&str; 4] = [
                    "Data display (default text)",
                    "\t--hex\tShow hexadecimal bytes",
                    "\t--size\tLimit data size returned (in bytes)",
                    "\t--offset\tposition (in bytes) to start data returned",
                ];
                let lines = help_lines(&head);
                assert(literal_texts(head@) =~= group_help(self));
                lines
            },
            OptionGroup::Directory => {
                let head: [&str; 4] = [
                    "Directory display options",
                    "\t--dir\tMark directories with a trailing '/'",
                    "\t--bare\tExclude non-device entries and convenience device entries (e.g. address)",
                    "\t--prune\tSame as --bare",
                ];
                let lines = help_lines(&head);
                assert(literal_texts(head@) =~= group_help(self));
                lines
            },
            OptionGroup::Persist => {
                let head: [&str; 2] = [
                    "Persistence keeps connection to owserver open",
                    "\t--persist\tFor better performance on repeated queries",
                ];
                let lines = help_lines(&head);
                assert(literal_texts(head@) =~= group_help(self));
                lines
            },
        }
    }
}

/// The switch that every program takes: one more level of debugging.
pub fn debug_switch() -> (switch: Switch)
    ensures
        switch.short@ == "-d"@,
        switch.long@ == "--debug"@,
        switch.sets == Setting::Debug,
{
    Switch { short: "-d", long: "--debug", sets: Setting::Debug }
}

/// The end of every program's help.
pub fn helper_tail() -> (lines: Vec<String>)
    ensures
        texts(lines@) == general_help(),
{
    let head: [&str; 6] = [
        "",
        "General",
        "\t-h\t--help\tThis help message",
        "\t-d\t--debug\tShow debugging information",
        "",
        "See https://github.com/alfille/owrust for more information",
    ];
    let lines = help_lines(&head);
    assert(literal_texts(head@) =~= general_help());
    lines
}

/// The whole help of a program: its head, the help of each of its groups of
/// options, and the general end.
pub fn help_text<P: Program>(program: &P) -> (lines: Vec<String>)
    ensures
        texts(lines@) == program.usage_text() + all_group_help(program.option_groups())
            + general_help(),
{
    let mut lines = program.usage();
    let groups = program.groups();
    let ghost head = texts(lines@);
    let mut i: usize = 0;
    while i < groups.len()
        invariant
            i <= groups@.len(),
            groups@ == program.option_groups(),
            texts(lines@) == head + all_group_help(groups@.take(i as int)),
        decreases groups@.len() - i,
    {
        let mut more = groups[i].help();
        let ghost before = texts(lines@);
        let ghost added = texts(more@);
        lines.append(&mut more);
        proof {
            let upto = groups@.take(i + 1);
            assert(upto.drop_last() =~= groups@.take(i as int));
            assert(upto.last() == groups@[i as int]);
            assert(texts(lines@) =~= before + added);
            assert(texts(lines@) =~= head + all_group_help(upto));
        }
        i = i + 1;
    }
    assert(groups@.take(i as int) =~= groups@);
    let mut tail = helper_tail();
    let ghost before = texts(lines@);
    let ghost added = texts(tail@);
    lines.append(&mut tail);
    assert(texts(lines@) =~= before + added);
    lines
}

/// The help of the groups of a list, one after the other.
pub open spec fn all_group_help(groups: Seq<OptionGroup>) -> Seq<Seq<char>>
    decreases groups.len(),
{
    if groups.len() == 0 {
        Seq::empty()
    } else {
        all_group_help(groups.drop_last()) + group_help(groups.last())
    }
}

} // verus!
