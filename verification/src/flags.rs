//! The flag word of a message: the units and the address format that a
//! client asks for, and the single bits that switch options on.
//!
//! The groups of bits are independent of each other. A server takes them as
//! they come; this library only puts them together and names them in traces.

use vstd::prelude::*;

verus! {

/// Temperature scale asked for in the flag word.
#[allow(non_camel_case_types)]
#[derive(Clone, Copy, Debug, PartialEq, Eq, Structural)]
pub enum Temperature {
    CELSIUS,
    FARENHEIT,
    KELVIN,
    RANKINE,
    DEFAULT,
}

/// Pressure scale asked for in the flag word.
#[allow(non_camel_case_types)]
#[derive(Clone, Copy, Debug, PartialEq, Eq, Structural)]
pub enum Pressure {
    MMHG,
    INHG,
    PA,
    PSI,
    ATM,
    MBAR,
    DEFAULT,
}

/// How a device address is written: family code (F), serial number (I) and
/// checksum (C), with or without dots (d) between them.
#[allow(non_camel_case_types)]
#[derive(Clone, Copy, Debug, PartialEq, Eq, Structural)]
pub enum Format {
    FI,
    FdI,
    FIC,
    FIdC,
    FdIC,
    FdIdC,
    DEFAULT,
}

// Address formats (three bits).
pub const FORMAT_F_I: u32 = 0x0000_0000;

pub const FORMAT_FI: u32 = 0x0100_0000;

pub const FORMAT_F_I_C: u32 = 0x0200_0000;

pub const FORMAT_F_IC: u32 = 0x0300_0000;

pub const FORMAT_FI_C: u32 = 0x0400_0000;

pub const FORMAT_FIC: u32 = 0x0500_0000;

pub const FORMAT_MASK: u32 = 0x0700_0000;

// Temperature scales (two bits).
pub const TEMPERATURE_C: u32 = 0x0000_0000;

pub const TEMPERATURE_F: u32 = 0x0001_0000;

pub const TEMPERATURE_K: u32 = 0x0002_0000;

pub const TEMPERATURE_R: u32 = 0x0003_0000;

pub const TEMPERATURE_MASK: u32 = 0x0003_0000;

// Pressure scales (three bits).
pub const PRESSURE_MBAR: u32 = 0x0000_0000;

pub const PRESSURE_ATM: u32 = 0x0004_0000;

pub const PRESSURE_MMHG: u32 = 0x0008_0000;

pub const PRESSURE_INHG: u32 = 0x000C_0000;

pub const PRESSURE_PSI: u32 = 0x0010_0000;

pub const PRESSURE_PA: u32 = 0x0014_0000;

pub const PRESSURE_MASK: u32 = 0x001C_0000;

// Single bits.
/// The message comes from a network client, not from a file system.
pub const OWNET_FLAG: u32 = 0x0000_0100;

/// Read the device, not the cache.
pub const UNCACHED: u32 = 0x0000_0020;

/// Refuse operations that could change the bus.
pub const SAFEMODE: u32 = 0x0000_0010;

/// Use alias names in place of addresses.
pub const ALIAS: u32 = 0x0000_0008;

/// Keep the connection open for the next query.
pub const PERSISTENCE: u32 = 0x0000_0004;

/// List the bus and other virtual directories with the devices.
pub const BUS_RET: u32 = 0x0000_0002;

/// The bits that ask for a temperature scale.
pub open spec fn temperature_bits(t: Temperature) -> u32 {
    match t {
        Temperature::CELSIUS => TEMPERATURE_C,
        Temperature::FARENHEIT => TEMPERATURE_F,
        Temperature::KELVIN => TEMPERATURE_K,
        Temperature::RANKINE => TEMPERATURE_R,
        Temperature::DEFAULT => TEMPERATURE_C,
    }
}

/// The bits that ask for a pressure scale.
pub open spec fn pressure_bits(p: Pressure) -> u32 {
    match p {
        Pressure::MBAR => PRESSURE_MBAR,
        Pressure::MMHG => PRESSURE_MMHG,
        Pressure::INHG => PRESSURE_INHG,
        Pressure::ATM => PRESSURE_ATM,
        Pressure::PA => PRESSURE_PA,
        Pressure::PSI => PRESSURE_PSI,
        Pressure::DEFAULT => PRESSURE_MBAR,
    }
}

/// The bits that ask for an address format.
pub open spec fn format_bits(f: Format) -> u32 {
    match f {
        Format::FI => FORMAT_FI,
        Format::FdI => FORMAT_F_I,
        Format::FIC => FORMAT_FIC,
        Format::FIdC => FORMAT_FI_C,
        Format::FdIC => FORMAT_F_IC,
        Format::FdIdC => FORMAT_F_I_C,
        Format::DEFAULT => FORMAT_F_I,
    }
}

/// The bit `bit` where `on` holds, else no bit.
pub open spec fn bit_if(on: bool, bit: u32) -> u32 {
    if on {
        bit
    } else {
        0
    }
}

/// The flag word of a configuration: the virtual directories are asked for
/// unless the listing is to be bare, persistence where it is wanted, and the
/// bits of the two scales and of the format.
pub open spec fn flags_of(
    bare: bool,
    persistence: bool,
    temperature: Temperature,
    pressure: Pressure,
    format: Format,
) -> u32 {
    bit_if(!bare, BUS_RET) | bit_if(persistence, PERSISTENCE) | temperature_bits(temperature)
        | pressure_bits(pressure) | format_bits(format)
}

impl Temperature {
    /// The bits that ask for this scale.
    pub fn bits(self) -> (b: u32)
        ensures
            b == temperature_bits(self),
    {
        match self {
            Temperature::CELSIUS => TEMPERATURE_C,
            Temperature::FARENHEIT => TEMPERATURE_F,
            Temperature::KELVIN => TEMPERATURE_K,
            Temperature::RANKINE => TEMPERATURE_R,
            Temperature::DEFAULT => TEMPERATURE_C,
        }
    }
}

impl Pressure {
    /// The bits that ask for this scale.
    pub fn bits(self) -> (b: u32)
        ensures
            b == pressure_bits(self),
    {
        match self {
            Pressure::MBAR => PRESSURE_MBAR,
            Pressure::MMHG => PRESSURE_MMHG,
            Pressure::INHG => PRESSURE_INHG,
            Pressure::ATM => PRESSURE_ATM,
            Pressure::PA => PRESSURE_PA,
            Pressure::PSI => PRESSURE_PSI,
            Pressure::DEFAULT => PRESSURE_MBAR,
        }
    }
}

impl Format {
    /// The bits that ask for this format.
    pub fn bits(self) -> (b: u32)
        ensures
            b == format_bits(self),
    {
        match self {
            Format::FI => FORMAT_FI,
            Format::FdI => FORMAT_F_I,
            Format::FIC => FORMAT_FIC,
            Format::FIdC => FORMAT_FI_C,
            Format::FdIC => FORMAT_F_IC,
            Format::FdIdC => FORMAT_F_I_C,
            Format::DEFAULT => FORMAT_F_I,
        }
    }
}

/// Puts the flag word of a configuration together.
pub fn make_flag_word(
    bare: bool,
    persistence: bool,
    temperature: Temperature,
    pressure: Pressure,
    format: Format,
) -> (flags: u32)
    ensures
        flags == flags_of(bare, persistence, temperature, pressure, format),
{
    let mut flags: u32 = 0;
    if !bare {
        flags = flags | BUS_RET;
    }
    if persistence {
        flags = flags | PERSISTENCE;
    }
    flags = flags | temperature.bits();
    flags = flags | pressure.bits();
    flags = flags | format.bits();
    proof {
        let a = bit_if(!bare, BUS_RET);
        let b = bit_if(persistence, PERSISTENCE);
        assert(0u32 | a == a) by (bit_vector);
        assert(a | 0u32 == a) by (bit_vector);
    }
    flags
}

/// The groups of the flag word are independent: each part of a configuration
/// is read back from the word under its own mask, whatever the others are.
pub proof fn lemma_flag_groups(
    bare: bool,
    persistence: bool,
    temperature: Temperature,
    pressure: Pressure,
    format: Format,
)
    ensures
        ({
            let flags = flags_of(bare, persistence, temperature, pressure, format);
            &&& flags & TEMPERATURE_MASK == temperature_bits(temperature)
            &&& flags & PRESSURE_MASK == pressure_bits(pressure)
            &&& flags & FORMAT_MASK == format_bits(format)
            &&& flags & PERSISTENCE == bit_if(persistence, PERSISTENCE)
            &&& flags & BUS_RET == bit_if(!bare, BUS_RET)
        }),
{
    let a = bit_if(!bare, BUS_RET);
    let b = bit_if(persistence, PERSISTENCE);
    let t = temperature_bits(temperature);
    let p = pressure_bits(pressure);
    let f = format_bits(format);
    assert((a == 0 || a == 2) && (b == 0 || b == 4) && t & 0x0003_0000 == t && p & 0x001C_0000 == p
        && f & 0x0700_0000 == f ==> {
        let flags = a | b | t | p | f;
        &&& flags & 0x0003_0000 == t
        &&& flags & 0x001C_0000 == p
        &&& flags & 0x0700_0000 == f
        &&& flags & 4 == b
        &&& flags & 2 == a
    }) by (bit_vector);
    assert(t & 0x0003_0000 == t) by {
        assert(0x0u32 & 0x0003_0000 == 0x0u32) by (bit_vector);
        assert(0x0001_0000u32 & 0x0003_0000 == 0x0001_0000u32) by (bit_vector);
        assert(0x0002_0000u32 & 0x0003_0000 == 0x0002_0000u32) by (bit_vector);
        assert(0x0003_0000u32 & 0x0003_0000 == 0x0003_0000u32) by (bit_vector);
    }
    assert(p & 0x001C_0000 == p) by {
        assert(0x0u32 & 0x001C_0000 == 0x0u32) by (bit_vector);
        assert(0x0004_0000u32 & 0x001C_0000 == 0x0004_0000u32) by (bit_vector);
        assert(0x0008_0000u32 & 0x001C_0000 == 0x0008_0000u32) by (bit_vector);
        assert(0x000C_0000u32 & 0x001C_0000 == 0x000C_0000u32) by (bit_vector);
        assert(0x0010_0000u32 & 0x001C_0000 == 0x0010_0000u32) by (bit_vector);
        assert(0x0014_0000u32 & 0x001C_0000 == 0x0014_0000u32) by (bit_vector);
    }
    assert(f & 0x0700_0000 == f) by {
        assert(0x0u32 & 0x0700_0000 == 0x0u32) by (bit_vector);
        assert(0x0100_0000u32 & 0x0700_0000 == 0x0100_0000u32) by (bit_vector);
        assert(0x0200_0000u32 & 0x0700_0000 == 0x0200_0000u32) by (bit_vector);
        assert(0x0300_0000u32 & 0x0700_0000 == 0x0300_0000u32) by (bit_vector);
        assert(0x0400_0000u32 & 0x0700_0000 == 0x0400_0000u32) by (bit_vector);
        assert(0x0500_0000u32 & 0x0700_0000 == 0x0500_0000u32) by (bit_vector);
    }
}

/// The letter of the temperature scale in a flag word.
pub open spec fn temperature_text(flags: u32) -> Seq<char> {
    let bits = flags & TEMPERATURE_MASK;
    if bits == TEMPERATURE_C {
        "C"@
    } else if bits == TEMPERATURE_F {
        "F"@
    } else if bits == TEMPERATURE_K {
        "K"@
    } else {
        "R"@
    }
}

/// The name of the pressure scale in a flag word, `?` for bits that stand
/// for none.
pub open spec fn pressure_text(flags: u32) -> Seq<char> {
    let bits = flags & PRESSURE_MASK;
    if bits == PRESSURE_MBAR {
        "mbar"@
    } else if bits == PRESSURE_ATM {
        "atm"@
    } else if bits == PRESSURE_MMHG {
        "mmhg"@
    } else if bits == PRESSURE_INHG {
        "inhg"@
    } else if bits == PRESSURE_PSI {
        "psi"@
    } else if bits == PRESSURE_PA {
        "pa"@
    } else {
        "?"@
    }
}

/// The address format in a flag word, `?` for bits that stand for none.
pub open spec fn format_text(flags: u32) -> Seq<char> {
    let bits = flags & FORMAT_MASK;
    if bits == FORMAT_F_I {
        "f.i"@
    } else if bits == FORMAT_FI {
        "fi"@
    } else if bits == FORMAT_F_I_C {
        "f.i.c"@
    } else if bits == FORMAT_F_IC {
        "f.ic"@
    } else if bits == FORMAT_FI_C {
        "fi.c"@
    } else if bits == FORMAT_FIC {
        "fic"@
    } else {
        "?"@
    }
}

/// The name of an option where its bit is set in a flag word, else nothing.
pub open spec fn option_text(flags: u32, bit: u32, name: Seq<char>) -> Seq<char> {
    if flags & bit == bit {
        name
    } else {
        Seq::empty()
    }
}

/// A flag word in words: the two scales, the format, and the name of each
/// option that is switched on, in nine columns with one space between them.
pub open spec fn flag_text(flags: u32) -> Seq<char> {
    temperature_text(flags) + " "@ + pressure_text(flags) + " "@ + format_text(flags) + " "@
        + option_text(flags, OWNET_FLAG, "ownet"@) + " "@ + option_text(flags, UNCACHED, "uncached"@)
        + " "@ + option_text(flags, SAFEMODE, "safe"@) + " "@ + option_text(flags, ALIAS, "alias"@)
        + " "@ + option_text(flags, PERSISTENCE, "persist"@) + " "@ + option_text(
        flags,
        BUS_RET,
        "bus"@,
    )
}

fn temperature_name(flags: u32) -> (name: &'static str)
    ensures
        name@ == temperature_text(flags),
{
    let bits = flags & TEMPERATURE_MASK;
    if bits == TEMPERATURE_C {
        "C"
    } else if bits == TEMPERATURE_F {
        "F"
    } else if bits == TEMPERATURE_K {
        "K"
    } else {
        "R"
    }
}

fn pressure_name(flags: u32) -> (name: &'static str)
    ensures
        name@ == pressure_text(flags),
{
    let bits = flags & PRESSURE_MASK;
    if bits == PRESSURE_MBAR {
        "mbar"
    } else if bits == PRESSURE_ATM {
        "atm"
    } else if bits == PRESSURE_MMHG {
        "mmhg"
    } else if bits == PRESSURE_INHG {
        "inhg"
    } else if bits == PRESSURE_PSI {
        "psi"
    } else if bits == PRESSURE_PA {
        "pa"
    } else {
        "?"
    }
}

fn format_name(flags: u32) -> (name: &'static str)
    ensures
        name@ == format_text(flags),
{
    let bits = flags & FORMAT_MASK;
    if bits == FORMAT_F_I {
        "f.i"
    } else if bits == FORMAT_FI {
        "fi"
    } else if bits == FORMAT_F_I_C {
        "f.i.c"
    } else if bits == FORMAT_F_IC {
        "f.ic"
    } else if bits == FORMAT_FI_C {
        "fi.c"
    } else if bits == FORMAT_FIC {
        "fic"
    } else {
        "?"
    }
}

fn option_name(flags: u32, bit: u32, name: &'static str) -> (text: &'static str)
    ensures
        text@ == option_text(flags, bit, name@),
{
    if flags & bit == bit {
        name
    } else {
        proof {
            reveal_strlit("");
        }
        assert(""@ =~= Seq::<char>::empty());
        ""
    }
}

/// Renders a flag word in words for a trace.
pub fn flag_string(flags: u32) -> (text: String)
    ensures
        text@ == flag_text(flags),
{
    let mut text = temperature_name(flags).to_owned();
    text.append(" ");
    text.append(pressure_name(flags));
    text.append(" ");
    text.append(format_name(flags));
    text.append(" ");
    text.append(option_name(flags, OWNET_FLAG, "ownet"));
    text.append(" ");
    text.append(option_name(flags, UNCACHED, "uncached"));
    text.append(" ");
    text.append(option_name(flags, SAFEMODE, "safe"));
    text.append(" ");
    text.append(option_name(flags, ALIAS, "alias"));
    text.append(" ");
    text.append(option_name(flags, PERSISTENCE, "persist"));
    text.append(" ");
    text.append(option_name(flags, BUS_RET, "bus"));
    text
}

} // verus!
