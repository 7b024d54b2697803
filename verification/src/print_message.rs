//! Traces: a message shown as lines of text, for a relay that lets its
//! traffic be read.

use vstd::prelude::*;
use vstd::slice::slice_subrange;
use crate::flags::flag_string;
use crate::flags::flag_text;
use crate::header::signed_of;
use crate::header::to_signed;
use crate::header::to_unsigned;
use crate::header::unsigned_of;
use crate::query::operation_name;
use crate::query::operation_of;
use crate::query::Operation;
use crate::query::OwQuery;
use crate::response::OwResponse;
use crate::text::decimal;
use crate::text::hex_digits;
use crate::text::hex_dump;
use crate::text::hex_text;
use crate::text::lossy_text;
use crate::text::push_decimal;
use crate::text::push_hex;
use crate::text::texts;
use crate::text::utf8_lossy;
use crate::token::token_count;
use crate::token::tokens_announced;
use crate::token::SERVERMESSAGE;

verus! {

/// What a trace shows of a message. `mtype` is the third word of the
/// header, whatever the message takes it for.
pub struct TraceView {
    pub version: u32,
    pub flags: u32,
    pub payload: i32,
    pub mtype: u32,
    pub size: u32,
    pub offset: u32,
    pub content: Seq<u8>,
}

/// The version in hexadecimal, with the number of tokens where the version
/// announces tokens.
pub open spec fn version_text(version: u32) -> Seq<char> {
    if version & SERVERMESSAGE == SERVERMESSAGE {
        hex_digits(version as nat) + " tokens="@ + decimal(token_count(version) as int)
    } else {
        hex_digits(version as nat)
    }
}

/// The first line of a trace: the title and the version.
pub open spec fn version_line(title: Seq<char>, version: u32) -> Seq<char> {
    title + "  Version: "@ + version_text(version)
}

/// The line that shows the third word as a return code.
pub open spec fn return_line(m: TraceView) -> Seq<char> {
    "Return code = "@ + decimal(signed_of(m.mtype) as int)
}

/// Where the path of a write ends and where its value ends in the content:
/// the value is the last `size` bytes of the payload. Where payload, size
/// and content do not fit each other, the whole content counts as path.
pub open spec fn write_split(m: TraceView) -> (int, int) {
    if m.size <= m.payload && m.payload <= m.content.len() {
        (m.payload - m.size, m.payload as int)
    } else {
        (m.content.len() as int, m.content.len() as int)
    }
}

/// The content as a path.
pub open spec fn path_text(m: TraceView) -> Seq<char> {
    utf8_lossy(m.content)
}

/// An operation in words: its name, with the path for the operations that a
/// trace shows the path of, and for a write the value as well; the number
/// for a tag that names no operation.
pub open spec fn operation_text(mtype: u32, path: Seq<char>, value: Seq<char>) -> Seq<char> {
    match operation_of(mtype) {
        Some(Operation::Nop) => "NOP"@,
        Some(Operation::Size) => "SIZE"@,
        Some(Operation::Present) => "PRESENT"@,
        Some(Operation::Write) => "WRITE "@ + path + " => "@ + value,
        Some(op) => operation_name(Some(op)) + " "@ + path,
        None => "UNKNOWN message number "@ + decimal(mtype as int),
    }
}

/// The line that shows the third word as an operation. The path of a write
/// is the content before its value, and the value is shown in hexadecimal;
/// the path of any other operation is the whole content.
pub open spec fn type_line(m: TraceView) -> Seq<char> {
    if operation_of(m.mtype) == Some(Operation::Write) {
        let (path_end, end) = write_split(m);
        operation_text(
            m.mtype,
            utf8_lossy(m.content.subrange(0, path_end)),
            hex_dump(m.content.subrange(path_end, end)),
        )
    } else {
        operation_text(m.mtype, path_text(m), Seq::empty())
    }
}

/// Renders an operation in words, from its tag, the path it works on and,
/// for a write, the value in hexadecimal.
pub fn operation_line(mtype: u32, path: &str, value: &str) -> (line: String)
    ensures
        line@ == operation_text(mtype, path@, value@),
{
    match Operation::from_tag(mtype) {
        Some(Operation::Nop) => "NOP".to_owned(),
        Some(Operation::Size) => "SIZE".to_owned(),
        Some(Operation::Present) => "PRESENT".to_owned(),
        Some(Operation::Write) => {
            let mut text = "WRITE ".to_owned();
            text.append(path);
            text.append(" => ");
            text.append(value);
            text
        },
        Some(_) => {
            let mut text = OwQuery::message_name(mtype).to_owned();
            text.append(" ");
            text.append(path);
            text
        },
        None => {
            let mut text = "UNKNOWN message number ".to_owned();
            push_decimal(&mut text, mtype as i64);
            text
        },
    }
}

/// The line that shows the flags.
pub open spec fn flags_line(m: TraceView) -> Seq<char> {
    "Flags: "@ + flag_text(m.flags)
}

/// The line that shows payload, size and offset.
pub open spec fn sizes_line(m: TraceView) -> Seq<char> {
    "Payload:"@ + decimal(m.payload as int) + " Size:"@ + decimal(m.size as int) + " Offset:"@
        + decimal(m.offset as int)
}

/// A message that can be shown in a trace.
pub trait PrintMessage {
    /// What the trace shows of the message.
    spec fn shown(&self) -> TraceView;

    /// The second line of the trace.
    spec fn second_line(&self) -> Seq<char>;

    /// The lines of the trace under `title`.
    spec fn trace(&self, title: Seq<char>) -> Seq<Seq<char>>;

    fn version(&self) -> (v: u32)
        ensures
            v == self.shown().version,
    ;

    fn flags(&self) -> (v: u32)
        ensures
            v == self.shown().flags,
    ;

    fn payload(&self) -> (v: i32)
        ensures
            v == self.shown().payload,
    ;

    /// The third word of the header as an operation tag.
    fn mtype(&self) -> (v: u32)
        ensures
            v == self.shown().mtype,
    ;

    /// The third word of the header as a return code.
    fn ret(&self) -> (v: i32)
        ensures
            v == signed_of(self.shown().mtype),
    ;

    fn size(&self) -> (v: u32)
        ensures
            v == self.shown().size,
    ;

    fn offset(&self) -> (v: u32)
        ensures
            v == self.shown().offset,
    ;

    fn content(&self) -> (c: &Vec<u8>)
        ensures
            c@ == self.shown().content,
    ;

    /// The second line of the trace.
    fn line_2(&self) -> (line: String)
        ensures
            line@ == self.second_line(),
    ;

    /// The message as lines of text under `title`.
    fn print_all(&self, title: &str) -> (lines: Vec<String>)
        ensures
            texts(lines@) == self.trace(title@),
    ;

    /// The first line: the title and the version.
    fn version_line_1(&self, title: &str) -> (line: String)
        ensures
            line@ == version_line(title@, self.shown().version),
    {
        let mut line = title.to_owned();
        line.append("  Version: ");
        line.append(self.string_version().as_str());
        line
    }

    /// The second line where it shows an operation.
    fn mtype_line_2(&self) -> (line: String)
        ensures
            line@ == type_line(self.shown()),
    {
        self.string_type()
    }

    /// The second line where it shows a return code.
    fn return_line_2(&self) -> (line: String)
        ensures
            line@ == return_line(self.shown()),
    {
        let mut line = "Return code = ".to_owned();
        push_decimal(&mut line, self.ret() as i64);
        line
    }

    /// The third line: the flags in words.
    fn flags_line_3(&self) -> (line: String)
        ensures
            line@ == flags_line(self.shown()),
    {
        let mut line = "Flags: ".to_owned();
        line.append(flag_string(self.flags()).as_str());
        line
    }

    /// The fourth line: payload, size and offset.
    fn sizes_line_4(&self) -> (line: String)
        ensures
            line@ == sizes_line(self.shown()),
    {
        let mut line = "Payload:".to_owned();
        line.append(self.string_payload().as_str());
        line.append(" Size:");
        line.append(self.string_size().as_str());
        line.append(" Offset:");
        line.append(self.string_offset().as_str());
        line
    }

    /// The content as a path.
    fn string_path(&self) -> (text: String)
        ensures
            text@ == path_text(self.shown()),
    {
        lossy_text(self.content().as_slice())
    }

    /// The content of a write as its path and its value in hexadecimal.
    fn string_path_pair(&self) -> (pair: (String, String))
        ensures
            pair.0@ == utf8_lossy(self.shown().content.subrange(0, write_split(self.shown()).0)),
            pair.1@ == hex_dump(
                self.shown().content.subrange(
                    write_split(self.shown()).0,
                    write_split(self.shown()).1,
                ),
            ),
    {
        let content = self.content().as_slice();
        let payload = self.payload();
        let size = self.size();
        let (path_end, end): (usize, usize) = if payload >= 0 && size <= payload as u32
            && payload as usize <= content.len() {
            ((payload as u32 - size) as usize, payload as usize)
        } else {
            (content.len(), content.len())
        };
        let first = lossy_text(slice_subrange(content, 0, path_end));
        let second = hex_text(slice_subrange(content, path_end, end));
        (first, second)
    }

    /// The version in hexadecimal, with the number of tokens where the
    /// version announces tokens.
    fn string_version(&self) -> (text: String)
        ensures
            text@ == version_text(self.shown().version),
    {
        let version = self.version();
        let mut text = String::new();
        push_hex(&mut text, version);
        if version & SERVERMESSAGE == SERVERMESSAGE {
            text.append(" tokens=");
            push_decimal(&mut text, tokens_announced(version) as i64);
        }
        text
    }

    /// The third word as an operation, with what it works on.
    fn string_type(&self) -> (text: String)
        ensures
            text@ == type_line(self.shown()),
    {
        let mtype = self.mtype();
        match Operation::from_tag(mtype) {
            Some(Operation::Write) => {
                let w = self.string_path_pair();
                operation_line(mtype, w.0.as_str(), w.1.as_str())
            },
            _ => {
                proof {
                    reveal_strlit("");
                    assert(""@ =~= Seq::<char>::empty());
                }
                operation_line(mtype, self.string_path().as_str(), "")
            },
        }
    }

    fn string_payload(&self) -> (text: String)
        ensures
            text@ == decimal(self.shown().payload as int),
    {
        let mut text = String::new();
        push_decimal(&mut text, self.payload() as i64);
        text
    }

    fn string_size(&self) -> (text: String)
        ensures
            text@ == decimal(self.shown().size as int),
    {
        let mut text = String::new();
        push_decimal(&mut text, self.size() as i64);
        text
    }

    fn string_offset(&self) -> (text: String)
        ensures
            text@ == decimal(self.shown().offset as int),
    {
        let mut text = String::new();
        push_decimal(&mut text, self.offset() as i64);
        text
    }
}

impl PrintMessage for OwQuery {
    open spec fn shown(&self) -> TraceView {
        TraceView {
            version: self.version,
            flags: self.flags,
            payload: self.payload,
            mtype: self.mtype,
            size: self.size,
            offset: self.offset,
            content: self.content@,
        }
    }

    /// A query shows its third word as a number.
    open spec fn second_line(&self) -> Seq<char> {
        return_line(self.shown())
    }

    /// Four lines: version, third word, flags, sizes.
    open spec fn trace(&self, title: Seq<char>) -> Seq<Seq<char>> {
        seq![
            version_line(title, self.version),
            self.second_line(),
            flags_line(self.shown()),
            sizes_line(self.shown()),
        ]
    }

    fn version(&self) -> u32 {
        self.version
    }

    fn flags(&self) -> u32 {
        self.flags
    }

    fn payload(&self) -> i32 {
        self.payload
    }

    fn mtype(&self) -> u32 {
        self.mtype
    }

    fn ret(&self) -> i32 {
        to_signed(self.mtype)
    }

    fn size(&self) -> u32 {
        self.size
    }

    fn offset(&self) -> u32 {
        self.offset
    }

    fn content(&self) -> &Vec<u8> {
        &self.content
    }

    fn line_2(&self) -> String {
        self.return_line_2()
    }

    fn print_all(&self, title: &str) -> (lines: Vec<String>) {
        let mut lines: Vec<String> = Vec::new();
        lines.push(self.version_line_1(title));
        lines.push(self.line_2());
        lines.push(self.flags_line_3());
        lines.push(self.sizes_line_4());
        assert(texts(lines@) =~= self.trace(title@));
        lines
    }
}

impl PrintMessage for OwResponse {
    open spec fn shown(&self) -> TraceView {
        TraceView {
            version: self.version,
            flags: self.flags,
            payload: self.payload,
            mtype: unsigned_of(self.ret),
            size: self.size,
            offset: self.offset,
            content: self.content@,
        }
    }

    /// A response shows its third word as the operation that the number
    /// stands for.
    open spec fn second_line(&self) -> Seq<char> {
        type_line(self.shown())
    }

    /// Five lines: version, third word, flags, sizes, and an empty line that
    /// closes the exchange.
    open spec fn trace(&self, title: Seq<char>) -> Seq<Seq<char>> {
        seq![
            version_line(title, self.version),
            self.second_line(),
            flags_line(self.shown()),
            sizes_line(self.shown()),
            Seq::empty(),
        ]
    }

    fn version(&self) -> u32 {
        self.version
    }

    fn flags(&self) -> u32 {
        self.flags
    }

    fn payload(&self) -> i32 {
        self.payload
    }

    fn mtype(&self) -> u32 {
        to_unsigned(self.ret)
    }

    fn ret(&self) -> i32 {
        self.ret
    }

    fn size(&self) -> u32 {
        self.size
    }

    fn offset(&self) -> u32 {
        self.offset
    }

    fn content(&self) -> &Vec<u8> {
        &self.content
    }

    fn line_2(&self) -> String {
        self.mtype_line_2()
    }

    fn print_all(&self, title: &str) -> (lines: Vec<String>) {
        let mut lines: Vec<String> = Vec::new();
        lines.push(self.version_line_1(title));
        lines.push(self.line_2());
        lines.push(self.flags_line_3());
        lines.push(self.sizes_line_4());
        lines.push(String::new());
        assert(texts(lines@) =~= self.trace(title@));
        lines
    }
}

} // verus!
