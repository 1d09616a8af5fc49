//! Reader for the metadata header of a ROM image: a pure, side-effect-free
//! interpreter of a raw byte slice. Header layout: the title occupies 15
//! bytes from 0x0134, the manufacturer code 3 bytes from 0x013F, and the
//! hardware-compatibility flag the single byte at 0x0143.

use vstd::prelude::*;
use vstd::utf8::*;

use crate::text::utf8_to_string;

verus! {

broadcast use vstd::slice::group_slice_axioms;

/// Offset of the first title byte in a ROM image.
pub const TITLE_START: usize = 0x0134;

/// Number of bytes the title occupies.
pub const TITLE_LEN: usize = 15;

/// Offset of the first manufacturer-code byte in a ROM image.
pub const MANUFACTURER_CODE_START: usize = 0x013F;

/// Number of bytes the manufacturer code occupies.
pub const MANUFACTURER_CODE_LEN: usize = 3;

/// Offset of the hardware-compatibility flag byte in a ROM image.
pub const CBG_FLAG_ADDRESS: usize = 0x0143;

/// The bytes of the title field of a ROM image.
pub open spec fn spec_title_bytes(rom: Seq<u8>) -> Seq<u8>
    recommends
        rom.len() > CBG_FLAG_ADDRESS,
{
    rom.subrange(TITLE_START as int, TITLE_START + TITLE_LEN)
}

/// The bytes of the manufacturer-code field of a ROM image.
pub open spec fn spec_manufacturer_code_bytes(rom: Seq<u8>) -> Seq<u8>
    recommends
        rom.len() > CBG_FLAG_ADDRESS,
{
    rom.subrange(MANUFACTURER_CODE_START as int, MANUFACTURER_CODE_START + MANUFACTURER_CODE_LEN)
}

/// The hardware-compatibility flag a header byte encodes.
pub open spec fn spec_cbg_flag(byte: u8) -> CbgFlag {
    if byte == 0x80 {
        CbgFlag::SupportsCbg()
    } else if byte == 0xC0 {
        CbgFlag::OnlyWorksOnCbg()
    } else {
        CbgFlag::Other(byte)
    }
}

/// The hardware-compatibility flag of a ROM: whether the image also supports,
/// or only works on, the colour variant of the console.
#[derive(Debug, Eq, PartialEq, Structural)]
pub enum CbgFlag {
    SupportsCbg(),
    OnlyWorksOnCbg(),
    Other(u8),
}

impl CbgFlag {
    /// Interprets the header's compatibility byte; every byte maps to a flag.
    pub fn from_byte(byte: u8) -> (flag: CbgFlag)
        ensures
            flag == spec_cbg_flag(byte),
    {
        match byte {
            0x80 => CbgFlag::SupportsCbg(),
            0xC0 => CbgFlag::OnlyWorksOnCbg(),
            b => CbgFlag::Other(b),
        }
    }
}

/// The metadata header of a ROM image.
pub struct ROM {
    pub title: String,
    pub manufacturer_code: String,
    pub cbg_flag: CbgFlag,
}

impl ROM {
    /// Reads the header fields out of a ROM image. Returns the header exactly
    /// when the image reaches past the last header byte and both text fields
    /// hold valid UTF-8; the text fields are then the decoded characters.
    pub fn from_bytes(rom_bytes: &[u8]) -> (result: Option<ROM>)
        ensures
            match result {
                Some(rom) => rom_bytes@.len() > CBG_FLAG_ADDRESS && valid_utf8(
                    spec_title_bytes(rom_bytes@),
                ) && valid_utf8(spec_manufacturer_code_bytes(rom_bytes@)) && rom.title@
                    == decode_utf8(spec_title_bytes(rom_bytes@)) && rom.manufacturer_code@
                    == decode_utf8(spec_manufacturer_code_bytes(rom_bytes@)) && rom.cbg_flag
                    == spec_cbg_flag(rom_bytes@[CBG_FLAG_ADDRESS as int]),
                None => rom_bytes@.len() <= CBG_FLAG_ADDRESS || !valid_utf8(
                    spec_title_bytes(rom_bytes@),
                ) || !valid_utf8(spec_manufacturer_code_bytes(rom_bytes@)),
            },
    {
        if rom_bytes.len() <= CBG_FLAG_ADDRESS {
            return None;
        }
        let title = match ROM::read_title(rom_bytes) {
            Some(title) => title,
            None => {
                return None;
            },
        };
        let manufacturer_code = match ROM::read_manufacturer_code(rom_bytes) {
            Some(code) => code,
            None => {
                return None;
            },
        };
        let cbg_flag = match ROM::read_cbg_flag(rom_bytes) {
            Some(flag) => flag,
            None => {
                return None;
            },
        };
        Some(ROM { title, manufacturer_code, cbg_flag })
    }

    /// Reads the title field; nothing is returned when its bytes are not
    /// valid UTF-8.
    fn read_title(rom_bytes: &[u8]) -> (result: Option<String>)
        requires
            rom_bytes@.len() > CBG_FLAG_ADDRESS,
        ensures
            match result {
                Some(title) => valid_utf8(spec_title_bytes(rom_bytes@)) && title@ == decode_utf8(
                    spec_title_bytes(rom_bytes@),
                ),
                None => !valid_utf8(spec_title_bytes(rom_bytes@)),
            },
    {
        let ascii_bytes = read_field(rom_bytes, TITLE_START, TITLE_LEN);
        utf8_to_string(ascii_bytes)
    }

    /// Reads the manufacturer-code field; nothing is returned when its bytes
    /// are not valid UTF-8.
    fn read_manufacturer_code(rom_bytes: &[u8]) -> (result: Option<String>)
        requires
            rom_bytes@.len() > CBG_FLAG_ADDRESS,
        ensures
            match result {
                Some(code) => valid_utf8(spec_manufacturer_code_bytes(rom_bytes@)) && code@
                    == decode_utf8(spec_manufacturer_code_bytes(rom_bytes@)),
                None => !valid_utf8(spec_manufacturer_code_bytes(rom_bytes@)),
            },
    {
        let ascii_bytes = read_field(rom_bytes, MANUFACTURER_CODE_START, MANUFACTURER_CODE_LEN);
        utf8_to_string(ascii_bytes)
    }

    /// Reads the hardware-compatibility flag; nothing is returned when the
    /// image ends before its byte.
    fn read_cbg_flag(rom_bytes: &[u8]) -> (result: Option<CbgFlag>)
        ensures
            match result {
                Some(flag) => rom_bytes@.len() > CBG_FLAG_ADDRESS && flag == spec_cbg_flag(
                    rom_bytes@[CBG_FLAG_ADDRESS as int],
                ),
                None => rom_bytes@.len() <= CBG_FLAG_ADDRESS,
            },
    {
        if rom_bytes.len() > CBG_FLAG_ADDRESS {
            Some(CbgFlag::from_byte(rom_bytes[CBG_FLAG_ADDRESS]))
        } else {
            None
        }
    }
}

/// Copies `len` bytes of a ROM image starting at `start`.
fn read_field(rom_bytes: &[u8], start: usize, len: usize) -> (field: Vec<u8>)
    requires
        start + len <= rom_bytes@.len(),
    ensures
        field@ == rom_bytes@.subrange(start as int, start + len),
{
    let total = rom_bytes.len();
    let mut field: Vec<u8> = Vec::new();
    let mut i: usize = 0;
    while i < len
        invariant
            i <= len,
            start + len <= total == rom_bytes@.len(),
            field@ == rom_bytes@.subrange(start as int, start + i),
        decreases len - i,
    {
        field.push(rom_bytes[start + i]);
        proof {
            assert(field@ =~= rom_bytes@.subrange(start as int, start + i + 1));
        }
        i = i + 1;
    }
    field
}

} // verus!
