use vstd::prelude::*;

use crate::checksum::{sum_outside, sum_skipping};

verus! {

/// First byte of the header within the image.
pub const HEADER_OFFSET: usize = 0x0100;

/// Length of the header: it ends with the checksum's low byte at 0x14F.
pub const HEADER_LENGTH: usize = 0x0050;

/// Start of the two checksum bytes, which the checksum itself leaves out.
pub const CHECKSUM_START: usize = 0x014E;

/// One past the last checksum byte.
pub const CHECKSUM_END: usize = 0x0150;

/// Start of the title bytes.
pub const TITLE_START: usize = 0x0134;

/// One past the last title byte copied from the image.
pub const TITLE_END: usize = 0x0143;

/// Offset of the cartridge-type byte.
pub const CARTRIDGE_TYPE_AT: usize = 0x0147;

/// Offset of the destination byte.
pub const DESTINATION_AT: usize = 0x014A;

/// Offset of the first of the four bytes read as the two big-endian
/// entry-point words, high byte first.
pub const ENTRY_POINT_AT: usize = 100;

/// Why an image could not be decoded.
#[derive(Debug, Clone, Copy, PartialEq, Eq, Structural)]
pub enum Error {
    /// The image ends before the header does.
    RomTooShort,
    /// The checksum field disagrees with the image's byte sum.
    BadChecksum,
}

/// The decoded cartridge header.
///
/// `rom_size` and `ram_size` are not decoded yet and are always zero.
#[derive(Debug, Clone, Copy)]
pub struct Header {
    /// Two big-endian words read from the four bytes at `ENTRY_POINT_AT`.
    pub begin_code_execution_point: [u16; 2],
    /// The fifteen title bytes of the image, followed by a zero byte.
    pub game_title: [u8; 16],
    pub cartridge_type: CartridgeType,
    /// Number of ROM banks (not decoded: always zero).
    pub rom_size: u8,
    /// Number of RAM banks (not decoded: always zero).
    pub ram_size: u8,
    pub destination_code: DestinationCode,
    /// The checksum that the header declares.
    pub checksum: u16,
}

/// Where the two destination values are distinguished.
#[derive(Debug, Clone, Copy, PartialEq, Eq, Structural)]
pub enum DestinationCode {
    Japanese,
    NonJapanese,
}

/// The memory-bank controller families that the header can name.
#[derive(Debug, Clone, Copy, PartialEq, Eq, Structural)]
pub enum MemoryBankController {
    Type1,
    Type2,
    Type3,
    Type5,
}

/// The hardware on the cartridge; `None` stands for no recognised controller.
#[derive(Debug, Clone, Copy, PartialEq, Eq, Structural)]
pub struct CartridgeType {
    pub memory_bank: Option<MemoryBankController>,
}

/// The checksum of an image: its byte sum, leaving out the checksum field,
/// modulo 65536.
pub open spec fn checksum_of(rom: Seq<u8>) -> int {
    sum_outside(rom, CHECKSUM_START as int, CHECKSUM_END as int) % 0x10000
}

/// The big-endian 16-bit value of a high and a low byte.
pub open spec fn be16(hi: u8, lo: u8) -> int {
    hi * 256 + lo
}

/// The checksum that an image's header declares.
pub open spec fn declared_checksum(rom: Seq<u8>) -> int {
    be16(rom[CHECKSUM_START as int], rom[CHECKSUM_START + 1])
}

/// Whether `rom` is long enough to hold the whole header.
pub open spec fn holds_header(rom: Seq<u8>) -> bool {
    rom.len() >= HEADER_OFFSET + HEADER_LENGTH
}

impl Header {
    /// Whether every field of `self` is what the header of `rom` encodes.
    pub open spec fn decoded_from(self, rom: Seq<u8>) -> bool {
        &&& self.begin_code_execution_point[0] == be16(
            rom[ENTRY_POINT_AT as int],
            rom[ENTRY_POINT_AT + 1],
        )
        &&& self.begin_code_execution_point[1] == be16(
            rom[ENTRY_POINT_AT + 2],
            rom[ENTRY_POINT_AT + 3],
        )
        &&& self.game_title@ == rom.subrange(TITLE_START as int, TITLE_END as int).push(0u8)
        &&& self.cartridge_type.memory_bank == memory_bank_of(rom[CARTRIDGE_TYPE_AT as int])
        &&& self.rom_size == 0
        &&& self.ram_size == 0
        &&& self.destination_code == destination_of(rom[DESTINATION_AT as int])
        &&& self.checksum == declared_checksum(rom)
    }
}

/// The destination named by a raw destination byte.
pub open spec fn destination_of(code: u8) -> DestinationCode {
    if code == 0 {
        DestinationCode::Japanese
    } else {
        DestinationCode::NonJapanese
    }
}

/// The controller named by a raw cartridge-type byte: the first range that
/// holds the byte decides, and a byte in none of them names no controller.
pub open spec fn memory_bank_of(n: u8) -> Option<MemoryBankController> {
    if 0x01 <= n <= 0x03 {
        Some(MemoryBankController::Type1)
    } else if 0x05 <= n <= 0x06 {
        Some(MemoryBankController::Type2)
    } else if 0x12 <= n <= 0x13 {
        Some(MemoryBankController::Type3)
    } else if 0x19 <= n <= 0x1E {
        Some(MemoryBankController::Type5)
    } else {
        None
    }
}

/// Reads the big-endian 16-bit value at `at`.
fn read_be16(rom: &[u8], at: usize) -> (r: u16)
    requires
        at + 1 < rom@.len(),
    ensures
        r == be16(rom@[at as int], rom@[at + 1]),
{
    (rom[at] as u16) * 256 + rom[at + 1] as u16
}

impl Header {
    /// Decodes the header of `rom` and checks its checksum.
    ///
    /// An image shorter than the header is `RomTooShort`: the header runs
    /// through the checksum's low byte at 0x14F, so 0x150 bytes are needed.
    /// An image whose byte sum disagrees with the declared checksum is
    /// `BadChecksum`. Otherwise every field is decoded from the image.
    pub fn parse(rom: &[u8]) -> (r: Result<Header, Error>)
        ensures
            !holds_header(rom@) ==> r == Err::<Header, Error>(Error::RomTooShort),
            holds_header(rom@) && checksum_of(rom@) != declared_checksum(rom@)
                ==> r == Err::<Header, Error>(Error::BadChecksum),
            holds_header(rom@) && checksum_of(rom@) == declared_checksum(rom@)
                ==> (r matches Ok(h) && h.decoded_from(rom@)),
    {
        if rom.len() < HEADER_OFFSET + HEADER_LENGTH {
            return Err(Error::RomTooShort);
        }
        let mut title = [0u8; 16];
        for i in 0..TITLE_END - TITLE_START
            invariant
                holds_header(rom@),
                forall|j: int| 0 <= j < i ==> title@[j] == rom@[TITLE_START + j],
                forall|j: int| i <= j < 16 ==> title@[j] == 0,
        {
            title[i] = rom[TITLE_START + i];
        }
        assert(title@ =~= rom@.subrange(TITLE_START as int, TITLE_END as int).push(0u8));
        let begin_execution = [read_be16(rom, ENTRY_POINT_AT), read_be16(rom, ENTRY_POINT_AT + 2)];
        let header = Header {
            begin_code_execution_point: begin_execution,
            game_title: title,
            cartridge_type: CartridgeType::from_u8(rom[CARTRIDGE_TYPE_AT]),
            rom_size: 0,
            ram_size: 0,
            destination_code: DestinationCode::from_u8(rom[DESTINATION_AT]),
            checksum: read_be16(rom, CHECKSUM_START),
        };
        match header.check_checksum(rom) {
            Ok(()) => Ok(header),
            Err(e) => Err(e),
        }
    }

    /// Compares the declared checksum with the one computed over `rom`.
    pub fn check_checksum(&self, rom: &[u8]) -> (r: Result<(), Error>)
        ensures
            r == (if self.checksum == checksum_of(rom@) {
                Ok::<(), Error>(())
            } else {
                Err(Error::BadChecksum)
            }),
    {
        let sum = sum_skipping(rom, CHECKSUM_START, CHECKSUM_END);
        if sum == self.checksum {
            Ok(())
        } else {
            Err(Error::BadChecksum)
        }
    }
}

impl DestinationCode {
    /// Decodes a destination byte: zero is Japanese, anything else is not.
    pub fn from_u8(code: u8) -> (r: DestinationCode)
        ensures
            r == destination_of(code),
    {
        match code {
            0 => DestinationCode::Japanese,
            _ => DestinationCode::NonJapanese,
        }
    }
}

impl CartridgeType {
    /// Decodes a cartridge-type byte.
    pub fn from_u8(n: u8) -> (r: CartridgeType)
        ensures
            r.memory_bank == memory_bank_of(n),
    {
        CartridgeType { memory_bank: MemoryBankController::from_u8(n) }
    }
}

impl MemoryBankController {
    /// The controller that a cartridge-type byte names, if any.
    pub fn from_u8(n: u8) -> (r: Option<MemoryBankController>)
        ensures
            r == memory_bank_of(n),
    {
        match n {
            1 | 2 | 3 => Some(MemoryBankController::Type1),
            5 | 6 => Some(MemoryBankController::Type2),
            0x12 | 0x13 => Some(MemoryBankController::Type3),
            0x19..=0x1E => Some(MemoryBankController::Type5),
            _ => None,
        }
    }
}

} // verus!
