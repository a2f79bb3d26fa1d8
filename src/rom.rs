use vstd::prelude::*;

verus! {

/// Size of one program (PRG) page: 16 KiB.
pub const PRG_ROM_PAGE_SIZE: usize = 0x4000;

/// Size of one graphics (CHR) page: 8 KiB.
pub const CHR_ROM_PAGE_SIZE: usize = 0x2000;

/// Size of the fixed header at the start of every image.
pub const INES_HEADER_SIZE: usize = 16;

/// Size of the optional trainer block that follows the header.
pub const TRAINER_SIZE: usize = 512;

/// The screen-memory layout declared by a header.
#[derive(Debug, Clone, Copy, PartialEq, Eq, Structural)]
pub enum Mirroring {
    Vertical,
    Horizontal,
    FourScreen,
}

/// The 16-byte header of an iNES image, copied field by field out of the input.
#[derive(Debug, Clone, Copy)]
pub struct RomHeader {
    /// Must be `N`, `E`, `S`, `0x1A`.
    pub signature: [u8; 4],
    /// Number of 16 KiB program pages.
    pub num_prg_pages: u8,
    /// Number of 8 KiB graphics pages (0: the cartridge uses graphics RAM).
    pub num_chr_pages: u8,
    /// Mirroring, battery, trainer and four-screen flags; low nibble of the mapper.
    pub control_byte1: u8,
    /// High nibble of the mapper.
    pub control_byte2: u8,
    /// Kept verbatim, never interpreted.
    pub reserved: [u8; 8],
}

/// The four bytes every image starts with.
pub open spec fn magic() -> Seq<u8> {
    seq![0x4Eu8, 0x45u8, 0x53u8, 0x1Au8]
}

/// Bit `k` of a byte, counting from the least significant.
pub open spec fn bit(b: u8, k: u8) -> bool {
    (b >> k) & 1u8 == 1u8
}

/// Mirroring declared by a first control byte: bit 3 wins, then bit 0.
pub open spec fn mirroring_of(control_byte1: u8) -> Mirroring {
    if bit(control_byte1, 3) {
        Mirroring::FourScreen
    } else if bit(control_byte1, 0) {
        Mirroring::Vertical
    } else {
        Mirroring::Horizontal
    }
}

/// Mapper number: high nibble of the second control byte above the high nibble of the first.
pub open spec fn mapper_of(control_byte1: u8, control_byte2: u8) -> nat {
    (control_byte2 as nat / 16) * 16 + control_byte1 as nat / 16
}

/// Where program data starts: after the header, and after the trainer when there is one.
pub open spec fn prg_start_of(control_byte1: u8) -> nat {
    INES_HEADER_SIZE as nat + if bit(control_byte1, 2) {
        TRAINER_SIZE as nat
    } else {
        0
    }
}

pub open spec fn prg_size_of(num_prg_pages: u8) -> nat {
    num_prg_pages as nat * PRG_ROM_PAGE_SIZE as nat
}

pub open spec fn chr_size_of(num_chr_pages: u8) -> nat {
    num_chr_pages as nat * CHR_ROM_PAGE_SIZE as nat
}

/// Length of an image as its header declares it: header, trainer, program and graphics data.
pub open spec fn total_size_of(num_prg_pages: u8, num_chr_pages: u8, control_byte1: u8) -> nat {
    prg_start_of(control_byte1) + prg_size_of(num_prg_pages) + chr_size_of(num_chr_pages)
}

/// The declared length of the image held in `data` (which has at least a header).
pub open spec fn declared_size(data: Seq<u8>) -> nat {
    total_size_of(data[4], data[5], data[6])
}

impl RomHeader {
    /// The header's 16 bytes in file order.
    pub open spec fn bytes(&self) -> Seq<u8> {
        self.signature@ + seq![
            self.num_prg_pages,
            self.num_chr_pages,
            self.control_byte1,
            self.control_byte2,
        ] + self.reserved@
    }

    pub open spec fn spec_has_trainer(&self) -> bool {
        bit(self.control_byte1, 2)
    }

    pub open spec fn prg_start(&self) -> nat {
        prg_start_of(self.control_byte1)
    }

    pub open spec fn prg_size(&self) -> nat {
        prg_size_of(self.num_prg_pages)
    }

    pub open spec fn chr_start(&self) -> nat {
        self.prg_start() + self.prg_size()
    }

    pub open spec fn chr_size(&self) -> nat {
        chr_size_of(self.num_chr_pages)
    }

    pub open spec fn total_size(&self) -> nat {
        total_size_of(self.num_prg_pages, self.num_chr_pages, self.control_byte1)
    }

    /// Mirroring mode: four-screen if bit 3 of the first control byte is set,
    /// else vertical if bit 0 is set, else horizontal.
    pub fn mirroring(&self) -> (r: Mirroring)
        ensures
            r == mirroring_of(self.control_byte1),
    {
        let b = self.control_byte1;
        assert(((b & 0x08u8) != 0u8) == ((b >> 3u8) & 1u8 == 1u8)) by (bit_vector);
        assert(((b & 0x01u8) != 0u8) == ((b >> 0u8) & 1u8 == 1u8)) by (bit_vector);
        let four_screen = (b & 0b0000_1000) != 0;
        let vertical = (b & 0b0000_0001) != 0;
        if four_screen {
            Mirroring::FourScreen
        } else if vertical {
            Mirroring::Vertical
        } else {
            Mirroring::Horizontal
        }
    }

    /// Whether the cartridge has battery-backed program RAM: bit 1 of the first control byte.
    pub fn has_battery_backed_ram(&self) -> (r: bool)
        ensures
            r == bit(self.control_byte1, 1),
    {
        let b = self.control_byte1;
        assert(((b & 0x02u8) != 0u8) == ((b >> 1u8) & 1u8 == 1u8)) by (bit_vector);
        (b & 0b0000_0010) != 0
    }

    /// Whether a 512-byte trainer follows the header: bit 2 of the first control byte.
    pub fn has_trainer(&self) -> (r: bool)
        ensures
            r == self.spec_has_trainer(),
    {
        let b = self.control_byte1;
        assert(((b & 0x04u8) != 0u8) == ((b >> 2u8) & 1u8 == 1u8)) by (bit_vector);
        (b & 0b0000_0100) != 0
    }

    /// Mapper number, reassembled from the high nibbles of both control bytes.
    pub fn mapper_id(&self) -> (r: u8)
        ensures
            r as nat == mapper_of(self.control_byte1, self.control_byte2),
    {
        let b1 = self.control_byte1;
        let b2 = self.control_byte2;
        let hi = b2 & 0xF0;
        let lo = b1 >> 4;
        let r = hi | lo;
        assert(hi % 16u8 == 0u8 && hi / 16u8 == b2 / 16u8) by (bit_vector)
            requires
                hi == b2 & 0xF0u8,
        ;
        assert(lo == b1 / 16u8) by (bit_vector)
            requires
                lo == b1 >> 4u8,
        ;
        assert(r / 16u8 == b2 / 16u8 && r % 16u8 == b1 / 16u8) by (bit_vector)
            requires
                r == hi | lo,
                hi % 16u8 == 0u8,
                hi / 16u8 == b2 / 16u8,
                lo == b1 / 16u8,
        ;
        r
    }

    /// Offset of the program data in the image.
    pub fn prg_rom_start(&self) -> (r: usize)
        ensures
            r as nat == self.prg_start(),
    {
        if self.has_trainer() {
            INES_HEADER_SIZE + TRAINER_SIZE
        } else {
            INES_HEADER_SIZE
        }
    }

    /// Length of the program data: one 16 KiB page per declared page.
    pub fn prg_rom_size(&self) -> (r: usize)
        ensures
            r as nat == self.prg_size(),
    {
        self.num_prg_pages as usize * PRG_ROM_PAGE_SIZE
    }

    /// Length of the graphics data: one 8 KiB page per declared page.
    pub fn chr_rom_size(&self) -> (r: usize)
        ensures
            r as nat == self.chr_size(),
    {
        self.num_chr_pages as usize * CHR_ROM_PAGE_SIZE
    }

    /// Offset of the graphics data in the image: right after the program data.
    pub fn chr_rom_start(&self) -> (r: usize)
        ensures
            r as nat == self.chr_start(),
    {
        self.prg_rom_start() + self.prg_rom_size()
    }

    /// Length of the image that the header declares.
    pub fn expected_file_size(&self) -> (r: usize)
        ensures
            r as nat == self.total_size(),
    {
        self.chr_rom_start() + self.chr_rom_size()
    }
}

/// Why an image could not be loaded.
#[derive(Debug, Clone, PartialEq, Eq)]
pub enum LoadError {
    /// Reading the file failed; carries the path and the underlying cause.
    IoError { path: String, cause: String },
    /// The input is shorter than the 16-byte header.
    TooSmall { len: usize },
    /// The first four bytes are not the iNES magic; carries what was found.
    BadSignature { found: [u8; 4] },
    /// The header declares more data than the input holds.
    TruncatedFile { actual: usize, expected: usize },
}

/// A loaded cartridge: its header and its own copies of the program and graphics data.
#[derive(Debug, Clone)]
pub struct Rom {
    pub header: RomHeader,
    pub prg_rom: Vec<u8>,
    pub chr_rom: Vec<u8>,
}

/// `data` is a well-formed image: a header with the magic, and at least the declared length.
pub open spec fn accepts(data: Seq<u8>) -> bool {
    &&& data.len() >= INES_HEADER_SIZE
    &&& data.subrange(0, 4) == magic()
    &&& declared_size(data) <= data.len()
}

/// Decoding `data` gives header `h` with program data `prg` and graphics data `chr`.
pub open spec fn decodes_to(data: Seq<u8>, h: RomHeader, prg: Seq<u8>, chr: Seq<u8>) -> bool {
    &&& accepts(data)
    &&& h.bytes() == data.subrange(0, INES_HEADER_SIZE as int)
    &&& prg == data.subrange(h.prg_start() as int, (h.prg_start() + h.prg_size()) as int)
    &&& chr == data.subrange(h.chr_start() as int, (h.chr_start() + h.chr_size()) as int)
}

/// Decoding `data` fails with `e`.
pub open spec fn fails_with(data: Seq<u8>, e: LoadError) -> bool {
    match e {
        LoadError::TooSmall { len } => data.len() < INES_HEADER_SIZE && len as nat == data.len(),
        LoadError::BadSignature { found } => {
            &&& data.len() >= INES_HEADER_SIZE
            &&& found@ == data.subrange(0, 4)
            &&& found@ != magic()
        },
        LoadError::TruncatedFile { actual, expected } => {
            &&& data.len() >= INES_HEADER_SIZE
            &&& data.subrange(0, 4) == magic()
            &&& actual as nat == data.len()
            &&& expected as nat == declared_size(data)
            &&& actual < expected
        },
        LoadError::IoError { .. } => false,
    }
}

/// A fresh vector holding `data[start..end]`.
fn copy_range(data: &[u8], start: usize, end: usize) -> (r: Vec<u8>)
    requires
        start <= end <= data@.len(),
    ensures
        r@ == data@.subrange(start as int, end as int),
{
    let mut r: Vec<u8> = Vec::with_capacity(end - start);
    let mut i: usize = start;
    while i < end
        invariant
            start <= i <= end <= data@.len(),
            r@ == data@.subrange(start as int, i as int),
        decreases end - i,
    {
        r.push(data[i]);
        i = i + 1;
        assert(r@ =~= data@.subrange(start as int, i as int));
    }
    r
}

impl Rom {
    /// Decodes an iNES image: checks the header, the magic and the declared length,
    /// and copies out the program and graphics data. Bytes past the declared length
    /// are ignored.
    pub fn load(data: &[u8]) -> (r: Result<Rom, LoadError>)
        ensures
            r is Ok <==> accepts(data@),
            match r {
                Ok(rom) => {
                    &&& decodes_to(data@, rom.header, rom.prg_rom@, rom.chr_rom@)
                    &&& rom.prg_rom@.len() == rom.header.num_prg_pages as nat * 16384
                    &&& rom.chr_rom@.len() == rom.header.num_chr_pages as nat * 8192
                },
                Err(e) => fails_with(data@, e),
            },
    {
        let n = data.len();
        if n < INES_HEADER_SIZE {
            return Err(LoadError::TooSmall { len: n });
        }
        let header = RomHeader {
            signature: [data[0], data[1], data[2], data[3]],
            num_prg_pages: data[4],
            num_chr_pages: data[5],
            control_byte1: data[6],
            control_byte2: data[7],
            reserved: [data[8], data[9], data[10], data[11], data[12], data[13], data[14], data[15]],
        };
        assert(header.signature@ =~= data@.subrange(0, 4));
        assert(header.bytes() =~= data@.subrange(0, INES_HEADER_SIZE as int));
        let sig = header.signature;
        if !(sig[0] == 0x4E && sig[1] == 0x45 && sig[2] == 0x53 && sig[3] == 0x1A) {
            assert(sig@ != magic()) by {
                if sig@ == magic() {
                    assert(sig@[0] == magic()[0] && sig@[1] == magic()[1]);
                    assert(sig@[2] == magic()[2] && sig@[3] == magic()[3]);
                }
            }
            return Err(LoadError::BadSignature { found: sig });
        }
        assert(sig@ =~= magic());
        let expected = header.expected_file_size();
        if n < expected {
            return Err(LoadError::TruncatedFile { actual: n, expected });
        }
        let prg_start = header.prg_rom_start();
        let chr_start = header.chr_rom_start();
        let prg_rom = copy_range(data, prg_start, prg_start + header.prg_rom_size());
        let chr_rom = copy_range(data, chr_start, chr_start + header.chr_rom_size());
        Ok(Rom { header, prg_rom, chr_rom })
    }
}

} // verus!
