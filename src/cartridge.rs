use vstd::prelude::*;
use crate::memory::{Memory, zeroed};

verus! {

/// Size of one switchable ROM bank.
pub const ROM_BANK_SIZE: usize = 16_384;

/// Size of one external RAM bank: the whole 0xA000..=0xBFFF window.
pub const RAM_BANK_SIZE: usize = 8192;

/// The smallest image that fills the fixed and switchable ROM windows.
pub const MIN_ROM_SIZE: usize = 0x8000;

/// Header byte that selects the bank controller.
pub const CARTRIDGE_TYPE_ADDR: usize = 0x0147;

/// Header byte that selects the size of the cartridge RAM.
pub const RAM_SIZE_ADDR: usize = 0x0149;

/// What a cartridge holds and the state of its bank controller.
pub struct CartridgeView {
    pub mbc1: bool,
    pub rom: Seq<u8>,
    pub ram: Seq<u8>,
    pub ram_enable: bool,
    pub rom_bank: u8,
    pub ram_bank: u8,
    pub advanced_banking: bool,
}

pub open spec fn is_cartridge_addr(addr: u16) -> bool {
    addr <= 0x7FFF || (0xA000 <= addr && addr <= 0xBFFF)
}

/// RAM size in bytes for a header RAM-size code, if the code is known.
pub open spec fn ram_size_of(code: u8) -> Option<nat> {
    if code == 0x00 || code == 0x01 {
        Some(0)
    } else if code == 0x02 {
        Some(8192)
    } else if code == 0x03 {
        Some(32768)
    } else if code == 0x04 {
        Some(131072)
    } else if code == 0x05 {
        Some(65536)
    } else {
        None
    }
}

impl CartridgeView {
    pub open spec fn inv(&self) -> bool {
        &&& self.rom.len() >= MIN_ROM_SIZE
        &&& self.rom.len() <= usize::MAX / 2
        &&& self.ram.len() <= 131072
        &&& self.rom_bank < 32
        &&& self.ram_bank < 4
        &&& !self.mbc1 ==> self.ram.len() == 0
    }

    /// The bank mapped at 0x4000..=0x7FFF: bank 0 of the low five bits reads as bank 1.
    pub open spec fn switchable_bank(&self) -> nat {
        self.ram_bank as nat * 32 + if self.rom_bank == 0 { 1nat } else { self.rom_bank as nat }
    }

    /// The RAM bank mapped at 0xA000..=0xBFFF.
    pub open spec fn effective_ram_bank(&self) -> nat {
        if self.advanced_banking { self.ram_bank as nat } else { 0 }
    }

    /// Offset into the ROM image of a read in the switchable window.
    pub open spec fn rom_offset(&self, addr: u16) -> int {
        (self.switchable_bank() * ROM_BANK_SIZE + (addr - 0x4000)) % (self.rom.len() as int)
    }

    /// Offset into the cartridge RAM of an access in the RAM window.
    pub open spec fn ram_offset(&self, addr: u16) -> int {
        (self.effective_ram_bank() * RAM_BANK_SIZE + (addr - 0xA000)) % (self.ram.len() as int)
    }

    pub open spec fn ram_accessible(&self) -> bool {
        self.mbc1 && self.ram_enable && self.ram.len() > 0
    }

    pub open spec fn read(&self, addr: u16) -> u8 {
        if addr <= 0x3FFF {
            self.rom[addr as int]
        } else if addr <= 0x7FFF {
            if self.mbc1 {
                self.rom[self.rom_offset(addr)]
            } else {
                self.rom[addr as int]
            }
        } else if self.ram_accessible() {
            self.ram[self.ram_offset(addr)]
        } else {
            0xFF
        }
    }

    pub open spec fn write(&self, addr: u16, data: u8) -> CartridgeView {
        if !self.mbc1 {
            *self
        } else if addr <= 0x1FFF {
            CartridgeView { ram_enable: data % 16 == 0x0A, ..*self }
        } else if addr <= 0x3FFF {
            CartridgeView { rom_bank: data % 32, ..*self }
        } else if addr <= 0x5FFF {
            CartridgeView { ram_bank: data % 4, ..*self }
        } else if addr <= 0x7FFF {
            CartridgeView { advanced_banking: data % 2 == 1, ..*self }
        } else if self.ram_accessible() {
            CartridgeView { ram: self.ram.update(self.ram_offset(addr), data), ..*self }
        } else {
            *self
        }
    }
}

/// A cartridge without a bank controller: 32 KiB of ROM mapped flat, writes ignored.
pub struct NoMbc {
    rom: Vec<u8>,
}

impl View for NoMbc {
    type V = CartridgeView;

    closed spec fn view(&self) -> CartridgeView {
        CartridgeView {
            mbc1: false,
            rom: self.rom@,
            ram: Seq::empty(),
            ram_enable: false,
            rom_bank: 1,
            ram_bank: 0,
            advanced_banking: false,
        }
    }
}

impl NoMbc {
    pub fn init(rom_bytes: Vec<u8>) -> (r: NoMbc)
        requires
            MIN_ROM_SIZE <= rom_bytes.len() <= usize::MAX / 2,
        ensures
            r@.rom == rom_bytes@,
            !r@.mbc1,
            r@.inv(),
    {
        NoMbc { rom: rom_bytes }
    }
}

impl Memory for NoMbc {
    open spec fn inv(&self) -> bool {
        self@.inv() && !self@.mbc1
    }

    open spec fn mapped(addr: u16) -> bool {
        is_cartridge_addr(addr)
    }

    open spec fn peek(&self, addr: u16) -> u8 {
        self@.read(addr)
    }

    open spec fn written(&self, addr: u16, data: u8, post: NoMbc) -> bool {
        post@ == self@.write(addr, data)
    }

    fn read8(&self, addr: u16) -> (r: u8) {
        if addr <= 0x7FFF {
            self.rom[addr as usize]
        } else {
            0xFF
        }
    }

    fn write8(&mut self, _addr: u16, _data: u8) {
    }
}

pub enum BankMode {
    SimpleRomBanking,
    RamBankingOrAdvancedRomBanking,
}

/// The MBC1 bank controller: switchable ROM banks and optional banked RAM.
pub struct Mbc1 {
    rom: Vec<u8>,
    ram: Vec<u8>,
    ram_enable: bool,
    rom_bank: u8,
    ram_bank: u8,
    banking_mode_select: BankMode,
}

impl View for Mbc1 {
    type V = CartridgeView;

    closed spec fn view(&self) -> CartridgeView {
        CartridgeView {
            mbc1: true,
            rom: self.rom@,
            ram: self.ram@,
            ram_enable: self.ram_enable,
            rom_bank: self.rom_bank,
            ram_bank: self.ram_bank,
            advanced_banking: self.banking_mode_select is RamBankingOrAdvancedRomBanking,
        }
    }
}

/// RAM size for a header code; `None` for a code this controller does not know.
fn ram_size_for_code(code: u8) -> (r: Option<usize>)
    ensures
        r matches Some(n) ==> ram_size_of(code) == Some(n as nat),
        r is None ==> ram_size_of(code) is None,
{
    match code {
        0x00 | 0x01 => Some(0),
        0x02 => Some(8192),
        0x03 => Some(8192 * 4),
        0x04 => Some(8192 * 16),
        0x05 => Some(8192 * 8),
        _ => None,
    }
}

impl Mbc1 {
    pub fn init(rom_bytes: Vec<u8>) -> (r: Mbc1)
        requires
            MIN_ROM_SIZE <= rom_bytes.len() <= usize::MAX / 2,
            ram_size_of(rom_bytes@[RAM_SIZE_ADDR as int]) is Some,
        ensures
            r@.inv(),
            r@.mbc1,
            r@.rom == rom_bytes@,
            r@.ram == Seq::new(ram_size_of(rom_bytes@[RAM_SIZE_ADDR as int])->0, |i: int| 0u8),
            !r@.ram_enable,
            r@.rom_bank == 1,
            r@.ram_bank == 0,
            !r@.advanced_banking,
    {
        let ram_size = match ram_size_for_code(rom_bytes[RAM_SIZE_ADDR]) {
            Some(n) => n,
            None => 0,
        };
        Mbc1 {
            rom: rom_bytes,
            ram: zeroed(ram_size),
            ram_enable: false,
            rom_bank: 0x1,
            ram_bank: 0x0,
            banking_mode_select: BankMode::SimpleRomBanking,
        }
    }

    fn ram_offset(&self, addr: u16) -> (r: usize)
        requires
            self@.inv(),
            self.ram@.len() > 0,
            0xA000 <= addr <= 0xBFFF,
        ensures
            r == self@.ram_offset(addr),
            r < self.ram@.len(),
    {
        let bank: usize = match self.banking_mode_select {
            BankMode::RamBankingOrAdvancedRomBanking => self.ram_bank as usize,
            BankMode::SimpleRomBanking => 0,
        };
        (bank * RAM_BANK_SIZE + (addr as usize - 0xA000)) % self.ram.len()
    }
}

impl Memory for Mbc1 {
    open spec fn inv(&self) -> bool {
        self@.inv() && self@.mbc1
    }

    open spec fn mapped(addr: u16) -> bool {
        is_cartridge_addr(addr)
    }

    open spec fn peek(&self, addr: u16) -> u8 {
        self@.read(addr)
    }

    open spec fn written(&self, addr: u16, data: u8, post: Mbc1) -> bool {
        post@ == self@.write(addr, data)
    }

    fn read8(&self, addr: u16) -> (r: u8) {
        if addr <= 0x3FFF {
            self.rom[addr as usize]
        } else if addr <= 0x7FFF {
            let low: usize = if self.rom_bank == 0 { 1 } else { self.rom_bank as usize };
            let bank = self.ram_bank as usize * 32 + low;
            let physical_addr = (bank * ROM_BANK_SIZE + (addr as usize - 0x4000)) % self.rom.len();
            self.rom[physical_addr]
        } else if self.ram_enable && self.ram.len() > 0 {
            self.ram[self.ram_offset(addr)]
        } else {
            0xFF
        }
    }

    fn write8(&mut self, addr: u16, data: u8) {
        if addr <= 0x1FFF {
            self.ram_enable = data % 16 == 0x0A;
        } else if addr <= 0x3FFF {
            self.rom_bank = data % 32;
        } else if addr <= 0x5FFF {
            self.ram_bank = data % 4;
        } else if addr <= 0x7FFF {
            self.banking_mode_select = if data % 2 == 1 {
                BankMode::RamBankingOrAdvancedRomBanking
            } else {
                BankMode::SimpleRomBanking
            };
        } else if self.ram_enable && self.ram.len() > 0 {
            let offset = self.ram_offset(addr);
            self.ram.set(offset, data);
        }
    }
}

/// A cartridge, by its bank controller.
pub enum Cartridge {
    NoMbc(NoMbc),
    Mbc1(Mbc1),
}

/// Why an image cannot be loaded as a cartridge.
#[derive(Debug, PartialEq, Eq, Structural, Clone, Copy)]
pub enum CartridgeError {
    /// The image is shorter than the two ROM windows.
    Truncated,
    /// The controller-type header byte names no supported controller.
    UnknownType(u8),
    /// The RAM-size header byte is not a known code.
    UnknownRamSize(u8),
}

impl View for Cartridge {
    type V = CartridgeView;

    open spec fn view(&self) -> CartridgeView {
        match self {
            Cartridge::NoMbc(c) => c@,
            Cartridge::Mbc1(c) => c@,
        }
    }
}

/// What loading `image` gives: the checks in order, then the controller's start state.
pub open spec fn load_result(image: Seq<u8>) -> Result<CartridgeView, CartridgeError> {
    if image.len() < MIN_ROM_SIZE {
        Err(CartridgeError::Truncated)
    } else if image[CARTRIDGE_TYPE_ADDR as int] == 0x00 {
        Ok(
            CartridgeView {
                mbc1: false,
                rom: image,
                ram: Seq::empty(),
                ram_enable: false,
                rom_bank: 1,
                ram_bank: 0,
                advanced_banking: false,
            },
        )
    } else if 0x01 <= image[CARTRIDGE_TYPE_ADDR as int] <= 0x03 {
        match ram_size_of(image[RAM_SIZE_ADDR as int]) {
            Some(n) => Ok(
                CartridgeView {
                    mbc1: true,
                    rom: image,
                    ram: Seq::new(n, |i: int| 0u8),
                    ram_enable: false,
                    rom_bank: 1,
                    ram_bank: 0,
                    advanced_banking: false,
                },
            ),
            None => Err(CartridgeError::UnknownRamSize(image[RAM_SIZE_ADDR as int])),
        }
    } else {
        Err(CartridgeError::UnknownType(image[CARTRIDGE_TYPE_ADDR as int]))
    }
}

/// The header of `image` names a supported controller and, for a bank
/// controller, a known RAM size. An image without one is a fatal error.
pub open spec fn header_supported(image: Seq<u8>) -> bool {
    let kind = image[CARTRIDGE_TYPE_ADDR as int];
    kind == 0x00 || (0x01 <= kind <= 0x03 && ram_size_of(image[RAM_SIZE_ADDR as int]) is Some)
}

/// Tests whether an image can be loaded: `Ok` exactly when `init` builds a
/// cartridge from it, else the reason. A caller tests this before `init`.
pub fn check_header(rom_bytes: &Vec<u8>) -> (r: Result<(), CartridgeError>)
    ensures
        match load_result(rom_bytes@) {
            Ok(_) => r is Ok,
            Err(e) => r == Err::<(), CartridgeError>(e),
        },
{
    if rom_bytes.len() < MIN_ROM_SIZE {
        return Err(CartridgeError::Truncated);
    }
    let cartridge_type = rom_bytes[CARTRIDGE_TYPE_ADDR];
    if cartridge_type == 0x00 {
        Ok(())
    } else if 0x01 <= cartridge_type && cartridge_type <= 0x03 {
        let code = rom_bytes[RAM_SIZE_ADDR];
        match ram_size_for_code(code) {
            Some(_) => Ok(()),
            None => Err(CartridgeError::UnknownRamSize(code)),
        }
    } else {
        Err(CartridgeError::UnknownType(cartridge_type))
    }
}

/// Builds the cartridge that a raw image describes. An image shorter than the
/// two ROM windows is refused; an unsupported header is left out by `requires`.
pub fn init(rom_bytes: Vec<u8>) -> (r: Result<Cartridge, CartridgeError>)
    requires
        rom_bytes.len() <= usize::MAX / 2,
        rom_bytes.len() >= MIN_ROM_SIZE ==> header_supported(rom_bytes@),
    ensures
        match (r, load_result(rom_bytes@)) {
            (Ok(c), Ok(v)) => c@ == v && c.inv(),
            (Err(e), Err(f)) => e == f,
            _ => false,
        },
{
    if rom_bytes.len() < MIN_ROM_SIZE {
        return Err(CartridgeError::Truncated);
    }
    if rom_bytes[CARTRIDGE_TYPE_ADDR] == 0x00 {
        Ok(Cartridge::NoMbc(NoMbc::init(rom_bytes)))
    } else {
        Ok(Cartridge::Mbc1(Mbc1::init(rom_bytes)))
    }
}

/// Header bytes where the title starts and the colour-console flag sits.
pub const TITLE_START: usize = 0x134;
pub const CGB_FLAG_ADDR: usize = 0x143;

/// Longest title: 11 bytes when the colour-console flag is set, else 16.
pub open spec fn title_capacity(rom: Seq<u8>) -> int {
    if rom[CGB_FLAG_ADDR as int] == 0x80 || rom[CGB_FLAG_ADDR as int] == 0xC0 {
        11
    } else {
        16
    }
}

/// `t` is the title held by `rom`: the header bytes up to the first zero, at most the capacity.
pub open spec fn is_title_of(t: Seq<u8>, rom: Seq<u8>) -> bool {
    &&& t.len() <= title_capacity(rom)
    &&& t == rom.subrange(TITLE_START as int, TITLE_START + t.len())
    &&& forall|i: int| 0 <= i < t.len() ==> t[i] != 0
    &&& t.len() == title_capacity(rom) || rom[TITLE_START + t.len()] == 0
}

impl Cartridge {
    pub open spec fn inv(&self) -> bool {
        self@.inv()
    }

    /// The name of the bank controller.
    pub fn get_type(&self) -> (r: &'static str)
        ensures
            r@ == if self@.mbc1 { "Mbc1"@ } else { "NoMbc"@ },
    {
        match self {
            Cartridge::NoMbc(_) => {
                proof { reveal_strlit("NoMbc"); }
                "NoMbc"
            },
            Cartridge::Mbc1(_) => {
                proof { reveal_strlit("Mbc1"); }
                "Mbc1"
            },
        }
    }

    /// The title bytes from the header.
    pub fn get_title(&self) -> (r: Vec<u8>)
        requires
            self.inv(),
        ensures
            is_title_of(r@, self@.rom),
    {
        let cgb_flag = self.read8(CGB_FLAG_ADDR as u16);
        let length: usize = if cgb_flag == 0x80 || cgb_flag == 0xC0 { 11 } else { 16 };
        let mut title: Vec<u8> = Vec::new();
        let mut i: usize = 0;
        while i < length
            invariant
                self.inv(),
                length == title_capacity(self@.rom),
                i == title.len(),
                i <= length,
                title@ == self@.rom.subrange(TITLE_START as int, TITLE_START + i),
                forall|k: int| 0 <= k < title.len() ==> title@[k] != 0,
            ensures
                i == length || self@.rom[TITLE_START + i] == 0,
                i == title.len(),
                title@ == self@.rom.subrange(TITLE_START as int, TITLE_START + i),
                forall|k: int| 0 <= k < title.len() ==> title@[k] != 0,
            decreases length - i,
        {
            let byte = self.read8((TITLE_START + i) as u16);
            if byte == 0x00 {
                break;
            }
            title.push(byte);
            i = i + 1;
            assert(title@ =~= self@.rom.subrange(TITLE_START as int, TITLE_START + i));
        }
        title
    }
}

impl Memory for Cartridge {
    open spec fn inv(&self) -> bool {
        self@.inv()
    }

    open spec fn mapped(addr: u16) -> bool {
        is_cartridge_addr(addr)
    }

    open spec fn peek(&self, addr: u16) -> u8 {
        self@.read(addr)
    }

    open spec fn written(&self, addr: u16, data: u8, post: Cartridge) -> bool {
        post@ == self@.write(addr, data)
    }

    fn read8(&self, addr: u16) -> (r: u8) {
        match self {
            Cartridge::NoMbc(c) => c.read8(addr),
            Cartridge::Mbc1(c) => c.read8(addr),
        }
    }

    fn write8(&mut self, addr: u16, data: u8) {
        match self {
            Cartridge::NoMbc(c) => c.write8(addr, data),
            Cartridge::Mbc1(c) => c.write8(addr, data),
        }
    }
}


/// A cartridge without a bank controller reads back its image byte for byte
/// over the whole ROM window, and ignores every write.
pub proof fn lemma_no_mbc_flat(v: CartridgeView, addr: u16, data: u8)
    requires
        v.inv(),
        !v.mbc1,
    ensures
        addr <= 0x7FFF ==> v.read(addr) == v.rom[addr as int],
        v.write(addr, data) == v,
{
}


/// On a controller with a 64 KiB image, selecting ROM bank `b` maps the image
/// from offset `b * 16384` at 0x4000; selecting bank 0 maps bank 1.
pub proof fn lemma_bank_select(v: CartridgeView, b: u8, offset: u16)
    requires
        v.inv(),
        v.mbc1,
        v.rom.len() == 65536,
        v.ram_bank == 0,
        b < 4,
        offset < 0x4000,
    ensures
        v.write(0x2000, b).read((0x4000 + offset) as u16) == v.rom[(if b == 0 { 1 } else { b as int })
            * 16384 + offset],
{
}

} // verus!
