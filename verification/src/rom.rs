use vstd::prelude::*;

use vstd::arithmetic::div_mod::lemma_add_mod_noop;
use vstd::arithmetic::div_mod::lemma_fundamental_div_mod;
use vstd::arithmetic::div_mod::lemma_small_mod;
use vstd::utf8::decode_utf8;
use vstd::utf8::valid_utf8;

use crate::GameboyError;
use crate::GameboyErrorKind;
use crate::GameboyResult;
use crate::cartridge::RomOnly;
use crate::spec_make_u16;
use crate::make_u16;

verus! {

/// Closed enumeration of the cartridge kinds a header can declare at
/// offset 0x0147.
#[derive(Clone, Copy, Debug, PartialEq, Eq, Structural)]
pub enum CartridgeKind {
    RomOnly,
    Mbc1,
    Mbc1Ram,
    Mbc1RamBattery,
    Mbc2,
    Mbc2Battery,
    RomRam,
    RomRamBattery,
    Mmm01,
    Mmm01Ram,
    Mmm01RamBattery,
    Mbc3TimerBattery,
    Mbc3TimerRamBattery,
    Mbc3,
    Mbc3Ram,
    Mbc3RamBattery,
    Mbc5,
    Mbc5Ram,
    Mbc5RamBattery,
    Mbc5Rumble,
    Mbc5RumbleRam,
    Mbc5RumbleRamBattery,
    Mbc6,
    Mbc7SensorRumbleRamBattery,
    PocketCamera,
    BandaiTama5,
    HuC3,
    HuC1RamBattery,
}

/// The cartridge kind declared by header byte `code`; `None` for a code
/// outside the known set.
pub open spec fn spec_cartridge_kind(code: u8) -> Option<CartridgeKind> {
    match code {
        0x00 => Some(CartridgeKind::RomOnly),
        0x01 => Some(CartridgeKind::Mbc1),
        0x02 => Some(CartridgeKind::Mbc1Ram),
        0x03 => Some(CartridgeKind::Mbc1RamBattery),
        0x05 => Some(CartridgeKind::Mbc2),
        0x06 => Some(CartridgeKind::Mbc2Battery),
        0x08 => Some(CartridgeKind::RomRam),
        0x09 => Some(CartridgeKind::RomRamBattery),
        0x0B => Some(CartridgeKind::Mmm01),
        0x0C => Some(CartridgeKind::Mmm01Ram),
        0x0D => Some(CartridgeKind::Mmm01RamBattery),
        0x0F => Some(CartridgeKind::Mbc3TimerBattery),
        0x10 => Some(CartridgeKind::Mbc3TimerRamBattery),
        0x11 => Some(CartridgeKind::Mbc3),
        0x12 => Some(CartridgeKind::Mbc3Ram),
        0x13 => Some(CartridgeKind::Mbc3RamBattery),
        0x19 => Some(CartridgeKind::Mbc5),
        0x1A => Some(CartridgeKind::Mbc5Ram),
        0x1B => Some(CartridgeKind::Mbc5RamBattery),
        0x1C => Some(CartridgeKind::Mbc5Rumble),
        0x1D => Some(CartridgeKind::Mbc5RumbleRam),
        0x1E => Some(CartridgeKind::Mbc5RumbleRamBattery),
        0x20 => Some(CartridgeKind::Mbc6),
        0x22 => Some(CartridgeKind::Mbc7SensorRumbleRamBattery),
        0xFC => Some(CartridgeKind::PocketCamera),
        0xFD => Some(CartridgeKind::BandaiTama5),
        0xFE => Some(CartridgeKind::HuC3),
        0xFF => Some(CartridgeKind::HuC1RamBattery),
        _ => None,
    }
}

/// Map a header kind code to the cartridge kind it declares.
pub fn cartridge_kind_from_code(code: u8) -> (r: Option<CartridgeKind>)
    ensures
        r == spec_cartridge_kind(code),
{
    match code {
        0x00 => Some(CartridgeKind::RomOnly),
        0x01 => Some(CartridgeKind::Mbc1),
        0x02 => Some(CartridgeKind::Mbc1Ram),
        0x03 => Some(CartridgeKind::Mbc1RamBattery),
        0x05 => Some(CartridgeKind::Mbc2),
        0x06 => Some(CartridgeKind::Mbc2Battery),
        0x08 => Some(CartridgeKind::RomRam),
        0x09 => Some(CartridgeKind::RomRamBattery),
        0x0B => Some(CartridgeKind::Mmm01),
        0x0C => Some(CartridgeKind::Mmm01Ram),
        0x0D => Some(CartridgeKind::Mmm01RamBattery),
        0x0F => Some(CartridgeKind::Mbc3TimerBattery),
        0x10 => Some(CartridgeKind::Mbc3TimerRamBattery),
        0x11 => Some(CartridgeKind::Mbc3),
        0x12 => Some(CartridgeKind::Mbc3Ram),
        0x13 => Some(CartridgeKind::Mbc3RamBattery),
        0x19 => Some(CartridgeKind::Mbc5),
        0x1A => Some(CartridgeKind::Mbc5Ram),
        0x1B => Some(CartridgeKind::Mbc5RamBattery),
        0x1C => Some(CartridgeKind::Mbc5Rumble),
        0x1D => Some(CartridgeKind::Mbc5RumbleRam),
        0x1E => Some(CartridgeKind::Mbc5RumbleRamBattery),
        0x20 => Some(CartridgeKind::Mbc6),
        0x22 => Some(CartridgeKind::Mbc7SensorRumbleRamBattery),
        0xFC => Some(CartridgeKind::PocketCamera),
        0xFD => Some(CartridgeKind::BandaiTama5),
        0xFE => Some(CartridgeKind::HuC3),
        0xFF => Some(CartridgeKind::HuC1RamBattery),
        _ => None,
    }
}

/// Byte `i` of the 48-byte boot logo a valid header holds at
/// 0x0104..=0x0133.
pub open spec fn spec_logo_byte(i: int) -> u8 {
    if i == 0 {
        0xCE
    } else if i == 1 {
        0xED
    } else if i == 2 {
        0x66
    } else if i == 3 {
        0x66
    } else if i == 4 {
        0xCC
    } else if i == 5 {
        0x0D
    } else if i == 6 {
        0x00
    } else if i == 7 {
        0x0B
    } else if i == 8 {
        0x03
    } else if i == 9 {
        0x73
    } else if i == 10 {
        0x00
    } else if i == 11 {
        0x83
    } else if i == 12 {
        0x00
    } else if i == 13 {
        0x0C
    } else if i == 14 {
        0x00
    } else if i == 15 {
        0x0D
    } else if i == 16 {
        0x00
    } else if i == 17 {
        0x08
    } else if i == 18 {
        0x11
    } else if i == 19 {
        0x1F
    } else if i == 20 {
        0x88
    } else if i == 21 {
        0x89
    } else if i == 22 {
        0x00
    } else if i == 23 {
        0x0E
    } else if i == 24 {
        0xDC
    } else if i == 25 {
        0xCC
    } else if i == 26 {
        0x6E
    } else if i == 27 {
        0xE6
    } else if i == 28 {
        0xDD
    } else if i == 29 {
        0xDD
    } else if i == 30 {
        0xD9
    } else if i == 31 {
        0x99
    } else if i == 32 {
        0xBB
    } else if i == 33 {
        0xBB
    } else if i == 34 {
        0x67
    } else if i == 35 {
        0x63
    } else if i == 36 {
        0x6E
    } else if i == 37 {
        0x0E
    } else if i == 38 {
        0xEC
    } else if i == 39 {
        0xCC
    } else if i == 40 {
        0xDD
    } else if i == 41 {
        0xDC
    } else if i == 42 {
        0x99
    } else if i == 43 {
        0x9F
    } else if i == 44 {
        0xBB
    } else if i == 45 {
        0xB9
    } else if i == 46 {
        0x33
    } else {
        0x3E
    }
}

/// Byte `i` of the boot-logo constant.
pub fn logo_byte(i: usize) -> (r: u8)
    requires
        i < 48,
    ensures
        r == spec_logo_byte(i as int),
{
    match i {
        0 => 0xCE,
        1 => 0xED,
        2 => 0x66,
        3 => 0x66,
        4 => 0xCC,
        5 => 0x0D,
        6 => 0x00,
        7 => 0x0B,
        8 => 0x03,
        9 => 0x73,
        10 => 0x00,
        11 => 0x83,
        12 => 0x00,
        13 => 0x0C,
        14 => 0x00,
        15 => 0x0D,
        16 => 0x00,
        17 => 0x08,
        18 => 0x11,
        19 => 0x1F,
        20 => 0x88,
        21 => 0x89,
        22 => 0x00,
        23 => 0x0E,
        24 => 0xDC,
        25 => 0xCC,
        26 => 0x6E,
        27 => 0xE6,
        28 => 0xDD,
        29 => 0xDD,
        30 => 0xD9,
        31 => 0x99,
        32 => 0xBB,
        33 => 0xBB,
        34 => 0x67,
        35 => 0x63,
        36 => 0x6E,
        37 => 0x0E,
        38 => 0xEC,
        39 => 0xCC,
        40 => 0xDD,
        41 => 0xDC,
        42 => 0x99,
        43 => 0x9F,
        44 => 0xBB,
        45 => 0xB9,
        46 => 0x33,
        _ => 0x3E,
    }
}

/// A ROM image holds the boot logo iff its bytes 0x0104..=0x0133 equal the
/// 48-byte constant.
pub open spec fn spec_valid_logo(data: Seq<u8>) -> bool {
    forall|i: int| 0 <= i < 48 ==> data[0x0104 + i] == spec_logo_byte(i)
}

/// Sum of the bytes of `data` at indices `lo..hi`, as a mathematical
/// integer.
pub open spec fn spec_byte_sum(data: Seq<u8>, lo: int, hi: int) -> int
    decreases hi - lo,
{
    if lo >= hi {
        0
    } else {
        spec_byte_sum(data, lo, hi - 1) + data[hi - 1]
    }
}

/// The header checksum holds iff the bytes 0x0134..=0x014D, added with
/// 8-bit wrap into an accumulator seeded with 0x19, end at zero.
pub open spec fn spec_header_checksum_valid(data: Seq<u8>) -> bool {
    (0x19 + spec_byte_sum(data, 0x0134, 0x014E)) % 256 == 0
}

/// The global checksum holds iff the 16-bit wrapping sum of every byte but
/// the two checksum bytes themselves equals the big-endian word those two
/// bytes store.
pub open spec fn spec_global_checksum_valid(data: Seq<u8>) -> bool {
    (spec_byte_sum(data, 0, 0x014E) + spec_byte_sum(data, 0x0150, data.len() as int)) % 0x10000
        == spec_make_u16(data[0x014E], data[0x014F])
}

/// The position of the first zero byte at or after `i` inside the title
/// region, which ends at 0x0144; 0x0144 when no zero byte remains.
pub open spec fn spec_first_nul(data: Seq<u8>, i: int) -> int
    decreases 0x0144 - i,
{
    if i >= 0x0144 {
        0x0144
    } else if data[i] == 0 {
        i
    } else {
        spec_first_nul(data, i + 1)
    }
}

/// The title bytes: the slice of the title region 0x0134..0x0144 that
/// precedes its first zero byte.
pub open spec fn spec_title(data: Seq<u8>) -> Seq<u8> {
    data.subrange(0x0134, spec_first_nul(data, 0x0134))
}

/// The sum of a byte range lies between zero and 255 per byte.
pub proof fn lemma_byte_sum_bounds(data: Seq<u8>, lo: int, hi: int)
    requires
        lo <= hi,
    ensures
        0 <= spec_byte_sum(data, lo, hi) <= 255 * (hi - lo),
    decreases hi - lo,
{
    if lo < hi {
        lemma_byte_sum_bounds(data, lo, hi - 1);
    }
}

/// Two sequences that agree on a range have the same byte sum over it.
pub proof fn lemma_byte_sum_agree(d1: Seq<u8>, d2: Seq<u8>, lo: int, hi: int)
    requires
        forall|i: int| lo <= i < hi ==> d1[i] == d2[i],
    ensures
        spec_byte_sum(d1, lo, hi) == spec_byte_sum(d2, lo, hi),
    decreases hi - lo,
{
    if lo < hi {
        lemma_byte_sum_agree(d1, d2, lo, hi - 1);
    }
}

/// Changing one byte inside a summed range moves the sum by exactly the
/// difference of the bytes.
pub proof fn lemma_byte_sum_update(data: Seq<u8>, lo: int, hi: int, j: int, v: u8)
    requires
        0 <= lo,
        lo <= j < hi,
        hi <= data.len(),
    ensures
        spec_byte_sum(data.update(j, v), lo, hi) == spec_byte_sum(data, lo, hi) - data[j] + v,
    decreases hi - lo,
{
    if j == hi - 1 {
        lemma_byte_sum_agree(data.update(j, v), data, lo, hi - 1);
    } else {
        lemma_byte_sum_update(data, lo, hi - 1, j, v);
        assert(data.update(j, v)[hi - 1] == data[hi - 1]);
    }
}

/// Header-checksum sensitivity: changing any single byte of the summed
/// range 0x0134..=0x014D of an image whose header checksum holds makes the
/// checksum fail.
pub proof fn lemma_header_checksum_flip(data: Seq<u8>, j: int, v: u8)
    requires
        0x0134 <= j < 0x014E,
        0x014E <= data.len(),
        v != data[j],
        spec_header_checksum_valid(data),
    ensures
        !spec_header_checksum_valid(data.update(j, v)),
{
    lemma_byte_sum_update(data, 0x0134, 0x014E, j, v);
    let a = 0x19 + spec_byte_sum(data, 0x0134, 0x014E);
    let b = 0x19 + spec_byte_sum(data.update(j, v), 0x0134, 0x014E);
    if spec_header_checksum_valid(data.update(j, v)) {
        lemma_fundamental_div_mod(a, 256);
        lemma_fundamental_div_mod(b, 256);
        let k = a / 256 - b / 256;
        assert(a - b == 256 * k);
        assert(-256 < a - b < 256);
        assert(k == 0);
        assert(false);
    }
}

/// A raw byte image of at least 0x8000 bytes, validated lazily through its
/// header inspectors.
pub struct Rom {
    data: Vec<u8>,
}

impl View for Rom {
    type V = Seq<u8>;

    closed spec fn view(&self) -> Seq<u8> {
        self.data@
    }
}

impl Rom {
    /// Well-formed: the backing buffer covers the full 32 KiB ROM window,
    /// and with it every fixed header offset.
    pub open spec fn wf(&self) -> bool {
        self@.len() >= 0x8000
    }

    /// Take ownership of a raw byte image. Fails iff the image is smaller
    /// than 0x8000 bytes; no header content is validated here.
    pub fn new(data: Vec<u8>) -> (r: GameboyResult<Rom>)
        ensures
            data@.len() < 0x8000 ==> {
                &&& r matches Err(e)
                &&& e.kind matches GameboyErrorKind::CartridgeTooSmall(n) && n == data@.len()
            },
            data@.len() >= 0x8000 ==> {
                &&& r matches Ok(rom)
                &&& rom@ == data@
                &&& rom.wf()
            },
    {
        if data.len() < 0x8000 {
            let n = data.len();
            Err(GameboyError::new(GameboyErrorKind::CartridgeTooSmall(n)))
        } else {
            Ok(Rom { data })
        }
    }

    /// The cartridge kind declared by header byte 0x0147.
    pub fn kind(&self) -> (r: Option<CartridgeKind>)
        requires
            self.wf(),
        ensures
            r == spec_cartridge_kind(self@[0x0147]),
    {
        cartridge_kind_from_code(self.data[0x0147])
    }

    /// Whether bytes 0x0104..=0x0133 hold the boot-logo constant.
    pub fn has_valid_logo(&self) -> (r: bool)
        requires
            self.wf(),
        ensures
            r == spec_valid_logo(self@),
    {
        let mut i: usize = 0;
        while i < 48
            invariant
                i <= 48,
                self.wf(),
                forall|j: int| 0 <= j < i ==> self@[0x0104 + j] == spec_logo_byte(j),
            decreases 48 - i,
        {
            if self.data[0x0104 + i] != logo_byte(i) {
                return false;
            }
            i += 1;
        }
        true
    }

    /// Whether the 8-bit header checksum over bytes 0x0134..=0x014D, seeded
    /// with 0x19, ends at zero.
    pub fn has_valid_header_checksum(&self) -> (r: bool)
        requires
            self.wf(),
        ensures
            r == spec_header_checksum_valid(self@),
    {
        let mut acc: u16 = 0x19;
        let mut i: usize = 0x0134;
        while i < 0x014E
            invariant
                0x0134 <= i <= 0x014E,
                self.wf(),
                acc == 0x19 + spec_byte_sum(self@, 0x0134, i as int),
            decreases 0x014E - i,
        {
            proof {
                lemma_byte_sum_bounds(self@, 0x0134, i as int);
            }
            acc = acc + self.data[i] as u16;
            i += 1;
        }
        acc % 256 == 0
    }

    /// Whether the 16-bit wrapping sum of bytes 0x0000..0x014E and
    /// 0x0150..len equals the big-endian word at 0x014E..=0x014F.
    pub fn has_valid_global_checksum(&self) -> (r: bool)
        requires
            self.wf(),
        ensures
            r == spec_global_checksum_valid(self@),
    {
        let mut acc: u16 = 0;
        let mut i: usize = 0;
        while i < 0x014E
            invariant
                i <= 0x014E,
                self.wf(),
                acc == spec_byte_sum(self@, 0, i as int) % 0x10000,
            decreases 0x014E - i,
        {
            proof {
                lemma_add_mod_noop(
                    spec_byte_sum(self@, 0, i as int),
                    self@[i as int] as int,
                    0x10000,
                );
                lemma_small_mod(self@[i as int] as nat, 0x10000);
            }
            acc = (((acc as u32) + (self.data[i] as u32)) % 0x10000) as u16;
            i += 1;
        }
        let ghost head = spec_byte_sum(self@, 0, 0x014E);
        let mut j: usize = 0x0150;
        while j < self.data.len()
            invariant
                0x0150 <= j <= self@.len(),
                self.wf(),
                acc == (head + spec_byte_sum(self@, 0x0150, j as int)) % 0x10000,
                head == spec_byte_sum(self@, 0, 0x014E),
            decreases self@.len() - j,
        {
            proof {
                lemma_add_mod_noop(
                    head + spec_byte_sum(self@, 0x0150, j as int),
                    self@[j as int] as int,
                    0x10000,
                );
                lemma_small_mod(self@[j as int] as nat, 0x10000);
            }
            acc = (((acc as u32) + (self.data[j] as u32)) % 0x10000) as u16;
            j += 1;
        }
        let expected = make_u16(self.data[0x014E], self.data[0x014F]);
        acc == expected
    }

    /// The cartridge title: the contents of bytes 0x0134..=0x0143 up to the
    /// first zero byte, decoded as UTF-8.
    pub fn name(&self) -> (r: String)
        requires
            self.wf(),
        ensures
            valid_utf8(spec_title(self@)) ==> r@ == decode_utf8(spec_title(self@)),
    {
        let mut title: Vec<u8> = Vec::new();
        let mut i: usize = 0x0134;
        while i < 0x0144
            invariant
                0x0134 <= i <= 0x0144,
                self.wf(),
                spec_first_nul(self@, 0x0134) == spec_first_nul(self@, i as int),
                title@ == self@.subrange(0x0134, i as int),
            ensures
                title@ == spec_title(self@),
            decreases 0x0144 - i,
        {
            let b = self.data[i];
            if b == 0 {
                proof {
                    assert(spec_first_nul(self@, i as int) == i);
                    assert(title@ == spec_title(self@));
                }
                break;
            }
            proof {
                assert(spec_first_nul(self@, i as int) == spec_first_nul(self@, i + 1));
                assert(self@.subrange(0x0134, i + 1) == self@.subrange(0x0134, i as int).push(
                    self@[i as int],
                ));
            }
            title.push(b);
            i += 1;
        }
        bytes_to_string(title.as_slice())
    }

    /// Byte length of the backing buffer.
    pub fn size_bytes(&self) -> (r: usize)
        ensures
            r == self@.len(),
    {
        self.data.len()
    }

    /// Consume the ROM and produce the cartridge implementation its header
    /// declares. Only the ROM-only kind is supported; every other declared
    /// kind, and an unknown code, yields `None`.
    pub fn into_cartridge(self) -> (r: Option<RomOnly>)
        requires
            self.wf(),
        ensures
            spec_cartridge_kind(self@[0x0147]) == Some(CartridgeKind::RomOnly) ==> {
                &&& r matches Some(c)
                &&& c.data@ == self@
            },
            spec_cartridge_kind(self@[0x0147]) != Some(CartridgeKind::RomOnly) ==> r is None,
    {
        match self.kind() {
            Some(CartridgeKind::RomOnly) => Some(RomOnly::new(self.data)),
            _ => None,
        }
    }
}

/// Relies on String::from_utf8_lossy: a byte slice holding valid UTF-8
/// decodes to exactly its character sequence.
#[verifier::external_body]
fn bytes_to_string(bytes: &[u8]) -> (r: String)
    ensures
        valid_utf8(bytes@) ==> r@ == decode_utf8(bytes@),
{
    String::from_utf8_lossy(bytes).into_owned()
}

} // verus!
