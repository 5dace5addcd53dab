//! Loading of a Stage0 firmware ROM image: its placement in guest memory, the pages that the
//! SEV metadata asks for, and the SEV-ES reset block.
//!
//! The firmware ends with a GUIDed table (as OVMF lays it out): 0x20 bytes before the end of
//! the ROM stands the table's footer GUID, preceded by the table's length as a 16-bit value.
//! Entries are read backwards from there; each one is its data, then its own 16-bit length
//! (data, length and GUID together), then its GUID.
use vstd::prelude::*;

use crate::bytes::{read_u16, read_u32, read_u64, u16_at, u32_at, u64_at};
use crate::error::Error;
use crate::page::SnpPageType;

verus! {

/// The size of a Stage0 ROM image.
pub const ROM_SIZE: usize = 0x20_0000;

/// The ROM is mapped so that it ends here, at 4 GiB.
pub const ROM_END: u64 = 0x1_0000_0000;

/// The size of the legacy shadow: the last 128 KiB of the ROM.
pub const LEGACY_SIZE: usize = 0x2_0000;

/// The legacy shadow is mapped so that it ends here, at 1 MiB.
pub const LEGACY_END: u64 = 0x10_0000;

/// Low and high halves of the GUIDed table footer GUID 96b582de-1fb2-45f7-baea-a366c55a082d.
pub const FOOTER_GUID_LO: u64 = 0x45f7_1fb2_96b5_82de;
pub const FOOTER_GUID_HI: u64 = 0x2d08_5ac5_66a3_eaba;

/// Low and high halves of the SEV metadata GUID dc886566-984a-4798-a75e-5585a7bf67cc.
pub const METADATA_GUID_LO: u64 = 0x4798_984a_dc88_6566;
pub const METADATA_GUID_HI: u64 = 0xcc67_bfa7_8555_5ea7;

/// Low and high halves of the SEV-ES reset block GUID 00f771de-1a7e-4fcb-890e-68c77e2fb44e.
pub const RESET_BLOCK_GUID_LO: u64 = 0x4fcb_1a7e_00f7_71de;
pub const RESET_BLOCK_GUID_HI: u64 = 0x4eb4_2f7e_c768_0e89;

/// The signature "ASEV" that opens the SEV metadata.
pub const METADATA_SIGNATURE: u32 = 0x5645_5341;

/// Where additional vCPUs start executing: the 32-bit reset address that the firmware's
/// SEV-ES reset block holds.
#[derive(Clone, Copy, Debug, PartialEq, Eq, Structural)]
pub struct SevEsResetBlock {
    pub reset_address: u32,
}

impl SevEsResetBlock {
    /// The code-segment base: the reset address without its low 16 bits.
    pub open spec fn spec_cs_base(self) -> u64 {
        (self.reset_address as nat / 0x1_0000 * 0x1_0000) as u64
    }

    /// The instruction pointer: the low 16 bits of the reset address.
    pub open spec fn spec_ip(self) -> u64 {
        (self.reset_address as nat % 0x1_0000) as u64
    }

    pub fn cs_base(&self) -> (r: u64)
        ensures
            r == self.spec_cs_base(),
    {
        (self.reset_address as u64) / 0x1_0000 * 0x1_0000
    }

    pub fn ip(&self) -> (r: u64)
        ensures
            r == self.spec_ip(),
    {
        (self.reset_address as u64) % 0x1_0000
    }
}

/// A run of pages that the firmware asks to be set up by the platform.
#[derive(Clone, Copy, Debug, PartialEq, Eq, Structural)]
pub struct SpecialPageDescriptor {
    pub page_type: SnpPageType,
    pub start_address: u64,
    pub page_count: u64,
}

impl SpecialPageDescriptor {
    /// The run is page-aligned, not empty, and lies below 8 GiB.
    pub open spec fn wf(self) -> bool {
        self.start_address % 4096 == 0 && self.page_count >= 1 && self.start_address
            + self.page_count * 4096 <= 0x2_0000_0000
    }
}

/// Whether the 16 bytes at `i` are the GUID with halves `lo` and `hi`.
pub open spec fn guid_at(s: Seq<u8>, i: int, lo: u64, hi: u64) -> bool {
    u64_at(s, i) == lo as nat && u64_at(s, i + 8) == hi as nat
}

/// Looks for the entry with the given GUID among the entries that occupy `[lo, end)`, from
/// the end backwards. `None`: the entries are malformed; `Some(None)`: no entry has the
/// GUID; `Some(Some((a, b)))`: the first one that has it holds the data in `[a, b)`.
pub open spec fn find_entry(s: Seq<u8>, lo: int, end: int, g_lo: u64, g_hi: u64) -> Option<Option<(int, int)>>
    decreases end - lo,
{
    if end <= lo {
        Some(None)
    } else if end - lo < 18 {
        None
    } else {
        let len = u16_at(s, end - 18) as int;
        if len < 18 || len > end - lo {
            None
        } else if guid_at(s, end - 16, g_lo, g_hi) {
            Some(Some((end - len, end - 18)))
        } else {
            find_entry(s, lo, end - len, g_lo, g_hi)
        }
    }
}

/// The range of the GUIDed table's entries. `None`: the footer is malformed; `Some(None)`:
/// the ROM has no table.
pub open spec fn table_entries(s: Seq<u8>) -> Option<Option<(int, int)>> {
    let n = s.len() as int;
    if n < 0x32 || !guid_at(s, n - 0x30, FOOTER_GUID_LO, FOOTER_GUID_HI) {
        Some(None)
    } else {
        let len = u16_at(s, n - 0x32) as int;
        if len < 18 || len > n - 0x20 {
            None
        } else {
            Some(Some((n - 0x20 - len, n - 0x32)))
        }
    }
}

/// The data range of the table entry with the given GUID, as `find_entry` gives it.
pub open spec fn lookup(s: Seq<u8>, g_lo: u64, g_hi: u64) -> Option<Option<(int, int)>> {
    match table_entries(s) {
        None => None,
        Some(None) => Some(None),
        Some(Some((lo, end))) => find_entry(s, lo, end, g_lo, g_hi),
    }
}

/// The SEV-ES reset block of the ROM, if it has one.
pub open spec fn spec_reset_block(s: Seq<u8>) -> Result<Option<SevEsResetBlock>, Error> {
    match lookup(s, RESET_BLOCK_GUID_LO, RESET_BLOCK_GUID_HI) {
        None => Err(Error::MalformedMetadata),
        Some(None) => Ok(None),
        Some(Some((a, b))) => if b - a < 4 {
            Err(Error::MalformedResetBlock)
        } else {
            Ok(Some(SevEsResetBlock { reset_address: u32_at(s, a) as u32 }))
        },
    }
}

/// The page type of a SEV metadata section kind: SNP secure memory and the SVSM calling
/// area are zero pages, then the secrets page and the CPUID page.
pub open spec fn section_type(kind: nat) -> SnpPageType {
    if kind == 2 {
        SnpPageType::Secrets
    } else if kind == 3 {
        SnpPageType::Cpuid
    } else {
        SnpPageType::Zero
    }
}

/// Whether the metadata section at `p` (base, size and kind, 32 bits each) is one that can
/// be measured: page-aligned, not empty, and of a known kind.
pub open spec fn section_valid(s: Seq<u8>, p: int) -> bool {
    u32_at(s, p) % 4096 == 0 && u32_at(s, p + 4) > 0 && u32_at(s, p + 4) % 4096 == 0 && 1
        <= u32_at(s, p + 8) <= 4
}

/// The descriptor of the metadata section at `p`.
pub open spec fn section_at(s: Seq<u8>, p: int) -> SpecialPageDescriptor {
    SpecialPageDescriptor {
        page_type: section_type(u32_at(s, p + 8)),
        start_address: u32_at(s, p) as u64,
        page_count: (u32_at(s, p + 4) / 4096) as u64,
    }
}

/// Whether metadata section `k` after the header at `h` is valid.
pub open spec fn nth_section_valid(s: Seq<u8>, h: int, k: int) -> bool {
    section_valid(s, h + 16 + 12 * k)
}

/// The `count` metadata sections that follow the 16-byte header at `h`.
#[verifier::opaque]
pub open spec fn sections(s: Seq<u8>, h: int, count: nat) -> Result<Seq<SpecialPageDescriptor>, Error> {
    if forall|k: int| 0 <= k < count ==> #[trigger] nth_section_valid(s, h, k) {
        Ok(Seq::new(count, |k: int| section_at(s, h + 16 + 12 * k)))
    } else {
        Err(Error::MalformedMetadata)
    }
}

/// Where the SEV metadata header starts, given the offset from the end of the ROM that the
/// table entry holds, if a header with its sections fits there.
pub open spec fn metadata_header(s: Seq<u8>, offset: nat) -> Option<int> {
    let n = s.len() as int;
    let h = n - offset;
    if offset > n || h + 16 > n || u32_at(s, h) != METADATA_SIGNATURE as nat || u32_at(s, h + 8)
        != 1 || h + 16 + 12 * u32_at(s, h + 12) > n {
        None
    } else {
        Some(h)
    }
}

/// The special pages that the ROM's SEV metadata asks for; none if it has no metadata.
pub open spec fn spec_snp_pages(s: Seq<u8>) -> Result<Seq<SpecialPageDescriptor>, Error> {
    match lookup(s, METADATA_GUID_LO, METADATA_GUID_HI) {
        None => Err(Error::MalformedMetadata),
        Some(None) => Ok(Seq::empty()),
        Some(Some((a, b))) => metadata_at(s, a, b),
    }
}

/// The special pages of the metadata that the table entry with data `[a, b)` points to.
pub open spec fn metadata_at(s: Seq<u8>, a: int, b: int) -> Result<Seq<SpecialPageDescriptor>, Error> {
    if b - a < 4 {
        Err(Error::MalformedMetadata)
    } else {
        match metadata_header(s, u32_at(s, a)) {
            None => Err(Error::MalformedMetadata),
            Some(h) => sections(s, h, u32_at(s, h + 12)),
        }
    }
}

fn is_guid(s: &[u8], i: usize, lo: u64, hi: u64) -> (r: bool)
    requires
        i + 16 <= s@.len(),
    ensures
        r == guid_at(s@, i as int, lo, hi),
{
    let len = s.len();
    read_u64(s, i) == lo && read_u64(s, i + 8) == hi
}

pub open spec fn lift(r: Option<Option<(usize, usize)>>) -> Option<Option<(int, int)>> {
    match r {
        None => None,
        Some(None) => Some(None),
        Some(Some((a, b))) => Some(Some((a as int, b as int))),
    }
}

fn find_entry_in(s: &[u8], lo: usize, end: usize, g_lo: u64, g_hi: u64) -> (r: Option<Option<(usize, usize)>>)
    requires
        lo <= end <= s@.len(),
    ensures
        lift(r) == find_entry(s@, lo as int, end as int, g_lo, g_hi),
{
    let len = s.len();
    let mut e: usize = end;
    loop
        invariant
            lo <= e <= end,
            end <= len,
            len == s@.len(),
            find_entry(s@, lo as int, e as int, g_lo, g_hi) == find_entry(
                s@,
                lo as int,
                end as int,
                g_lo,
                g_hi,
            ),
        decreases e - lo,
    {
        if e <= lo {
            return Some(None);
        }
        if e - lo < 18 {
            return None;
        }
        let entry_len = read_u16(s, e - 18) as usize;
        if entry_len < 18 || entry_len > e - lo {
            return None;
        }
        if is_guid(s, e - 16, g_lo, g_hi) {
            return Some(Some((e - entry_len, e - 18)));
        }
        e = e - entry_len;
    }
}

fn table_entries_in(s: &[u8]) -> (r: Option<Option<(usize, usize)>>)
    ensures
        lift(r) == table_entries(s@),
        r matches Some(Some((a, b))) ==> a <= b <= s@.len(),
{
    let n = s.len();
    if n < 0x32 || !is_guid(s, n - 0x30, FOOTER_GUID_LO, FOOTER_GUID_HI) {
        return Some(None);
    }
    let len = read_u16(s, n - 0x32) as usize;
    if len < 18 || len > n - 0x20 {
        None
    } else {
        Some(Some((n - 0x20 - len, n - 0x32)))
    }
}

fn lookup_in(s: &[u8], g_lo: u64, g_hi: u64) -> (r: Option<Option<(usize, usize)>>)
    ensures
        lift(r) == lookup(s@, g_lo, g_hi),
        r matches Some(Some((a, b))) ==> a <= b <= s@.len(),
{
    match table_entries_in(s) {
        None => None,
        Some(None) => Some(None),
        Some(Some((lo, end))) => {
            let r = find_entry_in(s, lo, end, g_lo, g_hi);
            proof {
                if let Some(Some((a, b))) = r {
                    lemma_find_entry_range(s@, lo as int, end as int, g_lo, g_hi);
                }
            }
            r
        },
    }
}

proof fn lemma_find_entry_range(s: Seq<u8>, lo: int, end: int, g_lo: u64, g_hi: u64)
    requires
        0 <= lo,
    ensures
        find_entry(s, lo, end, g_lo, g_hi) matches Some(Some((a, b))) ==> lo <= a <= b <= end,
    decreases end - lo,
{
    if end > lo && end - lo >= 18 {
        let len = u16_at(s, end - 18) as int;
        if len >= 18 && len <= end - lo && !guid_at(s, end - 16, g_lo, g_hi) {
            lemma_find_entry_range(s, lo, end - len, g_lo, g_hi);
        }
    }
}

/// Reads the SEV-ES reset block from the ROM's GUIDed table.
pub fn read_sev_es_reset_block(rom: &[u8]) -> (r: Result<Option<SevEsResetBlock>, Error>)
    ensures
        r == spec_reset_block(rom@),
{
    match lookup_in(rom, RESET_BLOCK_GUID_LO, RESET_BLOCK_GUID_HI) {
        None => Err(Error::MalformedMetadata),
        Some(None) => Ok(None),
        Some(Some((a, b))) => {
            if b - a < 4 {
                Err(Error::MalformedResetBlock)
            } else {
                Ok(Some(SevEsResetBlock { reset_address: read_u32(rom, a) }))
            }
        },
    }
}

/// Reads the special pages that the ROM's SEV metadata asks for.
pub fn read_snp_pages(rom: &[u8]) -> (r: Result<Vec<SpecialPageDescriptor>, Error>)
    ensures
        r matches Ok(v) ==> spec_snp_pages(rom@) == Ok::<Seq<SpecialPageDescriptor>, Error>(v@),
        r matches Err(e) ==> spec_snp_pages(rom@) == Err::<Seq<SpecialPageDescriptor>, Error>(e),
        r matches Ok(v) ==> forall|i: int| 0 <= i < v@.len() ==> (#[trigger] v@[i]).wf(),
{
    match lookup_in(rom, METADATA_GUID_LO, METADATA_GUID_HI) {
        None => Err(Error::MalformedMetadata),
        Some(None) => Ok(Vec::new()),
        Some(Some((a, b))) => read_metadata(rom, a, b),
    }
}

fn read_metadata(rom: &[u8], a: usize, b: usize) -> (r: Result<Vec<SpecialPageDescriptor>, Error>)
    requires
        a <= b <= rom@.len(),
    ensures
        r matches Ok(v) ==> metadata_at(rom@, a as int, b as int) == Ok::<
            Seq<SpecialPageDescriptor>,
            Error,
        >(v@),
        r matches Err(e) ==> metadata_at(rom@, a as int, b as int) == Err::<
            Seq<SpecialPageDescriptor>,
            Error,
        >(e),
        r matches Ok(v) ==> forall|i: int| 0 <= i < v@.len() ==> (#[trigger] v@[i]).wf(),
{
    let n = rom.len();
    if b - a < 4 {
        return Err(Error::MalformedMetadata);
    }
    let offset = read_u32(rom, a) as usize;
    if offset > n || offset < 16 {
        return Err(Error::MalformedMetadata);
    }
    let h = n - offset;
    if read_u32(rom, h) != METADATA_SIGNATURE || read_u32(rom, h + 8) != 1 {
        return Err(Error::MalformedMetadata);
    }
    let count = read_u32(rom, h + 12) as usize;
    proof {
        lemma_fits(n - h - 16, count as int);
    }
    if count > (n - h - 16) / 12 {
        return Err(Error::MalformedMetadata);
    }
    assert(metadata_header(rom@, offset as nat) == Some(h as int));
    read_sections(rom, h, count)
}

proof fn lemma_round_down(x: int)
    requires
        x >= 0,
    ensures
        x / 4096 * 4096 <= x,
{
    assert(x / 4096 * 4096 <= x) by (nonlinear_arith)
        requires
            x >= 0,
    ;
}

proof fn lemma_fits(room: int, count: int)
    requires
        room >= 0,
        count >= 0,
    ensures
        count > room / 12 <==> 12 * count > room,
{
    assert(count > room / 12 <==> 12 * count > room) by (nonlinear_arith)
        requires
            room >= 0,
            count >= 0,
    ;
}

fn read_sections(rom: &[u8], h: usize, count: usize) -> (r: Result<Vec<SpecialPageDescriptor>, Error>)
    requires
        h + 16 + 12 * count <= rom@.len(),
    ensures
        r matches Ok(v) ==> sections(rom@, h as int, count as nat) == Ok::<
            Seq<SpecialPageDescriptor>,
            Error,
        >(v@),
        r matches Err(e) ==> sections(rom@, h as int, count as nat) == Err::<
            Seq<SpecialPageDescriptor>,
            Error,
        >(e),
        r matches Ok(v) ==> forall|i: int| 0 <= i < v@.len() ==> (#[trigger] v@[i]).wf(),
{
    reveal(sections);
    let n = rom.len();
    let mut pages: Vec<SpecialPageDescriptor> = Vec::new();
    let mut k: usize = 0;
    while k < count
        invariant
            k <= count,
            n == rom@.len(),
            h + 16 + 12 * count <= n,
            forall|j: int| 0 <= j < k ==> #[trigger] nth_section_valid(rom@, h as int, j),
            forall|j: int| 0 <= j < k ==> (#[trigger] pages@[j]).wf(),
            pages@ == Seq::new(k as nat, |j: int| section_at(rom@, h + 16 + 12 * j)),
        decreases count - k,
    {
        let p = h + 16 + 12 * k;
        let base = read_u32(rom, p);
        let size = read_u32(rom, p + 4);
        let kind = read_u32(rom, p + 8);
        if base % 4096 != 0 || size == 0 || size % 4096 != 0 || kind < 1 || kind > 4 {
            assert(!nth_section_valid(rom@, h as int, k as int));
            proof {
                reveal(sections);
                assert(!(forall|j: int|
                    0 <= j < count ==> #[trigger] nth_section_valid(rom@, h as int, j)));
                assert(sections(rom@, h as int, count as nat) == Err::<
                    Seq<SpecialPageDescriptor>,
                    Error,
                >(Error::MalformedMetadata));
            }
            return Err(Error::MalformedMetadata);
        }
        let page_type = if kind == 2 {
            SnpPageType::Secrets
        } else if kind == 3 {
            SnpPageType::Cpuid
        } else {
            SnpPageType::Zero
        };
        let desc = SpecialPageDescriptor {
            page_type,
            start_address: base as u64,
            page_count: (size / 4096) as u64,
        };
        proof {
            lemma_round_down(size as int);
        }
        assert(desc.wf());
        pages.push(desc);
        k = k + 1;
        assert(pages@ =~= Seq::new(k as nat, |j: int| section_at(rom@, h + 16 + 12 * j)));
    }
    Ok(pages)
}

/// A loaded Stage0 firmware image.
pub struct FirmwareImage {
    /// The ROM bytes.
    pub rom: Vec<u8>,
    /// Guest-physical address of the ROM, which ends at 4 GiB.
    pub start_address: u64,
    /// Guest-physical address of the legacy shadow, which ends at 1 MiB.
    pub legacy_start_address: u64,
    /// The special pages that the SEV metadata asks for, in the metadata's order.
    pub snp_pages: Vec<SpecialPageDescriptor>,
    /// The SEV-ES reset block, if the firmware has one.
    pub sev_es_reset_block: Option<SevEsResetBlock>,
}

impl FirmwareImage {
    /// The ROM has the Stage0 size and is placed below 4 GiB, its legacy shadow below 1 MiB,
    /// and every special page run is well formed.
    pub open spec fn wf(&self) -> bool {
        &&& self.rom@.len() == ROM_SIZE
        &&& self.start_address == ROM_END - ROM_SIZE
        &&& self.legacy_start_address == LEGACY_END - LEGACY_SIZE
        &&& forall|i: int| 0 <= i < self.snp_pages@.len() ==> (#[trigger] self.snp_pages@[i]).wf()
    }

    /// The bytes of the legacy shadow: the last 128 KiB of the ROM.
    pub open spec fn spec_legacy_shadow(&self) -> Seq<u8> {
        self.rom@.subrange(ROM_SIZE - LEGACY_SIZE, ROM_SIZE as int)
    }

    pub fn rom_bytes(&self) -> (r: &[u8])
        ensures
            r@ == self.rom@,
    {
        self.rom.as_slice()
    }

    pub fn legacy_shadow_bytes(&self) -> (r: &[u8])
        requires
            self.wf(),
        ensures
            r@ == self.spec_legacy_shadow(),
    {
        vstd::slice::slice_subrange(self.rom.as_slice(), ROM_SIZE - LEGACY_SIZE, ROM_SIZE)
    }

    pub fn get_snp_pages(&self) -> (r: &[SpecialPageDescriptor])
        ensures
            r@ == self.snp_pages@,
    {
        self.snp_pages.as_slice()
    }

    pub fn get_sev_es_reset_block(&self) -> (r: Option<SevEsResetBlock>)
        ensures
            r == self.sev_es_reset_block,
    {
        self.sev_es_reset_block
    }
}

/// Loads a Stage0 ROM image from its bytes.
pub fn load_stage0(rom: Vec<u8>) -> (r: Result<FirmwareImage, Error>)
    ensures
        r is Ok <==> rom@.len() == ROM_SIZE && spec_snp_pages(rom@) is Ok && spec_reset_block(
            rom@,
        ) is Ok,
        r matches Err(e) ==> e == (if rom@.len() != ROM_SIZE {
            Error::UnexpectedSize
        } else if spec_snp_pages(rom@) is Err {
            spec_snp_pages(rom@)->Err_0
        } else {
            spec_reset_block(rom@)->Err_0
        }),
        r matches Ok(img) ==> img.wf() && img.rom@ == rom@ && img.snp_pages@ == spec_snp_pages(
            rom@,
        )->Ok_0 && img.sev_es_reset_block == spec_reset_block(rom@)->Ok_0,
{
    if rom.len() != ROM_SIZE {
        return Err(Error::UnexpectedSize);
    }
    let snp_pages = match read_snp_pages(rom.as_slice()) {
        Ok(v) => v,
        Err(e) => {
            return Err(e);
        },
    };
    let sev_es_reset_block = match read_sev_es_reset_block(rom.as_slice()) {
        Ok(b) => b,
        Err(e) => {
            return Err(e);
        },
    };
    Ok(
        FirmwareImage {
            rom,
            start_address: ROM_END - ROM_SIZE as u64,
            legacy_start_address: LEGACY_END - LEGACY_SIZE as u64,
            snp_pages,
            sev_es_reset_block,
        },
    )
}

} // verus!
