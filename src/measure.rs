//! The launch measurement of a VM booted from a Stage0 image: every page and vCPU save area,
//! added to the digest in the order in which the platform adds them.
use vstd::prelude::*;

use crate::error::Error;
use crate::page::{fold_data, fold_typed, fold_vmsa, initial_digest, Measurement, SnpPageType};
use crate::stage0::{
    load_stage0,
    spec_reset_block,
    spec_snp_pages,
    FirmwareImage,
    SevEsResetBlock,
    SpecialPageDescriptor,
    LEGACY_END,
    LEGACY_SIZE,
    ROM_END,
    ROM_SIZE,
};
use crate::vmsa::{get_ap_vmsa, get_boot_vmsa, vmsa_image, BOOT_CS_BASE, BOOT_RIP, VMSA_ADDRESS};

verus! {

/// The digest after the first `n` pages of a run of type `t` from `start` on.
pub open spec fn fold_typed_run(d: Seq<u8>, t: SnpPageType, start: nat, n: nat) -> Seq<u8>
    decreases n,
{
    if n == 0 {
        d
    } else {
        fold_typed(fold_typed_run(d, t, start, (n - 1) as nat), t, (start + (n - 1) * 4096) as nat)
    }
}

/// The digest after every page of every run in `pages`, in order.
pub open spec fn fold_special(d: Seq<u8>, pages: Seq<SpecialPageDescriptor>) -> Seq<u8>
    decreases pages.len(),
{
    if pages.len() == 0 {
        d
    } else {
        let last = pages.last();
        fold_typed_run(
            fold_special(d, pages.drop_last()),
            last.page_type,
            last.start_address as nat,
            last.page_count as nat,
        )
    }
}

/// The digest after `n` additional vCPUs with save-area image `image`.
pub open spec fn fold_aps(d: Seq<u8>, image: Seq<u8>, n: nat) -> Seq<u8>
    decreases n,
{
    if n == 0 {
        d
    } else {
        fold_vmsa(fold_aps(d, image, (n - 1) as nat), image, VMSA_ADDRESS as nat)
    }
}

/// The save-area image of the boot vCPU.
pub open spec fn boot_image() -> Seq<u8> {
    vmsa_image(BOOT_CS_BASE as nat, BOOT_RIP as nat)
}

/// The save-area image of every additional vCPU.
pub open spec fn ap_image(reset: SevEsResetBlock) -> Seq<u8> {
    vmsa_image(reset.spec_cs_base() as nat, reset.spec_ip() as nat)
}

/// The digest after the ROM itself.
pub open spec fn rom_digest(rom: Seq<u8>) -> Seq<u8> {
    fold_data(initial_digest(), rom, (ROM_END - ROM_SIZE) as nat)
}

/// The digest after the legacy shadow of `rom`.
pub open spec fn shadow_digest(d: Seq<u8>, rom: Seq<u8>) -> Seq<u8> {
    fold_data(
        d,
        rom.subrange(ROM_SIZE - LEGACY_SIZE, ROM_SIZE as int),
        (LEGACY_END - LEGACY_SIZE) as nat,
    )
}

/// The digest after the special pages and the vCPUs, from the digest `d` of the firmware.
pub open spec fn after_firmware(
    d: Seq<u8>,
    pages: Seq<SpecialPageDescriptor>,
    reset: Option<SevEsResetBlock>,
    vcpu_count: nat,
) -> Seq<u8> {
    let d = fold_vmsa(fold_special(d, pages), boot_image(), VMSA_ADDRESS as nat);
    match reset {
        Some(rb) => fold_aps(d, ap_image(rb), (vcpu_count - 1) as nat),
        None => d,
    }
}

/// The launch digest: the ROM, its legacy shadow where legacy boot is on, the special pages,
/// the boot vCPU, then each additional vCPU.
pub open spec fn launch_digest(
    rom: Seq<u8>,
    legacy_boot: bool,
    pages: Seq<SpecialPageDescriptor>,
    reset: Option<SevEsResetBlock>,
    vcpu_count: nat,
) -> Seq<u8> {
    after_firmware(firmware_digest(rom, legacy_boot), pages, reset, vcpu_count)
}

/// The digest after the ROM and, where legacy boot is on, its shadow.
pub open spec fn firmware_digest(rom: Seq<u8>, legacy_boot: bool) -> Seq<u8> {
    if legacy_boot {
        shadow_digest(rom_digest(rom), rom)
    } else {
        rom_digest(rom)
    }
}

/// The pages of the runs in `pages`, each as its type and address, in the order in which
/// they are measured.
pub open spec fn typed_pages(pages: Seq<SpecialPageDescriptor>) -> Seq<(SnpPageType, nat)>
    decreases pages.len(),
{
    if pages.len() == 0 {
        Seq::empty()
    } else {
        let last = pages.last();
        typed_pages(pages.drop_last()) + run_pages(
            last.page_type,
            last.start_address as nat,
            last.page_count as nat,
        )
    }
}

/// The `n` pages of a run of type `t` from `start` on.
pub open spec fn run_pages(t: SnpPageType, start: nat, n: nat) -> Seq<(SnpPageType, nat)> {
    Seq::new(n, |k: int| (t, (start + k * 4096) as nat))
}

/// The digest after the typed pages `s`, in order.
pub open spec fn fold_typed_seq(d: Seq<u8>, s: Seq<(SnpPageType, nat)>) -> Seq<u8>
    decreases s.len(),
{
    if s.len() == 0 {
        d
    } else {
        fold_typed(fold_typed_seq(d, s.drop_last()), s.last().0, s.last().1)
    }
}

proof fn lemma_fold_typed_seq_append(d: Seq<u8>, a: Seq<(SnpPageType, nat)>, b: Seq<(SnpPageType, nat)>)
    ensures
        fold_typed_seq(d, a + b) == fold_typed_seq(fold_typed_seq(d, a), b),
    decreases b.len(),
{
    if b.len() == 0 {
        assert(a + b =~= a);
    } else {
        assert((a + b).drop_last() =~= a + b.drop_last());
        lemma_fold_typed_seq_append(d, a, b.drop_last());
    }
}

proof fn lemma_fold_typed_run(d: Seq<u8>, t: SnpPageType, start: nat, n: nat)
    ensures
        fold_typed_run(d, t, start, n) == fold_typed_seq(d, run_pages(t, start, n)),
    decreases n,
{
    if n == 0 {
        assert(run_pages(t, start, n) =~= Seq::empty());
    } else {
        assert(run_pages(t, start, n).drop_last() =~= run_pages(t, start, (n - 1) as nat));
        lemma_fold_typed_run(d, t, start, (n - 1) as nat);
    }
}

proof fn lemma_fold_special(d: Seq<u8>, pages: Seq<SpecialPageDescriptor>)
    ensures
        fold_special(d, pages) == fold_typed_seq(d, typed_pages(pages)),
    decreases pages.len(),
{
    if pages.len() > 0 {
        let last = pages.last();
        let rest = pages.drop_last();
        lemma_fold_special(d, rest);
        lemma_fold_typed_run(
            fold_special(d, rest),
            last.page_type,
            last.start_address as nat,
            last.page_count as nat,
        );
        lemma_fold_typed_seq_append(
            d,
            typed_pages(rest),
            run_pages(last.page_type, last.start_address as nat, last.page_count as nat),
        );
    }
}

/// Special pages are measured by type and address alone: two firmware images whose special
/// page runs give the same sequence of (type, address) pages yield the same launch digest,
/// however the runs are split.
pub proof fn lemma_typed_pages_by_type_and_address(
    rom: Seq<u8>,
    legacy_boot: bool,
    pages1: Seq<SpecialPageDescriptor>,
    pages2: Seq<SpecialPageDescriptor>,
    reset: Option<SevEsResetBlock>,
    vcpu_count: nat,
)
    requires
        typed_pages(pages1) == typed_pages(pages2),
    ensures
        launch_digest(rom, legacy_boot, pages1, reset, vcpu_count) == launch_digest(
            rom,
            legacy_boot,
            pages2,
            reset,
            vcpu_count,
        ),
{
    lemma_fold_special(firmware_digest(rom, legacy_boot), pages1);
    lemma_fold_special(firmware_digest(rom, legacy_boot), pages2);
}

/// With one vCPU only the boot save area is measured, after the special pages; each vCPU
/// beyond the first adds the save area of an additional vCPU once more, at the same address.
pub proof fn lemma_vcpu_count(
    rom: Seq<u8>,
    legacy_boot: bool,
    pages: Seq<SpecialPageDescriptor>,
    reset: SevEsResetBlock,
    vcpu_count: nat,
)
    requires
        vcpu_count >= 1,
    ensures
        launch_digest(rom, legacy_boot, pages, Some(reset), 1) == fold_vmsa(
            fold_special(firmware_digest(rom, legacy_boot), pages),
            boot_image(),
            VMSA_ADDRESS as nat,
        ),
        launch_digest(rom, legacy_boot, pages, None, 1) == launch_digest(
            rom,
            legacy_boot,
            pages,
            Some(reset),
            1,
        ),
        launch_digest(rom, legacy_boot, pages, Some(reset), vcpu_count + 1) == fold_vmsa(
            launch_digest(rom, legacy_boot, pages, Some(reset), vcpu_count),
            ap_image(reset),
            VMSA_ADDRESS as nat,
        ),
{
    assert(fold_aps(
        fold_vmsa(fold_special(firmware_digest(rom, legacy_boot), pages), boot_image(), VMSA_ADDRESS as nat),
        ap_image(reset),
        0,
    ) == fold_vmsa(fold_special(firmware_digest(rom, legacy_boot), pages), boot_image(), VMSA_ADDRESS as nat));
}

/// Without legacy boot the shadow is not measured at all: the digest is the one of a run that
/// goes from the ROM straight to the special pages. With legacy boot the shadow comes between
/// them.
pub proof fn lemma_legacy_shadow(
    rom: Seq<u8>,
    pages: Seq<SpecialPageDescriptor>,
    reset: Option<SevEsResetBlock>,
    vcpu_count: nat,
)
    ensures
        launch_digest(rom, false, pages, reset, vcpu_count) == after_firmware(
            rom_digest(rom),
            pages,
            reset,
            vcpu_count,
        ),
        launch_digest(rom, true, pages, reset, vcpu_count) == after_firmware(
            shadow_digest(rom_digest(rom), rom),
            pages,
            reset,
            vcpu_count,
        ),
{
}

/// Adds every page of every special page run of `image`, in order.
fn measure_special_pages(page_info: &mut Measurement, image: &FirmwareImage)
    requires
        image.wf(),
    ensures
        final(page_info)@ == fold_special(old(page_info)@, image.snp_pages@),
{
    let ghost d_fw = page_info@;
    let pages = image.get_snp_pages();
    let mut i: usize = 0;
    while i < pages.len()
        invariant
            i <= pages@.len(),
            pages@ == image.snp_pages@,
            image.wf(),
            page_info@ == fold_special(d_fw, pages@.subrange(0, i as int)),
        decreases pages@.len() - i,
    {
        let desc = pages[i];
        assert(desc.wf());
        let ghost d_run = page_info@;
        let mut k: u64 = 0;
        while k < desc.page_count
            invariant
                k <= desc.page_count,
                desc.wf(),
                page_info@ == fold_typed_run(d_run, desc.page_type, desc.start_address as nat, k as nat),
            decreases desc.page_count - k,
        {
            let res = page_info.update_from_snp_page(desc.page_type, desc.start_address + k * 4096);
            assert(res is Ok);
            k = k + 1;
        }
        assert(pages@.subrange(0, i + 1).drop_last() =~= pages@.subrange(0, i as int));
        i = i + 1;
    }
    assert(pages@.subrange(0, i as int) =~= pages@);
}

/// Adds the save area of each vCPU beyond the first.
fn measure_aps(page_info: &mut Measurement, reset_block: &SevEsResetBlock, vcpu_count: usize)
    requires
        vcpu_count >= 1,
    ensures
        final(page_info)@ == fold_aps(old(page_info)@, ap_image(*reset_block), (vcpu_count - 1) as nat),
{
    let ap_vmsa = get_ap_vmsa(reset_block);
    let ghost d_boot = page_info@;
    let mut n: usize = 1;
    while n < vcpu_count
        invariant
            1 <= n <= vcpu_count,
            page_info@ == fold_aps(d_boot, ap_image(*reset_block), (n - 1) as nat),
            ap_vmsa.spec_image() == ap_image(*reset_block),
        decreases vcpu_count - n,
    {
        let res = page_info.update_from_vmsa(&ap_vmsa, VMSA_ADDRESS);
        assert(res is Ok);
        n = n + 1;
    }
}

/// Computes the launch measurement of a VM with `vcpu_count` vCPUs booted from `image`.
/// Fails only where additional vCPUs need a reset block that the firmware lacks.
pub fn compute_measurement(image: &FirmwareImage, legacy_boot: bool, vcpu_count: usize) -> (r: Result<
    Measurement,
    Error,
>)
    requires
        image.wf(),
        vcpu_count >= 1,
    ensures
        r is Err <==> vcpu_count > 1 && image.sev_es_reset_block is None,
        r matches Err(e) ==> e == Error::MalformedResetBlock,
        r matches Ok(m) ==> m@ == launch_digest(
            image.rom@,
            legacy_boot,
            image.snp_pages@,
            image.sev_es_reset_block,
            vcpu_count as nat,
        ),
{
    if vcpu_count > 1 && image.sev_es_reset_block.is_none() {
        return Err(Error::MalformedResetBlock);
    }
    let mut page_info = Measurement::new();
    let res = page_info.update_from_data(image.rom_bytes(), image.start_address);
    assert(res is Ok);
    if legacy_boot {
        let res = page_info.update_from_data(image.legacy_shadow_bytes(), image.legacy_start_address);
        assert(res is Ok);
    }
    measure_special_pages(&mut page_info, image);
    let res = page_info.update_from_vmsa(&get_boot_vmsa(), VMSA_ADDRESS);
    assert(res is Ok);
    match image.get_sev_es_reset_block() {
        None => {},
        Some(reset_block) => {
            measure_aps(&mut page_info, &reset_block, vcpu_count);
        },
    }
    Ok(page_info)
}

/// The outcome of measuring the ROM image `rom`: the first error that loading it or
/// measuring its vCPUs meets, or else its launch digest.
pub open spec fn spec_measure(rom: Seq<u8>, legacy_boot: bool, vcpu_count: nat) -> Result<Seq<u8>, Error> {
    if rom.len() != ROM_SIZE {
        Err(Error::UnexpectedSize)
    } else {
        match spec_snp_pages(rom) {
            Err(e) => Err(e),
            Ok(pages) => match spec_reset_block(rom) {
                Err(e) => Err(e),
                Ok(reset) => if vcpu_count > 1 && reset is None {
                    Err(Error::MalformedResetBlock)
                } else {
                    Ok(launch_digest(rom, legacy_boot, pages, reset, vcpu_count))
                },
            },
        }
    }
}

/// Loads the ROM image `rom` and computes the launch measurement of a VM with `vcpu_count`
/// vCPUs booted from it. The outcome depends on the ROM bytes, the legacy boot flag and the
/// vCPU count alone.
pub fn measure_stage0(rom: Vec<u8>, legacy_boot: bool, vcpu_count: usize) -> (r: Result<Measurement, Error>)
    requires
        vcpu_count >= 1,
    ensures
        r matches Ok(m) ==> spec_measure(rom@, legacy_boot, vcpu_count as nat) == Ok::<Seq<u8>, Error>(m@),
        r matches Err(e) ==> spec_measure(rom@, legacy_boot, vcpu_count as nat) == Err::<Seq<u8>, Error>(e),
{
    let image = match load_stage0(rom) {
        Ok(image) => image,
        Err(e) => {
            return Err(e);
        },
    };
    compute_measurement(&image, legacy_boot, vcpu_count)
}

} // verus!
