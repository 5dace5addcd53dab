//! The launch digest engine: a SHA-384 hash chain over one PAGE_INFO record per page added
//! to the guest.
use vstd::prelude::*;

use crate::bytes::{le_bytes, lemma_le_bytes_len, push_le};
use crate::error::Error;
use crate::vmsa::VirtualCpuState;

verus! {

/// Size of a guest page.
pub const PAGE_SIZE: u64 = 4096;

/// Size of a SHA-384 digest.
pub const DIGEST_SIZE: usize = 48;

/// Size of the PAGE_INFO record that each page contributes to the chain.
pub const PAGE_INFO_SIZE: u64 = 0x70;

/// Page type of a page whose contents are measured.
pub const PAGE_TYPE_NORMAL: u8 = 1;

/// Page type of a vCPU save area.
pub const PAGE_TYPE_VMSA: u8 = 2;

/// The SHA-384 digest of `data`.
pub uninterp spec fn sha384_of(data: Seq<u8>) -> Seq<u8>;

/// Relies on `sha2::Sha384` (through `digest::Digest::digest`): the SHA-384 digest of
/// `data`, whose output type holds 48 bytes.
#[verifier::external_body]
fn sha384(data: &[u8]) -> (r: Vec<u8>)
    ensures
        r@ == sha384_of(data@),
        r@.len() == 48,
{
    <sha2::Sha384 as sha2::Digest>::digest(data).to_vec()
}

/// Relies on `x86_64`'s `Size4KiB::SIZE`: the size of a 4 KiB page.
#[verifier::external_body]
fn small_page_size() -> (r: u64)
    ensures
        r == PAGE_SIZE,
{
    <x86_64::structures::paging::Size4KiB as x86_64::structures::paging::PageSize>::SIZE
}

/// The lowercase hexadecimal digit of `n`, for `n < 16`.
pub open spec fn hex_digit(n: nat) -> char {
    if n < 10 {
        (48 + n) as char
    } else {
        (87 + n) as char
    }
}

/// `b` written as two lowercase hexadecimal digits per byte, high nibble first.
pub open spec fn hex_of(b: Seq<u8>) -> Seq<char> {
    Seq::new(
        2 * b.len(),
        |i: int|
            if i % 2 == 0 {
                hex_digit((b[i / 2] / 16) as nat)
            } else {
                hex_digit((b[i / 2] % 16) as nat)
            },
    )
}

/// Relies on `hex::encode`: two lowercase hexadecimal digits per byte, high nibble first.
#[verifier::external_body]
fn encode_hex(b: &[u8]) -> (r: String)
    ensures
        r@ == hex_of(b@),
{
    hex::encode(b)
}

/// Kinds of pages whose contents the platform supplies, so that only their type and address
/// are measured.
#[derive(Clone, Copy, Debug, PartialEq, Eq, Structural)]
pub enum SnpPageType {
    Zero,
    Unmeasured,
    Secrets,
    Cpuid,
}

impl SnpPageType {
    /// The PAGE_TYPE value of the kind.
    pub open spec fn spec_code(self) -> u8 {
        match self {
            SnpPageType::Zero => 3,
            SnpPageType::Unmeasured => 4,
            SnpPageType::Secrets => 5,
            SnpPageType::Cpuid => 6,
        }
    }

    pub fn code(self) -> (r: u8)
        ensures
            r == self.spec_code(),
    {
        match self {
            SnpPageType::Zero => 3,
            SnpPageType::Unmeasured => 4,
            SnpPageType::Secrets => 5,
            SnpPageType::Cpuid => 6,
        }
    }
}

/// The digest that the chain starts from.
pub open spec fn initial_digest() -> Seq<u8> {
    Seq::new(48, |i: int| 0u8)
}

/// The CONTENTS field of a page whose contents are not measured.
pub open spec fn no_contents() -> Seq<u8> {
    Seq::new(48, |i: int| 0u8)
}

/// The PAGE_INFO record: current digest, contents digest, length, page type, the IMI flag,
/// the three VMPL permission bytes, a reserved byte and the guest-physical address.
#[verifier::opaque]
pub open spec fn page_info(digest: Seq<u8>, contents: Seq<u8>, page_type: u8, gpa: nat) -> Seq<u8> {
    digest + contents + le_bytes(0x70, 2) + seq![page_type, 0u8, 0u8, 0u8, 0u8, 0u8]
        + le_bytes(gpa, 8)
}

/// The digest after one page has been added.
pub open spec fn next_digest(digest: Seq<u8>, contents: Seq<u8>, page_type: u8, gpa: nat) -> Seq<u8> {
    sha384_of(page_info(digest, contents, page_type, gpa))
}

/// Page `k` of `data`, padded with zero bytes past its end.
pub open spec fn page_at(data: Seq<u8>, k: nat) -> Seq<u8> {
    Seq::new(4096, |j: int| if k * 4096 + j < data.len() { data[k * 4096 + j] } else { 0u8 })
}

/// The number of pages that `len` bytes take.
pub open spec fn pages_in(len: nat) -> nat {
    (len + 4095) / 4096
}

/// Whether `n` pages starting at `gpa` can be measured: `gpa` is page-aligned and the
/// address of the last page fits in 64 bits.
pub open spec fn valid_run(gpa: u64, n: nat) -> bool {
    gpa % 4096 == 0 && n <= (u64::MAX - gpa) / 4096 + 1
}

/// The digest after the first `n` pages of `data`, placed from `gpa` on, have been added
/// with their contents.
pub open spec fn fold_content(digest: Seq<u8>, data: Seq<u8>, page_type: u8, gpa: nat, n: nat) -> Seq<u8>
    decreases n,
{
    if n == 0 {
        digest
    } else {
        next_digest(
            fold_content(digest, data, page_type, gpa, (n - 1) as nat),
            sha384_of(page_at(data, (n - 1) as nat)),
            page_type,
            (gpa + (n - 1) * 4096) as nat,
        )
    }
}

/// The digest after all pages of `data`, placed from `gpa` on, have been added as normal
/// pages.
pub open spec fn fold_data(digest: Seq<u8>, data: Seq<u8>, gpa: nat) -> Seq<u8> {
    fold_content(digest, data, PAGE_TYPE_NORMAL, gpa, pages_in(data.len()))
}

/// The digest after a page of type `t` at `gpa` has been added.
pub open spec fn fold_typed(digest: Seq<u8>, t: SnpPageType, gpa: nat) -> Seq<u8> {
    next_digest(digest, no_contents(), t.spec_code(), gpa)
}

/// The digest after a vCPU save-area image has been added at `gpa`.
pub open spec fn fold_vmsa(digest: Seq<u8>, image: Seq<u8>, gpa: nat) -> Seq<u8> {
    next_digest(digest, sha384_of(image), PAGE_TYPE_VMSA, gpa)
}

proof fn lemma_page_address(gpa: u64, n: nat, k: nat)
    requires
        valid_run(gpa, n),
        k < n,
    ensures
        gpa + k * 4096 <= u64::MAX,
{
    let m = (u64::MAX - gpa) as int;
    assert(k <= m / 4096);
    assert(k * 4096 <= m) by (nonlinear_arith)
        requires
            k <= m / 4096,
            m >= 0,
    ;
}

proof fn lemma_pages_in(len: nat, k: nat)
    ensures
        k < pages_in(len) <==> k * 4096 < len,
{
    assert(k < (len + 4095) / 4096 <==> k * 4096 < len) by (nonlinear_arith);
}

/// The running launch digest.
pub struct Measurement {
    digest_cur: Vec<u8>,
}

impl View for Measurement {
    type V = Seq<u8>;

    closed spec fn view(&self) -> Seq<u8> {
        self.digest_cur@
    }
}

impl Measurement {
    /// A chain to which nothing has been added yet.
    pub fn new() -> (r: Measurement)
        ensures
            r@ == initial_digest(),
    {
        let mut d: Vec<u8> = Vec::new();
        let mut i: usize = 0;
        while i < DIGEST_SIZE
            invariant
                i <= DIGEST_SIZE,
                d@ == Seq::new(i as nat, |j: int| 0u8),
            decreases DIGEST_SIZE - i,
        {
            d.push(0u8);
            i = i + 1;
            assert(d@ =~= Seq::new(i as nat, |j: int| 0u8));
        }
        Measurement { digest_cur: d }
    }

    /// The current digest.
    pub fn digest(&self) -> (r: Vec<u8>)
        ensures
            r@ == self@,
    {
        self.digest_cur.clone()
    }

    /// The current digest as 96 lowercase hexadecimal digits.
    pub fn hex_digest(&self) -> (r: String)
        ensures
            r@ == hex_of(self@),
    {
        encode_hex(self.digest_cur.as_slice())
    }

    /// Adds one PAGE_INFO record to the chain.
    fn add_page_info(&mut self, contents: &[u8], page_type: u8, gpa: u64)
        ensures
            final(self)@ == next_digest(old(self)@, contents@, page_type, gpa as nat),
    {
        let mut info: Vec<u8> = Vec::new();
        let mut i: usize = 0;
        let dlen = self.digest_cur.len();
        while i < dlen
            invariant
                i <= dlen,
                dlen == self.digest_cur@.len(),
                info@ == self.digest_cur@.subrange(0, i as int),
            decreases dlen - i,
        {
            info.push(self.digest_cur[i]);
            i = i + 1;
            assert(info@ =~= self.digest_cur@.subrange(0, i as int));
        }
        assert(info@ =~= self.digest_cur@);
        let clen = contents.len();
        let ghost head = info@;
        i = 0;
        while i < clen
            invariant
                i <= clen,
                clen == contents@.len(),
                info@ == head + contents@.subrange(0, i as int),
            decreases clen - i,
        {
            info.push(contents[i]);
            i = i + 1;
            assert(info@ =~= head + contents@.subrange(0, i as int));
        }
        assert(info@ =~= head + contents@);
        push_le(&mut info, PAGE_INFO_SIZE, 2);
        info.push(page_type);
        info.push(0u8);
        info.push(0u8);
        info.push(0u8);
        info.push(0u8);
        info.push(0u8);
        push_le(&mut info, gpa, 8);
        reveal(page_info);
        assert(info@ =~= page_info(old(self)@, contents@, page_type, gpa as nat));
        self.digest_cur = sha384(info.as_slice());
    }

    /// Adds the pages of `data`, placed from `start_address` on, as normal pages whose
    /// contents are measured; the last page is padded with zero bytes.
    pub fn update_from_data(&mut self, data: &[u8], start_address: u64) -> (r: Result<(), Error>)
        ensures
            r is Err <==> !valid_run(start_address, pages_in(data@.len() as nat)),
            r is Err ==> r == Err::<(), Error>(Error::InvalidArgument) && final(self)@ == old(self)@,
            r is Ok ==> final(self)@ == fold_data(old(self)@, data@, start_address as nat),
    {
        let page_size = small_page_size();
        let len = data.len();
        let n: usize = len / 4096 + if len % 4096 == 0 { 0 } else { 1 };
        assert(n == pages_in(len as nat));
        if start_address % page_size != 0 || n as u64 > (u64::MAX - start_address) / page_size + 1 {
            return Err(Error::InvalidArgument);
        }
        let ghost d0 = self@;
        let mut k: usize = 0;
        while k < n
            invariant
                k <= n,
                n == pages_in(len as nat),
                len == data@.len(),
                page_size == 4096,
                valid_run(start_address, n as nat),
                self@ == fold_content(d0, data@, PAGE_TYPE_NORMAL, start_address as nat, k as nat),
            decreases n - k,
        {
            proof {
                lemma_pages_in(len as nat, k as nat);
                lemma_page_address(start_address, n as nat, k as nat);
            }
            let base: usize = k * 4096;
            let mut page: Vec<u8> = Vec::new();
            let mut j: usize = 0;
            while j < 4096
                invariant
                    j <= 4096,
                    base < len,
                    len == data@.len(),
                    base == k * 4096,
                    page@ == page_at(data@, k as nat).subrange(0, j as int),
                decreases 4096 - j,
            {
                if j < len - base {
                    page.push(data[base + j]);
                } else {
                    page.push(0u8);
                }
                j = j + 1;
                assert(page@ =~= page_at(data@, k as nat).subrange(0, j as int));
            }
            assert(page@ =~= page_at(data@, k as nat));
            let contents = sha384(page.as_slice());
            let gpa = start_address + (k as u64) * page_size;
            self.add_page_info(contents.as_slice(), PAGE_TYPE_NORMAL, gpa);
            k = k + 1;
        }
        Ok(())
    }

    /// Adds one page of kind `page_type` at `address`, whose contents are not measured.
    pub fn update_from_snp_page(&mut self, page_type: SnpPageType, address: u64) -> (r: Result<(), Error>)
        ensures
            r is Err <==> address % 4096 != 0,
            r is Err ==> r == Err::<(), Error>(Error::InvalidArgument) && final(self)@ == old(self)@,
            r is Ok ==> final(self)@ == fold_typed(old(self)@, page_type, address as nat),
    {
        if address % small_page_size() != 0 {
            return Err(Error::InvalidArgument);
        }
        let zeros: [u8; 48] = [0u8; 48];
        assert(zeros@ =~= no_contents());
        self.add_page_info(&zeros, page_type.code(), address);
        Ok(())
    }

    /// Adds the save-area image of `vmsa` at `address`.
    pub fn update_from_vmsa(&mut self, vmsa: &VirtualCpuState, address: u64) -> (r: Result<(), Error>)
        ensures
            r is Err <==> address % 4096 != 0,
            r is Err ==> r == Err::<(), Error>(Error::InvalidArgument) && final(self)@ == old(self)@,
            r is Ok ==> final(self)@ == fold_vmsa(old(self)@, vmsa.spec_image(), address as nat),
    {
        if address % small_page_size() != 0 {
            return Err(Error::InvalidArgument);
        }
        let image = vmsa.to_bytes();
        let contents = sha384(image.as_slice());
        self.add_page_info(contents.as_slice(), PAGE_TYPE_VMSA, address);
        Ok(())
    }
}

} // verus!
