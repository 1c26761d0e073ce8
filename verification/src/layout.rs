//! The layout calculator: from disk geometry and requested sizes to the
//! boundaries of the EFI, root and swap partitions.
//!
//! Boundaries are byte offsets from the start of the disk. One GiB, the unit
//! in which sizes are requested, is `GIB` bytes, so a boundary of `b` bytes
//! lies at `b / GIB` GiB.

use crate::decimal::{
    all_digits, decimal_text, decimal_value, digit_char, is_digit, lemma_digit_reads_back,
    lemma_leading_digit, pow10, push_decimal,
};
use vstd::arithmetic::div_mod::{
    lemma_fundamental_div_mod, lemma_mod_mod, lemma_mod_multiples_basic,
};
use vstd::arithmetic::power2::{lemma2_to64, lemma_pow2_adds, lemma_pow2_pos, pow2};
use vstd::prelude::*;

verus! {

/// Bytes in one GiB.
pub const GIB: u64 = 1073741824;

/// Bytes in one MiB; the EFI partition starts here.
pub const MIB: u64 = 1048576;

/// The purpose of a partition.
#[derive(Clone, Copy, Debug, PartialEq, Eq, Structural)]
pub enum Role {
    Efi,
    Root,
    Swap,
}

/// One partition: what it is for, and the byte offsets between which it lies.
#[derive(Clone, Copy, Debug, PartialEq, Eq, Structural)]
pub struct Partition {
    pub role: Role,
    pub start: i128,
    pub end: i128,
}

/// The boundaries of the partitions of one disk, in bytes from its start.
///
/// The EFI partition lies between `MIB` and `efi_end`, the root partition
/// between `efi_end` and `root_end`, and the swap partition, where there is
/// one, between `root_end` and `swap_end`.
#[derive(Clone, Copy, Debug, PartialEq, Eq, Structural)]
pub struct PartitionPlan {
    pub efi_end: i128,
    pub root_end: i128,
    pub swap_end: Option<i128>,
}

/// Capacity in bytes of a disk of `sectors` sectors of `sector_size` bytes.
pub open spec fn capacity_bytes(sectors: u64, sector_size: u64) -> int {
    sectors * sector_size
}

/// Where the root partition ends: the capacity less the reserve and, where
/// swap is wanted, less the swap size.
pub open spec fn root_end_bytes(capacity: int, swap_gb: u32, reserve_gb: u32, use_swap: bool) -> int {
    if use_swap {
        capacity - reserve_gb * GIB - swap_gb * GIB
    } else {
        capacity - reserve_gb * GIB
    }
}

/// Where the swap partition ends: the capacity less the reserve.
pub open spec fn swap_end_bytes(capacity: int, reserve_gb: u32) -> int {
    capacity - reserve_gb * GIB
}

/// The plan that the layout calculator gives for a disk of `capacity` bytes.
pub open spec fn plan_for(
    capacity: int,
    efi_gb: u32,
    swap_gb: u32,
    reserve_gb: u32,
    use_swap: bool,
) -> PartitionPlan {
    PartitionPlan {
        efi_end: (efi_gb * GIB) as i128,
        root_end: root_end_bytes(capacity, swap_gb, reserve_gb, use_swap) as i128,
        swap_end: if use_swap {
            Some(swap_end_bytes(capacity, reserve_gb) as i128)
        } else {
            None
        },
    }
}

impl PartitionPlan {
    /// The end of the last partition.
    pub open spec fn last_end(&self) -> int {
        match self.swap_end {
            Some(end) => end as int,
            None => self.root_end as int,
        }
    }

    /// The boundaries strictly increase: the EFI partition, the root
    /// partition and, where there is one, the swap partition are not empty
    /// and follow each other.
    pub open spec fn well_formed(&self) -> bool {
        &&& MIB < self.efi_end < self.root_end
        &&& self.swap_end matches Some(end) ==> self.root_end < end
    }

    /// The partitions in the order in which they lie on the disk.
    pub open spec fn partition_seq(&self) -> Seq<Partition> {
        let fixed = seq![
            Partition { role: Role::Efi, start: MIB as i128, end: self.efi_end },
            Partition { role: Role::Root, start: self.efi_end, end: self.root_end },
        ];
        match self.swap_end {
            Some(end) => fixed.push(Partition { role: Role::Swap, start: self.root_end, end }),
            None => fixed,
        }
    }

    /// Tells whether the boundaries strictly increase.
    pub fn is_well_formed(&self) -> (r: bool)
        ensures
            r == self.well_formed(),
    {
        let head = (MIB as i128) < self.efi_end && self.efi_end < self.root_end;
        match self.swap_end {
            Some(end) => head && self.root_end < end,
            None => head,
        }
    }

    /// The partitions in the order in which they lie on the disk.
    pub fn partitions(&self) -> (r: Vec<Partition>)
        ensures
            r@ == self.partition_seq(),
    {
        let mut out: Vec<Partition> = Vec::new();
        out.push(Partition { role: Role::Efi, start: MIB as i128, end: self.efi_end });
        out.push(Partition { role: Role::Root, start: self.efi_end, end: self.root_end });
        if let Some(end) = self.swap_end {
            out.push(Partition { role: Role::Swap, start: self.root_end, end });
        }
        assert(out@ =~= self.partition_seq());
        out
    }
}

/// Computes the partition boundaries of a disk.
///
/// Gives a plan unless the capacity, `sectors * sector_size` bytes, is beyond
/// 64 bits. The plan may be ill-formed: that the requested sizes fit on the
/// disk is for `PartitionPlan::is_well_formed` to tell.
pub fn calculate_layout(
    sectors: u64,
    sector_size: u64,
    efi_gb: u32,
    swap_gb: u32,
    reserve_gb: u32,
    use_swap: bool,
) -> (r: Option<PartitionPlan>)
    ensures
        r is Some <==> capacity_bytes(sectors, sector_size) <= u64::MAX,
        r matches Some(plan) ==> plan == plan_for(
            capacity_bytes(sectors, sector_size),
            efi_gb,
            swap_gb,
            reserve_gb,
            use_swap,
        ),
{
    match sectors.checked_mul(sector_size) {
        None => None,
        Some(capacity) => {
            let usable: i128 = capacity as i128 - (reserve_gb as i128) * (GIB as i128);
            let root_end: i128 = if use_swap {
                usable - (swap_gb as i128) * (GIB as i128)
            } else {
                usable
            };
            Some(
                PartitionPlan {
                    efi_end: (efi_gb as i128) * (GIB as i128),
                    root_end,
                    swap_end: if use_swap {
                        Some(usable)
                    } else {
                        None
                    },
                },
            )
        },
    }
}

/// The boundaries that the layout calculator gives, for a disk of `capacity`
/// bytes that fits in 64 bits: the root partition ends at the capacity less
/// the reserve and the swap size, the swap partition at the capacity less the
/// reserve, and without swap the root partition ends at the capacity less the
/// reserve and no swap boundary exists. The last partition ends where the
/// reserve begins. With swap, the boundaries lie in the order
/// `efi_end < root_end < swap_end <= capacity` exactly when the EFI
/// partition ends before the root partition does and the swap size is not
/// zero.
pub proof fn layout_law(capacity: int, efi_gb: u32, swap_gb: u32, reserve_gb: u32, use_swap: bool)
    requires
        0 <= capacity <= u64::MAX,
    ensures
        ({
            let plan = plan_for(capacity, efi_gb, swap_gb, reserve_gb, use_swap);
            &&& plan.efi_end == efi_gb * GIB
            &&& plan.last_end() == capacity - reserve_gb * GIB
            &&& use_swap ==> {
                &&& plan.root_end == capacity - reserve_gb * GIB - swap_gb * GIB
                &&& plan.swap_end == Some((capacity - reserve_gb * GIB) as i128)
                &&& (plan.efi_end < plan.root_end < plan.swap_end->0 <= capacity <==> efi_gb * GIB
                    < capacity - reserve_gb * GIB - swap_gb * GIB && swap_gb > 0)
            }
            &&& !use_swap ==> {
                &&& plan.root_end == capacity - reserve_gb * GIB
                &&& plan.swap_end is None
                &&& (plan.efi_end < plan.root_end <= capacity <==> efi_gb * GIB < capacity
                    - reserve_gb * GIB)
            }
            &&& plan.well_formed() <==> {
                &&& efi_gb > 0
                &&& efi_gb * GIB < root_end_bytes(capacity, swap_gb, reserve_gb, use_swap)
                &&& use_swap ==> swap_gb > 0
            }
        }),
{
}


/// The digits after the point of `part / GIB`, for a `part` below `GIB`: at
/// most `places` of them, ending where nothing is left to expand.
pub open spec fn gib_fraction(part: nat, places: nat) -> Seq<char>
    decreases places,
{
    if places == 0 || part == 0 {
        Seq::empty()
    } else {
        seq![digit_char(part * 10 / (GIB as nat))] + gib_fraction(
            part * 10 % (GIB as nat),
            (places - 1) as nat,
        )
    }
}

/// A byte offset written as a decimal number of GiB: a minus sign where it
/// is negative, the whole GiB, and where the offset is no whole number of
/// GiB a point and the digits of the fraction.
pub open spec fn gib_text(bytes: int) -> Seq<char> {
    let magnitude = if bytes < 0 {
        -bytes
    } else {
        bytes
    };
    let sign = if bytes < 0 {
        seq!['-']
    } else {
        Seq::empty()
    };
    let whole = sign + decimal_text((magnitude / (GIB as int)) as nat);
    let part = (magnitude % (GIB as int)) as nat;
    if part == 0 {
        whole
    } else {
        whole + seq!['.'] + gib_fraction(part, 30)
    }
}

/// Appends the digits after the point of `part / GIB`.
fn push_gib_fraction(out: &mut String, part: u64, places: u32)
    requires
        part < GIB,
    ensures
        final(out)@ == old(out)@ + gib_fraction(part as nat, places as nat),
    decreases places,
{
    if places == 0 || part == 0 {
        assert(old(out)@ + Seq::<char>::empty() =~= old(out)@);
    } else {
        let scaled: u64 = part * 10;
        let digit: u8 = (scaled / GIB) as u8;
        out.push((0x30u8 + digit) as char);
        push_gib_fraction(out, scaled % GIB, places - 1);
        assert(old(out)@.push(digit_char(digit as nat)) + gib_fraction(
            (scaled % GIB) as nat,
            (places - 1) as nat,
        ) =~= old(out)@ + (seq![digit_char(digit as nat)] + gib_fraction(
            (scaled % GIB) as nat,
            (places - 1) as nat,
        )));
    }
}

/// Writes a byte offset as a decimal number of GiB.
pub fn format_gib(bytes: i128) -> (r: String)
    ensures
        r@ == gib_text(bytes as int),
{
    let mut out = String::new();
    let magnitude: u128 = if bytes < 0 {
        out.push('-');
        (-(bytes + 1)) as u128 + 1
    } else {
        bytes as u128
    };
    let ghost sign = out@;
    assert(sign =~= if bytes < 0 {
        seq!['-']
    } else {
        Seq::empty()
    });
    push_decimal(&mut out, magnitude / (GIB as u128));
    let part: u64 = (magnitude % (GIB as u128)) as u64;
    if part != 0 {
        out.push('.');
        assert(out@ =~= sign + decimal_text((magnitude / (GIB as u128)) as nat) + seq!['.']);
        push_gib_fraction(&mut out, part, 30);
    }
    out
}


/// What is left of `part / GIB` to expand after the digits of
/// `gib_fraction(part, places)`.
spec fn gib_remainder(part: nat, places: nat) -> nat
    decreases places,
{
    if places == 0 || part == 0 {
        part
    } else {
        gib_remainder(part * 10 % (GIB as nat), (places - 1) as nat)
    }
}

/// The digits of the fraction and what is left to expand make up the
/// fraction.
proof fn lemma_fraction_value(part: nat, places: nat)
    requires
        part < GIB,
    ensures
        all_digits(gib_fraction(part, places)),
        decimal_value(gib_fraction(part, places)) * GIB + gib_remainder(part, places) == part
            * pow10(gib_fraction(part, places).len()),
    decreases places,
{
    if places == 0 || part == 0 {
        assert(gib_fraction(part, places) =~= Seq::<char>::empty());
        assert(decimal_value(Seq::<char>::empty()) == 0);
        assert(pow10(0) == 1);
        assert(part * pow10(0) == part) by (nonlinear_arith)
            requires
                pow10(0) == 1,
        ;
    } else {
        let digit = part * 10 / (GIB as nat);
        let left = part * 10 % (GIB as nat);
        let rest = gib_fraction(left, (places - 1) as nat);
        let digits = gib_fraction(part, places);
        lemma_fraction_value(left, (places - 1) as nat);
        lemma_digit_reads_back(digit);
        lemma_leading_digit(digit_char(digit), rest);
        assert(digits == seq![digit_char(digit)] + rest);
        assert forall|i: int| 0 <= i < digits.len() implies is_digit(#[trigger] digits[i]) by {
            if i > 0 {
                assert(digits[i] == rest[i - 1]);
            }
        }
        assert(pow10(digits.len()) == 10 * pow10(rest.len()));
        assert(part * 10 == digit * GIB + left);
        assert(decimal_value(digits) == digit * pow10(rest.len()) + decimal_value(rest));
        assert(gib_remainder(part, places) == gib_remainder(left, (places - 1) as nat));
        assert((digit * pow10(rest.len()) + decimal_value(rest)) * GIB + gib_remainder(
            left,
            (places - 1) as nat,
        ) == part * (10 * pow10(rest.len()))) by (nonlinear_arith)
            requires
                decimal_value(rest) * GIB + gib_remainder(left, (places - 1) as nat) == left
                    * pow10(rest.len()),
                part * 10 == digit * GIB + left,
        ;
        assert(part * pow10(digits.len()) == part * (10 * pow10(rest.len())));
    }
}

/// Each digit of the expansion doubles the power of two that divides what
/// is left, so that after thirty digits nothing is left.
proof fn lemma_remainder_vanishes(part: nat, places: nat, k: nat)
    requires
        part < GIB,
        k <= 30,
        part % pow2(k) == 0,
        places + k >= 30,
    ensures
        gib_remainder(part, places) == 0,
    decreases places,
{
    lemma2_to64();
    if part == 0 {
    } else if k == 30 {
        assert(part % (GIB as nat) == part);
    } else if places == 0 {
    } else {
        let low = pow2(k + 1);
        let high = pow2((29 - k) as nat);
        lemma_pow2_pos(k);
        lemma_pow2_pos(k + 1);
        lemma_pow2_pos((29 - k) as nat);
        lemma_pow2_adds(k + 1, (29 - k) as nat);
        lemma_pow2_adds(k, 1);
        assert(low * high == GIB);
        assert(low == pow2(k) * 2);
        let q = part as int / pow2(k) as int;
        lemma_fundamental_div_mod(part as int, pow2(k) as int);
        assert(part == pow2(k) * q);
        assert(part * 10 == (5 * q) * low) by (nonlinear_arith)
            requires
                part == pow2(k) * q,
                low == pow2(k) * 2,
        ;
        lemma_mod_multiples_basic(5 * q, low as int);
        lemma_mod_mod((part * 10) as int, low as int, high as int);
        let left = part * 10 % (GIB as nat);
        assert(left % low == 0);
        lemma_remainder_vanishes(left, (places - 1) as nat, k + 1);
    }
}

/// The writing in GiB is exact: the digits after the point, read as a
/// number, are to that power of ten as the part of a GiB is to a whole GiB.
/// Thirty digits are always enough, so nothing of an offset is lost in
/// writing it.
pub proof fn gib_fraction_is_exact(part: nat)
    requires
        part < GIB,
    ensures
        all_digits(gib_fraction(part, 30)),
        gib_fraction(part, 30).len() <= 30,
        decimal_value(gib_fraction(part, 30)) * GIB == part * pow10(gib_fraction(part, 30).len()),
{
    lemma_fraction_value(part, 30);
    assert(part % pow2(0) == 0) by {
        lemma2_to64();
    }
    lemma_remainder_vanishes(part, 30, 0);
    lemma_fraction_len(part, 30);
}

/// The expansion has no more digits than it has places.
proof fn lemma_fraction_len(part: nat, places: nat)
    ensures
        gib_fraction(part, places).len() <= places,
    decreases places,
{
    if places > 0 && part > 0 {
        lemma_fraction_len(part * 10 % (GIB as nat), (places - 1) as nat);
    }
}

} // verus!
