//! Disk geometry: the sector size and the sector count of the disk, read
//! from what `lsblk` and `blockdev` print.

use crate::command::{
    capture_command, capture_run, say, say_step, Failure, FailureView, Policy, Slot, Step,
    StepView,
};
use crate::decimal::{decimal_value, is_u64_text, parse_u64, unsigned_part};
use crate::text::{text_of, trim, trimmed};
use vstd::arithmetic::div_mod::{lemma_fundamental_div_mod, lemma_mod_pos_bound};
use vstd::prelude::*;

verus! {

/// The sector size that is assumed where none can be read.
pub const DEFAULT_SECTOR_SIZE: u64 = 512;

/// What is said when the sector size is assumed.
pub const SECTOR_SIZE_WARNING: &'static str =
    "Warning: Couldn't determine sector size, using default of 512 bytes";

/// A sector size in bytes, never zero, and whether it was assumed for want
/// of a reading.
#[derive(Clone, Copy, Debug, PartialEq, Eq, Structural)]
pub struct SectorSize {
    pub bytes: u64,
    pub assumed: bool,
}

/// The number that a text denotes: an optional plus sign and digits.
pub open spec fn number_of(text: Seq<char>) -> nat {
    decimal_value(unsigned_part(text))
}

/// The sector size that the output of `blockdev --getss` stands for: the
/// number read, or the default where the query failed, printed nothing
/// that reads as a number, or printed zero.
pub open spec fn sector_size_of(output: Option<Seq<char>>) -> SectorSize {
    match output {
        Some(text) => if is_u64_text(trimmed(text)) && number_of(trimmed(text)) > 0 {
            SectorSize { bytes: number_of(trimmed(text)) as u64, assumed: false }
        } else {
            SectorSize { bytes: DEFAULT_SECTOR_SIZE, assumed: true }
        },
        None => SectorSize { bytes: DEFAULT_SECTOR_SIZE, assumed: true },
    }
}

/// Whether the size in bytes is of no use, so that the count of units of
/// 512 bytes has to be asked for: the query failed or printed nothing.
pub open spec fn wants_sector_count(size_output: Option<Seq<char>>) -> bool {
    match size_output {
        Some(text) => trimmed(text).len() == 0,
        None => true,
    }
}

/// The size of the unit in which `blockdev --getsz` counts, whatever the
/// size of the disk's sectors.
pub const COUNT_UNIT: u64 = 512;

/// The size of the disk in bytes.
///
/// Where `lsblk` printed a size in bytes, that size. Otherwise the count
/// that `blockdev --getsz` printed, times the 512 bytes of its unit. A
/// text that does not read as a number is a failure, and so are a missing
/// or empty count and a size beyond 64 bits.
pub open spec fn disk_bytes(
    size_output: Option<Seq<char>>,
    sectors_output: Option<Seq<char>>,
) -> Result<u64, FailureView> {
    if wants_sector_count(size_output) {
        match sectors_output {
            Some(text) => if !is_u64_text(trimmed(text)) {
                Err(FailureView::BadDiskSize { text: trimmed(text) })
            } else if number_of(trimmed(text)) * COUNT_UNIT > u64::MAX {
                Err(FailureView::DiskTooLarge)
            } else {
                Ok((number_of(trimmed(text)) * COUNT_UNIT) as u64)
            },
            None => Err(FailureView::BadDiskSize { text: Seq::empty() }),
        }
    } else {
        let text = trimmed(size_output->0);
        if is_u64_text(text) {
            Ok(number_of(text) as u64)
        } else {
            Err(FailureView::BadDiskSize { text })
        }
    }
}

/// The number of sectors of the disk: its size in bytes divided by the
/// size of a sector, rounded down, whichever query gave the size.
pub open spec fn disk_sectors(
    size_output: Option<Seq<char>>,
    sector_output: Option<Seq<char>>,
    sectors_output: Option<Seq<char>>,
) -> Result<u64, FailureView> {
    match disk_bytes(size_output, sectors_output) {
        Ok(bytes) => Ok((bytes / sector_size_of(sector_output).bytes) as u64),
        Err(failure) => Err(failure),
    }
}

/// The model of the result of `get_disk_size`.
pub open spec fn sectors_view(r: Result<u64, Failure>) -> Result<u64, FailureView> {
    match r {
        Ok(sectors) => Ok(sectors),
        Err(failure) => Err(failure@),
    }
}

/// The queries for the size in bytes and the sector size of `disk`. Their
/// failure is borne.
pub open spec fn geometry_probe_steps(disk: Seq<char>) -> Seq<StepView> {
    seq![
        say_step("Calculating disk layout..."@),
        capture_run(
            "lsblk"@,
            seq!["--bytes"@, "--nodeps"@, "--noheadings"@, "--output"@, "SIZE"@, disk],
            Policy::Lenient,
            Slot::SizeBytes,
        ),
        capture_run("blockdev"@, seq!["--getss"@, disk], Policy::Lenient, Slot::SectorSize),
    ]
}

/// The query for the size of `disk` as a count of units of 512 bytes. It
/// must run.
pub open spec fn sector_count_probe_step(disk: Seq<char>) -> StepView {
    capture_run("blockdev"@, seq!["--getsz"@, disk], Policy::Started, Slot::Sectors)
}

/// Reads the sector size from the output of `blockdev --getss`; `None`
/// stands for a query that failed.
pub fn get_sector_size(output: &Option<String>) -> (r: SectorSize)
    ensures
        r == sector_size_of(text_of(*output)),
        r.bytes > 0,
{
    match output {
        Some(text) => {
            let number = trim(text.as_str());
            match parse_u64(number.as_str()) {
                Some(bytes) => {
                    if bytes > 0 {
                        SectorSize { bytes, assumed: false }
                    } else {
                        SectorSize { bytes: DEFAULT_SECTOR_SIZE, assumed: true }
                    }
                },
                None => SectorSize { bytes: DEFAULT_SECTOR_SIZE, assumed: true },
            }
        },
        None => SectorSize { bytes: DEFAULT_SECTOR_SIZE, assumed: true },
    }
}

/// Tells whether the count of units of 512 bytes has to be asked for.
pub fn needs_sector_count(size_output: &Option<String>) -> (r: bool)
    ensures
        r == wants_sector_count(text_of(*size_output)),
{
    match size_output {
        Some(text) => trim(text.as_str()).as_str().unicode_len() == 0,
        None => true,
    }
}

/// Reads the size of the disk in bytes from the outputs of `lsblk --bytes`
/// and `blockdev --getsz`; `None` stands for a query that failed or was
/// not made.
pub fn get_disk_bytes(size_output: &Option<String>, sectors_output: &Option<String>) -> (r: Result<
    u64,
    Failure,
>)
    ensures
        sectors_view(r) == disk_bytes(text_of(*size_output), text_of(*sectors_output)),
{
    if needs_sector_count(size_output) {
        match sectors_output {
            Some(text) => {
                let number = trim(text.as_str());
                match parse_u64(number.as_str()) {
                    Some(count) => match count.checked_mul(COUNT_UNIT) {
                        Some(bytes) => Ok(bytes),
                        None => Err(Failure::DiskTooLarge),
                    },
                    None => Err(Failure::BadDiskSize { text: number }),
                }
            },
            None => Err(Failure::BadDiskSize { text: String::new() }),
        }
    } else {
        match size_output {
            Some(text) => {
                let number = trim(text.as_str());
                match parse_u64(number.as_str()) {
                    Some(bytes) => Ok(bytes),
                    None => Err(Failure::BadDiskSize { text: number }),
                }
            },
            None => Err(Failure::BadDiskSize { text: String::new() }),
        }
    }
}

/// Reads the number of sectors of the disk from the outputs of
/// `lsblk --bytes`, `blockdev --getss` and `blockdev --getsz`; `None`
/// stands for a query that failed or was not made.
pub fn get_disk_size(
    size_output: &Option<String>,
    sector_output: &Option<String>,
    sectors_output: &Option<String>,
) -> (r: Result<u64, Failure>)
    ensures
        sectors_view(r) == disk_sectors(
            text_of(*size_output),
            text_of(*sector_output),
            text_of(*sectors_output),
        ),
{
    let bytes = get_disk_bytes(size_output, sectors_output)?;
    let sector = get_sector_size(sector_output);
    Ok(bytes / sector.bytes)
}

/// The sectors of a disk are those that fit in its size: where the disk
/// holds `bytes` bytes, whichever query told so, and a sector holds `size`
/// bytes, the number of sectors `n` is `bytes / size` rounded down, so that
/// `n * size <= bytes < (n + 1) * size`. The capacity that the layout is
/// made for, `n * size`, is therefore never more than the disk's size and
/// less than one sector short of it.
pub proof fn sectors_fit_the_disk(
    size_output: Option<Seq<char>>,
    sector_output: Option<Seq<char>>,
    sectors_output: Option<Seq<char>>,
)
    requires
        disk_bytes(size_output, sectors_output) is Ok,
    ensures
        ({
            let bytes = disk_bytes(size_output, sectors_output)->Ok_0;
            let size = sector_size_of(sector_output).bytes;
            let n = disk_sectors(size_output, sector_output, sectors_output)->Ok_0;
            &&& size > 0
            &&& disk_sectors(size_output, sector_output, sectors_output) is Ok
            &&& n == bytes / size
            &&& n * size <= bytes < (n + 1) * size
            &&& wants_sector_count(size_output) ==> bytes == number_of(
                trimmed(sectors_output->0),
            ) * COUNT_UNIT
            &&& !wants_sector_count(size_output) ==> bytes == number_of(trimmed(size_output->0))
        }),
{
    let bytes = disk_bytes(size_output, sectors_output)->Ok_0 as int;
    let size = sector_size_of(sector_output).bytes as int;
    lemma_fundamental_div_mod(bytes, size);
    lemma_mod_bound(bytes, size);
    assert((bytes / size + 1) * size == size * (bytes / size) + size) by (nonlinear_arith);
    assert((bytes / size) * size == size * (bytes / size)) by (nonlinear_arith);
    lemma_div_bound(bytes, size);
}

/// A quotient of a number by a positive one lies between zero and the
/// number.
proof fn lemma_div_bound(x: int, d: int)
    requires
        0 <= x,
        0 < d,
    ensures
        0 <= x / d <= x,
{
    lemma_fundamental_div_mod(x, d);
    lemma_mod_bound(x, d);
    assert(0 <= x / d <= x) by (nonlinear_arith)
        requires
            x == d * (x / d) + (x % d),
            0 <= x % d < d,
            0 <= x,
            0 < d,
    ;
}

/// The remainder of a number that is not negative by a positive one lies
/// below the latter.
proof fn lemma_mod_bound(x: int, d: int)
    requires
        0 <= x,
        0 < d,
    ensures
        0 <= x % d < d,
{
    lemma_mod_pos_bound(x, d);
}

/// The disk to provision with its geometry.
#[derive(Debug, PartialEq, Eq)]
pub struct DiskTarget {
    /// The path of the block device.
    pub path: String,
    /// The number of sectors.
    pub sectors: u64,
    /// The size of a sector.
    pub sector_size: SectorSize,
}

/// The model of a `DiskTarget`.
pub struct DiskTargetView {
    pub path: Seq<char>,
    pub sectors: u64,
    pub sector_size: SectorSize,
}

impl View for DiskTarget {
    type V = DiskTargetView;

    open spec fn view(&self) -> DiskTargetView {
        DiskTargetView { path: self.path@, sectors: self.sectors, sector_size: self.sector_size }
    }
}

/// The disk at `path` with the geometry that the three queries stand for,
/// or the failure to read its size.
pub open spec fn disk_target(
    path: Seq<char>,
    size_output: Option<Seq<char>>,
    sector_output: Option<Seq<char>>,
    sectors_output: Option<Seq<char>>,
) -> Result<DiskTargetView, FailureView> {
    match disk_sectors(size_output, sector_output, sectors_output) {
        Ok(sectors) => Ok(
            DiskTargetView { path, sectors, sector_size: sector_size_of(sector_output) },
        ),
        Err(failure) => Err(failure),
    }
}

/// The model of a measured disk or the failure to measure it.
pub open spec fn target_view(r: Result<DiskTarget, Failure>) -> Result<
    DiskTargetView,
    FailureView,
> {
    match r {
        Ok(target) => Ok(target@),
        Err(failure) => Err(failure@),
    }
}

impl DiskTarget {
    /// A sector is not empty.
    pub open spec fn well_formed(&self) -> bool {
        self.sector_size.bytes > 0
    }

    /// The capacity of the disk in bytes: its sectors times their size.
    pub open spec fn capacity(&self) -> int {
        self.sectors * self.sector_size.bytes
    }

    /// Measures the disk at `path` from the outputs of `lsblk --bytes`,
    /// `blockdev --getss` and `blockdev --getsz`; `None` stands for a query
    /// that failed or was not made.
    pub fn measure(
        path: &str,
        size_output: &Option<String>,
        sector_output: &Option<String>,
        sectors_output: &Option<String>,
    ) -> (r: Result<DiskTarget, Failure>)
        ensures
            target_view(r) == disk_target(
                path@,
                text_of(*size_output),
                text_of(*sector_output),
                text_of(*sectors_output),
            ),
            r matches Ok(target) ==> target.well_formed(),
    {
        let sectors = get_disk_size(size_output, sector_output, sectors_output)?;
        Ok(
            DiskTarget {
                path: path.to_owned(),
                sectors,
                sector_size: get_sector_size(sector_output),
            },
        )
    }

    /// The capacity of the disk in bytes, unless it is beyond 64 bits.
    pub fn capacity_bytes(&self) -> (r: Option<u64>)
        ensures
            r is Some <==> self.capacity() <= u64::MAX,
            r matches Some(bytes) ==> bytes == self.capacity(),
    {
        self.sectors.checked_mul(self.sector_size.bytes)
    }
}

/// Plans the queries for the size in bytes and the sector size of `disk`.
pub fn geometry_probes(disk: &str) -> (r: Vec<Step>)
    ensures
        r.deep_view() == geometry_probe_steps(disk@),
{
    let mut steps: Vec<Step> = Vec::new();
    steps.push(say("Calculating disk layout..."));
    steps.push(
        capture_command(
            "lsblk",
            &["--bytes", "--nodeps", "--noheadings", "--output", "SIZE", disk],
            Policy::Lenient,
            Slot::SizeBytes,
        ),
    );
    steps.push(capture_command("blockdev", &["--getss", disk], Policy::Lenient, Slot::SectorSize));
    assert(steps.deep_view() =~~= geometry_probe_steps(disk@));
    steps
}

/// Plans the query for the size of `disk` as a count of units of 512
/// bytes.
pub fn sector_count_probe(disk: &str) -> (r: Step)
    ensures
        r@ == sector_count_probe_step(disk@),
{
    let step = capture_command("blockdev", &["--getsz", disk], Policy::Started, Slot::Sectors);
    assert(step@ =~~= sector_count_probe_step(disk@));
    step
}

} // verus!
