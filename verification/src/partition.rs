//! The partition writer: a GPT label and the EFI, root and swap partitions
//! at the boundaries of a plan.

use crate::command::{run_command, strict_run, Step, StepView};
use crate::layout::{format_gib, gib_text, PartitionPlan};
use crate::text::join2;
use vstd::prelude::*;

verus! {

/// A boundary as `parted` reads it: the decimal number of GiB and the unit.
pub open spec fn gib_arg(bytes: int) -> Seq<char> {
    gib_text(bytes) + "GiB"@
}

/// The device node of partition `number` of `disk`.
pub open spec fn partition_path(disk: Seq<char>, number: Seq<char>) -> Seq<char> {
    disk + number
}

/// The steps that write the partition table of `disk`: the label, the EFI
/// partition from 1 MiB to the EFI boundary, its ESP flag, the root
/// partition up to the root boundary and, where the plan has a swap
/// boundary, the swap partition up to it. Each must succeed.
pub open spec fn partition_table_steps(disk: Seq<char>, plan: PartitionPlan) -> Seq<StepView> {
    let efi_end = gib_arg(plan.efi_end as int);
    let root_end = gib_arg(plan.root_end as int);
    let fixed = seq![
        strict_run(
            "parted"@,
            seq!["--script"@, "-s"@, "--align=optimal"@, disk, "mklabel"@, "gpt"@],
        ),
        strict_run(
            "parted"@,
            seq![
                "--script"@,
                "--align=optimal"@,
                disk,
                "mkpart"@,
                "efi"@,
                "fat32"@,
                "1MiB"@,
                efi_end,
            ],
        ),
        strict_run(
            "parted"@,
            seq!["--script"@, "--align=optimal"@, disk, "set"@, "1"@, "esp"@, "on"@],
        ),
        strict_run(
            "parted"@,
            seq!["--script"@, "--align=optimal"@, disk, "mkpart"@, "rpool"@, efi_end, root_end],
        ),
    ];
    match plan.swap_end {
        Some(end) => fixed.push(
            strict_run(
                "parted"@,
                seq![
                    "--script"@,
                    "--align=optimal"@,
                    disk,
                    "mkpart"@,
                    "swap"@,
                    root_end,
                    gib_arg(end as int),
                ],
            ),
        ),
        None => fixed,
    }
}

/// Plans the partition table of `disk` at the boundaries of `plan`.
pub fn create_partition_table(disk: &str, plan: &PartitionPlan) -> (r: Vec<Step>)
    ensures
        r.deep_view() == partition_table_steps(disk@, *plan),
{
    let efi_end = join2(format_gib(plan.efi_end).as_str(), "GiB");
    let root_end = join2(format_gib(plan.root_end).as_str(), "GiB");
    let mut steps: Vec<Step> = Vec::new();
    steps.push(
        run_command("parted", &["--script", "-s", "--align=optimal", disk, "mklabel", "gpt"]),
    );
    steps.push(
        run_command(
            "parted",
            &[
                "--script",
                "--align=optimal",
                disk,
                "mkpart",
                "efi",
                "fat32",
                "1MiB",
                efi_end.as_str(),
            ],
        ),
    );
    steps.push(
        run_command("parted", &["--script", "--align=optimal", disk, "set", "1", "esp", "on"]),
    );
    steps.push(
        run_command(
            "parted",
            &[
                "--script",
                "--align=optimal",
                disk,
                "mkpart",
                "rpool",
                efi_end.as_str(),
                root_end.as_str(),
            ],
        ),
    );
    if let Some(end) = plan.swap_end {
        let swap_end = join2(format_gib(end).as_str(), "GiB");
        steps.push(
            run_command(
                "parted",
                &[
                    "--script",
                    "--align=optimal",
                    disk,
                    "mkpart",
                    "swap",
                    root_end.as_str(),
                    swap_end.as_str(),
                ],
            ),
        );
    }
    assert(steps.deep_view() =~~= partition_table_steps(disk@, *plan));
    steps
}

/// The device node of a partition of `disk`: the disk's path followed by
/// the partition's number.
pub fn partition_device(disk: &str, number: &str) -> (r: String)
    ensures
        r@ == partition_path(disk@, number@),
{
    join2(disk, number)
}

} // verus!
