//! Encryption setup: the root and swap partitions wrapped in LUKS volumes,
//! and the swap area on whichever device ends up holding it.
//!
//! The passphrase is asked for by `cryptsetup` itself; the pipeline never
//! sees it.

use crate::command::{run_command, say, say_step, strict_run, Step, StepView};
use crate::text::join2;
use vstd::prelude::*;

verus! {

/// The name under which the encrypted root partition is opened.
pub const ROOT_VOLUME: &'static str = "luks-rpool";

/// The name under which the encrypted swap partition is opened.
pub const SWAP_VOLUME: &'static str = "luks-swap";

/// The device node of the opened volume `name`.
pub open spec fn mapped_path(name: Seq<char>) -> Seq<char> {
    "/dev/mapper/"@ + name
}

/// The steps that format `device` as a LUKS2 volume and open it as `name`.
/// Both must succeed.
pub open spec fn luks_steps(device: Seq<char>, name: Seq<char>) -> Seq<StepView> {
    seq![
        say_step("Please confirm and enter a password for LUKS encryption on "@ + device),
        strict_run("cryptsetup"@, seq!["luksFormat"@, "--type"@, "luks2"@, device]),
        say_step("Please enter the password to open the encrypted device"@),
        strict_run("cryptsetup"@, seq!["luksOpen"@, device, name]),
    ]
}

/// The steps that make `device` a swap area and switch it on. Both must
/// succeed.
pub open spec fn swap_steps(device: Seq<char>) -> Seq<StepView> {
    seq![strict_run("mkswap"@, seq![device]), strict_run("swapon"@, seq![device])]
}

/// Plans the encryption of `device` and its opening as `name`.
pub fn setup_luks_encryption(device: &str, name: &str) -> (r: Vec<Step>)
    ensures
        r.deep_view() == luks_steps(device@, name@),
{
    let notice = join2("Please confirm and enter a password for LUKS encryption on ", device);
    let mut steps: Vec<Step> = Vec::new();
    steps.push(say(notice.as_str()));
    steps.push(run_command("cryptsetup", &["luksFormat", "--type", "luks2", device]));
    steps.push(say("Please enter the password to open the encrypted device"));
    steps.push(run_command("cryptsetup", &["luksOpen", device, name]));
    assert(steps.deep_view() =~~= luks_steps(device@, name@));
    steps
}

/// Plans the swap area on `device`.
pub fn setup_swap(device: &str) -> (r: Vec<Step>)
    ensures
        r.deep_view() == swap_steps(device@),
{
    let mut steps: Vec<Step> = Vec::new();
    steps.push(run_command("mkswap", &[device]));
    steps.push(run_command("swapon", &[device]));
    assert(steps.deep_view() =~~= swap_steps(device@));
    steps
}

/// The device node of the opened volume `name`.
pub fn mapped_device(name: &str) -> (r: String)
    ensures
        r@ == mapped_path(name@),
{
    join2("/dev/mapper/", name)
}

} // verus!
