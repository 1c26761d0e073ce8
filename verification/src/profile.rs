//! The host profile and the user of the new system, where the caller
//! names none: the profile follows from what the firmware tells of the
//! machine, the user is who runs the pipeline.

use crate::command::{capture_command, capture_run, Policy, Slot, Step, StepView};
use crate::text::{contains, lowercase_of, text_contains, text_of};
use vstd::prelude::*;

verus! {

/// `whoami::username` returns the name of the user that runs the process,
/// or a stand-in where the system does not tell; nothing is known of it
/// beforehand.
pub assume_specification[ whoami::username ]() -> (name: String)
;

/// The profile of a machine that is no laptop.
pub const DESKTOP: &'static str = "desktop";

/// The profile of a Microsoft Surface.
pub const SURFACE: &'static str = "surface";

/// The profile of a Lenovo laptop.
pub const THINKPAD: &'static str = "thinkpad";

/// The profile of any other laptop.
pub const PORTABLE: &'static str = "portable";

/// Whether a chassis type, in lower case, is that of a laptop.
pub open spec fn names_laptop(chassis: Seq<char>) -> bool {
    contains(chassis, "laptop"@) || contains(chassis, "notebook"@)
}

/// The profile of a laptop, from its maker and its product name in lower
/// case.
pub open spec fn laptop_profile(vendor: Seq<char>, product: Seq<char>) -> Seq<char> {
    if contains(vendor, "microsoft"@) || contains(product, "surface"@) {
        SURFACE@
    } else if contains(vendor, "lenovo"@) {
        THINKPAD@
    } else {
        PORTABLE@
    }
}

/// An output in lower case; empty where there is none.
pub open spec fn lowered(output: Option<Seq<char>>) -> Seq<char> {
    match output {
        Some(text) => lowercase_of(text),
        None => Seq::empty(),
    }
}

/// Whether the firmware tells of a laptop: the chassis type was read and
/// names one.
pub open spec fn tells_laptop(chassis: Option<Seq<char>>) -> bool {
    chassis is Some && names_laptop(lowered(chassis))
}

/// The profile that the firmware's answers stand for; `None` stands for a
/// query that failed or was not made.
pub open spec fn detected_profile(
    chassis: Option<Seq<char>>,
    vendor: Option<Seq<char>>,
    product: Option<Seq<char>>,
) -> Seq<char> {
    if tells_laptop(chassis) {
        laptop_profile(lowered(vendor), lowered(product))
    } else {
        DESKTOP@
    }
}

/// The profile to use: the one asked for or, where none was, the one that
/// the firmware's answers stand for.
pub open spec fn chosen_profile(
    asked: Option<Seq<char>>,
    chassis: Option<Seq<char>>,
    vendor: Option<Seq<char>>,
    product: Option<Seq<char>>,
) -> Seq<char> {
    match asked {
        Some(profile) => profile,
        None => detected_profile(chassis, vendor, product),
    }
}

/// The query for the chassis type. Its failure is borne.
pub open spec fn chassis_probe_step() -> StepView {
    capture_run("dmidecode"@, seq!["-s"@, "chassis-type"@], Policy::Lenient, Slot::Chassis)
}

/// The queries for the maker and the product name. Their failure is borne.
pub open spec fn maker_probe_steps() -> Seq<StepView> {
    seq![
        capture_run("dmidecode"@, seq!["-s"@, "system-manufacturer"@], Policy::Lenient, Slot::Vendor),
        capture_run("dmidecode"@, seq!["-s"@, "system-product-name"@], Policy::Lenient, Slot::Product),
    ]
}

/// Tells whether a chassis type, in lower case, is that of a laptop.
pub fn classify_chassis(chassis: &str) -> (r: bool)
    ensures
        r == names_laptop(chassis@),
{
    text_contains(chassis, "laptop") || text_contains(chassis, "notebook")
}

/// The profile of a laptop, from its maker and its product name in lower
/// case.
pub fn classify_laptop(vendor: &str, product: &str) -> (r: String)
    ensures
        r@ == laptop_profile(vendor@, product@),
{
    if text_contains(vendor, "microsoft") || text_contains(product, "surface") {
        SURFACE.to_owned()
    } else if text_contains(vendor, "lenovo") {
        THINKPAD.to_owned()
    } else {
        PORTABLE.to_owned()
    }
}

/// An output in lower case; empty where there is none.
fn lower(output: &Option<String>) -> (r: String)
    ensures
        r@ == lowered(text_of(*output)),
{
    match output {
        Some(text) => text.as_str().to_lowercase(),
        None => String::new(),
    }
}

/// Tells whether the firmware tells of a laptop, from what `dmidecode`
/// printed as the chassis type.
pub fn is_laptop(chassis: &Option<String>) -> (r: bool)
    ensures
        r == tells_laptop(text_of(*chassis)),
{
    match chassis {
        Some(_) => classify_chassis(lower(chassis).as_str()),
        None => false,
    }
}

/// The profile that the firmware's answers stand for.
pub fn detect_profile(
    chassis: &Option<String>,
    vendor: &Option<String>,
    product: &Option<String>,
) -> (r: String)
    ensures
        r@ == detected_profile(text_of(*chassis), text_of(*vendor), text_of(*product)),
{
    if is_laptop(chassis) {
        classify_laptop(lower(vendor).as_str(), lower(product).as_str())
    } else {
        DESKTOP.to_owned()
    }
}

/// The profile to use: `asked` or, where it is `None`, the detected one.
pub fn choose_profile(
    asked: &Option<String>,
    chassis: &Option<String>,
    vendor: &Option<String>,
    product: &Option<String>,
) -> (r: String)
    ensures
        r@ == chosen_profile(
            text_of(*asked),
            text_of(*chassis),
            text_of(*vendor),
            text_of(*product),
        ),
{
    match asked {
        Some(profile) => profile.clone(),
        None => detect_profile(chassis, vendor, product),
    }
}

/// Plans the query for the chassis type.
pub fn chassis_probe() -> (r: Step)
    ensures
        r@ == chassis_probe_step(),
{
    let step = capture_command("dmidecode", &["-s", "chassis-type"], Policy::Lenient, Slot::Chassis);
    assert(step@ =~~= chassis_probe_step());
    step
}

/// Plans the queries for the maker and the product name.
pub fn maker_probes() -> (r: Vec<Step>)
    ensures
        r.deep_view() == maker_probe_steps(),
{
    let mut steps: Vec<Step> = Vec::new();
    steps.push(
        capture_command("dmidecode", &["-s", "system-manufacturer"], Policy::Lenient, Slot::Vendor),
    );
    steps.push(
        capture_command("dmidecode", &["-s", "system-product-name"], Policy::Lenient, Slot::Product),
    );
    assert(steps.deep_view() =~~= maker_probe_steps());
    steps
}

/// The user of the new system: the one asked for or, where none was, the
/// user that runs the pipeline.
pub fn resolve_username(asked: Option<String>) -> (r: String)
    ensures
        asked matches Some(name) ==> r@ == name@,
{
    match asked {
        Some(name) => name,
        None => whoami::username(),
    }
}

} // verus!
