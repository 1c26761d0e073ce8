//! The pool and dataset builder: the root pool, its dataset hierarchy and
//! the blank snapshot of the root dataset.
//!
//! The hierarchy under a pool `P`:
//!
//! ```text
//! P/root            container, carries the inherited properties, not mounted
//! P/root/eyd        container of what is erased on rollback, not mounted
//! P/root/eyd/root   mounted at /, snapshot `blank` taken when created
//! P/root/nix        mounted at /nix
//! P/root/home       mounted at /home
//! P/root/per        mounted at /per
//! ```

use crate::command::{run_command, strict_run, Policy, Step, StepView};
use crate::text::join2;
use vstd::prelude::*;

verus! {

/// The container dataset that holds every other dataset of the pool.
pub open spec fn container_dataset(pool: Seq<char>) -> Seq<char> {
    pool + "/root"@
}

/// The container of the datasets that a rollback erases.
pub open spec fn erased_dataset(pool: Seq<char>) -> Seq<char> {
    pool + "/root/eyd"@
}

/// The dataset mounted at `/`.
pub open spec fn root_dataset(pool: Seq<char>) -> Seq<char> {
    pool + "/root/eyd/root"@
}

/// The dataset mounted at `/nix`.
pub open spec fn nix_dataset(pool: Seq<char>) -> Seq<char> {
    pool + "/root/nix"@
}

/// The dataset mounted at `/home`.
pub open spec fn home_dataset(pool: Seq<char>) -> Seq<char> {
    pool + "/root/home"@
}

/// The dataset mounted at `/per`.
pub open spec fn per_dataset(pool: Seq<char>) -> Seq<char> {
    pool + "/root/per"@
}

/// The snapshot of the root dataset in its blank state.
pub open spec fn blank_snapshot(pool: Seq<char>) -> Seq<char> {
    root_dataset(pool) + "@blank"@
}

/// The datasets of a pool, by name.
#[derive(Debug, PartialEq, Eq)]
pub struct DatasetTree {
    /// The container of all other datasets; not mounted.
    pub container: String,
    /// The container of what a rollback erases; not mounted.
    pub erased: String,
    /// The dataset mounted at `/`.
    pub root: String,
    /// The dataset mounted at `/nix`.
    pub nix: String,
    /// The dataset mounted at `/home`.
    pub home: String,
    /// The dataset mounted at `/per`.
    pub per: String,
}

/// The model of a `DatasetTree`.
pub struct DatasetTreeView {
    pub container: Seq<char>,
    pub erased: Seq<char>,
    pub root: Seq<char>,
    pub nix: Seq<char>,
    pub home: Seq<char>,
    pub per: Seq<char>,
}

impl View for DatasetTree {
    type V = DatasetTreeView;

    open spec fn view(&self) -> DatasetTreeView {
        DatasetTreeView {
            container: self.container@,
            erased: self.erased@,
            root: self.root@,
            nix: self.nix@,
            home: self.home@,
            per: self.per@,
        }
    }
}

/// The datasets of the pool `pool`.
pub open spec fn dataset_tree(pool: Seq<char>) -> DatasetTreeView {
    DatasetTreeView {
        container: container_dataset(pool),
        erased: erased_dataset(pool),
        root: root_dataset(pool),
        nix: nix_dataset(pool),
        home: home_dataset(pool),
        per: per_dataset(pool),
    }
}

impl DatasetTree {
    /// The datasets of the pool `pool_name`.
    pub fn of_pool(pool_name: &str) -> (r: DatasetTree)
        ensures
            r@ == dataset_tree(pool_name@),
    {
        DatasetTree {
            container: join2(pool_name, "/root"),
            erased: join2(pool_name, "/root/eyd"),
            root: join2(pool_name, "/root/eyd/root"),
            nix: join2(pool_name, "/root/nix"),
            home: join2(pool_name, "/root/home"),
            per: join2(pool_name, "/root/per"),
        }
    }

    /// The snapshot of the root dataset in its blank state.
    pub fn blank_snapshot(&self) -> (r: String)
        ensures
            r@ == self.root@ + "@blank"@,
    {
        join2(self.root.as_str(), "@blank")
    }
}

/// The step that creates `dataset` with the given mount point property.
pub open spec fn create_dataset_step(mountpoint: Seq<char>, dataset: Seq<char>) -> StepView {
    strict_run("zfs"@, seq!["create"@, "-o"@, mountpoint, dataset])
}

/// The steps that create the pool `pool` on `device`: the pool itself with
/// 4 KiB blocks, the container dataset with the properties that its
/// children inherit, and automatic trim on the pool. Each must succeed.
pub open spec fn pool_steps(device: Seq<char>, pool: Seq<char>) -> Seq<StepView> {
    seq![
        strict_run("zpool"@, seq!["create"@, "-f"@, "-o"@, "ashift=12"@, pool, device]),
        strict_run(
            "zfs"@,
            seq![
                "create"@,
                "-o"@,
                "compression=lz4"@,
                "-o"@,
                "acltype=posixacl"@,
                "-o"@,
                "xattr=sa"@,
                "-o"@,
                "atime=off"@,
                "-o"@,
                "normalization=formD"@,
                "-o"@,
                "mountpoint=none"@,
                container_dataset(pool),
            ],
        ),
        strict_run("zpool"@, seq!["set"@, "autotrim=on"@, pool]),
    ]
}

/// The steps that create the datasets of `pool` under its container: the
/// erased container, the root dataset and at once its blank snapshot, then
/// the datasets that outlive a rollback. Each must succeed.
pub open spec fn dataset_steps(pool: Seq<char>) -> Seq<StepView> {
    seq![
        create_dataset_step("mountpoint=none"@, erased_dataset(pool)),
        create_dataset_step("mountpoint=/"@, root_dataset(pool)),
        strict_run("zfs"@, seq!["snapshot"@, blank_snapshot(pool)]),
        create_dataset_step("mountpoint=/nix"@, nix_dataset(pool)),
        create_dataset_step("mountpoint=/home"@, home_dataset(pool)),
        create_dataset_step("mountpoint=/per"@, per_dataset(pool)),
    ]
}

/// Plans the creation of the pool `pool_name` on `device`.
pub fn create_zfs_pool(device: &str, pool_name: &str) -> (r: Vec<Step>)
    ensures
        r.deep_view() == pool_steps(device@, pool_name@),
{
    let tree = DatasetTree::of_pool(pool_name);
    let mut steps: Vec<Step> = Vec::new();
    steps.push(run_command("zpool", &["create", "-f", "-o", "ashift=12", pool_name, device]));
    steps.push(
        run_command(
            "zfs",
            &[
                "create",
                "-o",
                "compression=lz4",
                "-o",
                "acltype=posixacl",
                "-o",
                "xattr=sa",
                "-o",
                "atime=off",
                "-o",
                "normalization=formD",
                "-o",
                "mountpoint=none",
                tree.container.as_str(),
            ],
        ),
    );
    steps.push(run_command("zpool", &["set", "autotrim=on", pool_name]));
    assert(steps.deep_view() =~~= pool_steps(device@, pool_name@));
    steps
}

/// Plans the creation of the datasets of `pool_name` and of the blank
/// snapshot.
pub fn create_zfs_datasets(pool_name: &str) -> (r: Vec<Step>)
    ensures
        r.deep_view() == dataset_steps(pool_name@),
{
    let tree = DatasetTree::of_pool(pool_name);
    let blank = tree.blank_snapshot();
    let mut steps: Vec<Step> = Vec::new();
    steps.push(run_command("zfs", &["create", "-o", "mountpoint=none", tree.erased.as_str()]));
    steps.push(run_command("zfs", &["create", "-o", "mountpoint=/", tree.root.as_str()]));
    steps.push(run_command("zfs", &["snapshot", blank.as_str()]));
    steps.push(run_command("zfs", &["create", "-o", "mountpoint=/nix", tree.nix.as_str()]));
    steps.push(run_command("zfs", &["create", "-o", "mountpoint=/home", tree.home.as_str()]));
    steps.push(run_command("zfs", &["create", "-o", "mountpoint=/per", tree.per.as_str()]));
    assert(steps.deep_view() =~~= dataset_steps(pool_name@));
    steps
}


/// The blank snapshot is taken as soon as the root dataset exists: the
/// step that creates the root dataset is followed at once by the step that
/// takes its snapshot, before any other dataset is created, and every step
/// must succeed.
pub proof fn snapshot_follows_root(pool: Seq<char>)
    ensures
        dataset_steps(pool)[1] == create_dataset_step("mountpoint=/"@, root_dataset(pool)),
        dataset_steps(pool)[2] == strict_run("zfs"@, seq!["snapshot"@, blank_snapshot(pool)]),
        forall|i: int|
            0 <= i < dataset_steps(pool).len() ==> (#[trigger] dataset_steps(pool)[i]).policy
                == Policy::Strict,
{
}

} // verus!
