//! The typed report: instances and the backups recorded for each.

use vstd::prelude::*;

verus! {

/// One recorded backup operation. Every field is display text as the backup
/// tool emitted it; none is interpreted.
#[derive(Debug, Clone, PartialEq, Eq)]
pub struct Backup {
    pub id: String,
    pub recovery_time: String,
    pub backup_mode: String,
    pub status: String,
}

/// What a [`Backup`] holds, as sequences of characters.
pub ghost struct BackupView {
    pub id: Seq<char>,
    pub recovery_time: Seq<char>,
    pub backup_mode: Seq<char>,
    pub status: Seq<char>,
}

impl View for Backup {
    type V = BackupView;

    open spec fn view(&self) -> BackupView {
        BackupView {
            id: self.id@,
            recovery_time: self.recovery_time@,
            backup_mode: self.backup_mode@,
            status: self.status@,
        }
    }
}

/// A backed-up database instance with its backups, in the order in which the
/// backup tool listed them.
#[derive(Debug, Clone, PartialEq, Eq)]
pub struct Instance {
    pub name: String,
    pub backups: Vec<Backup>,
}

/// What an [`Instance`] holds.
pub ghost struct InstanceView {
    pub name: Seq<char>,
    pub backups: Seq<BackupView>,
}

/// The views of a sequence of backups, one for one.
pub open spec fn backup_views(backups: Seq<Backup>) -> Seq<BackupView> {
    Seq::new(backups.len(), |i: int| backups[i]@)
}

impl View for Instance {
    type V = InstanceView;

    open spec fn view(&self) -> InstanceView {
        InstanceView { name: self.name@, backups: backup_views(self.backups@) }
    }
}

/// The views of a sequence of instances, one for one.
pub open spec fn instance_views(instances: Seq<Instance>) -> Seq<InstanceView> {
    Seq::new(instances.len(), |i: int| instances[i]@)
}

/// A parsed status report: the instances in the order of the source text.
#[derive(Debug, Clone, PartialEq, Eq)]
pub struct Report {
    pub instances: Vec<Instance>,
}

impl View for Report {
    type V = Seq<InstanceView>;

    open spec fn view(&self) -> Seq<InstanceView> {
        instance_views(self.instances@)
    }
}

} // verus!
