//! Rendering a report as reply text: one block per instance.

use vstd::prelude::*;
use vstd::string::*;
use crate::model::{Backup, BackupView, Instance, InstanceView, Report};

verus! {

/// The line that is drawn above every backup entry.
pub const DIVIDER: &'static str = "-------------------------------------------------------";

/// The text of one backup entry: the divider, then one labelled line for each
/// of the four fields.
pub open spec fn entry_text(backup: BackupView) -> Seq<char> {
    DIVIDER@ + "\nid: "@ + backup.id + "\nrecovery time: "@ + backup.recovery_time
        + "\nbackup mode: "@ + backup.backup_mode + "\nstatus: "@ + backup.status
}

/// The entries of a sequence of backups, one for one and in the same order.
pub open spec fn entry_texts(backups: Seq<BackupView>) -> Seq<Seq<char>> {
    Seq::new(backups.len(), |i: int| entry_text(backups[i]))
}

/// The parts one after the other, with the separator between each two.
pub open spec fn joined(parts: Seq<Seq<char>>, separator: Seq<char>) -> Seq<char>
    decreases parts.len(),
{
    if parts.len() == 0 {
        Seq::empty()
    } else if parts.len() == 1 {
        parts[0]
    } else {
        joined(parts.drop_last(), separator) + separator + parts.last()
    }
}

/// The header line of a block: the instance's name, set in bold.
pub open spec fn header_text(name: Seq<char>) -> Seq<char> {
    "Instance: <b>"@ + name + "</b>\n"@
}

/// The block of one instance: its header line, then the entries of its
/// backups in their order, one line break between each two.
pub open spec fn block_text(instance: InstanceView) -> Seq<char> {
    header_text(instance.name) + joined(entry_texts(instance.backups), "\n"@)
}

/// The blocks of a report: one for each instance, in the report's order.
pub open spec fn report_blocks(report: Seq<InstanceView>) -> Seq<Seq<char>> {
    Seq::new(report.len(), |i: int| block_text(report[i]))
}

/// The character sequences that a sequence of strings holds, one for one.
pub open spec fn texts(strings: Seq<String>) -> Seq<Seq<char>> {
    Seq::new(strings.len(), |i: int| strings[i]@)
}

/// Renders one backup as an entry.
pub fn format_backup(backup: &Backup) -> (text: String)
    ensures
        text@ == entry_text(backup@),
{
    let mut text = DIVIDER.to_owned();
    text.append("\nid: ");
    text.append(backup.id.as_str());
    text.append("\nrecovery time: ");
    text.append(backup.recovery_time.as_str());
    text.append("\nbackup mode: ");
    text.append(backup.backup_mode.as_str());
    text.append("\nstatus: ");
    text.append(backup.status.as_str());
    text
}

/// Renders one instance as a block.
pub fn format_instance(instance: &Instance) -> (text: String)
    ensures
        text@ == block_text(instance@),
{
    let mut text = "Instance: <b>".to_owned();
    text.append(instance.name.as_str());
    text.append("</b>\n");
    let ghost entries = entry_texts(instance@.backups);
    let mut i: usize = 0;
    while i < instance.backups.len()
        invariant
            i <= instance.backups.len(),
            entries == entry_texts(instance@.backups),
            text@ == header_text(instance@.name) + joined(entries.take(i as int), "\n"@),
        decreases instance.backups.len() - i,
    {
        let entry = format_backup(&instance.backups[i]);
        proof {
            let before = entries.take(i as int);
            let after = entries.take(i + 1);
            assert(after.drop_last() =~= before);
            assert(after.last() == entry@);
        }
        if i > 0 {
            text.append("\n");
        }
        text.append(entry.as_str());
        i += 1;
    }
    assert(entries.take(i as int) =~= entries);
    text
}

/// Renders a report: one block per instance, in the report's order.
pub fn format_report(report: &Report) -> (blocks: Vec<String>)
    ensures
        texts(blocks@) == report_blocks(report@),
{
    let mut blocks: Vec<String> = Vec::new();
    let mut i: usize = 0;
    while i < report.instances.len()
        invariant
            i <= report.instances.len(),
            blocks@.len() == i,
            forall|k: int| 0 <= k < i ==> (#[trigger] blocks@[k])@ == block_text(report@[k]),
        decreases report.instances.len() - i,
    {
        let block = format_instance(&report.instances[i]);
        blocks.push(block);
        i += 1;
    }
    assert(texts(blocks@) =~= report_blocks(report@));
    blocks
}

} // verus!
