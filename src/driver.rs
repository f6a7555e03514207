//! Start-up decisions of the driver: which model, monitor and extra ROMs the
//! command line names, which mouse mode it selects, and which floppy drive
//! an image goes to.

use crate::input::MouseMode;
use vstd::prelude::*;
use vstd::string::StringExecFns;

verus! {

/// The emulated Macintosh model.
#[derive(Clone, Copy, Debug, PartialEq, Eq, Structural)]
pub enum MacModel {
    Early128K,
    Early512K,
    Early512Ke,
    Plus,
    SE,
    MacII,
    MacIIx,
    MacIIcx,
    SE30,
    Classic,
}

/// The monitor attached to a model with video cards.
#[derive(Clone, Copy, Debug, PartialEq, Eq, Structural)]
pub enum MacMonitor {
    RGB12,
    HiRes14,
    RGB21,
    PortraitBW,
}

/// The slot that an extra ROM image fills.
#[derive(Clone, Copy, Debug, PartialEq, Eq, Structural)]
pub enum ExtraRomKind {
    MDC12,
    SE30Video,
    ExtensionROM,
}

/// The model that a Gestalt identifier stands for.
pub open spec fn gestalt_model(gestalt_id: u32) -> Option<MacModel> {
    if gestalt_id == 1 {
        Some(MacModel::Early128K)
    } else if gestalt_id == 2 {
        Some(MacModel::Early512K)
    } else if gestalt_id == 3 {
        Some(MacModel::Early512Ke)
    } else if gestalt_id == 4 {
        Some(MacModel::Plus)
    } else if gestalt_id == 5 {
        Some(MacModel::SE)
    } else if gestalt_id == 6 {
        Some(MacModel::MacII)
    } else if gestalt_id == 7 {
        Some(MacModel::MacIIx)
    } else if gestalt_id == 8 {
        Some(MacModel::MacIIcx)
    } else if gestalt_id == 9 {
        Some(MacModel::SE30)
    } else if gestalt_id == 17 {
        Some(MacModel::Classic)
    } else {
        None
    }
}

/// Looks up the model for a Gestalt identifier; `None` for an unknown one.
pub fn model_from_gestalt(gestalt_id: u32) -> (r: Option<MacModel>)
    ensures
        r == gestalt_model(gestalt_id),
{
    match gestalt_id {
        1 => Some(MacModel::Early128K),
        2 => Some(MacModel::Early512K),
        3 => Some(MacModel::Early512Ke),
        4 => Some(MacModel::Plus),
        5 => Some(MacModel::SE),
        6 => Some(MacModel::MacII),
        7 => Some(MacModel::MacIIx),
        8 => Some(MacModel::MacIIcx),
        9 => Some(MacModel::SE30),
        17 => Some(MacModel::Classic),
        _ => None,
    }
}

fn is(a: &String, b: &str) -> (r: bool)
    ensures
        r == (a@ == b@),
{
    let other = String::from_str(b);
    a.eq(&other)
}

/// The monitor that a command-line keyword names; `None` for an unknown one.
pub fn monitor_from_id(id: &String) -> (r: Option<MacMonitor>)
    ensures
        r == if id@ == "RGB12"@ {
            Some(MacMonitor::RGB12)
        } else if id@ == "HiRes14"@ {
            Some(MacMonitor::HiRes14)
        } else if id@ == "RGB21"@ {
            Some(MacMonitor::RGB21)
        } else if id@ == "PortraitBW"@ {
            Some(MacMonitor::PortraitBW)
        } else {
            None
        },
{
    if is(id, "RGB12") {
        Some(MacMonitor::RGB12)
    } else if is(id, "HiRes14") {
        Some(MacMonitor::HiRes14)
    } else if is(id, "RGB21") {
        Some(MacMonitor::RGB21)
    } else if is(id, "PortraitBW") {
        Some(MacMonitor::PortraitBW)
    } else {
        None
    }
}

/// The slot that an extra ROM file name fills; `None` for an unknown name.
pub fn extra_rom_from_name(name: &String) -> (r: Option<ExtraRomKind>)
    ensures
        r == if name@ == "mac-ii-display-card-8-24.rom"@ {
            Some(ExtraRomKind::MDC12)
        } else if name@ == "se30-video.rom"@ {
            Some(ExtraRomKind::SE30Video)
        } else if name@ == "extension.rom"@ {
            Some(ExtraRomKind::ExtensionROM)
        } else {
            None
        },
{
    if is(name, "mac-ii-display-card-8-24.rom") {
        Some(ExtraRomKind::MDC12)
    } else if is(name, "se30-video.rom") {
        Some(ExtraRomKind::SE30Video)
    } else if is(name, "extension.rom") {
        Some(ExtraRomKind::ExtensionROM)
    } else {
        None
    }
}

/// Host deltas where asked for, absolute positions otherwise.
pub fn mouse_mode_for(use_mouse_deltas: bool) -> (r: MouseMode)
    ensures
        r == if use_mouse_deltas {
            MouseMode::RelativeHw
        } else {
            MouseMode::Absolute
        },
{
    if use_mouse_deltas {
        MouseMode::RelativeHw
    } else {
        MouseMode::Absolute
    }
}

/// The number of floppy drives.
pub const MAX_FLOPPY_DRIVES: usize = 3;

/// The floppy drives that images have been inserted into, filled in order.
pub struct FloppyDrives {
    next: usize,
}

impl View for FloppyDrives {
    type V = nat;

    closed spec fn view(&self) -> nat {
        self.next as nat
    }
}

impl FloppyDrives {
    pub closed spec fn wf(&self) -> bool {
        self.next <= MAX_FLOPPY_DRIVES
    }

    /// No drive filled yet.
    pub fn new() -> (r: Self)
        ensures
            r.wf(),
            r@ == 0,
    {
        FloppyDrives { next: 0 }
    }

    /// The drive the next image goes to, or `None` when all are filled.
    pub fn free_drive(&self) -> (r: Option<usize>)
        requires
            self.wf(),
        ensures
            r == if self@ < 3 {
                Some(self@ as usize)
            } else {
                None::<usize>
            },
    {
        if self.next < MAX_FLOPPY_DRIVES {
            Some(self.next)
        } else {
            None
        }
    }

    /// Records that the core accepted an image for the free drive.
    pub fn mark_inserted(&mut self)
        requires
            old(self).wf(),
            old(self)@ < 3,
        ensures
            final(self).wf(),
            final(self)@ == old(self)@ + 1,
    {
        self.next = self.next + 1;
    }

    /// How many drives are filled.
    pub fn inserted(&self) -> (r: usize)
        ensures
            r as nat == self@,
    {
        self.next
    }
}

/// The drives filled after offering images in turn, where `accepted[i]`
/// says whether the `i`-th image, if offered to a free drive, was loaded and
/// accepted by the core.
pub open spec fn drives_after(accepted: Seq<bool>) -> nat
    decreases accepted.len(),
{
    if accepted.len() == 0 {
        0
    } else {
        let before = drives_after(accepted.drop_last());
        if before < 3 && accepted.last() {
            before + 1
        } else {
            before
        }
    }
}

pub open spec fn count_true(s: Seq<bool>) -> nat
    decreases s.len(),
{
    if s.len() == 0 {
        0
    } else {
        count_true(s.drop_last()) + if s.last() {
            1nat
        } else {
            0nat
        }
    }
}

/// However many floppy images are named, at most three are inserted: the
/// first three that load and are accepted.
pub proof fn lemma_floppy_cap(accepted: Seq<bool>)
    ensures
        drives_after(accepted) <= 3,
        drives_after(accepted) == if count_true(accepted) < 3 {
            count_true(accepted)
        } else {
            3
        },
    decreases accepted.len(),
{
    if accepted.len() > 0 {
        lemma_floppy_cap(accepted.drop_last());
    }
}

} // verus!
