//! Numbers shared by the kernel and user space: system calls, object classes,
//! the methods of each class and the events that can be waited on; and the
//! records that cross the system call boundary.
use vstd::prelude::*;

verus! {

/// Bit offset of the group number inside a system call number.
pub const GRP_OFS: usize = 16;

// ---------------------------------------------------------------------------
// System call numbers: `(group << GRP_OFS) | index`
// ---------------------------------------------------------------------------

/// Core system calls, mostly thread management
pub const GROUP_CORE: u32 = 0;
/// Write a logging message
pub const CORE_LOGWRITE: u32 = (GROUP_CORE << GRP_OFS) | 0;
/// Terminate the current process
pub const CORE_EXITPROCESS: u32 = (GROUP_CORE << GRP_OFS) | 1;
/// Terminate the current thread
pub const CORE_EXITTHREAD: u32 = (GROUP_CORE << GRP_OFS) | 2;
/// Start a new process (loader only, use loader API instead)
pub const CORE_STARTPROCESS: u32 = (GROUP_CORE << GRP_OFS) | 3;
/// Start a new thread in the current process
pub const CORE_STARTTHREAD: u32 = (GROUP_CORE << GRP_OFS) | 4;
/// Wait for any of a set of events
pub const CORE_WAIT: u32 = (GROUP_CORE << GRP_OFS) | 5;
/// Fetch a handle to the 'n'th object of the specified class that hasn't been claimed
pub const CORE_RECVOBJ: u32 = (GROUP_CORE << GRP_OFS) | 6;

/// GUI System calls
pub const GROUP_GUI: u32 = 1;
/// Create a new GUI group/session (requires capability, init only usually)
pub const GUI_NEWGROUP: u32 = (GROUP_GUI << GRP_OFS) | 0;
/// Set the passed group object to be the controlling group for this process
pub const GUI_BINDGROUP: u32 = (GROUP_GUI << GRP_OFS) | 1;
/// Create a new window in the current group
pub const GUI_NEWWINDOW: u32 = (GROUP_GUI << GRP_OFS) | 2;

/// VFS Access
pub const GROUP_VFS: u32 = 2;
pub const VFS_OPENNODE: u32 = (GROUP_VFS << GRP_OFS) | 0;
pub const VFS_OPENFILE: u32 = (GROUP_VFS << GRP_OFS) | 1;
pub const VFS_OPENDIR: u32 = (GROUP_VFS << GRP_OFS) | 2;

/// Process memory management
pub const GROUP_MEM: u32 = 3;
pub const MEM_ALLOCATE: u32 = (GROUP_MEM << GRP_OFS) | 0;
pub const MEM_REPROTECT: u32 = (GROUP_MEM << GRP_OFS) | 1;
pub const MEM_DEALLOCATE: u32 = (GROUP_MEM << GRP_OFS) | 2;

/// The system call number of call `index` in group `group`.
pub open spec fn syscall_number(group: u32, index: u32) -> u32 {
    (group << GRP_OFS) | index
}

/// Every defined system call, as (number, group, index within the group).
pub open spec fn syscall_table() -> Seq<(u32, u32, u32)> {
    seq![
        (CORE_LOGWRITE, GROUP_CORE, 0u32),
        (CORE_EXITPROCESS, GROUP_CORE, 1u32),
        (CORE_EXITTHREAD, GROUP_CORE, 2u32),
        (CORE_STARTPROCESS, GROUP_CORE, 3u32),
        (CORE_STARTTHREAD, GROUP_CORE, 4u32),
        (CORE_WAIT, GROUP_CORE, 5u32),
        (CORE_RECVOBJ, GROUP_CORE, 6u32),
        (GUI_NEWGROUP, GROUP_GUI, 0u32),
        (GUI_BINDGROUP, GROUP_GUI, 1u32),
        (GUI_NEWWINDOW, GROUP_GUI, 2u32),
        (VFS_OPENNODE, GROUP_VFS, 0u32),
        (VFS_OPENFILE, GROUP_VFS, 1u32),
        (VFS_OPENDIR, GROUP_VFS, 2u32),
        (MEM_ALLOCATE, GROUP_MEM, 0u32),
        (MEM_REPROTECT, GROUP_MEM, 1u32),
        (MEM_DEALLOCATE, GROUP_MEM, 2u32),
    ]
}

/// Each system call number is `(group << GRP_OFS) | index`, so the kernel
/// recovers the group from the high bits and the index from the low ones.
pub proof fn lemma_syscall_numbers_decode()
    ensures
        forall|i: int|
            0 <= i < syscall_table().len() ==> {
                let (n, g, x) = #[trigger] syscall_table()[i];
                &&& n == syscall_number(g, x)
                &&& n >> GRP_OFS == g
                &&& n & 0xffff == x
            },
{
    assert(
        CORE_LOGWRITE >> 16usize == 0u32 && CORE_LOGWRITE & 0xffff == 0u32
        && CORE_EXITPROCESS >> 16usize == 0u32 && CORE_EXITPROCESS & 0xffff == 1u32
        && CORE_EXITTHREAD >> 16usize == 0u32 && CORE_EXITTHREAD & 0xffff == 2u32
        && CORE_STARTPROCESS >> 16usize == 0u32 && CORE_STARTPROCESS & 0xffff == 3u32
        && CORE_STARTTHREAD >> 16usize == 0u32 && CORE_STARTTHREAD & 0xffff == 4u32
        && CORE_WAIT >> 16usize == 0u32 && CORE_WAIT & 0xffff == 5u32
        && CORE_RECVOBJ >> 16usize == 0u32 && CORE_RECVOBJ & 0xffff == 6u32
        && GUI_NEWGROUP >> 16usize == 1u32 && GUI_NEWGROUP & 0xffff == 0u32
        && GUI_BINDGROUP >> 16usize == 1u32 && GUI_BINDGROUP & 0xffff == 1u32
        && GUI_NEWWINDOW >> 16usize == 1u32 && GUI_NEWWINDOW & 0xffff == 2u32
        && VFS_OPENNODE >> 16usize == 2u32 && VFS_OPENNODE & 0xffff == 0u32
        && VFS_OPENFILE >> 16usize == 2u32 && VFS_OPENFILE & 0xffff == 1u32
        && VFS_OPENDIR >> 16usize == 2u32 && VFS_OPENDIR & 0xffff == 2u32
        && MEM_ALLOCATE >> 16usize == 3u32 && MEM_ALLOCATE & 0xffff == 0u32
        && MEM_REPROTECT >> 16usize == 3u32 && MEM_REPROTECT & 0xffff == 1u32
        && MEM_DEALLOCATE >> 16usize == 3u32 && MEM_DEALLOCATE & 0xffff == 2u32
    ) by (bit_vector);
    assert forall|i: int| 0 <= i < syscall_table().len() implies {
        let (n, g, x) = #[trigger] syscall_table()[i];
        &&& n == syscall_number(g, x)
        &&& n >> GRP_OFS == g
        &&& n & 0xffff == x
    } by {
    }
}


/// No two system calls share a number.
pub proof fn lemma_syscall_numbers_distinct()
    ensures
        forall|i: int, j: int|
            0 <= i < j < syscall_table().len() ==> (#[trigger] syscall_table()[i]).0
                != (#[trigger] syscall_table()[j]).0,
{
    lemma_syscall_numbers_decode();
    assert forall|i: int, j: int|
        0 <= i < j < syscall_table().len() implies (#[trigger] syscall_table()[i]).0
            != (#[trigger] syscall_table()[j]).0 by {
        let (n1, g1, x1) = syscall_table()[i];
        let (n2, g2, x2) = syscall_table()[j];
        assert(n1 >> GRP_OFS == g1 && n1 & 0xffff == x1);
        assert(n2 >> GRP_OFS == g2 && n2 & 0xffff == x2);
        assert(g1 != g2 || x1 != x2);
    }
}

// ---------------------------------------------------------------------------
// Object classes, their methods and their events
// ---------------------------------------------------------------------------

/// Handle to a spawned process, used to communicate with it
pub const CLASS_PROCESS: u16 = 0;
/// Opened file
pub const CLASS_VFS_FILE: u16 = 1;
/// GUI Group/Session
pub const CLASS_GUI_GROUP: u16 = 2;
/// Window
pub const CLASS_GUI_WIN: u16 = 3;
/// The calling process itself (its object handle for IPC)
pub const CLASS_CORE_THISPROCESS: u16 = 4;
/// A process that has been created but whose first thread has not started
pub const CLASS_CORE_PROTOPROCESS: u16 = 5;
/// The class that the process objects of the thread calls answer to.
pub const CLASS_CORE_PROCESS: u16 = CLASS_PROCESS;

/// Request that the process be terminated
pub const CORE_PROCESS_KILL: u16 = 0;
/// Give the process one of this process's objects
pub const CORE_PROCESS_SENDOBJ: u16 = 1;
/// Send a message to the object
pub const CORE_PROCESS_SENDMSG: u16 = 2;

/// Read data from the specified position in the file
pub const VFS_FILE_READAT: u16 = 0;
/// Write to the specified position in the file
pub const VFS_FILE_WRITEAT: u16 = 1;
/// Map part of the file into the current address space
pub const VFS_FILE_MEMMAP: u16 = 2;

/// Force this group to be the active one (requires permission)
pub const GUI_GRP_FORCEACTIVE: u16 = 0;

/// Set the show/hide state of the window
pub const GUI_WIN_SHOWHIDE: u16 = 0;
/// Trigger a redraw of the window
pub const GUI_WIN_REDRAW: u16 = 1;
/// Copy data from this process into the window
pub const GUI_WIN_BLITRECT: u16 = 2;
/// Fill a region of the window with the specified colour
pub const GUI_WIN_FILLRECT: u16 = 3;
/// Take the next input event of the window
pub const GUI_WIN_GETEVENT: u16 = 4;
/// Read the window's dimensions
pub const GUI_WIN_GETDIMS: u16 = 5;
/// Resize the window
pub const GUI_WIN_SETDIMS: u16 = 6;
/// Read the window's position
pub const GUI_WIN_GETPOS: u16 = 7;
/// Move the window
pub const GUI_WIN_SETPOS: u16 = 8;
/// Set or clear one of the window's flags (visible, maximised); this is the
/// show/hide call generalised to every flag.
pub const GUI_WIN_SETFLAG: u16 = GUI_WIN_SHOWHIDE;

/// Fetch a handle to an unclaimed object of a class
pub const CORE_THISPROCESS_RECVOBJ: u16 = 0;

/// Give the new process one of this process's objects
pub const CORE_PROTOPROCESS_SENDOBJ: u16 = 0;
/// Start the new process's first thread (consumes the object)
pub const CORE_PROTOPROCESS_START: u16 = 1;

/// Fires when the process has terminated
pub const EV_PROCESS_TERMINATED: u32 = 1 << 0;
/// Fires when the group is shown/hidden
pub const EV_GUI_GRP_SHOWHIDE: u32 = 1 << 0;
/// Fires when the input queue is non-empty
pub const EV_GUI_WIN_INPUT: u32 = 1 << 0;

/// Every class number.
pub open spec fn class_ids() -> Seq<u16> {
    seq![
        CLASS_PROCESS,
        CLASS_VFS_FILE,
        CLASS_GUI_GROUP,
        CLASS_GUI_WIN,
        CLASS_CORE_THISPROCESS,
        CLASS_CORE_PROTOPROCESS,
    ]
}

/// The methods of each class, class by class in the order of `class_ids`.
pub open spec fn class_methods() -> Seq<Seq<u16>> {
    seq![
        seq![CORE_PROCESS_KILL, CORE_PROCESS_SENDOBJ, CORE_PROCESS_SENDMSG],
        seq![VFS_FILE_READAT, VFS_FILE_WRITEAT, VFS_FILE_MEMMAP],
        seq![GUI_GRP_FORCEACTIVE],
        seq![
            GUI_WIN_SETFLAG,
            GUI_WIN_REDRAW,
            GUI_WIN_BLITRECT,
            GUI_WIN_FILLRECT,
            GUI_WIN_GETEVENT,
            GUI_WIN_GETDIMS,
            GUI_WIN_SETDIMS,
            GUI_WIN_GETPOS,
            GUI_WIN_SETPOS,
        ],
        seq![CORE_THISPROCESS_RECVOBJ],
        seq![CORE_PROTOPROCESS_SENDOBJ, CORE_PROTOPROCESS_START],
    ]
}

/// Every event mask, class by class in the order of `class_ids`.
pub open spec fn class_events() -> Seq<Seq<u32>> {
    seq![
        seq![EV_PROCESS_TERMINATED],
        seq![],
        seq![EV_GUI_GRP_SHOWHIDE],
        seq![EV_GUI_WIN_INPUT],
        seq![],
        seq![],
    ]
}

/// Class numbers are not duplicated, nor are method numbers within a class;
/// the event masks of a class are distinct single bits.
pub proof fn lemma_class_numbers_distinct()
    ensures
        class_ids().no_duplicates(),
        class_methods().len() == class_ids().len(),
        class_events().len() == class_ids().len(),
        forall|c: int| 0 <= c < class_methods().len() ==> (#[trigger] class_methods()[c]).no_duplicates(),
        forall|c: int, k: int|
            0 <= c < class_events().len() && 0 <= k < class_events()[c].len() ==> {
                let m = #[trigger] class_events()[c][k];
                m != 0 && m & ((m - 1) as u32) == 0
            },
        forall|c: int| 0 <= c < class_events().len() ==> (#[trigger] class_events()[c]).no_duplicates(),
{
    assert(EV_PROCESS_TERMINATED == 1u32 && EV_GUI_GRP_SHOWHIDE == 1u32 && EV_GUI_WIN_INPUT == 1u32 && 1u32 & 0u32 == 0u32) by (bit_vector);
    assert forall|c: int| 0 <= c < class_methods().len() implies (#[trigger] class_methods()[c]).no_duplicates() by {
    }
    assert forall|c: int| 0 <= c < class_events().len() implies (#[trigger] class_events()[c]).no_duplicates() by {
    }
}

// ---------------------------------------------------------------------------
// Records exchanged with user space
// ---------------------------------------------------------------------------

/// One entry of a wait: the object to watch and the events of it to wait for.
#[derive(Debug, Clone, Copy, PartialEq, Eq)]
pub struct WaitItem {
    pub object: u32,
    pub flags: u32,
}

/// A flag of a window that user space may set or clear.
#[derive(Debug, Clone, Copy, PartialEq, Eq)]
pub enum GuiWinFlag {
    Visible,
    Maximised,
}

impl GuiWinFlag {
    /// The flag with the given number, if there is one.
    pub fn from_u8(v: u8) -> (r: Option<GuiWinFlag>)
        ensures
            r == (if v == 0 {
                Some(GuiWinFlag::Visible)
            } else if v == 1 {
                Some(GuiWinFlag::Maximised)
            } else {
                None::<GuiWinFlag>
            }),
    {
        if v == 0 {
            Some(GuiWinFlag::Visible)
        } else if v == 1 {
            Some(GuiWinFlag::Maximised)
        } else {
            None
        }
    }
}

/// An input event as user space receives it from a window. Key events carry
/// the key code, mouse events the position `(x, y)` and then the movement or
/// the button.
#[derive(Debug, Clone, Copy, PartialEq, Eq)]
pub enum GuiEvent {
    KeyUp(u8),
    KeyDown(u8),
    KeyFire(u8),
    Text(char),
    MouseMove(u32, u32, i16, i16),
    MouseUp(u32, u32, u8),
    MouseDown(u32, u32, u8),
    MouseClick(u32, u32, u8),
    MouseDblClick(u32, u32, u8),
    MouseTriClick(u32, u32, u8),
}

} // verus!
