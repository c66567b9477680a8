use tifflin_syscalls::values::{
    GuiWinFlag, CLASS_CORE_PROCESS, CLASS_CORE_PROTOPROCESS, CLASS_CORE_THISPROCESS,
    CLASS_GUI_GROUP, CLASS_GUI_WIN, CLASS_PROCESS, CLASS_VFS_FILE, CORE_EXITPROCESS,
    CORE_LOGWRITE, CORE_RECVOBJ, CORE_WAIT, EV_GUI_GRP_SHOWHIDE, EV_GUI_WIN_INPUT,
    EV_PROCESS_TERMINATED, GRP_OFS, GROUP_GUI, GROUP_MEM, GUI_BINDGROUP, GUI_NEWWINDOW,
    GUI_WIN_SETFLAG, GUI_WIN_SHOWHIDE, MEM_DEALLOCATE, VFS_OPENDIR, WaitItem,
};

#[test]
fn syscall_numbers_carry_group_and_index() {
    assert_eq!(GRP_OFS, 16);
    assert_eq!(CORE_LOGWRITE, 0);
    assert_eq!(CORE_EXITPROCESS, 1);
    assert_eq!(CORE_WAIT, 5);
    assert_eq!(CORE_RECVOBJ, 6);
    assert_eq!(GUI_BINDGROUP, 0x1_0001);
    assert_eq!(GUI_NEWWINDOW, 0x1_0002);
    assert_eq!(VFS_OPENDIR, 0x2_0002);
    assert_eq!(GUI_NEWWINDOW >> GRP_OFS, GROUP_GUI);
    assert_eq!(MEM_DEALLOCATE >> GRP_OFS, GROUP_MEM);
    assert_eq!(MEM_DEALLOCATE & 0xffff, 2);
}

#[test]
fn class_numbers_are_distinct() {
    let classes = [
        CLASS_PROCESS,
        CLASS_VFS_FILE,
        CLASS_GUI_GROUP,
        CLASS_GUI_WIN,
        CLASS_CORE_THISPROCESS,
        CLASS_CORE_PROTOPROCESS,
    ];
    for i in 0..classes.len() {
        for j in (i + 1)..classes.len() {
            assert_ne!(classes[i], classes[j]);
        }
    }
    assert_eq!(CLASS_CORE_PROCESS, CLASS_PROCESS);
    assert_eq!(GUI_WIN_SETFLAG, GUI_WIN_SHOWHIDE);
}

#[test]
fn event_masks_are_single_bits() {
    for m in [EV_PROCESS_TERMINATED, EV_GUI_GRP_SHOWHIDE, EV_GUI_WIN_INPUT] {
        assert_eq!(m, 1);
        assert_eq!(m.count_ones(), 1);
    }
}

#[test]
fn window_flags_by_number() {
    assert_eq!(GuiWinFlag::from_u8(0), Some(GuiWinFlag::Visible));
    assert_eq!(GuiWinFlag::from_u8(1), Some(GuiWinFlag::Maximised));
    assert_eq!(GuiWinFlag::from_u8(2), None);
    assert_eq!(GuiWinFlag::from_u8(255), None);
}

#[test]
fn wait_item_holds_object_and_flags() {
    let item = WaitItem { object: 7, flags: EV_GUI_WIN_INPUT };
    let copy = item;
    assert_eq!(copy.object, 7);
    assert_eq!(copy.flags, 1);
    assert_eq!(copy, item);
}
