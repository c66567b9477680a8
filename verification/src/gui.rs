//! GUI system calls: window groups (sessions), windows and their input events.
use vstd::prelude::*;
use vstd::std_specs::convert::FromSpecImpl;

use crate::ObjectHandle;
use crate::values::{
    GuiEvent, GuiWinFlag, CLASS_GUI_GROUP, CLASS_GUI_WIN, EV_GUI_GRP_SHOWHIDE, EV_GUI_WIN_INPUT,
    GUI_GRP_FORCEACTIVE, GUI_WIN_BLITRECT, GUI_WIN_FILLRECT, GUI_WIN_GETDIMS, GUI_WIN_GETEVENT,
    GUI_WIN_GETPOS, GUI_WIN_REDRAW, GUI_WIN_SETDIMS, GUI_WIN_SETFLAG, GUI_WIN_SETPOS,
};


verus! {

// ---------------------------------------------------------------------------
// Input events
// ---------------------------------------------------------------------------

/// An input event as the window manager queues it for a window. Mouse events
/// carry the position `(x, y)`, then the movement, or the button (and, for a
/// click, how many clicks it was).
#[derive(Debug, Clone, Copy, PartialEq, Eq)]
pub enum InputEvent {
    KeyUp(u8),
    KeyDown(u8),
    KeyFire(u8),
    Text(char),
    MouseMove(u32, u32, i16, i16),
    MouseUp(u32, u32, u8),
    MouseDown(u32, u32, u8),
    MouseClick(u32, u32, u8, u8),
}

impl From<InputEvent> for GuiEvent {
    fn from(ev: InputEvent) -> (r: GuiEvent)
        ensures
            ev matches InputEvent::KeyUp(kc) ==> r == GuiEvent::KeyUp(kc),
            ev matches InputEvent::KeyDown(kc) ==> r == GuiEvent::KeyDown(kc),
            ev matches InputEvent::KeyFire(kc) ==> r == GuiEvent::KeyFire(kc),
            ev matches InputEvent::Text(c) ==> r == GuiEvent::Text(c),
            ev matches InputEvent::MouseMove(x, y, dx, dy) ==> r == GuiEvent::MouseMove(x, y, dx, dy),
            ev matches InputEvent::MouseUp(x, y, b) ==> r == GuiEvent::MouseUp(x, y, b),
            ev matches InputEvent::MouseDown(x, y, b) ==> r == GuiEvent::MouseDown(x, y, b),
            ev matches InputEvent::MouseClick(x, y, b, n) ==> r == (if n == 2 {
                GuiEvent::MouseDblClick(x, y, b)
            } else if n == 3 {
                GuiEvent::MouseTriClick(x, y, b)
            } else {
                GuiEvent::MouseClick(x, y, b)
            }),
    {
        match ev {
            InputEvent::KeyUp(kc) => GuiEvent::KeyUp(kc),
            InputEvent::KeyDown(kc) => GuiEvent::KeyDown(kc),
            InputEvent::KeyFire(kc) => GuiEvent::KeyFire(kc),
            InputEvent::Text(c) => GuiEvent::Text(c),
            InputEvent::MouseMove(x, y, dx, dy) => GuiEvent::MouseMove(x, y, dx, dy),
            InputEvent::MouseUp(x, y, btn) => GuiEvent::MouseUp(x, y, btn),
            InputEvent::MouseDown(x, y, btn) => GuiEvent::MouseDown(x, y, btn),
            InputEvent::MouseClick(x, y, btn, count) => {
                if count == 2 {
                    GuiEvent::MouseDblClick(x, y, btn)
                } else if count == 3 {
                    GuiEvent::MouseTriClick(x, y, btn)
                } else {
                    GuiEvent::MouseClick(x, y, btn)
                }
            },
        }
    }
}

/// The user-space event for a queued event: the same kind with the same
/// data, where a double or triple click becomes its own kind and any other
/// click count a single click.
pub open spec fn gui_event_of(ev: InputEvent) -> GuiEvent {
    match ev {
        InputEvent::KeyUp(kc) => GuiEvent::KeyUp(kc),
        InputEvent::KeyDown(kc) => GuiEvent::KeyDown(kc),
        InputEvent::KeyFire(kc) => GuiEvent::KeyFire(kc),
        InputEvent::Text(c) => GuiEvent::Text(c),
        InputEvent::MouseMove(x, y, dx, dy) => GuiEvent::MouseMove(x, y, dx, dy),
        InputEvent::MouseUp(x, y, btn) => GuiEvent::MouseUp(x, y, btn),
        InputEvent::MouseDown(x, y, btn) => GuiEvent::MouseDown(x, y, btn),
        InputEvent::MouseClick(x, y, btn, count) => if count == 2 {
            GuiEvent::MouseDblClick(x, y, btn)
        } else if count == 3 {
            GuiEvent::MouseTriClick(x, y, btn)
        } else {
            GuiEvent::MouseClick(x, y, btn)
        },
    }
}

impl FromSpecImpl<InputEvent> for GuiEvent {
    open spec fn obeys_from_spec() -> bool {
        true
    }

    open spec fn from_spec(ev: InputEvent) -> GuiEvent {
        gui_event_of(ev)
    }
}

/// Converting a queued event keeps its kind and all its data; only a click's
/// count is dropped, after choosing a single, double or triple click by it.
pub proof fn lemma_event_conversion_keeps_data()
    ensures
        forall|k: u8| #[trigger] gui_event_of(InputEvent::KeyUp(k)) == GuiEvent::KeyUp(k),
        forall|k: u8| #[trigger] gui_event_of(InputEvent::KeyDown(k)) == GuiEvent::KeyDown(k),
        forall|k: u8| #[trigger] gui_event_of(InputEvent::KeyFire(k)) == GuiEvent::KeyFire(k),
        forall|c: char| #[trigger] gui_event_of(InputEvent::Text(c)) == GuiEvent::Text(c),
        forall|x: u32, y: u32, dx: i16, dy: i16|
            #[trigger] gui_event_of(InputEvent::MouseMove(x, y, dx, dy)) == GuiEvent::MouseMove(
                x,
                y,
                dx,
                dy,
            ),
        forall|x: u32, y: u32, b: u8| #[trigger] gui_event_of(InputEvent::MouseUp(x, y, b)) == GuiEvent::MouseUp(x, y, b),
        forall|x: u32, y: u32, b: u8|
            #[trigger] gui_event_of(InputEvent::MouseDown(x, y, b)) == GuiEvent::MouseDown(x, y, b),
        forall|x: u32, y: u32, b: u8|
            #[trigger] gui_event_of(InputEvent::MouseClick(x, y, b, 2)) == GuiEvent::MouseDblClick(x, y, b),
        forall|x: u32, y: u32, b: u8|
            #[trigger] gui_event_of(InputEvent::MouseClick(x, y, b, 3)) == GuiEvent::MouseTriClick(x, y, b),
        forall|x: u32, y: u32, b: u8, n: u8|
            n != 2 && n != 3 ==> #[trigger] gui_event_of(InputEvent::MouseClick(x, y, b, n))
                == GuiEvent::MouseClick(x, y, b),
{
}

// ---------------------------------------------------------------------------
// Geometry
// ---------------------------------------------------------------------------

/// A rectangle of a window, in pixels.
#[derive(Debug, Clone, Copy, PartialEq, Eq)]
pub struct Rect {
    pub x: u32,
    pub y: u32,
    pub w: u32,
    pub h: u32,
}

/// The size of a window.
#[derive(Debug, Clone, Copy, PartialEq, Eq)]
pub struct Dims {
    pub w: u32,
    pub h: u32,
}

/// The position of a window.
#[derive(Debug, Clone, Copy, PartialEq, Eq)]
pub struct Pos {
    pub x: u32,
    pub y: u32,
}

/// Two 32-bit values in one 64-bit system call result: `hi` in the upper
/// half, `lo` in the lower.
pub fn pack_pair(hi: u32, lo: u32) -> (r: u64)
    ensures
        r == hi * 0x1_0000_0000 + lo,
        r >> 32u64 == hi,
        r & 0xffff_ffffu64 == lo,
{
    let r: u64 = (hi as u64) << 32u64 | (lo as u64);
    assert(r == hi * 0x1_0000_0000 + lo && r >> 32u64 == hi && r & 0xffff_ffffu64 == lo) by (bit_vector)
        requires
            r == (hi as u64) << 32u64 | (lo as u64),
    ;
    r
}

/// The number of rows that a blit of `data_len` pixels, `w` to a row and
/// rows `stride` pixels apart, covers.
pub open spec fn rows_of_blit(data_len: usize, w: u32, stride: usize) -> u32 {
    if data_len >= w {
        ((((data_len - w) / stride as int) as u32) + 1) as u32
    } else {
        1
    }
}

/// The number of rows that a blit of `data_len` pixels, `w` to a row and
/// rows `stride` pixels apart, covers: a row for the first `w` pixels and one
/// more for each whole `stride` after them (one row where there are fewer
/// than `w`).
pub fn blit_height(data_len: usize, w: u32, stride: usize) -> (h: u32)
    requires
        data_len >= w ==> stride > 0,
        data_len >= w ==> (((data_len - w) / stride as int) as u32) < u32::MAX,
    ensures
        h == rows_of_blit(data_len, w, stride),
{
    if data_len >= w as usize {
        ((data_len - w as usize) / stride) as u32 + 1
    } else {
        1
    }
}

/// The rows that a blit covers hold its data: `h - 1` strides and one row
/// of `w` pixels fit in the data, and one stride more does not.
pub proof fn lemma_blit_height_fits_data(data_len: usize, w: u32, stride: usize)
    requires
        data_len >= w,
        stride > 0,
        (data_len - w) / stride as int <= u32::MAX - 1,
    ensures
        ({
            let h = (((data_len - w) / stride as int) as u32) + 1;
            &&& (h - 1) * stride + w <= data_len
            &&& data_len < h * stride + w
        }),
{
    let q: int = (data_len - w) / stride as int;
    let n: int = data_len - w;
    assert(0 <= q * stride <= n < (q + 1) * stride) by (nonlinear_arith)
        requires
            stride > 0,
            n >= 0,
            q == n / stride as int,
    ;
    assert((q as u32) as int == q);
}

/// The row count of a blit is the exact number of rows that its data
/// covers: where the data holds at least one row of `w` pixels, it is one
/// row plus the number of whole strides after it, so `h - 1` strides and a
/// row fit in the data and one stride more does not; where it holds less
/// than a row, it is one row.
pub proof fn lemma_blit_rows_cover_data(data_len: usize, w: u32, stride: usize)
    ensures
        data_len >= w && stride > 0 && (data_len - w) / stride as int <= u32::MAX - 1 ==> {
            let h = rows_of_blit(data_len, w, stride) as int;
            &&& h == (data_len - w) / stride as int + 1
            &&& (h - 1) * stride + w <= data_len
            &&& data_len < h * stride + w
        },
        data_len < w ==> rows_of_blit(data_len, w, stride) == 1,
{
    if data_len >= w && stride > 0 && (data_len - w) / stride as int <= u32::MAX - 1 {
        let q: int = (data_len - w) / stride as int;
        let n: int = data_len - w;
        assert(0 <= q * stride <= n < (q + 1) * stride) by (nonlinear_arith)
            requires
                stride > 0,
                n >= 0,
                q == n / stride as int,
        ;
        assert((q as u32) as int == q);
        assert(rows_of_blit(data_len, w, stride) as int == q + 1);
    }
}

// ---------------------------------------------------------------------------
// Groups (sessions)
// ---------------------------------------------------------------------------

/// Window group, aka Session
pub struct Group;

impl Group {
    /// The class of group objects.
    pub fn class() -> (c: u16)
        ensures
            c == CLASS_GUI_GROUP,
    {
        CLASS_GUI_GROUP
    }

    /// A method call on a group made by process `pid`. `None` where the
    /// group has no such method; else whether to force the group to be the
    /// active one, and what the call returns: only process 0 may force a
    /// group active, others are told 1.
    pub fn handle_syscall_ref(call: u16, pid: u32) -> (r: Option<(bool, u64)>)
        ensures
            call == GUI_GRP_FORCEACTIVE ==> r == Some(
                if pid == 0 {
                    (true, 0u64)
                } else {
                    (false, 1u64)
                },
            ),
            call != GUI_GRP_FORCEACTIVE ==> r is None,
    {
        if call == GUI_GRP_FORCEACTIVE {
            if pid == 0 {
                Some((true, 0))
            } else {
                Some((false, 1))
            }
        } else {
            None
        }
    }

    /// Binding a wait on a group: no event of a group can be waited on yet,
    /// so nothing is bound.
    pub fn bind_wait(flags: u32) -> (r: u32)
        requires
            flags & EV_GUI_GRP_SHOWHIDE == 0,
        ensures
            r == 0,
    {
        0
    }
}

// ---------------------------------------------------------------------------
// Windows
// ---------------------------------------------------------------------------

/// Window
pub struct Window;

/// The methods of a window.
#[derive(Debug, Clone, Copy, PartialEq, Eq)]
pub enum WindowCall {
    SetFlag,
    Redraw,
    BlitRect,
    FillRect,
    GetEvent,
    GetDims,
    SetDims,
    GetPos,
    SetPos,
}

/// A method call on a window, with its arguments. For a blit, `data_len` is
/// the number of pixels that user space passed and `stride` the distance
/// between the starts of two rows.
#[derive(Debug, Clone, Copy, PartialEq, Eq)]
pub enum WindowRequest {
    SetFlag { flag: GuiWinFlag, is_on: bool },
    Redraw,
    BlitRect { x: u32, y: u32, w: u32, data_len: usize, stride: usize },
    FillRect { x: u32, y: u32, w: u32, h: u32, colour: u32 },
    GetEvent,
    GetDims,
    SetDims { w: u32, h: u32 },
    GetPos,
    SetPos { x: u32, y: u32 },
}

/// What to ask of the window for a call. After `PopEvent` the caller reports
/// the event it got, after `GetDims` and `Resize` the window's size, after
/// `GetPos` and `Move` its position, after the others that it is done.
#[derive(Debug, Clone, Copy, PartialEq, Eq)]
pub enum WindowOp {
    Show,
    Hide,
    Maximise,
    Redraw,
    /// Copy the call's data into `rect`, rows `stride` pixels apart.
    BlitRect { rect: Rect, stride: usize },
    /// Fill `rect` with the ARGB colour `colour`.
    FillRect { rect: Rect, colour: u32 },
    PopEvent,
    GetDims,
    Resize(Dims),
    GetPos,
    Move(Pos),
    /// Nothing to do (a blit of no data).
    Nothing,
}

/// What the window answered to a `WindowOp`.
#[derive(Debug, Clone, Copy, PartialEq, Eq)]
pub enum WindowReport {
    Done,
    Dims(Dims),
    Pos(Pos),
    Event(Option<InputEvent>),
}

/// What a window call gives back to user space.
#[derive(Debug, Clone, Copy, PartialEq, Eq)]
pub enum WindowReply {
    /// Return this value.
    Return(u64),
    /// Write this event to the buffer that user space passed, then return 0.
    Deliver(GuiEvent),
}

/// Whether `report` is the kind of answer that `op` gets.
pub open spec fn report_fits(op: WindowOp, report: WindowReport) -> bool {
    match op {
        WindowOp::PopEvent => report is Event,
        WindowOp::GetDims | WindowOp::Resize(_) => report is Dims,
        WindowOp::GetPos | WindowOp::Move(_) => report is Pos,
        _ => report is Done,
    }
}

impl Window {
    /// The class of window objects.
    pub fn class() -> (c: u16)
        ensures
            c == CLASS_GUI_WIN,
    {
        CLASS_GUI_WIN
    }

    /// The window method with number `call`, if there is one.
    pub fn method(call: u16) -> (r: Option<WindowCall>)
        ensures
            call == GUI_WIN_SETFLAG ==> r == Some(WindowCall::SetFlag),
            call == GUI_WIN_REDRAW ==> r == Some(WindowCall::Redraw),
            call == GUI_WIN_BLITRECT ==> r == Some(WindowCall::BlitRect),
            call == GUI_WIN_FILLRECT ==> r == Some(WindowCall::FillRect),
            call == GUI_WIN_GETEVENT ==> r == Some(WindowCall::GetEvent),
            call == GUI_WIN_GETDIMS ==> r == Some(WindowCall::GetDims),
            call == GUI_WIN_SETDIMS ==> r == Some(WindowCall::SetDims),
            call == GUI_WIN_GETPOS ==> r == Some(WindowCall::GetPos),
            call == GUI_WIN_SETPOS ==> r == Some(WindowCall::SetPos),
            call > GUI_WIN_SETPOS ==> r is None,
    {
        if call == GUI_WIN_SETFLAG {
            Some(WindowCall::SetFlag)
        } else if call == GUI_WIN_REDRAW {
            Some(WindowCall::Redraw)
        } else if call == GUI_WIN_BLITRECT {
            Some(WindowCall::BlitRect)
        } else if call == GUI_WIN_FILLRECT {
            Some(WindowCall::FillRect)
        } else if call == GUI_WIN_GETEVENT {
            Some(WindowCall::GetEvent)
        } else if call == GUI_WIN_GETDIMS {
            Some(WindowCall::GetDims)
        } else if call == GUI_WIN_SETDIMS {
            Some(WindowCall::SetDims)
        } else if call == GUI_WIN_GETPOS {
            Some(WindowCall::GetPos)
        } else if call == GUI_WIN_SETPOS {
            Some(WindowCall::SetPos)
        } else {
            None
        }
    }

    /// What to ask of the window for a method call.
    pub fn handle_syscall_ref(req: WindowRequest) -> (op: WindowOp)
        requires
            req != (WindowRequest::SetFlag { flag: GuiWinFlag::Maximised, is_on: false }),
            req matches WindowRequest::BlitRect { w, data_len, stride, .. } ==> (data_len > 0 && data_len >= w
                ==> stride > 0 && (((data_len - w) / stride as int) as u32) < u32::MAX),
        ensures
            match req {
                WindowRequest::SetFlag { flag: GuiWinFlag::Visible, is_on } => op == if is_on {
                    WindowOp::Show
                } else {
                    WindowOp::Hide
                },
                WindowRequest::SetFlag { flag: GuiWinFlag::Maximised, .. } => op == WindowOp::Maximise,
                WindowRequest::Redraw => op == WindowOp::Redraw,
                WindowRequest::BlitRect { x, y, w, data_len, stride } => if data_len == 0 {
                    op == WindowOp::Nothing
                } else {
                    op == (WindowOp::BlitRect {
                        rect: Rect {
                            x,
                            y,
                            w,
                            h: rows_of_blit(data_len, w, stride),
                        },
                        stride,
                    })
                },
                WindowRequest::FillRect { x, y, w, h, colour } => op == (WindowOp::FillRect {
                    rect: Rect { x, y, w, h },
                    colour,
                }),
                WindowRequest::GetEvent => op == WindowOp::PopEvent,
                WindowRequest::GetDims => op == WindowOp::GetDims,
                WindowRequest::SetDims { w, h } => op == WindowOp::Resize(Dims { w, h }),
                WindowRequest::GetPos => op == WindowOp::GetPos,
                WindowRequest::SetPos { x, y } => op == WindowOp::Move(Pos { x, y }),
            },
    {
        match req {
            WindowRequest::SetFlag { flag, is_on } => match flag {
                GuiWinFlag::Visible => if is_on {
                    WindowOp::Show
                } else {
                    WindowOp::Hide
                },
                GuiWinFlag::Maximised => WindowOp::Maximise,
            },
            WindowRequest::Redraw => WindowOp::Redraw,
            WindowRequest::BlitRect { x, y, w, data_len, stride } => {
                if data_len == 0 {
                    WindowOp::Nothing
                } else {
                    let h = blit_height(data_len, w, stride);
                    WindowOp::BlitRect { rect: Rect { x, y, w, h }, stride }
                }
            },
            WindowRequest::FillRect { x, y, w, h, colour } => WindowOp::FillRect {
                rect: Rect { x, y, w, h },
                colour,
            },
            WindowRequest::GetEvent => WindowOp::PopEvent,
            WindowRequest::GetDims => WindowOp::GetDims,
            WindowRequest::SetDims { w, h } => WindowOp::Resize(Dims { w, h }),
            WindowRequest::GetPos => WindowOp::GetPos,
            WindowRequest::SetPos { x, y } => WindowOp::Move(Pos { x, y }),
        }
    }

    /// What a window call gives back once the window has answered `op`:
    /// a size or a position packed as `(w, h)` or `(x, y)` into the upper
    /// and lower halves, the taken event for user space, all ones where no
    /// event was waiting, and 0 otherwise.
    pub fn reply(op: WindowOp, report: WindowReport) -> (r: WindowReply)
        requires
            report_fits(op, report),
        ensures
            match report {
                WindowReport::Done => r == WindowReply::Return(0),
                WindowReport::Dims(d) => r == WindowReply::Return((d.w * 0x1_0000_0000 + d.h) as u64),
                WindowReport::Pos(p) => r == WindowReply::Return((p.x * 0x1_0000_0000 + p.y) as u64),
                WindowReport::Event(Some(ev)) => r == WindowReply::Deliver(gui_event_of(ev)),
                WindowReport::Event(None) => r == WindowReply::Return(u64::MAX),
            },
    {
        match report {
            WindowReport::Done => WindowReply::Return(0),
            WindowReport::Dims(d) => WindowReply::Return(pack_pair(d.w, d.h)),
            WindowReport::Pos(p) => WindowReply::Return(pack_pair(p.x, p.y)),
            WindowReport::Event(Some(ev)) => WindowReply::Deliver(GuiEvent::from(ev)),
            WindowReport::Event(None) => WindowReply::Return(u64::MAX),
        }
    }

    /// Whether a wait with these flags watches the window's input queue.
    pub fn watches_input(flags: u32) -> (r: bool)
        ensures
            r == (flags & EV_GUI_WIN_INPUT != 0),
    {
        flags & EV_GUI_WIN_INPUT != 0
    }

    /// The events that a wait with these flags was bound to: the input event
    /// where it was asked for (the caller then makes the wait watch the
    /// input queue).
    pub fn bind_wait(flags: u32) -> (r: u32)
        ensures
            r == (if flags & EV_GUI_WIN_INPUT != 0 { EV_GUI_WIN_INPUT } else { 0 }),
            r & !flags == 0,
    {
        assert(EV_GUI_WIN_INPUT == 1u32 && 0u32 | 1u32 == 1u32) by (bit_vector);
        let mut ret: u32 = 0;
        if flags & EV_GUI_WIN_INPUT != 0 {
            ret = ret | EV_GUI_WIN_INPUT;
        }
        assert(ret & !flags == 0) by (bit_vector)
            requires
                ret == (if flags & 1u32 != 0 { 1u32 } else { 0u32 }),
        ;
        ret
    }

    /// The events that fired, once a wait with these flags is cleared (the
    /// caller first stops the wait watching the input queue where the flags
    /// asked for it): the input event where the wait watched for it and the
    /// input queue was non-empty (`input_pending`), else none.
    pub fn clear_wait(flags: u32, input_pending: bool) -> (r: u32)
        ensures
            r == (if flags & EV_GUI_WIN_INPUT != 0 && input_pending { EV_GUI_WIN_INPUT } else { 0u32 }),
            r & !flags == 0,
    {
        assert(EV_GUI_WIN_INPUT == 1u32 && 0u32 | 1u32 == 1u32) by (bit_vector);
        let mut ret: u32 = 0;
        if flags & EV_GUI_WIN_INPUT != 0 && input_pending {
            ret = ret | EV_GUI_WIN_INPUT;
        }
        assert(ret & !flags == 0) by (bit_vector)
            requires
                ret == 0u32 || (ret == 1u32 && flags & 1u32 != 0),
        ;
        ret
    }
}


// ---------------------------------------------------------------------------
// The window group of a process
// ---------------------------------------------------------------------------

/// The window group that a process is bound to, if any (kept per process,
/// under a lock, by the caller).
pub struct PLWindowGroup<G> {
    group: Option<G>,
}

impl<G> View for PLWindowGroup<G> {
    type V = Option<G>;

    closed spec fn view(&self) -> Option<G> {
        self.group
    }
}

impl<G> Default for PLWindowGroup<G> {
    /// A process starts bound to no group.
    fn default() -> (r: Self)
        ensures
            r@ is None,
    {
        PLWindowGroup { group: None }
    }
}

impl<G> PLWindowGroup<G> {
    /// A process starts bound to no group.
    pub fn new() -> (r: Self)
        ensures
            r@ is None,
    {
        PLWindowGroup { group: None }
    }

    /// The group the process is bound to, to work with; `Err(0)` where it is
    /// bound to none. Whatever is done to the group stays in the binding.
    pub fn with(&mut self) -> (r: Result<&mut G, u32>)
        ensures
            old(self)@ is None ==> r == Err::<&mut G, u32>(0) && final(self)@ is None,
            old(self)@ is Some ==> r is Ok && *(r->Ok_0) == old(self)@->0 && final(self)@ == Some(
                *final(r->Ok_0),
            ),
    {
        match &mut self.group {
            Some(v) => Ok(v),
            None => Err(0),
        }
    }
}

/// Creates a new GUI group (session), which only process 0 may do: the
/// handle is the one `alloc` gives for the new group's object.
pub fn newgroup<F: FnOnce() -> ObjectHandle>(pid: u32, alloc: F) -> (r: Result<ObjectHandle, u32>)
    requires
        pid == 0,
        alloc.requires(()),
    ensures
        r is Ok,
        alloc.ensures((), r->Ok_0),
{
    Ok(alloc())
}

/// Binds the process to a group, where it is bound to none yet: `take`
/// takes the group out of the object that user space named. The first
/// binding stays: a process already bound gets `Ok(false)`, and `take` is
/// not run.
pub fn bind_group<G, E, F: FnOnce() -> Result<G, E>>(slot: &mut PLWindowGroup<G>, take: F) -> (r:
    Result<bool, E>)
    requires
        old(slot)@ is None ==> take.requires(()),
    ensures
        old(slot)@ is Some ==> r == Ok::<bool, E>(false) && final(slot)@ == old(slot)@,
        old(slot)@ is None ==> match r {
            Ok(b) => b && final(slot)@ is Some && take.ensures((), Ok::<G, E>(final(slot)@->0)),
            Err(e) => final(slot)@ is None && take.ensures((), Err::<G, E>(e)),
        },
{
    if slot.group.is_none() {
        match take() {
            Ok(group) => {
                slot.group = Some(group);
                Ok(true)
            },
            Err(e) => Err(e),
        }
    } else {
        Ok(false)
    }
}

/// The group the process is bound to, for a new handle to it; `Err(0)`
/// where it is bound to none.
pub fn get_group<G>(slot: &mut PLWindowGroup<G>) -> (r: Result<&mut G, u32>)
    ensures
        old(slot)@ is None ==> r == Err::<&mut G, u32>(0) && final(slot)@ is None,
        old(slot)@ is Some ==> r is Ok && *(r->Ok_0) == old(slot)@->0 && final(slot)@ == Some(
            *final(r->Ok_0),
        ),
{
    slot.with()
}

/// The group the process is bound to, to create a new window in; `Err(0)`
/// where it is bound to none.
pub fn newwindow<G>(slot: &mut PLWindowGroup<G>) -> (r: Result<&mut G, u32>)
    ensures
        old(slot)@ is None ==> r == Err::<&mut G, u32>(0) && final(slot)@ is None,
        old(slot)@ is Some ==> r is Ok && *(r->Ok_0) == old(slot)@->0 && final(slot)@ == Some(
            *final(r->Ok_0),
        ),
{
    slot.with()
}

} // verus!
