//! Notifications that show for a while and then expire.

use super::constants::{
    TOAST_ICON_ERROR, TOAST_ICON_INFO, TOAST_ICON_SUCCESS, TOAST_ICON_WARNING, TOAST_TITLE_ERROR,
    TOAST_TITLE_INFO, TOAST_TITLE_SUCCESS, TOAST_TITLE_WARNING,
};
use super::rows::ceil_div;
use crate::layout::Rect;
use std::time::{Duration, Instant};
use vstd::prelude::*;

verus! {

/// Maximum number of notifications shown at the same time.
pub const MAX_TOASTS: usize = 3;

/// How long a notification stays before it expires, in nanoseconds.
pub const TOAST_DURATION_NANOS: u128 = 5_000_000_000;

/// `std::time::Instant`: a reading of the monotonic clock, carried as it
/// is.
#[verifier::external_type_specification]
#[verifier::external_body]
pub struct ExInstant(Instant);

/// Reads the clock with `Instant::now`.
///
/// Trusted: nothing is claimed of the instant.
#[verifier::external_body]
pub(crate) fn instant_now() -> Instant {
    Instant::now()
}

/// Measures the time since `start` with `Instant::elapsed`.
///
/// Trusted: nothing is claimed of the duration.
#[verifier::external_body]
pub(crate) fn instant_elapsed(start: &Instant) -> Duration {
    start.elapsed()
}

/// Reads a duration in nanoseconds with `Duration::as_nanos`.
///
/// Trusted: nothing is claimed of the number.
#[verifier::external_body]
fn duration_nanos(duration: &Duration) -> u128 {
    duration.as_nanos()
}

/// Reads a duration in milliseconds with `Duration::as_millis`.
///
/// Trusted: nothing is claimed of the number.
#[verifier::external_body]
pub(crate) fn duration_millis(duration: &Duration) -> u128 {
    duration.as_millis()
}

/// The length of a text in bytes.
pub open spec fn byte_len(text: Seq<char>) -> usize {
    vstd::utf8::encode_utf8(text).len() as usize
}

/// Types of notifications.
#[derive(Debug, Clone, Copy, PartialEq, Eq, Structural)]
pub enum ToastKind {
    /// Error messages (red).
    Error,
    /// Warning messages (yellow).
    Warning,
    /// Info messages (blue).
    Info,
    /// Success messages (green).
    Success,
}

impl ToastKind {
    /// The colour of this kind, as red, green and blue.
    pub open spec fn rgb(self) -> (u8, u8, u8) {
        match self {
            ToastKind::Error => (239u8, 68u8, 68u8),
            ToastKind::Warning => (245u8, 158u8, 11u8),
            ToastKind::Info => (59u8, 130u8, 246u8),
            ToastKind::Success => (34u8, 197u8, 94u8),
        }
    }

    pub open spec fn icon_text(self) -> Seq<char> {
        match self {
            ToastKind::Error => TOAST_ICON_ERROR@,
            ToastKind::Warning => TOAST_ICON_WARNING@,
            ToastKind::Info => TOAST_ICON_INFO@,
            ToastKind::Success => TOAST_ICON_SUCCESS@,
        }
    }

    pub open spec fn title_text(self) -> Seq<char> {
        match self {
            ToastKind::Error => TOAST_TITLE_ERROR@,
            ToastKind::Warning => TOAST_TITLE_WARNING@,
            ToastKind::Info => TOAST_TITLE_INFO@,
            ToastKind::Success => TOAST_TITLE_SUCCESS@,
        }
    }

    /// The colour for this kind, as red, green and blue.
    pub fn color(&self) -> (rgb: (u8, u8, u8))
        ensures
            rgb == self.rgb(),
    {
        match self {
            ToastKind::Error => (239, 68, 68),
            ToastKind::Warning => (245, 158, 11),
            ToastKind::Info => (59, 130, 246),
            ToastKind::Success => (34, 197, 94),
        }
    }

    /// The icon for this kind.
    pub fn icon(&self) -> (icon: &'static str)
        ensures
            icon@ == self.icon_text(),
    {
        match self {
            ToastKind::Error => TOAST_ICON_ERROR,
            ToastKind::Warning => TOAST_ICON_WARNING,
            ToastKind::Info => TOAST_ICON_INFO,
            ToastKind::Success => TOAST_ICON_SUCCESS,
        }
    }

    /// The title for this kind.
    pub fn title(&self) -> (title: &'static str)
        ensures
            title@ == self.title_text(),
    {
        match self {
            ToastKind::Error => TOAST_TITLE_ERROR,
            ToastKind::Warning => TOAST_TITLE_WARNING,
            ToastKind::Info => TOAST_TITLE_INFO,
            ToastKind::Success => TOAST_TITLE_SUCCESS,
        }
    }
}

/// A single notification.
#[derive(Debug, Clone)]
pub struct Toast {
    /// The message to display.
    pub message: String,
    /// The kind of notification, which decides its style.
    pub kind: ToastKind,
    /// When the notification was created: nanoseconds on the clock of the
    /// state that holds it.
    pub created_at: u128,
}

impl Toast {
    /// The age of the notification at `now`; 0 if `now` is before its
    /// creation.
    pub open spec fn age_at(&self, now: u128) -> nat {
        if now >= self.created_at {
            (now - self.created_at) as nat
        } else {
            0
        }
    }

    /// The notification has not expired at `now`.
    pub open spec fn is_fresh_at(&self, now: u128) -> bool {
        self.age_at(now) < TOAST_DURATION_NANOS
    }
}

/// The notifications after `toast` was added: it comes last, and only the
/// most recent `MAX_TOASTS` stay.
pub open spec fn with_toast(toasts: Seq<Toast>, toast: Toast) -> Seq<Toast> {
    let all = toasts.push(toast);
    if all.len() > MAX_TOASTS {
        all.subrange(all.len() - MAX_TOASTS, all.len() as int)
    } else {
        all
    }
}

/// The notifications that have not expired at `now`, in their order.
pub open spec fn fresh_at(toasts: Seq<Toast>, now: u128) -> Seq<Toast> {
    toasts.filter(|toast: Toast| toast.is_fresh_at(now))
}

/// The notifications that are shown, oldest first.
pub struct ToasterState {
    /// Active notifications.
    toasts: Vec<Toast>,
    /// The instant from which this state counts time.
    started: Instant,
}

impl View for ToasterState {
    type V = Seq<Toast>;

    closed spec fn view(&self) -> Seq<Toast> {
        self.toasts@
    }
}

impl Default for ToasterState {
    fn default() -> (state: ToasterState)
        ensures
            state@ == Seq::<Toast>::empty(),
    {
        ToasterState::new()
    }
}

impl ToasterState {
    /// A state without notifications, whose clock starts now.
    pub fn new() -> (state: ToasterState)
        ensures
            state@ == Seq::<Toast>::empty(),
    {
        ToasterState { toasts: Vec::new(), started: instant_now() }
    }

    /// The time on this state's clock, in nanoseconds.
    pub fn now(&self) -> u128 {
        let elapsed = instant_elapsed(&self.started);
        duration_nanos(&elapsed)
    }

    /// Adds a notification that is created now.
    pub fn add_toast(&mut self, message: String, kind: ToastKind)
        ensures
            exists|toast: Toast|
                #![auto]
                toast.message == message && toast.kind == kind && final(self)@ == with_toast(
                    old(self)@,
                    toast,
                ),
    {
        let now = self.now();
        self.add_toast_at(message, kind, now);
    }

    /// Adds a notification that is created at `now`.
    pub fn add_toast_at(&mut self, message: String, kind: ToastKind, now: u128)
        ensures
            final(self)@ == with_toast(old(self)@, Toast { message, kind, created_at: now }),
    {
        let toast = Toast { message, kind, created_at: now };
        self.toasts.push(toast);
        let ghost all = self.toasts@;
        assert(all.subrange(0, all.len() as int) =~= all);
        // Keep only the most recent ones.
        while self.toasts.len() > MAX_TOASTS
            invariant
                self.toasts@.len() <= all.len(),
                self.toasts@.len() >= MAX_TOASTS || self.toasts@.len() == all.len(),
                self.toasts@ == all.subrange(all.len() - self.toasts@.len(), all.len() as int),
            decreases self.toasts@.len(),
        {
            let ghost before = self.toasts@;
            self.toasts.remove(0);
            assert(self.toasts@ =~= all.subrange(
                all.len() - self.toasts@.len(),
                all.len() as int,
            ));
        }
    }

    /// Adds an error notification.
    pub fn error(&mut self, message: &str)
        ensures
            exists|toast: Toast|
                #![auto]
                toast.message@ == message@ && toast.kind == ToastKind::Error && final(self)@
                    == with_toast(old(self)@, toast),
    {
        self.add_toast(message.to_owned(), ToastKind::Error);
    }

    /// Adds a warning notification.
    pub fn warning(&mut self, message: &str)
        ensures
            exists|toast: Toast|
                #![auto]
                toast.message@ == message@ && toast.kind == ToastKind::Warning && final(self)@
                    == with_toast(old(self)@, toast),
    {
        self.add_toast(message.to_owned(), ToastKind::Warning);
    }

    /// Adds an info notification.
    pub fn info(&mut self, message: &str)
        ensures
            exists|toast: Toast|
                #![auto]
                toast.message@ == message@ && toast.kind == ToastKind::Info && final(self)@
                    == with_toast(old(self)@, toast),
    {
        self.add_toast(message.to_owned(), ToastKind::Info);
    }

    /// Adds a success notification.
    pub fn success(&mut self, message: &str)
        ensures
            exists|toast: Toast|
                #![auto]
                toast.message@ == message@ && toast.kind == ToastKind::Success && final(self)@
                    == with_toast(old(self)@, toast),
    {
        self.add_toast(message.to_owned(), ToastKind::Success);
    }

    /// Removes the notifications that have expired by now.
    pub fn tick(&mut self)
        ensures
            exists|now: u128| final(self)@ == #[trigger] fresh_at(old(self)@, now),
    {
        let now = self.now();
        self.tick_at(now);
    }

    /// Removes the notifications that have expired at `now`: those that
    /// were created `TOAST_DURATION_NANOS` or longer before it.
    pub fn tick_at(&mut self, now: u128)
        ensures
            final(self)@ == fresh_at(old(self)@, now),
    {
        let ghost before = self.toasts@;
        let ghost keep = |toast: Toast| toast.is_fresh_at(now);
        let mut kept: usize = 0;
        let ghost mut seen: int = 0;
        proof {
            reveal(Seq::filter);
            assert(before.subrange(0, 0).filter(keep) =~= self.toasts@.subrange(0, 0));
        }
        while kept < self.toasts.len()
            invariant
                0 <= seen <= before.len(),
                kept <= self.toasts@.len(),
                keep == |toast: Toast| toast.is_fresh_at(now),
                self.toasts@.len() - kept == before.len() - seen,
                self.toasts@.subrange(0, kept as int) == before.subrange(0, seen).filter(keep),
                self.toasts@.subrange(kept as int, self.toasts@.len() as int) == before.subrange(
                    seen,
                    before.len() as int,
                ),
            decreases self.toasts@.len() - kept,
        {
            let ghost current = self.toasts@;
            let ghost tail = current.subrange(kept as int, current.len() as int);
            proof {
                reveal(Seq::filter);
                assert(current[kept as int] == tail[0]);
                assert(before.subrange(0, seen + 1).drop_last() =~= before.subrange(0, seen));
                assert(before.subrange(0, seen + 1).last() == before[seen]);
                assert(tail == before.subrange(seen, before.len() as int));
                assert(tail[0] == before[seen]);
            }
            let age = now.saturating_sub(self.toasts[kept].created_at);
            if age < TOAST_DURATION_NANOS {
                proof {
                    assert(current.subrange(0, kept + 1) =~= current.subrange(
                        0,
                        kept as int,
                    ).push(current[kept as int]));
                    assert(current.subrange(kept + 1, current.len() as int) =~= tail.subrange(
                        1,
                        tail.len() as int,
                    ));
                    assert(tail.subrange(1, tail.len() as int) =~= before.subrange(
                        seen + 1,
                        before.len() as int,
                    ));
                }
                kept += 1;
            } else {
                self.toasts.remove(kept);
                proof {
                    assert(self.toasts@.subrange(0, kept as int) =~= current.subrange(
                        0,
                        kept as int,
                    ));
                    assert(self.toasts@.subrange(kept as int, self.toasts@.len() as int)
                        =~= tail.subrange(1, tail.len() as int));
                    assert(tail.subrange(1, tail.len() as int) =~= before.subrange(
                        seen + 1,
                        before.len() as int,
                    ));
                }
            }
            proof {
                seen = seen + 1;
            }
        }
        proof {
            assert(self.toasts@.subrange(0, kept as int) =~= self.toasts@);
            assert(before.subrange(0, seen) =~= before);
        }
    }

    /// Tells whether there are any active notifications.
    pub fn has_toasts(&self) -> (any: bool)
        ensures
            any == (self@.len() > 0),
    {
        self.toasts.len() > 0
    }

    /// The active notifications, oldest first.
    pub fn toasts(&self) -> (toasts: &[Toast])
        ensures
            toasts@ == self@,
    {
        self.toasts.as_slice()
    }

    /// Removes all notifications.
    pub fn clear(&mut self)
        ensures
            final(self)@ == Seq::<Toast>::empty(),
    {
        self.toasts.clear();
    }
}

/// The length in bytes of the longest message among the first `n`
/// notifications.
pub open spec fn longest_message(toasts: Seq<Toast>, n: nat) -> nat
    decreases n,
{
    if n == 0 || n > toasts.len() {
        0
    } else {
        let before = longest_message(toasts, (n - 1) as nat);
        let this = byte_len(toasts[n - 1].message@) as nat;
        if this > before {
            this
        } else {
            before
        }
    }
}

/// The width of the notifications: room for the longest message and for
/// icon, title, border and padding, up to 60 columns.
pub open spec fn toast_width(toasts: Seq<Toast>) -> u16 {
    if longest_message(toasts, toasts.len()) + 20 <= 60 {
        (longest_message(toasts, toasts.len()) + 20) as u16
    } else {
        60
    }
}

/// The height of a notification whose message is `message_len` bytes long,
/// at `width` columns: a row for the title, the rows of the message
/// wrapped within border and padding, two rows of border; up to 6 rows.
pub open spec fn toast_height(message_len: usize, width: u16) -> u16
    recommends
        width > 4,
{
    if ceil_div(message_len as nat, (width - 4) as nat) + 3 <= 6 {
        (ceil_div(message_len as nat, (width - 4) as nat) + 3) as u16
    } else {
        6
    }
}

/// Where a notification is painted.
#[derive(Debug, Clone, Copy, PartialEq, Eq, Structural)]
pub struct ToastPlacement {
    /// The index of the notification in the state.
    pub index: usize,
    pub area: Rect,
}

/// The row in which notification `i` begins: two rows below the top of
/// `area`, and below every notification before it with a row between.
pub open spec fn toast_top(toasts: Seq<Toast>, width: u16, area: Rect, i: nat) -> int
    decreases i,
{
    if i == 0 || i > toasts.len() {
        area.y + 2
    } else {
        toast_top(toasts, width, area, (i - 1) as nat) + toast_height(
            byte_len(toasts[i - 1].message@),
            width,
        ) + 1
    }
}

/// The place of notification `i`: in the top right corner of `area`, two
/// columns from its edge.
pub open spec fn placement_of(toasts: Seq<Toast>, area: Rect, i: nat) -> ToastPlacement {
    let width = toast_width(toasts);
    ToastPlacement {
        index: i as usize,
        area: Rect {
            x: (area.x + if area.width >= width + 2 {
                area.width - (width + 2)
            } else {
                0
            }) as u16,
            y: toast_top(toasts, width, area, i) as u16,
            width,
            height: toast_height(byte_len(toasts[i as int].message@), width),
        },
    }
}

/// The places of the first `n` notifications: each one is placed if all
/// before it are and if it ends within `area`.
pub open spec fn placements(toasts: Seq<Toast>, area: Rect, n: nat) -> Seq<ToastPlacement>
    decreases n,
{
    if n == 0 || n > toasts.len() {
        Seq::empty()
    } else {
        let before = placements(toasts, area, (n - 1) as nat);
        let place = placement_of(toasts, area, (n - 1) as nat);
        if before.len() == n - 1 && toast_top(toasts, toast_width(toasts), area, (n - 1) as nat)
            + place.area.height <= area.y + area.height {
            before.push(place)
        } else {
            before
        }
    }
}

/// A notification lives as long as the display duration. Created at any
/// time, it is still shown at a tick that comes less than the duration
/// later, and is gone at a tick that comes the duration later or more.
pub proof fn lemma_toast_lives_for_duration(toast: Toast, later: u128)
    requires
        toast.created_at + later <= u128::MAX,
    ensures
        fresh_at(seq![toast], (toast.created_at + later) as u128) == if later
            < TOAST_DURATION_NANOS {
            seq![toast]
        } else {
            Seq::<Toast>::empty()
        },
{
    reveal_with_fuel(Seq::filter, 2);
    let now = (toast.created_at + later) as u128;
    let keep = |toast: Toast| toast.is_fresh_at(now);
    assert(seq![toast].drop_last() =~= Seq::<Toast>::empty());
    assert(seq![toast].last() == toast);
    assert(Seq::<Toast>::empty().filter(keep) =~= Seq::<Toast>::empty());
    if later < TOAST_DURATION_NANOS {
        assert(seq![toast].filter(keep) =~= seq![toast]);
    } else {
        assert(seq![toast].filter(keep) =~= Seq::<Toast>::empty());
    }
}

/// The widget that lays out the notifications.
pub struct Toaster<'a> {
    state: &'a ToasterState,
}

impl<'a> Toaster<'a> {
    /// The notifications that the widget lays out.
    pub closed spec fn toasts(&self) -> Seq<Toast> {
        self.state@
    }

    /// A widget for the notifications of `state`.
    pub fn new(state: &'a ToasterState) -> (toaster: Toaster<'a>)
        ensures
            toaster.toasts() == state@,
    {
        Toaster { state }
    }

    /// The position of the first notification: in the top right corner of
    /// `container`, two columns from its edge and two rows from its top.
    pub fn calculate_position(&self, container: Rect) -> (position: (u16, u16))
        requires
            container.fits(),
            container.y + 2 <= u16::MAX,
        ensures
            position.0 == container.x + if container.width >= toast_width(self.toasts()) + 2 {
                container.width - (toast_width(self.toasts()) + 2)
            } else {
                0
            },
            position.1 == container.y + 2,
    {
        let toast_width = self.calculate_width();
        let x = container.x + container.width.saturating_sub(toast_width + 2);
        let y = container.y + 2;
        (x, y)
    }

    /// The width needed for the notifications.
    pub fn calculate_width(&self) -> (width: u16)
        ensures
            width == toast_width(self.toasts()),
            20 <= width <= 60,
    {
        let toasts = self.state.toasts();
        let mut max_message_len: usize = 0;
        let mut i: usize = 0;
        while i < toasts.len()
            invariant
                i <= toasts@.len(),
                toasts@ == self.toasts(),
                max_message_len == longest_message(toasts@, i as nat),
            decreases toasts@.len() - i,
        {
            let len = toasts[i].message.as_str().len();
            if len > max_message_len {
                max_message_len = len;
            }
            i += 1;
        }
        // Add space for icon, title, borders, and padding.
        if max_message_len <= 40 {
            (max_message_len + 20) as u16
        } else {
            60
        }
    }

    /// The height of a single notification at `width` columns.
    pub fn calculate_toast_height(&self, toast: &Toast, width: u16) -> (height: u16)
        requires
            width > 4,
        ensures
            height == toast_height(byte_len(toast.message@), width),
            3 <= height <= 6,
    {
        // Borders and padding take four columns.
        let content_width = (width - 4) as usize;
        let len = toast.message.as_str().len();
        let full = len / content_width;
        let lines = if len % content_width == 0 {
            full
        } else {
            assert(full < len) by (nonlinear_arith)
                requires
                    full == len / content_width,
                    len % content_width != 0,
                    content_width > 0,
            ;
            full + 1
        };
        // One row for the title, the rows of the message, two for borders.
        if lines <= 3 {
            (lines + 3) as u16
        } else {
            6
        }
    }

    /// The places of the notifications in `area`, from the top down. The
    /// first notification that would end below `area` is left out, and so
    /// are all after it.
    pub fn layout(&self, area: Rect) -> (places: Vec<ToastPlacement>)
        requires
            area.fits(),
        ensures
            places@ == placements(self.toasts(), area, self.toasts().len()),
    {
        let toasts = self.state.toasts();
        let mut places: Vec<ToastPlacement> = Vec::new();
        if toasts.len() == 0 {
            return places;
        }
        if area.y > u16::MAX - 2 {
            // No notification fits in the last two rows of the terminal.
            proof {
                lemma_placements_stop(toasts@, area, 0, toasts@.len());
            }
            return places;
        }
        let width = self.calculate_width();
        let (x, top) = self.calculate_position(area);
        let bottom: u32 = area.y as u32 + area.height as u32;
        let mut y: u32 = top as u32;
        let mut i: usize = 0;
        while i < toasts.len()
            invariant_except_break
                places@.len() == i,
                y == toast_top(toasts@, width, area, i as nat),
            invariant
                area.fits(),
                i <= toasts@.len(),
                toasts@ == self.toasts(),
                width == toast_width(toasts@),
                20 <= width <= 60,
                x == area.x + if area.width >= width + 2 {
                    area.width - (width + 2)
                } else {
                    0
                },
                bottom == area.y + area.height,
                y <= bottom + 2,
                places@ == placements(toasts@, area, i as nat),
            ensures
                places@ == placements(toasts@, area, toasts@.len()),
            decreases toasts@.len() - i,
        {
            let height = self.calculate_toast_height(&toasts[i], width);
            // Make sure we don't lay out anything outside the area.
            if y + height as u32 > bottom {
                proof {
                    lemma_placements_stop(toasts@, area, i as nat, toasts@.len());
                }
                break ;
            }
            places.push(
                ToastPlacement { index: i, area: Rect { x, y: y as u16, width, height } },
            );
            // Move down for the next notification.
            y = y + height as u32 + 1;
            i += 1;
        }
        places
    }
}

/// Once a notification is left out, all after it are left out.
pub proof fn lemma_placements_stop(toasts: Seq<Toast>, area: Rect, from: nat, n: nat)
    requires
        from < toasts.len(),
        from <= n <= toasts.len(),
        placements(toasts, area, from).len() == from,
        toast_top(toasts, toast_width(toasts), area, from) + placement_of(
            toasts,
            area,
            from,
        ).area.height > area.y + area.height,
    ensures
        placements(toasts, area, n) == placements(toasts, area, from),
    decreases n,
{
    if from < n {
        lemma_placements_stop(toasts, area, from, (n - 1) as nat);
    }
}

} // verus!
