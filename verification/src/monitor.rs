//! The selection monitor's decisions: gesture classification, the clipboard
//! baseline and the dispatch policy. The caller polls the pointer and the
//! clipboard and performs what these functions decide.

use vstd::prelude::*;
use vstd::string::*;
use crate::text::str_eq;

verus! {

/// Milliseconds between two polls of the pointer.
pub const TICK_MS: u64 = 50;

/// A release further than this from the press, horizontally, is a drag.
pub const DRAG_DX: i64 = 15;

/// A release further than this from the press, vertically, is a drag.
pub const DRAG_DY: i64 = 8;

/// Two releases closer in time than this may be a double click.
pub const DOUBLE_CLICK_MS: u64 = 500;

/// Two releases closer than this on both axes may be a double click.
pub const DOUBLE_CLICK_SLOP: i64 = 15;

/// Wait after a double click before the selection is copied.
pub const SETTLE_DOUBLE_CLICK_MS: u64 = 300;

/// Wait after a drag before the selection is copied.
pub const SETTLE_DRAG_MS: u64 = 100;

/// Wait after the copy command before the clipboard is read again.
pub const COPY_WAIT_MS: u64 = 200;

/// What a press followed by a release was.
#[derive(Debug, Clone, Copy, PartialEq, Eq, Structural)]
pub enum Gesture {
    Drag,
    DoubleClick,
    Click,
}

/// A pointer release that the monitor remembers: when and where.
#[derive(Debug, Clone, Copy, PartialEq, Eq, Structural)]
pub struct Release {
    pub at_ms: u64,
    pub x: i32,
    pub y: i32,
}

/// The distance between two coordinates on one axis.
pub open spec fn axis_distance(a: i32, b: i32) -> int {
    if a >= b {
        a - b
    } else {
        b - a
    }
}

/// Time since an earlier reading of a monotonic clock; zero if the clock went back.
pub open spec fn elapsed_ms(earlier: u64, now: u64) -> int {
    if now >= earlier {
        now - earlier
    } else {
        0
    }
}

/// The release is far enough from the press to have selected something.
pub open spec fn is_drag(press: (i32, i32), release: (i32, i32)) -> bool {
    axis_distance(release.0, press.0) > 15 || axis_distance(release.1, press.1) > 8
}

/// The release follows an earlier one closely in time and place.
pub open spec fn is_repeat(last: Option<Release>, release: (i32, i32), now_ms: u64) -> bool {
    match last {
        Some(l) => elapsed_ms(l.at_ms, now_ms) < 500 && axis_distance(release.0, l.x) < 15
            && axis_distance(release.1, l.y) < 15,
        None => false,
    }
}

/// The gesture that a release completes.
pub open spec fn gesture_of(
    press: (i32, i32),
    release: (i32, i32),
    last: Option<Release>,
    now_ms: u64,
) -> Gesture {
    if is_drag(press, release) {
        Gesture::Drag
    } else if is_repeat(last, release, now_ms) {
        Gesture::DoubleClick
    } else {
        Gesture::Click
    }
}

fn distance(a: i32, b: i32) -> (d: i64)
    ensures
        d == axis_distance(a, b),
{
    if a >= b {
        a as i64 - b as i64
    } else {
        b as i64 - a as i64
    }
}

/// Classifies the gesture that ends with a release at `release`, after a
/// press at `press`, given the last release before it, if any.
pub fn classify_gesture(
    press: (i32, i32),
    release: (i32, i32),
    last: Option<Release>,
    now_ms: u64,
) -> (g: Gesture)
    ensures
        g == gesture_of(press, release, last, now_ms),
{
    if distance(release.0, press.0) > DRAG_DX || distance(release.1, press.1) > DRAG_DY {
        return Gesture::Drag;
    }
    match last {
        Some(l) => {
            let since: u64 = if now_ms >= l.at_ms {
                now_ms - l.at_ms
            } else {
                0
            };
            if since < DOUBLE_CLICK_MS && distance(release.0, l.x) < DOUBLE_CLICK_SLOP && distance(
                release.1,
                l.y,
            ) < DOUBLE_CLICK_SLOP {
                Gesture::DoubleClick
            } else {
                Gesture::Click
            }
        },
        None => Gesture::Click,
    }
}

/// How long to let the foreground application settle before copying.
pub open spec fn settle_delay(g: Gesture) -> u64 {
    if g == Gesture::DoubleClick {
        300
    } else {
        100
    }
}

/// What the caller does after a poll.
#[derive(Debug, Clone, Copy, PartialEq, Eq, Structural)]
pub enum TickAction {
    /// Nothing to do until the next poll.
    Idle,
    /// A selection may have been made: wait `settle_ms`, read the clipboard,
    /// send the copy command, wait [`COPY_WAIT_MS`], read the clipboard again
    /// and report both readings to [`SelectionMonitor::on_probe`].
    ProbeSelection { settle_ms: u64 },
    /// The pointer is at rest: read the clipboard and, if that worked, report
    /// it to [`SelectionMonitor::on_clipboard`].
    CheckClipboard,
}

/// What the monitor asks the presentation layer to do with a new selection.
#[derive(Debug, Clone)]
pub enum Dispatch {
    /// No action.
    Nothing,
    /// Translate this text at once and bring the main window to the front.
    Translate(String),
    /// Show the floating indicator near the pointer.
    ShowIndicator,
}

/// The mathematical value of a [`Dispatch`].
pub ghost enum DispatchView {
    Nothing,
    Translate(Seq<char>),
    ShowIndicator,
}

impl View for Dispatch {
    type V = DispatchView;

    open spec fn view(&self) -> DispatchView {
        match self {
            Dispatch::Nothing => DispatchView::Nothing,
            Dispatch::Translate(t) => DispatchView::Translate(t@),
            Dispatch::ShowIndicator => DispatchView::ShowIndicator,
        }
    }
}

/// The dispatch policy: what to do with a new selection under the live
/// configuration.
pub open spec fn policy(enabled: bool, mode: Seq<char>, text: Seq<char>) -> DispatchView {
    if !enabled {
        DispatchView::Nothing
    } else if mode == "auto"@ {
        DispatchView::Translate(text)
    } else if mode == "icon"@ {
        DispatchView::ShowIndicator
    } else {
        DispatchView::Nothing
    }
}

/// Applies the dispatch policy to a new selection.
pub fn decide_dispatch(enabled: bool, mode: &str, text: String) -> (d: Dispatch)
    ensures
        d@ == policy(enabled, mode@, text@),
{
    if !enabled {
        Dispatch::Nothing
    } else if str_eq(mode, "auto") {
        Dispatch::Translate(text)
    } else if str_eq(mode, "icon") {
        Dispatch::ShowIndicator
    } else {
        Dispatch::Nothing
    }
}

/// What the monitor loop carries from one poll to the next.
#[derive(Debug, Clone)]
pub struct SelectionMonitor {
    /// Whether the button was down at the last poll.
    pub was_pressed: bool,
    /// Where the button went down, horizontally.
    pub press_x: i32,
    /// Where the button went down, vertically.
    pub press_y: i32,
    /// The last release seen, if any.
    pub last_release: Option<Release>,
    /// The clipboard content already seen or acted upon.
    pub baseline: String,
}

/// The mathematical value of a [`SelectionMonitor`].
pub ghost struct MonitorView {
    pub was_pressed: bool,
    pub press_origin: (i32, i32),
    pub last_release: Option<Release>,
    pub baseline: Seq<char>,
}

impl View for SelectionMonitor {
    type V = MonitorView;

    open spec fn view(&self) -> MonitorView {
        MonitorView {
            was_pressed: self.was_pressed,
            press_origin: (self.press_x, self.press_y),
            last_release: self.last_release,
            baseline: self.baseline@,
        }
    }
}

/// The monitor after a poll that read `pressed` and `cursor` at `now_ms`.
pub open spec fn after_tick(m: MonitorView, pressed: bool, cursor: (i32, i32), now_ms: u64)
    -> MonitorView {
    if pressed && !m.was_pressed {
        MonitorView { was_pressed: true, press_origin: cursor, ..m }
    } else if !pressed && m.was_pressed {
        MonitorView {
            was_pressed: false,
            last_release: Some(Release { at_ms: now_ms, x: cursor.0, y: cursor.1 }),
            ..m
        }
    } else {
        m
    }
}

/// What the caller has to do after that poll.
pub open spec fn tick_action(m: MonitorView, pressed: bool, cursor: (i32, i32), now_ms: u64)
    -> TickAction {
    if !pressed && m.was_pressed {
        let g = gesture_of(m.press_origin, cursor, m.last_release, now_ms);
        if g == Gesture::Click {
            TickAction::Idle
        } else {
            TickAction::ProbeSelection { settle_ms: settle_delay(g) }
        }
    } else if !pressed && !m.was_pressed {
        TickAction::CheckClipboard
    } else {
        TickAction::Idle
    }
}

/// The content is a new selection against the reference: it is not empty
/// and differs from it.
pub open spec fn is_new_selection(content: Seq<char>, reference: Seq<char>) -> bool {
    content.len() > 0 && content != reference
}

/// The monitor after the clipboard was probed around a copy command.
pub open spec fn after_probe(
    m: MonitorView,
    before: Seq<char>,
    after: Seq<char>,
    now_ms: u64,
) -> MonitorView {
    MonitorView {
        baseline: if after != before {
            after
        } else {
            m.baseline
        },
        last_release: match m.last_release {
            Some(l) => Some(Release { at_ms: now_ms, ..l }),
            None => None,
        },
        ..m
    }
}

/// What the probe leads to.
pub open spec fn probe_dispatch(before: Seq<char>, after: Seq<char>, enabled: bool, mode: Seq<char>)
    -> DispatchView {
    if is_new_selection(after, before) {
        policy(enabled, mode, after)
    } else {
        DispatchView::Nothing
    }
}

/// The monitor after the clipboard was read at rest.
pub open spec fn after_clipboard(m: MonitorView, content: Seq<char>) -> MonitorView {
    if is_new_selection(content, m.baseline) {
        MonitorView { baseline: content, ..m }
    } else {
        m
    }
}

/// What a clipboard reading at rest leads to.
pub open spec fn clipboard_dispatch(
    m: MonitorView,
    content: Seq<char>,
    enabled: bool,
    mode: Seq<char>,
) -> DispatchView {
    if is_new_selection(content, m.baseline) {
        policy(enabled, mode, content)
    } else {
        DispatchView::Nothing
    }
}

impl SelectionMonitor {
    /// A monitor that has seen no gesture yet, with the clipboard content
    /// found at start as its baseline.
    pub fn new(baseline: String) -> (m: SelectionMonitor)
        ensures
            m@ == (MonitorView {
                was_pressed: false,
                press_origin: (0i32, 0i32),
                last_release: None,
                baseline: baseline@,
            }),
    {
        SelectionMonitor { was_pressed: false, press_x: 0, press_y: 0, last_release: None, baseline }
    }

    /// One poll: the button state and the pointer position read at `now_ms`
    /// on a monotonic clock.
    ///
    /// A press records its origin. A release is classified; a drag or a
    /// double click asks for a probe of the selection, and the release is
    /// remembered either way. With the button up on two polls in a row the
    /// clipboard is to be checked for a manual copy; never on the poll that
    /// saw the release.
    pub fn on_tick(&mut self, pressed: bool, cursor: (i32, i32), now_ms: u64) -> (action:
        TickAction)
        ensures
            final(self)@ == after_tick(old(self)@, pressed, cursor, now_ms),
            action == tick_action(old(self)@, pressed, cursor, now_ms),
    {
        if pressed && !self.was_pressed {
            self.press_x = cursor.0;
            self.press_y = cursor.1;
            self.was_pressed = true;
            TickAction::Idle
        } else if !pressed && self.was_pressed {
            let g = classify_gesture(
                (self.press_x, self.press_y),
                cursor,
                self.last_release,
                now_ms,
            );
            self.last_release = Some(Release { at_ms: now_ms, x: cursor.0, y: cursor.1 });
            self.was_pressed = false;
            match g {
                Gesture::Click => TickAction::Idle,
                Gesture::DoubleClick => TickAction::ProbeSelection {
                    settle_ms: SETTLE_DOUBLE_CLICK_MS,
                },
                Gesture::Drag => TickAction::ProbeSelection { settle_ms: SETTLE_DRAG_MS },
            }
        } else if !pressed {
            TickAction::CheckClipboard
        } else {
            TickAction::Idle
        }
    }

    /// The outcome of a probe: the clipboard `before` and `after` the copy
    /// command, under the configuration read at `now_ms`.
    ///
    /// Content that changed and is not empty is a new selection: it becomes
    /// the baseline and is dispatched by the policy. A clipboard that was
    /// emptied only moves the baseline. Content that did not change leaves
    /// the baseline alone. The remembered release is stamped with `now_ms`,
    /// the end of the probe.
    pub fn on_probe(
        &mut self,
        before: &str,
        after: String,
        enabled: bool,
        mode: &str,
        now_ms: u64,
    ) -> (d: Dispatch)
        ensures
            final(self)@ == after_probe(old(self)@, before@, after@, now_ms),
            d@ == probe_dispatch(before@, after@, enabled, mode@),
    {
        match self.last_release {
            Some(l) => {
                self.last_release = Some(Release { at_ms: now_ms, x: l.x, y: l.y });
            },
            None => {},
        }
        let changed = !str_eq(after.as_str(), before);
        let filled = !after.as_str().is_empty();
        if changed {
            self.baseline = after.clone();
        }
        if changed && filled {
            decide_dispatch(enabled, mode, after)
        } else {
            Dispatch::Nothing
        }
    }

    /// A clipboard reading taken while the pointer is at rest.
    ///
    /// Content that is not empty and differs from the baseline is a manual
    /// copy: it becomes the baseline, also while the feature is switched off,
    /// and is dispatched by the policy.
    pub fn on_clipboard(&mut self, content: String, enabled: bool, mode: &str) -> (d: Dispatch)
        ensures
            final(self)@ == after_clipboard(old(self)@, content@),
            d@ == clipboard_dispatch(old(self)@, content@, enabled, mode@),
    {
        if !content.as_str().is_empty() && !str_eq(content.as_str(), self.baseline.as_str()) {
            self.baseline = content.clone();
            decide_dispatch(enabled, mode, content)
        } else {
            Dispatch::Nothing
        }
    }

    /// A clipboard reading taken on a poll while monitoring is switched
    /// off. Nothing is dispatched, and pointer and gestures are left alone;
    /// the baseline still follows the clipboard, as it does at rest, so
    /// that what was copied meanwhile is not replayed once monitoring is
    /// switched on again.
    pub fn on_paused(&mut self, content: String)
        ensures
            final(self)@ == after_clipboard(old(self)@, content@),
    {
        if !content.as_str().is_empty() && !str_eq(content.as_str(), self.baseline.as_str()) {
            self.baseline = content;
        }
    }
}

/// Identical clipboard content on a later poll is never dispatched again:
/// once a reading has been handled, the same reading changes nothing and
/// asks for nothing, whatever the configuration says by then.
pub proof fn repeated_content_is_silent(
    m: MonitorView,
    content: Seq<char>,
    enabled: bool,
    mode: Seq<char>,
)
    ensures
        clipboard_dispatch(after_clipboard(m, content), content, enabled, mode)
            == DispatchView::Nothing,
        after_clipboard(after_clipboard(m, content), content) == after_clipboard(m, content),
{
}

/// A probe's synthesized copy is not taken for a manual copy afterwards: the
/// content it left on the clipboard is the baseline, or is empty, so the
/// next reading at rest of that same content asks for nothing.
pub proof fn probed_content_is_silent(
    m: MonitorView,
    before: Seq<char>,
    after: Seq<char>,
    now_ms: u64,
    enabled: bool,
    mode: Seq<char>,
)
    requires
        before == m.baseline || after != before,
    ensures
        clipboard_dispatch(after_probe(m, before, after, now_ms), after, enabled, mode)
            == DispatchView::Nothing,
{
}

/// A new text is dispatched exactly once: read at rest with the feature
/// on, a text that is not empty and differs from the baseline is handed to
/// the policy and becomes the baseline, so that every later reading of it
/// asks for nothing and changes nothing.
pub proof fn new_content_is_dispatched_once(
    m: MonitorView,
    content: Seq<char>,
    mode: Seq<char>,
    later_enabled: bool,
    later_mode: Seq<char>,
)
    requires
        content.len() > 0,
        content != m.baseline,
    ensures
        clipboard_dispatch(m, content, true, mode) == policy(true, mode, content),
        mode == "auto"@ ==> clipboard_dispatch(m, content, true, mode) == DispatchView::Translate(
            content,
        ),
        after_clipboard(m, content).baseline == content,
        clipboard_dispatch(after_clipboard(m, content), content, later_enabled, later_mode)
            == DispatchView::Nothing,
        after_clipboard(after_clipboard(m, content), content) == after_clipboard(m, content),
{
}

/// With the feature off, or on a poll while monitoring is off, the
/// baseline still follows the clipboard: a new text asks for nothing,
/// becomes the baseline, and is not replayed when the feature is on again
/// and the clipboard still holds it.
pub proof fn disabled_content_is_not_replayed(
    m: MonitorView,
    content: Seq<char>,
    mode: Seq<char>,
    later_mode: Seq<char>,
)
    requires
        content.len() > 0,
        content != m.baseline,
    ensures
        clipboard_dispatch(m, content, false, mode) == DispatchView::Nothing,
        after_clipboard(m, content).baseline == content,
        clipboard_dispatch(after_clipboard(m, content), content, true, later_mode)
            == DispatchView::Nothing,
{
}

/// The outcome of a probe, by what the copy command did to the clipboard:
/// new content that is not empty becomes the baseline and goes to the
/// policy; an emptied clipboard moves the baseline and asks for nothing;
/// an unchanged clipboard changes nothing and asks for nothing.
pub proof fn probe_outcomes(
    m: MonitorView,
    before: Seq<char>,
    after: Seq<char>,
    now_ms: u64,
    enabled: bool,
    mode: Seq<char>,
)
    ensures
        after.len() > 0 && after != before ==> after_probe(m, before, after, now_ms).baseline
            == after && probe_dispatch(before, after, enabled, mode) == policy(
            enabled,
            mode,
            after,
        ),
        after.len() == 0 && after != before ==> after_probe(m, before, after, now_ms).baseline
            == after && probe_dispatch(before, after, enabled, mode) == DispatchView::Nothing,
        after == before ==> after_probe(m, before, after, now_ms).baseline == m.baseline
            && probe_dispatch(before, after, enabled, mode) == DispatchView::Nothing,
{
}

/// The poll that sees a release never asks for the clipboard check, so
/// what the copy command of a probe put on the clipboard cannot pass for a
/// manual copy on that poll.
pub proof fn release_poll_skips_clipboard_check(m: MonitorView, cursor: (i32, i32), now_ms: u64)
    requires
        m.was_pressed,
    ensures
        tick_action(m, false, cursor, now_ms) != TickAction::CheckClipboard,
        !after_tick(m, false, cursor, now_ms).was_pressed,
{
}

/// Whether the monitor loop runs at all: the feature and its clipboard
/// monitoring must both be switched on.
pub fn monitoring_active(enabled: bool, monitor_clipboard: bool) -> (r: bool)
    ensures
        r == (enabled && monitor_clipboard),
{
    enabled && monitor_clipboard
}

/// Where the floating indicator goes for a pointer at `cursor`: 15 to the
/// right and 45 up, kept inside the coordinate range.
pub open spec fn indicator_anchor(cursor: (i32, i32)) -> (i32, i32) {
    (
        if cursor.0 > i32::MAX - 15 {
            i32::MAX
        } else {
            (cursor.0 + 15) as i32
        },
        if cursor.1 < i32::MIN + 45 {
            i32::MIN
        } else {
            (cursor.1 - 45) as i32
        },
    )
}

/// Computes the position of the floating indicator.
pub fn indicator_position(cursor: (i32, i32)) -> (p: (i32, i32))
    ensures
        p == indicator_anchor(cursor),
{
    let x: i32 = if cursor.0 > i32::MAX - 15 {
        i32::MAX
    } else {
        cursor.0 + 15
    };
    let y: i32 = if cursor.1 < i32::MIN + 45 {
        i32::MIN
    } else {
        cursor.1 - 45
    };
    (x, y)
}

} // verus!
