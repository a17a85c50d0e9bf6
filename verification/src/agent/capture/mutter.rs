//! Linux live capture via GNOME Mutter ScreenCast and GStreamer.
//!
//! Mutter casts a chosen monitor without a dialog, and the system's GStreamer
//! pulls the frames. What to capture, at which size, and with which command is
//! decided here from what Mutter says of its monitors.

use std::time::Duration;
use vstd::prelude::*;
use vstd::string::*;

use super::image;
use super::image::png_encode;
use crate::agent::error;
use crate::agent::error::{config_error, AgentError, AgentErrorView, AgentResult};
use crate::packets::HostConsoleState;
use crate::sdk::lan::DisplayInfo;
use crate::text;
use crate::text::{
    chars_of, decimal, find_text, joined, lossy_text, same_text, trim,
};
use crate::time;
use crate::time::NANOS_PER_SEC;

verus! {

/// Upper bound on the width of the streamed frame.
pub const MAX_W: u32 = 1920;

/// Upper bound on the height of the streamed frame.
pub const MAX_H: u32 = 1080;

/// Width when the monitor's mode resolution can't be read.
pub const FALLBACK_W: usize = 1280;

/// Height when the monitor's mode resolution can't be read.
pub const FALLBACK_H: usize = 720;

/// The size of a source shrunk to the greatest width.
pub open spec fn within_width(w: nat, h: nat) -> (nat, nat) {
    if w > MAX_W {
        (MAX_W as nat, h * (MAX_W as nat) / w)
    } else {
        (w, h)
    }
}

/// The size of a source shrunk to the greatest height.
pub open spec fn within_height(w: nat, h: nat) -> (nat, nat) {
    if h > MAX_H {
        (w * (MAX_H as nat) / h, MAX_H as nat)
    } else {
        (w, h)
    }
}

/// The size of a source shrunk to fit the box, before rounding.
pub open spec fn fitted(w: nat, h: nat) -> (nat, nat) {
    let by_width = within_width(w, h);
    within_height(by_width.0, by_width.1)
}

/// The even number not above `v`, and at least 2.
pub open spec fn even(v: nat) -> nat {
    if v < 2 {
        2
    } else {
        (v - v % 2) as nat
    }
}

/// The size of the frames streamed from a source of the given size.
pub open spec fn output_size(src_w: u32, src_h: u32) -> (nat, nat) {
    if src_w == 0 || src_h == 0 {
        (FALLBACK_W as nat, FALLBACK_H as nat)
    } else {
        let size = fitted(src_w as nat, src_h as nat);
        (even(size.0), even(size.1))
    }
}

fn to_even(v: u32) -> (e: usize)
    ensures
        e == even(v as nat),
{
    if v < 2 {
        2
    } else {
        (v - v % 2) as usize
    }
}

proof fn scaled_is_smaller(v: int, limit: int, n: int)
    requires
        0 <= v,
        0 < limit < n,
    ensures
        0 <= v * limit / n <= v,
        0 <= v * limit,
{
    assert(0 <= v * limit / n <= v) by (nonlinear_arith)
        requires
            0 <= v,
            0 < limit < n,
    ;
    assert(0 <= v * limit) by (nonlinear_arith)
        requires
            0 <= v,
            0 < limit,
    ;
}

/// Scale a source down to fit the [`MAX_W`] by [`MAX_H`] box, preserving aspect
/// ratio and never upscaling; result dimensions are even. Returns the fallback
/// size when the source resolution is unknown.
pub fn fit_output(src_w: u32, src_h: u32) -> (size: (usize, usize))
    ensures
        (size.0 as nat, size.1 as nat) == output_size(src_w, src_h),
{
    if src_w == 0 || src_h == 0 {
        return (FALLBACK_W, FALLBACK_H);
    }
    let mut w: u32 = src_w;
    let mut h: u32 = src_h;
    if w > MAX_W {
        proof {
            scaled_is_smaller(h as int, MAX_W as int, w as int);
        }
        h = (h as u64 * MAX_W as u64 / w as u64) as u32;
        w = MAX_W;
    }
    if h > MAX_H {
        proof {
            scaled_is_smaller(w as int, MAX_H as int, h as int);
        }
        w = (w as u64 * MAX_H as u64 / h as u64) as u32;
        h = MAX_H;
    }
    (to_even(w), to_even(h))
}

/// Frames fit the box, have even dimensions, and are never larger than the
/// source (but for a dimension of less than two pixels).
pub proof fn output_fits_box(src_w: u32, src_h: u32)
    ensures
        2 <= output_size(src_w, src_h).0 <= MAX_W,
        2 <= output_size(src_w, src_h).1 <= MAX_H,
        output_size(src_w, src_h).0 % 2 == 0,
        output_size(src_w, src_h).1 % 2 == 0,
        src_w >= 2 && src_h >= 2 ==> output_size(src_w, src_h).0 <= src_w && output_size(
            src_w,
            src_h,
        ).1 <= src_h,
{
    if src_w > 0 && src_h > 0 {
        let (w, h) = (src_w as int, src_h as int);
        if w > MAX_W {
            scaled_is_smaller(h, MAX_W as int, w);
        }
        let by_width = within_width(w as nat, h as nat);
        if by_width.1 > MAX_H {
            scaled_is_smaller(by_width.0 as int, MAX_H as int, by_width.1 as int);
        }
    }
}

/// A source that fits the box passes unchanged, but for an odd last line.
pub proof fn small_source_is_kept(src_w: u32, src_h: u32)
    requires
        2 <= src_w <= MAX_W,
        2 <= src_h <= MAX_H,
    ensures
        output_size(src_w, src_h) == ((src_w - src_w % 2) as nat, (src_h - src_h % 2) as nat),
{
}

/// A source that is too wide only is shrunk to the full width, and its height by
/// the same ratio, up to the rounding to even numbers.
pub proof fn wide_source_keeps_aspect(src_w: u32, src_h: u32)
    requires
        src_w > MAX_W,
        2 * src_w <= src_h * MAX_W < (MAX_H + 1) * src_w,
    ensures
        output_size(src_w, src_h).0 == MAX_W,
        output_size(src_w, src_h).1 * src_w <= src_h * MAX_W,
        src_h * MAX_W < (output_size(src_w, src_h).1 + 2) * src_w,
{
    let (w, h, m) = (src_w as int, src_h as int, MAX_W as int);
    let q = h * m / w;
    assert(q * w <= h * m < (q + 1) * w) by (nonlinear_arith)
        requires
            q == h * m / w,
            w > 0,
    ;
    assert(2 <= q <= MAX_H) by (nonlinear_arith)
        requires
            q * w <= h * m < (q + 1) * w,
            2 * w <= h * m < (MAX_H + 1) * w,
            w > 0,
    ;
    let e = even(q as nat) as int;
    assert(e <= q < e + 2);
    assert(e * w <= q * w) by (nonlinear_arith)
        requires
            e <= q,
            w > 0,
    ;
    assert((q + 1) * w <= (e + 2) * w) by (nonlinear_arith)
        requires
            q + 1 <= e + 2,
            w > 0,
    ;
}

/// A source that is too tall only is shrunk to the full height, and its width by
/// the same ratio, up to the rounding to even numbers.
pub proof fn tall_source_keeps_aspect(src_w: u32, src_h: u32)
    requires
        src_w <= MAX_W,
        src_h > MAX_H,
        2 * src_h <= src_w * MAX_H,
    ensures
        output_size(src_w, src_h).1 == MAX_H,
        output_size(src_w, src_h).0 * src_h <= src_w * MAX_H,
        src_w * MAX_H < (output_size(src_w, src_h).0 + 2) * src_h,
{
    scaled_to_even(src_w as int, MAX_H as int, src_h as int);
}

/// A source that is too wide, and still too tall once it has the full width, is
/// shrunk to the full height, and its width by the same ratio, up to the rounding
/// of the height in between and the rounding to even numbers.
pub proof fn large_source_keeps_aspect(src_w: u32, src_h: u32)
    requires
        src_w > MAX_W,
        src_h * MAX_W >= (MAX_H + 1) * src_w,
        2 * src_h <= src_w * MAX_H,
    ensures
        output_size(src_w, src_h).1 == MAX_H,
        src_w * MAX_H < (output_size(src_w, src_h).0 + 2) * src_h,
        output_size(src_w, src_h).0 * (src_h * MAX_W - src_w) <= src_w * MAX_H * MAX_W,
{
    let (w, h, mw, mh) = (src_w as int, src_h as int, MAX_W as int, MAX_H as int);
    let q = h * mw / w;
    assert(q * w <= h * mw < (q + 1) * w) by (nonlinear_arith)
        requires
            q == h * mw / w,
            w > 0,
    ;
    assert(mh < q) by (nonlinear_arith)
        requires
            h * mw < (q + 1) * w,
            h * mw >= (mh + 1) * w,
            w > 0,
    ;
    assert(2 * q <= mw * mh) by (nonlinear_arith)
        requires
            q * w <= h * mw,
            2 * h <= w * mh,
            w > 0,
            mw > 0,
    ;
    scaled_to_even(mw, mh, q);
    let e = even((mw * mh / q) as nat) as int;
    assert(w * mh < (e + 2) * h) by (nonlinear_arith)
        requires
            mw * mh < (e + 2) * q,
            q * w <= h * mw,
            w > 0,
            mw > 0,
            e >= 0,
    ;
    assert(e * (h * mw - w) <= w * mh * mw) by (nonlinear_arith)
        requires
            e * q <= mw * mh,
            h * mw < (q + 1) * w,
            w > 0,
            e >= 0,
    ;
}

proof fn scaled_to_even(v: int, limit: int, n: int)
    requires
        0 <= v,
        0 < limit < n,
        2 * n <= v * limit,
    ensures
        even((v * limit / n) as nat) * n <= v * limit,
        v * limit < (even((v * limit / n) as nat) + 2) * n,
{
    let q = v * limit / n;
    assert(q * n <= v * limit < (q + 1) * n && q >= 2) by (nonlinear_arith)
        requires
            q == v * limit / n,
            2 * n <= v * limit,
            n > 0,
    ;
    let e = even(q as nat) as int;
    assert(e <= q < e + 2);
    assert(e * n <= q * n && (q + 1) * n <= (e + 2) * n) by (nonlinear_arith)
        requires
            e <= q,
            q + 1 <= e + 2,
            n > 0,
    ;
}

/// A mode of a monitor.
#[derive(Debug, Clone, Copy)]
pub struct ModeState {
    pub width: i32,
    pub height: i32,
    pub is_current: bool,
}

/// What Mutter says of a monitor.
#[derive(Debug)]
pub struct MonitorState {
    pub connector: String,
    pub vendor: String,
    pub product: String,
    pub modes: Vec<ModeState>,
}

/// What Mutter says of a logical monitor.
#[derive(Debug)]
pub struct LogicalMonitor {
    pub primary: bool,
    /// The connectors of its monitors.
    pub connectors: Vec<String>,
}

/// One monitor Mutter can cast, with its current-mode pixel resolution (0 by 0
/// when unknown: capture then falls back to a fixed size).
#[derive(Debug)]
pub struct MonitorInfo {
    pub connector: String,
    pub label: String,
    pub width: u32,
    pub height: u32,
}

/// A [`MonitorInfo`] with its strings as characters.
pub struct MonitorView {
    pub connector: Seq<char>,
    pub label: Seq<char>,
    pub width: u32,
    pub height: u32,
}

impl View for MonitorInfo {
    type V = MonitorView;

    open spec fn view(&self) -> MonitorView {
        MonitorView {
            connector: self.connector@,
            label: self.label@,
            width: self.width,
            height: self.height,
        }
    }
}

/// The views of monitors.
pub open spec fn monitor_views(monitors: Seq<MonitorInfo>) -> Seq<MonitorView> {
    monitors.map_values(|m: MonitorInfo| m@)
}

/// What a monitor is called: by its product, else its vendor, behind the connector.
pub open spec fn monitor_label(state: MonitorState) -> Seq<char> {
    if state.product@.len() > 0 {
        state.connector@ + " · "@ + state.product@
    } else if state.vendor@.len() > 0 {
        state.connector@ + " · "@ + state.vendor@
    } else {
        state.connector@
    }
}

/// The first mode from `from` on that is the current one.
pub open spec fn current_mode(modes: Seq<ModeState>, from: int) -> Option<ModeState>
    decreases modes.len() - from,
{
    if from < 0 || from >= modes.len() {
        None
    } else if modes[from].is_current {
        Some(modes[from])
    } else {
        current_mode(modes, from + 1)
    }
}

/// The mode that gives a monitor's resolution: the current one, else the first.
pub open spec fn active_mode(modes: Seq<ModeState>) -> Option<ModeState> {
    if current_mode(modes, 0) is Some {
        current_mode(modes, 0)
    } else if modes.len() > 0 {
        Some(modes[0])
    } else {
        None
    }
}

/// A dimension; 0 if it is negative.
pub open spec fn dimension(v: i32) -> u32 {
    if v >= 0 {
        v as u32
    } else {
        0
    }
}

/// The monitor that Mutter describes so.
pub open spec fn described(state: MonitorState) -> MonitorView {
    MonitorView {
        connector: state.connector@,
        label: monitor_label(state),
        width: match active_mode(state.modes@) {
            Some(mode) => dimension(mode.width),
            None => 0,
        },
        height: match active_mode(state.modes@) {
            Some(mode) => dimension(mode.height),
            None => 0,
        },
    }
}

/// The monitors that Mutter describes so, in its order.
pub open spec fn described_all(states: Seq<MonitorState>) -> Seq<MonitorView> {
    states.map_values(|s: MonitorState| described(s))
}

/// The connector of the first primary logical monitor from `from` on.
pub open spec fn primary_connector(logical: Seq<LogicalMonitor>, from: int) -> Option<Seq<char>>
    decreases logical.len() - from,
{
    if from < 0 || from >= logical.len() {
        None
    } else if logical[from].primary {
        if logical[from].connectors@.len() > 0 {
            Some(logical[from].connectors@[0]@)
        } else {
            None
        }
    } else {
        primary_connector(logical, from + 1)
    }
}

/// The monitors that have the given connector, or those that have not.
pub open spec fn with_connector(monitors: Seq<MonitorView>, connector: Seq<char>, has: bool) -> Seq<
    MonitorView,
>
    decreases monitors.len(),
{
    if monitors.len() == 0 {
        Seq::empty()
    } else {
        let rest = with_connector(monitors.drop_last(), connector, has);
        if (monitors.last().connector == connector) == has {
            rest.push(monitors.last())
        } else {
            rest
        }
    }
}

/// The monitors with the primary one in front, and in Mutter's order otherwise.
pub open spec fn listed(states: Seq<MonitorState>, logical: Seq<LogicalMonitor>) -> Seq<MonitorView> {
    let all = described_all(states);
    match primary_connector(logical, 0) {
        Some(connector) => with_connector(all, connector, true) + with_connector(
            all,
            connector,
            false,
        ),
        None => all,
    }
}

fn find_mode(modes: &Vec<ModeState>) -> (mode: Option<ModeState>)
    ensures
        mode == active_mode(modes@),
{
    let mut i: usize = 0;
    while i < modes.len()
        invariant
            i <= modes@.len(),
            current_mode(modes@, 0) == current_mode(modes@, i as int),
        decreases modes@.len() - i,
    {
        if modes[i].is_current {
            return Some(modes[i]);
        }
        i = i + 1;
    }
    if modes.len() > 0 {
        Some(modes[0])
    } else {
        None
    }
}

fn to_dimension(v: i32) -> (d: u32)
    ensures
        d == dimension(v),
{
    if v >= 0 {
        v as u32
    } else {
        0
    }
}

/// The monitor that Mutter describes so.
fn monitor_of(state: &MonitorState) -> (monitor: MonitorInfo)
    ensures
        monitor@ == described(*state),
{
    let connector = state.connector.as_str();
    let label = if !state.product.as_str().is_empty() {
        joined(joined(connector, " · ").as_str(), state.product.as_str())
    } else if !state.vendor.as_str().is_empty() {
        joined(joined(connector, " · ").as_str(), state.vendor.as_str())
    } else {
        connector.to_owned()
    };
    let (width, height) = match find_mode(&state.modes) {
        Some(mode) => (to_dimension(mode.width), to_dimension(mode.height)),
        None => (0, 0),
    };
    MonitorInfo { connector: connector.to_owned(), label, width, height }
}

fn find_primary(logical: &Vec<LogicalMonitor>) -> (connector: Option<String>)
    ensures
        connector is Some == primary_connector(logical@, 0) is Some,
        connector matches Some(c) ==> Some(c@) == primary_connector(logical@, 0),
{
    let mut i: usize = 0;
    while i < logical.len()
        invariant
            i <= logical@.len(),
            primary_connector(logical@, 0) == primary_connector(logical@, i as int),
        decreases logical@.len() - i,
    {
        if logical[i].primary {
            if logical[i].connectors.len() > 0 {
                return Some(logical[i].connectors[0].as_str().to_owned());
            }
            return None;
        }
        i = i + 1;
    }
    None
}

/// The monitors of a session: the primary one first, so that it is what is
/// captured by default, and the others in Mutter's order.
pub fn monitors(states: &Vec<MonitorState>, logical: &Vec<LogicalMonitor>) -> (monitors: Vec<
    MonitorInfo,
>)
    ensures
        monitor_views(monitors@) == listed(states@, logical@),
{
    let primary = find_primary(logical);
    let ghost all = described_all(states@);
    let mut front: Vec<MonitorInfo> = Vec::new();
    let mut back: Vec<MonitorInfo> = Vec::new();
    let ghost key = primary_connector(logical@, 0);
    assert(monitor_views(front@) =~= Seq::empty());
    assert(monitor_views(back@) =~= Seq::empty());
    assert(all.take(0) =~= Seq::empty());
    let mut i: usize = 0;
    while i < states.len()
        invariant
            i <= states@.len(),
            all == described_all(states@),
            primary is Some == key is Some,
            primary matches Some(c) ==> Some(c@) == key,
            key matches Some(c) ==> monitor_views(front@) == with_connector(
                all.take(i as int),
                c,
                true,
            ) && monitor_views(back@) == with_connector(all.take(i as int), c, false),
            key is None ==> front@.len() == 0 && monitor_views(back@) == all.take(i as int),
        decreases states@.len() - i,
    {
        let monitor = monitor_of(&states[i]);
        proof {
            assert(all.take(i as int + 1).drop_last() =~= all.take(i as int));
            assert(all.take(i as int + 1).last() == monitor@);
        }
        let is_primary = match &primary {
            Some(connector) => same_text(monitor.connector.as_str(), connector.as_str()),
            None => false,
        };
        let ghost (f, b) = (monitor_views(front@), monitor_views(back@));
        let ghost m = monitor@;
        if is_primary {
            front.push(monitor);
            assert(monitor_views(front@) =~= f.push(m));
        } else {
            back.push(monitor);
            assert(monitor_views(back@) =~= b.push(m));
        }
        assert(key is None ==> all.take(i as int + 1) =~= all.take(i as int).push(m));
        i = i + 1;
    }
    assert(all.take(states@.len() as int) =~= all);
    let ghost (f, b) = (front@, back@);
    front.append(&mut back);
    proof {
        assert(front@ =~= f + b);
        assert(monitor_views(front@) =~= monitor_views(f) + monitor_views(b));
        if key is None {
            assert(monitor_views(f) + monitor_views(b) =~= monitor_views(b));
        }
    }
    front
}

proof fn connector_parts_len(monitors: Seq<MonitorView>, connector: Seq<char>)
    ensures
        with_connector(monitors, connector, true).len() + with_connector(
            monitors,
            connector,
            false,
        ).len() == monitors.len(),
        forall|i: int|
            0 <= i < with_connector(monitors, connector, true).len() ==> (#[trigger] with_connector(
                monitors,
                connector,
                true,
            )[i]).connector == connector,
        (exists|i: int| 0 <= i < monitors.len() && (#[trigger] monitors[i]).connector == connector)
            ==> with_connector(monitors, connector, true).len() > 0,
    decreases monitors.len(),
{
    if monitors.len() > 0 {
        connector_parts_len(monitors.drop_last(), connector);
        if exists|i: int|
            0 <= i < monitors.len() && (#[trigger] monitors[i]).connector == connector {
            let i = choose|i: int|
                0 <= i < monitors.len() && (#[trigger] monitors[i]).connector == connector;
            if i < monitors.len() - 1 {
                assert(monitors.drop_last()[i].connector == connector);
            }
        }
    }
}

/// The monitors of a session are those that Mutter describes, and the primary
/// one, if it is among them, is the first.
pub proof fn primary_is_listed_first(states: Seq<MonitorState>, logical: Seq<LogicalMonitor>)
    ensures
        listed(states, logical).len() == states.len(),
        primary_connector(logical, 0) matches Some(connector) ==> ((exists|i: int|
            0 <= i < states.len() && (#[trigger] states[i]).connector@ == connector) ==> listed(
            states,
            logical,
        )[0].connector == connector),
{
    if let Some(connector) = primary_connector(logical, 0) {
        let all = described_all(states);
        connector_parts_len(all, connector);
        if exists|i: int| 0 <= i < states.len() && (#[trigger] states[i]).connector@ == connector {
            let i = choose|i: int|
                0 <= i < states.len() && (#[trigger] states[i]).connector@ == connector;
            assert(all[i].connector == connector);
        }
    }
}

/// The monitors this host can share (index = `DisplayInfo.id`).
pub fn list_displays(monitors: &Vec<MonitorInfo>) -> (displays: Vec<DisplayInfo>)
    ensures
        are_displays_of(displays@, monitors@),
        displays@.len() == monitors@.len(),
        forall|i: int|
            0 <= i < displays@.len() ==> (#[trigger] displays@[i]).id == (if i <= u32::MAX {
                i
            } else {
                0
            }) && displays@[i].name@ == monitors@[i].label@,
{
    let mut displays: Vec<DisplayInfo> = Vec::new();
    let mut i: usize = 0;
    while i < monitors.len()
        invariant
            i <= monitors@.len(),
            displays@.len() == i,
            forall|k: int|
                0 <= k < i ==> (#[trigger] displays@[k]).id == (if k <= u32::MAX {
                    k
                } else {
                    0
                }) && displays@[k].name@ == monitors@[k].label@,
        decreases monitors@.len() - i,
    {
        let id: u32 = if i <= u32::MAX as usize {
            i as u32
        } else {
            0
        };
        displays.push(DisplayInfo { id, name: monitors[i].label.as_str().to_owned() });
        i = i + 1;
    }
    displays
}

/// The index of the monitor for a wanted display: that one if it exists, else
/// the primary one.
pub open spec fn chosen(display: Option<u32>, count: nat) -> int {
    match display {
        Some(d) => if d < count {
            d as int
        } else {
            0
        },
        None => 0,
    }
}

/// The index of the monitor for a wanted display.
pub fn choose_monitor(display: Option<u32>, count: usize) -> (index: usize)
    ensures
        index == chosen(display, count as nat),
        count > 0 ==> index < count,
{
    match display {
        Some(d) => {
            if (d as usize) < count {
                d as usize
            } else {
                0
            }
        },
        None => 0,
    }
}

/// The connector, the width and the height of the shared monitor at index
/// `display` (`None` is the primary one): what remote input records, so that its
/// absolute coordinates land on the screen the viewer sees. `None` if there is
/// no monitor.
pub fn monitor_target(monitors: &Vec<MonitorInfo>, display: Option<u32>) -> (target: Option<
    (String, u32, u32),
>)
    ensures
        target is Some == (monitors@.len() > 0),
        target matches Some((connector, w, h)) ==> {
            let m = monitors@[chosen(display, monitors@.len())];
            connector@ == m.connector@ && w == m.width && h == m.height
        },
{
    if monitors.len() == 0 {
        return None;
    }
    let index: usize = choose_monitor(display, monitors.len());
    let m = &monitors[index];
    Some((m.connector.as_str().to_owned(), m.width, m.height))
}

/// A capture that is about to begin.
#[derive(Debug)]
pub struct CapturePlan {
    pub connector: String,
    /// Width of the frames.
    pub width: usize,
    /// Height of the frames.
    pub height: usize,
}

/// Whether `plan` captures `monitor`.
pub open spec fn captures(plan: CapturePlan, monitor: MonitorInfo) -> bool {
    &&& plan.connector@ == monitor.connector@
    &&& (plan.width as nat, plan.height as nat) == output_size(monitor.width, monitor.height)
}

fn plan_for(monitor: &MonitorInfo) -> (plan: CapturePlan)
    ensures
        captures(plan, *monitor),
{
    let (width, height) = fit_output(monitor.width, monitor.height);
    CapturePlan { connector: monitor.connector.as_str().to_owned(), width, height }
}

/// The capture of one frame of the primary monitor.
pub fn plan_one_frame(monitors: &Vec<MonitorInfo>) -> (r: AgentResult<CapturePlan>)
    ensures
        error::fails_with(
            r,
            if monitors@.len() > 0 {
                None
            } else {
                Some(
                    AgentErrorView::Config(
                        "no active GNOME monitor is available in this graphical session"@,
                    ),
                )
            },
        ),
        r matches Ok(plan) ==> captures(plan, monitors@[0]),
{
    if monitors.len() == 0 {
        return Err(config_error("no active GNOME monitor is available in this graphical session"));
    }
    Ok(plan_for(&monitors[0]))
}

/// The capture for a live stream of a display.
pub fn plan_stream(monitors: &Vec<MonitorInfo>, display: Option<u32>) -> (r: AgentResult<
    CapturePlan,
>)
    ensures
        error::fails_with(
            r,
            if monitors@.len() > 0 {
                None
            } else {
                Some(AgentErrorView::Lan("no monitors found to share"@))
            },
        ),
        r matches Ok(plan) ==> captures(plan, monitors@[chosen(display, monitors@.len())]),
{
    if monitors.len() == 0 {
        return Err(AgentError::Lan("no monitors found to share".to_owned()));
    }
    let index: usize = choose_monitor(display, monitors.len());
    Ok(plan_for(&monitors[index]))
}

/// Bytes of a frame.
pub fn frame_bytes(width: usize, height: usize) -> (r: AgentResult<usize>)
    ensures
        error::fails_with(
            r,
            if width * height * 4 <= usize::MAX {
                None
            } else {
                Some(AgentErrorView::Config("virtual monitor dimensions are too large"@))
            },
        ),
        r matches Ok(n) ==> n == width * height * 4,
{
    proof {
        let (w, h) = (width as int, height as int);
        assert(0 <= w * h) by (nonlinear_arith)
            requires
                0 <= w,
                0 <= h,
        ;
    }
    match width.checked_mul(height) {
        Some(pixels) => match pixels.checked_mul(4) {
            Some(n) => Ok(n),
            None => Err(config_error("virtual monitor dimensions are too large")),
        },
        None => Err(config_error("virtual monitor dimensions are too large")),
    }
}

/// The only backends permitted for a physical console session. In particular,
/// there is no screenshot-file backend: a greeter frame can contain account
/// information and must not be persisted as a convenience fallback.
#[derive(Debug, Clone, Copy, PartialEq, Eq, Structural)]
pub enum ConsoleCaptureBackend {
    DirectScreenCast,
    RemoteDesktopScreenCast,
}

/// The fault of capturing a console in a state.
pub open spec fn backend_fault(state: HostConsoleState) -> Option<AgentErrorView> {
    match state {
        HostConsoleState::GdmLogin
        | HostConsoleState::SessionLocked
        | HostConsoleState::DesktopReady => None,
        _ => Some(
            AgentErrorView::Config(
                "graphical console capture is unavailable while the session is transitioning"@,
            ),
        ),
    }
}

/// The backend for a console in a state. GDM and a locked session need the
/// screen cast to be owned by a remote-desktop session.
pub fn console_capture_backend(state: HostConsoleState) -> (r: AgentResult<ConsoleCaptureBackend>)
    ensures
        error::fails_with(r, backend_fault(state)),
        r matches Ok(backend) ==> backend == (if state == HostConsoleState::DesktopReady {
            ConsoleCaptureBackend::DirectScreenCast
        } else {
            ConsoleCaptureBackend::RemoteDesktopScreenCast
        }),
        r matches Ok(backend) ==> Some(backend) == backend_of(state),
        r is Err ==> backend_of(state) is None,
{
    match state {
        HostConsoleState::GdmLogin | HostConsoleState::SessionLocked => {
            Ok(ConsoleCaptureBackend::RemoteDesktopScreenCast)
        },
        HostConsoleState::DesktopReady => Ok(ConsoleCaptureBackend::DirectScreenCast),
        HostConsoleState::Booting
        | HostConsoleState::SessionStarting
        | HostConsoleState::SessionSwitching
        | HostConsoleState::Offline => Err(
            config_error(
                "graphical console capture is unavailable while the session is transitioning",
            ),
        ),
    }
}

/// `c` in ASCII lower case.
pub open spec fn lower(c: char) -> char {
    if 'A' <= c <= 'Z' {
        (c as u32 + 32) as char
    } else {
        c
    }
}

/// Whether an error says that Mutter refused to open a session.
pub open spec fn is_inhibited(error: AgentErrorView) -> bool {
    text::first_match(
        error.text().map_values(|c: char| lower(c)),
        "session creation inhibited"@,
    ) is Some
}

/// Whether an error says that Mutter refused to open a session.
pub fn session_creation_inhibited(error: &AgentError) -> (inhibited: bool)
    ensures
        inhibited == is_inhibited(error@),
{
    let v = chars_of(error.to_string().as_str());
    let mut small: Vec<char> = Vec::new();
    let mut i: usize = 0;
    while i < v.len()
        invariant
            i <= v@.len(),
            small@ == v@.take(i as int).map_values(|c: char| lower(c)),
        decreases v@.len() - i,
    {
        let c: char = v[i];
        if 'A' <= c && c <= 'Z' {
            let n: u8 = (c as u32) as u8;
            small.push((n + 32) as char);
        } else {
            small.push(c);
        }
        assert(small@ =~= v@.take(i as int + 1).map_values(|c: char| lower(c)));
        i = i + 1;
    }
    assert(v@.take(v@.len() as int) =~= v@);
    find_text(&small, "session creation inhibited").is_some()
}

/// What follows a direct capture of an unlocked desktop.
#[derive(Debug)]
pub enum DirectCapture {
    /// The capture is what it is.
    Done(AgentResult<Vec<u8>>),
    /// Mutter refused: capture through a remote-desktop session instead.
    Retry,
}

/// What follows a direct capture: another try through a remote-desktop session,
/// exactly when Mutter refused to open one for the screen cast.
pub fn after_direct_capture(result: AgentResult<Vec<u8>>) -> (next: DirectCapture)
    ensures
        next == (if result is Err && is_inhibited(result->Err_0@) {
            DirectCapture::Retry
        } else {
            DirectCapture::Done(result)
        }),
{
    match result {
        Ok(png) => DirectCapture::Done(Ok(png)),
        Err(e) => {
            if session_creation_inhibited(&e) {
                DirectCapture::Retry
            } else {
                DirectCapture::Done(Err(e))
            }
        },
    }
}

/// Whole seconds of a timeout, at least one.
pub open spec fn timeout_secs(timeout: Duration) -> nat {
    let secs = time::nanos(timeout) / (NANOS_PER_SEC as nat);
    if secs < 1 {
        1
    } else {
        secs
    }
}

fn whole_secs(timeout: Duration) -> (secs: u64)
    ensures
        secs == timeout_secs(timeout),
{
    let secs: u64 = timeout.as_secs();
    if secs < 1 {
        1
    } else {
        secs
    }
}

/// The texts of a command's arguments.
pub open spec fn arg_texts(args: Seq<String>) -> Seq<Seq<char>> {
    args.map_values(|a: String| a@)
}

/// The arguments of the GStreamer pipeline that writes fixed-size BGRx frames of
/// a PipeWire node to standard output, as soon as they arrive.
pub open spec fn pipeline_args(node: u32, width: usize, height: usize) -> Seq<Seq<char>> {
    seq![
        "-q"@,
        "pipewiresrc"@,
        "path="@ + text::decimal_digits(node as nat),
        "do-timestamp=true"@,
        "!"@,
        "videoscale"@,
        "add-borders=true"@,
        "!"@,
        "videoconvert"@,
        "!"@,
        "video/x-raw,format=BGRx,width="@ + text::decimal_digits(width as nat) + ",height="@
            + text::decimal_digits(height as nat),
        "!"@,
        "fdsink"@,
        "fd=1"@,
        "sync=false"@,
    ]
}

fn push_arg(args: &mut Vec<String>, arg: String)
    ensures
        arg_texts(final(args)@) == arg_texts(old(args)@).push(arg@),
{
    let ghost before = arg_texts(args@);
    args.push(arg);
    assert(arg_texts(args@) =~= before.push(arg@));
}

fn push_pipeline(args: &mut Vec<String>, node: u32, width: usize, height: usize)
    ensures
        arg_texts(final(args)@) == arg_texts(old(args)@) + pipeline_args(node, width, height),
{
    let ghost before = arg_texts(args@);
    let mut caps = joined("video/x-raw,format=BGRx,width=", decimal(width as u64).as_str());
    caps.append(",height=");
    caps.append(decimal(height as u64).as_str());
    push_arg(args, "-q".to_owned());
    push_arg(args, "pipewiresrc".to_owned());
    push_arg(args, joined("path=", decimal(node as u64).as_str()));
    push_arg(args, "do-timestamp=true".to_owned());
    push_arg(args, "!".to_owned());
    push_arg(args, "videoscale".to_owned());
    push_arg(args, "add-borders=true".to_owned());
    push_arg(args, "!".to_owned());
    push_arg(args, "videoconvert".to_owned());
    push_arg(args, "!".to_owned());
    push_arg(args, caps);
    push_arg(args, "!".to_owned());
    push_arg(args, "fdsink".to_owned());
    push_arg(args, "fd=1".to_owned());
    push_arg(args, "sync=false".to_owned());
    assert(arg_texts(args@) =~= before + pipeline_args(node, width, height));
}

/// The arguments of `gst-launch-1.0` for a live stream.
pub fn gst_args(node: u32, width: usize, height: usize) -> (args: Vec<String>)
    ensures
        arg_texts(args@) == pipeline_args(node, width, height),
{
    let mut args: Vec<String> = Vec::new();
    let ghost none = arg_texts(args@);
    push_pipeline(&mut args, node, width, height);
    assert(none + pipeline_args(node, width, height) =~= pipeline_args(node, width, height));
    args
}

/// The arguments of `timeout` for one frame: the same pipeline, ended after the
/// timeout in whole seconds.
pub fn one_frame_gst_args(node: u32, width: usize, height: usize, timeout: Duration) -> (args: Vec<
    String,
>)
    ensures
        arg_texts(args@) == seq![
            "--signal=TERM"@,
            text::decimal_digits(timeout_secs(timeout)) + "s"@,
            "gst-launch-1.0"@,
        ] + pipeline_args(node, width, height),
{
    let mut args: Vec<String> = Vec::new();
    push_arg(&mut args, "--signal=TERM".to_owned());
    push_arg(&mut args, joined(decimal(whole_secs(timeout)).as_str(), "s"));
    push_arg(&mut args, "gst-launch-1.0".to_owned());
    assert(arg_texts(args@) =~= seq![
        "--signal=TERM"@,
        text::decimal_digits(timeout_secs(timeout)) + "s"@,
        "gst-launch-1.0"@,
    ]);
    push_pipeline(&mut args, node, width, height);
    args
}

/// Most bytes of diagnostics that are kept.
pub const MAX_DIAGNOSTIC_BYTES: usize = 4096;

/// What GStreamer printed of an error: the first bytes of it as text, without
/// white space around it.
pub fn diagnostic(output: &[u8]) -> (d: String)
    ensures
        output@.len() <= 4096 ==> d@ == text::trimmed(text::utf8_lossy(output@)),
        output@.len() > 4096 ==> d@ == text::trimmed(text::utf8_lossy(output@.take(4096))),
        d@ == text::trimmed(
            text::utf8_lossy(
                if output@.len() <= MAX_DIAGNOSTIC_BYTES {
                    output@
                } else {
                    output@.take(MAX_DIAGNOSTIC_BYTES as int)
                },
            ),
        ),
{
    let kept = if output.len() <= MAX_DIAGNOSTIC_BYTES {
        output
    } else {
        vstd::slice::slice_subrange(output, 0, MAX_DIAGNOSTIC_BYTES)
    };
    proof {
        if output@.len() > MAX_DIAGNOSTIC_BYTES {
            assert(kept@ =~= output@.take(MAX_DIAGNOSTIC_BYTES as int));
        }
    }
    trim(lossy_text(kept).as_str())
}

/// The error for a capture that gave no frame in time.
pub fn no_frame_error(timeout: Duration, cause: &str, diagnostic: &str) -> (e: AgentError)
    ensures
        e@ == AgentErrorView::Config(
            "Mutter capture did not produce a frame within "@ + text::decimal_digits(
                timeout_secs(timeout),
            ) + " seconds: "@ + cause@ + (if diagnostic@.len() == 0 {
                Seq::empty()
            } else {
                "; GStreamer: "@ + diagnostic@
            }),
        ),
{
    let mut message = joined(
        "Mutter capture did not produce a frame within ",
        decimal(whole_secs(timeout)).as_str(),
    );
    message.append(" seconds: ");
    message.append(cause);
    let ghost before = message@;
    if !diagnostic.is_empty() {
        message.append(joined("; GStreamer: ", diagnostic).as_str());
    } else {
        assert(before + Seq::empty() =~= before);
    }
    AgentError::Config(message)
}

/// BGRx pixels as RGBA: opaque, with red and blue exchanged.
pub open spec fn rgba_pixels(bgrx: Seq<u8>) -> Seq<u8> {
    Seq::new(
        bgrx.len() / 4 * 4,
        |i: int|
            if i % 4 == 3 {
                255u8
            } else {
                bgrx[i / 4 * 4 + 2 - i % 4]
            },
    )
}

/// BGRx pixels as RGBA.
pub fn bgrx_to_rgba(bgrx: &[u8]) -> (rgba: Vec<u8>)
    ensures
        rgba@ == rgba_pixels(bgrx@),
{
    let mut rgba: Vec<u8> = Vec::new();
    let pixels: usize = bgrx.len() / 4;
    let mut p: usize = 0;
    while p < pixels
        invariant
            p <= pixels,
            pixels == bgrx@.len() / 4,
            bgrx@.len() <= usize::MAX,
            rgba@.len() == 4 * p,
            forall|i: int| 0 <= i < 4 * p ==> #[trigger] rgba@[i] == rgba_pixels(bgrx@)[i],
        decreases pixels - p,
    {
        rgba.push(bgrx[4 * p + 2]);
        rgba.push(bgrx[4 * p + 1]);
        rgba.push(bgrx[4 * p]);
        rgba.push(255);
        p = p + 1;
    }
    assert(rgba@ =~= rgba_pixels(bgrx@));
    rgba
}

/// What is wrong with BGRx pixels that should be an image.
pub open spec fn bgrx_fault(width: usize, height: usize, len: nat) -> Option<AgentErrorView> {
    if width > u32::MAX {
        Some(AgentErrorView::Config("virtual monitor width is invalid"@))
    } else if height > u32::MAX {
        Some(AgentErrorView::Config("virtual monitor height is invalid"@))
    } else {
        match image::png_fault(width as u32, height as u32, len / 4 * 4) {
            Some((true, fault)) => Some(
                AgentErrorView::Config("encode headless PNG header: "@ + fault),
            ),
            Some((false, fault)) => Some(
                AgentErrorView::Config("encode headless PNG data: "@ + fault),
            ),
            None => None,
        }
    }
}

/// Encode tightly packed BGRx data from PipeWire as a PNG without writing a
/// plaintext image to disk.
pub fn encode_bgrx_png(width: usize, height: usize, bgrx: &[u8]) -> (r: AgentResult<Vec<u8>>)
    requires
        width * height * 4 <= isize::MAX,
    ensures
        error::fails_with(r, bgrx_fault(width, height, bgrx@.len())),
        r matches Ok(png) ==> png@ == image::png_image(
            width as u32,
            height as u32,
            rgba_pixels(bgrx@),
        ),
{
    let rgba = bgrx_to_rgba(bgrx);
    if width > u32::MAX as usize {
        return Err(config_error("virtual monitor width is invalid"));
    }
    if height > u32::MAX as usize {
        return Err(config_error("virtual monitor height is invalid"));
    }
    match png_encode(width as u32, height as u32, rgba.as_slice()) {
        Ok(png) => Ok(png),
        Err((true, fault)) => Err(
            AgentError::Config(joined("encode headless PNG header: ", fault.as_str())),
        ),
        Err((false, fault)) => Err(
            AgentError::Config(joined("encode headless PNG data: ", fault.as_str())),
        ),
    }
}

/// Milliseconds between two frames at a rate: at least one.
pub fn interval_ms(fps: u16) -> (ms: u64)
    ensures
        ms == (if fps == 0 {
            1000
        } else if fps > 1000 {
            1
        } else {
            1000int / fps as int
        }),
        ms == interval_of(fps),
{
    if fps == 0 {
        1000
    } else {
        let ms: u64 = 1000 / fps as u64;
        proof {
            let f = fps as int;
            if f <= 1000 {
                assert(1000int / f >= 1) by (nonlinear_arith)
                    requires
                        1 <= f <= 1000,
                ;
            } else {
                assert(1000int / f == 0) by (nonlinear_arith)
                    requires
                        f > 1000,
                ;
            }
        }
        if ms < 1 {
            1
        } else {
            ms
        }
    }
}

/// What a capture loop does at a tick.
#[derive(Debug, Clone, Copy, PartialEq, Eq, Structural)]
pub enum StreamTick {
    /// Push the freshest frame into the encoder.
    Push,
    /// Send a heartbeat, if one is due.
    Heartbeat,
    /// The source has ended: stop.
    Stop,
}

/// What a capture loop does at a tick: whatever frame there is comes before the
/// news that the source has ended.
pub fn stream_tick(has_frame: bool, alive: bool) -> (tick: StreamTick)
    ensures
        tick == (if has_frame {
            StreamTick::Push
        } else if alive {
            StreamTick::Heartbeat
        } else {
            StreamTick::Stop
        }),
        tick == tick_of(has_frame, alive),
{
    if has_frame {
        StreamTick::Push
    } else if alive {
        StreamTick::Heartbeat
    } else {
        StreamTick::Stop
    }
}

/// How a capture loop ends: as a failure, if it never had a frame.
pub fn stream_result(saw_frame: bool) -> (r: AgentResult<()>)
    ensures
        error::fails_with(
            r,
            if saw_frame {
                None
            } else {
                Some(
                    AgentErrorView::Lan(
                        "screen capture produced no frames (is gst-launch-1.0 + the pipewire plugin installed?)"@,
                    ),
                )
            },
        ),
{
    if saw_frame {
        Ok(())
    } else {
        Err(
            AgentError::Lan(
                "screen capture produced no frames (is gst-launch-1.0 + the pipewire plugin installed?)".to_owned(),
            ),
        )
    }
}

/// A monitor of unknown size is streamed at 1280 by 720, and no frame is wider than 1920
/// or higher than 1080 pixels.
pub proof fn unknown_monitors_have_the_fallback_size(src_w: u32, src_h: u32)
    ensures
        src_w == 0 || src_h == 0 ==> output_size(src_w, src_h) == (1280nat, 720nat),
        output_size(src_w, src_h).0 <= 1920,
        output_size(src_w, src_h).1 <= 1080,
{
    output_fits_box(src_w, src_h);
}

/// A wanted display is the monitor with that index if there is one; else, and where none
/// is wanted, it is the first.
pub proof fn wanted_display_is_chosen(display: Option<u32>, count: nat)
    ensures
        display matches Some(d) ==> (d < count ==> chosen(display, count) == d) && (d >= count
            ==> chosen(display, count) == 0),
        display is None ==> chosen(display, count) == 0,
{
}

proof fn current_mode_is_first(modes: Seq<ModeState>, from: int)
    requires
        0 <= from <= modes.len(),
    ensures
        current_mode(modes, from) is None ==> forall|j: int|
            from <= j < modes.len() ==> !(#[trigger] modes[j]).is_current,
        current_mode(modes, from) matches Some(mode) ==> exists|i: int|
            from <= i < modes.len() && #[trigger] modes[i] == mode && mode.is_current && (forall|
                j: int,
            |
                from <= j < i ==> !(#[trigger] modes[j]).is_current),
    decreases modes.len() - from,
{
    if from < modes.len() {
        if modes[from].is_current {
            assert(modes[from] == current_mode(modes, from)->0);
        } else {
            current_mode_is_first(modes, from + 1);
        }
    }
}

/// A monitor has the size of its current mode, and of its first one where none is
/// current; without modes it is unknown. A negative size counts as unknown too.
pub proof fn monitors_have_their_current_size(state: MonitorState)
    ensures
        state.modes@.len() == 0 ==> described(state).width == 0 && described(state).height == 0,
        (forall|j: int| 0 <= j < state.modes@.len() ==> !(#[trigger] state.modes@[j]).is_current)
            && state.modes@.len() > 0 ==> {
            &&& state.modes@[0].width >= 0 ==> described(state).width == state.modes@[0].width
            &&& state.modes@[0].height >= 0 ==> described(state).height == state.modes@[0].height
        },
        forall|i: int|
            0 <= i < state.modes@.len() && (#[trigger] state.modes@[i]).is_current && (forall|
                j: int,
            |
                0 <= j < i ==> !(#[trigger] state.modes@[j]).is_current) ==> {
                &&& state.modes@[i].width >= 0 ==> described(state).width == state.modes@[i].width
                &&& state.modes@[i].height >= 0 ==> described(state).height
                    == state.modes@[i].height
                &&& state.modes@[i].width < 0 ==> described(state).width == 0
                &&& state.modes@[i].height < 0 ==> described(state).height == 0
            },
        described(state).connector == state.connector@,
{
    let modes = state.modes@;
    current_mode_is_first(modes, 0);
    assert forall|i: int|
        0 <= i < modes.len() && (#[trigger] modes[i]).is_current && (forall|j: int|
            0 <= j < i ==> !(#[trigger] modes[j]).is_current) implies active_mode(modes) == Some(
        modes[i],
    ) by {
        assert(current_mode(modes, 0) is Some);
        let mode = current_mode(modes, 0)->0;
        let k = choose|k: int|
            0 <= k < modes.len() && #[trigger] modes[k] == mode && mode.is_current && (forall|
                j: int,
            |
                0 <= j < k ==> !(#[trigger] modes[j]).is_current);
        if k < i {
            assert(!modes[k].is_current);
        } else if i < k {
            assert(!modes[i].is_current);
        }
    }
}

/// A monitor is called by its connector and its product, by its vendor where it has no
/// product, and by the connector alone where it has neither.
pub proof fn monitors_are_called_by_product(state: MonitorState)
    ensures
        state.product@.len() > 0 ==> described(state).label == state.connector@ + " · "@
            + state.product@,
        state.product@.len() == 0 && state.vendor@.len() > 0 ==> described(state).label
            == state.connector@ + " · "@ + state.vendor@,
        state.product@.len() == 0 && state.vendor@.len() == 0 ==> described(state).label
            == state.connector@,
{
}

/// The primary connector is the first one of the first primary logical monitor.
pub proof fn primary_is_the_first_primary(logical: Seq<LogicalMonitor>, i: int, from: int)
    requires
        0 <= from <= i <= logical.len(),
        forall|j: int| from <= j < i ==> !(#[trigger] logical[j]).primary,
        i < logical.len() ==> logical[i].primary,
    ensures
        i == logical.len() ==> primary_connector(logical, from) is None,
        i < logical.len() && logical[i].connectors@.len() > 0 ==> primary_connector(logical, from)
            == Some(logical[i].connectors@[0]@),
        i < logical.len() && logical[i].connectors@.len() == 0 ==> primary_connector(
            logical,
            from,
        ) is None,
    decreases i - from,
{
    if from < i {
        assert(!logical[from].primary);
        primary_is_the_first_primary(logical, i, from + 1);
    }
}

proof fn connector_parts_hold_all(monitors: Seq<MonitorView>, connector: Seq<char>)
    ensures
        (with_connector(monitors, connector, true) + with_connector(
            monitors,
            connector,
            false,
        )).to_multiset() == monitors.to_multiset(),
    decreases monitors.len(),
{
    broadcast use vstd::seq_lib::group_to_multiset_ensures;

    let yes = with_connector(monitors, connector, true);
    let no = with_connector(monitors, connector, false);
    vstd::seq_lib::lemma_multiset_commutative(yes, no);
    if monitors.len() > 0 {
        let front = monitors.drop_last();
        connector_parts_hold_all(front, connector);
        let yes_front = with_connector(front, connector, true);
        let no_front = with_connector(front, connector, false);
        vstd::seq_lib::lemma_multiset_commutative(yes_front, no_front);
        assert(monitors =~= front.push(monitors.last()));
        assert(monitors.to_multiset() =~= front.to_multiset().insert(monitors.last()));
        assert(yes.to_multiset().add(no.to_multiset()) =~= yes_front.to_multiset().add(
            no_front.to_multiset(),
        ).insert(monitors.last()));
    } else {
        assert(yes + no =~= monitors);
    }
}

/// Every monitor that Mutter describes is listed, and nothing else.
pub proof fn every_monitor_is_listed(states: Seq<MonitorState>, logical: Seq<LogicalMonitor>)
    ensures
        listed(states, logical).to_multiset() == described_all(states).to_multiset(),
        primary_connector(logical, 0) is None ==> listed(states, logical) == described_all(states),
{
    if let Some(connector) = primary_connector(logical, 0) {
        connector_parts_hold_all(described_all(states), connector);
    }
}

/// Picking monitors by their connector keeps their order.
pub proof fn picking_keeps_the_order(
    monitors: Seq<MonitorView>,
    monitor: MonitorView,
    connector: Seq<char>,
    has: bool,
)
    ensures
        with_connector(monitors.push(monitor), connector, has) == (if (monitor.connector
            == connector) == has {
            with_connector(monitors, connector, has).push(monitor)
        } else {
            with_connector(monitors, connector, has)
        }),
{
    assert(monitors.push(monitor).drop_last() =~= monitors);
}

/// The backend that captures a console in a state, if one may.
pub open spec fn backend_of(state: HostConsoleState) -> Option<ConsoleCaptureBackend> {
    match state {
        HostConsoleState::GdmLogin | HostConsoleState::SessionLocked => Some(
            ConsoleCaptureBackend::RemoteDesktopScreenCast,
        ),
        HostConsoleState::DesktopReady => Some(ConsoleCaptureBackend::DirectScreenCast),
        _ => None,
    }
}

/// A console is captured only while somebody owns it: the login screen and a locked
/// desktop through a remote-desktop session, a ready desktop directly.
pub proof fn only_owned_consoles_are_captured(state: HostConsoleState)
    ensures
        backend_of(state) is Some <==> backend_fault(state) is None,
        backend_fault(state) is None <==> state is GdmLogin || state is SessionLocked
            || state is DesktopReady,
        backend_of(state) matches Some(backend) ==> (backend is DirectScreenCast
            <==> state is DesktopReady),
{
}

/// An error says that Mutter refused a session exactly if it holds the words, in
/// whatever case.
pub proof fn refusals_are_found_in_any_case(error: AgentErrorView, i: int)
    requires
        0 <= i,
        i + 26 <= error.text().len(),
        forall|j: int|
            0 <= j < 26 ==> lower(error.text()[i + j]) == #[trigger] "session creation inhibited"@[j],
    ensures
        is_inhibited(error),
{
    reveal_strlit("session creation inhibited");
    let pattern = "session creation inhibited"@;
    let small = error.text().map_values(|c: char| lower(c));
    assert(small.skip(i).subrange(0, 26) =~= pattern);
    text::first_match_is_first(small, pattern, i);
}

/// Letters of ASCII are compared in lower case, and nothing else is changed.
pub proof fn lower_case_is_ascii(c: char)
    ensures
        'A' <= c <= 'Z' ==> lower(c) as u32 == c as u32 + 32,
        !('A' <= c <= 'Z') ==> lower(c) == c,
{
}

/// A timeout counts in whole seconds, and at least for one.
pub proof fn timeouts_are_whole_seconds(timeout: Duration)
    ensures
        timeout_secs(timeout) >= 1,
        time::nanos(timeout) >= 1000000000 ==> 1000000000 * timeout_secs(timeout) <= time::nanos(
            timeout,
        ) < 1000000000 * (timeout_secs(timeout) + 1),
        time::nanos(timeout) < 1000000000 ==> timeout_secs(timeout) == 1,
{
}

/// The pipeline reads the node that it is given, and writes frames of the size that it is
/// given.
pub proof fn pipeline_reads_the_node(node: u32, width: usize, height: usize)
    ensures
        pipeline_args(node, width, height).len() == 15,
        pipeline_args(node, width, height)[1] == "pipewiresrc"@,
        pipeline_args(node, width, height)[2] == "path="@ + text::decimal_digits(node as nat),
        pipeline_args(node, width, height)[10] == "video/x-raw,format=BGRx,width="@
            + text::decimal_digits(width as nat) + ",height="@ + text::decimal_digits(
            height as nat,
        ),
        pipeline_args(node, width, height)[12] == "fdsink"@,
{
}

/// Each pixel keeps its colours, with red and blue exchanged, and is opaque; bytes that
/// make no pixel are left out.
pub proof fn pixels_keep_their_colours(bgrx: Seq<u8>, p: int)
    requires
        0 <= p < bgrx.len() / 4,
    ensures
        rgba_pixels(bgrx).len() == bgrx.len() - bgrx.len() % 4,
        rgba_pixels(bgrx)[4 * p] == bgrx[4 * p + 2],
        rgba_pixels(bgrx)[4 * p + 1] == bgrx[4 * p + 1],
        rgba_pixels(bgrx)[4 * p + 2] == bgrx[4 * p],
        rgba_pixels(bgrx)[4 * p + 3] == 255,
{
}

/// Pixels are an image exactly if it has a size that fits and there are as many.
pub proof fn images_have_all_their_pixels(width: usize, height: usize, len: nat)
    ensures
        bgrx_fault(width, height, len) is None <==> {
            &&& 0 < width <= u32::MAX
            &&& 0 < height <= u32::MAX
            &&& len / 4 * 4 == width * height * 4
        },
{
    assert(width * height * 4 >= 0) by (nonlinear_arith)
        requires
            width >= 0,
            height >= 0,
    ;
}

/// Milliseconds between two frames at a rate.
pub open spec fn interval_of(fps: u16) -> int {
    if fps == 0 {
        1000
    } else if fps > 1000 {
        1
    } else {
        1000int / fps as int
    }
}

/// The interval is as long as the rate allows: so many frames fit a second, and with a
/// millisecond more they would not. No rate counts as one frame a second, and no
/// interval is shorter than a millisecond.
pub proof fn intervals_fit_the_rate(fps: u16)
    ensures
        1 <= interval_of(fps) <= 1000,
        1 <= fps <= 1000 ==> interval_of(fps) * fps <= 1000 < (interval_of(fps) + 1) * fps,
        fps == 0 ==> interval_of(fps) == interval_of(1),
{
    if 1 <= fps <= 1000 {
        let f = fps as int;
        let ms = 1000int / f;
        assert(ms * f <= 1000 < (ms + 1) * f && 1 <= ms <= 1000) by (nonlinear_arith)
            requires
                ms == 1000int / f,
                1 <= f <= 1000,
        ;
    }
}

/// What a capture loop does at a tick.
pub open spec fn tick_of(has_frame: bool, alive: bool) -> StreamTick {
    if has_frame {
        StreamTick::Push
    } else if alive {
        StreamTick::Heartbeat
    } else {
        StreamTick::Stop
    }
}

/// A frame is always pushed, and a loop stops only once the source has ended and has no
/// frame left.
pub proof fn frames_come_before_the_end(has_frame: bool, alive: bool)
    ensures
        tick_of(has_frame, alive) is Push <==> has_frame,
        tick_of(has_frame, alive) is Stop <==> !has_frame && !alive,
{
}

/// Whether these are the displays that are offered of the monitors.
pub open spec fn are_displays_of(displays: Seq<DisplayInfo>, monitors: Seq<MonitorInfo>) -> bool {
    &&& displays.len() == monitors.len()
    &&& forall|i: int|
        0 <= i < displays.len() ==> (#[trigger] displays[i]).id == (if i <= u32::MAX {
            i
        } else {
            0
        }) && displays[i].name@ == monitors[i].label@
}

/// A display is offered for each monitor, in their order and under their labels; the
/// identifiers count from 0, so that no two of them are the same, and each is the place
/// of its monitor.
pub proof fn displays_are_numbered_in_order(
    displays: Seq<DisplayInfo>,
    monitors: Seq<MonitorInfo>,
    i: int,
    j: int,
)
    requires
        are_displays_of(displays, monitors),
        monitors.len() <= u32::MAX,
        0 <= i < monitors.len(),
        0 <= j < monitors.len(),
    ensures
        displays.len() == monitors.len(),
        displays[i].id == i,
        displays[i].name@ == monitors[i].label@,
        displays[i].id == displays[j].id ==> i == j,
{
    assert(displays[i].id == i);
    assert(displays[j].id == j);
}

/// What is captured fits a full-HD screen, and a monitor of that size is captured as it
/// is.
pub proof fn full_hd_is_enough(src_w: u32, src_h: u32)
    ensures
        output_size(src_w, src_h).0 <= 1920,
        output_size(src_w, src_h).1 <= 1080,
        output_size(1920, 1080) == (1920nat, 1080nat),
{
    output_fits_box(src_w, src_h);
    small_source_is_kept(1920, 1080);
}

/// A plan that captures a monitor names its connector, and has a size that fits a
/// full-HD screen; a monitor that fits it is captured to its last even pixel.
pub proof fn plans_capture_their_monitor(plan: CapturePlan, monitor: MonitorInfo)
    requires
        captures(plan, monitor),
    ensures
        plan.connector@ == monitor.connector@,
        plan.width <= 1920 && plan.height <= 1080,
        2 <= monitor.width <= 1920 && 2 <= monitor.height <= 1080 ==> plan.width == monitor.width
            - monitor.width % 2 && plan.height == monitor.height - monitor.height % 2,
{
    full_hd_is_enough(monitor.width, monitor.height);
    if 2 <= monitor.width <= 1920 && 2 <= monitor.height <= 1080 {
        small_source_is_kept(monitor.width, monitor.height);
    }
}

} // verus!
