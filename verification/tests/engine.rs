//! Engine scenarios: the handoff, deadline misses, shock-absorber recovery,
//! vertical-blank waits and a full end-to-end run.

use m4vga::engine::{RasterState, Vga};
use m4vga::timing::Timing;

fn small_mode() -> Timing {
    Timing {
        line_ticks: 10,
        sync_ticks: 2,
        back_porch_ticks: 2,
        video_ticks: 4,
        front_porch_ticks: 2,
        lines_per_frame: 6,
        vsync_start_line: 0,
        vsync_end_line: 1,
        video_start_line: 2,
        video_end_line: 6,
        shock_tolerance_ticks: 3,
    }
}

fn running_engine() -> Vga {
    let mut vga = Vga::configure(small_mode()).unwrap();
    vga.start_rastering();
    vga
}

/// The raster-maintenance step with a callback that writes the line index
/// into the first pixel and declares the whole line valid.
fn render_line_index(vga: &mut Vga, r: usize) {
    let mut b = vga.take_working();
    b.pixels[0] = r as u8;
    let n = b.pixels.len();
    b.declare_valid(n);
    vga.give_working(b);
}

#[test]
fn end_to_end_three_frames_deliver_lines_in_order() {
    let mut vga = running_engine();
    vga.set_output_enabled(true);
    let mut delivered: Vec<usize> = Vec::new();
    let mut boundaries: u32 = 0;
    for _ in 0..18 {
        let a = vga.hstate_tick();
        assert!(!vga.deadline_missed);
        if a.frame_completed {
            boundaries += 1;
        }
        if let Some(n) = a.arm_valid_len {
            // A visible line streams the buffer prepared one line earlier:
            // its first pixel carries that line's index within the region.
            assert_eq!(n, 4);
            assert!(a.video_active);
            assert_eq!(vga.armed.pixels[0] as usize, vga.line - 2);
        }
        if let Some(r) = a.render_line {
            delivered.push(r);
            render_line_index(&mut vga, r);
        }
    }
    assert_eq!(vga.frame, 3);
    assert_eq!(boundaries, 3);
    assert_eq!(vga.miss_count, 0);
    assert_eq!(delivered, vec![0, 1, 2, 3, 0, 1, 2, 3, 0, 1, 2, 3]);
}

#[test]
fn late_callback_sets_miss_flag_for_affected_line_only() {
    let mut vga = running_engine();
    // First frame: every deadline met.
    for _ in 0..6 {
        let a = vga.hstate_tick();
        assert!(!vga.deadline_missed);
        if let Some(r) = a.render_line {
            render_line_index(&mut vga, r);
        }
    }
    assert_eq!(vga.frame, 1);
    assert_eq!(vga.miss_count, 0);

    // Second frame: the callback for the second visible line runs past one
    // line period, so the line that needed its buffer arms stale instead.
    let a = vga.hstate_tick(); // line 1: prepare visible line 0
    render_line_index(&mut vga, a.render_line.unwrap());
    let a = vga.hstate_tick(); // line 2: fresh buffer armed
    assert!(!vga.deadline_missed);
    let r1 = a.render_line.unwrap();
    let mut held = vga.take_working(); // the slow callback begins...
    vga.hstate_tick(); // line 3: buffer still checked out
    assert!(vga.deadline_missed);
    assert_eq!(vga.miss_count, 1);
    held.pixels[0] = r1 as u8;
    let n = held.pixels.len();
    held.declare_valid(n);
    vga.give_working(held); // ...and finally returns
    let a = vga.hstate_tick(); // line 4: back on schedule
    assert!(!vga.deadline_missed);
    render_line_index(&mut vga, a.render_line.unwrap());
    vga.hstate_tick(); // line 5
    assert!(!vga.deadline_missed);
    let a = vga.hstate_tick(); // wrap: the frame still completes in full
    assert!(a.frame_completed);
    assert_eq!(vga.frame, 2);
    assert_eq!(vga.miss_count, 1);
}

#[test]
fn suppressed_line_timer_recovers_without_drift() {
    let mut vga = running_engine();
    let frames = 20u64;
    let periods = frames * 6;
    let mut resyncs = 0u64;
    for p in 0..periods {
        // The shock-absorber timer samples mid-line, the line timer fires
        // at the period boundary — except once per frame, when its firing
        // is suppressed.
        vga.advance_ticks(5);
        if vga.shock_tick() {
            resyncs += 1;
            assert_eq!(vga.raster_state, RasterState::Resyncing);
        }
        vga.advance_ticks(5);
        if p % 6 != 4 {
            let a = vga.hstate_tick();
            if let Some(r) = a.render_line {
                render_line_index(&mut vga, r);
            }
        }
    }
    // One missed firing per frame, one forced resync per frame, and the
    // absolute line count still matches the elapsed line periods exactly.
    assert_eq!(resyncs, frames);
    assert_eq!(vga.frame * 6 + vga.line as u64, periods);
    assert_eq!(vga.frame, frames);
    assert_eq!(vga.line, 0);
}

#[test]
fn oversized_valid_range_is_clamped_before_arming() {
    let mut vga = running_engine();
    let a = vga.hstate_tick(); // line 1: prepare visible line 0
    assert_eq!(a.render_line, Some(0));
    let mut b = vga.take_working();
    b.declare_valid(1000); // the callback declares far past the buffer's end
    vga.give_working(b);
    assert_eq!(vga.working.valid_len, 4);
    let a = vga.hstate_tick(); // line 2: armed with the clamped range
    assert_eq!(a.arm_valid_len, Some(4));
    assert!(vga.armed.valid_len <= vga.armed.pixels.len());
}

#[test]
fn two_vblank_waits_in_same_frame_wake_at_same_boundary() {
    let mut vga = running_engine();
    vga.hstate_tick(); // line 1
    let w1 = vga.vblank_wait_begin();
    vga.hstate_tick(); // line 2
    let w2 = vga.vblank_wait_begin(); // same frame, later line
    for _ in 0..3 {
        // lines 3, 4, 5: no boundary yet, so neither wait may wake.
        assert!(!vga.vblank_arrived(&w1));
        assert!(!vga.vblank_arrived(&w2));
        vga.hstate_tick();
    }
    let a = vga.hstate_tick(); // wrap to line 0: the shared boundary
    assert!(a.frame_completed);
    assert!(vga.vblank_arrived(&w1));
    assert!(vga.vblank_arrived(&w2));
}

#[test]
fn output_enable_gates_video_active_only() {
    let mut vga = running_engine();
    let a = vga.hstate_tick(); // line 1
    render_line_index(&mut vga, a.render_line.unwrap());
    let a = vga.hstate_tick(); // line 2: visible, but output still off
    assert!(!a.video_active);
    assert_eq!(a.arm_valid_len, Some(4));
    render_line_index(&mut vga, a.render_line.unwrap());
    vga.set_output_enabled(true);
    let a = vga.hstate_tick(); // line 3: visible with output on
    assert!(a.video_active);
}

#[test]
fn vsync_pulse_asserted_on_sync_lines_only() {
    let mut vga = running_engine();
    let mut pulses = Vec::new();
    for _ in 0..6 {
        let a = vga.hstate_tick();
        pulses.push((vga.line, a.sync_pulse_active));
    }
    assert_eq!(
        pulses,
        vec![(1, false), (2, false), (3, false), (4, false), (5, false), (0, true)]
    );
}

#[test]
fn stop_returns_engine_to_idle() {
    let mut vga = running_engine();
    vga.hstate_tick();
    vga.stop();
    assert_eq!(vga.raster_state, RasterState::Idle);
}

#[test]
fn svga_mode_full_frame_renders_every_visible_line() {
    let mut vga = Vga::configure(m4vga::timing::svga_800_600()).unwrap();
    vga.start_rastering();
    let mut rendered = 0u32;
    for _ in 0..628 {
        let a = vga.hstate_tick();
        assert!(!vga.deadline_missed);
        if let Some(r) = a.render_line {
            assert_eq!(r as u32, rendered % 600);
            rendered += 1;
            render_line_index(&mut vga, r);
        }
    }
    assert_eq!(vga.frame, 1);
    assert_eq!(rendered, 600);
    assert_eq!(vga.miss_count, 0);
}
