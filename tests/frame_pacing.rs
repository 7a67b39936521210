use shader_wallpaper::energy::{EnergyBands, EnergyFeed, ENERGY_ONE};
use shader_wallpaper::frame_callback::FrameCallbackState;
use shader_wallpaper::registry::{ConfigureAction, BackgroundLayer};
use shader_wallpaper::render_surface::{OutputSurface, UniformSnapshot};
use shader_wallpaper::scheduler::{frame_interval_ms, FPS};

/// Runs a full draw (both halves) of `s` at `now`, submitting `frame`.
fn draw(s: &mut OutputSurface<u64>, now: u64, frame: u64) -> Option<UniformSnapshot> {
    let u = s.begin_draw(now)?;
    assert_eq!(s.finish_draw(frame), None);
    Some(u)
}

#[test]
fn draw_while_in_flight_is_noop() {
    let mut s: OutputSurface<u64> = OutputSurface::new(800, 600, 0);
    assert!(!s.has_frame_in_flight());
    assert!(draw(&mut s, 10, 1).is_some());
    assert!(s.has_frame_in_flight());
    s.set_fft(500_000, 100_000);
    // A second draw is skipped and a frame submitted anyway is handed back.
    assert_eq!(s.begin_draw(20), None);
    assert_eq!(s.finish_draw(2), Some(2));
    assert_eq!(s.energy(), EnergyBands { low: 500_000, high: 100_000 });
    assert_eq!(s.present(), Some(1));
    assert!(!s.has_frame_in_flight());
    assert!(draw(&mut s, 30, 3).is_some());
    assert_eq!(s.present(), Some(3));
}

#[test]
fn at_most_one_frame_over_a_sequence() {
    let mut s: OutputSurface<u64> = OutputSurface::new(10, 10, 0);
    let mut outstanding = 0i32;
    let ops = [true, true, false, false, true, false, true, true, true, false];
    for (i, &is_draw) in ops.iter().enumerate() {
        if is_draw {
            if s.finish_draw(i as u64).is_none() {
                outstanding += 1;
            }
        } else if s.present().is_some() {
            outstanding -= 1;
        }
        assert!(outstanding == 0 || outstanding == 1);
        assert_eq!(outstanding == 1, s.has_frame_in_flight());
    }
}

#[test]
fn request_callback_is_idempotent() {
    let mut c = FrameCallbackState::new();
    let registered = (0..7).filter(|_| c.request_callback()).count();
    assert_eq!(registered, 1);
    assert_eq!(c, FrameCallbackState::Requested);

    let mut s: OutputSurface<u64> = OutputSurface::new(10, 10, 0);
    assert!(s.request_callback());
    for _ in 0..5 {
        assert!(!s.request_callback());
    }
    assert_eq!(s.callback_state(), FrameCallbackState::Requested);
    s.callback_done();
    assert!(s.request_callback());
}

#[test]
fn energy_decays_geometrically() {
    let mut s: OutputSurface<u64> = OutputSurface::new(10, 10, 0);
    s.set_fft(900_000, 200_000);
    let expected_low = [900_000u32, 720_000, 576_000, 460_800, 368_640, 294_912];
    let expected_high = [200_000u32, 160_000, 128_000, 102_400, 81_920, 65_536];
    for k in 0..expected_low.len() {
        let u = draw(&mut s, k as u64, k as u64).unwrap();
        assert_eq!(u.energy, EnergyBands { low: expected_low[k], high: expected_high[k] });
        let ideal = 0.9f64 * 0.8f64.powi(k as i32) * ENERGY_ONE as f64;
        assert!((u.energy.low as f64 - ideal).abs() < 4.0);
        assert_eq!(s.present(), Some(k as u64));
    }
    // Far down the sequence the rounding error stays below four units.
    for k in 6..40u64 {
        let u = draw(&mut s, k, k).unwrap();
        let ideal = 0.9f64 * 0.8f64.powi(k as i32) * ENERGY_ONE as f64;
        assert!(u.energy.low as f64 <= ideal + 1e-6);
        assert!(ideal - (u.energy.low as f64) < 4.0);
        s.present();
    }
}

#[test]
fn decay_rounds_down() {
    let mut f = EnergyFeed::new();
    f.push_energy_bands(7, 3);
    assert_eq!(f.consume(), EnergyBands { low: 7, high: 3 });
    assert_eq!(f.current(), EnergyBands { low: 5, high: 2 });
    assert_eq!(f.consume(), EnergyBands { low: 5, high: 2 });
    assert_eq!(f.current(), EnergyBands { low: 4, high: 1 });
    let mut big = EnergyFeed::new();
    big.push_energy_bands(u32::MAX, 0);
    big.consume();
    assert_eq!(big.current().low, 3_435_973_836);
}

#[test]
fn stored_energy_wins_over_smaller_reading() {
    let mut f = EnergyFeed::new();
    f.push_energy_bands(1_000_000, 0);
    f.consume();
    f.push_energy_bands(100_000, 500_000);
    assert_eq!(f.current(), EnergyBands { low: 800_000, high: 500_000 });
}

#[test]
fn present_without_frame_is_noop() {
    let mut s: OutputSurface<u64> = OutputSurface::new(10, 10, 0);
    assert_eq!(s.present(), None);
    assert!(!s.has_frame_in_flight());
    assert_eq!(s.callback_state(), FrameCallbackState::Idle);
    assert!(draw(&mut s, 1, 9).is_some());
    assert_eq!(s.present(), Some(9));
    assert_eq!(s.present(), None);
}

#[test]
fn scenario_a_configure_once() {
    let mut reg: BackgroundLayer<u64> = BackgroundLayer::new();
    assert!(!reg.contains_output(1));
    assert!(reg.configure_output(1, 10, 1920, 1080));
    assert_eq!(reg.dispatch_configure(10, 1920, 1080, 0), ConfigureAction::Created);
    assert_eq!(reg.surface_count(), 1);
    assert!(!reg.configure_output(1, 10, 1920, 1080));
    assert!(!reg.configure_output(1, 11, 1920, 1080));
    assert_eq!(reg.dispatch_configure(10, 1920, 1080, 5), ConfigureAction::Unchanged);
    assert_eq!(reg.surface_count(), 1);
    assert_eq!(reg.output_count(), 1);
    assert_eq!(reg.dispatch_configure(99, 1920, 1080, 5), ConfigureAction::Unknown);
}

#[test]
fn scenario_b_callback_cycle() {
    let mut s: OutputSurface<u64> = OutputSurface::new(1920, 1080, 0);
    assert_eq!(s.callback_state(), FrameCallbackState::Idle);
    assert!(s.request_callback());
    assert_eq!(s.callback_state(), FrameCallbackState::Requested);
    assert!(!s.render_if_ready());
    s.callback_done();
    assert_eq!(s.callback_state(), FrameCallbackState::Received);
    let mut draws = 0;
    let mut presents = 0;
    if s.render_if_ready() {
        if draw(&mut s, 16, 1).is_some() {
            draws += 1;
        }
        if s.present().is_some() {
            presents += 1;
        }
    }
    assert_eq!((draws, presents), (1, 1));
    // The fired callback was consumed and the next one requested at once.
    assert_eq!(s.callback_state(), FrameCallbackState::Requested);
    assert!(!s.render_if_ready());
    assert!(!s.request_callback());
}

#[test]
fn scenario_c_ticks_before_callback() {
    let mut reg: BackgroundLayer<u64> = BackgroundLayer::new();
    reg.configure_output(1, 10, 1920, 1080);
    assert_eq!(reg.dispatch_configure(10, 1920, 1080, 0), ConfigureAction::Created);
    // The first frame of a new surface.
    assert!(reg.begin_draw(10, 0).is_some());
    assert_eq!(reg.finish_draw(10, 1), None);
    assert_eq!(reg.present(10), Some(1));
    // The surface requested its first callback when it was made: ticks
    // before that callback fires request none more and draw nothing.
    let mut requested: Vec<u32> = Vec::new();
    let mut draws = 0;
    for _ in 0..5 {
        requested.extend(reg.tick());
        if reg.render_if_ready(10) {
            draws += 1;
        }
    }
    assert!(requested.is_empty());
    assert_eq!(draws, 0);
    assert!(reg.dispatch_frame_event(10));
    assert!(reg.render_if_ready(10));

    let mut s: OutputSurface<u64> = OutputSurface::new(10, 10, 0);
    let ticks = (0..5).filter(|_| s.tick()).count();
    assert_eq!(ticks, 1);
    assert_eq!(s.callback_state(), FrameCallbackState::Requested);
    assert!(s.redraw_wanted());
    assert!(!s.render_if_ready());
    assert!(!s.has_frame_in_flight());
    s.callback_done();
    assert!(!s.tick());
    assert!(s.render_if_ready());
    assert!(!s.redraw_wanted());
}

#[test]
fn scenario_d_last_reading_wins() {
    let mut s: OutputSurface<u64> = OutputSurface::new(10, 10, 0);
    s.set_fft(500_000, 500_000);
    s.set_fft(100_000, 100_000);
    let u = draw(&mut s, 1, 1).unwrap();
    assert_eq!(u.energy, EnergyBands { low: 100_000, high: 100_000 });
}

#[test]
fn uniforms_carry_time_and_size() {
    let s: OutputSurface<u64> = OutputSurface::new(2560, 1440, 1_000);
    let u = s.begin_draw(4_500).unwrap();
    assert_eq!(u, UniformSnapshot { time_ms: 3_500, energy: EnergyBands { low: 0, high: 0 }, width: 2560, height: 1440 });
    assert_eq!(s.begin_draw(500).unwrap().time_ms, 0);
    assert_eq!((s.width(), s.height()), (2560, 1440));
}

#[test]
fn registry_routes_by_surface() {
    let mut reg: BackgroundLayer<u64> = BackgroundLayer::new();
    assert!(reg.configure_output(1, 10, 1920, 1080));
    assert!(reg.configure_output(2, 20, 1280, 1024));
    assert!(!reg.configure_output(3, 20, 800, 600));
    assert_eq!(reg.output_count(), 2);
    assert_eq!(reg.surface_count(), 0);
    // Not configured yet: nothing renders or accepts frames.
    assert!(!reg.dispatch_frame_event(10));
    assert_eq!(reg.begin_draw(10, 0), None);
    assert_eq!(reg.finish_draw(10, 7), Some(7));
    assert_eq!(reg.dispatch_configure(20, 1280, 1024, 0), ConfigureAction::Created);
    assert_eq!(reg.dispatch_configure(10, 1920, 1080, 0), ConfigureAction::Created);
    assert_eq!(reg.surface_count(), 2);
    // Both surfaces requested their first callbacks: ticks ask for none.
    assert!(reg.tick().is_empty());
    assert!(reg.dispatch_frame_event(20));
    assert!(!reg.render_if_ready(10));
    assert!(reg.render_if_ready(20));
    reg.set_fft(300_000, 600_000);
    let u = reg.begin_draw(10, 40).unwrap();
    assert_eq!(u.energy, EnergyBands { low: 300_000, high: 600_000 });
    // The reading moved the clock's origin back by 30 ms.
    assert_eq!((u.width, u.height, u.time_ms), (1920, 1080, 70));
    assert_eq!(reg.finish_draw(20, 5), None);
    assert_eq!(reg.finish_draw(20, 6), Some(6));
    assert_eq!(reg.begin_draw(20, 41), None);
    assert_eq!(reg.present(20), Some(5));
    assert_eq!(reg.present(20), None);
    assert_eq!(reg.present(99), None);
    let removed = reg.remove(2).unwrap();
    assert_eq!((removed.output, removed.surface), (2, 20));
    assert!(removed.renderer.is_some());
    assert!(reg.remove(2).is_none());
    assert_eq!(reg.output_count(), 1);
    assert_eq!(reg.surface_count(), 1);
    assert!(!reg.contains_output(2));
    assert!(reg.contains_output(1));
}

#[test]
fn ticks_ask_nothing_of_configured_surfaces() {
    let mut reg: BackgroundLayer<u64> = BackgroundLayer::new();
    reg.configure_output(1, 10, 100, 100);
    reg.configure_output(2, 20, 100, 100);
    reg.configure_output(3, 30, 100, 100);
    assert!(reg.tick().is_empty());
    assert_eq!(reg.dispatch_configure(30, 100, 100, 0), ConfigureAction::Created);
    assert!(reg.tick().is_empty());
    assert_eq!(reg.dispatch_configure(10, 100, 100, 0), ConfigureAction::Created);
    assert!(reg.tick().is_empty());
    // A surface whose callback fired waits to render; ticks leave it be.
    assert!(reg.dispatch_frame_event(30));
    assert!(reg.tick().is_empty());
    assert!(reg.render_if_ready(30));
    assert!(reg.tick().is_empty());
    assert!(!reg.render_if_ready(10));
    assert!(!reg.dispatch_frame_event(20));
}

#[test]
fn tick_requests_for_idle_surface() {
    let mut s: OutputSurface<u64> = OutputSurface::new(10, 10, 0);
    assert!(s.tick());
    assert!(!s.tick());
    s.callback_done();
    assert!(s.render_if_ready());
    assert_eq!(s.callback_state(), FrameCallbackState::Requested);
    assert!(!s.tick());
}

#[test]
fn clock_origin_moves_with_low_energy() {
    let mut s: OutputSurface<u64> = OutputSurface::new(10, 10, 0);
    s.set_fft(ENERGY_ONE, 0);
    assert_eq!(s.begin_draw(1_000).unwrap().time_ms, 1_100);
    s.set_fft(2_500_000, 9_000_000);
    assert_eq!(s.begin_draw(1_000).unwrap().time_ms, 1_350);
    // The high band does not move the clock; below a millisecond is dropped.
    s.set_fft(9_999, 9_000_000);
    assert_eq!(s.begin_draw(1_000).unwrap().time_ms, 1_350);
    // Every reading moves it, not only the last before a draw.
    assert!(draw(&mut s, 2_000, 1).is_some());
    assert_eq!(s.present(), Some(1));
    assert_eq!(s.begin_draw(2_000).unwrap().time_ms, 2_350);
}

#[test]
fn frame_interval() {
    assert_eq!(FPS, 60);
    assert_eq!(frame_interval_ms(FPS), 16);
    assert_eq!(frame_interval_ms(1), 1000);
    assert_eq!(frame_interval_ms(30), 33);
    assert_eq!(frame_interval_ms(2000), 0);
}
