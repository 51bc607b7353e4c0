use spectral_led::config::{
    select_device_index, HALF_SPECTRUM, SPECTRUM_BINS, UPDATE_FRAMES, WINDOW_SIZE,
};
use spectral_led::frame::{FRAME_LEN, FRAME_START, FRAME_VERSION};
use spectral_led::orchestrator::{Orchestrator, PollOutcome};

/// Drains one callback's due cycles, handing all-zero magnitudes to each,
/// and returns how many cycles ran, how many frames were prepared, and
/// whether backlog was dropped.
fn drain(o: &mut Orchestrator) -> (usize, usize, bool) {
    let mut cycles = 0;
    let mut frames = 0;
    let mut dropped = false;
    loop {
        match o.poll_window() {
            PollOutcome::Analyze(w) => {
                assert_eq!(w.len(), WINDOW_SIZE);
                cycles += 1;
                if o.complete_cycle(&vec![0u32; HALF_SPECTRUM]).is_some() {
                    frames += 1;
                }
            }
            PollOutcome::BacklogDropped => {
                dropped = true;
                break;
            }
            PollOutcome::Idle => break,
        }
    }
    (cycles, frames, dropped)
}

#[test]
fn silent_stream_runs_one_full_cycle() {
    let mut o = Orchestrator::new();
    assert!(matches!(o.poll_window(), PollOutcome::Idle));

    o.begin_buffer(&vec![0i32; WINDOW_SIZE]);
    let w = match o.poll_window() {
        PollOutcome::Analyze(w) => w,
        _ => panic!("a full window with fresh samples must be analyzed"),
    };
    assert_eq!(w, vec![0i32; WINDOW_SIZE]);

    // The transform of silence is all-zero magnitudes.
    let frame = o
        .complete_cycle(&vec![0u32; HALF_SPECTRUM])
        .expect("healthy link transmits");
    assert_eq!(o.latest_spectrum(), &vec![0u16; SPECTRUM_BINS]);

    // One frame, all-minimum intensities.
    assert_eq!(frame.len(), FRAME_LEN);
    assert_eq!(frame[0], FRAME_START);
    assert_eq!(frame[1], FRAME_VERSION);
    assert!(frame[2..].iter().all(|&b| b == 0));
    o.record_send(true);
    assert!(!o.is_link_degraded());
}

#[test]
fn cycle_count_matches_cadence_formula() {
    let mut o = Orchestrator::new();
    let chunk = vec![0i32; 700];
    let mut total = 0usize;
    for _ in 0..7 {
        o.begin_buffer(&chunk);
        total += chunk.len();
        let (_, _, dropped) = drain(&mut o);
        assert!(!dropped);
    }
    assert_eq!(total, 4900);
    assert_eq!(o.cycles_completed(), (total / UPDATE_FRAMES) as u64);
}

#[test]
fn backlog_beyond_catchup_budget_is_dropped() {
    let mut o = Orchestrator::new();
    // Ten update intervals of backlog in a single callback.
    o.begin_buffer(&vec![0i32; WINDOW_SIZE + 8 * UPDATE_FRAMES]);
    let (cycles, _, dropped) = drain(&mut o);
    assert_eq!(cycles, 4);
    assert!(dropped);
    assert_eq!(o.cycles_completed(), 4);
    // The excess was discarded: nothing more is due now.
    assert!(matches!(o.poll_window(), PollOutcome::Idle));
}

#[test]
fn degraded_link_suppresses_frames_until_reconnect() {
    let mut o = Orchestrator::new();
    o.begin_buffer(&vec![0i32; WINDOW_SIZE]);
    let (cycles, frames, _) = drain(&mut o);
    assert_eq!(cycles, 4);
    assert_eq!(frames, 4);

    // Simulate a serial write failure on the last transmitted frame.
    o.record_send(false);
    assert!(o.is_link_degraded());

    // While degraded, analysis still runs every interval (the cycle counter
    // and the spectrum hook advance) but no frames come out for the length
    // of the reconnect cooldown; then one retry frame is allowed.
    let mut outcomes = Vec::new();
    for _ in 0..4 {
        o.begin_buffer(&vec![1i32; UPDATE_FRAMES]);
        let before = o.cycles_completed();
        let (cycles, frames, _) = drain(&mut o);
        assert_eq!(cycles, 1);
        assert_eq!(o.cycles_completed(), before + 1);
        assert_eq!(o.latest_spectrum().len(), SPECTRUM_BINS);
        outcomes.push(frames);
    }
    assert_eq!(outcomes, vec![0, 0, 0, 1]);

    // The retry write succeeded: the link recovers and transmission
    // resumes on the next cycle.
    o.record_send(true);
    assert!(!o.is_link_degraded());
    o.begin_buffer(&vec![1i32; UPDATE_FRAMES]);
    let (cycles, frames, _) = drain(&mut o);
    assert_eq!(cycles, 1);
    assert_eq!(frames, 1);
}

#[test]
fn device_index_falls_back_to_zero() {
    assert_eq!(select_device_index(2, 4), 2);
    assert_eq!(select_device_index(0, 1), 0);
    assert_eq!(select_device_index(4, 4), 0);
    assert_eq!(select_device_index(usize::MAX, 3), 0);
}
