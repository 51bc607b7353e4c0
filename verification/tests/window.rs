use spectral_led::config::{UPDATE_FRAMES, WINDOW_SIZE};
use spectral_led::window::WindowBuffer;

fn ramp(start: i32, len: usize) -> Vec<i32> {
    (0..len).map(|k| start + k as i32).collect()
}

#[test]
fn window_fills_to_exact_size() {
    let mut b = WindowBuffer::new();
    let samples = ramp(0, WINDOW_SIZE);
    b.push(&samples);
    let w = b.snapshot();
    assert_eq!(w.len(), WINDOW_SIZE);
    assert_eq!(w, samples);
}

#[test]
fn window_keeps_most_recent_across_chunks() {
    let stream = ramp(100, 2400);
    let mut b = WindowBuffer::new();
    for chunk in stream.chunks(600) {
        b.push(&chunk.to_vec());
    }
    let w = b.snapshot();
    assert_eq!(w, stream[2400 - WINDOW_SIZE..].to_vec());
}

#[test]
fn chunking_is_invariant() {
    let stream = ramp(-7, 5000);
    let groupings: [&[usize]; 3] = [&[5000], &[600, 600, 600, 600, 2600], &[7, 1, 4085, 900, 7]];
    let mut snapshots = Vec::new();
    for sizes in groupings.iter() {
        let mut b = WindowBuffer::new();
        let mut at = 0;
        for &n in sizes.iter() {
            b.push(&stream[at..at + n].to_vec());
            at += n;
        }
        assert_eq!(at, 5000);
        snapshots.push(b.snapshot());
    }
    assert_eq!(snapshots[0], snapshots[1]);
    assert_eq!(snapshots[0], snapshots[2]);
    assert_eq!(snapshots[0], stream[5000 - WINDOW_SIZE..].to_vec());
}

#[test]
fn oversized_chunk_keeps_tail() {
    let stream = ramp(1, 3000);
    let mut b = WindowBuffer::new();
    b.push(&stream);
    let w = b.snapshot();
    assert_eq!(w, stream[3000 - WINDOW_SIZE..].to_vec());
}

#[test]
fn not_ready_before_warmup() {
    let mut b = WindowBuffer::new();
    b.push(&vec![0; WINDOW_SIZE - 1]);
    // More than an update interval of fresh samples, but no full window yet.
    assert!(!b.ready_for_analysis());
    b.push(&vec![0; 1]);
    assert!(b.ready_for_analysis());
}

#[test]
fn consume_preserves_overshoot() {
    let mut b = WindowBuffer::new();
    b.push(&vec![0; WINDOW_SIZE]);
    assert_eq!(b.fresh_samples(), WINDOW_SIZE as u64);
    let mut cycles = 0;
    while b.ready_for_analysis() {
        b.consume_update();
        cycles += 1;
    }
    assert_eq!(cycles, WINDOW_SIZE / UPDATE_FRAMES);
    assert_eq!(b.fresh_samples(), 0);
    // An odd-sized chunk leaves its overshoot behind after consuming.
    b.push(&vec![0; UPDATE_FRAMES + 37]);
    assert!(b.ready_for_analysis());
    b.consume_update();
    assert_eq!(b.fresh_samples(), 37);
    assert!(!b.ready_for_analysis());
}

#[test]
fn discard_backlog_keeps_partial_interval() {
    let mut b = WindowBuffer::new();
    b.push(&vec![0; WINDOW_SIZE + 300]);
    b.discard_backlog();
    assert_eq!(b.fresh_samples(), ((WINDOW_SIZE + 300) % UPDATE_FRAMES) as u64);
    assert!(!b.ready_for_analysis());
}
