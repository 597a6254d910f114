use cpal_toy::span::{samples_in, samples_spanning};
use cpal_toy::window::Window;
use std::time::Duration;

fn rms(window: &Window<f32>) -> f32 {
    let samples = window.samples();
    let sum_of_squares: f32 = samples.iter().map(|&x| x * x).sum();
    (sum_of_squares / samples.len() as f32).sqrt()
}

fn decibels(rms: f32) -> f32 {
    20.0 * (rms + 1e-10).log10()
}

fn magnitude(k: usize, window: &Window<f32>) -> f64 {
    let n = window.len();
    let mut real = 0.0;
    let mut imag = 0.0;
    for (i, &sample) in window.samples().iter().enumerate() {
        let angle = 2.0 * std::f64::consts::PI * (k as f64 * i as f64 / n as f64);
        real += sample as f64 * angle.cos();
        imag -= sample as f64 * angle.sin();
    }
    (real * real + imag * imag).sqrt()
}

fn length(window: &Window<u8>) -> usize {
    window.len()
}

fn double(length: usize) -> usize {
    2 * length
}

fn bin_weight(k: usize, window: &Window<u8>) -> usize {
    100 * k + window.len()
}

#[test]
fn test_window_creation() {
    let mut window: Window<f32> = Window::with_duration(Duration::from_millis(20), 44100);
    assert_eq!(window.capacity(), 882);
    assert!(window.is_empty());
    assert!(!window.is_ready());

    window.add_samples(&[0.0; 882]);
    assert!(window.is_ready());
    assert_eq!(window.calculate_rms(rms), Some(0.0));
    assert_eq!(window.calculate_dbfs(rms, decibels), Some(-200.0));

    window.add_samples(&[1.0; 441]);
    assert!(window.is_ready());
    assert_eq!(window.calculate_rms(rms), Some(0.70710677)); // sqrt(1/2)
    // The last digit of a single-precision logarithm differs between platforms.
    let level = window.calculate_dbfs(rms, decibels).expect("the window is full");
    assert!((level - -3.0103002).abs() < 1e-6);
}

#[test]
fn half_ones_after_zeros_by_value() {
    let mut window: Window<f32> = Window::with_duration(Duration::from_millis(20), 44100);
    window.add_samples(&[0.0; 882]);
    window.add_samples(&[1.0; 441]);
    let held = window.samples();
    assert_eq!(held.len(), 882);
    assert!(held[..441].iter().all(|&x| x == 0.0));
    assert!(held[441..].iter().all(|&x| x == 1.0));
    let level = window.calculate_dbfs(rms, decibels).expect("the window is full");
    assert!((level - -3.0103).abs() < 1e-4);
}

#[test]
fn capacity_is_the_floor_of_duration_times_rate() {
    assert_eq!(samples_in(0, 20_000_000, 44100), 882);
    assert_eq!(samples_in(0, 100_000_000, 44100), 4410);
    assert_eq!(samples_in(1, 0, 48000), 48000);
    assert_eq!(samples_in(2, 500_000_000, 10), 25);
    assert_eq!(samples_in(0, 999_999_999, 1), 0);
    assert_eq!(samples_in(0, 333_333_333, 3), 0);
    assert_eq!(samples_in(0, 333_333_334, 3), 1);
    assert_eq!(samples_in(0, 1, 999_999_999), 0);
    assert_eq!(samples_in(0, 1, 1_000_000_000), 1);
    assert_eq!(samples_in(3, 0, u32::MAX), 3 * u32::MAX as usize);
}

#[test]
fn capacity_reads_seconds_and_nanoseconds_of_the_duration() {
    assert_eq!(samples_spanning(Duration::new(2, 500_000_000), 10), 25);
    assert_eq!(samples_spanning(Duration::from_millis(1500), 48000), 72000);
    assert_eq!(samples_spanning(Duration::from_secs(7), 3), 21);
    assert_eq!(samples_spanning(Duration::from_nanos(1), 1_000_000_000), 1);
    let window: Window<u8> = Window::with_duration(Duration::new(2, 500_000_000), 10);
    assert_eq!(window.capacity(), 25);
}

#[test]
fn zero_duration_or_zero_rate_gives_capacity_zero() {
    assert_eq!(samples_in(0, 0, 44100), 0);
    assert_eq!(samples_in(5, 5, 0), 0);
    let mut window: Window<u8> = Window::with_duration(Duration::ZERO, 44100);
    assert_eq!(window.capacity(), 0);
    assert!(window.is_ready());
    window.add_samples(&[1, 2, 3]);
    assert!(window.is_empty());
    assert!(window.is_ready());
    assert_eq!(window.calculate_rms(length), Some(0));
    assert_eq!(window.calculate_frequencies(bin_weight), Some(vec![]));
    let silent: Window<u8> = Window::with_duration(Duration::from_secs(1), 0);
    assert_eq!(silent.capacity(), 0);
}

#[test]
fn capacity_too_large_for_the_machine_saturates() {
    assert_eq!(samples_in(u64::MAX, 999_999_999, u32::MAX), usize::MAX);
    assert_eq!(samples_spanning(Duration::MAX, 2), usize::MAX);
}

#[test]
fn chunk_that_fits_is_appended() {
    let mut window: Window<u8> = Window::with_capacity(5);
    window.add_samples(&[1, 2]);
    assert_eq!(window.samples(), vec![1, 2]);
    assert_eq!(window.len(), 2);
    assert!(!window.is_ready());
    window.add_samples(&[3, 4, 5]);
    assert_eq!(window.samples(), vec![1, 2, 3, 4, 5]);
    assert!(window.is_ready());
    window.add_samples(&[]);
    assert_eq!(window.samples(), vec![1, 2, 3, 4, 5]);
}

#[test]
fn oldest_samples_leave_first() {
    let mut window: Window<u8> = Window::with_capacity(5);
    window.add_samples(&[1, 2, 3, 4]);
    window.add_samples(&[5, 6, 7]);
    assert_eq!(window.samples(), vec![3, 4, 5, 6, 7]);
    assert_eq!(window.len(), 5);
    window.add_samples(&[8, 9, 10, 11, 12]);
    assert_eq!(window.samples(), vec![8, 9, 10, 11, 12]);
    assert_eq!(window.get(0), Some(8));
    assert_eq!(window.get(4), Some(12));
    assert_eq!(window.get(5), None);
}

#[test]
fn oversized_chunk_replaces_everything_by_its_tail() {
    let mut window: Window<u8> = Window::with_capacity(3);
    window.add_samples(&[1, 2]);
    window.add_samples(&[10, 11, 12, 13, 14, 15, 16]);
    assert_eq!(window.samples(), vec![14, 15, 16]);
    assert!(window.is_ready());

    let mut other: Window<u8> = Window::with_capacity(3);
    other.add_samples(&[10, 11, 12, 13, 14, 15, 16]);
    assert_eq!(other.samples(), window.samples());
}

#[test]
fn feeding_in_pieces_is_feeding_at_once() {
    let stream: Vec<u8> = (0..40).collect();
    let mut at_once: Window<u8> = Window::with_capacity(7);
    at_once.add_samples(&stream);
    for cut in 0..=stream.len() {
        let mut pieces: Window<u8> = Window::with_capacity(7);
        pieces.add_samples(&stream[..cut]);
        pieces.add_samples(&stream[cut..]);
        assert_eq!(pieces.samples(), at_once.samples());
    }
    assert_eq!(at_once.samples(), vec![33, 34, 35, 36, 37, 38, 39]);
}

#[test]
fn window_never_exceeds_its_capacity() {
    let mut window: Window<u8> = Window::with_capacity(4);
    for chunk in [1usize, 3, 0, 2, 9, 4, 1, 5] {
        window.add_samples(&vec![chunk as u8; chunk]);
        assert!(window.len() <= window.capacity());
        assert_eq!(window.is_ready(), window.len() == window.capacity());
    }
}

#[test]
fn measurements_are_absent_until_the_window_is_full() {
    let mut window: Window<u8> = Window::with_capacity(4);
    assert_eq!(window.calculate_rms(length), None);
    assert_eq!(window.calculate_dbfs(length, double), None);
    assert_eq!(window.calculate_frequencies(bin_weight), None);
    window.add_samples(&[1, 2, 3]);
    assert_eq!(window.calculate_rms(length), None);
    assert_eq!(window.calculate_dbfs(length, double), None);
    assert_eq!(window.calculate_frequencies(bin_weight), None);
    window.add_samples(&[4]);
    assert_eq!(window.calculate_rms(length), Some(4));
    assert_eq!(window.calculate_dbfs(length, double), Some(8));
    assert_eq!(window.calculate_frequencies(bin_weight), Some(vec![(0, 4), (1, 104)]));
}

#[test]
fn spectrum_has_half_as_many_bins_as_samples() {
    let mut odd: Window<u8> = Window::with_capacity(7);
    odd.add_samples(&[0; 7]);
    assert_eq!(
        odd.calculate_frequencies(bin_weight),
        Some(vec![(0, 7), (1, 107), (2, 207)])
    );
    let mut one: Window<u8> = Window::with_capacity(1);
    one.add_samples(&[0]);
    assert_eq!(one.calculate_frequencies(bin_weight), Some(vec![]));
}

#[test]
fn spectrum_of_a_cosine_peaks_at_its_bin() {
    let n = 16usize;
    let mut window: Window<f32> = Window::with_capacity(n);
    let wave: Vec<f32> = (0..n)
        .map(|i| (2.0 * std::f64::consts::PI * 3.0 * i as f64 / n as f64).cos() as f32)
        .collect();
    window.add_samples(&wave);
    let bins = window.calculate_frequencies(magnitude).expect("the window is full");
    assert_eq!(bins.len(), 8);
    for (k, (index, found)) in bins.iter().enumerate() {
        assert_eq!(*index, k);
        let expected = if k == 3 { 8.0 } else { 0.0 };
        assert!((found - expected).abs() < 1e-5);
    }
}

#[test]
fn full_scale_square_is_zero_decibels() {
    let mut window: Window<f32> = Window::with_capacity(4);
    window.add_samples(&[1.0, -1.0, 1.0, -1.0]);
    assert_eq!(window.calculate_rms(rms), Some(1.0));
    let level = window.calculate_dbfs(rms, decibels).expect("the window is full");
    assert!(level.abs() < 1e-6);
}
