use rutherford::aggregator::Aggregator;
use rutherford::raster::{RasterConfig, Sample};

const WIDTH: u32 = 1001;
const HEIGHT: u32 = 301;

fn frame() -> RasterConfig {
    RasterConfig { width: WIDTH, height: HEIGHT, x_offset: 500, y_offset: 0 }
}

fn sample(worker_id: usize, x: i64, y: i64) -> Sample {
    Sample { worker_id, x, y }
}

fn marked_pixels(raw: &[u8]) -> Vec<(u32, u32)> {
    let mut out = Vec::new();
    for y in 0..HEIGHT {
        for x in 0..WIDTH {
            let i = 3 * (y as usize * WIDTH as usize + x as usize);
            if raw[i] == 255 && raw[i + 1] == 0 && raw[i + 2] == 0 {
                out.push((x, y));
            }
        }
    }
    out
}

#[test]
fn pixel_mapping_adds_the_offset() {
    let cfg = frame();
    assert_eq!(cfg.to_pixel(-500, 10), Some((0, 10)));
    assert_eq!(cfg.to_pixel(0, 0), Some((500, 0)));
    assert_eq!(cfg.to_pixel(123, 45), Some((623, 45)));
}

#[test]
fn upper_bound_is_inside_and_one_beyond_is_outside() {
    let cfg = frame();
    assert_eq!(cfg.to_pixel(500, 300), Some((1000, 300)));
    assert_eq!(cfg.to_pixel(501, 300), None);
    assert_eq!(cfg.to_pixel(500, 301), None);
}

#[test]
fn negative_pixels_are_outside() {
    let cfg = frame();
    assert_eq!(cfg.to_pixel(-501, 10), None);
    assert_eq!(cfg.to_pixel(0, -1), None);
    assert_eq!(cfg.to_pixel(i64::MIN, i64::MIN), None);
    assert_eq!(cfg.to_pixel(i64::MAX, 0), None);
}

#[test]
fn new_aggregator_is_all_background() {
    let agg = Aggregator::new(frame(), 6);
    assert_eq!(agg.consumed, 0);
    assert!(!agg.is_marked(0, 0, 10));
    let raws = agg.into_raw_images();
    assert_eq!(raws.len(), 6);
    for raw in &raws {
        assert_eq!(raw.len(), 3 * 1001 * 301);
        assert!(raw.iter().all(|&b| b == 0));
    }
}

#[test]
fn first_sample_of_nearest_trajectory_marks_left_edge() {
    let mut agg = Aggregator::new(frame(), 6);
    agg.consume(sample(0, -500, 10));
    assert!(agg.is_marked(0, 0, 10));
    for k in 1..6 {
        assert!(!agg.is_marked(k, 0, 10));
    }
    let raws = agg.into_raw_images();
    assert_eq!(marked_pixels(&raws[0]), vec![(0, 10)]);
    let i = 3 * (10 * 1001);
    assert_eq!(&raws[0][i..i + 3], &[255, 0, 0]);
}

#[test]
fn sample_at_upper_bound_is_drawn() {
    let mut agg = Aggregator::new(frame(), 1);
    agg.consume(sample(0, 500, 300));
    assert!(agg.is_marked(0, 1000, 300));
    let raws = agg.into_raw_images();
    assert_eq!(marked_pixels(&raws[0]), vec![(1000, 300)]);
}

#[test]
fn discarded_samples_change_nothing() {
    let mut agg = Aggregator::new(frame(), 2);
    agg.consume(sample(0, 501, 300));
    agg.consume(sample(0, 500, 301));
    agg.consume(sample(1, -501, 0));
    agg.consume(sample(7, 0, 0));
    assert_eq!(agg.consumed, 4);
    let raws = agg.into_raw_images();
    for raw in &raws {
        assert!(raw.iter().all(|&b| b == 0));
    }
}

#[test]
fn six_workers_fill_six_separate_rasters() {
    let offsets: [i64; 6] = [10, 15, 30, 50, 100, 200];
    let mut agg = Aggregator::new(frame(), 6);
    for step in 0..20i64 {
        for (k, &y) in offsets.iter().enumerate() {
            agg.consume(sample(k, -500 + 10 * step, y));
        }
    }
    assert_eq!(agg.consumed, 120);
    let raws = agg.into_raw_images();
    assert_eq!(raws.len(), 6);
    for (k, raw) in raws.iter().enumerate() {
        let marked = marked_pixels(raw);
        assert_eq!(marked.len(), 20);
        for (x, y) in marked {
            assert_eq!(y as i64, offsets[k]);
            assert_eq!(x % 10, 0);
        }
    }
}

#[test]
fn interleaving_does_not_change_count_or_rasters() {
    let streams: Vec<Vec<Sample>> = (0..3usize)
        .map(|k| (0..50i64).map(|i| sample(k, i * 7 - 300, (k as i64) * 40 + i)).collect())
        .collect();
    let mut in_order = Aggregator::new(frame(), 3);
    for s in streams.iter().flatten() {
        in_order.consume(*s);
    }
    let mut round_robin = Aggregator::new(frame(), 3);
    for i in (0..50).rev() {
        for k in [2usize, 0, 1] {
            round_robin.consume(streams[k][i]);
        }
    }
    assert_eq!(in_order.consumed, 150);
    assert_eq!(round_robin.consumed, 150);
    assert_eq!(in_order.into_raw_images(), round_robin.into_raw_images());
}

#[test]
fn marking_a_pixel_twice_equals_marking_it_once() {
    let mut once = Aggregator::new(frame(), 2);
    once.consume(sample(1, 20, 30));
    let mut twice = Aggregator::new(frame(), 2);
    twice.consume(sample(1, 20, 30));
    twice.consume(sample(1, 20, 30));
    assert_eq!(twice.consumed, 2);
    assert_eq!(once.into_raw_images(), twice.into_raw_images());
}
