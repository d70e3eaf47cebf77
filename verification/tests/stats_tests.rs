use threedtest::stats::{fps_level, record_trail, FpsLevel, FpsStats, FPS_HISTORY_LEN};

#[test]
fn first_second() {
    let mut s = FpsStats::new();
    let w = s.record_second(42);
    assert_eq!(w, 0);
    assert_eq!(s.fps, 42);
    assert_eq!(s.fps_min, Some(42));
    assert_eq!(s.fps_max, 42);
    assert_eq!(s.history, vec![42]);
}

#[test]
fn min_max_track_extremes() {
    let mut s = FpsStats::new();
    for f in [60, 30, 90, 45] {
        s.record_second(f);
    }
    assert_eq!(s.fps, 45);
    assert_eq!(s.fps_min, Some(30));
    assert_eq!(s.fps_max, 90);
}

#[test]
fn average_weight_capped_at_sixty() {
    let mut s = FpsStats::new();
    let mut weights = Vec::new();
    for i in 0..70u32 {
        weights.push(s.record_second(i));
    }
    assert_eq!(weights[0], 0);
    assert_eq!(weights[59], 59);
    assert_eq!(weights[60], 60);
    assert_eq!(weights[69], 60);
}

#[test]
fn history_keeps_last_120() {
    let mut s = FpsStats::new();
    for i in 0..125u32 {
        s.record_second(i);
        assert!(s.history.len() <= FPS_HISTORY_LEN);
    }
    assert_eq!(s.history.len(), 120);
    assert_eq!(s.history[0], 5);
    assert_eq!(s.history[119], 124);
}

#[test]
fn fps_levels() {
    assert_eq!(fps_level(144), FpsLevel::Smooth);
    assert_eq!(fps_level(60), FpsLevel::Smooth);
    assert_eq!(fps_level(59), FpsLevel::Fair);
    assert_eq!(fps_level(30), FpsLevel::Fair);
    assert_eq!(fps_level(29), FpsLevel::Slow);
    assert_eq!(fps_level(0), FpsLevel::Slow);
}

#[test]
fn trail_bounded() {
    let mut t: Vec<[f32; 3]> = Vec::new();
    for i in 0..10 {
        record_trail(&mut t, Some([i as f32, 0.0, 0.0]), 3);
        assert!(t.len() <= 3);
    }
    assert_eq!(t, vec![[7.0, 0.0, 0.0], [8.0, 0.0, 0.0], [9.0, 0.0, 0.0]]);
}

#[test]
fn trail_shrinks_when_length_lowered() {
    let mut t: Vec<u32> = vec![1, 2, 3, 4, 5, 6];
    record_trail(&mut t, Some(7), 2);
    assert_eq!(t, vec![6, 7]);
    record_trail(&mut t, Some(8), 0);
    assert!(t.is_empty());
}

#[test]
fn trail_without_selection_only_trims() {
    let mut t: Vec<u32> = vec![1, 2, 3, 4];
    record_trail(&mut t, None, 8);
    assert_eq!(t, vec![1, 2, 3, 4]);
    record_trail(&mut t, None, 2);
    assert_eq!(t, vec![3, 4]);
}
