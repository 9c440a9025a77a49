use harmonagraph::trace::TraceBuffer;

fn trace_of(points: &[(i32, i32)]) -> TraceBuffer<(i32, i32)> {
    let mut trace = TraceBuffer::new();
    for p in points {
        trace.push(*p);
    }
    trace
}

#[test]
fn new_trace_is_empty() {
    let trace: TraceBuffer<(i32, i32)> = TraceBuffer::new();
    assert_eq!(trace.len(), 0);
    assert!(trace.is_empty());
    assert!(trace.as_slice().is_empty());
    assert_eq!(trace.segment_count(), 0);
    assert!(trace.segments().is_empty());
}

#[test]
fn push_keeps_insertion_order() {
    let trace = trace_of(&[(3, 1), (-2, 8), (0, 0), (7, 7)]);
    assert_eq!(trace.len(), 4);
    assert!(!trace.is_empty());
    assert_eq!(trace.as_slice(), &[(3, 1), (-2, 8), (0, 0), (7, 7)]);
}

#[test]
fn push_keeps_repeated_points() {
    let trace = trace_of(&[(1, 1), (1, 1), (1, 1)]);
    assert_eq!(trace.len(), 3);
    assert_eq!(trace.segments(), vec![((1, 1), (1, 1)), ((1, 1), (1, 1))]);
}

#[test]
fn clear_empties_the_trace() {
    let mut trace = trace_of(&[(1, 2), (3, 4)]);
    trace.clear();
    assert_eq!(trace.len(), 0);
    assert!(trace.is_empty());
    assert_eq!(trace.segment_count(), 0);
    trace.clear();
    assert!(trace.is_empty());
    trace.push((5, 6));
    assert_eq!(trace.as_slice(), &[(5, 6)]);
}

#[test]
fn one_point_has_no_segment() {
    let trace = trace_of(&[(4, 4)]);
    assert_eq!(trace.segment_count(), 0);
    assert!(trace.segments().is_empty());
}

#[test]
fn two_points_have_one_segment() {
    let trace = trace_of(&[(4, 4), (5, 9)]);
    assert_eq!(trace.segment_count(), 1);
    assert_eq!(trace.segments(), vec![((4, 4), (5, 9))]);
    assert_eq!(trace.segment(0), ((4, 4), (5, 9)));
}

#[test]
fn segments_join_consecutive_points_in_order() {
    let trace = trace_of(&[(0, 0), (1, 5), (2, -3), (9, 9), (4, 1)]);
    assert_eq!(trace.segment_count(), 4);
    assert_eq!(
        trace.segments(),
        vec![
            ((0, 0), (1, 5)),
            ((1, 5), (2, -3)),
            ((2, -3), (9, 9)),
            ((9, 9), (4, 1)),
        ]
    );
}

#[test]
fn segment_count_is_one_less_than_len() {
    let mut trace: TraceBuffer<(i32, i32)> = TraceBuffer::new();
    for k in 0..50usize {
        let expected = if k == 0 { 0 } else { k - 1 };
        assert_eq!(trace.len(), k);
        assert_eq!(trace.segment_count(), expected);
        assert_eq!(trace.segments().len(), expected);
        trace.push((k as i32, -(k as i32)));
    }
}

#[test]
fn segment_by_index_matches_the_list() {
    let trace = trace_of(&[(0, 0), (1, 5), (2, -3), (9, 9)]);
    let lines = trace.segments();
    for i in 0..trace.segment_count() {
        assert_eq!(trace.segment(i), lines[i]);
        assert_eq!(trace.segment(i), (trace.as_slice()[i], trace.as_slice()[i + 1]));
    }
}

#[test]
fn each_segment_starts_where_the_last_one_ended() {
    let trace = trace_of(&[(0, 0), (1, 5), (2, -3), (9, 9), (4, 1), (4, 1)]);
    let lines = trace.segments();
    for i in 1..lines.len() {
        assert_eq!(lines[i].0, lines[i - 1].1);
    }
}
