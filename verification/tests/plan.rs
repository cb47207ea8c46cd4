use auto_curry::plan::{count_stages, is_legal_edge, plan_edges, EdgeKind, TransitionEdge};

fn pairs(n: usize) -> Vec<(usize, usize)> {
    plan_edges(n).iter().map(|e| (e.from, e.to)).collect()
}

#[test]
fn no_parameter_has_one_terminal_call() {
    assert_eq!(pairs(0), vec![(0, 0)]);
    assert_eq!(count_stages(0), 1);
    assert_eq!(plan_edges(0)[0].kind(0), EdgeKind::Terminal);
    assert_eq!(plan_edges(0)[0].arg_count(), 0);
}

#[test]
fn one_parameter_has_one_terminal_call() {
    assert_eq!(pairs(1), vec![(0, 1)]);
    assert_eq!(count_stages(1), 1);
    assert_eq!(plan_edges(1)[0].kind(1), EdgeKind::Terminal);
    assert_eq!(plan_edges(1)[0].arg_count(), 1);
}

#[test]
fn two_parameters() {
    assert_eq!(pairs(2), vec![(0, 1), (0, 2), (1, 2)]);
    assert_eq!(count_stages(2), 2);
}

#[test]
fn four_parameters_in_table_order() {
    assert_eq!(
        pairs(4),
        vec![(0, 1), (0, 2), (0, 3), (0, 4), (1, 2), (1, 3), (1, 4), (2, 3), (2, 4), (3, 4)]
    );
    assert_eq!(count_stages(4), 4);
}

#[test]
fn table_size_is_triangular() {
    for n in 1..20usize {
        assert_eq!(plan_edges(n).len(), n * (n + 1) / 2);
    }
    assert_eq!(plan_edges(0).len(), 1);
}

#[test]
fn table_is_complete_and_without_duplicates() {
    for n in 0..12usize {
        let table = pairs(n);
        for from in 0..=n + 1 {
            for to in 0..=n + 1 {
                let hits = table.iter().filter(|p| **p == (from, to)).count();
                let expected = if is_legal_edge(n, from, to) { 1 } else { 0 };
                assert_eq!(hits, expected);
            }
        }
    }
}

#[test]
fn legal_edges() {
    assert!(is_legal_edge(0, 0, 0));
    assert!(!is_legal_edge(0, 0, 1));
    assert!(is_legal_edge(3, 0, 3));
    assert!(is_legal_edge(3, 2, 3));
    assert!(!is_legal_edge(3, 2, 2));
    assert!(!is_legal_edge(3, 2, 1));
    assert!(!is_legal_edge(3, 3, 4));
    assert!(!is_legal_edge(3, 0, 0));
}

#[test]
fn kinds_of_transitions() {
    let mid = TransitionEdge { from: 1, to: 3 };
    assert_eq!(mid.kind(4), EdgeKind::Intermediate);
    assert_eq!(mid.kind(3), EdgeKind::Terminal);
    assert_eq!(mid.arg_count(), 2);
    let intermediate = plan_edges(5).iter().filter(|e| e.kind(5) == EdgeKind::Intermediate).count();
    let terminal = plan_edges(5).iter().filter(|e| e.kind(5) == EdgeKind::Terminal).count();
    assert_eq!(intermediate, 10);
    assert_eq!(terminal, 5);
}
