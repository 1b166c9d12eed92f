use ravenscar_app::workload::{WorkloadIndices, N9};

#[test]
fn first_iteration_touches_cell_one_and_cell_zero() {
    let indices = WorkloadIndices::new();
    let plan = indices.plan_iteration();
    assert_eq!(plan.first_cells, None);
    assert_eq!(plan.first_sum, 0);
    assert_eq!(plan.sine_argument, 0);
    assert_eq!(plan.second_cell, None);
    assert_eq!(plan.second_sum, 0);
    assert_eq!(plan.third_cell, Some(1));
    assert_eq!(plan.p0_cells, (0, 0, 0, 0));
}

#[test]
fn a_missed_iteration_raises_ij_and_the_next_plan_is_the_same() {
    let mut indices = WorkloadIndices::new();
    indices.finish_iteration(true);
    let plan = indices.plan_iteration();
    // ij = 1 is shuffled away again: ij = (ik - ij) * (il - ik) = (0 - 1) * 0.
    assert_eq!(plan.first_cells, None);
    assert_eq!(plan.first_sum, 0);
    assert_eq!(plan.third_cell, Some(1));
    assert_eq!(plan.p0_cells, (0, 0, 0, 0));
    indices.finish_iteration(false);
    let again = indices.plan_iteration();
    assert_eq!(again.third_cell, Some(1));
}

#[test]
fn many_iterations_stay_inside_the_array() {
    let mut indices = WorkloadIndices::new();
    for k in 0..1_000 {
        let plan = indices.plan_iteration();
        let (a, b, c, d) = plan.p0_cells;
        for cell in [a, b, c, d] {
            assert!(cell < N9 as usize);
        }
        if let Some(cell) = plan.third_cell {
            assert!(cell < N9 as usize);
        }
        indices.finish_iteration(k % 2 == 0);
    }
}
