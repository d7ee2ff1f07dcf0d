use bsp_renderer::split::{assemble_split, split_plan, SplitPlan};

type P = (i32, i32, i32);

fn quad() -> [P; 4] {
    [(0, 0, 0), (10, 0, 0), (10, 0, 10), (0, 0, 10)]
}

#[test]
fn plans_for_each_configuration() {
    assert_eq!(split_plan([false; 4]), Some(SplitPlan::Behind));
    assert_eq!(split_plan([true; 4]), Some(SplitPlan::InFront));
    assert_eq!(split_plan([true, false, false, true]), Some(SplitPlan::CutEdges01And23));
    assert_eq!(split_plan([false, true, true, false]), Some(SplitPlan::CutEdges01And23));
    assert_eq!(split_plan([true, true, false, false]), Some(SplitPlan::CutEdges12And30));
    assert_eq!(split_plan([false, false, true, true]), Some(SplitPlan::CutEdges12And30));
}

#[test]
fn unsupported_configurations_have_no_plan() {
    assert_eq!(split_plan([true, false, false, false]), None);
    assert_eq!(split_plan([true, true, true, false]), None);
    assert_eq!(split_plan([true, false, true, false]), None);
    assert_eq!(split_plan([false, true, false, true]), None);
}

#[test]
fn cut_edges_name_the_crossed_edges() {
    assert_eq!(SplitPlan::CutEdges01And23.cut_edges(), ((0, 1), (2, 3)));
    assert_eq!(SplitPlan::CutEdges12And30.cut_edges(), ((1, 2), (3, 0)));
}

#[test]
fn whole_face_goes_to_one_side() {
    let q = quad();
    let plan = split_plan([true; 4]).unwrap();
    assert_eq!(assemble_split(q, plan, true, q[0], q[0]), (Some(q), None));
    let plan = split_plan([false; 4]).unwrap();
    assert_eq!(assemble_split(q, plan, false, q[0], q[0]), (None, Some(q)));
}

#[test]
fn straddling_face_is_cut_in_two() {
    // A vertical face across the plane x = 5: corners 0 and 3 behind, 1 and 2 in front.
    let q = quad();
    let flags = [false, true, true, false];
    let plan = split_plan(flags).unwrap();
    let x = (5, 0, 0);
    let y = (5, 0, 10);
    let (front, behind) = assemble_split(q, plan, flags[0], x, y);
    assert_eq!(front, Some([x, (10, 0, 0), (10, 0, 10), y]));
    assert_eq!(behind, Some([(0, 0, 0), x, y, (0, 0, 10)]));
    // Both fragments hold both cut points.
    for f in [front.unwrap(), behind.unwrap()] {
        assert!(f.contains(&x) && f.contains(&y));
    }
}

#[test]
fn horizontal_cut_keeps_winding() {
    let q = quad();
    let flags = [true, true, false, false];
    let plan = split_plan(flags).unwrap();
    let x = (10, 0, 5);
    let y = (0, 0, 5);
    let (front, behind) = assemble_split(q, plan, flags[0], x, y);
    assert_eq!(front, Some([(0, 0, 0), (10, 0, 0), x, y]));
    assert_eq!(behind, Some([y, x, (10, 0, 10), (0, 0, 10)]));
}
