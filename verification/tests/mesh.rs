use render_gl::polys::{
    Polygons, RefVectorSearch, SearchStep, CYLINDER_DIVS, MAX_REF_SEARCH_STEPS,
};

#[derive(Clone, Copy, PartialEq, Debug)]
struct V3 {
    x: f32,
    y: f32,
    z: f32,
}

#[test]
fn ring_division_count_is_fixed() {
    assert_eq!(CYLINDER_DIVS, 15);
    assert_eq!(360 % CYLINDER_DIVS, 0);
}

#[test]
fn vertices_get_stable_consecutive_indices() {
    let mut polys: Polygons<V3> = Polygons::new();
    assert_eq!(polys.vertex_count(), 0);
    let a = polys.new_vertex(V3 { x: 0.0, y: 0.0, z: 0.0 });
    let b = polys.new_vertex(V3 { x: 1.0, y: 0.0, z: 0.0 });
    let c = polys.new_vertex(V3 { x: 1.0, y: 1.0, z: 0.0 });
    let d = polys.new_vertex(V3 { x: 0.0, y: 1.0, z: 0.0 });
    assert_eq!((a, b, c, d), (0, 1, 2, 3));
    assert_eq!(polys.vertex_count(), 4);
    assert_eq!(*polys.vertex(2), V3 { x: 1.0, y: 1.0, z: 0.0 });
}

#[test]
fn quads_refer_to_vertices_by_index_across_growth() {
    let mut polys: Polygons<V3> = Polygons::new();
    let a = polys.new_vertex(V3 { x: 0.0, y: 0.0, z: 0.0 });
    let b = polys.new_vertex(V3 { x: 1.0, y: 0.0, z: 0.0 });
    let c = polys.new_vertex(V3 { x: 1.0, y: 1.0, z: 0.0 });
    let d = polys.new_vertex(V3 { x: 0.0, y: 1.0, z: 0.0 });
    polys.new_quad(a, b, c, d);
    assert_eq!(polys.quad_count(), 1);

    // Growing the store afterwards leaves the recorded quad intact.
    for i in 0..100 {
        let f = i as f32;
        polys.new_vertex(V3 { x: f, y: f, z: f });
    }
    let q = polys.quad(0);
    assert_eq!((q.vert1, q.vert2, q.vert3, q.vert4), (0, 1, 2, 3));
    assert_eq!(*polys.vertex(q.vert3), V3 { x: 1.0, y: 1.0, z: 0.0 });
}

#[test]
fn search_accepts_a_usable_candidate_at_once() {
    let mut s = RefVectorSearch::new();
    assert_eq!(s.next(false), SearchStep::Accept);
    assert_eq!(s.steps, 0);
}

#[test]
fn search_nudges_until_a_candidate_passes() {
    let mut s = RefVectorSearch::new();
    assert_eq!(s.next(true), SearchStep::Nudge);
    assert_eq!(s.next(true), SearchStep::Nudge);
    assert_eq!(s.next(false), SearchStep::Accept);
    assert_eq!(s.steps, 2);
}

#[test]
fn search_gives_up_on_a_degenerate_axis_instead_of_looping() {
    // Over a zero-length axis every candidate tests degenerate; the search
    // must still end, by exhausting its budget and giving up.
    let mut s = RefVectorSearch::new();
    let mut verdicts: Vec<SearchStep> = Vec::new();
    loop {
        let step = s.next(true);
        verdicts.push(step);
        if step != SearchStep::Nudge {
            break;
        }
    }
    assert_eq!(verdicts.len() as u32, MAX_REF_SEARCH_STEPS + 1);
    assert!(verdicts[..verdicts.len() - 1]
        .iter()
        .all(|&v| v == SearchStep::Nudge));
    assert_eq!(*verdicts.last().unwrap(), SearchStep::GiveUp);
    // Once the budget is spent the verdict stays GiveUp.
    assert_eq!(s.next(true), SearchStep::GiveUp);
    // A usable candidate is still accepted even then.
    assert_eq!(s.next(false), SearchStep::Accept);
}
