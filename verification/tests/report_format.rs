use failure::Fail;
use render_gl::report::error_chain_to_string;

#[test]
fn a_single_cause_is_the_cause_and_a_line_break() {
    let causes = vec![String::from("could not open window")];
    let places = vec![None];
    assert_eq!(error_chain_to_string(&causes, &places), "could not open window\n");
}

#[test]
fn later_causes_are_introduced_on_their_own_line() {
    let causes = vec![
        String::from("no such file: assets/shaders/triangle.vert"),
        String::from("Failed to load resource shaders/triangle.vert"),
    ];
    let places = vec![None, None];
    assert_eq!(
        error_chain_to_string(&causes, &places),
        "no such file: assets/shaders/triangle.vert\n\
         \tWhich caused the following issue:\n\
         Failed to load resource shaders/triangle.vert\n"
    );
}

#[test]
fn a_known_place_follows_its_cause() {
    let causes = vec![String::from("boom")];
    let places = vec![Some(String::from("src/render.rs:10"))];
    assert_eq!(
        error_chain_to_string(&causes, &places),
        "boom\tThis happened at src/render.rs:10\n"
    );
}

#[test]
fn an_empty_place_counts_as_unknown() {
    let causes = vec![String::from("boom")];
    let places = vec![Some(String::new())];
    assert_eq!(error_chain_to_string(&causes, &places), "boom\n");
}

#[test]
fn renders_a_real_failure_chain() {
    let inner = failure::err_msg("no such file");
    let e: failure::Error = inner
        .context("Failed to load resource shaders/triangle.vert")
        .into();
    let mut causes: Vec<String> = Vec::new();
    let mut places: Vec<Option<String>> = Vec::new();
    for cause in e.iter_chain().collect::<Vec<_>>().into_iter().rev() {
        causes.push(format!("{}", cause));
        places.push(cause.backtrace().map(|b| format!("{}", b)));
    }
    let s = error_chain_to_string(&causes, &places);
    assert!(s.starts_with("no such file"));
    assert!(s.contains(
        "\tWhich caused the following issue:\nFailed to load resource shaders/triangle.vert"
    ));
}

#[test]
fn no_causes_render_as_the_empty_report() {
    let causes: Vec<String> = vec![];
    let places: Vec<Option<String>> = vec![];
    assert_eq!(error_chain_to_string(&causes, &places), "");
}
