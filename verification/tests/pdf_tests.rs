use mdpdf::pdf::{
    capture_request, pdf_action, pdf_advance, pdf_done, pdf_failed, pdf_start, PdfStep,
    PX_PER_INCH,
};

fn drive(mut outcomes: Vec<bool>) -> (Vec<PdfStep>, bool) {
    outcomes.reverse();
    let mut state = pdf_start();
    let mut steps: Vec<PdfStep> = Vec::new();
    while !pdf_done(&state) {
        match pdf_action(&state) {
            Some(step) => {
                steps.push(step);
                let ok = outcomes.pop().unwrap_or(true);
                state = pdf_advance(state, ok);
            }
            None => {
                state = pdf_advance(state, true);
            }
        }
    }
    (steps, pdf_failed(&state))
}

#[test]
fn margins_are_three_quarters_of_an_inch() {
    // output path doc.pdf, margin 72 px: all four margins are 0.75 inch
    let req = capture_request(72);
    assert_eq!(req.margin_top_px, 72);
    assert_eq!(req.margin_bottom_px, 72);
    assert_eq!(req.margin_left_px, 72);
    assert_eq!(req.margin_right_px, 72);
    assert_eq!(req.margin_top_px as f64 / PX_PER_INCH as f64, 0.75);
}

#[test]
fn capture_request_fixed_geometry() {
    let req = capture_request(50);
    assert!(req.print_background);
    assert!(!req.landscape);
    assert!(req.prefer_css_page_size);
    assert_eq!(req.paper_width_thou_in as f64 / 1000.0, 8.5);
    assert_eq!(req.paper_height_thou_in as f64 / 1000.0, 11.0);
    assert_eq!(req.margin_top_px, 50);
}

#[test]
fn protocol_success_path_in_order() {
    let (steps, failed) = drive(vec![true; 9]);
    assert_eq!(
        steps,
        vec![
            PdfStep::WriteArtifact,
            PdfStep::LaunchEngine,
            PdfStep::OpenPage,
            PdfStep::Navigate,
            PdfStep::Settle,
            PdfStep::Capture,
            PdfStep::WriteOutput,
            PdfStep::DeleteArtifact,
            PdfStep::CloseEngine,
        ]
    );
    assert!(!failed);
}

#[test]
fn capture_failure_cleans_up_and_writes_nothing() {
    // write, launch, open, navigate, settle succeed; capture fails
    let (steps, failed) = drive(vec![true, true, true, true, true, false]);
    assert!(failed);
    assert!(!steps.contains(&PdfStep::WriteOutput));
    assert!(steps.contains(&PdfStep::DeleteArtifact));
    assert!(steps.contains(&PdfStep::CloseEngine));
}

#[test]
fn navigation_failure_cleans_up_and_writes_nothing() {
    let (steps, failed) = drive(vec![true, true, true, false]);
    assert!(failed);
    assert!(!steps.contains(&PdfStep::WriteOutput));
    assert!(steps.contains(&PdfStep::DeleteArtifact));
    assert!(steps.contains(&PdfStep::CloseEngine));
}

#[test]
fn launch_failure_deletes_artifact_skips_engine() {
    let (steps, failed) = drive(vec![true, false]);
    assert!(failed);
    assert_eq!(
        steps,
        vec![PdfStep::WriteArtifact, PdfStep::LaunchEngine, PdfStep::DeleteArtifact]
    );
}

#[test]
fn write_failure_still_tries_to_delete() {
    let (steps, failed) = drive(vec![false]);
    assert!(failed);
    assert_eq!(steps, vec![PdfStep::WriteArtifact, PdfStep::DeleteArtifact]);
}
