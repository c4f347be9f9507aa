use markstx::error::ProcessorErrorType;
use markstx::nesting::{IncludeTrail, MAX_INCLUDE_DEPTH};

#[test]
fn new_trail_is_empty() {
    assert_eq!(IncludeTrail::new().depth(), 0);
}

#[test]
fn entering_and_leaving() {
    let mut trail = IncludeTrail::new();
    trail.enter("a.md").unwrap();
    trail.enter("b.md").unwrap();
    assert_eq!(trail.depth(), 2);
    trail.leave();
    assert_eq!(trail.depth(), 1);
    trail.enter("b.md").unwrap();
    assert_eq!(trail.depth(), 2);
    trail.leave();
    trail.leave();
    assert_eq!(trail.depth(), 0);
    trail.leave();
    assert_eq!(trail.depth(), 0);
}

#[test]
fn two_document_cycle_is_refused() {
    let mut trail = IncludeTrail::new();
    trail.enter("docs/a.md").unwrap();
    trail.enter("docs/b.md").unwrap();
    let failed = trail.enter("docs/a.md").unwrap_err();
    assert!(matches!(&failed.error, ProcessorErrorType::RecursionLimit(words) if words == "document includes itself: docs/a.md"));
    assert_eq!(trail.depth(), 2);
}

#[test]
fn document_that_includes_itself_is_refused() {
    let mut trail = IncludeTrail::new();
    trail.enter("a.md").unwrap();
    let failed = trail.enter("a.md").unwrap_err();
    assert_eq!(failed.message(), "document includes itself: a.md");
    assert_eq!(trail.depth(), 1);
}

#[test]
fn document_can_be_included_again_after_it_was_left() {
    let mut trail = IncludeTrail::new();
    trail.enter("a.md").unwrap();
    trail.enter("b.md").unwrap();
    trail.leave();
    trail.enter("c.md").unwrap();
    trail.enter("b.md").unwrap();
    assert_eq!(trail.depth(), 3);
}

#[test]
fn depth_is_bounded() {
    assert_eq!(MAX_INCLUDE_DEPTH, 64);
    let mut trail = IncludeTrail::new();
    for i in 0..MAX_INCLUDE_DEPTH {
        trail.enter(&format!("{i}.md")).unwrap();
    }
    assert_eq!(trail.depth(), MAX_INCLUDE_DEPTH);
    let failed = trail.enter("one-more.md").unwrap_err();
    assert!(matches!(&failed.error, ProcessorErrorType::RecursionLimit(words) if words == "documents are nested too deeply: one-more.md"));
    assert_eq!(trail.depth(), MAX_INCLUDE_DEPTH);
    trail.leave();
    trail.enter("one-more.md").unwrap();
    assert_eq!(trail.depth(), MAX_INCLUDE_DEPTH);
}
