use actions_toolkit::summary::{
    SummaryImageOptions, SummaryTable, SummaryTableCell, SummaryWriteOptions,
};
use actions_toolkit::toolkit::{AnnotationProperties, ExitCode, InputOptions};

#[test]
fn add_sums() {
    assert_eq!(actions_toolkit::add(2, 2), 4);
}

#[test]
fn exit_codes() {
    assert_eq!(ExitCode::Success.code(), 0);
    assert_eq!(ExitCode::Failure.code(), 1);
}

#[test]
fn input_option_defaults() {
    let o = InputOptions::default();
    assert!(!o.is_required());
    assert!(o.trims_whitespace());
    let o = InputOptions { required: Some(true), trim_whitespace: Some(false) };
    assert!(o.is_required());
    assert!(!o.trims_whitespace());
}

#[test]
fn annotation_end_defaults_to_start() {
    let a = AnnotationProperties {
        title: Some("title".to_owned()),
        file: Some("file.rs".to_owned()),
        start_line: Some(1),
        end_line: None,
        start_column: Some(1),
        end_column: None,
    };
    assert_eq!(a.resolved_end_line(), Some(1));
    assert_eq!(a.resolved_end_column(), Some(1));
    assert!(a.columns_allowed());
    let b = AnnotationProperties { end_line: Some(4), end_column: Some(2), ..a };
    assert_eq!(b.resolved_end_line(), Some(4));
    assert_eq!(b.resolved_end_column(), Some(2));
    assert!(!b.columns_allowed());
}

#[test]
fn summary_defaults() {
    let c = SummaryTableCell { data: "x".to_string(), ..SummaryTableCell::default() };
    assert!(!c.is_header());
    assert_eq!(c.column_span(), 1);
    assert_eq!(c.row_span(), 1);
    let h = SummaryTableCell {
        data: "h".to_string(),
        header: Some(true),
        colspan: Some(3),
        rowspan: Some(2),
    };
    assert!(h.is_header());
    assert_eq!(h.column_span(), 3);
    assert_eq!(h.row_span(), 2);
    let t = SummaryTable(vec![vec![h, c]]);
    assert_eq!(t.0[0].len(), 2);
    assert!(!SummaryWriteOptions::default().overwrites());
    assert!(SummaryWriteOptions { overwrite: Some(true) }.overwrites());
    let i = SummaryImageOptions { width: Some(32), height: None };
    assert_eq!(i.width, Some(32));
}
