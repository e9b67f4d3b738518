use gt_tracker_rs::course::{
    is_valid_crn, parse_document, parse_enrollment_data, parse_enrollment_fields,
    parse_enrollment_rows, parse_page, parse_trimmed_rows, Course, CourseError, Enrollment, ParseError, ParseFault,
    ParseStage,
};
use gt_tracker_rs::Season;

fn page(name: Option<&str>, rows: &[&[&str]]) -> String {
    let mut s = String::from("<html><body><table>");
    if let Some(n) = name {
        s.push_str(&format!("<tr><th class=\"ddlabel\">{}</th></tr>", n));
    }
    s.push_str("<tr><td class=\"dddefault\"><table><tbody>");
    s.push_str("<tr><th></th><th>Capacity</th><th>Actual</th><th>Remaining</th></tr>");
    for row in rows {
        s.push_str("<tr><th>Seats</th>");
        for cell in row.iter() {
            s.push_str(&format!("<td>{}</td>", cell));
        }
        s.push_str("</tr>");
    }
    s.push_str("</tbody></table></td></tr></table></body></html>");
    s
}

fn texts(cells: &[&str]) -> Vec<String> {
    cells.iter().map(|c| c.to_string()).collect()
}

fn parse_fault(stage: ParseStage, fault: ParseFault) -> ParseError {
    ParseError { stage, fault }
}

#[test]
fn parses_fixture_document() {
    let body = page(Some("CS 1301 Intro to Computing"), &[&["30", "25", "5"], &["5", "2", "3"]]);
    let (name, class, waitlist) = parse_document(&body).unwrap();
    assert_eq!(name, "CS 1301 Intro to Computing");
    assert_eq!(class, Enrollment::new(30, 25, 5));
    assert_eq!(waitlist, Enrollment::new(5, 2, 3));
}

#[test]
fn missing_name_header_is_a_course_name_error() {
    let body = page(None, &[&["30", "25", "5"], &["5", "2", "3"]]);
    assert_eq!(
        parse_document(&body),
        Err(parse_fault(ParseStage::CourseName, ParseFault::MissingElement))
    );
}

#[test]
fn missing_enrollment_block_is_reported() {
    let body = "<html><body><table><tr><th class=\"ddlabel\">X</th></tr></table></body></html>";
    assert_eq!(
        parse_document(body),
        Err(parse_fault(ParseStage::EnrollmentBlock, ParseFault::MissingElement))
    );
}

#[test]
fn two_column_row_is_a_column_count_error() {
    let body = page(Some("CS 1301"), &[&["30", "25"], &["5", "2", "3"]]);
    assert_eq!(
        parse_document(&body),
        Err(parse_fault(ParseStage::ClassRow, ParseFault::ColumnCount(2)))
    );
}

#[test]
fn non_numeric_column_names_the_value() {
    let body = page(Some("CS 1301"), &[&["30", "25", "5"], &["5", "N/A", "3"]]);
    assert_eq!(
        parse_document(&body),
        Err(parse_fault(
            ParseStage::WaitlistRow,
            ParseFault::NotNumeric(1, "N/A".to_string())
        ))
    );
}

#[test]
fn missing_waitlist_row_is_reported() {
    let body = page(Some("CS 1301"), &[&["30", "25", "5"]]);
    assert_eq!(
        parse_document(&body),
        Err(parse_fault(ParseStage::WaitlistRow, ParseFault::MissingRow))
    );
}

#[test]
fn garbage_markup_is_an_error_value() {
    assert!(parse_document("<<<not html at all").is_err());
    assert!(parse_document("").is_err());
}

#[test]
fn inconsistent_counts_are_kept() {
    let body = page(Some("MATH 1554"), &[&["10", "12", "7"], &["0", "0", "0"]]);
    let (_, class, _) = parse_document(&body).unwrap();
    assert_eq!(class.capacity(), 10);
    assert_eq!(class.actual(), 12);
    assert_eq!(class.remaining(), 7);
}

#[test]
fn fields_parse_in_order() {
    assert_eq!(
        parse_enrollment_fields(&texts(&["30", "25", "5"])),
        Ok(Enrollment::new(30, 25, 5))
    );
    assert_eq!(
        parse_enrollment_fields(&texts(&["+7", "0", "4294967295"])),
        Ok(Enrollment::new(7, 0, 4294967295))
    );
}

#[test]
fn fields_report_first_bad_column_before_count() {
    assert_eq!(
        parse_enrollment_fields(&texts(&["1", "x", "y", "4"])),
        Err(ParseFault::NotNumeric(1, "x".to_string()))
    );
    assert_eq!(
        parse_enrollment_fields(&texts(&["1", "2", "3", "4"])),
        Err(ParseFault::ColumnCount(4))
    );
    assert_eq!(parse_enrollment_fields(&texts(&[])), Err(ParseFault::ColumnCount(0)));
    assert_eq!(
        parse_enrollment_fields(&texts(&["4294967296", "0", "0"])),
        Err(ParseFault::NotNumeric(0, "4294967296".to_string()))
    );
    assert_eq!(
        parse_enrollment_fields(&texts(&["-1", "0", "0"])),
        Err(ParseFault::NotNumeric(0, "-1".to_string()))
    );
}

#[test]
fn data_cells_are_trimmed() {
    assert_eq!(
        parse_enrollment_data(texts(&[" 30\n", "\t25 ", "5"])),
        Ok(Enrollment::new(30, 25, 5))
    );
    assert_eq!(
        parse_enrollment_data(texts(&[" 30 ", " N/A ", "5"])),
        Err(ParseFault::NotNumeric(1, "N/A".to_string()))
    );
}

#[test]
fn rows_skip_the_header() {
    let rows = vec![texts(&[]), texts(&["30", "25", "5"]), texts(&["5", "2", "3"])];
    assert_eq!(
        parse_enrollment_rows(&rows),
        Ok((Enrollment::new(30, 25, 5), Enrollment::new(5, 2, 3)))
    );
    assert_eq!(
        parse_enrollment_rows(&vec![texts(&[])]),
        Err(parse_fault(ParseStage::ClassRow, ParseFault::MissingRow))
    );
}

#[test]
fn page_reports_name_before_block() {
    assert_eq!(
        parse_page(None, None),
        Err(parse_fault(ParseStage::CourseName, ParseFault::MissingElement))
    );
    assert_eq!(
        parse_page(Some("A".to_string()), None),
        Err(parse_fault(ParseStage::EnrollmentBlock, ParseFault::MissingElement))
    );
}

#[test]
fn invalid_identifier_is_rejected_before_fetching() {
    for crn in ["12345", "1234567", ""] {
        let mut calls = 0;
        let r = Course::new(crn.to_string(), Season::Fall, |_, _| {
            calls += 1;
            Err("unreachable".to_string())
        });
        assert_eq!(r.unwrap_err(), CourseError::Validation(crn.to_string()));
        assert_eq!(calls, 0);
    }
    assert!(!is_valid_crn("12345"));
    assert!(is_valid_crn("239485"));
}

#[test]
fn course_is_built_from_fetched_page() {
    let body = page(Some("CS 1301 Intro to Computing"), &[&["30", "25", "5"], &["5", "2", "3"]]);
    let mut asked = Vec::new();
    let course = Course::new("239485".to_string(), Season::Fall, |term, crn| {
        asked.push((term, crn));
        Ok(body.clone())
    })
    .unwrap();
    assert_eq!(asked.len(), 1);
    assert_eq!(asked[0].0, Season::Fall.get_term());
    assert_eq!(asked[0].1, "239485");
    assert_eq!(course.crn(), "239485");
    assert_eq!(*course.season(), Season::Fall);
    assert_eq!(course.name(), "CS 1301 Intro to Computing");
    assert_eq!(*course.class_enrollment(), Enrollment::new(30, 25, 5));
    assert_eq!(*course.waitlist_enrollment(), Enrollment::new(5, 2, 3));
}

#[test]
fn network_failure_names_the_identifier() {
    let r = Course::new("239485".to_string(), Season::Spring, |_, _| Err("timed out".to_string()));
    assert_eq!(
        r.unwrap_err(),
        CourseError::Network("239485".to_string(), "timed out".to_string())
    );
}

#[test]
fn parse_failure_names_the_identifier() {
    let r = Course::new("239485".to_string(), Season::Summer, |_, _| Ok("<html></html>".to_string()));
    assert_eq!(
        r.unwrap_err(),
        CourseError::Parse(
            "239485".to_string(),
            parse_fault(ParseStage::CourseName, ParseFault::MissingElement)
        )
    );
}

#[test]
fn ref_array_lists_row_cells() {
    let course = Course::from_parts(
        "239485".to_string(),
        Season::Fall,
        "CS 1301".to_string(),
        Enrollment::new(30, 25, 5),
        Enrollment::new(5, 2, 3),
    )
    .unwrap();
    assert_eq!(course.ref_array(), ["CS 1301", "239485", "30", "25", "5"].map(String::from));
}

#[test]
fn from_parts_checks_identifier_length() {
    let r = Course::from_parts(
        "2394".to_string(),
        Season::Fall,
        "CS 1301".to_string(),
        Enrollment::default(),
        Enrollment::default(),
    );
    assert_eq!(r.unwrap_err(), CourseError::Validation("2394".to_string()));
}

#[test]
fn trimmed_rows_pick_class_and_waitlist() {
    let rows = vec![
        texts(&["Capacity"]),
        texts(&["30", "25", "5"]),
        texts(&["5", "2", "3"]),
        texts(&["9", "9", "9"]),
    ];
    assert_eq!(
        parse_trimmed_rows(&rows),
        Ok((Enrollment::new(30, 25, 5), Enrollment::new(5, 2, 3)))
    );
    assert_eq!(
        parse_trimmed_rows(&vec![texts(&[]), texts(&["1", "2", "3"])]),
        Err(parse_fault(ParseStage::WaitlistRow, ParseFault::MissingRow))
    );
    assert_eq!(
        parse_trimmed_rows(&vec![texts(&[]), texts(&["1", "2"]), texts(&["x"])]),
        Err(parse_fault(ParseStage::ClassRow, ParseFault::ColumnCount(2)))
    );
    assert_eq!(
        parse_trimmed_rows(&vec![texts(&[]), texts(&["1", "2", "3"]), texts(&[" 4", "5", "6"])]),
        Err(parse_fault(ParseStage::WaitlistRow, ParseFault::NotNumeric(0, " 4".to_string())))
    );
}

#[test]
fn rows_are_trimmed_before_reading() {
    let rows = vec![texts(&[]), texts(&[" 30 ", "25\n", "\t5"]), texts(&["5", " 2", "3 "])];
    assert_eq!(
        parse_enrollment_rows(&rows),
        Ok((Enrollment::new(30, 25, 5), Enrollment::new(5, 2, 3)))
    );
}
