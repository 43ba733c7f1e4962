use edugame::extract::{extract_nth_between, extract_attendance};
use edugame::scan::{remove_occurrences, contains_sub, str_eq};
use edugame::scrape::{needs_fallback, grade_base_index, collect_course_grades, course_attendance_value};

#[test]
fn nth_between_finds_each_span() {
    let text = "a<X>1</X>b<X>2</X>";
    assert_eq!(extract_nth_between(text, "<X>", "</X>", 1), Some("1".to_string()));
    assert_eq!(extract_nth_between(text, "<X>", "</X>", 2), Some("2".to_string()));
    assert_eq!(extract_nth_between(text, "<X>", "</X>", 3), None);
}

#[test]
fn nth_between_zero_is_none() {
    assert_eq!(extract_nth_between("a<X>1</X>", "<X>", "</X>", 0), None);
}

#[test]
fn nth_between_incomplete_span_is_none() {
    assert_eq!(extract_nth_between("a<X>1", "<X>", "</X>", 1), None);
    assert_eq!(extract_nth_between("", "<X>", "</X>", 1), None);
}

#[test]
fn suffix_between_exactly_three() {
    // span is exactly "100"
    let s = extract_attendance("<th>Asistencia100%</h1>", "<th>Asistencia", "%</h1>");
    assert_eq!(s, Some("100".to_string()));
}

#[test]
fn suffix_between_shorter_than_three() {
    let s = extract_attendance("<th>Asistencia5%</h1>", "<th>Asistencia", "%</h1>");
    assert_eq!(s, Some("5".to_string()));
}

#[test]
fn suffix_between_longer_than_three() {
    let s = extract_attendance("<th>Asistenciaxx100%</h1>", "<th>Asistencia", "%</h1>");
    assert_eq!(s, Some("100".to_string()));
}

#[test]
fn suffix_between_strips_padding_via_attendance_value() {
    // the located span ends in ">95": the '>' decoration is stripped,
    // leaving 95 percent, carried in tenths
    let text = "<th>Asistencia<b>95%</h1>";
    assert_eq!(course_attendance_value(text), 950);
}

#[test]
fn suffix_between_counts_characters_not_bytes() {
    // the span ends in multibyte characters: the last three CHARACTERS
    // come back, whatever their byte widths
    let s = extract_attendance("<th>Asistenciaxañé%</h1>", "<th>Asistencia", "%</h1>");
    assert_eq!(s, Some("añé".to_string()));
}

#[test]
fn attendance_value_defaults_to_zero() {
    assert_eq!(course_attendance_value("no markers here"), 0);
    // unparseable suffix
    assert_eq!(course_attendance_value("<th>Asistenciaabc%</h1>"), 0);
}

#[test]
fn remove_occurrences_deletes_every_copy() {
    assert_eq!(remove_occurrences("awrongbwrongc", "wrong"), "abc".to_string());
    assert_eq!(remove_occurrences("abc", "wrong"), "abc".to_string());
    assert_eq!(remove_occurrences("wrong", "wrong"), "".to_string());
}

#[test]
fn contains_and_str_eq() {
    assert!(contains_sub("hay No tienes permisos para ver esta cosa",
        "No tienes permisos para ver esta"));
    assert!(!contains_sub("todo bien", "No tienes permisos para ver esta"));
    assert!(str_eq("decimal", "decimal"));
    assert!(!str_eq("decimal", "experience"));
}

#[test]
fn fallback_marker_detection() {
    assert!(needs_fallback("<html>No tienes permisos para ver esta pagina</html>"));
    assert!(!needs_fallback("<html>notas</html>"));
}

#[test]
fn exam_row_shifts_base() {
    assert_eq!(grade_base_index("sin examen aqui"), 1);
    assert_eq!(grade_base_index("hay Examen pendiente"), 2);
}

fn cell(g: &str) -> String {
    format!("<h1 class=\"strong\"><span class=\"\">{}</span></h1>", g)
}

#[test]
fn collect_grades_plain() {
    let page = format!("x{}y{}z", cell("6.5"), cell("5.0"));
    let grades = collect_course_grades(&page, 2);
    assert_eq!(grades, vec!["6.5".to_string(), "5.0".to_string()]);
}

#[test]
fn collect_grades_skips_exam_placeholder() {
    let page = format!("Examen {}{}{}", cell(""), cell("6.5"), cell("5.0"));
    let grades = collect_course_grades(&page, 2);
    assert_eq!(grades, vec!["6.5".to_string(), "5.0".to_string()]);
}

#[test]
fn collect_grades_removes_wrong_artifact() {
    // the artifact splits the start marker; removing it restores the cell
    let page = format!("<h1 clwrongass=\"strong\"><span class=\"\">3.2</span></h1>{}", cell("4.1"));
    let grades = collect_course_grades(&page, 2);
    assert_eq!(grades, vec!["3.2".to_string(), "4.1".to_string()]);
}

#[test]
fn collect_grades_fewer_than_expected() {
    let page = format!("a{}b", cell("7.0"));
    let grades = collect_course_grades(&page, 5);
    assert_eq!(grades, vec!["7.0".to_string()]);
}
