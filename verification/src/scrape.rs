//! The compute half of a portal scrape.
//!
//! Network requests happen outside the library; this module holds every
//! decision and extraction in between: which fixed endpoint to fetch, when
//! the permission-denied fallback applies, how the exam placeholder shifts
//! field positions, and how four raw course pages become a student record.

use vstd::prelude::*;
use crate::extract::{spec_nth_between, spec_suffix_between, extract_nth_between, extract_attendance};
use crate::scan::{find_from, remove_all, contains_sub, remove_occurrences};
use crate::numparse::{spec_parse_tenths, parse_tenths, lemma_parse_tenths_bound};
use crate::student::{Student, StudentView, spec_apply_full};
use crate::level::LevelSystem;

verus! {

/// Login failures: bad credentials, a protocol-assumption violation, or a
/// transport failure reported by the caller.
#[derive(Clone, Copy, Debug, PartialEq, Eq, Structural)]
pub enum AuthError {
    InvalidCredentials,
    SessionCookieMissing,
    NetworkError,
}

/// What to do after parsing the login response envelope `{status, u}`.
pub enum LoginStep {
    Rejected,
    FollowRedirect(String),
    Done,
}

/// A non-200 login status means the credentials were rejected; a present
/// redirect URL must be fetched once for its session side effect.
pub fn interpret_login_response(status: i32, u: Option<String>) -> (r: LoginStep)
    ensures
        status != 200 ==> r is Rejected,
        status == 200 ==> ((u matches Some(url) ==> r matches LoginStep::FollowRedirect(x)
            && x == url) && (u is None ==> r is Done)),
{
    if status != 200 {
        LoginStep::Rejected
    } else {
        match u {
            Some(url) => LoginStep::FollowRedirect(url),
            None => LoginStep::Done,
        }
    }
}

/// The captured session cookie value, or the fatal protocol-assumption
/// violation when the portal set no cookie under the fixed name.
pub fn check_session_cookie(value: Option<&str>) -> (r: Result<String, AuthError>)
    ensures
        value is None ==> r == Err::<String, AuthError>(AuthError::SessionCookieMissing),
        value matches Some(v) ==> r matches Ok(s) && s@ == v@,
{
    match value {
        Some(v) => Ok(v.to_owned()),
        None => Err(AuthError::SessionCookieMissing),
    }
}

/// Name of the session cookie the portal sets on its root page; its
/// absence is a protocol violation, not a recoverable condition.
pub fn session_cookie_name() -> (r: &'static str)
    ensures
        r@ == "_ucampus"@,
{
    "_ucampus"
}

/// The portal root, fetched first to obtain the session cookie.
pub fn portal_root_url() -> (r: &'static str)
    ensures
        r@ == "https://ucampus.uahurtado.cl/"@,
{
    "https://ucampus.uahurtado.cl/"
}

/// The login endpoint taking the form below.
pub fn login_api_url() -> (r: &'static str)
    ensures
        r@ == "https://ucampus.uahurtado.cl/auth/api"@,
{
    "https://ucampus.uahurtado.cl/auth/api"
}

/// The fixed login form: service parameters, the captured session cookie
/// value, and the credentials, in this order.
pub fn login_form_entries(sess: &str, username: &str, password: &str) -> (r: Vec<(String, String)>)
    ensures
        r@.len() == 8,
        r@[0].0@ == "servicio"@ && r@[0].1@ == "ucampus"@,
        r@[1].0@ == "debug"@ && r@[1].1@ == "0"@,
        r@[2].0@ == "_sess"@ && r@[2].1@ == sess@,
        r@[3].0@ == "_LB"@ && r@[3].1@ == "uah02-int"@,
        r@[4].0@ == "lang"@ && r@[4].1@ == "es"@,
        r@[5].0@ == "username"@ && r@[5].1@ == username@,
        r@[6].0@ == "password"@ && r@[6].1@ == password@,
        r@[7].0@ == "recordar"@ && r@[7].1@ == "1"@,
{
    let mut r: Vec<(String, String)> = Vec::new();
    r.push((String::from_str("servicio"), String::from_str("ucampus")));
    r.push((String::from_str("debug"), String::from_str("0")));
    r.push((String::from_str("_sess"), String::from_str(sess)));
    r.push((String::from_str("_LB"), String::from_str("uah02-int")));
    r.push((String::from_str("lang"), String::from_str("es")));
    r.push((String::from_str("username"), String::from_str(username)));
    r.push((String::from_str("password"), String::from_str(password)));
    r.push((String::from_str("recordar"), String::from_str("1")));
    r
}

/// The grade page for one of the four tracked courses, by course position
/// (0 to 3) and portal section (1 or 2).
pub fn grades_url(course: usize, section: usize) -> (r: &'static str)
    requires
        course < 4,
        section == 1 || section == 2,
    ensures
        course == 0 && section == 1 ==> r@ == "https://ucampus.uahurtado.cl/uah/2025/1/CSI0168/1/notas/alumno"@,
        course == 0 && section == 2 ==> r@ == "https://ucampus.uahurtado.cl/uah/2025/1/CSI0168/2/notas/alumno"@,
        course == 1 && section == 1 ==> r@ == "https://ucampus.uahurtado.cl/uah/2025/1/CSI0169/1/notas/alumno"@,
        course == 1 && section == 2 ==> r@ == "https://ucampus.uahurtado.cl/uah/2025/1/CSI0169/2/notas/alumno"@,
        course == 2 && section == 1 ==> r@ == "https://ucampus.uahurtado.cl/uah/2025/1/CSI0165/1/notas/alumno"@,
        course == 2 && section == 2 ==> r@ == "https://ucampus.uahurtado.cl/uah/2025/1/CSI0165/2/notas/alumno"@,
        course == 3 && section == 1 ==> r@ == "https://ucampus.uahurtado.cl/uah/2025/1/CSI0167/1/notas/alumno"@,
        course == 3 && section == 2 ==> r@ == "https://ucampus.uahurtado.cl/uah/2025/1/CSI0167/2/notas/alumno"@,
{
    if course == 0 {
        if section == 1 { "https://ucampus.uahurtado.cl/uah/2025/1/CSI0168/1/notas/alumno" }
        else { "https://ucampus.uahurtado.cl/uah/2025/1/CSI0168/2/notas/alumno" }
    } else if course == 1 {
        if section == 1 { "https://ucampus.uahurtado.cl/uah/2025/1/CSI0169/1/notas/alumno" }
        else { "https://ucampus.uahurtado.cl/uah/2025/1/CSI0169/2/notas/alumno" }
    } else if course == 2 {
        if section == 1 { "https://ucampus.uahurtado.cl/uah/2025/1/CSI0165/1/notas/alumno" }
        else { "https://ucampus.uahurtado.cl/uah/2025/1/CSI0165/2/notas/alumno" }
    } else {
        if section == 1 { "https://ucampus.uahurtado.cl/uah/2025/1/CSI0167/1/notas/alumno" }
        else { "https://ucampus.uahurtado.cl/uah/2025/1/CSI0167/2/notas/alumno" }
    }
}

/// The attendance page for one of the four tracked courses.
pub fn attendance_url(course: usize, section: usize) -> (r: &'static str)
    requires
        course < 4,
        section == 1 || section == 2,
    ensures
        course == 0 && section == 1 ==> r@ == "https://ucampus.uahurtado.cl/uah/2025/1/CSI0168/1/asistencias2/"@,
        course == 0 && section == 2 ==> r@ == "https://ucampus.uahurtado.cl/uah/2025/1/CSI0168/2/asistencias2/"@,
        course == 1 && section == 1 ==> r@ == "https://ucampus.uahurtado.cl/uah/2025/1/CSI0169/1/asistencias2/"@,
        course == 1 && section == 2 ==> r@ == "https://ucampus.uahurtado.cl/uah/2025/1/CSI0169/2/asistencias2/"@,
        course == 2 && section == 1 ==> r@ == "https://ucampus.uahurtado.cl/uah/2025/1/CSI0165/1/asistencias2/"@,
        course == 2 && section == 2 ==> r@ == "https://ucampus.uahurtado.cl/uah/2025/1/CSI0165/2/asistencias2/"@,
        course == 3 && section == 1 ==> r@ == "https://ucampus.uahurtado.cl/uah/2025/1/CSI0167/1/asistencias2/"@,
        course == 3 && section == 2 ==> r@ == "https://ucampus.uahurtado.cl/uah/2025/1/CSI0167/2/asistencias2/"@,
{
    if course == 0 {
        if section == 1 { "https://ucampus.uahurtado.cl/uah/2025/1/CSI0168/1/asistencias2/" }
        else { "https://ucampus.uahurtado.cl/uah/2025/1/CSI0168/2/asistencias2/" }
    } else if course == 1 {
        if section == 1 { "https://ucampus.uahurtado.cl/uah/2025/1/CSI0169/1/asistencias2/" }
        else { "https://ucampus.uahurtado.cl/uah/2025/1/CSI0169/2/asistencias2/" }
    } else if course == 2 {
        if section == 1 { "https://ucampus.uahurtado.cl/uah/2025/1/CSI0165/1/asistencias2/" }
        else { "https://ucampus.uahurtado.cl/uah/2025/1/CSI0165/2/asistencias2/" }
    } else {
        if section == 1 { "https://ucampus.uahurtado.cl/uah/2025/1/CSI0167/1/asistencias2/" }
        else { "https://ucampus.uahurtado.cl/uah/2025/1/CSI0167/2/asistencias2/" }
    }
}

/// The body carries the portal's permission-denied marker, so the same
/// resource must be fetched once more from section 2.
pub open spec fn spec_needs_fallback(t: Seq<char>) -> bool {
    find_from(t, "No tienes permisos para ver esta"@, 0) is Some
}

pub fn needs_fallback(body: &str) -> (b: bool)
    ensures
        b == spec_needs_fallback(body@),
{
    contains_sub(body, "No tienes permisos para ver esta")
}

/// 1-based position of the first real grade cell: 2 when an exam row
/// shifts everything down by one, 1 otherwise.
pub open spec fn spec_grade_base(t: Seq<char>) -> nat {
    if find_from(t, "Examen"@, 0) is Some {
        2
    } else {
        1
    }
}

pub fn grade_base_index(grades_text: &str) -> (r: usize)
    ensures
        r == spec_grade_base(grades_text@),
{
    if contains_sub(grades_text, "Examen") {
        2
    } else {
        1
    }
}

/// The grade page text with the `"wrong"` styling artifact removed; the
/// artifact otherwise shifts marker detection on failing grades.
pub open spec fn spec_cleaned_grades(t: Seq<char>) -> Seq<char> {
    remove_all(t, "wrong"@)
}

/// The grade strings found on a cleaned grade page: the spans at 1-based
/// positions `base`, `base + 1`, ... up to `expected` of them, keeping
/// only the spans that exist.
pub open spec fn spec_grades_upto(cleaned: Seq<char>, base: nat, k: nat) -> Seq<Seq<char>>
    decreases k,
{
    if k == 0 {
        Seq::empty()
    } else {
        spec_grades_upto(cleaned, base, (k - 1) as nat) + match spec_nth_between(
            cleaned,
            "<h1 class=\"strong\"><span class=\"\">"@,
            "</span></h1>"@,
            (base + k - 1) as nat,
        ) {
            Some(g) => seq![g],
            None => Seq::empty(),
        }
    }
}

/// All grade strings extracted from one raw grade page.
pub open spec fn spec_course_grades(t: Seq<char>, expected: nat) -> Seq<Seq<char>> {
    spec_grades_upto(spec_cleaned_grades(t), spec_grade_base(t), expected)
}

/// Collect up to `expected` grade strings from a raw grade page, after
/// removing the `"wrong"` artifact and skipping the exam placeholder row.
pub fn collect_course_grades(grades_text: &str, expected: usize) -> (r: Vec<String>)
    requires
        expected <= 100,
    ensures
        r.deep_view() == spec_course_grades(grades_text@, expected as nat),
        r@.len() <= expected,
{
    let cleaned = remove_occurrences(grades_text, "wrong");
    let base = grade_base_index(grades_text);
    let mut r: Vec<String> = Vec::new();
    let mut k: usize = 0;
    proof {
        assert(r.deep_view() =~= spec_grades_upto(cleaned@, base as nat, 0));
    }
    while k < expected
        invariant
            k <= expected <= 100,
            base == spec_grade_base(grades_text@),
            base <= 2,
            cleaned@ == spec_cleaned_grades(grades_text@),
            r.deep_view() == spec_grades_upto(cleaned@, base as nat, k as nat),
            r@.len() <= k,
        decreases expected - k,
    {
        match extract_nth_between(
            cleaned.as_str(),
            "<h1 class=\"strong\"><span class=\"\">",
            "</span></h1>",
            base + k,
        ) {
            Some(g) => {
                let ghost prev = r.deep_view();
                let ghost gv = g@;
                r.push(g);
                proof {
                    assert(r.deep_view() =~= prev + seq![gv]);
                }
            },
            None => {},
        }
        k = k + 1;
    }
    r
}

/// The attendance percentage of one course, in tenths: the last three
/// characters of the attendance span with decorating `>` characters
/// stripped, parsed as a decimal, zero when absent or unparseable.
pub open spec fn spec_attendance_tenths(t: Seq<char>) -> int {
    let raw = match spec_suffix_between(t, "<th>Asistencia"@, "%</h1>"@) {
        Some(x) => x,
        None => "0"@,
    };
    let stripped = remove_all(raw, ">"@);
    match spec_parse_tenths(stripped) {
        Some(v) => v as int,
        None => 0,
    }
}

pub fn course_attendance_value(attendance_text: &str) -> (r: u32)
    ensures
        r == spec_attendance_tenths(attendance_text@),
        r <= 1000,
{
    let raw = match extract_attendance(attendance_text, "<th>Asistencia", "%</h1>") {
        Some(x) => x,
        None => String::from_str("0"),
    };
    let stripped = remove_occurrences(raw.as_str(), ">");
    proof {
        lemma_parse_tenths_bound(stripped@);
    }
    match parse_tenths(stripped.as_str()) {
        Some(v) => v,
        None => 0,
    }
}

/// One course's raw fetch result: the grade page and the attendance page.
pub struct RawCoursePage {
    pub grades_text: String,
    pub attendance_text: String,
}

/// The display name on the first grade page, or the fixed placeholder.
pub open spec fn spec_student_name(t: Seq<char>) -> Seq<char> {
    match spec_nth_between(t, "alias: '"@, "',"@, 1) {
        Some(n) => n,
        None => "Desconocido"@,
    }
}

/// The record a full scrape of the four course pages produces: a fresh
/// student named from the first grade page, with the gamification pass
/// applied to the extracted grades and attendance of all four courses
/// (expecting 2, 5, 3 and 2 grade cells respectively).
pub open spec fn spec_scraped_student(
    g1: Seq<char>, a1: Seq<char>,
    g2: Seq<char>, a2: Seq<char>,
    g3: Seq<char>, a3: Seq<char>,
    g4: Seq<char>, a4: Seq<char>,
) -> StudentView {
    let fresh = StudentView {
        name: spec_student_name(g1),
        assist: 0,
        grades: 0,
        mean: 0,
        exp: 0,
        level: 1,
        penalty: 0,
        bonus: 0,
        coins: 100,
    };
    spec_apply_full(
        fresh,
        spec_course_grades(g1, 2), spec_attendance_tenths(a1),
        spec_course_grades(g2, 5), spec_attendance_tenths(a2),
        spec_course_grades(g3, 3), spec_attendance_tenths(a3),
        spec_course_grades(g4, 2), spec_attendance_tenths(a4),
    )
}

/// Turn the four fetched course pages into the student record, in the
/// fixed course order: electivo, habilidades, algebra lineal, calculo
/// integral.
pub fn student_from_pages(
    electivo: &RawCoursePage,
    habilidades: &RawCoursePage,
    algebralineal: &RawCoursePage,
    calculointegral: &RawCoursePage,
) -> (r: Student)
    ensures
        r@ == spec_scraped_student(
            electivo.grades_text@, electivo.attendance_text@,
            habilidades.grades_text@, habilidades.attendance_text@,
            algebralineal.grades_text@, algebralineal.attendance_text@,
            calculointegral.grades_text@, calculointegral.attendance_text@,
        ),
        r.wf(),
{
    let name = match extract_nth_between(electivo.grades_text.as_str(), "alias: '", "',", 1) {
        Some(n) => n,
        None => String::from_str("Desconocido"),
    };

    let g1 = collect_course_grades(electivo.grades_text.as_str(), 2);
    let a1 = course_attendance_value(electivo.attendance_text.as_str());
    let g2 = collect_course_grades(habilidades.grades_text.as_str(), 5);
    let a2 = course_attendance_value(habilidades.attendance_text.as_str());
    let g3 = collect_course_grades(algebralineal.grades_text.as_str(), 3);
    let a3 = course_attendance_value(algebralineal.attendance_text.as_str());
    let g4 = collect_course_grades(calculointegral.grades_text.as_str(), 2);
    let a4 = course_attendance_value(calculointegral.attendance_text.as_str());

    let level_system = LevelSystem;
    let mut student = Student::new(name);
    student.apply_full_gamification(&g1, a1, &g2, a2, &g3, a3, &g4, a4, &level_system);
    student
}

} // verus!
