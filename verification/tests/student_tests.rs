use edugame::student::{Student, CourseMean};
use edugame::level::LevelSystem;
use edugame::scrape::{student_from_pages, RawCoursePage};

fn cell(g: &str) -> String {
    format!("<h1 class=\"strong\"><span class=\"\">{}</span></h1>", g)
}

fn grades_page(name: &str, grades: &[&str]) -> String {
    let mut page = format!("alias: '{}',", name);
    for g in grades {
        page.push_str(&cell(g));
    }
    page
}

fn attendance_page(percent: &str) -> String {
    format!("<th>Asistencia{}%</h1>", percent)
}

#[test]
fn course_mean_skips_unparseable() {
    let grades = vec!["6.5".to_string(), "basura".to_string(), "5.0".to_string()];
    let m = Student::calculate_course_mean(&grades);
    assert_eq!(m.sum_tenths, 115);
    assert_eq!(m.count, 2);
}

#[test]
fn course_mean_empty_when_nothing_parses() {
    let grades = vec!["x".to_string()];
    let m = Student::calculate_course_mean(&grades);
    assert_eq!(m.sum_tenths, 0);
    assert_eq!(m.count, 0);
}

#[test]
fn one_course_top_marks() {
    // mean 7.0 over two grades, full attendance:
    // base = round(((7-1)/6)*50 + 50) = 100, all six bonus amounts fire
    let mut s = Student::new("x".to_string());
    let ls = LevelSystem;
    s.apply_course_gamification(CourseMean { sum_tenths: 140, count: 2 }, 1000, &ls);
    assert_eq!(s.exp, 1300);
    assert_eq!(s.level, 28);
    assert_eq!(s.bonus, 7);
    assert_eq!(s.penalty, 0);
    // coin_bonus = 28*2 + 130 = 186; coins += 186*1300/100
    assert_eq!(s.coins, 100 + 2418);
}

#[test]
fn one_course_low_marks_bottoms_out() {
    // mean 4.0, attendance 60%: both penalties fire and floor the gain at 0
    let mut s = Student::new("x".to_string());
    let ls = LevelSystem;
    s.apply_course_gamification(CourseMean { sum_tenths: 80, count: 2 }, 600, &ls);
    assert_eq!(s.exp, 0);
    assert_eq!(s.level, 1);
    assert_eq!(s.bonus, 0);
    assert_eq!(s.penalty, 2);
    assert_eq!(s.coins, 100);
}

#[test]
fn one_course_midline_rounding() {
    // mean 5.0, attendance 70%: base = round(33.33 + 35) = 68, no thresholds
    let mut s = Student::new("x".to_string());
    let ls = LevelSystem;
    s.apply_course_gamification(CourseMean { sum_tenths: 50, count: 1 }, 700, &ls);
    assert_eq!(s.exp, 68);
    assert_eq!(s.level, 1);
    assert_eq!(s.bonus, 0);
    assert_eq!(s.penalty, 0);
    // coin_bonus = 1*2 + 6 = 8; coins += 8*68/100 = 5
    assert_eq!(s.coins, 105);
}

#[test]
fn full_scrape_top_student_end_to_end() {
    // mean 7.0 and attendance 100 on all four courses: every bonus
    // threshold fires every course, the 90% threshold counting double
    let p1 = RawCoursePage {
        grades_text: grades_page("Ana", &["7.0", "7.0"]),
        attendance_text: attendance_page("100"),
    };
    let p2 = RawCoursePage {
        grades_text: grades_page("", &["7.0", "7.0", "7.0", "7.0", "7.0"]),
        attendance_text: attendance_page("100"),
    };
    let p3 = RawCoursePage {
        grades_text: grades_page("", &["7.0", "7.0", "7.0"]),
        attendance_text: attendance_page("100"),
    };
    let p4 = RawCoursePage {
        grades_text: grades_page("", &["7.0", "7.0"]),
        attendance_text: attendance_page("100"),
    };
    let s = student_from_pages(&p1, &p2, &p3, &p4);
    assert_eq!(s.name, "Ana");
    assert_eq!(s.penalty, 0);
    assert_eq!(s.bonus, 28);
    assert_eq!(s.exp, 5200);
    assert_eq!(s.level, 53);
    // per course: gained 1300; coins compound over cumulative exp:
    // 2418 + 5408 + 8736 + 12272 on top of the 100 starting coins
    assert_eq!(s.coins, 100 + 2418 + 5408 + 8736 + 12272);
    assert_eq!(s.mean, 700);
    assert_eq!(s.grades, 840);
    assert_eq!(s.assist, 100);
}

#[test]
fn rescrape_is_idempotent() {
    let p1 = RawCoursePage {
        grades_text: grades_page("Luis", &["6.5", "4.2"]),
        attendance_text: attendance_page("87"),
    };
    let p2 = RawCoursePage {
        grades_text: grades_page("", &["5.5", "x", "6.0"]),
        attendance_text: attendance_page("62"),
    };
    let p3 = RawCoursePage {
        grades_text: grades_page("", &["3.9"]),
        attendance_text: attendance_page("100"),
    };
    let p4 = RawCoursePage {
        grades_text: grades_page("", &[]),
        attendance_text: "nada".to_string(),
    };
    let a = student_from_pages(&p1, &p2, &p3, &p4);
    let b = student_from_pages(&p1, &p2, &p3, &p4);
    assert_eq!(a.name, b.name);
    assert_eq!(a.assist, b.assist);
    assert_eq!(a.grades, b.grades);
    assert_eq!(a.mean, b.mean);
    assert_eq!(a.exp, b.exp);
    assert_eq!(a.level, b.level);
    assert_eq!(a.penalty, b.penalty);
    assert_eq!(a.bonus, b.bonus);
    assert_eq!(a.coins, b.coins);

    // applying the same upstream data to an already-scraped record
    // resets and reproduces the same fields
    let mut c = student_from_pages(&p1, &p2, &p3, &p4);
    let ls = LevelSystem;
    let g1: Vec<String> = vec!["6.5".to_string(), "4.2".to_string()];
    let g2: Vec<String> = vec!["5.5".to_string(), "x".to_string(), "6.0".to_string()];
    let g3: Vec<String> = vec!["3.9".to_string()];
    let g4: Vec<String> = vec![];
    c.apply_full_gamification(&g1, 870, &g2, 620, &g3, 1000, &g4, 0, &ls);
    assert_eq!(c.exp, a.exp);
    assert_eq!(c.level, a.level);
    assert_eq!(c.coins, a.coins);
    assert_eq!(c.bonus, a.bonus);
    assert_eq!(c.penalty, a.penalty);
    assert_eq!(c.mean, a.mean);
    assert_eq!(c.grades, a.grades);
    assert_eq!(c.assist, a.assist);
}

#[test]
fn default_name_when_alias_missing() {
    let p = RawCoursePage {
        grades_text: "sin alias".to_string(),
        attendance_text: "".to_string(),
    };
    let empty = RawCoursePage {
        grades_text: "".to_string(),
        attendance_text: "".to_string(),
    };
    let s = student_from_pages(&p, &empty, &empty, &empty);
    assert_eq!(s.name, "Desconocido");
}
