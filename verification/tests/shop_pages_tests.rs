use edugame::shop::get_shop_items;
use edugame::pages::{index, coinflip_page, shop_page, slots_page};
use edugame::scrape::{
    interpret_login_response, LoginStep, check_session_cookie, session_cookie_name,
    portal_root_url, login_api_url, login_form_entries, grades_url, attendance_url, AuthError,
};

#[test]
fn shop_catalog_contents() {
    let items = get_shop_items();
    assert_eq!(items.len(), 2);
    assert_eq!(items[0].id, "decimal");
    assert_eq!(items[0].name, "Décima Extra");
    assert_eq!(items[0].price, 250);
    assert_eq!(items[0].max_quantity, 10);
    assert_eq!(items[1].id, "experience");
    assert_eq!(items[1].name, "Experiencia Boost");
    assert_eq!(items[1].price, 150);
    assert_eq!(items[1].max_quantity, 20);
}

#[test]
fn pages_hold_their_titles() {
    assert!(index().contains("UCampus EduGame"));
    assert!(coinflip_page().contains("Coin Flip"));
    assert!(shop_page().contains("UAHShop"));
    assert!(slots_page().contains("Slots Game"));
}

#[test]
fn login_response_interpretation() {
    assert!(matches!(interpret_login_response(403, None), LoginStep::Rejected));
    assert!(matches!(
        interpret_login_response(403, Some("u".to_string())),
        LoginStep::Rejected
    ));
    assert!(matches!(interpret_login_response(200, None), LoginStep::Done));
    match interpret_login_response(200, Some("https://example.invalid/next".to_string())) {
        LoginStep::FollowRedirect(u) => assert_eq!(u, "https://example.invalid/next"),
        _ => panic!("expected a redirect"),
    }
}

#[test]
fn auth_error_variants_are_distinct() {
    assert_ne!(AuthError::InvalidCredentials, AuthError::SessionCookieMissing);
    assert_ne!(AuthError::InvalidCredentials, AuthError::NetworkError);
}

#[test]
fn missing_session_cookie_is_fatal() {
    assert_eq!(check_session_cookie(None), Err(AuthError::SessionCookieMissing));
    assert_eq!(check_session_cookie(Some("abc123")), Ok("abc123".to_string()));
}

#[test]
fn fixed_protocol_constants() {
    assert_eq!(session_cookie_name(), "_ucampus");
    assert_eq!(portal_root_url(), "https://ucampus.uahurtado.cl/");
    assert_eq!(login_api_url(), "https://ucampus.uahurtado.cl/auth/api");
}

#[test]
fn login_form_has_fixed_fields() {
    let entries = login_form_entries("sessvalue", "user@x", "secret");
    let expected = [
        ("servicio", "ucampus"),
        ("debug", "0"),
        ("_sess", "sessvalue"),
        ("_LB", "uah02-int"),
        ("lang", "es"),
        ("username", "user@x"),
        ("password", "secret"),
        ("recordar", "1"),
    ];
    assert_eq!(entries.len(), expected.len());
    for (got, want) in entries.iter().zip(expected.iter()) {
        assert_eq!(got.0, want.0);
        assert_eq!(got.1, want.1);
    }
}

#[test]
fn course_urls_follow_the_scheme() {
    assert_eq!(
        grades_url(0, 1),
        "https://ucampus.uahurtado.cl/uah/2025/1/CSI0168/1/notas/alumno"
    );
    assert_eq!(
        grades_url(1, 2),
        "https://ucampus.uahurtado.cl/uah/2025/1/CSI0169/2/notas/alumno"
    );
    assert_eq!(
        attendance_url(2, 1),
        "https://ucampus.uahurtado.cl/uah/2025/1/CSI0165/1/asistencias2/"
    );
    assert_eq!(
        attendance_url(3, 2),
        "https://ucampus.uahurtado.cl/uah/2025/1/CSI0167/2/asistencias2/"
    );
}
