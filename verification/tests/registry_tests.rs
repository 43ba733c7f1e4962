use edugame::registry::Registry;
use edugame::student::Student;
use edugame::games::GameError;

fn student_with_coins(name: &str, coins: u32) -> Student {
    let mut s = Student::new(name.to_string());
    s.coins = coins;
    s
}

fn registry_with(name: &str, coins: u32) -> Registry {
    let mut r = Registry::new();
    r.upsert(name.to_string(), student_with_coins(name, coins));
    r
}

#[test]
fn upsert_creates_and_replaces() {
    let mut r = Registry::new();
    let u = "ana@alumnos".to_string();
    assert!(r.get_balance(&u).is_none());
    r.upsert(u.clone(), student_with_coins("ana@alumnos", 100));
    assert_eq!(r.get_balance(&u).unwrap().coins, 100);
    r.upsert(u.clone(), student_with_coins("ana@alumnos", 777));
    assert_eq!(r.get_balance(&u).unwrap().coins, 777);
    assert!(r.contains(&u));
    assert!(!r.contains(&"otro".to_string()));
}

#[test]
fn usernames_are_case_sensitive() {
    let r = registry_with("Ana", 100);
    assert!(r.contains(&"Ana".to_string()));
    assert!(!r.contains(&"ana".to_string()));
}

#[test]
fn coinflip_not_found() {
    let mut r = Registry::new();
    let res = r.settle_coinflip(&"nadie".to_string(), 10, true, true);
    assert_eq!(res.unwrap_err(), GameError::NotFound);
}

#[test]
fn coinflip_insufficient_leaves_balance() {
    let u = "p".to_string();
    let mut r = registry_with("p", 50);
    let res = r.settle_coinflip(&u, 51, true, true);
    assert_eq!(res.unwrap_err(), GameError::InsufficientFunds);
    assert_eq!(r.get_balance(&u).unwrap().coins, 50);
}

#[test]
fn oversized_stake_is_plain_insufficient_funds() {
    // a stake far over the balance is refused as InsufficientFunds even
    // when doubling it would not fit a u32
    let u = "p".to_string();
    let mut r = registry_with("p", 100);
    let res = r.settle_coinflip(&u, 3_000_000_000, true, true);
    assert_eq!(res.unwrap_err(), GameError::InsufficientFunds);
    assert_eq!(r.get_balance(&u).unwrap().coins, 100);
    let res = r.settle_slots(&u, 3_000_000_000, 0, 0, 0);
    assert_eq!(res.unwrap_err(), GameError::InsufficientFunds);
    assert_eq!(r.get_balance(&u).unwrap().coins, 100);
}

#[test]
fn coinflip_win_pays_double() {
    let u = "p".to_string();
    let mut r = registry_with("p", 100);
    let res = r.settle_coinflip(&u, 30, true, true).unwrap();
    assert!(res.won);
    assert_eq!(res.result, "heads");
    assert_eq!(res.coins_won, 60);
    assert_eq!(res.coins_lost, 0);
    assert_eq!(res.new_balance, 160);
    assert_eq!(r.get_balance(&u).unwrap().coins, 160);
}

#[test]
fn coinflip_loss_costs_stake() {
    let u = "p".to_string();
    let mut r = registry_with("p", 100);
    let res = r.settle_coinflip(&u, 30, true, false).unwrap();
    assert!(!res.won);
    assert_eq!(res.result, "tails");
    assert_eq!(res.coins_won, 0);
    assert_eq!(res.coins_lost, 30);
    assert_eq!(res.new_balance, 70);
}

#[test]
fn random_coinflip_moves_balance_consistently() {
    let u = "p".to_string();
    let mut r = registry_with("p", 100);
    let res = r.play_coinflip(&u, 40, true).unwrap();
    let expected = if res.won { 180 } else { 60 };
    assert_eq!(res.new_balance, expected);
    assert_eq!(r.get_balance(&u).unwrap().coins, expected);
}

#[test]
fn slots_three_equal_pays_ten_times() {
    let u = "p".to_string();
    let mut r = registry_with("p", 100);
    let res = r.settle_slots(&u, 10, 3, 3, 3).unwrap();
    assert!(res.won);
    assert_eq!(res.payout, 100);
    assert_eq!(res.win_type, Some("3 Iguales".to_string()));
    assert_eq!(res.new_balance, 100 + 100 - 10);
    assert_eq!(res.symbols, vec!["IHateVisualStudio"; 3]);
}

#[test]
fn slots_two_equal_pays_three_times() {
    let u = "p".to_string();
    let mut r = registry_with("p", 100);
    let res = r.settle_slots(&u, 10, 0, 5, 0).unwrap();
    assert!(res.won);
    assert_eq!(res.payout, 30);
    assert_eq!(res.win_type, Some("2 Iguales".to_string()));
    assert_eq!(res.new_balance, 100 + 30 - 10);
    assert_eq!(
        res.symbols,
        vec![
            "IHatePyhisics".to_string(),
            "ILikeCaffeine".to_string(),
            "IHatePyhisics".to_string()
        ]
    );
}

#[test]
fn slots_all_different_loses_stake() {
    let u = "p".to_string();
    let mut r = registry_with("p", 100);
    let res = r.settle_slots(&u, 25, 1, 2, 6).unwrap();
    assert!(!res.won);
    assert_eq!(res.payout, 0);
    assert_eq!(res.win_type, None);
    assert_eq!(res.amount_wagered, 25);
    assert_eq!(res.new_balance, 75);
}

#[test]
fn slots_insufficient_refused() {
    let u = "p".to_string();
    let mut r = registry_with("p", 10);
    let res = r.settle_slots(&u, 11, 0, 0, 0);
    assert_eq!(res.unwrap_err(), GameError::InsufficientFunds);
    assert_eq!(r.get_balance(&u).unwrap().coins, 10);
}

#[test]
fn purchase_decimal_applies_boost() {
    let u = "p".to_string();
    let mut r = registry_with("p", 1000);
    let res = r.purchase_item(&u, &"decimal".to_string(), 3).unwrap();
    assert!(res.success);
    assert_eq!(res.coins_spent, 750);
    assert_eq!(res.new_balance, 250);
    assert_eq!(res.item_received, "Décimas");
    assert_eq!(res.quantity, 3);
    assert_eq!(res.message, "Has comprado 3 Décimas exitosamente!");
    let s = r.get_balance(&u).unwrap();
    assert_eq!(s.coins, 250);
    assert_eq!(s.mean, 30);
    assert_eq!(s.grades, 3);
    assert_eq!(s.level, 1);
}

#[test]
fn purchase_experience_recomputes_level() {
    let u = "p".to_string();
    let mut r = registry_with("p", 10_000);
    let res = r.purchase_item(&u, &"experience".to_string(), 2).unwrap();
    assert!(res.success);
    assert_eq!(res.coins_spent, 300);
    assert_eq!(res.item_received, "Experiencia (100 XP)");
    let s = r.get_balance(&u).unwrap();
    assert_eq!(s.exp, 200);
    // 2 + floor(sqrt(100)) + 1
    assert_eq!(s.level, 13);
}

#[test]
fn purchase_invalid_item_and_quantity() {
    let u = "p".to_string();
    let mut r = registry_with("p", 10_000);
    let res = r.purchase_item(&u, &"loot".to_string(), 1);
    assert_eq!(res.unwrap_err(), GameError::InvalidItem);
    let res = r.purchase_item(&u, &"decimal".to_string(), 11);
    assert_eq!(res.unwrap_err(), GameError::QuantityExceeded);
    let res = r.purchase_item(&u, &"experience".to_string(), 21);
    assert_eq!(res.unwrap_err(), GameError::QuantityExceeded);
    assert_eq!(r.get_balance(&u).unwrap().coins, 10_000);
}

#[test]
fn purchase_insufficient_reports_and_leaves_balance() {
    let u = "p".to_string();
    let mut r = registry_with("p", 100);
    let res = r.purchase_item(&u, &"decimal".to_string(), 1).unwrap();
    assert!(!res.success);
    assert_eq!(res.coins_spent, 0);
    assert_eq!(res.new_balance, 100);
    assert_eq!(res.quantity, 0);
    assert_eq!(res.item_received, "");
    assert_eq!(res.message, "Monedas insuficientes. Necesitas 250 monedas.");
    assert_eq!(r.get_balance(&u).unwrap().coins, 100);
}

#[test]
fn balance_never_negative_across_operations() {
    let u = "p".to_string();
    let mut r = registry_with("p", 60);
    // lose 30, refuse 40 (only 30 left), lose 30, refuse anything further
    assert!(r.settle_coinflip(&u, 30, true, false).is_ok());
    assert_eq!(r.get_balance(&u).unwrap().coins, 30);
    assert_eq!(r.settle_coinflip(&u, 40, true, false).unwrap_err(), GameError::InsufficientFunds);
    assert_eq!(r.get_balance(&u).unwrap().coins, 30);
    assert!(r.settle_coinflip(&u, 30, true, false).is_ok());
    assert_eq!(r.get_balance(&u).unwrap().coins, 0);
    assert_eq!(r.settle_coinflip(&u, 1, true, false).unwrap_err(), GameError::InsufficientFunds);
    assert_eq!(r.get_balance(&u).unwrap().coins, 0);
}

#[test]
fn covered_operations_commute() {
    // the same bets settled in two different orders, all covered:
    // both orders land on the same balance
    let u = "p".to_string();
    let mut r1 = registry_with("p", 500);
    let mut r2 = registry_with("p", 500);

    assert!(r1.settle_coinflip(&u, 50, true, true).is_ok()); // +100
    assert!(r1.settle_coinflip(&u, 80, true, false).is_ok()); // -80
    assert!(r1.settle_slots(&u, 20, 2, 2, 2).is_ok()); // +180

    assert!(r2.settle_slots(&u, 20, 2, 2, 2).is_ok()); // +180
    assert!(r2.settle_coinflip(&u, 80, true, false).is_ok()); // -80
    assert!(r2.settle_coinflip(&u, 50, true, true).is_ok()); // +100

    let b1 = r1.get_balance(&u).unwrap().coins;
    let b2 = r2.get_balance(&u).unwrap().coins;
    assert_eq!(b1, b2);
    assert_eq!(b1, 500 + 100 - 80 + 180);
}

#[test]
fn leaderboard_orders_by_exp_level_coins() {
    let mut r = Registry::new();
    let mut a = Student::new("a".to_string());
    a.exp = 500;
    a.level = 18;
    let mut b = Student::new("b".to_string());
    b.exp = 500;
    b.level = 18;
    b.coins = 900;
    let mut c = Student::new("c".to_string());
    c.exp = 900;
    c.level = 24;
    let d = Student::new("d".to_string());
    r.upsert("a".to_string(), a);
    r.upsert("b".to_string(), b);
    r.upsert("c".to_string(), c);
    r.upsert("d".to_string(), d);
    let board = r.leaderboard();
    let names: Vec<String> = board.iter().map(|s| s.name.clone()).collect();
    assert_eq!(names, vec!["c", "b", "a", "d"]);
}
