use anyhow::Error;
use main_dispatch::parallel::{first_ok, RaceState};

#[test]
fn all_ok() {
    let outcomes: Vec<Result<i32, Error>> = (0..5).map(|_| Ok(55)).collect();
    let result = first_ok(outcomes).unwrap();
    assert_eq!(55, result);
}

#[test]
fn some_ok() {
    let outcomes: Vec<Result<i32, Error>> = (0..50)
        .map(|i| if i % 2 == 1 { Ok(77) } else { Err(Error::msg("allal")) })
        .collect();
    let result = first_ok(outcomes).unwrap();
    assert_eq!(77, result);
}

#[test]
fn all_err() {
    let outcomes: Vec<Result<i32, Error>> =
        (0..50).map(|_| Err(Error::msg("allal"))).collect();
    let result = first_ok(outcomes);
    assert_eq!(
        Error::msg("allal").to_string(),
        result.err().unwrap().to_string()
    );
}

#[test]
fn single_operation_ok() {
    let result = first_ok(vec![Ok::<i32, String>(7)]);
    assert_eq!(result.unwrap(), 7);
}

#[test]
fn single_operation_err() {
    let result = first_ok(vec![Err::<i32, String>("lone".to_string())]);
    assert_eq!(result.err().unwrap(), "lone");
}

#[test]
fn first_observed_success_wins() {
    let outcomes: Vec<Result<i32, String>> = vec![
        Err("early failure".to_string()),
        Ok(1),
        Ok(2),
        Err("late failure".to_string()),
    ];
    let result = first_ok(outcomes);
    assert_eq!(result.unwrap(), 1);
}

#[test]
fn all_fail_delivers_counted_failure() {
    let errs = ["first", "second", "third"];
    let outcomes: Vec<Result<i32, String>> =
        errs.iter().map(|e| Err(e.to_string())).collect();
    let result = first_ok(outcomes);
    let delivered = result.err().unwrap();
    assert!(errs.contains(&delivered.as_str()));
    assert_eq!(delivered, "third");
}

#[test]
fn race_state_keeps_first_success() {
    let mut race = RaceState::<i32>::new(3);
    race.on_success(1);
    race.on_success(2);
    assert_eq!(race.into_winner(), Some(1));
}

#[test]
fn race_state_counts_failures() {
    let mut race = RaceState::<i32>::new(3);
    assert!(race.can_fail_more());
    assert_eq!(race.on_failure("e1".to_string()), None);
    assert_eq!(race.on_failure("e2".to_string()), None);
    assert!(race.can_fail_more());
    assert_eq!(race.on_failure("e3".to_string()), Some("e3".to_string()));
    assert!(!race.can_fail_more());
    assert_eq!(race.into_winner(), None);
}
