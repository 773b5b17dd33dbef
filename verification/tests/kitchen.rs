use exercises::kitchen::dad::cook_spaghetti;
use exercises::kitchen::mom::cook_sauce_and_let_table;
use exercises::kitchen::{dinner, Dinner, Step};

#[test]
fn spaghetti_takes_four_seconds() {
    let (steps, done) = cook_spaghetti();
    assert_eq!(
        steps,
        vec![
            Step::Say("Cooking the spaghetti...".to_string()),
            Step::Wait { seconds: 4 },
            Step::Say("Spaghetti is ready!".to_string()),
        ]
    );
    assert!(done);
}

#[test]
fn sauce_and_table_take_five_seconds() {
    let steps = cook_sauce_and_let_table();
    assert_eq!(
        steps,
        vec![
            Step::Wait { seconds: 1 },
            Step::Say("Cooking the sauce...".to_string()),
            Step::Wait { seconds: 2 },
            Step::Say("Sauce is ready! Setting the table...".to_string()),
            Step::Wait { seconds: 2 },
            Step::Say("Table is set!".to_string()),
        ]
    );
    let mut seconds = 0;
    for step in &steps {
        if let Step::Wait { seconds: s } = step {
            seconds += s;
        }
    }
    assert_eq!(seconds, 5);
}

#[test]
fn dinner_is_spaghetti_only_when_the_cook_says_so() {
    assert_eq!(dinner(Some(true)), Dinner::Spaghetti);
    assert_eq!(dinner(Some(false)), Dinner::Pizza);
    assert_eq!(dinner(None), Dinner::Pizza);
}

#[test]
fn what_the_household_hears() {
    assert_eq!(Dinner::Spaghetti.line(), "Spaghetti time! Yum!");
    assert_eq!(Dinner::Pizza.line(), "Dad messed up the spaghetti. Order pizza instead?");
}

#[test]
fn the_cook_who_comes_back_brings_spaghetti() {
    let (_, done) = cook_spaghetti();
    assert_eq!(dinner(Some(done)), Dinner::Spaghetti);
}
