use energy_providers::outcome::{
    i_dont_know_count, ok_count, process_stuff, something_went_wrong_count, Outcome, OutcomeCount,
};

#[test]
fn simple_functions() {
    let x = vec![Outcome::Okay, Outcome::Okay, Outcome::IDontKnow];

    assert_eq!(ok_count(x.clone()), 2);
    assert_eq!(i_dont_know_count(x.clone()), 1);
    assert_eq!(something_went_wrong_count(x), 0);
}

#[test]
fn extension_trait() {
    let x = vec![Outcome::Okay, Outcome::Okay, Outcome::IDontKnow];

    assert_eq!(x.ok_count(), 2);
    assert_eq!(x.i_dont_know_count(), 1);
    assert_eq!(x.something_went_wrong_count(), 0);
}

#[test]
fn counts_of_nothing_are_zero() {
    let x: Vec<Outcome> = Vec::new();
    assert_eq!(x.ok_count(), 0);
    assert_eq!(x.i_dont_know_count(), 0);
    assert_eq!(x.something_went_wrong_count(), 0);
    assert_eq!(ok_count(Vec::new()), 0);
    assert_eq!(i_dont_know_count(Vec::new()), 0);
    assert_eq!(something_went_wrong_count(Vec::new()), 0);
}

#[test]
fn counts_add_up_to_the_length() {
    let x = vec![
        Outcome::SomethingWentWrong,
        Outcome::Okay,
        Outcome::IDontKnow,
        Outcome::SomethingWentWrong,
        Outcome::SomethingWentWrong,
        Outcome::IDontKnow,
    ];
    assert_eq!(x.ok_count(), 1);
    assert_eq!(x.something_went_wrong_count(), 3);
    assert_eq!(x.i_dont_know_count(), 2);
    assert_eq!(
        x.ok_count() + x.something_went_wrong_count() + x.i_dont_know_count(),
        x.len()
    );
    assert_eq!(
        ok_count(x.clone()) + something_went_wrong_count(x.clone()) + i_dont_know_count(x.clone()),
        x.len()
    );
}

#[test]
fn process_stuff_sorts_evens_three_and_the_rest() {
    let outcomes = process_stuff(vec![0u32, 1, 2, 3, 4, 5, 6, 7].into_iter());
    assert_eq!(
        outcomes,
        vec![
            Outcome::Okay,
            Outcome::IDontKnow,
            Outcome::Okay,
            Outcome::SomethingWentWrong,
            Outcome::Okay,
            Outcome::IDontKnow,
            Outcome::Okay,
            Outcome::IDontKnow,
        ]
    );
}

#[test]
fn process_stuff_keeps_order_and_length() {
    let outcomes = process_stuff(vec![3u64, 3, 8, 9].into_iter());
    assert_eq!(
        outcomes,
        vec![
            Outcome::SomethingWentWrong,
            Outcome::SomethingWentWrong,
            Outcome::Okay,
            Outcome::IDontKnow,
        ]
    );
    assert_eq!(process_stuff(0u16..100).len(), 100);
}

#[test]
fn process_stuff_of_nothing() {
    assert_eq!(process_stuff(Vec::<u32>::new().into_iter()), Vec::new());
}

#[test]
fn process_stuff_on_signed_items() {
    let outcomes = process_stuff(vec![-4i32, -3, -1, 3, 10].into_iter());
    assert_eq!(
        outcomes,
        vec![
            Outcome::Okay,
            Outcome::IDontKnow,
            Outcome::IDontKnow,
            Outcome::SomethingWentWrong,
            Outcome::Okay,
        ]
    );
}

#[test]
fn process_stuff_then_count() {
    let outcomes = process_stuff(1u32..=10);
    assert_eq!(outcomes.ok_count(), 5);
    assert_eq!(outcomes.something_went_wrong_count(), 1);
    assert_eq!(outcomes.i_dont_know_count(), 4);
}
