use tentech_api::db::reactions::{
    add_react, admit_add, admit_sub, get_by_product_id, sub_react, ReactionTable, REACTION_CAP,
};
use tentech_api::error::TentechError;
use tentech_api::routes::reactions::NewReaction;
use tentech_api::time::Timestamp;

fn like() -> NewReaction {
    NewReaction { kind: "like".to_string() }
}

fn clap() -> NewReaction {
    NewReaction { kind: "clap".to_string() }
}

fn at(secs: u64) -> Timestamp {
    Timestamp { secs, nanos: 0 }
}

fn ids(table: &ReactionTable) -> Vec<i32> {
    table.rows().iter().map(|row| row.id).collect()
}

#[test]
fn five_adds_succeed_and_the_sixth_is_too_many() {
    let mut table = ReactionTable::new();
    for i in 0..5 {
        assert!(add_react(&mut table, &like(), &10, &20, at(i)).is_ok(), "add {}", i);
        assert_eq!(table.count(10, 20, &"like".to_string()), i as usize + 1);
    }
    let sixth = add_react(&mut table, &like(), &10, &20, at(5));
    assert!(matches!(sixth, Err(TentechError::CannotReactTooMany)));
    assert_eq!(table.count(10, 20, &"like".to_string()), 5);
    assert_eq!(table.rows().len(), 5);
}

#[test]
fn sub_succeeds_once_and_then_is_too_few() {
    let mut table = ReactionTable::new();
    add_react(&mut table, &like(), &10, &20, at(0)).expect("room for one");
    assert!(sub_react(&mut table, &like(), &10, &20).is_ok());
    assert_eq!(table.count(10, 20, &"like".to_string()), 0);
    let again = sub_react(&mut table, &like(), &10, &20);
    assert!(matches!(again, Err(TentechError::CannotReactTooFew)));
    assert!(table.rows().is_empty());
}

#[test]
fn sub_on_an_empty_table_is_too_few() {
    let mut table = ReactionTable::new();
    assert!(matches!(sub_react(&mut table, &like(), &1, &1), Err(TentechError::CannotReactTooFew)));
}

#[test]
fn many_adds_never_pass_the_cap() {
    let mut table = ReactionTable::new();
    let mut accepted = 0;
    for i in 0..100 {
        if add_react(&mut table, &like(), &10, &20, at(i)).is_ok() {
            accepted += 1;
        }
        assert!(table.count(10, 20, &"like".to_string()) <= REACTION_CAP);
    }
    assert_eq!(accepted, 5);
    assert_eq!(REACTION_CAP, 5);
}

#[test]
fn the_bound_is_per_product_user_and_kind() {
    let mut table = ReactionTable::new();
    for i in 0..5 {
        add_react(&mut table, &like(), &10, &20, at(i)).expect("room");
    }
    assert!(add_react(&mut table, &clap(), &10, &20, at(9)).is_ok());
    assert!(add_react(&mut table, &like(), &11, &20, at(9)).is_ok());
    assert!(add_react(&mut table, &like(), &10, &21, at(9)).is_ok());
    assert!(add_react(&mut table, &like(), &10, &20, at(9)).is_err());
    assert_eq!(table.rows().len(), 8);
}

#[test]
fn identifiers_grow_from_one() {
    let mut table = ReactionTable::new();
    add_react(&mut table, &like(), &10, &20, at(0)).expect("room");
    add_react(&mut table, &clap(), &10, &20, at(1)).expect("room");
    add_react(&mut table, &like(), &10, &20, at(2)).expect("room");
    assert_eq!(ids(&table), vec![1, 2, 3]);
    let last = &table.rows()[2];
    assert_eq!((last.product_id, last.user_id, last.kind.as_str()), (10, 20, "like"));
    assert_eq!(last.created_at, at(2));
}

#[test]
fn sub_takes_the_most_recent_matching_row() {
    let mut table = ReactionTable::new();
    add_react(&mut table, &like(), &10, &20, at(0)).expect("room");
    add_react(&mut table, &clap(), &10, &20, at(1)).expect("room");
    add_react(&mut table, &like(), &10, &20, at(2)).expect("room");
    add_react(&mut table, &like(), &11, &20, at(3)).expect("room");
    sub_react(&mut table, &like(), &10, &20).expect("two to take from");
    assert_eq!(ids(&table), vec![1, 2, 4]);
    sub_react(&mut table, &like(), &10, &20).expect("one to take from");
    assert_eq!(ids(&table), vec![2, 4]);
}

#[test]
fn a_refused_add_uses_no_identifier() {
    let mut table = ReactionTable::new();
    for i in 0..6 {
        let _ = add_react(&mut table, &like(), &10, &20, at(i));
    }
    add_react(&mut table, &clap(), &10, &20, at(7)).expect("room");
    assert_eq!(ids(&table), vec![1, 2, 3, 4, 5, 6]);
}

#[test]
fn after_a_sub_there_is_room_again() {
    let mut table = ReactionTable::new();
    for i in 0..5 {
        add_react(&mut table, &like(), &10, &20, at(i)).expect("room");
    }
    sub_react(&mut table, &like(), &10, &20).expect("five to take from");
    assert!(add_react(&mut table, &like(), &10, &20, at(9)).is_ok());
    assert_eq!(ids(&table), vec![1, 2, 3, 4, 6]);
}

#[test]
fn reactions_on_one_product() {
    let mut table = ReactionTable::new();
    add_react(&mut table, &like(), &10, &20, at(0)).expect("room");
    add_react(&mut table, &like(), &11, &20, at(1)).expect("room");
    add_react(&mut table, &clap(), &10, &21, at(2)).expect("room");
    let found: Vec<i32> = get_by_product_id(&table, &10).iter().map(|row| row.id).collect();
    assert_eq!(found, vec![1, 3]);
    assert!(get_by_product_id(&table, &12).is_empty());
}

#[test]
fn the_cap_admits_up_to_five() {
    for count in 0..5 {
        assert!(admit_add(count).is_ok());
    }
    assert!(matches!(admit_add(5), Err(TentechError::CannotReactTooMany)));
    assert!(matches!(admit_add(usize::MAX), Err(TentechError::CannotReactTooMany)));
    assert!(matches!(admit_sub(0), Err(TentechError::CannotReactTooFew)));
    assert!(admit_sub(1).is_ok());
    assert!(admit_sub(5).is_ok());
}
