use debtswithfriends::{Amount, Client, Plan, PlanError, Role, Timestamp};

fn at(secs: i64) -> Timestamp {
    Timestamp::new(secs, 0).unwrap()
}

fn ann() -> Client {
    Client::new("100", "Ann", Role::Adder)
}

fn bob() -> Client {
    Client::new("200", "Bob", Role::Subtractor)
}

fn ready_plan() -> Plan {
    let mut plan = Plan::new("chat");
    assert!(plan.set_client(&ann()).is_some());
    assert!(plan.set_client(&bob()).is_some());
    plan
}

fn units(whole: i64) -> i64 {
    whole * 100
}

fn values(plan: &Plan) -> Vec<i64> {
    plan.amounts().iter().map(Amount::amount_value).collect()
}

fn total_value(plan: &Plan) -> Option<i64> {
    plan.current_total().as_ref().map(Amount::amount_value)
}

#[test]
fn new_plan_is_empty() {
    let plan = Plan::new("chat");
    assert_eq!(plan.code(), "chat");
    assert!(plan.clients().is_empty());
    assert!(plan.amounts().is_empty());
    assert!(plan.current_total().is_none());
    assert!(!plan.check_both_clients_set());
}

#[test]
fn two_registrations_make_the_plan_ready() {
    let mut plan = Plan::new("chat");
    let a = ann();
    let b = bob();
    let first = plan.set_client(&a).expect("a place is free");
    assert_eq!(first.code, "100");
    assert!(!plan.check_both_clients_set());
    let second = plan.set_client(&b).expect("a place is free");
    assert_eq!(second.name, "Bob");
    assert!(plan.check_both_clients_set());
    assert_eq!(plan.clients().len(), 2);
    assert_eq!(plan.clients()[0].code, "100");
    assert_eq!(plan.clients()[1].code, "200");
}

#[test]
fn same_code_is_not_registered_twice() {
    let mut plan = Plan::new("chat");
    assert!(plan.set_client(&ann()).is_some());
    let again = Client::new("100", "Ann again", Role::Subtractor);
    assert!(plan.set_client(&again).is_none());
    assert_eq!(plan.clients().len(), 1);
    assert_eq!(plan.clients()[0].name, "Ann");
    assert_eq!(plan.clients()[0].role, Role::Adder);
}

#[test]
fn third_client_is_refused() {
    let mut plan = ready_plan();
    let carl = Client::new("300", "Carl", Role::Adder);
    assert!(plan.set_client(&carl).is_none());
    assert_eq!(plan.clients().len(), 2);
    assert_eq!(plan.clients()[1].code, "200");
}

#[test]
fn two_clients_may_share_a_role() {
    let mut plan = Plan::new("chat");
    assert!(plan.set_client(&ann()).is_some());
    let dan = Client::new("400", "Dan", Role::Adder);
    assert!(plan.set_client(&dan).is_some());
    assert!(plan.check_both_clients_set());
}

#[test]
fn recording_is_refused_until_both_clients_are_set() {
    let mut plan = Plan::new("chat");
    assert!(matches!(plan.save_amount_at(5000, "100", at(10)), Ok(None)));
    assert!(plan.set_client(&ann()).is_some());
    assert!(matches!(plan.save_amount_at(5000, "100", at(11)), Ok(None)));
    assert!(matches!(plan.save_amount_at(5000, "nobody", at(12)), Ok(None)));
    assert!(plan.amounts().is_empty());
    assert!(plan.current_total().is_none());
}

#[test]
fn recording_stamps_the_client_and_the_time() {
    let mut plan = ready_plan();
    let entry = plan.save_amount_at(-2000, "200", at(50)).unwrap().unwrap();
    assert_eq!(entry.amount_value(), -2000);
    assert_eq!(entry.saved_by().code, "200");
    assert_eq!(entry.saved_by().name, "Bob");
    assert_eq!(entry.saved_by().role, Role::Subtractor);
    assert_eq!(entry.created_at(), at(50));
    assert_eq!(values(&plan), vec![-2000]);
    assert_eq!(plan.amounts()[0].created_at(), at(50));
    assert_eq!(plan.amounts()[0].saved_by().code, "200");
}

#[test]
fn recording_for_an_unknown_client_fails() {
    let mut plan = ready_plan();
    let r = plan.save_amount_at(5000, "300", at(10));
    assert_eq!(r.unwrap_err(), PlanError::ClientNotFound);
    assert!(plan.amounts().is_empty());
}

#[test]
fn record_total_and_pop() {
    let mut plan = ready_plan();
    assert!(plan.check_both_clients_set());
    assert!(plan.save_amount_at(units(50), "100", at(10)).unwrap().is_some());
    assert!(plan.save_amount_at(units(-20), "200", at(20)).unwrap().is_some());
    assert_eq!(plan.amounts().len(), 2);
    let total = plan.total_at("100", at(30)).unwrap().unwrap();
    assert_eq!(total.amount_value(), units(30));
    assert_eq!(total_value(&plan), Some(units(30)));
    assert_eq!(values(&plan), vec![units(50), units(-20)]);
    let removed = plan.pop_at("100", at(40)).unwrap().unwrap();
    assert_eq!(removed.amount_value(), units(-20));
    assert_eq!(removed.saved_by().code, "200");
    assert_eq!(values(&plan), vec![units(50)]);
    assert_eq!(total_value(&plan), Some(units(50)));
    let stored = plan.current_total().as_ref().unwrap();
    assert_eq!(stored.created_at(), at(40));
    assert_eq!(stored.saved_by().code, "100");
}

#[test]
fn total_of_a_plan_without_entries_is_zero() {
    let mut plan = ready_plan();
    let total = plan.total_at("200", at(5)).unwrap().unwrap();
    assert_eq!(total.amount_value(), 0);
    assert_eq!(total.saved_by().code, "200");
    assert_eq!(total.created_at(), at(5));
    assert!(plan.amounts().is_empty());
    assert_eq!(total_value(&plan), Some(0));
    assert_eq!(plan.clients().len(), 2);
}

#[test]
fn pop_on_empty_plan_still_writes_the_total() {
    let mut plan = ready_plan();
    assert!(plan.current_total().is_none());
    let removed = plan.pop_at("100", at(77)).unwrap();
    assert!(removed.is_none());
    assert!(plan.amounts().is_empty());
    let total = plan.current_total().as_ref().expect("the total is written");
    assert_eq!(total.amount_value(), 0);
    assert_eq!(total.created_at(), at(77));
    assert_eq!(total.saved_by().code, "100");
}

#[test]
fn pop_on_empty_plan_keeps_an_earlier_total_value() {
    let mut plan = ready_plan();
    plan.save_amount_at(700, "100", at(1)).unwrap();
    plan.total_at("100", at(2)).unwrap();
    plan.pop_at("100", at(3)).unwrap();
    assert_eq!(total_value(&plan), Some(0));
    plan.save_amount_at(900, "100", at(4)).unwrap();
    plan.total_at("100", at(5)).unwrap();
    plan.pop_at("200", at(6)).unwrap();
    assert!(plan.amounts().is_empty());
    assert_eq!(total_value(&plan), Some(0));
    let removed = plan.pop_at("200", at(7)).unwrap();
    assert!(removed.is_none());
    assert_eq!(total_value(&plan), Some(0));
    assert_eq!(plan.current_total().as_ref().unwrap().created_at(), at(7));
}

#[test]
fn pop_takes_the_entry_from_the_old_total() {
    let mut plan = ready_plan();
    plan.save_amount_at(1000, "100", at(1)).unwrap();
    plan.save_amount_at(250, "100", at(2)).unwrap();
    let removed = plan.pop_at("200", at(3)).unwrap().unwrap();
    assert_eq!(removed.amount_value(), 250);
    assert_eq!(total_value(&plan), Some(-250));
    assert_eq!(values(&plan), vec![1000]);
}

#[test]
fn total_twice_gives_the_same_value() {
    let mut plan = ready_plan();
    plan.save_amount_at(5000, "100", at(10)).unwrap();
    plan.save_amount_at(-2000, "200", at(20)).unwrap();
    let first = plan.total_at("100", at(30)).unwrap().unwrap();
    let second = plan.total_at("200", at(31)).unwrap().unwrap();
    assert_eq!(first.amount_value(), 3000);
    assert_eq!(second.amount_value(), 3000);
    assert_eq!(second.saved_by().code, "200");
    assert_eq!(second.created_at(), at(31));
    assert_eq!(values(&plan), vec![5000, -2000]);
}

#[test]
fn total_folds_in_only_what_came_later() {
    let mut plan = ready_plan();
    plan.save_amount_at(100, "100", at(10)).unwrap();
    assert_eq!(plan.total_at("100", at(20)).unwrap().unwrap().amount_value(), 100);
    plan.save_amount_at(30, "200", at(20)).unwrap();
    plan.save_amount_at(7, "200", at(21)).unwrap();
    let later_in_the_second = Timestamp::new(20, 1).unwrap();
    plan.save_amount_at(2, "200", later_in_the_second).unwrap();
    let total = plan.total_at("100", at(40)).unwrap().unwrap();
    assert_eq!(total.amount_value(), 109);
    assert_eq!(plan.amounts().len(), 4);
}

#[test]
fn total_of_zero_clears_the_entries() {
    let mut plan = ready_plan();
    plan.save_amount_at(5000, "100", at(10)).unwrap();
    plan.save_amount_at(-5000, "200", at(20)).unwrap();
    let total = plan.total_at("200", at(30)).unwrap().unwrap();
    assert_eq!(total.amount_value(), 0);
    assert!(plan.amounts().is_empty());
    assert_eq!(total_value(&plan), Some(0));
    assert_eq!(plan.current_total().as_ref().unwrap().saved_by().code, "200");
    assert_eq!(plan.current_total().as_ref().unwrap().created_at(), at(30));
    assert_eq!(plan.clients().len(), 2);
}

#[test]
fn total_for_an_unknown_client_fails() {
    let mut plan = ready_plan();
    plan.save_amount_at(5000, "100", at(10)).unwrap();
    assert_eq!(plan.total_at("300", at(20)).unwrap_err(), PlanError::ClientNotFound);
    assert!(plan.current_total().is_none());
    assert_eq!(values(&plan), vec![5000]);
}

#[test]
fn total_that_does_not_fit_fails() {
    let mut plan = ready_plan();
    plan.save_amount_at(i64::MAX, "100", at(10)).unwrap();
    plan.save_amount_at(1, "100", at(11)).unwrap();
    assert_eq!(plan.total_at("100", at(20)).unwrap_err(), PlanError::Overflow);
    assert!(plan.current_total().is_none());
    assert_eq!(values(&plan), vec![i64::MAX, 1]);
    plan.save_amount_at(-1, "200", at(12)).unwrap();
    assert_eq!(plan.total_at("100", at(21)).unwrap().unwrap().amount_value(), i64::MAX);
}

#[test]
fn pop_that_does_not_fit_fails() {
    let mut plan = ready_plan();
    plan.save_amount_at(-2, "200", at(10)).unwrap();
    plan.total_at("100", at(20)).unwrap();
    plan.save_amount_at(i64::MAX, "100", at(30)).unwrap();
    assert_eq!(plan.pop_at("100", at(40)).unwrap_err(), PlanError::Overflow);
    assert_eq!(values(&plan), vec![-2, i64::MAX]);
    assert_eq!(total_value(&plan), Some(-2));
    assert_eq!(plan.current_total().as_ref().unwrap().created_at(), at(20));
}

#[test]
fn pop_for_an_unknown_client_fails() {
    let mut plan = ready_plan();
    plan.save_amount_at(5000, "100", at(10)).unwrap();
    assert_eq!(plan.pop_at("", at(20)).unwrap_err(), PlanError::ClientNotFound);
    assert_eq!(values(&plan), vec![5000]);
    assert!(plan.current_total().is_none());
}

#[test]
fn reset_clears_entries_and_keeps_clients() {
    let mut plan = ready_plan();
    plan.save_amount_at(5000, "100", at(10)).unwrap();
    plan.total_at("100", at(20)).unwrap();
    assert_eq!(plan.reset_at("200", at(30)), Ok(()));
    assert!(plan.amounts().is_empty());
    assert_eq!(total_value(&plan), Some(0));
    assert_eq!(plan.current_total().as_ref().unwrap().saved_by().name, "Bob");
    assert_eq!(plan.current_total().as_ref().unwrap().created_at(), at(30));
    assert_eq!(plan.clients().len(), 2);
    assert_eq!(plan.reset_at("300", at(31)), Err(PlanError::ClientNotFound));
}

#[test]
fn restore_clears_everything_but_the_code() {
    let mut plan = ready_plan();
    plan.save_amount_at(5000, "100", at(10)).unwrap();
    plan.total_at("100", at(20)).unwrap();
    plan.restore_at(at(30));
    assert_eq!(plan.code(), "chat");
    assert!(plan.clients().is_empty());
    assert!(plan.amounts().is_empty());
    let total = plan.current_total().as_ref().unwrap();
    assert_eq!(total.amount_value(), 0);
    assert_eq!(total.saved_by().code, "");
    assert_eq!(total.saved_by().name, "");
    assert_eq!(total.saved_by().role, Role::Adder);
    assert_eq!(total.created_at(), at(30));
    assert!(!plan.check_both_clients_set());
    assert!(plan.set_client(&ann()).is_some());
}

#[test]
fn client_by_role_is_the_first_with_that_role() {
    let mut plan = Plan::new("chat");
    assert_eq!(plan.get_client_by_role(Role::Adder).unwrap_err(), PlanError::ClientNotFound);
    plan.set_client(&bob());
    assert_eq!(plan.get_client_by_role(Role::Adder).unwrap_err(), PlanError::ClientNotFound);
    assert_eq!(plan.get_client_by_role(Role::Subtractor).unwrap().code, "200");
    plan.set_client(&Client::new("500", "Eve", Role::Subtractor));
    assert_eq!(plan.get_client_by_role(Role::Subtractor).unwrap().name, "Bob");
}

#[test]
fn plan_from_parts_keeps_the_parts() {
    let entry = Amount::from(125, ann(), at(9));
    let total = Amount::from(1000, bob(), at(8));
    let plan = Plan::from_parts("chat", vec![ann(), bob()], vec![entry], Some(total))
        .expect("two clients with two codes");
    assert_eq!(plan.code(), "chat");
    assert_eq!(plan.clients().len(), 2);
    assert_eq!(plan.clients()[0].code, "100");
    assert_eq!(plan.clients()[1].role, Role::Subtractor);
    assert_eq!(values(&plan), vec![125]);
    assert_eq!(plan.amounts()[0].created_at(), at(9));
    assert_eq!(total_value(&plan), Some(1000));
    let again = Plan::from_parts(
        plan.code(),
        plan.clients().clone(),
        plan.amounts().clone(),
        plan.current_total().clone(),
    )
    .unwrap();
    assert_eq!(again.show_amounts(), plan.show_amounts());
    assert_eq!(again.plan_clients(), plan.plan_clients());
    assert_eq!(total_value(&again), Some(1000));
}

#[test]
fn plan_from_parts_refuses_a_bad_list_of_clients() {
    let carl = Client::new("300", "Carl", Role::Adder);
    assert!(Plan::from_parts("chat", vec![ann(), bob(), carl], vec![], None).is_none());
    let twin = Client::new("100", "Twin", Role::Subtractor);
    assert!(Plan::from_parts("chat", vec![ann(), twin], vec![], None).is_none());
    assert!(Plan::from_parts("chat", vec![ann()], vec![], None).is_some());
    assert!(Plan::from_parts("chat", vec![], vec![], None).is_some());
}

#[test]
fn path_is_under_the_database_directory() {
    assert_eq!(Plan::new("-1001").path(), "database/-1001.json");
    assert_eq!(Plan::new("").path(), "database/.json");
}

#[test]
fn operations_on_the_clock_stamp_a_current_time() {
    let started = Timestamp::now();
    let mut plan = ready_plan();
    let entry = plan.save_amount(5000, "100").unwrap().unwrap();
    assert!(!started.is_after(&entry.created_at()));
    assert!(entry.created_at().secs() > 1_600_000_000);
    let total = plan.total("200").unwrap().unwrap();
    assert_eq!(total.amount_value(), 5000);
    assert!(!entry.created_at().is_after(&total.created_at()));
    let text = plan.history("100").unwrap();
    assert!(text.starts_with("💲50, 🗓️"));
    assert!(text.contains("\nTotal:\n💲50, 🗓️"));
    let removed = plan.pop("100").unwrap().unwrap();
    assert_eq!(removed.amount_value(), 5000);
    assert_eq!(total_value(&plan), Some(0));
    assert_eq!(plan.reset("200"), Ok(()));
    assert_eq!(plan.pop("nobody").unwrap_err(), PlanError::ClientNotFound);
    plan.restore();
    assert!(plan.clients().is_empty());
    assert_eq!(total_value(&plan), Some(0));
    assert!(!started.is_after(&plan.current_total().as_ref().unwrap().created_at()));
}
