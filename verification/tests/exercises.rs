//! The exercise walk-throughs: each drives one transformation module on
//! its sample data.

use demo_server::age_parse;
use demo_server::age_stats;
use demo_server::age_sums;
use demo_server::full_names;
use demo_server::meal_pairs;
use demo_server::name_filters;
use demo_server::zip_users;

#[test]
fn a_user_run_solution() {
    let network_users = full_names::receive_users();
    let db_users = full_names::transform_users(network_users);
    println!("Chained");
    println!("Saved following users to the database\n{db_users:#?}");

    let network_users = full_names::receive_users();
    let db_users = full_names::classical_transform_users(network_users);
    println!("Classical");
    println!("Saved following users to the database\n{db_users:#?}");

    let network_users = full_names::receive_users();
    let db_users = full_names::transform_users_verbose(network_users);
    println!("Verbose");
    println!("Saved following users to the database\n{db_users:#?}");

    let network_users = full_names::receive_users();
    let db_users = full_names::transform_users_neat(network_users);
    println!("Neat");
    println!("Saved following users to the database\n{db_users:#?}");

    let network_users = full_names::receive_users();
    let db_users = full_names::transform_users_neater(network_users);
    println!("Neater");
    println!("Saved following users to the database\n{db_users:#?}");
}

#[test]
fn full_names_expected_values() {
    let db = full_names::transform_users(full_names::receive_users());
    let names: Vec<&str> = db.iter().map(|u| u.full_name.as_str()).collect();
    assert_eq!(
        names,
        vec!["anna wood", "berta stone", "cecile miller", "diana winter", "esther smith"]
    );
}

#[test]
fn b_user_run_solution() {
    let users = age_parse::receive_users();
    let users = age_parse::transform_users(users);
    println!("Saved following users to the database\n{users:#?}");
}

#[test]
fn age_parse_expected_values() {
    let db = age_parse::transform_users(age_parse::receive_users());
    assert_eq!(db.len(), 5);
    assert_eq!(db[0].name, "anna");
    assert_eq!(db[0].age, 75);
    assert_eq!(db[4].name, "esther");
    assert_eq!(db[4].age, 44);

    // An unparsable age is dropped, not mangled.
    let mut users = age_parse::receive_users();
    users.push(age_parse::NetworkUser::new("zora", "very old"));
    let db = age_parse::transform_users(users);
    assert_eq!(db.len(), 5);

    let err = demo_server::age_parse::DbUser::try_from(&age_parse::NetworkUser::new(
        "zora", "very old",
    ));
    assert!(err.is_err());
}

#[test]
fn age_parse_filters_and_formats() {
    let db = age_parse::transform_and_filter(age_parse::receive_users());
    let pairs: Vec<(&str, u8)> = db.iter().map(|u| (u.name.as_str(), u.age)).collect();
    assert_eq!(pairs, vec![("anna", 75), ("berta", 87)]);

    let db = age_parse::transform_and_filter_and_format(age_parse::receive_users());
    let pairs: Vec<(&str, u8)> = db.iter().map(|u| (u.name.as_str(), u.age)).collect();
    assert_eq!(pairs, vec![("ANNA", 75), ("BERTA", 87)]);
}

#[test]
fn c_user_run_solution() {
    let users = age_stats::receive_users();

    let users = age_stats::receive_users();

    // Task: get the sum of the users' ages!
    let age_sum = age_stats::task_01(&users);
    println!("Sum of all ages: {age_sum}");
    // Task: sum only the ages of users whose name ends in `a`!
    let age_sum = age_stats::task_02(&users);
    println!("Sum of all ages of users with names ending in `a`: {age_sum}");

    // Task: count all occurrences of the character `a` in the user names!
    let a_count = age_stats::task_03(&users);
    println!("Count of the letter `a` in all names: {a_count}");
}

#[test]
fn age_stats_expected_values() {
    let users = age_stats::receive_users();
    assert_eq!(age_stats::task_01(&users), 75 + 87 + 16 + 31 + 44);
    assert_eq!(age_stats::task_01_for_loop(&users), 253);
    assert_eq!(age_stats::task_02(&users), 75 + 87 + 31);
    assert_eq!(age_stats::task_02_for_loop(&users), 193);
    assert_eq!(age_stats::task_03(&users), 5);
    assert_eq!(age_stats::task_03_for_loop(&users), 5);
}

#[test]
fn d_flatten_test_solutions() {
    let users = age_sums::mock_users();

    let sum = age_sums::classic_sum_user_ages(&users);
    println!("classical sum: {sum}");

    let sum = age_sums::sum_user_ages(&users);
    println!("chained sum: {sum}");

    let sum = age_sums::verbose_sum_user_ages(&users);
    println!("verbose chained sum: {sum}");
}

#[test]
fn age_sums_expected_values() {
    let users = age_sums::mock_users();
    assert_eq!(age_sums::classic_sum_user_ages(&users), 33 + 55 + 77);
    assert_eq!(age_sums::sum_user_ages(&users), 165);
    assert_eq!(age_sums::verbose_sum_user_ages(&users), 165);
    assert_eq!(age_sums::sum_user_ages(&[]), 0);
}

#[test]
fn f_zip_test_solutions() {
    let names = zip_users::mock_names();
    let ages = zip_users::mock_ages();

    let users = zip_users::classical_build_users(names, ages);
    println!("classical\n{users:#?}");

    let names = zip_users::mock_names();
    let ages = zip_users::mock_ages();

    let users = zip_users::zip_up_users(names, ages);
    println!("chaining\n{users:#?}");
}

#[test]
fn zip_users_expected_values() {
    let users = zip_users::zip_up_users(zip_users::mock_names(), zip_users::mock_ages());
    let pairs: Vec<(&str, u8)> = users.iter().map(|u| (u.name.as_str(), u.age)).collect();
    assert_eq!(pairs, vec![("anna", 22), ("berta", 33), ("cecile", 44)]);

    // The longer side decides nothing: ages can outnumber names too.
    let users = zip_users::zip_up_users(vec!["solo".to_string()], vec![1, 2, 3]);
    assert_eq!(users.len(), 1);
    assert_eq!(users[0].name, "solo");
    assert_eq!(users[0].age, 1);
}

#[test]
fn handle_signatures() {
    let users = name_filters::receive_users();

    let iter: Vec<name_filters::NetworkUser> =
        users.into_iter().filter(|u| u.first_name.len() > 4).collect();
    let start_with: char = 'c';
    let starting_with = name_filters::name_starts_with_c(start_with, iter);
    let filtered: Vec<name_filters::NetworkUser> = starting_with;
    println!("{filtered:#?}");
}

#[test]
fn test_filter_contrived() {
    let users = name_filters::receive_users();
    let users = name_filters::filter_contrived(users.as_slice());
    println!("{users:#?}");
}

#[test]
fn name_filters_expected_values() {
    let users = name_filters::receive_users();
    let kept = name_filters::name_starts_with_c('c', users);
    let names: Vec<&str> = kept.iter().map(|u| u.first_name.as_str()).collect();
    assert_eq!(names, vec!["cecile"]);

    let users = name_filters::receive_users();
    let kept = name_filters::name_starts_with_pattern("di", users);
    let names: Vec<&str> = kept.iter().map(|u| u.first_name.as_str()).collect();
    assert_eq!(names, vec!["diana"]);

    let users = name_filters::receive_users();
    let kept = name_filters::contrived_example(&users);
    let names: Vec<&str> = kept.iter().map(|u| u.first_name.as_str()).collect();
    assert_eq!(names, vec!["anna", "berta"]);

    let users = name_filters::receive_users();
    let kept = name_filters::filter_contrived(&users);
    let names: Vec<&str> = kept.iter().map(|u| u.first_name.as_str()).collect();
    assert_eq!(names, vec!["berta", "diana"]);
}

#[test]
fn test_classical() {
    let meals = meal_pairs::mock_meals();
    let names = meal_pairs::classical_solution(meals);
    println!("{names:#?}");
}

#[test]
fn test_chained() {
    let meals = meal_pairs::mock_meals();
    let names = meal_pairs::chaining_solution(meals);
    println!("{names:#?}");
}

#[test]
fn meal_pairs_expected_values() {
    let names = meal_pairs::classical_solution(meal_pairs::mock_meals());
    assert_eq!(names, vec!["Burger", "Pasta", "Sandwich"]);
    let names = meal_pairs::chaining_solution(meal_pairs::mock_meals());
    assert_eq!(names, vec!["Burger", "Pasta", "Sandwich"]);
    let names = meal_pairs::classical_solution(Vec::new());
    assert!(names.is_empty());
}
