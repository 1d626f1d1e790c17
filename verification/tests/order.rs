use binary_blog::date::Date;
use binary_blog::order::order_posts;
use binary_blog::post::Post;

fn dated(path: &str, year: i32, month: u8, day: u8) -> Post {
    Post {
        path: path.to_string(),
        title: path.to_uppercase(),
        description: None,
        date: Date::new(year, month, day).unwrap(),
        rendered_body: String::new(),
        assets: Vec::new(),
    }
}

fn paths(posts: &[Post]) -> Vec<&str> {
    posts.iter().map(|p| p.path.as_str()).collect()
}

#[test]
fn dates_compare_by_year_month_day() {
    let day = Date::new(2023, 7, 6).unwrap();
    assert!(Date::new(2023, 7, 7).unwrap().is_later_than(&day));
    assert!(Date::new(2023, 8, 1).unwrap().is_later_than(&day));
    assert!(Date::new(2024, 1, 1).unwrap().is_later_than(&day));
    assert!(!day.is_later_than(&day));
    assert!(!Date::new(2023, 7, 5).unwrap().is_later_than(&day));
    assert!(!Date::new(2023, 6, 30).unwrap().is_later_than(&day));
    assert!(!Date::new(2022, 12, 31).unwrap().is_later_than(&day));
    assert!(Date::new(1, 1, 1).unwrap().is_later_than(&Date::new(-1, 12, 31).unwrap()));
}

#[test]
fn posts_found_oldest_first_are_turned_around() {
    let found = vec![dated("a", 2021, 1, 1), dated("b", 2022, 1, 1), dated("c", 2022, 6, 1), dated("d", 2023, 1, 1)];
    assert_eq!(paths(&order_posts(found)), vec!["d", "c", "b", "a"]);
}

#[test]
fn posts_found_in_any_order_are_listed_most_recent_first() {
    let found = vec![
        dated("c", 2022, 6, 1),
        dated("a", 2021, 1, 1),
        dated("e", 2023, 12, 31),
        dated("b", 2022, 1, 1),
        dated("d", 2023, 1, 1),
    ];
    assert_eq!(paths(&order_posts(found)), vec!["e", "d", "c", "b", "a"]);
}

#[test]
fn posts_of_one_day_are_listed_last_found_first() {
    let found = vec![dated("x", 2022, 1, 1), dated("first", 2023, 1, 1), dated("second", 2023, 1, 1), dated("third", 2023, 1, 1)];
    assert_eq!(paths(&order_posts(found)), vec!["third", "second", "first", "x"]);
}

#[test]
fn ordering_keeps_every_post() {
    assert!(order_posts(Vec::new()).is_empty());
    assert_eq!(paths(&order_posts(vec![dated("only", 2023, 1, 1)])), vec!["only"]);
    let found = vec![dated("same", 2023, 1, 1), dated("same", 2023, 1, 1), dated("other", 2024, 1, 1)];
    assert_eq!(paths(&order_posts(found)), vec!["other", "same", "same"]);
}
