use user_service::enums::{plus_one, value_in_cents, Coin, UsState};
use user_service::error_handling::{validate_username, ValidationError};
use user_service::flow_control::{check_status, Status};
use user_service::functions::{add, calculate, check_number, factorial};
use user_service::generics::{identity, largest, Point};
use user_service::lifetimes::{calculate_length, compare_and_choose, longest, ImportantExcerpt};
use user_service::ownership::calculate_length as string_length;
use user_service::restaurant::{
    add_to_waitlist, serve_order, take_order, take_payment, Appetizer, Breakfast,
};
use user_service::smart_pointers::{List, MyBox};
use user_service::structs::Rectangle;
use user_service::traits_demo::{
    returns_summarizable, some_function, Button, Counter, Formattable, NewsArticle, Screen,
    SelectBox, SimpleIterator, Summary, Tweet,
};

#[test]
fn add_and_calculate() {
    assert_eq!(add(5, 3), 8);
    assert_eq!(calculate(10, 4), (40, 6));
}

#[test]
fn check_number_classifies() {
    assert_eq!(check_number(7), "正数");
    assert_eq!(check_number(-2), "负数");
    assert_eq!(check_number(0), "零");
}

#[test]
fn factorial_values() {
    assert_eq!(factorial(0), 1);
    assert_eq!(factorial(1), 1);
    assert_eq!(factorial(5), 120);
    assert_eq!(factorial(12), 479001600);
}

#[test]
fn check_status_ranges() {
    assert!(matches!(check_status(200), Status::Success));
    assert!(matches!(check_status(404), Status::Error));
    assert!(matches!(check_status(500), Status::Error));
    assert!(matches!(check_status(302), Status::Pending));
}

#[test]
fn restaurant_messages() {
    assert_eq!(add_to_waitlist(), "安排座位");
    assert_eq!(take_order(), "记录订单");
    assert_eq!(serve_order(), "提供食物");
    assert_eq!(take_payment(), "收取付款");
}

#[test]
fn breakfast_comes_with_blueberries() {
    let mut meal = Breakfast::new("全麦吐司".to_string());
    assert_eq!(meal.toast, "全麦吐司");
    assert_eq!(meal.fruit(), "蓝莓");
    meal.toast = "白吐司".to_string();
    assert_eq!(meal.toast, "白吐司");
}

#[test]
fn appetizer_orders() {
    assert_eq!(Appetizer::Soup.order(), "一份汤被点了");
    assert_eq!(Appetizer::Salad.order(), "一份沙拉被点了");
}

#[test]
fn validate_username_accepts_and_rejects() {
    assert_eq!(validate_username("user123").unwrap(), "user123");
    assert_eq!(validate_username("user_123").unwrap(), "user_123");
    assert!(matches!(validate_username("us"), Err(ValidationError::TooShort)));
    assert!(matches!(
        validate_username("abcdefghijklmnopqrstu"),
        Err(ValidationError::TooLong)
    ));
    assert!(matches!(
        validate_username("user!23"),
        Err(ValidationError::InvalidCharacter)
    ));
}

#[test]
fn largest_of_numbers_and_strs() {
    assert_eq!(largest(&[1, 2, 3, 4, 5]), 5);
    assert_eq!(largest(&[34, 50, 25, 100, 65]), 100);
    assert_eq!(largest(&["a", "c", "b"]), "c");
}

#[test]
fn identity_and_point_accessors() {
    assert_eq!(identity(41), 41);
    let p = Point { x: 5, y: 10 };
    assert_eq!(*p.x(), 5);
    assert_eq!(*p.y(), 10);
}

#[test]
fn mixup_combines_first_coordinates() {
    let p1 = Point { x: 5i32, y: 10 };
    let p2 = Point { x: 1i32, y: 2 };
    let combined: Point<i64> = p1.mixup(p2);
    assert_eq!(combined.x, 5);
    assert_eq!(combined.y, 1);
}

#[test]
fn validation_error_wordings() {
    assert_eq!(ValidationError::TooShort.message(), "用户名太短");
    assert_eq!(ValidationError::TooLong.message(), "用户名太长");
    assert_eq!(
        ValidationError::InvalidCharacter.message(),
        "用户名包含无效字符"
    );
    assert_eq!(ValidationError::TooShort.description(), "用户名长度不足");
    assert_eq!(ValidationError::TooLong.description(), "用户名长度超过限制");
    assert_eq!(
        ValidationError::InvalidCharacter.description(),
        "用户名含有非法字符"
    );
}

#[test]
fn longest_prefers_the_longer_slice() {
    assert_eq!(longest("abcd", "xyz"), "abcd");
    assert_eq!(longest("ab", "wxyz"), "wxyz");
    assert_eq!(longest("ab", "cd"), "cd");
}

#[test]
fn lengths_of_borrowed_strings() {
    assert_eq!(calculate_length("hello"), 5);
    assert_eq!(string_length(&"hello".to_string()), 5);
}

#[test]
fn excerpt_level_is_three() {
    let e = ImportantExcerpt { part: "Call me Ishmael" };
    assert_eq!(e.level(), 3);
}

#[test]
fn compare_and_choose_picks_the_greatest() {
    assert_eq!(*compare_and_choose(&5, &10, &15), 15);
    assert_eq!(*compare_and_choose(&30, &10, &15), 30);
    assert_eq!(*compare_and_choose(&10, &20, &15), 20);
}

#[test]
fn rectangle_geometry() {
    let rect1 = Rectangle { width: 30, height: 50 };
    assert_eq!(rect1.area(), 1500);
    assert_eq!(rect1.perimeter(), 160);
    let rect2 = Rectangle { width: 10, height: 40 };
    let rect3 = Rectangle { width: 60, height: 45 };
    assert!(rect1.can_hold(&rect2));
    assert!(!rect1.can_hold(&rect3));
    let square = Rectangle::square(30);
    assert_eq!(square.area(), 900);
    assert_eq!(square.perimeter(), 120);
}

#[test]
fn coins_and_plus_one() {
    assert_eq!(value_in_cents(Coin::Penny), 1);
    assert_eq!(value_in_cents(Coin::Nickel), 5);
    assert_eq!(value_in_cents(Coin::Dime), 10);
    assert_eq!(value_in_cents(Coin::Quarter(UsState::Alaska)), 25);
    assert_eq!(plus_one(Some(5)), Some(6));
    assert_eq!(plus_one(None), None);
}

#[test]
fn summaries_of_strings_tweets_and_articles() {
    let text = "深入浅出".to_string();
    assert_eq!(text.summarize(), "文章内容: 深入浅出");
    let tweet = Tweet {
        username: "horse_ebooks".to_string(),
        content: "of course, as you probably already know, people".to_string(),
        reply: false,
        retweet: false,
    };
    assert_eq!(
        tweet.summarize(),
        "horse_ebooks: of course, as you probably already know, people"
    );
    assert_eq!(
        tweet.summarize_with_author(),
        "horse_ebooks: of course, as you probably already know, people - 未知作者"
    );
    let article = NewsArticle {
        headline: "Penguins win the Stanley Cup Championship!".to_string(),
        location: "Pittsburgh, PA, USA".to_string(),
        author: "Iceburgh".to_string(),
        content: "The best hockey team in the NHL.".to_string(),
    };
    assert_eq!(
        article.summarize(),
        "Penguins win the Stanley Cup Championship!, by Iceburgh (Pittsburgh, PA, USA)"
    );
    assert_eq!(article.summarize_author(), "作者: Iceburgh");
    assert_eq!(
        article.summarize_with_author(),
        "Penguins win the Stanley Cup Championship!, by Iceburgh (Pittsburgh, PA, USA) - 作者: Iceburgh"
    );
    let returned = returns_summarizable();
    assert_eq!(
        returned.summarize(),
        "horse_ebooks: of course, as you probably already know, people"
    );
    assert_eq!(some_function(&text, &7), 42);
}

#[test]
fn formattable_renders_integers_and_vectors() {
    assert_eq!(42.format(), "整数: 42");
    assert_eq!(0.format(), "整数: 0");
    assert_eq!((-5).format(), "整数: -5");
    assert_eq!(i32::MIN.format(), "整数: -2147483648");
    assert_eq!(vec![1, 2, 3].format(), "[整数: 1, 整数: 2, 整数: 3]");
    let empty: Vec<i32> = vec![];
    assert_eq!(empty.format(), "[]");
}

#[test]
fn counter_counts_to_its_maximum() {
    let mut counter = Counter::new(3);
    assert_eq!(counter.next(), Some(1));
    assert_eq!(counter.next(), Some(2));
    assert_eq!(counter.next(), Some(3));
    assert_eq!(counter.next(), None);
    assert_eq!(counter.next(), None);
    // the count advances on every call, even past the maximum
    assert_eq!(counter.count, 5);
}

#[test]
fn screen_draws_every_component() {
    let screen = Screen {
        components: vec![
            Box::new(SelectBox {
                width: 75,
                height: 10,
                options: vec!["Yes".to_string(), "Maybe".to_string(), "No".to_string()],
            }),
            Box::new(Button { width: 50, height: 10, label: "OK".to_string() }),
        ],
    };
    let reports = screen.run();
    assert_eq!(reports.len(), 2);
    assert_eq!(reports[0], "绘制选择框 (75x10) 包含 3 个选项");
    assert_eq!(reports[1], "绘制按钮: OK (50x10)");
}

#[test]
fn my_box_and_list_head() {
    let b = MyBox::new(10);
    assert_eq!(b.0, 10);
    let list = List::Cons(
        1,
        Box::new(List::Cons(2, Box::new(List::Cons(3, Box::new(List::Nil))))),
    );
    assert_eq!(list.head(), 1);
}
