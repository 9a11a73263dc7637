use rust_helloworld::arith::multiply;
use rust_helloworld::arith::plus_one;
use rust_helloworld::geometry::Point;
use rust_helloworld::geometry::Rectangle;
use rust_helloworld::hello::Hello;
use rust_helloworld::hello::Student;
use rust_helloworld::hello::Teacher;
use rust_helloworld::message::Message;
use rust_helloworld::post::Post;
use rust_helloworld::post::Summary;
use rust_helloworld::text::calculate_length;
use rust_helloworld::text::change_string;
use rust_helloworld::viking::Viking;

#[test]
fn calculate_length_counts_bytes() {
    assert_eq!(calculate_length(&String::from("hello")), 5);
    assert_eq!(calculate_length(&String::new()), 0);
    // a character outside ASCII takes more than one byte
    assert_eq!(calculate_length(&String::from("ℝ")), 3);
    assert_eq!(calculate_length(&String::from("你好")), 6);
}

#[test]
fn change_string_appends_the_tail() {
    let mut s = String::from("hello");
    change_string(&mut s);
    assert_eq!(s.as_str(), "hello, world");
}

#[test]
fn plus_one_adds_one_and_keeps_none() {
    assert_eq!(plus_one(Some(5)), Some(6));
    assert_eq!(plus_one(None), None);
    assert_eq!(plus_one(Some(i32::MAX - 1)), Some(i32::MAX));
}

#[test]
fn multiply_gives_the_product() {
    assert_eq!(multiply(2, 3), 6);
    assert_eq!(multiply(0, u64::MAX), 0);
}

#[test]
fn rectangle_area_is_width_times_height() {
    let rect1 = Rectangle {
        width: 30,
        height: 50,
    };
    assert_eq!(rect1.area(), 1500);
}

#[test]
fn point_x_returns_the_first_coordinate() {
    let p = Point { x: 5, y: 10 };
    assert_eq!(*p.x(), 5);
    assert_eq!(p.y, 10);
}

#[test]
fn message_calls_are_noops() {
    let m = Message::Quit;
    m.call();
    m.call_again();
    let m2 = Message::Move { x: 1, y: 1 };
    let m3 = Message::ChangeColor(255, 255, 0);
    m2.call();
    m3.call();
}

#[test]
fn viking_new_keeps_name_and_country() {
    let v = Viking::new("Einar", "Norway");
    assert_eq!(v.name.as_str(), "Einar");
    assert_eq!(v.country.as_str(), "Norway");
}

#[test]
fn post_summarize_names_title_and_text() {
    let post = Post {
        title: "Rust 语言介绍".to_string(),
        author: "Sunface".to_string(),
        content: "Rust 棒极了".to_string(),
    };
    assert_eq!(
        post.summarize().as_str(),
        "文章是Rust 语言介绍, 作者是Rust 棒极了"
    );
    assert_eq!(post.default_summary().as_str(), "(read more ...)");
}

#[test]
fn speakers_greet_and_introduce_themselves() {
    let s = Student {};
    assert_eq!(s.say_hi(), "hi");
    assert_eq!(s.say_something(), "I'm a good student");

    let t = Teacher {};
    assert_eq!(t.say_hi(), "Hi, I'm your new teacher");
    assert_eq!(t.say_something(), "I'm not a bad teacher");
}
