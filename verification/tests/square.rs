use workshop::logging::{square, square_message, Logger, TestLogger};

use std::cell::RefCell;

#[test]
fn square_works() {
    assert_eq!(square(2, &TestLogger), 4);
}

struct RecordingLogger {
    lines: RefCell<Vec<String>>,
}

impl Logger for RecordingLogger {
    fn log(&self, msg: &str) {
        self.lines.borrow_mut().push(msg.to_string());
    }
}

#[test]
fn square_logs_what_it_computed() {
    let logger = RecordingLogger { lines: RefCell::new(Vec::new()) };
    assert_eq!(square(-12, &logger), 144);
    assert_eq!(square(0, &logger), 0);
    assert_eq!(*logger.lines.borrow(), vec!["-12^2 == 144".to_string(), "0^2 == 0".to_string()]);
}

#[test]
fn square_of_largest_root() {
    assert_eq!(square(46340, &TestLogger), 2147395600);
    assert_eq!(square(-46340, &TestLogger), 2147395600);
}

#[test]
fn square_message_text() {
    assert_eq!(square_message(3, 9), "3^2 == 9");
    assert_eq!(square_message(-7, 49), "-7^2 == 49");
    assert_eq!(square_message(i32::MIN, 0), "-2147483648^2 == 0");
}
