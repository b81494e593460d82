//! Squaring a number and logging what was computed.

use vstd::prelude::*;
use crate::decimal::{signed_decimal, to_signed_decimal};

verus! {

/// Something that records messages.
pub trait Logger {
    fn log(&self, msg: &str);
}

/// A logger that drops every message, for tests.
pub struct TestLogger;

impl Logger for TestLogger {
    fn log(&self, _msg: &str) {
    }
}

/// The line logged for squaring `x` into `y`: `"{x}^2 == {y}"`.
pub open spec fn square_line(x: int, y: int) -> Seq<char> {
    signed_decimal(x) + "^2 == "@ + signed_decimal(y)
}

/// Formats the line logged for squaring `x` into `y`.
pub fn square_message(x: i32, y: i32) -> (m: String)
    ensures
        m@ == square_line(x as int, y as int),
{
    let mut m = to_signed_decimal(x as i64);
    m.append("^2 == ");
    let y_text = to_signed_decimal(y as i64);
    m.append(y_text.as_str());
    m
}

/// Squares `x`, logging `"{x}^2 == {y}"` through `logger`.  The square must
/// fit in an `i32`.
pub fn square<A: Logger>(x: i32, logger: &A) -> (y: i32)
    requires
        x * x <= i32::MAX,
    ensures
        y == x * x,
        exists|msg: &str| msg@ == square_line(x as int, y as int) && call_ensures(A::log, (logger, msg), ()),
{
    assert(0 <= x * x) by (nonlinear_arith);
    let y = x * x;
    let msg = square_message(x, y);
    logger.log(msg.as_str());
    y
}

} // verus!
