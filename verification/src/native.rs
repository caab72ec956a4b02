//! The native-binding surface shared by every interpreter dialect.
//!
//! Scripts call a small set of native functions: a clear-background-color
//! call, a console logging call, and a schedule-after-delay call.  Each
//! invocation is recorded as a [`NativeEvent`] in a queue shared with the
//! interpreter's callbacks; the host drains the queue and performs the
//! platform work.  Rendering a console line from the logged values is
//! verified logic here.
//!
//! Color channels and other fractional numbers cross this boundary as the
//! IEEE 754 bit pattern of the 64-bit value (`f64::to_bits`), so that the
//! verified core itself stays free of floating point.

use vstd::prelude::*;

use crate::script::trim_spec;
use crate::script::trim_str;
use std::cell::RefCell;
use std::rc::Rc;

verus! {

/// A script value as the console binding sees it: a string, a 32-bit
/// integer, a (possibly nested) list, or something the console does not
/// understand.
#[derive(Debug, PartialEq, Eq)]
pub enum PlainValue {
    Str(String),
    Int(i32),
    List(Vec<PlainValue>),
    Unknown,
}

/// One recorded invocation of a native binding.
#[derive(Debug, PartialEq, Eq)]
pub enum NativeEvent {
    /// The clear-background-color call; each channel carries the
    /// `f64::to_bits` pattern of the value the script passed.
    ClearColor { red_bits: u64, green_bits: u64, blue_bits: u64, alpha_bits: u64 },
    /// One console line: the values passed to `console.log` (or `warn`,
    /// `error`), still unrendered.
    ConsoleLog { values: Vec<PlainValue> },
    /// A schedule-after-delay request: run `callback` in a fresh context
    /// after `delay_ms` milliseconds, fire-and-forget.
    Schedule { callback: String, delay_ms: u64 },
}

/// The decimal digits of `n`, most significant first.
pub open spec fn dec_str_nat(n: nat) -> Seq<char>
    decreases n,
{
    if n < 10 {
        digit_seq(n)
    } else {
        dec_str_nat(n / 10) + digit_seq(n % 10)
    }
}

/// One decimal digit as a one-character sequence.
pub open spec fn digit_seq(d: nat) -> Seq<char> {
    if d == 0 {
        "0"@
    } else if d == 1 {
        "1"@
    } else if d == 2 {
        "2"@
    } else if d == 3 {
        "3"@
    } else if d == 4 {
        "4"@
    } else if d == 5 {
        "5"@
    } else if d == 6 {
        "6"@
    } else if d == 7 {
        "7"@
    } else if d == 8 {
        "8"@
    } else {
        "9"@
    }
}

/// The decimal rendering of a signed integer.
pub open spec fn dec_str_int(i: int) -> Seq<char> {
    if i < 0 {
        "-"@ + dec_str_nat((-i) as nat)
    } else {
        dec_str_nat(i as nat)
    }
}

fn digit_str(d: u64) -> (r: &'static str)
    requires
        d < 10,
    ensures
        r@ == digit_seq(d as nat),
{
    match d {
        0 => "0",
        1 => "1",
        2 => "2",
        3 => "3",
        4 => "4",
        5 => "5",
        6 => "6",
        7 => "7",
        8 => "8",
        _ => "9",
    }
}

/// Renders an unsigned 64-bit integer in decimal.
pub fn dec_str_u64(n: u64) -> (r: String)
    ensures
        r@ == dec_str_nat(n as nat),
    decreases n,
{
    if n < 10 {
        digit_str(n).to_owned()
    } else {
        let mut r = dec_str_u64(n / 10);
        r.append(digit_str(n % 10));
        r
    }
}

/// Renders a 32-bit integer in decimal, as the console binding prints it.
pub fn dec_str_i32(i: i32) -> (r: String)
    ensures
        r@ == dec_str_int(i as int),
{
    if i < 0 {
        let wide: i64 = i as i64;
        let mag: u64 = (-wide) as u64;
        let mut r = String::from_str("-");
        r.append(dec_str_u64(mag).as_str());
        r
    } else {
        dec_str_u64(i as u64)
    }
}

/// How the console renders one value: strings as they are, integers in
/// decimal, lists bracketed with their items trimmed and comma-joined,
/// anything else as a fixed notice.
pub open spec fn render_spec(v: PlainValue) -> Seq<char>
    decreases v, 0int,
{
    match v {
        PlainValue::Str(s) => s@,
        PlainValue::Int(i) => dec_str_int(i as int),
        PlainValue::List(vs) => "["@ + render_items_spec(vs@, 0) + "]"@,
        PlainValue::Unknown => "Unknown type"@,
    }
}

/// The comma-joined rendering of the items of a list, each item trimmed,
/// starting at index `i`.
pub open spec fn render_items_spec(vs: Seq<PlainValue>, i: int) -> Seq<char>
    decreases vs, vs.len() - i,
{
    if 0 <= i < vs.len() {
        let item = trim_spec(render_spec(vs[i]));
        if i + 1 < vs.len() {
            item + ", "@ + render_items_spec(vs, i + 1)
        } else {
            item
        }
    } else {
        Seq::empty()
    }
}

/// One console line: every value rendered, trimmed, and followed by a
/// single space.
pub open spec fn log_line_spec(vs: Seq<PlainValue>, i: int) -> Seq<char>
    decreases vs, vs.len() - i,
{
    if 0 <= i < vs.len() {
        trim_spec(render_spec(vs[i])) + " "@ + log_line_spec(vs, i + 1)
    } else {
        Seq::empty()
    }
}

/// Renders one value as the console shows it.
pub fn render_value(v: &PlainValue) -> (r: String)
    ensures
        r@ == render_spec(*v),
    decreases *v,
{
    match v {
        PlainValue::Str(s) => s.clone(),
        PlainValue::Int(i) => dec_str_i32(*i),
        PlainValue::List(vs) => {
            let n = vs.len();
            let mut r = String::from_str("[");
            let mut k: usize = 0;
            #[verifier::loop_isolation(false)]
            while k < n
                invariant
                    0 <= k <= n,
                    r@ + render_items_spec(vs@, k as int) == "["@ + render_items_spec(vs@, 0),
                decreases n - k,
            {
                proof {
                    assert(decreases_to!(*v => v->List_0));
                    assert(decreases_to!(v->List_0 => v->List_0@));
                    assert(decreases_to!(v->List_0@ => v->List_0@[k as int]));
                }
                let item = render_value(&vs[k]);
                let t = trim_str(item.as_str());
                r.append(t.as_str());
                if k + 1 < n {
                    r.append(", ");
                }
                k = k + 1;
            }
            r.append("]");
            proof {
                assert(r@ =~= "["@ + render_items_spec(vs@, 0) + "]"@);
            }
            r
        },
        PlainValue::Unknown => String::from_str("Unknown type"),
    }
}

/// Renders one console line from the values of a logging call: each value
/// rendered, trimmed, and followed by a space (the trailing newline is the
/// host's).
pub fn render_log_line(values: &Vec<PlainValue>) -> (r: String)
    ensures
        r@ == log_line_spec(values@, 0),
{
    let n = values.len();
    let mut r = String::new();
    let mut k: usize = 0;
    while k < n
        invariant
            0 <= k <= n,
            n == values@.len(),
            r@ + log_line_spec(values@, k as int) == log_line_spec(values@, 0),
        decreases n - k,
    {
        let item = render_value(&values[k]);
        let t = trim_str(item.as_str());
        r.append(t.as_str());
        r.append(" ");
        k = k + 1;
    }
    r
}

/// The shared queue the interpreter callbacks push recorded invocations
/// into.
#[verifier::external_type_specification]
#[verifier::external_body]
#[verifier::reject_recursive_types(T)]
pub struct ExRefCell<T: ?Sized>(RefCell<T>);

/// Relies on `RefCell::new`: a fresh cell around the given queue.
#[verifier::external_body]
fn events_cell(v: Vec<NativeEvent>) -> (r: RefCell<Vec<NativeEvent>>) {
    RefCell::new(v)
}

/// A fresh, empty shared event queue.
pub(crate) fn recorder_new() -> (r: Rc<RefCell<Vec<NativeEvent>>>) {
    Rc::new(events_cell(Vec::new()))
}

/// Relies on `RefCell::borrow_mut` and `Vec::push`: appends one event to
/// the shared queue.
#[verifier::external_body]
pub(crate) fn recorder_push(r: &Rc<RefCell<Vec<NativeEvent>>>, e: NativeEvent) {
    r.borrow_mut().push(e);
}

/// Relies on `RefCell::borrow_mut` and `mem::take`: removes and returns
/// everything queued so far, oldest first.
#[verifier::external_body]
pub(crate) fn recorder_take(r: &Rc<RefCell<Vec<NativeEvent>>>) -> (out: Vec<NativeEvent>) {
    std::mem::take(&mut *r.borrow_mut())
}

} // verus!
