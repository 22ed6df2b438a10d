use fc_core::expr::{eval_cond, Ctx};

fn ctx() -> Ctx {
    Ctx {
        a: 0xFF,
        x: 0x10,
        y: 0,
        p: 0xA5,
        sp: 0xFD,
        pc: 0x8000,
        cycles: 100,
        scanline: 30,
        dot: 5,
        value: -1,
        addr: -1,
    }
}

#[test]
fn basics() {
    let c = ctx();
    assert!(eval_cond("a == 0xff", &c));
    assert!(!eval_cond("a == 0", &c));
    assert!(eval_cond("a == 0xff && scanline >= 30", &c));
    assert!(!eval_cond("a == 0xff && scanline > 30", &c));
    assert!(eval_cond("x + 1 == 17", &c));
    assert!(eval_cond("(a & 0x0f) == 0x0f", &c));
    assert!(eval_cond("pc == 0x8000 || a == 0", &c));
    assert!(eval_cond("c == 1", &c));
    assert!(eval_cond("!z", &c));
}

#[test]
fn fail_open() {
    assert!(eval_cond("a == ", &ctx()));
    assert!(eval_cond("bogus > 3", &ctx()));
}

#[test]
fn precedence_and_arithmetic() {
    let c = ctx();
    assert!(eval_cond("2 + 3 * 4 == 14", &c));
    assert!(eval_cond("(2 + 3) * 4 == 20", &c));
    assert!(eval_cond("7 / 2 == 3 && 7 % 2 == 1", &c));
    assert!(eval_cond("-7 / 2 == -3 && -7 % 2 == -1", &c));
    assert!(!eval_cond("5 / 0", &c), "division by zero gives 0");
    assert!(!eval_cond("5 % 0", &c));
    assert!(eval_cond("~0 == -1", &c));
    assert!(eval_cond("1 | 2 ^ 3 == 0", &c) == eval_cond("((1 | 2) ^ 3) == 0", &c));
    assert!(eval_cond("0x10 | 0x01 == 0x11", &c));
}

#[test]
fn operands_and_case() {
    let c = ctx();
    assert!(eval_cond("X == 16 && SL == 30 && Dot == 5", &c));
    assert!(eval_cond("value == -1 && addr < 0", &c));
    assert!(eval_cond("n == 1 && v == 0 && i == 1 && d == 0", &c));
    assert!(eval_cond("cycles == 100 && sp == 0xfd", &c));
}

#[test]
fn trailing_garbage_and_overflow_fail_open() {
    let c = ctx();
    assert!(eval_cond("a == 0 )", &c));
    assert!(eval_cond("99999999999999999999 == 0", &c));
    assert!(eval_cond("0x", &c));
    assert!(!eval_cond("  0  ", &c));
}
