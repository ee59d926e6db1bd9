use vstd::prelude::*;

verus! {

/// ASCII `0`.
pub const ZERO: u8 = 48;

/// ASCII `-`.
pub const MINUS: u8 = 45;

/// ASCII line feed.
pub const NEWLINE: u8 = 10;

/// The ASCII decimal digits of `n`, most significant first, with no
/// leading zero.
pub open spec fn digits(n: nat) -> Seq<u8>
    decreases n,
{
    if n < 10 {
        seq![(n + ZERO) as u8]
    } else {
        digits(n / 10).push((n % 10 + ZERO) as u8)
    }
}

/// `n` written in decimal, with a leading `-` when it is negative.
pub open spec fn decimal(n: int) -> Seq<u8> {
    if n < 0 {
        seq![MINUS] + digits((-n) as nat)
    } else {
        digits(n as nat)
    }
}

/// The text that opens every control reply: `testing, worker_pid `.
pub open spec fn reply_prefix() -> Seq<u8> {
    // t e s t i n g , space
    // w o r k e r _ p i d space
    seq![
        116u8, 101, 115, 116, 105, 110, 103, 44, 32,
        119, 111, 114, 107, 101, 114, 95, 112, 105, 100, 32,
    ]
}

/// The one line the control endpoint sends for the identifier `pid`.
pub open spec fn reply_line(pid: int) -> Seq<u8> {
    reply_prefix() + decimal(pid) + seq![NEWLINE]
}

/// Appends the decimal digits of `n` to `out`.
fn push_digits(n: u32, out: &mut Vec<u8>)
    ensures
        final(out)@ == old(out)@ + digits(n as nat),
    decreases n,
{
    if n >= 10 {
        push_digits(n / 10, out);
    }
    out.push((n % 10) as u8 + ZERO);
    proof {
        assert(final(out)@ =~= old(out)@ + digits(n as nat));
    }
}

/// The bytes of the control reply for `pid`, newline included.
pub fn control_reply(pid: i32) -> (r: Vec<u8>)
    ensures
        r@ == reply_line(pid as int),
{
    let mut out: Vec<u8> = vec![
        116u8, 101, 115, 116, 105, 110, 103, 44, 32,
        119, 111, 114, 107, 101, 114, 95, 112, 105, 100, 32,
    ];
    assert(out@ =~= reply_prefix());
    let magnitude: u32;
    if pid < 0 {
        out.push(MINUS);
        magnitude = (0i64 - pid as i64) as u32;
    } else {
        magnitude = pid as u32;
    }
    push_digits(magnitude, &mut out);
    out.push(NEWLINE);
    assert(out@ =~= reply_line(pid as int));
    out
}

} // verus!
