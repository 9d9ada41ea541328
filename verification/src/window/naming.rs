//! Names of reply ports.
//!
//! A client receives the server's answers on a port of its own. Its name is
//! a fixed prefix followed by a number in decimal; the client counts the
//! number up until the kernel accepts the name.

use vstd::prelude::*;

use crate::text::padded;

verus! {

/// Most attempts that a client makes to bind a reply port. The suffixes 0
/// to one below this number are tried in turn; when the last of them is
/// taken too, the client gives up.
pub const REPLY_PORT_ATTEMPTS: u32 = 100;

/// Number of messages that a reply port can hold.
pub const REPLY_PORT_CAPACITY: usize = 16;

/// The prefix of every reply port name: `win.r.` in ASCII.
pub open spec fn reply_port_prefix() -> Seq<u8> {
    seq![119u8, 105u8, 110u8, 46u8, 114u8, 46u8]
}

/// The decimal digits of `n` in ASCII, without leading zeros.
pub open spec fn decimal(n: nat) -> Seq<u8>
    decreases n,
{
    if n < 10 {
        seq![(48 + n) as u8]
    } else {
        decimal(n / 10).push((48 + n % 10) as u8)
    }
}

/// The number that a string of ASCII digits stands for.
pub open spec fn decimal_value(s: Seq<u8>) -> nat
    decreases s.len(),
{
    if s.len() == 0 {
        0
    } else {
        (10 * decimal_value(s.drop_last()) + (s.last() - 48)) as nat
    }
}

/// The name of the reply port with suffix `seed`.
pub open spec fn reply_port_name(seed: u32) -> Seq<u8> {
    reply_port_prefix() + decimal(seed as nat)
}

/// Appends the decimal digits of `n`.
pub fn push_decimal(out: &mut Vec<u8>, n: u32)
    ensures
        final(out)@ == old(out)@ + decimal(n as nat),
    decreases n,
{
    if n >= 10 {
        push_decimal(out, n / 10);
    }
    out.push(48 + (n % 10) as u8);
    assert(out@ =~= old(out)@ + decimal(n as nat));
}

/// The name of the reply port with suffix `seed`, as bytes.
pub fn format_reply_port_name(seed: u32) -> (name: Vec<u8>)
    ensures
        name@ == reply_port_name(seed),
{
    let mut name: Vec<u8> = Vec::new();
    name.push(119);
    name.push(105);
    name.push(110);
    name.push(46);
    name.push(114);
    name.push(46);
    assert(name@ =~= reply_port_prefix());
    push_decimal(&mut name, seed);
    name
}

/// The digits of a number are between one and ten for a 32-bit number, and
/// they stand for the number.
pub proof fn lemma_decimal_value(n: nat)
    ensures
        decimal(n).len() >= 1,
        decimal_value(decimal(n)) == n,
    decreases n,
{
    if n < 10 {
        let s = decimal(n);
        assert(s.drop_last() =~= Seq::<u8>::empty());
        assert(decimal_value(s.drop_last()) == 0);
    } else {
        lemma_decimal_value(n / 10);
        let s = decimal(n);
        assert(s.drop_last() =~= decimal(n / 10));
    }
}

/// The digits of a 32-bit number are at most ten.
pub proof fn lemma_decimal_len(n: nat)
    ensures
        n < 10 ==> decimal(n).len() == 1,
        n < 100 ==> decimal(n).len() <= 2,
        n < 1000 ==> decimal(n).len() <= 3,
        n < 0x1_0000_0000 ==> decimal(n).len() <= 10,
{
    reveal_with_fuel(decimal, 11);
}

/// Different suffixes give different names: no two attempts of one client,
/// and no two clients that hold different suffixes, ask for the same port.
pub proof fn lemma_reply_port_names_distinct(a: u32, b: u32)
    requires
        a != b,
    ensures
        reply_port_name(a) != reply_port_name(b),
{
    lemma_decimal_value(a as nat);
    lemma_decimal_value(b as nat);
    let p = reply_port_prefix();
    if reply_port_name(a) == reply_port_name(b) {
        assert(decimal(a as nat) =~= (p + decimal(a as nat)).subrange(
            p.len() as int,
            (p + decimal(a as nat)).len() as int,
        ));
        assert(decimal(b as nat) =~= (p + decimal(b as nat)).subrange(
            p.len() as int,
            (p + decimal(b as nat)).len() as int,
        ));
    }
}

/// Every reply port name fits its field of 32 bytes with room for the
/// closing zero, so padding loses nothing of it.
pub proof fn lemma_reply_port_name_fits(seed: u32)
    ensures
        reply_port_name(seed).len() <= 16,
        padded(reply_port_name(seed), 32).subrange(0, reply_port_name(seed).len() as int)
            == reply_port_name(seed),
        padded(reply_port_name(seed), 32)[reply_port_name(seed).len() as int] == 0u8,
{
    lemma_decimal_len(seed as nat);
    let name = reply_port_name(seed);
    assert(padded(name, 32).subrange(0, name.len() as int) =~= name);
}

} // verus!
