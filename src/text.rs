use vstd::prelude::*;

use crate::ids::{AccountId, TransactionId};

verus! {

/// The decimal digit for `d`.
pub open spec fn digit_char(d: nat) -> char {
    ((d % 10) + 48) as char
}

/// `n` in decimal, without leading zeros.
pub open spec fn decimal(n: nat) -> Seq<char>
    decreases n,
{
    if n < 10 {
        seq![digit_char(n)]
    } else {
        decimal(n / 10).push(digit_char(n % 10))
    }
}

/// The last `width` decimal digits of `n`, padded with leading zeros.
pub open spec fn padded(n: nat, width: nat) -> Seq<char>
    decreases width,
{
    if width == 0 {
        Seq::empty()
    } else {
        padded(n / 10, (width - 1) as nat).push(digit_char(n % 10))
    }
}

/// `n` in decimal, with a leading minus sign when negative.
pub open spec fn signed_decimal(n: int) -> Seq<char> {
    if n < 0 { seq!['-'] + decimal((-n) as nat) } else { decimal(n as nat) }
}

/// `shard.realm.num`.
pub open spec fn account_text(id: AccountId) -> Seq<char> {
    decimal(id.shard as nat) + seq!['.'] + decimal(id.realm as nat) + seq!['.'] + decimal(id.num as nat)
}

/// `shard.realm.num@seconds.nanos[?scheduled][/nonce]`, the nanoseconds written with nine digits.
pub open spec fn transaction_id_text(id: TransactionId) -> Seq<char> {
    account_text(id.account_id) + seq!['@'] + signed_decimal(id.valid_start.seconds as int) + seq!['.']
        + padded(id.valid_start.nanos as nat, 9) + (if id.scheduled { "?scheduled"@ } else { Seq::empty() })
        + match id.nonce {
        Some(n) => seq!['/'] + decimal(n as nat),
        None => Seq::empty(),
    }
}

/// Relies on `String::push`: it appends `c` at the end.
#[verifier::external_body]
fn push_char(s: &mut String, c: char)
    ensures
        final(s)@ == old(s)@.push(c),
{
    s.push(c)
}

fn push_digit(s: &mut String, d: u64)
    requires
        d < 10,
    ensures
        final(s)@ == old(s)@.push(digit_char(d as nat)),
{
    let c = (d as u8 + 48) as char;
    assert(c == digit_char(d as nat));
    push_char(s, c);
}

fn push_decimal(s: &mut String, n: u64)
    ensures
        final(s)@ == old(s)@ + decimal(n as nat),
    decreases n,
{
    if n >= 10 {
        push_decimal(s, n / 10);
    }
    push_digit(s, n % 10);
    assert(final(s)@ =~= old(s)@ + decimal(n as nat));
}

fn push_padded(s: &mut String, n: u64, width: u64)
    ensures
        final(s)@ == old(s)@ + padded(n as nat, width as nat),
    decreases width,
{
    if width > 0 {
        push_padded(s, n / 10, width - 1);
        push_digit(s, n % 10);
    }
    assert(final(s)@ =~= old(s)@ + padded(n as nat, width as nat));
}

impl AccountId {
    /// `shard.realm.num` in decimal.
    pub fn to_text(&self) -> (r: String)
        ensures
            r@ == account_text(*self),
    {
        let mut s = String::new();
        push_decimal(&mut s, self.shard);
        push_char(&mut s, '.');
        push_decimal(&mut s, self.realm);
        push_char(&mut s, '.');
        push_decimal(&mut s, self.num);
        assert(s@ =~= account_text(*self));
        s
    }
}

impl TransactionId {
    /// `shard.realm.num@seconds.nanos[?scheduled][/nonce]`, the nanoseconds with nine digits.
    pub fn to_text(&self) -> (r: String)
        ensures
            r@ == transaction_id_text(*self),
    {
        let mut s = self.account_id.to_text();
        push_char(&mut s, '@');
        let seconds = self.valid_start.seconds;
        if seconds < 0 {
            push_char(&mut s, '-');
            let magnitude: u64 = ((-(seconds + 1)) as u64) + 1;
            push_decimal(&mut s, magnitude);
        } else {
            push_decimal(&mut s, seconds as u64);
        }
        push_char(&mut s, '.');
        push_padded(&mut s, self.valid_start.nanos as u64, 9);
        if self.scheduled {
            let ghost before = s@;
            push_char(&mut s, '?');
            push_char(&mut s, 's');
            push_char(&mut s, 'c');
            push_char(&mut s, 'h');
            push_char(&mut s, 'e');
            push_char(&mut s, 'd');
            push_char(&mut s, 'u');
            push_char(&mut s, 'l');
            push_char(&mut s, 'e');
            push_char(&mut s, 'd');
            proof {
                reveal_strlit("?scheduled");
                assert(s@ =~= before + "?scheduled"@);
            }
        }
        match self.nonce {
            Some(n) => {
                push_char(&mut s, '/');
                push_decimal(&mut s, n as u64);
            },
            None => {},
        }
        assert(s@ =~= transaction_id_text(*self));
        s
    }
}

} // verus!
