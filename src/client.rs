use vstd::prelude::*;

verus! {

/// The pause between two sends of the client, in milliseconds.
pub const SEND_INTERVAL_MS: u64 = 1000;

/// The character of a decimal digit.
pub open spec fn digit_char(d: nat) -> char {
    if d == 0 {
        '0'
    } else if d == 1 {
        '1'
    } else if d == 2 {
        '2'
    } else if d == 3 {
        '3'
    } else if d == 4 {
        '4'
    } else if d == 5 {
        '5'
    } else if d == 6 {
        '6'
    } else if d == 7 {
        '7'
    } else if d == 8 {
        '8'
    } else {
        '9'
    }
}

/// The value of a decimal digit character (0 for any other character).
pub open spec fn digit_value(c: char) -> nat {
    if c == '1' {
        1
    } else if c == '2' {
        2
    } else if c == '3' {
        3
    } else if c == '4' {
        4
    } else if c == '5' {
        5
    } else if c == '6' {
        6
    } else if c == '7' {
        7
    } else if c == '8' {
        8
    } else if c == '9' {
        9
    } else {
        0
    }
}

/// The decimal numeral of `n`, without sign or leading zeros.
pub open spec fn decimal(n: nat) -> Seq<char>
    decreases n,
{
    if n < 10 {
        seq![digit_char(n)]
    } else {
        decimal(n / 10).push(digit_char(n % 10))
    }
}

/// The number that a text of decimal digits reads as.
pub open spec fn decimal_value(s: Seq<char>) -> nat
    decreases s.len(),
{
    if s.len() == 0 {
        0
    } else {
        decimal_value(s.drop_last()) * 10 + digit_value(s.last())
    }
}

/// A decimal numeral reads back as the number it was written from.
pub proof fn lemma_decimal_value(n: nat)
    ensures
        decimal_value(decimal(n)) == n,
    decreases n,
{
    if n < 10 {
        assert(decimal(n).drop_last() =~= Seq::<char>::empty());
        assert(decimal_value(Seq::<char>::empty()) == 0);
        assert(digit_value(digit_char(n)) == n);
    } else {
        lemma_decimal_value(n / 10);
        assert(decimal(n).drop_last() =~= decimal(n / 10));
        assert(digit_value(digit_char(n % 10)) == n % 10);
        assert((n / 10) * 10 + n % 10 == n) by (nonlinear_arith);
    }
}

/// The counter that follows `c`; after the largest `u64` it wraps to 0.
pub open spec fn next_count(c: u64) -> u64 {
    if c == u64::MAX {
        0
    } else {
        (c + 1) as u64
    }
}

/// Relies on `u64`'s `Display`, through `to_string`: the decimal numeral of
/// the number.
#[verifier::external_body]
fn decimal_text(n: u64) -> (r: String)
    ensures
        r@ == decimal(n as nat),
{
    n.to_string()
}

/// What the client does after a send.
pub enum ClientAction<E> {
    /// Wait this many milliseconds, then send the next payload.
    Wait(u64),
    /// The send failed: stop and hand the error to the caller.
    Stop(E),
}

/// The client's message loop: a counter, sent as decimal text in one text
/// frame per cycle, that goes up by one after each successful send.
pub struct ClientLoop {
    count: u64,
}

impl ClientLoop {
    /// The value that the next frame carries.
    pub closed spec fn counter(&self) -> u64 {
        self.count
    }

    /// A loop that has sent nothing: its counter is 0.
    pub fn new() -> (r: ClientLoop)
        ensures
            r.counter() == 0,
    {
        ClientLoop { count: 0 }
    }

    /// The value that the next frame carries.
    pub fn count(&self) -> (r: u64)
        ensures
            r == self.counter(),
    {
        self.count
    }

    /// The text of the next frame: the counter in decimal.
    pub fn next_payload(&self) -> (r: String)
        ensures
            r@ == decimal(self.counter() as nat),
    {
        decimal_text(self.count)
    }

    /// Takes the outcome of sending the next payload. After a send the
    /// counter moves on by one and the loop waits `SEND_INTERVAL_MS`; after a
    /// failure the counter stays and the loop stops with the error.
    pub fn on_send_result<E>(&mut self, outcome: Result<(), E>) -> (r: ClientAction<E>)
        ensures
            match outcome {
                Ok(_) => final(self).counter() == next_count(old(self).counter()) && r
                    == ClientAction::<E>::Wait(SEND_INTERVAL_MS),
                Err(e) => final(self).counter() == old(self).counter() && r == ClientAction::<
                    E,
                >::Stop(e),
            },
    {
        match outcome {
            Ok(_) => {
                self.count = if self.count == u64::MAX {
                    0
                } else {
                    self.count + 1
                };
                ClientAction::Wait(SEND_INTERVAL_MS)
            },
            Err(e) => ClientAction::Stop(e),
        }
    }
}

/// The payloads of `n` cycles without failure of a client whose counter
/// starts at `c`, in the order they are sent.
pub open spec fn payloads_from(c: u64, n: nat) -> Seq<Seq<char>>
    decreases n,
{
    if n == 0 {
        Seq::empty()
    } else {
        seq![decimal(c as nat)] + payloads_from(next_count(c), (n - 1) as nat)
    }
}

proof fn lemma_payloads_from(c: u64, n: nat)
    requires
        c + n <= u64::MAX + 1,
    ensures
        payloads_from(c, n).len() == n,
        forall|k: int| 0 <= k < n ==> #[trigger] payloads_from(c, n)[k] == decimal((c + k) as nat),
    decreases n,
{
    if n > 0 {
        lemma_payloads_from(next_count(c), (n - 1) as nat);
        let rest = payloads_from(next_count(c), (n - 1) as nat);
        assert forall|k: int| 0 <= k < n implies #[trigger] payloads_from(c, n)[k] == decimal(
            (c + k) as nat,
        ) by {
            if k > 0 {
                assert(payloads_from(c, n)[k] == rest[k - 1]);
            }
        }
    }
}

/// In a run without failure, from a new loop, the frame sent N-th carries
/// the decimal text of N - 1, which reads back as N - 1: the counter starts
/// at 0 and goes up by exactly one per send, for as long as it does not wrap.
pub proof fn lemma_client_counts_up(n: nat)
    requires
        n <= u64::MAX + 1,
    ensures
        payloads_from(0, n).len() == n,
        forall|k: int|
            0 <= k < n ==> #[trigger] payloads_from(0, n)[k] == decimal(k as nat) && decimal_value(
                payloads_from(0, n)[k],
            ) == k,
{
    lemma_payloads_from(0, n);
    assert forall|k: int| 0 <= k < n implies #[trigger] payloads_from(0, n)[k] == decimal(k as nat)
        && decimal_value(payloads_from(0, n)[k]) == k by {
        lemma_decimal_value(k as nat);
    }
}

} // verus!
