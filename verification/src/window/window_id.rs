//! Identifiers for windows: cheap to copy and compare, and handed out by a
//! source that never gives the same one twice until its counter has gone
//! round.

use vstd::prelude::*;

verus! {

/// The number of values that the counter of a source can take.
pub open spec fn counter_range() -> nat {
    0x1_0000_0000_0000_0000
}

/// The identifier of a window.
#[derive(Debug, Clone, Copy, PartialEq, Eq, Hash, Structural)]
pub struct WindowId(u64);

/// The identifier that a source hands out after it has handed out `issued`
/// others: the first is 1, and the counter wraps round after the largest
/// number.
pub open spec fn nth_id(issued: nat) -> u64 {
    ((1 + issued) % counter_range()) as u64
}

/// Identifiers are unique: two that were handed out by one source, fewer
/// than the range of its counter apart, are different.
pub proof fn lemma_ids_are_unique(earlier: nat, later: nat)
    requires
        earlier < later,
        later - earlier < counter_range(),
    ensures
        nth_id(earlier) != nth_id(later),
{
    let range = counter_range() as int;
    let a = 1 + earlier as int;
    let b = 1 + later as int;
    if a % range == b % range {
        assert(false) by (nonlinear_arith)
            requires
                range > 0,
                a < b,
                b - a < range,
                a % range == b % range,
        {
            assert(a == range * (a / range) + a % range);
            assert(b == range * (b / range) + b % range);
            assert(b - a == range * (b / range - a / range));
            assert(b / range - a / range >= 1);
        }
    }
}

/// A source of window identifiers.
pub struct WindowIdSource {
    next: u64,
    issued: Ghost<nat>,
}

impl WindowIdSource {
    #[verifier::type_invariant]
    spec fn counts(self) -> bool {
        self.next == nth_id(self.issued@)
    }

    /// How many identifiers the source has handed out.
    pub closed spec fn issued(&self) -> nat {
        self.issued@
    }

    /// A source that has handed out nothing yet.
    pub fn new() -> (source: Self)
        ensures
            source.issued() == 0,
    {
        WindowIdSource { next: 1, issued: Ghost(0) }
    }
}

impl Default for WindowIdSource {
    /// A source that has handed out nothing yet.
    fn default() -> (source: Self)
        ensures
            source.issued() == 0,
    {
        Self::new()
    }
}

impl WindowId {
    /// The number behind the identifier.
    pub closed spec fn raw(self) -> u64 {
        self.0
    }

    /// Takes the next identifier from a source.
    pub fn new(source: &mut WindowIdSource) -> (id: Self)
        ensures
            id.raw() == nth_id(old(source).issued()),
            final(source).issued() == old(source).issued() + 1,
    {
        proof {
            use_type_invariant(&*source);
        }
        let raw: u64 = source.next;
        let ghost issued = source.issued@;
        let next: u64 = if raw == u64::MAX {
            0
        } else {
            raw + 1
        };
        proof {
            let range = counter_range() as int;
            let count = 1 + issued as int;
            assert(next == ((count + 1) % range)) by (nonlinear_arith)
                requires
                    range == 0x1_0000_0000_0000_0000,
                    count >= 1,
                    raw == count % range,
                    next == if raw == 0xffff_ffff_ffff_ffff {
                        0int
                    } else {
                        raw + 1
                    },
            {
                assert(count == range * (count / range) + count % range);
                if raw == 0xffff_ffff_ffff_ffff {
                    assert(count + 1 == range * (count / range + 1));
                    assert((range * (count / range + 1)) % range == 0);
                } else {
                    assert(count + 1 == range * (count / range) + (raw + 1));
                    assert((range * (count / range) + (raw + 1)) % range == raw + 1);
                }
            }
        }
        *source = WindowIdSource { next, issued: Ghost(issued + 1) };
        WindowId(raw)
    }

    /// The number behind the identifier.
    pub fn as_u64(&self) -> (raw: u64)
        ensures
            raw == self.raw(),
    {
        self.0
    }

    /// The identifier as text: `WindowId(`, the number in decimal, `)`.
    pub fn to_string(&self) -> (text: String)
        ensures
            text@ == "WindowId("@ + decimal(self.raw() as nat) + ")"@,
    {
        let mut text = String::from_str("WindowId(");
        let number = decimal_string(self.0);
        text.append(number.as_str());
        text.append(")");
        text
    }
}

/// The character of a decimal digit.
pub open spec fn digit(d: nat) -> char {
    if d == 0 {
        '0'
    } else if d == 1 {
        '1'
    } else if d == 2 {
        '2'
    } else if d == 3 {
        '3'
    } else if d == 4 {
        '4'
    } else if d == 5 {
        '5'
    } else if d == 6 {
        '6'
    } else if d == 7 {
        '7'
    } else if d == 8 {
        '8'
    } else {
        '9'
    }
}

/// A number in decimal, without leading zeros.
pub open spec fn decimal(n: nat) -> Seq<char>
    decreases n,
{
    if n < 10 {
        seq![digit(n)]
    } else {
        decimal(n / 10).push(digit(n % 10))
    }
}

fn digit_str(d: u64) -> (text: &'static str)
    requires
        d < 10,
    ensures
        text@ == seq![digit(d as nat)],
{
    proof {
        reveal_strlit("0");
        reveal_strlit("1");
        reveal_strlit("2");
        reveal_strlit("3");
        reveal_strlit("4");
        reveal_strlit("5");
        reveal_strlit("6");
        reveal_strlit("7");
        reveal_strlit("8");
        reveal_strlit("9");
    }
    let text = if d == 0 {
        "0"
    } else if d == 1 {
        "1"
    } else if d == 2 {
        "2"
    } else if d == 3 {
        "3"
    } else if d == 4 {
        "4"
    } else if d == 5 {
        "5"
    } else if d == 6 {
        "6"
    } else if d == 7 {
        "7"
    } else if d == 8 {
        "8"
    } else {
        "9"
    };
    assert(text@ =~= seq![digit(d as nat)]);
    text
}

fn decimal_string(n: u64) -> (text: String)
    ensures
        text@ == decimal(n as nat),
    decreases n,
{
    if n < 10 {
        String::from_str(digit_str(n))
    } else {
        let mut text = decimal_string(n / 10);
        text.append(digit_str(n % 10));
        assert(text@ =~= decimal(n as nat));
        text
    }
}

} // verus!
