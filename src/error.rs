use vstd::prelude::*;

verus! {

/// A power-management request was refused; carries the status code that the
/// operating system returned.
#[derive(Clone, Copy, Debug, PartialEq, Eq, Structural)]
pub struct IOError {
    code: i32,
}

pub type Error = IOError;

/// `16` raised to `n`.
pub open spec fn pow16(n: nat) -> nat
    decreases n,
{
    if n == 0 {
        1
    } else {
        16 * pow16((n - 1) as nat)
    }
}

/// Hex digit `j` of `v`, counted from the least significant.
pub open spec fn digit(v: nat, j: nat) -> nat {
    (v / pow16(j)) % 16
}

/// The lower-case character of a hex digit.
pub open spec fn hex_char(d: nat) -> char {
    if d < 10 {
        (('0' as nat) + d) as char
    } else {
        (('a' as nat) + d - 10) as char
    }
}

/// `v` as eight lower-case hex digits, most significant first.
pub open spec fn hex8(v: nat) -> Seq<char> {
    Seq::new(8, |k: int| hex_char(digit(v, (7 - k) as nat)))
}

/// How an error with status `code` reads: the code as the 32 bits that the
/// operating system returned, zero-padded to eight hex digits.
pub open spec fn message_of(code: i32) -> Seq<char> {
    "IO error: 0x"@ + hex8(bits_of(code))
}

/// The 32 bits of `code` read as an unsigned number (two's complement).
pub open spec fn bits_of(code: i32) -> nat {
    if code >= 0 {
        code as nat
    } else {
        (code + 0x1_0000_0000) as nat
    }
}

proof fn lemma_pow16_positive(n: nat)
    ensures
        pow16(n) > 0,
    decreases n,
{
    if n > 0 {
        lemma_pow16_positive((n - 1) as nat);
    }
}

fn hex_digit_str(d: u32) -> (r: &'static str)
    requires
        d < 16,
    ensures
        r@ == seq![hex_char(d as nat)],
{
    proof {
        reveal_strlit("0");
        reveal_strlit("1");
        reveal_strlit("2");
        reveal_strlit("3");
        reveal_strlit("4");
        reveal_strlit("5");
        reveal_strlit("6");
        reveal_strlit("7");
        reveal_strlit("8");
        reveal_strlit("9");
        reveal_strlit("a");
        reveal_strlit("b");
        reveal_strlit("c");
        reveal_strlit("d");
        reveal_strlit("e");
        reveal_strlit("f");
    }
    match d {
        0 => "0",
        1 => "1",
        2 => "2",
        3 => "3",
        4 => "4",
        5 => "5",
        6 => "6",
        7 => "7",
        8 => "8",
        9 => "9",
        10 => "a",
        11 => "b",
        12 => "c",
        13 => "d",
        14 => "e",
        _ => "f",
    }
}

impl IOError {
    pub fn new(code: i32) -> (r: IOError)
        ensures
            r.code() == code,
    {
        IOError { code }
    }

    pub closed spec fn code_spec(&self) -> i32 {
        self.code
    }

    /// The status code that the operating system returned.
    #[verifier::when_used_as_spec(code_spec)]
    pub fn code(&self) -> (r: i32)
        ensures
            r == self.code_spec(),
    {
        self.code
    }

    /// The error as text, for diagnostics.
    pub fn message(&self) -> (r: String)
        ensures
            r@ == message_of(self.code()),
    {
        let v: u32 = if self.code >= 0 {
            self.code as u32
        } else {
            (self.code as i64 + 0x1_0000_0000i64) as u32
        };
        assert(v as nat == bits_of(self.code));
        let mut s = String::new();
        proof {
            reveal_strlit("IO error: 0x");
        }
        s.append("IO error: 0x");
        let ghost prefix = "IO error: 0x"@;
        assert(pow16(7) == 0x1000_0000) by {
            reveal_with_fuel(pow16, 8);
        }
        let mut div: u32 = 0x1000_0000;
        let mut k: usize = 0;
        while k < 8
            invariant
                k <= 8,
                div > 0,
                k < 8 ==> div as nat == pow16((7 - k) as nat),
                s@ == prefix + hex8(v as nat).take(k as int),
            decreases 8 - k,
        {
            let d: u32 = (v / div) % 16;
            let ghost before = s@;
            s.append(hex_digit_str(d));
            assert(s@ =~= prefix + hex8(v as nat).take(k + 1)) by {
                assert(hex8(v as nat).take(k + 1) =~= hex8(v as nat).take(k as int).push(
                    hex_char(d as nat),
                ));
            }
            if k < 7 {
                proof {
                    let p = pow16((6 - k) as nat);
                    assert(pow16((7 - k) as nat) == 16 * p);
                    assert((16 * p) / 16 == p) by (nonlinear_arith);
                    lemma_pow16_positive((6 - k) as nat);
                }
                div = div / 16;
            }
            k = k + 1;
        }
        assert(hex8(v as nat).take(8) =~= hex8(v as nat));
        s
    }
}

} // verus!
