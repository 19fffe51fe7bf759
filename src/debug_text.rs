use crate::style::{Modifier, ALL_BITS};
use vstd::prelude::*;

verus! {

/// The bit of the named attribute at position `i`, in the order of the bits.
pub open spec fn flag_bit(i: int) -> u16 {
    if i == 0 {
        Modifier::BOLD_BITS
    } else if i == 1 {
        Modifier::DIM_BITS
    } else if i == 2 {
        Modifier::ITALIC_BITS
    } else if i == 3 {
        Modifier::UNDERLINED_BITS
    } else if i == 4 {
        Modifier::SLOW_BLINK_BITS
    } else if i == 5 {
        Modifier::RAPID_BLINK_BITS
    } else if i == 6 {
        Modifier::REVERSED_BITS
    } else if i == 7 {
        Modifier::HIDDEN_BITS
    } else {
        Modifier::CROSSED_OUT_BITS
    }
}

/// The name of the named attribute at position `i`.
pub open spec fn flag_name(i: int) -> Seq<char> {
    if i == 0 {
        "BOLD"@
    } else if i == 1 {
        "DIM"@
    } else if i == 2 {
        "ITALIC"@
    } else if i == 3 {
        "UNDERLINED"@
    } else if i == 4 {
        "SLOW_BLINK"@
    } else if i == 5 {
        "RAPID_BLINK"@
    } else if i == 6 {
        "REVERSED"@
    } else if i == 7 {
        "HIDDEN"@
    } else {
        "CROSSED_OUT"@
    }
}

/// The names of the attributes set in `bits` among the first `n` named ones, in order.
pub open spec fn named_parts(bits: u16, n: nat) -> Seq<Seq<char>>
    decreases n,
{
    if n == 0 {
        seq![]
    } else {
        let earlier = named_parts(bits, (n - 1) as nat);
        if bits & flag_bit(n - 1) != 0 {
            earlier.push(flag_name(n - 1))
        } else {
            earlier
        }
    }
}

/// The lowercase hexadecimal digit of `d`.
pub open spec fn hex_digit(d: nat) -> char {
    "0123456789abcdef"@[d as int]
}

/// The lowercase hexadecimal text of `n`, without leading zeros.
pub open spec fn hex_text(n: nat) -> Seq<char>
    decreases n,
{
    if n < 16 {
        seq![hex_digit(n)]
    } else {
        hex_text(n / 16) + seq![hex_digit(n % 16)]
    }
}

/// The part that shows the bits outside the named attributes, if there are any.
pub open spec fn extra_parts(bits: u16) -> Seq<Seq<char>> {
    if bits & !ALL_BITS != 0 {
        seq!["0x"@ + hex_text((bits & !ALL_BITS) as nat)]
    } else {
        seq![]
    }
}

/// The parts joined, with `" | "` between each two.
pub open spec fn join(parts: Seq<Seq<char>>) -> Seq<char>
    decreases parts.len(),
{
    if parts.len() == 0 {
        seq![]
    } else if parts.len() == 1 {
        parts[0]
    } else {
        join(parts.drop_last()) + " | "@ + parts.last()
    }
}

/// The diagnostic text of a set with bit pattern `bits`: the names of its named
/// attributes and the hexadecimal value of the other bits, separated by `" | "`, or
/// `(empty)` where it has no bit.
pub open spec fn debug_text(bits: u16) -> Seq<char> {
    let parts = named_parts(bits, 9) + extra_parts(bits);
    if parts.len() == 0 {
        "(empty)"@
    } else {
        join(parts)
    }
}

proof fn lemma_join_push(parts: Seq<Seq<char>>, x: Seq<char>)
    ensures
        join(parts.push(x)) == if parts.len() == 0 {
            x
        } else {
            join(parts) + " | "@ + x
        },
{
    assert(parts.push(x).drop_last() =~= parts);
}

/// The bit and the name of the named attribute at position `i`.
fn named_flag(i: usize) -> (r: (u16, &'static str))
    requires
        i < 9,
    ensures
        r.0 == flag_bit(i as int),
        r.1@ == flag_name(i as int),
{
    if i == 0 {
        (Modifier::BOLD_BITS, "BOLD")
    } else if i == 1 {
        (Modifier::DIM_BITS, "DIM")
    } else if i == 2 {
        (Modifier::ITALIC_BITS, "ITALIC")
    } else if i == 3 {
        (Modifier::UNDERLINED_BITS, "UNDERLINED")
    } else if i == 4 {
        (Modifier::SLOW_BLINK_BITS, "SLOW_BLINK")
    } else if i == 5 {
        (Modifier::RAPID_BLINK_BITS, "RAPID_BLINK")
    } else if i == 6 {
        (Modifier::REVERSED_BITS, "REVERSED")
    } else if i == 7 {
        (Modifier::HIDDEN_BITS, "HIDDEN")
    } else {
        (Modifier::CROSSED_OUT_BITS, "CROSSED_OUT")
    }
}

/// Appends the hexadecimal text of `n` to `out`.
fn append_hex(out: &mut String, n: u16)
    ensures
        final(out)@ == old(out)@ + hex_text(n as nat),
    decreases n,
{
    if n >= 16 {
        append_hex(out, n / 16);
    }
    let digits = "0123456789abcdef";
    proof {
        reveal_strlit("0123456789abcdef");
    }
    let d = (n % 16) as usize;
    out.append(digits.substring_ascii(d, d + 1));
    proof {
        assert(digits@.subrange(d as int, d + 1) =~= seq![hex_digit(d as nat)]);
        if n >= 16 {
            assert(old(out)@ + hex_text((n / 16) as nat) + seq![hex_digit(d as nat)] =~= old(
                out,
            )@ + hex_text(n as nat));
        } else {
            assert(old(out)@ + seq![hex_digit(d as nat)] =~= old(out)@ + hex_text(n as nat));
        }
    }
}

impl Modifier {
    /// Returns a human-readable text of the set: the name of each of its named
    /// attributes and the hexadecimal value of any other bits, separated by `" | "`;
    /// `(empty)` for a set with no bit.
    pub fn debug_string(&self) -> (r: String)
        ensures
            r@ == debug_text(self@),
    {
        let bits = self.bits();
        let mut out = String::new();
        let mut first = true;
        let mut i: usize = 0;
        while i < 9
            invariant
                i <= 9,
                bits == self@,
                out@ == join(named_parts(bits, i as nat)),
                first == (named_parts(bits, i as nat).len() == 0),
            decreases 9 - i,
        {
            let (flag, name) = named_flag(i);
            if bits & flag != 0 {
                proof {
                    lemma_join_push(named_parts(bits, i as nat), name@);
                }
                if !first {
                    out.append(" | ");
                }
                out.append(name);
                first = false;
            }
            i = i + 1;
        }
        let ghost named = named_parts(bits, 9);
        assert(named + extra_parts(bits) =~= if bits & !ALL_BITS != 0 {
            named.push("0x"@ + hex_text((bits & !ALL_BITS) as nat))
        } else {
            named
        });
        let extra = bits & !ALL_BITS;
        if extra != 0 {
            proof {
                lemma_join_push(named, "0x"@ + hex_text(extra as nat));
            }
            let ghost before = out@;
            if !first {
                out.append(" | ");
            }
            out.append("0x");
            append_hex(&mut out, extra);
            first = false;
            proof {
                if named.len() == 0 {
                    assert(out@ =~= "0x"@ + hex_text(extra as nat));
                } else {
                    assert(out@ =~= before + " | "@ + ("0x"@ + hex_text(extra as nat)));
                }
            }
        }
        if first {
            out.append("(empty)");
        }
        out
    }
}

} // verus!
