//! Human-readable byte sizes in 1024-based units.
use vstd::prelude::*;
use crate::text::{decimal_digits, push_decimal};

verus! {

/// The value left after repeatedly dividing `size` by 1024 while it exceeds
/// 1024, and the number of divisions made.
pub open spec fn scaled(size: nat) -> (nat, nat)
    decreases size,
{
    if size > 1024 {
        let (v, i) = scaled(size / 1024);
        (v, i + 1)
    } else {
        (size, 0)
    }
}

/// The label of unit `i`, which stands for 1024 to the power `i` bytes:
/// `B`, `KB`, `MB`, `GB`, `TB`, `PB`, `EB`, `ZB`, `YB`.
pub open spec fn unit_label(i: nat) -> Seq<char> {
    if i == 0 {
        seq!['B']
    } else {
        seq![seq!['K', 'M', 'G', 'T', 'P', 'E', 'Z', 'Y'][i - 1], 'B']
    }
}

/// The text of a byte count: the scaled value in decimal, then its unit.
pub open spec fn size_text(size: nat) -> Seq<char> {
    decimal_digits(scaled(size).0) + unit_label(scaled(size).1)
}

/// The largest value that a `u64` holds after `i` divisions by 1024.
spec fn divided_cap(i: nat) -> nat
    decreases i,
{
    if i == 0 {
        0xffff_ffff_ffff_ffff
    } else {
        divided_cap((i - 1) as nat) / 1024
    }
}

proof fn lemma_cap_values()
    ensures
        divided_cap(6) == 15,
        forall|i: nat| i < 6 ==> divided_cap(i) > 1024,
{
    reveal_with_fuel(divided_cap, 7);
    assert(divided_cap(0) == 18446744073709551615);
    assert(divided_cap(1) == 18014398509481983);
    assert(divided_cap(2) == 17592186044415);
    assert(divided_cap(3) == 17179869183);
    assert(divided_cap(4) == 16777215);
    assert(divided_cap(5) == 16383);
    assert(divided_cap(6) == 15);
}

/// Appends the label of unit `i` to `out`.
fn push_unit(out: &mut String, i: usize)
    requires
        i <= 8,
    ensures
        final(out)@ == old(out)@ + unit_label(i as nat),
{
    let letters = "KMGTPEZY";
    let b = "B";
    proof {
        reveal_strlit("KMGTPEZY");
        reveal_strlit("B");
    }
    if i > 0 {
        out.append(letters.substring_char(i - 1, i));
    }
    out.append(b);
    assert(final(out)@ =~= old(out)@ + unit_label(i as nat));
}

/// Formats a byte count: while the value exceeds 1024 it is divided by 1024
/// (discarding the remainder) and the unit steps up, so 1024 stays `1024B`
/// and 1536 becomes `1KB`.
pub fn format_file_size(size: u64) -> (r: String)
    ensures
        r@ == size_text(size as nat),
{
    let mut v: u64 = size;
    let mut i: usize = 0;
    proof {
        lemma_cap_values();
    }
    while v > 1024
        invariant
            i <= 6,
            v <= divided_cap(i as nat),
            divided_cap(6) == 15,
            forall|k: nat| k < 6 ==> divided_cap(k) > 1024,
            scaled(size as nat).0 == scaled(v as nat).0,
            scaled(size as nat).1 == scaled(v as nat).1 + i,
        decreases v,
    {
        assert(i < 6);
        assert(v / 1024 <= divided_cap(i as nat) / 1024) by {
            vstd::arithmetic::div_mod::lemma_div_is_ordered(v as int, divided_cap(i as nat) as int, 1024);
        }
        v = v / 1024;
        i = i + 1;
    }
    let mut r = String::new();
    push_decimal(&mut r, v);
    push_unit(&mut r, i);
    assert(r@ =~= size_text(size as nat));
    r
}

/// The size fragment of the status line: empty when there is no file on disk
/// or the file is empty, the formatted size otherwise.
pub fn human_file_size(size: Option<u64>) -> (r: String)
    ensures
        r@ == match size {
            Some(s) if s > 0 => size_text(s as nat),
            _ => Seq::<char>::empty(),
        },
{
    match size {
        Some(s) if s > 0 => format_file_size(s),
        _ => String::new(),
    }
}

} // verus!
