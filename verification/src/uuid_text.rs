//! The hyphenated text of a UUID: 32 lower-case hexadecimal digits, most
//! significant first, in groups of 8, 4, 4, 4 and 12 joined by `-`.

use vstd::prelude::*;
use vstd::string::*;

verus! {

/// The lower-case hexadecimal digit of `d` (for `0 <= d < 16`).
pub open spec fn hex_char(d: int) -> char {
    if d < 10 {
        (d + 48) as char
    } else {
        (d + 87) as char
    }
}

/// The `k`-th hexadecimal digit of `v`, counting from the most significant.
pub open spec fn uuid_nibble(v: u128, k: int) -> int {
    ((v >> (((31 - k) * 4) as u32)) & 0xfu128) as int
}

/// How many hyphens come before text position `i`.
pub open spec fn hyphens_before(i: int) -> int {
    if i < 8 {
        0
    } else if i < 13 {
        1
    } else if i < 18 {
        2
    } else if i < 23 {
        3
    } else {
        4
    }
}

pub open spec fn is_hyphen_position(i: int) -> bool {
    i == 8 || i == 13 || i == 18 || i == 23
}

/// The hyphenated text of the UUID whose 128 bits are `v`.
pub open spec fn uuid_text(v: u128) -> Seq<char> {
    Seq::new(
        36,
        |i: int|
            if is_hyphen_position(i) {
                '-'
            } else {
                hex_char(uuid_nibble(v, i - hyphens_before(i)))
            },
    )
}

/// Where the digit `k` of the UUID stands in its text.
pub open spec fn nibble_position(k: int) -> int {
    k + if k < 8 {
        0int
    } else if k < 12 {
        1int
    } else if k < 16 {
        2int
    } else if k < 20 {
        3int
    } else {
        4int
    }
}

/// How much of the text is written before digit `k` is looked at.
pub open spec fn text_len(k: int) -> int {
    k + if k <= 8 {
        0int
    } else if k <= 12 {
        1int
    } else if k <= 16 {
        2int
    } else if k <= 20 {
        3int
    } else {
        4int
    }
}

fn hex_str(d: u128) -> (s: &'static str)
    requires
        d < 16,
    ensures
        s@ == seq![hex_char(d as int)],
{
    if d == 0 {
        proof { reveal_strlit("0"); }
        "0"
    } else if d == 1 {
        proof { reveal_strlit("1"); }
        "1"
    } else if d == 2 {
        proof { reveal_strlit("2"); }
        "2"
    } else if d == 3 {
        proof { reveal_strlit("3"); }
        "3"
    } else if d == 4 {
        proof { reveal_strlit("4"); }
        "4"
    } else if d == 5 {
        proof { reveal_strlit("5"); }
        "5"
    } else if d == 6 {
        proof { reveal_strlit("6"); }
        "6"
    } else if d == 7 {
        proof { reveal_strlit("7"); }
        "7"
    } else if d == 8 {
        proof { reveal_strlit("8"); }
        "8"
    } else if d == 9 {
        proof { reveal_strlit("9"); }
        "9"
    } else if d == 10 {
        proof { reveal_strlit("a"); }
        "a"
    } else if d == 11 {
        proof { reveal_strlit("b"); }
        "b"
    } else if d == 12 {
        proof { reveal_strlit("c"); }
        "c"
    } else if d == 13 {
        proof { reveal_strlit("d"); }
        "d"
    } else if d == 14 {
        proof { reveal_strlit("e"); }
        "e"
    } else {
        proof { reveal_strlit("f"); }
        "f"
    }
}

/// The hyphenated text of a UUID, as `Uuid`'s `Display` writes it.
pub fn uuid_to_string(v: u128) -> (s: String)
    ensures
        s@ == uuid_text(v),
{
    let mut s = String::new();
    let mut k: u32 = 0;
    proof {
        reveal_strlit("-");
        assert(s@ =~= uuid_text(v).take(0));
    }
    while k < 32
        invariant
            k <= 32,
            s@ == uuid_text(v).take(text_len(k as int)),
        decreases 32 - k,
    {
        let ghost before = s@;
        if k == 8 || k == 12 || k == 16 || k == 20 {
            s.append("-");
            proof {
                reveal_strlit("-");
                assert(s@ =~= uuid_text(v).take(nibble_position(k as int)));
            }
        }
        let ghost mid = s@;
        let shift: u32 = (31 - k) * 4;
        let d = (v >> shift) & 0xf;
        assert(d < 16) by (bit_vector)
            requires
                d == (v >> shift) & 0xf,
        ;
        s.append(hex_str(d));
        proof {
            assert(uuid_nibble(v, k as int) == d as int);
            assert(s@ =~= uuid_text(v).take(nibble_position(k as int) + 1));
        }
        k = k + 1;
    }
    proof {
        assert(s@ =~= uuid_text(v));
    }
    s
}

} // verus!
