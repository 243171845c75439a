//! The canonical text of a 128-bit identifier: 32 lowercase hexadecimal
//! digits, most significant first, in groups of 8, 4, 4, 4 and 12 with a
//! hyphen between the groups.

use vstd::prelude::*;
use vstd::string::*;

verus! {

/// The lowercase hexadecimal digit of a value below 16.
pub open spec fn hex_char(n: u8) -> char {
    seq!['0', '1', '2', '3', '4', '5', '6', '7', '8', '9', 'a', 'b', 'c', 'd', 'e', 'f'][n as int]
}

/// The hexadecimal digit of `id` at position `k`, counted from the most
/// significant digit, which is position 0.
pub open spec fn nibble(id: u128, k: nat) -> u8 {
    ((id >> ((4 * (31 - k)) as u128)) & 0xf) as u8
}

/// Whether a hyphen stands before the digit at position `k`.
pub open spec fn group_starts(k: nat) -> bool {
    k == 8 || k == 12 || k == 16 || k == 20
}

/// The text of the first `k` digits of `id`, with the hyphens before them.
pub open spec fn hyphenated_prefix(id: u128, k: nat) -> Seq<char>
    decreases k,
{
    if k == 0 {
        Seq::empty()
    } else {
        let j = (k - 1) as nat;
        let before = hyphenated_prefix(id, j);
        let opened = if group_starts(j) {
            before.push('-')
        } else {
            before
        };
        opened.push(hex_char(nibble(id, j)))
    }
}

/// The canonical text of an identifier.
pub open spec fn hyphenated(id: u128) -> Seq<char> {
    hyphenated_prefix(id, 32)
}

/// The number of hyphens in the text of the first `k` digits.
pub open spec fn hyphens_before(k: nat) -> nat {
    if k <= 8 {
        0
    } else if k <= 12 {
        1
    } else if k <= 16 {
        2
    } else if k <= 20 {
        3
    } else {
        4
    }
}

/// The text of the first `k` digits has `k` digits and the hyphens before
/// them.
pub proof fn lemma_prefix_len(id: u128, k: nat)
    ensures
        hyphenated_prefix(id, k).len() == k + hyphens_before(k),
    decreases k,
{
    if k > 0 {
        lemma_prefix_len(id, (k - 1) as nat);
    }
}

/// The canonical text of an identifier has 36 characters, and a hyphen at each
/// of the positions 8, 13, 18 and 23.
pub proof fn lemma_hyphenated_shape(id: u128)
    ensures
        hyphenated(id).len() == 36,
        hyphenated(id)[8] == '-',
        hyphenated(id)[13] == '-',
        hyphenated(id)[18] == '-',
        hyphenated(id)[23] == '-',
{
    lemma_prefix_len(id, 32);
    lemma_hyphen_at(id, 8);
    lemma_hyphen_at(id, 12);
    lemma_hyphen_at(id, 16);
    lemma_hyphen_at(id, 20);
}

/// A longer prefix begins with each shorter one.
proof fn lemma_prefix_grows(id: u128, k: nat, m: nat)
    requires
        k <= m,
    ensures
        hyphenated_prefix(id, k).len() <= hyphenated_prefix(id, m).len(),
        hyphenated_prefix(id, m).subrange(0, hyphenated_prefix(id, k).len() as int)
            == hyphenated_prefix(id, k),
    decreases m,
{
    if k < m {
        let shorter = (m - 1) as nat;
        lemma_prefix_grows(id, k, shorter);
        assert(hyphenated_prefix(id, m).subrange(0, hyphenated_prefix(id, k).len() as int)
            =~= hyphenated_prefix(id, shorter).subrange(
            0,
            hyphenated_prefix(id, k).len() as int,
        ));
    } else {
        assert(hyphenated_prefix(id, m).subrange(0, hyphenated_prefix(id, k).len() as int)
            =~= hyphenated_prefix(id, k));
    }
}

/// The hyphen before the digit at position `k` stands where the text of the
/// first `k` digits ends.
proof fn lemma_hyphen_at(id: u128, k: nat)
    requires
        group_starts(k),
    ensures
        hyphenated(id)[(k + hyphens_before(k)) as int] == '-',
{
    lemma_prefix_len(id, k);
    lemma_prefix_len(id, k + 1);
    lemma_prefix_grows(id, k + 1, 32);
    let longer = hyphenated_prefix(id, k + 1);
    let at = (k + hyphens_before(k)) as int;
    assert(longer[at] == '-');
    assert(hyphenated(id).subrange(0, longer.len() as int)[at] == hyphenated(id)[at]);
}

/// The character at position `i` of the text of the zero identifier.
pub open spec fn zero_char(i: int) -> char {
    if i == 8 || i == 13 || i == 18 || i == 23 {
        '-'
    } else {
        '0'
    }
}

/// Every character of the text of the zero identifier is `0`, but for the
/// hyphens.
proof fn lemma_zero_prefix(k: nat)
    ensures
        forall|i: int|
            0 <= i < hyphenated_prefix(0, k).len() ==> #[trigger] hyphenated_prefix(0, k)[i]
                == zero_char(i),
    decreases k,
{
    if k > 0 {
        let j = (k - 1) as nat;
        lemma_zero_prefix(j);
        lemma_prefix_len(0, j);
        lemma_prefix_len(0, k);
        let shift = (4 * (31 - j)) as u128;
        assert((0u128 >> shift) & 0xf == 0) by (bit_vector);
        assert(hex_char(nibble(0, j)) == '0');
        let before = hyphenated_prefix(0, j);
        let text = hyphenated_prefix(0, k);
        assert forall|i: int| 0 <= i < text.len() implies #[trigger] text[i] == zero_char(i) by {
            if i < before.len() {
                assert(text[i] == before[i]);
            }
        }
    }
}

/// The zero identifier is written as zeros.
pub proof fn lemma_zero_identifier()
    ensures
        hyphenated(0) == "00000000-0000-0000-0000-000000000000"@,
{
    reveal_strlit("00000000-0000-0000-0000-000000000000");
    lemma_zero_prefix(32);
    lemma_prefix_len(0, 32);
    assert(hyphenated(0) =~= "00000000-0000-0000-0000-000000000000"@);
}

/// The one-character text of a hexadecimal digit.
fn hex_str(n: u8) -> (digit: &'static str)
    requires
        n < 16,
    ensures
        digit@ == seq![hex_char(n)],
{
    proof {
        reveal_strlit("0");
        reveal_strlit("1");
        reveal_strlit("2");
        reveal_strlit("3");
        reveal_strlit("4");
        reveal_strlit("5");
        reveal_strlit("6");
        reveal_strlit("7");
        reveal_strlit("8");
        reveal_strlit("9");
        reveal_strlit("a");
        reveal_strlit("b");
        reveal_strlit("c");
        reveal_strlit("d");
        reveal_strlit("e");
        reveal_strlit("f");
    }
    let digit = if n == 0 {
        "0"
    } else if n == 1 {
        "1"
    } else if n == 2 {
        "2"
    } else if n == 3 {
        "3"
    } else if n == 4 {
        "4"
    } else if n == 5 {
        "5"
    } else if n == 6 {
        "6"
    } else if n == 7 {
        "7"
    } else if n == 8 {
        "8"
    } else if n == 9 {
        "9"
    } else if n == 10 {
        "a"
    } else if n == 11 {
        "b"
    } else if n == 12 {
        "c"
    } else if n == 13 {
        "d"
    } else if n == 14 {
        "e"
    } else {
        "f"
    };
    assert(digit@ =~= seq![hex_char(n)]);
    digit
}

/// Writes an identifier in its canonical form: lowercase, hyphenated, 36
/// characters.
pub fn uuid_text(id: u128) -> (text: String)
    ensures
        text@ == hyphenated(id),
        text@.len() == 36,
{
    let mut text = String::new();
    let mut k: u32 = 0;
    while k < 32
        invariant
            k <= 32,
            text@ == hyphenated_prefix(id, k as nat),
            text@.len() == k + hyphens_before(k as nat),
        decreases 32 - k,
    {
        if k == 8 || k == 12 || k == 16 || k == 20 {
            proof {
                reveal_strlit("-");
            }
            text.append("-");
            assert(text@ =~= hyphenated_prefix(id, k as nat).push('-'));
        }
        let shift: u128 = 4 * (31 - k as u128);
        let masked: u128 = (id >> shift) & 0xf;
        assert(masked < 16) by (bit_vector)
            requires
                masked == (id >> shift) & 0xf,
        ;
        let n: u8 = masked as u8;
        let ghost opened = text@;
        text.append(hex_str(n));
        assert(text@ =~= opened.push(hex_char(n)));
        k += 1;
    }
    text
}

} // verus!
