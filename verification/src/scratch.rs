//! The scratch store's naming scheme.
//!
//! The store itself is a scoped directory on disk whose creation and
//! teardown belong to the surrounding shell; eviction from the history
//! never deletes files, reclaiming is left to the directory's removal at
//! the end of the session.  What the engine owns is the *name* every
//! scratch artifact gets inside that directory: the decimal version
//! counter, an underscore, and the base file name.  Carrying the counter
//! in the name is what keeps a repeated edit at one version from silently
//! overwriting a file of another version;
//! [`lemma_allocated_names_collision_free`] pins that down.

use vstd::prelude::*;
use vstd::string::StringExecFns;

verus! {

/// The character for one decimal digit.
pub open spec fn digit_char(d: nat) -> char {
    if d == 0 {
        '0'
    } else if d == 1 {
        '1'
    } else if d == 2 {
        '2'
    } else if d == 3 {
        '3'
    } else if d == 4 {
        '4'
    } else if d == 5 {
        '5'
    } else if d == 6 {
        '6'
    } else if d == 7 {
        '7'
    } else if d == 8 {
        '8'
    } else {
        '9'
    }
}

/// The decimal digits of `n`, most significant first, without leading
/// zeros (a lone zero for zero itself).
pub open spec fn decimal_digits(n: nat) -> Seq<char>
    decreases n,
{
    if n < 10 {
        seq![digit_char(n)]
    } else {
        decimal_digits(n / 10).push(digit_char(n % 10))
    }
}

/// The numeric value of one digit character; the inverse of
/// [`digit_char`] on digits.
pub open spec fn char_value(c: char) -> nat {
    if c == '0' {
        0
    } else if c == '1' {
        1
    } else if c == '2' {
        2
    } else if c == '3' {
        3
    } else if c == '4' {
        4
    } else if c == '5' {
        5
    } else if c == '6' {
        6
    } else if c == '7' {
        7
    } else if c == '8' {
        8
    } else {
        9
    }
}

/// The value a digit string denotes; the inverse of [`decimal_digits`].
pub open spec fn decimal_value(s: Seq<char>) -> nat
    decreases s.len(),
{
    if s.len() == 0 {
        0
    } else {
        decimal_value(s.drop_last()) * 10 + char_value(s.last())
    }
}

/// The file name an artifact of version `v` gets for a session on base
/// file `name`.
pub open spec fn artifact_name(v: u64, name: Seq<char>) -> Seq<char> {
    decimal_digits(v as nat) + seq!['_'] + name
}

/// Reading back the digits of `n` yields `n`: the decimal rendering
/// loses nothing.
pub proof fn lemma_decimal_digits_value(n: nat)
    ensures
        decimal_value(decimal_digits(n)) == n,
    decreases n,
{
    if n < 10 {
        let d = decimal_digits(n);
        assert(d == seq![digit_char(n)]);
        assert(d.len() == 1);
        assert(d.last() == digit_char(n));
        assert(d.drop_last() =~= Seq::<char>::empty());
        assert(decimal_value(d.drop_last()) == 0);
        assert(char_value(digit_char(n)) == n);
    } else {
        lemma_decimal_digits_value(n / 10);
        let d = decimal_digits(n);
        assert(d == decimal_digits(n / 10).push(digit_char(n % 10)));
        assert(d.drop_last() =~= decimal_digits(n / 10));
        assert(d.last() == digit_char(n % 10));
        assert(char_value(digit_char(n % 10)) == n % 10);
        assert(decimal_value(d) == (n / 10) * 10 + n % 10);
        assert(n / 10 * 10 + n % 10 == n) by (nonlinear_arith);
    }
}

/// For one base name, distinct versions always derive distinct scratch
/// file names: the version number carried in the name rules collisions
/// out.
pub proof fn lemma_allocated_names_collision_free(v1: u64, v2: u64, name: Seq<char>)
    requires
        artifact_name(v1, name) == artifact_name(v2, name),
    ensures
        v1 == v2,
{
    let d1 = decimal_digits(v1 as nat);
    let d2 = decimal_digits(v2 as nat);
    let a1 = artifact_name(v1, name);
    let a2 = artifact_name(v2, name);
    assert(a1.len() == d1.len() + 1 + name.len());
    assert(a2.len() == d2.len() + 1 + name.len());
    assert(d1.len() == d2.len());
    assert forall|i: int| 0 <= i < d1.len() implies d1[i] == d2[i] by {
        assert(artifact_name(v1, name)[i] == d1[i]);
        assert(artifact_name(v2, name)[i] == d2[i]);
    }
    assert(d1 =~= d2);
    lemma_decimal_digits_value(v1 as nat);
    lemma_decimal_digits_value(v2 as nat);
}

/// The string for one digit.
fn digit_str(d: u64) -> (r: &'static str)
    requires
        d < 10,
    ensures
        r@ == seq![digit_char(d as nat)],
{
    proof {
        reveal_strlit("0");
        reveal_strlit("1");
        reveal_strlit("2");
        reveal_strlit("3");
        reveal_strlit("4");
        reveal_strlit("5");
        reveal_strlit("6");
        reveal_strlit("7");
        reveal_strlit("8");
        reveal_strlit("9");
    }
    let r = match d {
        0 => "0",
        1 => "1",
        2 => "2",
        3 => "3",
        4 => "4",
        5 => "5",
        6 => "6",
        7 => "7",
        8 => "8",
        _ => "9",
    };
    proof {
        assert(r@ =~= seq![digit_char(d as nat)]);
    }
    r
}

/// The decimal rendering of `n`, as [`decimal_digits`] describes it.
fn decimal_string(n: u64) -> (r: String)
    ensures
        r@ == decimal_digits(n as nat),
    decreases n,
{
    if n < 10 {
        String::from_str(digit_str(n))
    } else {
        let mut r = decimal_string(n / 10);
        r.append(digit_str(n % 10));
        proof {
            assert(r@ =~= decimal_digits(n as nat));
        }
        r
    }
}

/// Derives the scratch file name for version `version` of `base_name`:
/// the decimal counter, an underscore, and the base name — deterministic
/// in its two arguments, and distinct across versions by
/// [`lemma_allocated_names_collision_free`].  The shell joins it onto the
/// scoped directory it owns.
pub fn allocate_name(version: u64, base_name: &str) -> (r: String)
    ensures
        r@ == artifact_name(version, base_name@),
{
    proof {
        reveal_strlit("_");
    }
    let mut r = decimal_string(version);
    r.append("_");
    r.append(base_name);
    proof {
        assert(r@ =~= artifact_name(version, base_name@));
    }
    r
}

} // verus!
