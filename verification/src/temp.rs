use vstd::prelude::*;

verus! {

use vstd::string::StringExecFns;
use crate::errors::ErrorKind;

// ------------------------------------------------------------------
// Decimal rendering of the millisecond suffix
// ------------------------------------------------------------------

/// The character for one decimal digit.
pub open spec fn digit_char(d: nat) -> char {
    if d == 0 {
        '0'
    } else if d == 1 {
        '1'
    } else if d == 2 {
        '2'
    } else if d == 3 {
        '3'
    } else if d == 4 {
        '4'
    } else if d == 5 {
        '5'
    } else if d == 6 {
        '6'
    } else if d == 7 {
        '7'
    } else if d == 8 {
        '8'
    } else {
        '9'
    }
}

/// The decimal digits of `n`, most significant first, with no leading zero
/// except for `n == 0` itself.
pub open spec fn dec_digits(n: nat) -> Seq<char>
    decreases n,
{
    if n < 10 {
        seq![digit_char(n)]
    } else {
        dec_digits(n / 10).push(digit_char(n % 10))
    }
}

/// The numeric value of one decimal digit character.
pub open spec fn digit_val(c: char) -> nat {
    if c == '0' {
        0
    } else if c == '1' {
        1
    } else if c == '2' {
        2
    } else if c == '3' {
        3
    } else if c == '4' {
        4
    } else if c == '5' {
        5
    } else if c == '6' {
        6
    } else if c == '7' {
        7
    } else if c == '8' {
        8
    } else {
        9
    }
}

/// The number a digit string denotes, read most significant first.
pub open spec fn dec_val(s: Seq<char>) -> nat
    decreases s.len(),
{
    if s.len() == 0 {
        0
    } else {
        dec_val(s.drop_last()) * 10 + digit_val(s.last())
    }
}

/// Rendering a number and reading the digits back returns the number:
/// the decimal rendering is faithful.
pub proof fn lemma_dec_digits_val(n: nat)
    ensures
        dec_val(dec_digits(n)) == n,
        dec_digits(n).len() >= 1,
    decreases n,
{
    if n < 10 {
        let s = dec_digits(n);
        assert(s.drop_last() =~= Seq::<char>::empty());
        assert(dec_val(Seq::<char>::empty()) == 0);
        assert(s.last() == digit_char(n));
        assert(dec_val(s) == digit_val(digit_char(n)));
    } else {
        lemma_dec_digits_val(n / 10);
        let s = dec_digits(n);
        assert(s.drop_last() =~= dec_digits(n / 10));
        assert(digit_val(digit_char(n % 10)) == n % 10);
        vstd::arithmetic::div_mod::lemma_fundamental_div_mod(n as int, 10);
    }
}

/// Distinct numbers render to distinct digit strings.
pub proof fn lemma_dec_digits_injective(a: nat, b: nat)
    requires
        dec_digits(a) == dec_digits(b),
    ensures
        a == b,
{
    lemma_dec_digits_val(a);
    lemma_dec_digits_val(b);
}

/// The decimal rendering of `d`, for one digit.
fn digit_str(d: u64) -> (r: &'static str)
    requires
        d < 10,
    ensures
        r@ == seq![digit_char(d as nat)],
{
    if d == 0 {
        proof {
            reveal_strlit("0");
            assert("0"@ =~= seq![digit_char(0)]);
        }
        "0"
    } else if d == 1 {
        proof {
            reveal_strlit("1");
            assert("1"@ =~= seq![digit_char(1)]);
        }
        "1"
    } else if d == 2 {
        proof {
            reveal_strlit("2");
            assert("2"@ =~= seq![digit_char(2)]);
        }
        "2"
    } else if d == 3 {
        proof {
            reveal_strlit("3");
            assert("3"@ =~= seq![digit_char(3)]);
        }
        "3"
    } else if d == 4 {
        proof {
            reveal_strlit("4");
            assert("4"@ =~= seq![digit_char(4)]);
        }
        "4"
    } else if d == 5 {
        proof {
            reveal_strlit("5");
            assert("5"@ =~= seq![digit_char(5)]);
        }
        "5"
    } else if d == 6 {
        proof {
            reveal_strlit("6");
            assert("6"@ =~= seq![digit_char(6)]);
        }
        "6"
    } else if d == 7 {
        proof {
            reveal_strlit("7");
            assert("7"@ =~= seq![digit_char(7)]);
        }
        "7"
    } else if d == 8 {
        proof {
            reveal_strlit("8");
            assert("8"@ =~= seq![digit_char(8)]);
        }
        "8"
    } else {
        proof {
            reveal_strlit("9");
            assert("9"@ =~= seq![digit_char(9)]);
        }
        "9"
    }
}

/// Appends the decimal rendering of `n` to `s`.
fn push_decimal(s: &mut String, n: u64)
    ensures
        final(s)@ == old(s)@ + dec_digits(n as nat),
    decreases n,
{
    if n >= 10 {
        push_decimal(s, n / 10);
    }
    let d = digit_str(n % 10);
    s.append(d);
    proof {
        if n < 10 {
            assert(dec_digits(n as nat) =~= seq![digit_char(n as nat)]);
        } else {
            assert(dec_digits((n / 10) as nat).push(digit_char((n % 10) as nat)) =~= dec_digits(
                (n / 10) as nat,
            ) + seq![digit_char((n % 10) as nat)]);
        }
    }
}

// ------------------------------------------------------------------
// Temp resource names
// ------------------------------------------------------------------

/// The name of a temp resource: `{prefix}-{millis}.{extension}`.
pub open spec fn temp_name_seq(prefix: Seq<char>, millis: u64, extension: Seq<char>) -> Seq<char> {
    prefix + "-"@ + dec_digits(millis as nat) + "."@ + extension
}

/// Builds `{prefix}-{millis}.{extension}`.
pub fn temp_file_name(prefix: &str, millis: u64, extension: &str) -> (r: String)
    ensures
        r@ == temp_name_seq(prefix@, millis, extension@),
{
    let mut r = prefix.to_owned();
    r.append("-");
    push_decimal(&mut r, millis);
    r.append(".");
    r.append(extension);
    r
}

/// A file name placed under a directory, separated by a slash.
pub open spec fn joined_path_seq(dir: Seq<char>, name: Seq<char>) -> Seq<char> {
    dir + "/"@ + name
}

/// Places `name` under `dir`.
pub fn join_path(dir: &str, name: &str) -> (r: String)
    ensures
        r@ == joined_path_seq(dir@, name@),
{
    let mut r = dir.to_owned();
    r.append("/");
    r.append(name);
    r
}

/// Allocates the path of a fresh temp resource under `dir`, its name derived
/// from the clock reading `now_millis` (`None` when the system clock was
/// unusable, the one way allocation can fail).
pub fn allocate(dir: &str, prefix: &str, now_millis: Option<u64>, extension: &str) -> (r: Result<
    String,
    ErrorKind,
>)
    ensures
        match r {
            Ok(path) => now_millis matches Some(m) && path@ == joined_path_seq(
                dir@,
                temp_name_seq(prefix@, m, extension@),
            ),
            Err(e) => now_millis is None && e == ErrorKind::TimeError,
        },
{
    match now_millis {
        Some(m) => {
            let name = temp_file_name(prefix, m, extension);
            Ok(join_path(dir, name.as_str()))
        },
        None => Err(ErrorKind::TimeError),
    }
}

// ------------------------------------------------------------------
// Uniqueness of temp resource names
// ------------------------------------------------------------------

/// Law: for a fixed prefix and extension, the millisecond suffix can be read
/// back out of a temp resource name — equal names mean equal clock readings.
pub proof fn lemma_temp_name_injective(prefix: Seq<char>, m1: u64, m2: u64, ext: Seq<char>)
    requires
        temp_name_seq(prefix, m1, ext) == temp_name_seq(prefix, m2, ext),
    ensures
        m1 == m2,
{
    let d1 = dec_digits(m1 as nat);
    let d2 = dec_digits(m2 as nat);
    let head = prefix + "-"@;
    let n1 = temp_name_seq(prefix, m1, ext);
    let n2 = temp_name_seq(prefix, m2, ext);
    assert(n1.len() == head.len() + d1.len() + "."@.len() + ext.len());
    assert(n2.len() == head.len() + d2.len() + "."@.len() + ext.len());
    assert(d1.len() == d2.len());
    assert forall|i: int| 0 <= i < d1.len() implies d1[i] == d2[i] by {
        assert(n1[head.len() + i] == d1[i]);
        assert(n2[head.len() + i] == d2[i]);
    }
    assert(d1 =~= d2);
    lemma_dec_digits_injective(m1 as nat, m2 as nat);
}

/// Law: temp resource names are unique across calls whose clock readings
/// differ — in particular across calls at least one millisecond apart.
pub proof fn lemma_temp_names_unique(prefix: Seq<char>, m1: u64, m2: u64, ext: Seq<char>)
    requires
        m1 != m2,
    ensures
        temp_name_seq(prefix, m1, ext) != temp_name_seq(prefix, m2, ext),
{
    if temp_name_seq(prefix, m1, ext) == temp_name_seq(prefix, m2, ext) {
        lemma_temp_name_injective(prefix, m1, m2, ext);
    }
}

} // verus!
