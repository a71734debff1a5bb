use vstd::prelude::*;

verus! {

/// The characters that stand for decimal digits.
pub open spec fn is_digit(c: char) -> bool {
    c == '0' || c == '1' || c == '2' || c == '3' || c == '4' || c == '5' || c == '6' || c == '7'
        || c == '8' || c == '9'
}

/// The value of a digit character (meaningful only when `is_digit` holds).
pub open spec fn digit_val(c: char) -> nat {
    if c == '0' {
        0
    } else if c == '1' {
        1
    } else if c == '2' {
        2
    } else if c == '3' {
        3
    } else if c == '4' {
        4
    } else if c == '5' {
        5
    } else if c == '6' {
        6
    } else if c == '7' {
        7
    } else if c == '8' {
        8
    } else {
        9
    }
}

/// Seconds per unit suffix; zero marks a character that is no unit.
pub open spec fn unit_factor(c: char) -> nat {
    if c == 's' {
        1
    } else if c == 'm' {
        60
    } else if c == 'h' {
        3600
    } else {
        0
    }
}

/// Whether the text ends in a unit suffix.
pub open spec fn has_unit(s: Seq<char>) -> bool {
    s.len() > 0 && unit_factor(s.last()) != 0
}

/// The numeric part of the text: everything before the unit suffix.
pub open spec fn digits_part(s: Seq<char>) -> Seq<char> {
    if has_unit(s) {
        s.drop_last()
    } else {
        s
    }
}

/// Seconds per counted unit: the suffix decides; a bare number counts minutes.
pub open spec fn duration_factor(s: Seq<char>) -> nat {
    if has_unit(s) {
        unit_factor(s.last())
    } else {
        60
    }
}

pub open spec fn all_digits(s: Seq<char>) -> bool {
    forall|i: int| 0 <= i < s.len() ==> is_digit(#[trigger] s[i])
}

/// The number a string of digit characters denotes, most significant first.
pub open spec fn digits_val(s: Seq<char>) -> nat
    decreases s.len(),
{
    if s.len() == 0 {
        0
    } else {
        digits_val(s.drop_last()) * 10 + digit_val(s.last())
    }
}

/// The duration grammar: one or more digits followed by an optional unit
/// suffix (`s`, `m` or `h`); a bare number counts minutes. The result is the
/// duration in seconds, or nothing when the text is malformed.
pub open spec fn spec_duration_seconds(s: Seq<char>) -> Option<nat> {
    if digits_part(s).len() > 0 && all_digits(digits_part(s)) {
        Option::Some(digits_val(digits_part(s)) * duration_factor(s))
    } else {
        Option::None
    }
}

/// The digit value of a character, or nothing when it is no digit.
fn char_digit(c: char) -> (r: Option<u64>)
    ensures
        r is Some <==> is_digit(c),
        r matches Some(d) ==> d == digit_val(c),
{
    match c {
        '0' => Option::Some(0),
        '1' => Option::Some(1),
        '2' => Option::Some(2),
        '3' => Option::Some(3),
        '4' => Option::Some(4),
        '5' => Option::Some(5),
        '6' => Option::Some(6),
        '7' => Option::Some(7),
        '8' => Option::Some(8),
        '9' => Option::Some(9),
        _ => Option::None,
    }
}

proof fn lemma_digits_val_step(s: Seq<char>, i: int)
    requires
        0 <= i < s.len(),
    ensures
        digits_val(s.subrange(0, i + 1)) == digits_val(s.subrange(0, i)) * 10 + digit_val(s[i]),
{
    let t = s.subrange(0, i + 1);
    assert(t.drop_last() =~= s.subrange(0, i));
    assert(t.last() == s[i]);
}

/// A longer string of digits never denotes a smaller number.
proof fn lemma_digits_val_prefix_mono(s: Seq<char>, i: int, j: int)
    requires
        0 <= i <= j <= s.len(),
    ensures
        digits_val(s.subrange(0, i)) <= digits_val(s.subrange(0, j)),
    decreases j - i,
{
    if i < j {
        lemma_digits_val_prefix_mono(s, i, j - 1);
        lemma_digits_val_step(s, j - 1);
    }
}

/// Parses a configured duration. Returns the number of seconds exactly when
/// the text fits the grammar and the value fits the machine word; otherwise
/// nothing.
pub fn parse_duration(s: &str) -> (r: Option<u64>)
    ensures
        (match spec_duration_seconds(s@) {
            Option::Some(v) => if v <= u64::MAX {
                r matches Some(x) && x == v
            } else {
                r is None
            },
            Option::None => r is None,
        }),
{
    let n = s.unicode_len();
    if n == 0 {
        return Option::None;
    }
    let last = s.get_char(n - 1);
    let has_suffix: bool = last == 's' || last == 'm' || last == 'h';
    let factor: u64 = if last == 's' {
        1
    } else if last == 'h' {
        3600
    } else {
        60
    };
    let digits_end: usize = if has_suffix {
        n - 1
    } else {
        n
    };
    proof {
        assert(s@.last() == last);
        assert(digits_part(s@) =~= s@.subrange(0, digits_end as int));
        assert(duration_factor(s@) == factor);
    }
    if digits_end == 0 {
        return Option::None;
    }
    let mut value: u64 = 0;
    let mut i: usize = 0;
    while i < digits_end
        invariant
            i <= digits_end,
            digits_end <= n,
            n == s@.len(),
            digits_part(s@) =~= s@.subrange(0, digits_end as int),
            duration_factor(s@) == factor,
            1 <= factor <= 3600,
            value == digits_val(s@.subrange(0, i as int)),
            forall|j: int| 0 <= j < i ==> is_digit(#[trigger] s@[j]),
        decreases digits_end - i,
    {
        let c = s.get_char(i);
        match char_digit(c) {
            Option::Some(d) => {
                proof {
                    lemma_digits_val_step(s@, i as int);
                }
                let grown: Option<u64> = match value.checked_mul(10) {
                    Option::Some(v10) => v10.checked_add(d),
                    Option::None => Option::None,
                };
                match grown {
                    Option::Some(v) => {
                        value = v;
                    },
                    Option::None => {
                        proof {
                            lemma_digits_val_prefix_mono(s@, i + 1, digits_end as int);
                            let dv = digits_val(digits_part(s@));
                            let f = duration_factor(s@);
                            assert(dv > u64::MAX);
                            assert(dv * f >= dv) by (nonlinear_arith)
                                requires
                                    f >= 1,
                                    dv >= 0,
                            ;
                        }
                        return Option::None;
                    },
                }
            },
            Option::None => {
                proof {
                    assert(digits_part(s@)[i as int] == s@[i as int]);
                    assert(!all_digits(digits_part(s@)));
                }
                return Option::None;
            },
        }
        i = i + 1;
    }
    proof {
        assert(all_digits(digits_part(s@)));
        assert(value == digits_val(digits_part(s@)));
    }
    match value.checked_mul(factor) {
        Option::Some(total) => Option::Some(total),
        Option::None => Option::None,
    }
}

} // verus!
