use vstd::prelude::*;
use vstd::string::StrSliceExecFns;

verus! {

pub open spec fn is_digit(c: char) -> bool {
    '0' <= c && c <= '9'
}

pub open spec fn digit_value(c: char) -> nat {
    (c as u32 - '0' as u32) as nat
}

pub open spec fn all_digits(s: Seq<char>) -> bool {
    forall|i: int| 0 <= i < s.len() ==> is_digit(#[trigger] s[i])
}

/// The number that a string of decimal digits stands for.
pub open spec fn digits_value(s: Seq<char>) -> nat
    decreases s.len(),
{
    if s.len() == 0 {
        0
    } else {
        digits_value(s.drop_last()) * 10 + digit_value(s.last())
    }
}

/// A whole-number field: its value when it is a nonempty string of digits whose
/// value fits in a `u32`, and zero otherwise.
pub open spec fn field_value(s: Seq<char>) -> nat {
    if s.len() > 0 && all_digits(s) && digits_value(s) <= u32::MAX {
        digits_value(s)
    } else {
        0
    }
}

/// A fraction of a second, cut or padded to three digits, in milliseconds; zero
/// when it holds anything but digits.
pub open spec fn fraction_millis(s: Seq<char>) -> nat {
    if !all_digits(s) {
        0
    } else if s.len() == 0 {
        0
    } else if s.len() == 1 {
        digits_value(s) * 100
    } else if s.len() == 2 {
        digits_value(s) * 10
    } else {
        digits_value(s.take(3))
    }
}

/// The pieces of `s` between occurrences of `sep`; one piece when `sep` does not occur.
pub open spec fn split_on(s: Seq<char>, sep: char) -> Seq<Seq<char>>
    decreases s.len(),
{
    if s.len() == 0 {
        seq![Seq::<char>::empty()]
    } else {
        let rest = split_on(s.drop_last(), sep);
        if s.last() == sep {
            rest.push(Seq::<char>::empty())
        } else {
            rest.update(rest.len() - 1, rest.last().push(s.last()))
        }
    }
}

proof fn lemma_split_nonempty(s: Seq<char>, sep: char)
    ensures
        split_on(s, sep).len() >= 1,
    decreases s.len(),
{
    if s.len() > 0 {
        lemma_split_nonempty(s.drop_last(), sep);
    }
}

/// The time that a text of the form `[[H:]M:]S[.fraction]` gives, in milliseconds.
/// Fields that are not whole numbers count as zero. `None` when the text is empty,
/// has more than three fields, or gives a time beyond the range of a `u32`.
pub open spec fn time_input_value(text: Seq<char>) -> Option<nat> {
    let fields = split_on(text, ':');
    let last = split_on(fields.last(), '.');
    let seconds = field_value(last[0]);
    let millis = if last.len() == 2 {
        fraction_millis(last[1])
    } else {
        0
    };
    let minutes = if fields.len() >= 2 {
        field_value(fields[fields.len() - 2])
    } else {
        0
    };
    let hours = if fields.len() == 3 {
        field_value(fields[0])
    } else {
        0
    };
    let total = (hours * 3600 + minutes * 60 + seconds) * 1000 + millis;
    if text.len() == 0 || fields.len() > 3 || total > u32::MAX {
        None
    } else {
        Some(total)
    }
}

fn chars_of(text: &str) -> (r: Vec<char>)
    ensures
        r@ == text@,
{
    let n = text.unicode_len();
    let mut r: Vec<char> = Vec::new();
    let mut i: usize = 0;
    while i < n
        invariant
            n == text@.len(),
            i <= n,
            r@ == text@.take(i as int),
        decreases n - i,
    {
        r.push(text.get_char(i));
        i = i + 1;
        assert(r@ =~= text@.take(i as int));
    }
    assert(text@.take(n as int) =~= text@);
    r
}

fn split_chars(s: &Vec<char>, sep: char) -> (r: Vec<Vec<char>>)
    ensures
        r@.map_values(|f: Vec<char>| f@) == split_on(s@, sep),
{
    let mut fields: Vec<Vec<char>> = Vec::new();
    let mut current: Vec<char> = Vec::new();
    let mut i: usize = 0;
    assert(s@.take(0) =~= Seq::<char>::empty());
    assert(fields@.map_values(|f: Vec<char>| f@).push(current@) =~= split_on(s@.take(0), sep));
    while i < s.len()
        invariant
            i <= s@.len(),
            fields@.map_values(|f: Vec<char>| f@).push(current@) == split_on(s@.take(i as int), sep),
        decreases s@.len() - i,
    {
        let c = s[i];
        let ghost before = split_on(s@.take(i as int), sep);
        assert(s@.take(i + 1).drop_last() =~= s@.take(i as int));
        if c == sep {
            fields.push(current);
            current = Vec::new();
            assert(fields@.map_values(|f: Vec<char>| f@).push(current@) =~= before.push(
                Seq::<char>::empty(),
            ));
        } else {
            current.push(c);
            assert(fields@.map_values(|f: Vec<char>| f@).push(current@) =~= before.update(
                before.len() - 1,
                before.last().push(c),
            ));
        }
        i = i + 1;
    }
    assert(s@.take(s@.len() as int) =~= s@);
    fields.push(current);
    assert(fields@.map_values(|f: Vec<char>| f@) =~= split_on(s@, sep));
    fields
}

proof fn lemma_prefix_value_le(s: Seq<char>, i: int)
    requires
        0 <= i <= s.len(),
    ensures
        digits_value(s.take(i)) <= digits_value(s),
    decreases s.len(),
{
    if i < s.len() {
        assert(s.drop_last().take(i) =~= s.take(i));
        lemma_prefix_value_le(s.drop_last(), i);
    } else {
        assert(s.take(i) =~= s);
    }
}

fn whole_field(s: &Vec<char>) -> (r: u32)
    ensures
        r == field_value(s@),
{
    if s.len() == 0 {
        return 0;
    }
    let mut acc: u64 = 0;
    let mut i: usize = 0;
    while i < s.len()
        invariant
            i <= s@.len(),
            s@.len() > 0,
            all_digits(s@.take(i as int)),
            acc == digits_value(s@.take(i as int)),
            acc <= u32::MAX,
        decreases s@.len() - i,
    {
        let c = s[i];
        if !('0' <= c && c <= '9') {
            assert(!is_digit(s@[i as int]));
            return 0;
        }
        assert(s@.take(i + 1).drop_last() =~= s@.take(i as int));
        let next: u64 = acc * 10 + (c as u32 - '0' as u32) as u64;
        if next > u32::MAX as u64 {
            proof {
                if all_digits(s@) {
                    lemma_prefix_value_le(s@, i + 1);
                }
            }
            return 0;
        }
        acc = next;
        i = i + 1;
    }
    assert(s@.take(s@.len() as int) =~= s@);
    acc as u32
}

fn fraction_field(s: &Vec<char>) -> (r: u32)
    ensures
        r == fraction_millis(s@),
        r < 1000,
{
    let mut i: usize = 0;
    while i < s.len()
        invariant
            i <= s@.len(),
            all_digits(s@.take(i as int)),
        decreases s@.len() - i,
    {
        let c = s[i];
        if !('0' <= c && c <= '9') {
            assert(!is_digit(s@[i as int]));
            return 0;
        }
        assert(s@.take(i + 1).drop_last() =~= s@.take(i as int));
        i = i + 1;
    }
    assert(s@.take(s@.len() as int) =~= s@);
    let k: usize = if s.len() > 3 {
        3
    } else {
        s.len()
    };
    let mut acc: u32 = 0;
    let mut j: usize = 0;
    while j < k
        invariant
            k <= 3,
            k <= s@.len(),
            j <= k,
            all_digits(s@),
            acc == digits_value(s@.take(j as int)),
            acc < if j == 0 {
                1u32
            } else if j == 1 {
                10u32
            } else if j == 2 {
                100u32
            } else {
                1000u32
            },
        decreases k - j,
    {
        let c = s[j];
        assert(s@.take(j + 1).drop_last() =~= s@.take(j as int));
        assert(is_digit(s@[j as int]));
        acc = acc * 10 + (c as u32 - '0' as u32);
        j = j + 1;
    }
    if s.len() <= 3 {
        assert(s@.take(k as int) =~= s@);
    }
    if k == 0 {
        0
    } else if k == 1 {
        acc * 100
    } else if k == 2 {
        acc * 10
    } else {
        acc
    }
}

/// Reads a time typed as `[[H:]M:]S[.fraction]` into milliseconds. Fields that
/// are not whole numbers count as zero; the fraction is cut or padded to three
/// digits. `None` when the text is empty, has more than three fields, or gives a
/// time beyond the range of a `u32`.
pub fn parse_time_input(text: &str) -> (r: Option<u32>)
    ensures
        match r {
            Some(t) => time_input_value(text@) == Some(t as nat),
            None => time_input_value(text@) is None,
        },
{
    let chars = chars_of(text);
    if chars.len() == 0 {
        return None;
    }
    let fields = split_chars(&chars, ':');
    let ghost fv = fields@.map_values(|f: Vec<char>| f@);
    proof {
        lemma_split_nonempty(chars@, ':');
    }
    let n = fields.len();
    if n > 3 {
        return None;
    }
    let last = split_chars(&fields[n - 1], '.');
    let ghost lv = last@.map_values(|f: Vec<char>| f@);
    proof {
        lemma_split_nonempty(fv.last(), '.');
        assert(fields@[n - 1]@ == fv.last());
        assert(lv[0] == last@[0]@);
    }
    let seconds: u64 = whole_field(&last[0]) as u64;
    let millis: u64 = if last.len() == 2 {
        assert(lv[1] == last@[1]@);
        fraction_field(&last[1]) as u64
    } else {
        0
    };
    let minutes: u64 = if n >= 2 {
        assert(fv[n - 2] == fields@[n - 2]@);
        whole_field(&fields[n - 2]) as u64
    } else {
        0
    };
    let hours: u64 = if n == 3 {
        assert(fv[0] == fields@[0]@);
        whole_field(&fields[0]) as u64
    } else {
        0
    };
    let total: u64 = (hours * 3600 + minutes * 60 + seconds) * 1000 + millis;
    if total > u32::MAX as u64 {
        None
    } else {
        Some(total as u32)
    }
}

} // verus!
