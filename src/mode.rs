use vstd::prelude::*;

verus! {

/// Why a permission-mode setting was refused at startup.
#[derive(Clone, Copy, Debug, PartialEq, Eq, Structural)]
pub enum ModeError {
    /// The setting is empty.
    Empty,
    /// A character is not an octal digit, or a sign stands alone.
    InvalidDigit,
    /// The number does not fit in 32 bits.
    Overflow,
}

pub open spec fn is_octal_digit(c: char) -> bool {
    '0' <= c && c <= '7'
}

pub open spec fn all_octal(ds: Seq<char>) -> bool {
    forall|i: int| 0 <= i < ds.len() ==> is_octal_digit(#[trigger] ds[i])
}

/// The number that a string of octal digits writes, most significant first.
pub open spec fn octal_value(ds: Seq<char>) -> nat
    decreases ds.len(),
{
    if ds.len() == 0 {
        0
    } else {
        octal_value(ds.drop_last()) * 8 + (ds.last() as nat - '0' as nat) as nat
    }
}

/// The digits of a mode setting: what follows an optional leading `+`.
pub open spec fn mode_digits(s: Seq<char>) -> Seq<char> {
    if s.len() > 0 && s[0] == '+' {
        s.subrange(1, s.len() as int)
    } else {
        s
    }
}

/// A mode setting is accepted when its digits are octal, at least one, and
/// their value fits in a `u32`.
pub open spec fn valid_mode(s: Seq<char>) -> bool {
    let ds = mode_digits(s);
    ds.len() > 0 && all_octal(ds) && octal_value(ds) <= u32::MAX
}

proof fn lemma_octal_value_grows(ds: Seq<char>, k: int)
    requires
        0 <= k <= ds.len(),
        all_octal(ds),
    ensures
        octal_value(ds.subrange(0, k)) <= octal_value(ds),
    decreases ds.len() - k,
{
    if k < ds.len() {
        let p = ds.subrange(0, k + 1);
        assert(p.drop_last() =~= ds.subrange(0, k));
        assert(is_octal_digit(ds[k]));
        lemma_octal_value_grows(ds, k + 1);
    } else {
        assert(ds.subrange(0, k) =~= ds);
    }
}

/// Reads a permission mode written in octal (`"644"`), as `u32::from_str_radix`
/// with radix 8 reads it.
pub fn parse_mode(s: &str) -> (r: Result<u32, ModeError>)
    ensures
        r matches Ok(v) ==> valid_mode(s@) && v as nat == octal_value(mode_digits(s@)),
        r is Err <==> !valid_mode(s@),
{
    let len = s.unicode_len();
    let mut start: usize = 0;
    if len > 0 && s.get_char(0) == '+' {
        start = 1;
    }
    let ghost ds = mode_digits(s@);
    assert(ds =~= s@.subrange(start as int, len as int));
    if len == 0 {
        return Err(ModeError::Empty);
    }
    if start == len {
        return Err(ModeError::InvalidDigit);
    }
    let mut acc: u32 = 0;
    let mut i: usize = start;
    while i < len
        invariant
            start <= i <= len,
            len == s@.len(),
            ds == s@.subrange(start as int, len as int),
            ds == mode_digits(s@),
            all_octal(ds.subrange(0, i - start)),
            acc as nat == octal_value(ds.subrange(0, i - start)),
        decreases len - i,
    {
        let c = s.get_char(i);
        let ghost k = i - start;
        assert(ds[k] == c);
        if c < '0' || c > '7' {
            assert(!all_octal(ds));
            return Err(ModeError::InvalidDigit);
        }
        let d: u32 = (c as u32) - ('0' as u32);
        let ghost next = ds.subrange(0, k + 1);
        assert(next.drop_last() =~= ds.subrange(0, k));
        assert(all_octal(next));
        if acc > (u32::MAX - d) / 8 {
            assert(octal_value(next) > u32::MAX) by (nonlinear_arith)
                requires
                    octal_value(next) == acc * 8 + d,
                    acc > (u32::MAX - d) / 8,
                    d <= 7,
            ;
            proof {
                if all_octal(ds) {
                    lemma_octal_value_grows(ds, k + 1);
                }
            }
            return Err(ModeError::Overflow);
        }
        assert(acc * 8 + d <= u32::MAX) by (nonlinear_arith)
            requires
                acc <= (u32::MAX - d) / 8,
                d <= 7,
        ;
        acc = acc * 8 + d;
        i = i + 1;
    }
    assert(ds.subrange(0, len - start) =~= ds);
    Ok(acc)
}

} // verus!
