//! Reading the settings of a binding from the words that a layout attribute
//! gives for them.

use vstd::prelude::*;
use vstd::string::StrSliceExecFns;

verus! {

/// The shader stages that can see a binding.
#[derive(Clone, Copy, Debug, PartialEq, Eq, Structural)]
pub enum Visibility {
    /// No stage at all.
    Hidden,
    Vertex,
    Compute,
    Fragment,
    VertexFragment,
}

/// The stages that `name` stands for, if it is one of the five names.
pub open spec fn visibility_spec(name: Seq<char>) -> Option<Visibility> {
    if name == "none"@ {
        Some(Visibility::Hidden)
    } else if name == "vertex"@ {
        Some(Visibility::Vertex)
    } else if name == "compute"@ {
        Some(Visibility::Compute)
    } else if name == "fragment"@ {
        Some(Visibility::Fragment)
    } else if name == "vertex_fragment"@ {
        Some(Visibility::VertexFragment)
    } else {
        None
    }
}

/// The value of the decimal digit `c`, if it is one.
pub open spec fn digit(c: char) -> Option<nat> {
    if '0' <= c <= '9' {
        Some((c as nat - '0' as nat) as nat)
    } else {
        None
    }
}

/// Whether `text` is made of decimal digits only.
pub open spec fn all_digits(text: Seq<char>) -> bool {
    forall|i: int| 0 <= i < text.len() ==> digit(#[trigger] text[i]).is_some()
}

/// The number that the decimal digits `text` write.
pub open spec fn decimal(text: Seq<char>) -> nat
    decreases text.len(),
{
    if text.len() == 0 {
        0
    } else {
        10 * decimal(text.drop_last()) + digit(text.last()).unwrap()
    }
}

/// The number that `text` writes: decimal digits, at least one, with or
/// without a plus sign in front. There is none if `text` is anything else,
/// or if the number is too large.
pub open spec fn number_spec(text: Seq<char>) -> Option<u32> {
    let digits = if text.len() > 0 && text[0] == '+' {
        text.drop_first()
    } else {
        text
    };
    if digits.len() > 0 && all_digits(digits) && decimal(digits) <= u32::MAX {
        Some(decimal(digits) as u32)
    } else {
        None
    }
}

/// The array length that `text` asks of a binding: `none` for a binding that
/// is no array, or a number. The outer `None` says that `text` is neither.
pub open spec fn count_spec(text: Seq<char>) -> Option<Option<u32>> {
    if text == "none"@ {
        Some(None)
    } else {
        match number_spec(text) {
            Some(count) => Some(Some(count)),
            None => None,
        }
    }
}

/// Whether two texts are the same.
fn same(left: &str, right: &str) -> (equal: bool)
    ensures
        equal == (left@ == right@),
{
    left.to_owned() == right.to_owned()
}

/// The stages that a binding is visible to, from the name given for them in
/// lower case.
pub fn parse_visibility(name: &str) -> (found: Option<Visibility>)
    ensures
        found == visibility_spec(name@),
{
    if same(name, "none") {
        Some(Visibility::Hidden)
    } else if same(name, "vertex") {
        Some(Visibility::Vertex)
    } else if same(name, "compute") {
        Some(Visibility::Compute)
    } else if same(name, "fragment") {
        Some(Visibility::Fragment)
    } else if same(name, "vertex_fragment") {
        Some(Visibility::VertexFragment)
    } else {
        None
    }
}

/// A longer run of digits writes no smaller number.
proof fn lemma_decimal_grows(text: Seq<char>, i: int)
    requires
        0 <= i <= text.len(),
        all_digits(text),
    ensures
        decimal(text.take(i)) <= decimal(text),
    decreases text.len() - i,
{
    if i == text.len() {
        assert(text.take(i) =~= text);
    } else {
        lemma_decimal_grows(text, i + 1);
        assert(text.take(i + 1).drop_last() =~= text.take(i));
        assert(text.take(i + 1).last() == text[i]);
    }
}

/// The number that `text` writes, if it writes one that fits.
pub fn parse_number(text: &str) -> (found: Option<u32>)
    ensures
        found == number_spec(text@),
{
    let len = text.unicode_len();
    let start: usize = if len > 0 && text.get_char(0) == '+' {
        1
    } else {
        0
    };
    let ghost digits = if start == 1 {
        text@.drop_first()
    } else {
        text@
    };
    proof {
        assert(digits =~= text@.subrange(start as int, len as int));
    }
    if start == len {
        return None;
    }
    let mut value: u64 = 0;
    let mut i: usize = start;
    while i < len
        invariant
            start <= i <= len,
            len == text@.len(),
            digits == text@.subrange(start as int, len as int),
            digits == (if text@.len() > 0 && text@[0] == '+' {
                text@.drop_first()
            } else {
                text@
            }),
            all_digits(digits.take(i - start)),
            value == decimal(digits.take(i - start)),
            value <= u32::MAX,
        decreases len - i,
    {
        let c = text.get_char(i);
        assert(digits[i - start] == c);
        if c < '0' || c > '9' {
            assert(digit(digits[i - start]).is_none());
            return None;
        }
        let d: u64 = (c as u32 - '0' as u32) as u64;
        let ghost prefix = digits.take(i - start + 1);
        proof {
            assert(prefix.drop_last() =~= digits.take(i - start));
            assert(prefix.last() == c);
            assert(all_digits(prefix)) by {
                assert forall|k: int| 0 <= k < prefix.len() implies digit(
                    #[trigger] prefix[k],
                ).is_some() by {
                    if k < prefix.len() - 1 {
                        assert(prefix[k] == digits.take(i - start)[k]);
                    }
                }
            }
        }
        value = 10 * value + d;
        assert(value == decimal(prefix));
        if value > u32::MAX as u64 {
            proof {
                if all_digits(digits) {
                    lemma_decimal_grows(digits, i - start + 1);
                }
            }
            return None;
        }
        i = i + 1;
    }
    proof {
        assert(digits.take(len - start) =~= digits);
    }
    Some(value as u32)
}

/// The array length that a binding asks for, from the text given for it in
/// lower case: `none`, or a number.
pub fn parse_count(text: &str) -> (found: Option<Option<u32>>)
    ensures
        found == count_spec(text@),
{
    if same(text, "none") {
        Some(None)
    } else {
        match parse_number(text) {
            Some(count) => Some(Some(count)),
            None => None,
        }
    }
}

} // verus!
