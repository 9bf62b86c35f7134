//! Small checks shared by the device models.

use vstd::prelude::*;
use vstd::string::StringSliceAdditionalSpecFns;
use vstd::string::StringExecFns;

verus! {

/// Whether `val` lies between `min` and `max`, both included.
pub fn u32_in_range(val: u32, min: u32, max: u32) -> (r: bool)
    ensures
        r == (min <= val <= max),
{
    val >= min && val <= max
}

/// The text `<subject> <what>`, for an error about the device `subject`.
pub fn labelled(subject: &str, what: &str) -> (text: String)
    ensures
        text@ == subject@ + " "@ + what@,
{
    String::from_str(subject).concat(" ").concat(what)
}

/// The text `<before><n><after>`, with `n` in decimal digits.
pub fn numbered(before: &str, n: u32, after: &str) -> (text: String)
    ensures
        text@ == before@ + decimal(n as nat) + after@,
{
    String::from_str(before).concat(decimal_text(n as u64).as_str()).concat(after)
}

/// The character of the decimal digit `d`.
pub open spec fn digit_char(d: nat) -> char {
    if d == 0 {
        '0'
    } else if d == 1 {
        '1'
    } else if d == 2 {
        '2'
    } else if d == 3 {
        '3'
    } else if d == 4 {
        '4'
    } else if d == 5 {
        '5'
    } else if d == 6 {
        '6'
    } else if d == 7 {
        '7'
    } else if d == 8 {
        '8'
    } else {
        '9'
    }
}

/// The decimal digits of `n`, most significant first, without leading
/// zeros; zero is `0`.
pub open spec fn decimal(n: nat) -> Seq<char>
    decreases n,
{
    if n < 10 {
        seq![digit_char(n)]
    } else {
        decimal(n / 10).push(digit_char(n % 10))
    }
}

/// The decimal digits of `n`, with a minus sign in front where `n` is
/// negative.
pub open spec fn signed_decimal(n: int) -> Seq<char> {
    if n < 0 {
        seq!['-'] + decimal((-n) as nat)
    } else {
        decimal(n as nat)
    }
}

/// The decimal digits of `n`, with a zero in front where `n` has one digit.
pub open spec fn two_digit_decimal(n: nat) -> Seq<char> {
    if n < 10 {
        seq!['0'] + decimal(n)
    } else {
        decimal(n)
    }
}

/// The text of the decimal digit `d`.
fn digit_text(d: u64) -> (text: &'static str)
    requires
        d < 10,
    ensures
        text@ == seq![digit_char(d as nat)],
{
    proof {
        reveal_strlit("0");
        reveal_strlit("1");
        reveal_strlit("2");
        reveal_strlit("3");
        reveal_strlit("4");
        reveal_strlit("5");
        reveal_strlit("6");
        reveal_strlit("7");
        reveal_strlit("8");
        reveal_strlit("9");
    }
    let text = if d == 0 {
        "0"
    } else if d == 1 {
        "1"
    } else if d == 2 {
        "2"
    } else if d == 3 {
        "3"
    } else if d == 4 {
        "4"
    } else if d == 5 {
        "5"
    } else if d == 6 {
        "6"
    } else if d == 7 {
        "7"
    } else if d == 8 {
        "8"
    } else {
        "9"
    };
    assert(text@ =~= seq![digit_char(d as nat)]);
    text
}

/// The decimal digits of `n`.
pub fn decimal_text(n: u64) -> (text: String)
    ensures
        text@ == decimal(n as nat),
    decreases n,
{
    if n < 10 {
        String::from_str(digit_text(n))
    } else {
        let text = decimal_text(n / 10).concat(digit_text(n % 10));
        assert(text@ =~= decimal((n / 10) as nat).push(digit_char((n % 10) as nat)));
        text
    }
}

/// The decimal digits of `n`, with a minus sign in front where `n` is
/// negative.
pub fn signed_decimal_text(n: i64) -> (text: String)
    ensures
        text@ == signed_decimal(n as int),
{
    if n < 0 {
        // The magnitude of the least `i64` does not fit in an `i64`.
        let magnitude: u64 = if n == i64::MIN {
            0x8000_0000_0000_0000
        } else {
            (-n) as u64
        };
        proof {
            reveal_strlit("-");
            assert("-"@ =~= seq!['-']);
        }
        String::from_str("-").concat(decimal_text(magnitude).as_str())
    } else {
        decimal_text(n as u64)
    }
}

/// The decimal digits of `n`, with a zero in front where `n` has one digit.
pub fn two_digit_text(n: u32) -> (text: String)
    ensures
        text@ == two_digit_decimal(n as nat),
{
    if n < 10 {
        proof {
            reveal_strlit("0");
            assert("0"@ =~= seq!['0']);
        }
        String::from_str("0").concat(decimal_text(n as u64).as_str())
    } else {
        decimal_text(n as u64)
    }
}

/// Whether `word` stands in `text` at position `at`.
pub open spec fn occurs_at(word: Seq<u8>, text: Seq<u8>, at: int) -> bool {
    &&& 0 <= at
    &&& at + word.len() <= text.len()
    &&& text.subrange(at, at + word.len()) == word
}

/// Whether `word` stands somewhere in `text`.
pub open spec fn occurs_in(word: Seq<u8>, text: Seq<u8>) -> bool {
    exists|at: int| occurs_at(word, text, at)
}

/// Whether the UTF-8 bytes of `word` stand somewhere in those of `text`,
/// which is when `word` is a substring of `text`.
pub fn contains(text: &str, word: &str) -> (r: bool)
    ensures
        r == occurs_in(word.spec_bytes(), text.spec_bytes()),
{
    let hay = text.as_bytes();
    let needle = word.as_bytes();
    if needle.len() > hay.len() {
        assert forall|at: int| !occurs_at(needle@, hay@, at) by {}
        return false;
    }
    let last = hay.len() - needle.len();
    let mut at: usize = 0;
    while at <= last
        invariant
            hay@ == text.spec_bytes(),
            needle@ == word.spec_bytes(),
            last == hay@.len() - needle@.len(),
            hay@.len() <= usize::MAX,
            at <= last + 1,
            forall|before: int| 0 <= before < at ==> !occurs_at(needle@, hay@, before),
        decreases last + 1 - at,
    {
        let mut i: usize = 0;
        while i < needle.len() && hay[at + i] == needle[i]
            invariant
                at + needle@.len() <= hay@.len() <= usize::MAX,
                i <= needle@.len(),
                forall|j: int| 0 <= j < i ==> hay@[at + j] == needle@[j],
            decreases needle@.len() - i,
        {
            i += 1;
        }
        if i == needle.len() {
            assert(hay@.subrange(at as int, at + needle@.len()) =~= needle@);
            assert(occurs_at(needle@, hay@, at as int));
            return true;
        }
        assert(!occurs_at(needle@, hay@, at as int)) by {
            if occurs_at(needle@, hay@, at as int) {
                let window = hay@.subrange(at as int, at + needle@.len());
                assert(window[i as int] == needle@[i as int]);
            }
        }
        at += 1;
    }
    assert forall|at: int| !occurs_at(needle@, hay@, at) by {}
    false
}

/// The range of colour temperatures, in kelvin, of the bulb models that
/// have one, by the model's name; the first model that matches decides.
pub open spec fn color_temp_range_of(model: Seq<u8>) -> Option<(u32, u32)> {
    if occurs_in("LB120".spec_bytes(), model) {
        Some((2700u32, 6500u32))
    } else if occurs_in("LB130".spec_bytes(), model) {
        Some((2500u32, 9000u32))
    } else {
        None
    }
}

/// The range of colour temperatures of `model`, if it is a model that is
/// known to have one.
pub fn color_temp_range(model: &str) -> (range: Option<(u32, u32)>)
    ensures
        range == color_temp_range_of(model.spec_bytes()),
{
    if contains(model, "LB120") {
        Some((2700, 6500))
    } else if contains(model, "LB130") {
        Some((2500, 9000))
    } else {
        None
    }
}

/// The range of colour temperatures of `model`, which must be a model that
/// is known to have one.
pub fn valid_color_temp_range(model: &str) -> (range: (u32, u32))
    requires
        color_temp_range_of(model.spec_bytes()) is Some,
    ensures
        Some(range) == color_temp_range_of(model.spec_bytes()),
{
    match color_temp_range(model) {
        Some(range) => range,
        None => (0, 0),
    }
}

} // verus!
