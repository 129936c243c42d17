use vstd::prelude::*;

verus! {

/// Trading pace of a suggestion.
#[derive(Debug, Clone, Copy, PartialEq, Eq, Structural)]
pub enum AlgoSuggestionTradeStatus {
    Normal,
    FastTrade,
}

impl AlgoSuggestionTradeStatus {
    pub fn is_fast(&self) -> (r: bool)
        ensures
            r == (*self == AlgoSuggestionTradeStatus::FastTrade),
    {
        *self == AlgoSuggestionTradeStatus::FastTrade
    }

    pub fn is_normal(&self) -> (r: bool)
        ensures
            r == (*self == AlgoSuggestionTradeStatus::Normal),
    {
        *self == AlgoSuggestionTradeStatus::Normal
    }
}

pub open spec fn is_ascii_digit(c: char) -> bool {
    '0' <= c <= '9'
}

/// Value of a string of decimal digits, most significant first.
pub open spec fn digits_value(s: Seq<char>) -> int
    decreases s.len(),
{
    if s.len() == 0 {
        0
    } else {
        10 * digits_value(s.drop_last()) + (s.last() as int - '0' as int)
    }
}

/// Whether a text is one or more ASCII digits and nothing else.
pub open spec fn all_ascii_digits(d: Seq<char>) -> bool {
    d.len() > 0 && forall|i: int| 0 <= i < d.len() ==> is_ascii_digit(#[trigger] d[i])
}

/// Whether a text starts with a sign character.
pub open spec fn has_sign(s: Seq<char>) -> bool {
    s.len() > 0 && (s[0] == '-' || s[0] == '+')
}

/// The text after the sign, if there is one.
pub open spec fn unsigned_part(s: Seq<char>) -> Seq<char> {
    if has_sign(s) {
        s.drop_first()
    } else {
        s
    }
}

/// The integer that a decimal text denotes: an optional `+` or `-` sign
/// followed by one or more ASCII digits, and nothing else.
pub open spec fn decimal_value(s: Seq<char>) -> Option<int> {
    if all_ascii_digits(unsigned_part(s)) {
        if has_sign(s) && s[0] == '-' {
            Some(-digits_value(unsigned_part(s)))
        } else {
            Some(digits_value(unsigned_part(s)))
        }
    } else {
        None
    }
}

/// The `i64` that a decimal text denotes, if it denotes one in range.
pub open spec fn decimal_i64(s: Seq<char>) -> Option<i64> {
    match decimal_value(s) {
        Some(v) => if i64::MIN <= v <= i64::MAX {
            Some(v as i64)
        } else {
            None
        },
        None => None,
    }
}

/// Parses a decimal `i64` with `str::parse::<i64>`.
///
/// The standard library documents the accepted text as an optional `+` or
/// `-` sign followed by ASCII digits only (no whitespace, no underscores),
/// and reports an error for anything else and for values outside the range
/// of `i64`; this contract states exactly that as `decimal_i64`.
#[verifier::external_body]
fn parse_i64(text: &str) -> (r: Option<i64>)
    ensures
        r == decimal_i64(text@),
{
    text.parse::<i64>().ok()
}

/// Message that names a map key which is not a decimal `i64`.
pub open spec fn invalid_key_message(key: Seq<char>) -> Seq<char> {
    "invalid integer map key: "@ + key
}

/// Every key of the entries denotes an `i64`.
pub open spec fn all_keys_parse<V>(raw: Seq<(String, V)>) -> bool {
    forall|i: int| 0 <= i < raw.len() ==> (#[trigger] decimal_i64(raw[i].0@)) is Some
}

/// The decimal digits are the characters `0` to `9`; a string of digits
/// is read most significant first, each further digit multiplying by ten.
pub proof fn lemma_digits(d: Seq<char>, c: char)
    ensures
        is_ascii_digit(c) <==> 48 <= c as int <= 57,
        digits_value(Seq::empty()) == 0,
        digits_value(d.push(c)) == 10 * digits_value(d) + (c as int - 48),
{
    assert(d.push(c).drop_last() =~= d);
}

/// Digits alone, or digits after a `+`, denote their value; digits after a
/// `-` denote its negation.
pub proof fn lemma_signed_digits(d: Seq<char>)
    requires
        d.len() > 0,
        forall|i: int| 0 <= i < d.len() ==> 48 <= #[trigger] d[i] as int <= 57,
    ensures
        decimal_value(d) == Some(digits_value(d)),
        decimal_value(seq!['+'] + d) == Some(digits_value(d)),
        decimal_value(seq!['-'] + d) == Some(-digits_value(d)),
{
    assert((seq!['+'] + d).drop_first() =~= d);
    assert((seq!['-'] + d).drop_first() =~= d);
    assert((seq!['+'] + d)[0] == '+');
    assert((seq!['-'] + d)[0] == '-');
    assert(!has_sign(d)) by {
        assert(48 <= d[0] as int <= 57);
    }
}

/// A text denotes no integer when it is empty, is a sign alone, or has a
/// character other than a digit anywhere but in a leading sign.
pub proof fn lemma_rejected_texts(s: Seq<char>, i: int)
    ensures
        decimal_value(Seq::empty()) is None,
        decimal_value(seq!['+']) is None,
        decimal_value(seq!['-']) is None,
        0 < i < s.len() && !(48 <= s[i] as int <= 57) ==> decimal_value(s) is None,
        i == 0 && s.len() > 0 && !(48 <= s[0] as int <= 57) && s[0] != '+' && s[0] != '-'
            ==> decimal_value(s) is None,
{
    assert(seq!['+'].drop_first().len() == 0);
    assert(seq!['-'].drop_first().len() == 0);
    if 0 < i < s.len() && !(48 <= s[i] as int <= 57) {
        if has_sign(s) {
            assert(unsigned_part(s)[i - 1] == s[i]);
        } else {
            assert(unsigned_part(s)[i] == s[i]);
        }
    }
    if i == 0 && s.len() > 0 && !(48 <= s[0] as int <= 57) && s[0] != '+' && s[0] != '-' {
        assert(unsigned_part(s)[0] == s[0]);
    }
}

/// A text parses to an `i64` exactly when it denotes an integer in the
/// range of `i64`, and then to that integer.
pub proof fn lemma_decimal_i64_range(s: Seq<char>, x: i64)
    ensures
        decimal_i64(s) == Some(x) <==> decimal_value(s) == Some(x as int),
        decimal_i64(s) is None <==> (decimal_value(s) is None || decimal_value(s)->0 < -9223372036854775808int
            || decimal_value(s)->0 > 9223372036854775807int),
{
}

/// The message for a key that is not a decimal `i64` names the key after
/// `invalid integer map key: `.
pub proof fn lemma_invalid_key_message(key: Seq<char>)
    ensures
        invalid_key_message(key) == "invalid integer map key: "@ + key,
{
}

/// Converts the textual keys of a map's entries (as JSON writes integer map
/// keys) to `i64`, keeping each value with its key and the entries in order.
///
/// Fails on the first key, in the order of `raw`, that is not a decimal
/// `i64`, with a message naming that key.
pub fn parse_int_keys<V>(raw: Vec<(String, V)>) -> (r: Result<Vec<(i64, V)>, String>)
    ensures
        r is Ok <==> all_keys_parse(raw@),
        r matches Ok(out) ==> {
            &&& out@.len() == raw@.len()
            &&& forall|i: int|
                0 <= i < raw@.len() ==> #[trigger] out@[i] == (
                    decimal_i64(raw@[i].0@)->0,
                    raw@[i].1,
                )
        },
        r matches Err(msg) ==> exists|i: int|
            {
                &&& 0 <= i < raw@.len()
                &&& decimal_i64(#[trigger] raw@[i].0@) is None
                &&& all_keys_parse(raw@.take(i))
                &&& msg@ == invalid_key_message(raw@[i].0@)
            },
{
    let ghost raw_seq = raw@;
    let mut keys: Vec<i64> = Vec::new();
    let n = raw.len();
    for i in 0..n
        invariant
            n == raw@.len(),
            raw@ == raw_seq,
            keys@.len() == i,
            forall|j: int| 0 <= j < i ==> decimal_i64(raw_seq[j].0@) == Some(#[trigger] keys@[j]),
    {
        match parse_i64(raw[i].0.as_str()) {
            Some(k) => {
                keys.push(k);
            },
            None => {
                let mut msg = String::from_str("invalid integer map key: ");
                msg.append(raw[i].0.as_str());
                proof {
                    assert(all_keys_parse(raw_seq.take(i as int))) by {
                        assert forall|j: int| 0 <= j < raw_seq.take(i as int).len() implies (
                        #[trigger] decimal_i64(raw_seq.take(i as int)[j].0@)) is Some by {
                            assert(raw_seq.take(i as int)[j] == raw_seq[j]);
                            assert(decimal_i64(raw_seq[j].0@) == Some(keys@[j]));
                        }
                    }
                    assert(!all_keys_parse(raw_seq)) by {
                        assert(decimal_i64(raw_seq[i as int].0@) is None);
                    }
                }
                return Err(msg);
            },
        }
    }
    let mut out: Vec<(i64, V)> = Vec::new();
    let mut rest = raw;
    let mut rev: Vec<(String, V)> = Vec::new();
    while rest.len() > 0
        invariant
            rest@.len() + rev@.len() == raw_seq.len(),
            forall|j: int| 0 <= j < rest@.len() ==> #[trigger] rest@[j] == raw_seq[j],
            forall|j: int|
                0 <= j < rev@.len() ==> #[trigger] rev@[j] == raw_seq[raw_seq.len() - 1 - j],
        decreases rest@.len(),
    {
        let e = rest.pop().unwrap();
        rev.push(e);
    }
    while rev.len() > 0
        invariant
            out@.len() + rev@.len() == raw_seq.len(),
            keys@.len() == raw_seq.len(),
            forall|j: int|
                0 <= j < rev@.len() ==> #[trigger] rev@[j] == raw_seq[raw_seq.len() - 1 - j],
            forall|j: int| 0 <= j < out@.len() ==> #[trigger] out@[j] == (keys@[j], raw_seq[j].1),
        decreases rev@.len(),
    {
        let e = rev.pop().unwrap();
        let k = keys[out.len()];
        out.push((k, e.1));
    }
    proof {
        assert forall|i: int| 0 <= i < raw_seq.len() implies (#[trigger] decimal_i64(
            raw_seq[i].0@,
        )) is Some by {
            assert(decimal_i64(raw_seq[i].0@) == Some(keys@[i]));
        }
    }
    Ok(out)
}

} // verus!
