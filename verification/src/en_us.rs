use crate::errors::Error;
use crate::utils::{join_words, join_with_spaces, spec_triplets, u64_to_triplets, views_of};
use vstd::prelude::*;
use vstd::string::StringExecFns;

verus! {

/// The English word for a units digit; zero and out-of-range values
/// give the empty word, which is never emitted.
pub open spec fn en_unit(d: int) -> Seq<char> {
    if d == 1 {
        "one"@
    } else if d == 2 {
        "two"@
    } else if d == 3 {
        "three"@
    } else if d == 4 {
        "four"@
    } else if d == 5 {
        "five"@
    } else if d == 6 {
        "six"@
    } else if d == 7 {
        "seven"@
    } else if d == 8 {
        "eight"@
    } else if d == 9 {
        "nine"@
    } else {
        ""@
    }
}

/// The English word for ten plus a units digit.
pub open spec fn en_teen(d: int) -> Seq<char> {
    if d == 0 {
        "ten"@
    } else if d == 1 {
        "eleven"@
    } else if d == 2 {
        "twelve"@
    } else if d == 3 {
        "thirteen"@
    } else if d == 4 {
        "fourteen"@
    } else if d == 5 {
        "fifteen"@
    } else if d == 6 {
        "sixteen"@
    } else if d == 7 {
        "seventeen"@
    } else if d == 8 {
        "eighteen"@
    } else if d == 9 {
        "nineteen"@
    } else {
        ""@
    }
}

/// The English word for a tens digit of two or more.
pub open spec fn en_ten(d: int) -> Seq<char> {
    if d == 2 {
        "twenty"@
    } else if d == 3 {
        "thirty"@
    } else if d == 4 {
        "forty"@
    } else if d == 5 {
        "fifty"@
    } else if d == 6 {
        "sixty"@
    } else if d == 7 {
        "seventy"@
    } else if d == 8 {
        "eighty"@
    } else if d == 9 {
        "ninety"@
    } else {
        ""@
    }
}

/// The English scale word for the triplet at scale `1000^i`; the units
/// triplet and indices beyond the supported magnitude give the empty
/// word.
pub open spec fn en_scale(i: int) -> Seq<char> {
    if i == 1 {
        "thousand"@
    } else if i == 2 {
        "million"@
    } else if i == 3 {
        "billion"@
    } else if i == 4 {
        "trillion"@
    } else if i == 5 {
        "quadrillion"@
    } else if i == 6 {
        "quintillion"@
    } else if i == 7 {
        "sextillion"@
    } else if i == 8 {
        "septillion"@
    } else if i == 9 {
        "octillion"@
    } else if i == 10 {
        "nonillion"@
    } else if i == 11 {
        "decillion"@
    } else if i == 12 {
        "undecillion"@
    } else if i == 13 {
        "duodecillion"@
    } else if i == 14 {
        "tredecillion"@
    } else if i == 15 {
        "quattuordecillion"@
    } else {
        ""@
    }
}

/// The words for the tens-and-units part of a triplet: nothing when
/// both digits are zero, the unit word alone, a teen word when the
/// tens digit is one, or the tens word with an optional hyphenated
/// unit.
pub open spec fn en_triplet_low(t: int) -> Seq<Seq<char>> {
    let tens = (t / 10) % 10;
    let units = t % 10;
    if tens == 0 && units == 0 {
        Seq::empty()
    } else if tens == 0 {
        seq![en_unit(units)]
    } else if tens == 1 {
        seq![en_teen(units)]
    } else if units == 0 {
        seq![en_ten(tens)]
    } else {
        seq![en_ten(tens) + "-"@ + en_unit(units)]
    }
}

/// All words for one triplet: the hundreds phrase when the hundreds
/// digit is nonzero, then the tens-and-units part.
pub open spec fn en_triplet_words(t: int) -> Seq<Seq<char>> {
    let hundreds = (t / 100) % 10;
    (if hundreds > 0 {
        seq![en_unit(hundreds), "hundred"@]
    } else {
        Seq::empty()
    }) + en_triplet_low(t)
}

/// The words contributed by the triplet at index `i`: a zero triplet
/// contributes nothing, a nonzero one its triplet words followed by
/// its scale word when the index is at least one.
pub open spec fn en_words_at(ts: Seq<int>, i: int) -> Seq<Seq<char>> {
    if ts[i] == 0 {
        Seq::empty()
    } else {
        en_triplet_words(ts[i]) + (if i >= 1 {
            seq![en_scale(i)]
        } else {
            Seq::empty()
        })
    }
}

/// The words for the triplets at indices `[lo, ts.len())`, rendered
/// most-significant first.
pub open spec fn en_render_from(ts: Seq<int>, lo: int) -> Seq<Seq<char>>
    decreases ts.len() - lo,
{
    if lo < 0 || lo >= ts.len() {
        Seq::empty()
    } else {
        en_render_from(ts, lo + 1) + en_words_at(ts, lo)
    }
}

/// The full English word sequence for a non-negative value.
pub open spec fn en_words(n: int) -> Seq<Seq<char>> {
    if n == 0 {
        seq!["zero"@]
    } else {
        en_render_from(spec_triplets(n), 0)
    }
}

/// The English phrase for any value: the magnitude's words, preceded
/// by the sign word for a negative value, joined with single spaces.
pub open spec fn en_us_view(n: int) -> Seq<char> {
    if n < 0 {
        join_words(seq!["minus"@] + en_words(-n))
    } else {
        join_words(en_words(n))
    }
}

fn en_unit_word(d: u64) -> (r: &'static str)
    ensures
        r@ == en_unit(d as int),
{
    match d {
        1 => "one",
        2 => "two",
        3 => "three",
        4 => "four",
        5 => "five",
        6 => "six",
        7 => "seven",
        8 => "eight",
        9 => "nine",
        _ => "",
    }
}

fn en_teen_word(d: u64) -> (r: &'static str)
    ensures
        r@ == en_teen(d as int),
{
    match d {
        0 => "ten",
        1 => "eleven",
        2 => "twelve",
        3 => "thirteen",
        4 => "fourteen",
        5 => "fifteen",
        6 => "sixteen",
        7 => "seventeen",
        8 => "eighteen",
        9 => "nineteen",
        _ => "",
    }
}

fn en_ten_word(d: u64) -> (r: &'static str)
    ensures
        r@ == en_ten(d as int),
{
    match d {
        2 => "twenty",
        3 => "thirty",
        4 => "forty",
        5 => "fifty",
        6 => "sixty",
        7 => "seventy",
        8 => "eighty",
        9 => "ninety",
        _ => "",
    }
}

fn en_scale_word(i: usize) -> (r: &'static str)
    ensures
        r@ == en_scale(i as int),
{
    match i {
        1 => "thousand",
        2 => "million",
        3 => "billion",
        4 => "trillion",
        5 => "quadrillion",
        6 => "quintillion",
        7 => "sextillion",
        8 => "septillion",
        9 => "octillion",
        10 => "nonillion",
        11 => "decillion",
        12 => "undecillion",
        13 => "duodecillion",
        14 => "tredecillion",
        15 => "quattuordecillion",
        _ => "",
    }
}

/// Converts an integer to its English written form. The magnitude is
/// widened before negation, so every input, the most negative value
/// included, converts, and the conversion always succeeds.
pub fn integer_to_en_us(input: i64) -> (r: Result<String, Error>)
    ensures
        (r matches Ok(s) && s@ == en_us_view(input as int)),
{
    let mut words: Vec<String> = Vec::new();
    if input < 0 {
        words.push(String::from_str("minus"));
    }
    let n: u64 = if input < 0 {
        (-(input as i128)) as u64
    } else {
        input as u64
    };
    let triplets = u64_to_triplets(n);
    let ghost ts = triplets@.map_values(|t: u64| t as int);

    if triplets.len() == 0 {
        return Ok(String::from_str("zero"));
    }
    assert(n > 0);

    let ghost base = views_of(words@);
    proof {
        if input < 0 {
            assert(base =~= seq!["minus"@]);
        } else {
            assert(base =~= Seq::<Seq<char>>::empty());
        }
    }

    let mut idx = triplets.len();
    proof {
        assert(base + en_render_from(ts, idx as int) =~= base);
    }
    while idx > 0
        invariant
            idx <= triplets@.len(),
            ts == triplets@.map_values(|t: u64| t as int),
            forall|i: int| 0 <= i < triplets@.len() ==> #[trigger] triplets@[i] < 1000,
            views_of(words@) == base + en_render_from(ts, idx as int),
        decreases idx,
    {
        idx = idx - 1;
        let t = triplets[idx];
        let ghost before = views_of(words@);
        proof {
            assert(en_render_from(ts, idx as int) == en_render_from(ts, idx + 1) + en_words_at(
                ts,
                idx as int,
            ));
        }
        if t == 0 {
            proof {
                assert(en_words_at(ts, idx as int) =~= Seq::empty());
                assert(en_render_from(ts, idx + 1) + en_words_at(ts, idx as int)
                    =~= en_render_from(ts, idx + 1));
            }
            continue;
        }

        let hundreds = t / 100 % 10;
        let tens = t / 10 % 10;
        let units = t % 10;

        if hundreds > 0 {
            words.push(String::from_str(en_unit_word(hundreds)));
            words.push(String::from_str("hundred"));
        }

        if tens != 0 || units != 0 {
            if tens == 0 {
                words.push(String::from_str(en_unit_word(units)));
            } else if tens == 1 {
                words.push(String::from_str(en_teen_word(units)));
            } else {
                let mut word = String::from_str(en_ten_word(tens));
                if units > 0 {
                    word.append("-");
                    word.append(en_unit_word(units));
                }
                words.push(word);
            }
        }

        if idx >= 1 {
            words.push(String::from_str(en_scale_word(idx)));
        }

        proof {
            assert(views_of(words@) =~= before + en_words_at(ts, idx as int));
            assert(base + en_render_from(ts, idx as int) =~= (base + en_render_from(ts, idx + 1))
                + en_words_at(ts, idx as int));
        }
    }

    proof {
        if input < 0 {
            assert(n as int == -(input as int));
            assert(seq!["minus"@] + en_words(n as int) =~= base + en_render_from(ts, 0));
        } else {
            assert(Seq::<Seq<char>>::empty() + en_render_from(ts, 0) =~= en_render_from(ts, 0));
        }
    }
    Ok(join_with_spaces(&words))
}

} // verus!
