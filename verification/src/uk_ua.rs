use crate::errors::Error;
use crate::utils::{join_words, join_with_spaces, spec_triplets, u64_to_triplets, views_of};
use vstd::prelude::*;
use vstd::string::StringExecFns;

verus! {

/// The Ukrainian word for a units digit in its base (masculine or
/// neutral) form; zero and out-of-range values give the empty word.
pub open spec fn uk_unit(d: int) -> Seq<char> {
    if d == 1 {
        "один"@
    } else if d == 2 {
        "два"@
    } else if d == 3 {
        "три"@
    } else if d == 4 {
        "чотири"@
    } else if d == 5 {
        "п'ять"@
    } else if d == 6 {
        "шість"@
    } else if d == 7 {
        "сім"@
    } else if d == 8 {
        "вісім"@
    } else if d == 9 {
        "дев'ять"@
    } else {
        ""@
    }
}

/// The Ukrainian word for ten plus a units digit.
pub open spec fn uk_teen(d: int) -> Seq<char> {
    if d == 0 {
        "десять"@
    } else if d == 1 {
        "одинадцять"@
    } else if d == 2 {
        "дванадцять"@
    } else if d == 3 {
        "тринадцять"@
    } else if d == 4 {
        "чотирнадцять"@
    } else if d == 5 {
        "п'ятнадцять"@
    } else if d == 6 {
        "шістнадцять"@
    } else if d == 7 {
        "сімнадцять"@
    } else if d == 8 {
        "вісімнадцять"@
    } else if d == 9 {
        "дев'ятнадцять"@
    } else {
        ""@
    }
}

/// The Ukrainian word for a tens digit.
pub open spec fn uk_ten(d: int) -> Seq<char> {
    if d == 1 {
        "десять"@
    } else if d == 2 {
        "двадцять"@
    } else if d == 3 {
        "тридцять"@
    } else if d == 4 {
        "сорок"@
    } else if d == 5 {
        "п'ятдесят"@
    } else if d == 6 {
        "шістдесят"@
    } else if d == 7 {
        "сімдесят"@
    } else if d == 8 {
        "вісімдесят"@
    } else if d == 9 {
        "дев'яносто"@
    } else {
        ""@
    }
}

/// The Ukrainian word for a hundreds digit, a single fused token.
pub open spec fn uk_hundred(d: int) -> Seq<char> {
    if d == 1 {
        "сто"@
    } else if d == 2 {
        "двісті"@
    } else if d == 3 {
        "триста"@
    } else if d == 4 {
        "чотириста"@
    } else if d == 5 {
        "п'ятсот"@
    } else if d == 6 {
        "шістсот"@
    } else if d == 7 {
        "сімсот"@
    } else if d == 8 {
        "вісімсот"@
    } else if d == 9 {
        "дев'ятсот"@
    } else {
        ""@
    }
}

/// The Ukrainian scale word for the triplet at scale `1000^i` in one
/// of its three grammatical-number forms: `0` is the singular, `1` the
/// form for two to four, `2` the form for five and more.
pub open spec fn uk_scale(i: int, form: int) -> Seq<char> {
    if i == 1 {
        if form == 0 {
            "тисяча"@
        } else if form == 1 {
            "тисячі"@
        } else {
            "тисяч"@
        }
    } else if i == 2 {
        if form == 0 {
            "мільйон"@
        } else if form == 1 {
            "мільйона"@
        } else {
            "мільйонів"@
        }
    } else if i == 3 {
        if form == 0 {
            "мільярд"@
        } else if form == 1 {
            "мільярда"@
        } else {
            "мільярдів"@
        }
    } else if i == 4 {
        if form == 0 {
            "трильйон"@
        } else if form == 1 {
            "трильйона"@
        } else {
            "трильйонів"@
        }
    } else if i == 5 {
        if form == 0 {
            "квадрильйон"@
        } else if form == 1 {
            "квадрильйона"@
        } else {
            "квадрильйонів"@
        }
    } else if i == 6 {
        if form == 0 {
            "квінтильйон"@
        } else if form == 1 {
            "квінтильйона"@
        } else {
            "квінтильйонів"@
        }
    } else if i == 7 {
        if form == 0 {
            "секстильйон"@
        } else if form == 1 {
            "секстильйона"@
        } else {
            "секстильйонів"@
        }
    } else if i == 8 {
        if form == 0 {
            "септильйон"@
        } else if form == 1 {
            "септильйона"@
        } else {
            "септильйонів"@
        }
    } else if i == 9 {
        if form == 0 {
            "октильйон"@
        } else if form == 1 {
            "октильйона"@
        } else {
            "октильйонів"@
        }
    } else {
        ""@
    }
}

/// Which of the three grammatical-number forms a value selects: the
/// value is reduced modulo one hundred, then modulo ten when the
/// remainder lies in the twenties or above; a reduced value of one
/// selects the singular, two to four the second form, anything else
/// the third.
pub open spec fn spec_plural_index(n: int) -> int {
    let m = n % 100;
    let k = if m > 19 {
        m % 10
    } else {
        m
    };
    if k == 1 {
        0
    } else if 2 <= k && k <= 4 {
        1
    } else {
        2
    }
}

/// The unit word after gender agreement: at the thousands triplet the
/// digits one and two take the feminine form, agreeing with the
/// feminine scale noun; everywhere else the base form is used.
pub open spec fn uk_unit_fixed(u: int, idx: int) -> Seq<char> {
    if idx == 1 && u == 1 {
        "одна"@
    } else if idx == 1 && u == 2 {
        "дві"@
    } else {
        uk_unit(u)
    }
}

/// All words for one triplet at index `idx`: the fused hundreds token
/// when the hundreds digit is nonzero, then the tens-and-units part
/// with gender agreement applied to a standalone or trailing unit.
pub open spec fn uk_triplet_words(t: int, idx: int) -> Seq<Seq<char>> {
    let hundreds = (t / 100) % 10;
    let tens = (t / 10) % 10;
    let units = t % 10;
    (if hundreds > 0 {
        seq![uk_hundred(hundreds)]
    } else {
        Seq::empty()
    }) + (if tens == 0 && units == 0 {
        Seq::empty()
    } else if tens == 0 {
        seq![uk_unit_fixed(units, idx)]
    } else if tens == 1 {
        seq![uk_teen(units)]
    } else if units == 0 {
        seq![uk_ten(tens)]
    } else {
        seq![uk_ten(tens), uk_unit_fixed(units, idx)]
    })
}

/// The words contributed by the triplet at index `i`: a zero triplet
/// contributes nothing; a nonzero one its triplet words, followed at
/// the defined scale indices by the scale word in the form its value
/// selects.
pub open spec fn uk_words_at(ts: Seq<int>, i: int) -> Seq<Seq<char>> {
    if ts[i] == 0 {
        Seq::empty()
    } else {
        uk_triplet_words(ts[i], i) + (if 1 <= i < 10 {
            seq![uk_scale(i, spec_plural_index(ts[i] % 100))]
        } else {
            Seq::empty()
        })
    }
}

/// The words for the triplets at indices `[lo, ts.len())`, rendered
/// most-significant first.
pub open spec fn uk_render_from(ts: Seq<int>, lo: int) -> Seq<Seq<char>>
    decreases ts.len() - lo,
{
    if lo < 0 || lo >= ts.len() {
        Seq::empty()
    } else {
        uk_render_from(ts, lo + 1) + uk_words_at(ts, lo)
    }
}

/// The full Ukrainian word sequence for a non-negative value.
pub open spec fn uk_words(n: int) -> Seq<Seq<char>> {
    if n == 0 {
        seq!["нуль"@]
    } else {
        uk_render_from(spec_triplets(n), 0)
    }
}

/// The Ukrainian phrase for any value: the magnitude's words, preceded
/// by the sign word for a negative value, joined with single spaces.
pub open spec fn uk_ua_view(n: int) -> Seq<char> {
    if n < 0 {
        join_words(seq!["мінус"@] + uk_words(-n))
    } else {
        join_words(uk_words(n))
    }
}

/// Picks the grammatical-number form of a scale word for the value
/// `n`, from a table holding the singular, the form for two to four,
/// and the form for five and more.
pub fn plural(n: usize, words: &[&str]) -> (r: String)
    requires
        words@.len() >= 3,
    ensures
        r@ == words@[spec_plural_index(n as int)]@,
{
    let ghost n0 = n as int;
    let mut n = n;
    let mut index: usize = 0;

    n = n % 100;

    if n > 19 {
        n = n % 10;
    }

    if n != 1 {
        if n > 1 && n <= 4 {
            index = 1;
        } else {
            index = 2;
        }
    }

    assert(index as int == spec_plural_index(n0));
    String::from_str(words[index])
}

/// The unit word with gender agreement: at the thousands triplet the
/// digits one and two take the feminine form; otherwise the word at
/// `unit` in the given table is used.
pub fn fix_one_two_unit(unit: usize, idx: usize, arr: &[&str]) -> (r: String)
    requires
        (idx == 1 && (unit == 1 || unit == 2)) || unit < arr@.len(),
    ensures
        idx == 1 && unit == 1 ==> r@ == "одна"@,
        idx == 1 && unit == 2 ==> r@ == "дві"@,
        !(idx == 1 && (unit == 1 || unit == 2)) ==> r@ == arr@[unit as int]@,
{
    if idx == 1 {
        match unit {
            1 => {
                return String::from_str("одна");
            },
            2 => {
                return String::from_str("дві");
            },
            _ => {
            },
        }
    }
    String::from_str(arr[unit])
}

/// The table of base unit words, indexed by digit.
fn uk_units_table() -> (v: Vec<&'static str>)
    ensures
        v@.len() == 10,
        forall|d: int| 0 <= d < 10 ==> #[trigger] v@[d]@ == uk_unit(d),
{
    let mut v: Vec<&'static str> = Vec::new();
    v.push("");
    v.push("один");
    v.push("два");
    v.push("три");
    v.push("чотири");
    v.push("п'ять");
    v.push("шість");
    v.push("сім");
    v.push("вісім");
    v.push("дев'ять");
    v
}

/// The three grammatical-number forms of the scale word at index `i`.
fn uk_scale_forms(i: usize) -> (v: Vec<&'static str>)
    requires
        1 <= i < 10,
    ensures
        v@.len() == 3,
        forall|f: int| 0 <= f < 3 ==> #[trigger] v@[f]@ == uk_scale(i as int, f),
{
    let mut v: Vec<&'static str> = Vec::new();
    match i {
        1 => {
            v.push("тисяча");
            v.push("тисячі");
            v.push("тисяч");
        },
        2 => {
            v.push("мільйон");
            v.push("мільйона");
            v.push("мільйонів");
        },
        3 => {
            v.push("мільярд");
            v.push("мільярда");
            v.push("мільярдів");
        },
        4 => {
            v.push("трильйон");
            v.push("трильйона");
            v.push("трильйонів");
        },
        5 => {
            v.push("квадрильйон");
            v.push("квадрильйона");
            v.push("квадрильйонів");
        },
        6 => {
            v.push("квінтильйон");
            v.push("квінтильйона");
            v.push("квінтильйонів");
        },
        7 => {
            v.push("секстильйон");
            v.push("секстильйона");
            v.push("секстильйонів");
        },
        8 => {
            v.push("септильйон");
            v.push("септильйона");
            v.push("септильйонів");
        },
        _ => {
            v.push("октильйон");
            v.push("октильйона");
            v.push("октильйонів");
        },
    }
    v
}

/// Converts an integer to its Ukrainian written form, applying gender
/// agreement at the thousands triplet and grammatical-number selection
/// for every scale word. The magnitude is widened before negation, so
/// every input converts, and the conversion always succeeds.
pub fn integer_to_uk_ua(input: i64) -> (r: Result<String, Error>)
    ensures
        (r matches Ok(s) && s@ == uk_ua_view(input as int)),
{
    let mut words: Vec<String> = Vec::new();
    if input < 0 {
        words.push(String::from_str("мінус"));
    }
    let n: u64 = if input < 0 {
        (-(input as i128)) as u64
    } else {
        input as u64
    };
    let triplets = u64_to_triplets(n);
    let ghost ts = triplets@.map_values(|t: u64| t as int);

    if triplets.len() == 0 {
        return Ok(String::from_str("нуль"));
    }
    assert(n > 0);

    let units_table = uk_units_table();

    let ghost base = views_of(words@);
    proof {
        if input < 0 {
            assert(base =~= seq!["мінус"@]);
        } else {
            assert(base =~= Seq::<Seq<char>>::empty());
        }
    }

    let mut idx = triplets.len();
    proof {
        assert(base + uk_render_from(ts, idx as int) =~= base);
    }
    while idx > 0
        invariant
            idx <= triplets@.len(),
            ts == triplets@.map_values(|t: u64| t as int),
            forall|i: int| 0 <= i < triplets@.len() ==> #[trigger] triplets@[i] < 1000,
            units_table@.len() == 10,
            forall|d: int| 0 <= d < 10 ==> #[trigger] units_table@[d]@ == uk_unit(d),
            views_of(words@) == base + uk_render_from(ts, idx as int),
        decreases idx,
    {
        idx = idx - 1;
        let t = triplets[idx];
        let ghost before = views_of(words@);
        proof {
            assert(uk_render_from(ts, idx as int) == uk_render_from(ts, idx + 1) + uk_words_at(
                ts,
                idx as int,
            ));
        }
        if t == 0 {
            proof {
                assert(uk_words_at(ts, idx as int) =~= Seq::empty());
                assert(uk_render_from(ts, idx + 1) + uk_words_at(ts, idx as int)
                    =~= uk_render_from(ts, idx + 1));
            }
            continue;
        }

        let hundreds = t / 100 % 10;
        let tens = t / 10 % 10;
        let units = t % 10;

        if hundreds > 0 {
            words.push(String::from_str(uk_hundred_word(hundreds)));
        }

        if tens != 0 || units != 0 {
            if tens == 0 {
                words.push(fix_one_two_unit(units as usize, idx, units_table.as_slice()));
            } else if tens == 1 {
                words.push(String::from_str(uk_teen_word(units)));
            } else {
                words.push(String::from_str(uk_ten_word(tens)));
                if units > 0 {
                    words.push(fix_one_two_unit(units as usize, idx, units_table.as_slice()));
                }
            }
        }

        if idx >= 1 && idx < 10 {
            let selector = t % 100;
            assert(selector as int == ts[idx as int] % 100);
            let forms = uk_scale_forms(idx);
            words.push(plural(selector as usize, forms.as_slice()));
        }

        proof {
            assert(views_of(words@) =~= before + uk_words_at(ts, idx as int));
            assert(base + uk_render_from(ts, idx as int) =~= (base + uk_render_from(ts, idx + 1))
                + uk_words_at(ts, idx as int));
        }
    }

    proof {
        if input < 0 {
            assert(n as int == -(input as int));
            assert(seq!["мінус"@] + uk_words(n as int) =~= base + uk_render_from(ts, 0));
        } else {
            assert(Seq::<Seq<char>>::empty() + uk_render_from(ts, 0) =~= uk_render_from(ts, 0));
        }
    }
    Ok(join_with_spaces(&words))
}

fn uk_teen_word(d: u64) -> (r: &'static str)
    ensures
        r@ == uk_teen(d as int),
{
    match d {
        0 => "десять",
        1 => "одинадцять",
        2 => "дванадцять",
        3 => "тринадцять",
        4 => "чотирнадцять",
        5 => "п'ятнадцять",
        6 => "шістнадцять",
        7 => "сімнадцять",
        8 => "вісімнадцять",
        9 => "дев'ятнадцять",
        _ => "",
    }
}

fn uk_ten_word(d: u64) -> (r: &'static str)
    ensures
        r@ == uk_ten(d as int),
{
    match d {
        1 => "десять",
        2 => "двадцять",
        3 => "тридцять",
        4 => "сорок",
        5 => "п'ятдесят",
        6 => "шістдесят",
        7 => "сімдесят",
        8 => "вісімдесят",
        9 => "дев'яносто",
        _ => "",
    }
}

fn uk_hundred_word(d: u64) -> (r: &'static str)
    ensures
        r@ == uk_hundred(d as int),
{
    match d {
        1 => "сто",
        2 => "двісті",
        3 => "триста",
        4 => "чотириста",
        5 => "п'ятсот",
        6 => "шістсот",
        7 => "сімсот",
        8 => "вісімсот",
        9 => "дев'ятсот",
        _ => "",
    }
}

} // verus!
