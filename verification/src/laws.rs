use crate::en_us::{
    en_render_from, en_scale, en_teen, en_ten, en_triplet_low, en_triplet_words, en_unit,
    en_us_view, en_words, en_words_at,
};
use crate::uk_ua::{
    spec_plural_index, uk_hundred, uk_render_from, uk_scale, uk_teen, uk_ten, uk_triplet_words,
    uk_ua_view, uk_unit, uk_unit_fixed, uk_words, uk_words_at,
};
use crate::utils::{join_words, lemma_triplets_shape, spec_triplets};
use vstd::prelude::*;

verus! {

/// Every word of a rendered sequence is nonempty.
pub open spec fn all_words_nonempty(ws: Seq<Seq<char>>) -> bool {
    forall|j: int| 0 <= j < ws.len() ==> #[trigger] ws[j].len() > 0
}

/// A nonzero triplet has at least one nonzero digit.
pub proof fn lemma_triplet_digits(t: int)
    requires
        1 <= t < 1000,
    ensures
        (t / 100) % 10 > 0 || (t / 10) % 10 > 0 || t % 10 > 0,
{
    if (t / 100) % 10 == 0 && (t / 10) % 10 == 0 && t % 10 == 0 {
        assert(0 <= t / 100 < 10);
        assert((t / 100) % 10 == t / 100);
        assert(t < 100);
        assert(0 <= t / 10 < 10);
        assert((t / 10) % 10 == t / 10);
        assert(t < 10);
        assert(t % 10 == t);
        assert(false);
    }
}

/// Zero converts to the language's single word for zero: the empty
/// triplet sequence renders as that one word in both languages.
pub proof fn lemma_zero_word()
    ensures
        en_us_view(0) == "zero"@,
        uk_ua_view(0) == "нуль"@,
{
    assert(join_words(seq!["zero"@]) == "zero"@);
    assert(join_words(seq!["нуль"@]) == "нуль"@);
}

/// Prepending a word to a nonempty phrase prepends the word and one
/// space to the joined result.
pub proof fn lemma_join_cons(w: Seq<char>, ws: Seq<Seq<char>>)
    requires
        ws.len() >= 1,
    ensures
        join_words(seq![w] + ws) == w + " "@ + join_words(ws),
    decreases ws.len(),
{
    let full = seq![w] + ws;
    assert(full.len() == ws.len() + 1);
    assert(join_words(full) == join_words(full.drop_last()) + " "@ + full.last());
    if ws.len() == 1 {
        assert(full.drop_last() =~= seq![w]);
        assert(join_words(seq![w]) == seq![w][0]);
        assert(seq![w][0] == w);
        assert(full.last() == ws[0]);
        assert(join_words(ws) == ws[0]);
    } else {
        lemma_join_cons(w, ws.drop_last());
        assert(full.drop_last() =~= seq![w] + ws.drop_last());
        assert(full.last() == ws.last());
        assert((w + " "@ + join_words(ws.drop_last())) + " "@ + ws.last() =~= w + " "@
            + (join_words(ws.drop_last()) + " "@ + ws.last()));
    }
}

/// A nonzero triplet renders to at least one word, in either language.
pub proof fn lemma_triplet_words_some(t: int, idx: int)
    requires
        1 <= t < 1000,
    ensures
        en_triplet_words(t).len() >= 1,
        uk_triplet_words(t, idx).len() >= 1,
{
    lemma_triplet_digits(t);
}

/// A positive value renders to at least one word, in either language.
pub proof fn lemma_render_some(ts: Seq<int>, lo: int)
    requires
        0 <= lo < ts.len(),
        forall|i: int| 0 <= i < ts.len() ==> 0 <= #[trigger] ts[i] < 1000,
        ts.last() != 0,
    ensures
        en_render_from(ts, lo).len() >= 1,
        uk_render_from(ts, lo).len() >= 1,
    decreases ts.len() - lo,
{
    if lo == ts.len() - 1 {
        lemma_triplet_words_some(ts[lo], lo);
    } else {
        lemma_render_some(ts, lo + 1);
    }
}

/// The words for a positive value form a nonempty sequence.
pub proof fn lemma_words_some(n: int)
    requires
        n > 0,
    ensures
        en_words(n).len() >= 1,
        uk_words(n).len() >= 1,
{
    lemma_triplets_shape(n);
    lemma_render_some(spec_triplets(n), 0);
}

/// Negation law: for every positive value, the phrase for its negation
/// is the sign word, a space, and the phrase for the value itself, in
/// both languages.
pub proof fn lemma_minus_prefix(n: int)
    requires
        n > 0,
    ensures
        en_us_view(-n) == "minus "@ + en_us_view(n),
        uk_ua_view(-n) == "мінус "@ + uk_ua_view(n),
{
    lemma_words_some(n);
    lemma_join_cons("minus"@, en_words(n));
    lemma_join_cons("мінус"@, uk_words(n));
    reveal_strlit("minus");
    reveal_strlit("minus ");
    reveal_strlit("мінус");
    reveal_strlit("мінус ");
    reveal_strlit(" ");
    assert("minus"@ + " "@ =~= "minus "@);
    assert("мінус"@ + " "@ =~= "мінус "@);
    assert(("minus"@ + " "@) + join_words(en_words(n)) =~= "minus"@ + " "@ + join_words(
        en_words(n),
    ));
    assert(("мінус"@ + " "@) + join_words(uk_words(n)) =~= "мінус"@ + " "@ + join_words(
        uk_words(n),
    ));
}

/// No word of the English tables used for a triplet's digits is empty.
proof fn lemma_en_tables_nonempty()
    ensures
        forall|d: int| 1 <= d <= 9 ==> #[trigger] en_unit(d).len() > 0,
        forall|d: int| 0 <= d <= 9 ==> #[trigger] en_teen(d).len() > 0,
        forall|d: int| 2 <= d <= 9 ==> #[trigger] en_ten(d).len() > 0,
        "hundred"@.len() > 0,
{
    reveal_strlit("one");
    reveal_strlit("two");
    reveal_strlit("three");
    reveal_strlit("four");
    reveal_strlit("five");
    reveal_strlit("six");
    reveal_strlit("seven");
    reveal_strlit("eight");
    reveal_strlit("nine");
    reveal_strlit("ten");
    reveal_strlit("eleven");
    reveal_strlit("twelve");
    reveal_strlit("thirteen");
    reveal_strlit("fourteen");
    reveal_strlit("fifteen");
    reveal_strlit("sixteen");
    reveal_strlit("seventeen");
    reveal_strlit("eighteen");
    reveal_strlit("nineteen");
    reveal_strlit("twenty");
    reveal_strlit("thirty");
    reveal_strlit("forty");
    reveal_strlit("fifty");
    reveal_strlit("sixty");
    reveal_strlit("seventy");
    reveal_strlit("eighty");
    reveal_strlit("ninety");
    reveal_strlit("hundred");
}

/// No word of the Ukrainian tables used for a triplet's digits is
/// empty, gender-agreed forms included.
proof fn lemma_uk_tables_nonempty()
    ensures
        forall|d: int| 1 <= d <= 9 ==> #[trigger] uk_unit(d).len() > 0,
        forall|d: int| 0 <= d <= 9 ==> #[trigger] uk_teen(d).len() > 0,
        forall|d: int| 1 <= d <= 9 ==> #[trigger] uk_ten(d).len() > 0,
        forall|d: int| 1 <= d <= 9 ==> #[trigger] uk_hundred(d).len() > 0,
        forall|d: int, idx: int| 1 <= d <= 9 ==> #[trigger] uk_unit_fixed(d, idx).len() > 0,
{
    reveal_strlit("один");
    reveal_strlit("два");
    reveal_strlit("три");
    reveal_strlit("чотири");
    reveal_strlit("п'ять");
    reveal_strlit("шість");
    reveal_strlit("сім");
    reveal_strlit("вісім");
    reveal_strlit("дев'ять");
    reveal_strlit("десять");
    reveal_strlit("одинадцять");
    reveal_strlit("дванадцять");
    reveal_strlit("тринадцять");
    reveal_strlit("чотирнадцять");
    reveal_strlit("п'ятнадцять");
    reveal_strlit("шістнадцять");
    reveal_strlit("сімнадцять");
    reveal_strlit("вісімнадцять");
    reveal_strlit("дев'ятнадцять");
    reveal_strlit("двадцять");
    reveal_strlit("тридцять");
    reveal_strlit("сорок");
    reveal_strlit("п'ятдесят");
    reveal_strlit("шістдесят");
    reveal_strlit("сімдесят");
    reveal_strlit("вісімдесят");
    reveal_strlit("дев'яносто");
    reveal_strlit("сто");
    reveal_strlit("двісті");
    reveal_strlit("триста");
    reveal_strlit("чотириста");
    reveal_strlit("п'ятсот");
    reveal_strlit("шістсот");
    reveal_strlit("сімсот");
    reveal_strlit("вісімсот");
    reveal_strlit("дев'ятсот");
    reveal_strlit("одна");
    reveal_strlit("дві");
}

/// Zero digits contribute no words: every word rendered for a
/// triplet's hundreds, tens and units is nonempty, in both languages
/// and at every scale index.
pub proof fn lemma_no_zero_component(t: int, idx: int)
    requires
        0 <= t < 1000,
    ensures
        all_words_nonempty(en_triplet_words(t)),
        all_words_nonempty(uk_triplet_words(t, idx)),
{
    lemma_en_tables_nonempty();
    lemma_uk_tables_nonempty();
}

/// Teens invariant: when a triplet's tens digit is one, the
/// tens-and-units part is exactly the one teen word for the units
/// digit; no separate tens word is rendered. This holds in both
/// languages, at every scale index.
pub proof fn lemma_teens_exclusive(t: int, idx: int)
    requires
        0 <= t < 1000,
        (t / 10) % 10 == 1,
    ensures
        en_triplet_low(t) == seq![en_teen(t % 10)],
        uk_triplet_words(t, idx) == (if (t / 100) % 10 > 0 {
            seq![uk_hundred((t / 100) % 10)]
        } else {
            Seq::empty()
        }) + seq![uk_teen(t % 10)],
{
}

/// Gender invariant: at the thousands triplet a standalone or trailing
/// units digit of one or two is rendered in the feminine form, which
/// differs from the base form; at every other index the base form is
/// used.
pub proof fn lemma_uk_gender(t: int, idx: int)
    requires
        0 <= t < 1000,
        t % 10 == 1 || t % 10 == 2,
        (t / 10) % 10 == 0,
    ensures
        uk_triplet_words(t, 1).last() == (if t % 10 == 1 {
            "одна"@
        } else {
            "дві"@
        }),
        idx != 1 ==> uk_triplet_words(t, idx).last() == uk_unit(t % 10),
        uk_unit_fixed(t % 10, 1) != uk_unit(t % 10),
{
    reveal_strlit("одна");
    reveal_strlit("один");
    reveal_strlit("дві");
    reveal_strlit("два");
    assert("одна"@[2] != "один"@[2]);
    assert("дві"@[2] != "два"@[2]);
}

/// Plural-form selection: the value reduced modulo one hundred, and
/// further modulo ten when that remainder is twenty or more, selects
/// the singular exactly when it is one, the second form exactly when
/// it lies in two to four, and the third form otherwise.
pub proof fn lemma_plural_selection(v: int)
    requires
        v >= 0,
    ensures
        spec_plural_index(v) == 0 <==> (if v % 100 > 19 {
            (v % 100) % 10
        } else {
            v % 100
        }) == 1,
        spec_plural_index(v) == 1 <==> 2 <= (if v % 100 > 19 {
            (v % 100) % 10
        } else {
            v % 100
        }) <= 4,
        spec_plural_index(v) == 2 <==> !((if v % 100 > 19 {
            (v % 100) % 10
        } else {
            v % 100
        }) == 1 || 2 <= (if v % 100 > 19 {
            (v % 100) % 10
        } else {
            v % 100
        }) <= 4),
        spec_plural_index(v % 100) == spec_plural_index(v),
{
    assert((v % 100) % 100 == v % 100);
}

/// A value below `1000^5` decomposes into at most five triplets.
pub proof fn lemma_triplets_len_bound(n: int)
    requires
        0 <= n < 1_000_000_000_000_000,
    ensures
        spec_triplets(n).len() <= 5,
{
    let n1 = n / 1000;
    let n2 = n1 / 1000;
    let n3 = n2 / 1000;
    let n4 = n3 / 1000;
    assert(n4 < 1000);
    assert(n4 / 1000 == 0);
    assert(spec_triplets(n4 / 1000).len() == 0);
    if n > 0 {
        if n1 > 0 {
            if n2 > 0 {
                if n3 > 0 {
                    if n4 > 0 {
                        assert(spec_triplets(n4).len() == 1);
                    }
                    assert(spec_triplets(n3).len() <= 2);
                }
                assert(spec_triplets(n2).len() <= 3);
            }
            assert(spec_triplets(n1).len() <= 4);
        }
        assert(spec_triplets(n).len() <= 5);
    }
}

/// No scale word at the indices reachable below `1000^5` is empty, in
/// either language or any grammatical-number form.
proof fn lemma_scale_words_nonempty()
    ensures
        forall|i: int| 1 <= i <= 4 ==> #[trigger] en_scale(i).len() > 0,
        forall|i: int, f: int| 1 <= i <= 4 ==> #[trigger] uk_scale(i, f).len() > 0,
{
    reveal_strlit("thousand");
    reveal_strlit("million");
    reveal_strlit("billion");
    reveal_strlit("trillion");
    reveal_strlit("тисяча");
    reveal_strlit("тисячі");
    reveal_strlit("тисяч");
    reveal_strlit("мільйон");
    reveal_strlit("мільйона");
    reveal_strlit("мільйонів");
    reveal_strlit("мільярд");
    reveal_strlit("мільярда");
    reveal_strlit("мільярдів");
    reveal_strlit("трильйон");
    reveal_strlit("трильйона");
    reveal_strlit("трильйонів");
}

/// Every word rendered for the triplets at indices `[lo, ts.len())` is
/// nonempty, for a decomposition of at most five triplets.
proof fn lemma_render_no_zero_word(ts: Seq<int>, lo: int)
    requires
        forall|i: int| 0 <= i < ts.len() ==> 0 <= #[trigger] ts[i] < 1000,
        ts.len() <= 5,
        0 <= lo,
    ensures
        all_words_nonempty(en_render_from(ts, lo)),
        all_words_nonempty(uk_render_from(ts, lo)),
    decreases ts.len() - lo,
{
    if lo < ts.len() {
        lemma_render_no_zero_word(ts, lo + 1);
        if ts[lo] != 0 {
            lemma_no_zero_component(ts[lo], lo);
            lemma_scale_words_nonempty();
        }
        assert(all_words_nonempty(en_words_at(ts, lo)));
        assert(all_words_nonempty(uk_words_at(ts, lo)));
        assert forall|j: int| 0 <= j < en_render_from(ts, lo).len() implies #[trigger] en_render_from(
            ts,
            lo,
        )[j].len() > 0 by {
            let rest = en_render_from(ts, lo + 1);
            if j < rest.len() {
                assert(en_render_from(ts, lo)[j] == rest[j]);
            } else {
                assert(en_render_from(ts, lo)[j] == en_words_at(ts, lo)[j - rest.len()]);
            }
        }
        assert forall|j: int| 0 <= j < uk_render_from(ts, lo).len() implies #[trigger] uk_render_from(
            ts,
            lo,
        )[j].len() > 0 by {
            let rest = uk_render_from(ts, lo + 1);
            if j < rest.len() {
                assert(uk_render_from(ts, lo)[j] == rest[j]);
            } else {
                assert(uk_render_from(ts, lo)[j] == uk_words_at(ts, lo)[j - rest.len()]);
            }
        }
    }
}

/// No zero-valued component is ever rendered as a word: over the whole
/// supported fifteen-digit range, every word of the rendered phrase is
/// nonempty, in both languages.
pub proof fn lemma_no_zero_word(n: int)
    requires
        0 <= n < 1_000_000_000_000_000,
    ensures
        all_words_nonempty(en_words(n)),
        all_words_nonempty(uk_words(n)),
{
    if n == 0 {
        reveal_strlit("zero");
        reveal_strlit("нуль");
    } else {
        lemma_triplets_len_bound(n);
        lemma_triplets_shape(n);
        lemma_render_no_zero_word(spec_triplets(n), 0);
    }
}

/// At the defined scale indices, the scale word of a nonzero triplet
/// is rendered last among the triplet's words, in the form its value
/// selects.
pub proof fn lemma_uk_scale_form(ts: Seq<int>, i: int)
    requires
        0 <= i < ts.len(),
        1 <= i < 10,
        0 < ts[i] < 1000,
    ensures
        uk_words_at(ts, i).last() == uk_scale(i, spec_plural_index(ts[i])),
{
    lemma_plural_selection(ts[i]);
}

} // verus!
