use numwords::uk_ua::{fix_one_two_unit, integer_to_uk_ua, plural};

#[test]
fn uk_ua() {
    assert_eq!(integer_to_uk_ua(-1).unwrap(), "мінус один");
    assert_eq!(integer_to_uk_ua(0).unwrap(), "нуль");
    assert_eq!(integer_to_uk_ua(1).unwrap(), "один");
    assert_eq!(integer_to_uk_ua(9).unwrap(), "дев'ять");
    assert_eq!(integer_to_uk_ua(10).unwrap(), "десять");
    assert_eq!(integer_to_uk_ua(11).unwrap(), "одинадцять");
    assert_eq!(integer_to_uk_ua(19).unwrap(), "дев'ятнадцять");
    assert_eq!(integer_to_uk_ua(20).unwrap(), "двадцять");
    assert_eq!(integer_to_uk_ua(21).unwrap(), "двадцять один");
    assert_eq!(integer_to_uk_ua(80).unwrap(), "вісімдесят");
    assert_eq!(integer_to_uk_ua(90).unwrap(), "дев'яносто");
    assert_eq!(integer_to_uk_ua(99).unwrap(), "дев'яносто дев'ять");
    assert_eq!(integer_to_uk_ua(100).unwrap(), "сто");
    assert_eq!(integer_to_uk_ua(101).unwrap(), "сто один");
    assert_eq!(integer_to_uk_ua(111).unwrap(), "сто одинадцять");
    assert_eq!(integer_to_uk_ua(120).unwrap(), "сто двадцять");
    assert_eq!(integer_to_uk_ua(121).unwrap(), "сто двадцять один");
    assert_eq!(integer_to_uk_ua(900).unwrap(), "дев'ятсот");
    assert_eq!(integer_to_uk_ua(909).unwrap(), "дев'ятсот дев'ять");
    assert_eq!(integer_to_uk_ua(919).unwrap(), "дев'ятсот дев'ятнадцять");
    assert_eq!(integer_to_uk_ua(990).unwrap(), "дев'ятсот дев'яносто");
    assert_eq!(integer_to_uk_ua(999).unwrap(), "дев'ятсот дев'яносто дев'ять");
    assert_eq!(integer_to_uk_ua(1000).unwrap(), "одна тисяча");
    assert_eq!(integer_to_uk_ua(2000).unwrap(), "дві тисячі");
    assert_eq!(integer_to_uk_ua(4000).unwrap(), "чотири тисячі");
    assert_eq!(integer_to_uk_ua(5000).unwrap(), "п'ять тисяч");
    assert_eq!(integer_to_uk_ua(11000).unwrap(), "одинадцять тисяч");
    assert_eq!(integer_to_uk_ua(21000).unwrap(), "двадцять одна тисяча");
    assert_eq!(
        integer_to_uk_ua(999000).unwrap(),
        "дев'ятсот дев'яносто дев'ять тисяч"
    );
    assert_eq!(
        integer_to_uk_ua(999999).unwrap(),
        "дев'ятсот дев'яносто дев'ять тисяч дев'ятсот дев'яносто дев'ять"
    );
    assert_eq!(integer_to_uk_ua(1000000).unwrap(), "один мільйон");
    assert_eq!(integer_to_uk_ua(2000000).unwrap(), "два мільйона");
    assert_eq!(integer_to_uk_ua(4000000).unwrap(), "чотири мільйона");
    assert_eq!(integer_to_uk_ua(5000000).unwrap(), "п'ять мільйонів");
    assert_eq!(
        integer_to_uk_ua(100100100).unwrap(),
        "сто мільйонів сто тисяч сто"
    );
    assert_eq!(
        integer_to_uk_ua(500500500).unwrap(),
        "п'ятсот мільйонів п'ятсот тисяч п'ятсот"
    );
    assert_eq!(
        integer_to_uk_ua(606606606).unwrap(),
        "шістсот шість мільйонів шістсот шість тисяч шістсот шість"
    );
    assert_eq!(
        integer_to_uk_ua(999000000).unwrap(),
        "дев'ятсот дев'яносто дев'ять мільйонів"
    );
    assert_eq!(
        integer_to_uk_ua(999000999).unwrap(),
        "дев'ятсот дев'яносто дев'ять мільйонів дев'ятсот дев'яносто дев'ять"
    );
    assert_eq!(
        integer_to_uk_ua(999999000).unwrap(),
        "дев'ятсот дев'яносто дев'ять мільйонів дев'ятсот дев'яносто дев'ять тисяч"
    );
    assert_eq!(
        integer_to_uk_ua(999999999).unwrap(),
        "дев'ятсот дев'яносто дев'ять мільйонів дев'ятсот дев'яносто дев'ять тисяч дев'ятсот дев'яносто дев'ять"
    );
    assert_eq!(
        integer_to_uk_ua(1174315110).unwrap(),
        "один мільярд сто сімдесят чотири мільйона триста п'ятнадцять тисяч сто десять"
    );
    assert_eq!(
        integer_to_uk_ua(1174315119).unwrap(),
        "один мільярд сто сімдесят чотири мільйона триста п'ятнадцять тисяч сто дев'ятнадцять"
    );
    assert_eq!(
        integer_to_uk_ua(15174315119).unwrap(),
        "п'ятнадцять мільярдів сто сімдесят чотири мільйона триста п'ятнадцять тисяч сто дев'ятнадцять"
    );
    assert_eq!(
        integer_to_uk_ua(35174315119).unwrap(),
        "тридцять п'ять мільярдів сто сімдесят чотири мільйона триста п'ятнадцять тисяч сто дев'ятнадцять"
    );
    assert_eq!(
        integer_to_uk_ua(935174315119).unwrap(),
        "дев'ятсот тридцять п'ять мільярдів сто сімдесят чотири мільйона триста п'ятнадцять тисяч сто дев'ятнадцять"
    );
    assert_eq!(
        integer_to_uk_ua(2935174315119).unwrap(),
        "два трильйона дев'ятсот тридцять п'ять мільярдів сто сімдесят чотири мільйона триста п'ятнадцять тисяч сто дев'ятнадцять"
    );
    assert_eq!(
        integer_to_uk_ua(3911760).unwrap(),
        "три мільйона дев'ятсот одинадцять тисяч сімсот шістдесят"
    );
    assert_eq!(integer_to_uk_ua(27).unwrap(), "двадцять сім");
    assert_eq!(
        integer_to_uk_ua(95000001000).unwrap(),
        "дев'яносто п'ять мільярдів одна тисяча"
    );
    assert_eq!(
        integer_to_uk_ua(57482).unwrap(),
        "п'ятдесят сім тисяч чотириста вісімдесят два"
    );
    assert_eq!(integer_to_uk_ua(5).unwrap(), "п'ять");
    assert_eq!(integer_to_uk_ua(16).unwrap(), "шістнадцять");
    assert_eq!(integer_to_uk_ua(30).unwrap(), "тридцять");
    assert_eq!(integer_to_uk_ua(53).unwrap(), "п'ятдесят три");
    assert_eq!(integer_to_uk_ua(123).unwrap(), "сто двадцять три");
    assert_eq!(integer_to_uk_ua(204).unwrap(), "двісті чотири");
    assert_eq!(integer_to_uk_ua(300).unwrap(), "триста");
    assert_eq!(integer_to_uk_ua(1400).unwrap(), "одна тисяча чотириста");
    assert_eq!(
        integer_to_uk_ua(83756).unwrap(),
        "вісімдесят три тисячі сімсот п'ятдесят шість"
    );
    assert_eq!(
        integer_to_uk_ua(293111).unwrap(),
        "двісті дев'яносто три тисячі сто одинадцять"
    );
    assert_eq!(
        integer_to_uk_ua(32001950).unwrap(),
        "тридцять два мільйона одна тисяча дев'ятсот п'ятдесят"
    );
    assert_eq!(integer_to_uk_ua(2018).unwrap(), "дві тисячі вісімнадцять");
    assert_eq!(
        integer_to_uk_ua(126682).unwrap(),
        "сто двадцять шість тисяч шістсот вісімдесят два"
    );
}

#[test]
fn uk_ua_negative_matches_prefixed_positive() {
    for n in [1i64, 21, 100, 2000, 5000, 999999999, 2935174315119] {
        let pos = integer_to_uk_ua(n).unwrap();
        let neg = integer_to_uk_ua(-n).unwrap();
        assert_eq!(neg, format!("мінус {}", pos));
    }
}

#[test]
fn uk_ua_most_negative_value_converts() {
    assert!(integer_to_uk_ua(i64::MIN).unwrap().starts_with("мінус дев'ять квінтильйонів"));
}

#[test]
fn plural_selects_each_form() {
    let forms = ["тисяча", "тисячі", "тисяч"];
    assert_eq!(plural(1, &forms), "тисяча");
    assert_eq!(plural(2, &forms), "тисячі");
    assert_eq!(plural(3, &forms), "тисячі");
    assert_eq!(plural(4, &forms), "тисячі");
    assert_eq!(plural(5, &forms), "тисяч");
    assert_eq!(plural(0, &forms), "тисяч");
    assert_eq!(plural(11, &forms), "тисяч");
    assert_eq!(plural(14, &forms), "тисяч");
    assert_eq!(plural(19, &forms), "тисяч");
    assert_eq!(plural(21, &forms), "тисяча");
    assert_eq!(plural(22, &forms), "тисячі");
    assert_eq!(plural(25, &forms), "тисяч");
    assert_eq!(plural(30, &forms), "тисяч");
    assert_eq!(plural(101, &forms), "тисяча");
    assert_eq!(plural(111, &forms), "тисяч");
    assert_eq!(plural(121, &forms), "тисяча");
}

#[test]
fn gender_fix_applies_only_at_thousands_index() {
    let units = ["", "один", "два", "три"];
    assert_eq!(fix_one_two_unit(1, 1, &units), "одна");
    assert_eq!(fix_one_two_unit(2, 1, &units), "дві");
    assert_eq!(fix_one_two_unit(3, 1, &units), "три");
    assert_eq!(fix_one_two_unit(1, 0, &units), "один");
    assert_eq!(fix_one_two_unit(2, 0, &units), "два");
    assert_eq!(fix_one_two_unit(1, 2, &units), "один");
    assert_eq!(fix_one_two_unit(2, 3, &units), "два");
}

#[test]
fn gender_fix_in_rendered_phrases() {
    assert_eq!(integer_to_uk_ua(1002000).unwrap(), "один мільйон дві тисячі");
    assert_eq!(integer_to_uk_ua(2001000).unwrap(), "два мільйона одна тисяча");
    assert_eq!(integer_to_uk_ua(12000).unwrap(), "дванадцять тисяч");
}
