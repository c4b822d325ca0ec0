use numwords::en_us::integer_to_en_us;

#[test]
fn en_us() {
    assert_eq!(integer_to_en_us(-1).unwrap(), "minus one");
    assert_eq!(integer_to_en_us(0).unwrap(), "zero");
    assert_eq!(integer_to_en_us(1).unwrap(), "one");
    assert_eq!(integer_to_en_us(9).unwrap(), "nine");
    assert_eq!(integer_to_en_us(10).unwrap(), "ten");
    assert_eq!(integer_to_en_us(11).unwrap(), "eleven");
    assert_eq!(integer_to_en_us(19).unwrap(), "nineteen");
    assert_eq!(integer_to_en_us(20).unwrap(), "twenty");
    assert_eq!(integer_to_en_us(21).unwrap(), "twenty-one");
    assert_eq!(integer_to_en_us(80).unwrap(), "eighty");
    assert_eq!(integer_to_en_us(90).unwrap(), "ninety");
    assert_eq!(integer_to_en_us(99).unwrap(), "ninety-nine");
    assert_eq!(integer_to_en_us(100).unwrap(), "one hundred");
    assert_eq!(integer_to_en_us(101).unwrap(), "one hundred one");
    assert_eq!(integer_to_en_us(111).unwrap(), "one hundred eleven");
    assert_eq!(integer_to_en_us(120).unwrap(), "one hundred twenty");
    assert_eq!(integer_to_en_us(121).unwrap(), "one hundred twenty-one");
    assert_eq!(integer_to_en_us(900).unwrap(), "nine hundred");
    assert_eq!(integer_to_en_us(909).unwrap(), "nine hundred nine");
    assert_eq!(integer_to_en_us(919).unwrap(), "nine hundred nineteen");
    assert_eq!(integer_to_en_us(990).unwrap(), "nine hundred ninety");
    assert_eq!(integer_to_en_us(999).unwrap(), "nine hundred ninety-nine");
    assert_eq!(integer_to_en_us(1000).unwrap(), "one thousand");
    assert_eq!(integer_to_en_us(2000).unwrap(), "two thousand");
    assert_eq!(integer_to_en_us(4000).unwrap(), "four thousand");
    assert_eq!(integer_to_en_us(5000).unwrap(), "five thousand");
    assert_eq!(integer_to_en_us(11000).unwrap(), "eleven thousand");
    assert_eq!(integer_to_en_us(21000).unwrap(), "twenty-one thousand");
    assert_eq!(
        integer_to_en_us(999000).unwrap(),
        "nine hundred ninety-nine thousand"
    );
    assert_eq!(
        integer_to_en_us(999999).unwrap(),
        "nine hundred ninety-nine thousand nine hundred ninety-nine"
    );
    assert_eq!(integer_to_en_us(1000000).unwrap(), "one million");
    assert_eq!(integer_to_en_us(2000000).unwrap(), "two million");
    assert_eq!(integer_to_en_us(4000000).unwrap(), "four million");
    assert_eq!(integer_to_en_us(5000000).unwrap(), "five million");
    assert_eq!(
        integer_to_en_us(100100100).unwrap(),
        "one hundred million one hundred thousand one hundred"
    );
    assert_eq!(
        integer_to_en_us(500500500).unwrap(),
        "five hundred million five hundred thousand five hundred"
    );
    assert_eq!(
        integer_to_en_us(606606606).unwrap(),
        "six hundred six million six hundred six thousand six hundred six"
    );
    assert_eq!(
        integer_to_en_us(999000000).unwrap(),
        "nine hundred ninety-nine million"
    );
    assert_eq!(
        integer_to_en_us(999000999).unwrap(),
        "nine hundred ninety-nine million nine hundred ninety-nine"
    );
    assert_eq!(
        integer_to_en_us(999999000).unwrap(),
        "nine hundred ninety-nine million nine hundred ninety-nine thousand"
    );
    assert_eq!(
        integer_to_en_us(999999999).unwrap(),
        "nine hundred ninety-nine million nine hundred ninety-nine thousand nine hundred ninety-nine"
    );
    assert_eq!(
        integer_to_en_us(1174315110).unwrap(),
        "one billion one hundred seventy-four million three hundred fifteen thousand one hundred ten"
    );
    assert_eq!(
        integer_to_en_us(1174315119).unwrap(),
        "one billion one hundred seventy-four million three hundred fifteen thousand one hundred nineteen"
    );
    assert_eq!(
        integer_to_en_us(15174315119).unwrap(),
        "fifteen billion one hundred seventy-four million three hundred fifteen thousand one hundred nineteen"
    );
    assert_eq!(
        integer_to_en_us(35174315119).unwrap(),
        "thirty-five billion one hundred seventy-four million three hundred fifteen thousand one hundred nineteen"
    );
    assert_eq!(
        integer_to_en_us(935174315119).unwrap(),
        "nine hundred thirty-five billion one hundred seventy-four million three hundred fifteen thousand one hundred nineteen"
    );
    assert_eq!(
        integer_to_en_us(2935174315119).unwrap(),
        "two trillion nine hundred thirty-five billion one hundred seventy-four million three hundred fifteen thousand one hundred nineteen"
    );
}

#[test]
fn en_us_negative_matches_prefixed_positive() {
    for n in [1i64, 21, 100, 999, 21000, 999999999, 2935174315119] {
        let pos = integer_to_en_us(n).unwrap();
        let neg = integer_to_en_us(-n).unwrap();
        assert_eq!(neg, format!("minus {}", pos));
    }
}

#[test]
fn en_us_extreme_magnitudes() {
    assert_eq!(
        integer_to_en_us(i64::MAX).unwrap(),
        "nine quintillion two hundred twenty-three quadrillion three hundred seventy-two trillion \
         thirty-six billion eight hundred fifty-four million seven hundred seventy-five thousand \
         eight hundred seven"
    );
    assert_eq!(
        integer_to_en_us(i64::MIN).unwrap(),
        "minus nine quintillion two hundred twenty-three quadrillion three hundred seventy-two \
         trillion thirty-six billion eight hundred fifty-four million seven hundred seventy-five \
         thousand eight hundred eight"
    );
}

#[test]
fn en_us_teen_rows_use_teen_words_only() {
    assert_eq!(integer_to_en_us(12).unwrap(), "twelve");
    assert_eq!(integer_to_en_us(110).unwrap(), "one hundred ten");
    assert_eq!(integer_to_en_us(115).unwrap(), "one hundred fifteen");
    assert_eq!(integer_to_en_us(13013).unwrap(), "thirteen thousand thirteen");
}
