use codle::text;

fn chars(s: &str) -> Vec<char> {
    s.chars().collect()
}

fn strings(parts: Vec<&[char]>) -> Vec<String> {
    parts.into_iter().map(|p| p.iter().collect()).collect()
}

const SAMPLES: [&str; 14] = [
    "",
    " ",
    "a",
    "  a b  ",
    "\t\n x \r\n",
    "one\ntwo\r\nthree",
    "one\n\ntwo\n",
    "tail\r",
    "\r\n",
    "a;b;;c;",
    "  3 passed; 0 failed  ",
    "\u{a0}x\u{2003}y\u{3000}",
    "x\u{85}\u{1680}y",
    "12/34 tests passed",
];

#[test]
fn white_space_is_what_the_standard_library_takes_it_to_be() {
    for code in 0u32..0x11000 {
        if let Some(c) = char::from_u32(code) {
            assert_eq!(text::is_whitespace(c), c.is_whitespace(), "U+{:04X}", code);
        }
    }
}

#[test]
fn characters_and_back() {
    for s in SAMPLES {
        assert_eq!(text::to_chars(s), chars(s));
        assert_eq!(text::from_chars(&chars(s)), s);
    }
}

#[test]
fn trim_as_the_standard_library_does() {
    for s in SAMPLES {
        let v = chars(s);
        let got: String = text::trim(&v).iter().collect();
        assert_eq!(got, s.trim(), "{:?}", s);
    }
}

#[test]
fn trim_end_matches_takes_all_of_the_character() {
    for s in ["12,", "12,,,", ",", "", "1,2", ",12"] {
        let v = chars(s);
        let got: String = text::trim_end_matches(&v, ',').iter().collect();
        assert_eq!(got, s.trim_end_matches(','), "{:?}", s);
    }
}

#[test]
fn lines_as_the_standard_library_does() {
    for s in SAMPLES {
        let v = chars(s);
        let want: Vec<String> = s.lines().map(|l| l.to_string()).collect();
        assert_eq!(strings(text::lines(&v)), want, "{:?}", s);
    }
}

#[test]
fn split_as_the_standard_library_does() {
    for s in SAMPLES {
        let v = chars(s);
        for c in [';', '/', ' '] {
            let want: Vec<String> = s.split(c).map(|l| l.to_string()).collect();
            assert_eq!(strings(text::split(&v, c)), want, "{:?}", s);
        }
    }
}

#[test]
fn words_as_the_standard_library_does() {
    for s in SAMPLES {
        let v = chars(s);
        let want: Vec<String> = s.split_whitespace().map(|l| l.to_string()).collect();
        assert_eq!(strings(text::split_whitespace(&v)), want, "{:?}", s);
    }
}

#[test]
fn search_as_the_standard_library_does() {
    let needles = ["", "a", "passed", " ... ok", "ab", "b;", "\n"];
    for s in SAMPLES {
        let v = chars(s);
        for n in needles {
            let p = chars(n);
            assert_eq!(text::contains(&v, &p), s.contains(n), "{:?} in {:?}", n, s);
            assert_eq!(text::starts_with(&v, &p), s.starts_with(n), "{:?} in {:?}", n, s);
            assert_eq!(text::ends_with(&v, &p), s.ends_with(n), "{:?} in {:?}", n, s);
        }
        assert_eq!(text::find(&v, 'a'), v.iter().position(|c| *c == 'a'));
    }
}

#[test]
fn numbers_as_the_standard_library_reads_them() {
    let samples = [
        "0", "7", "007", "+5", "+", "", "-1", "1 ", " 1", "12a", "1_000", "٣",
        "18446744073709551615", "18446744073709551616", "99999999999999999999999",
        "4294967295", "4294967296", "++1", "+-1", "1+",
    ];
    for s in samples {
        assert_eq!(text::parse_usize(&chars(s)), s.parse::<usize>().ok(), "{:?}", s);
    }
}

#[test]
fn numbers_as_the_standard_library_writes_them() {
    for n in [0usize, 1, 9, 10, 11, 99, 100, 12345, usize::MAX] {
        assert_eq!(text::decimal_string(n as u64), n.to_string());
    }
    for n in [0i64, 1, -1, 10, -10, 123456789, i64::MAX, i64::MIN, i64::MIN + 1] {
        let mut out = String::from("x");
        text::push_signed(&mut out, n);
        assert_eq!(out, format!("x{}", n));
    }
}

#[test]
fn join_puts_the_separator_between() {
    let none: Vec<String> = vec![];
    assert_eq!(text::join(&none, ", "), "");
    assert_eq!(text::join(&vec!["a".to_string()], ", "), "a");
    assert_eq!(text::join(&vec!["a".to_string(), "".to_string(), "c".to_string()], ", "), "a, , c");
}

fn samples(count: usize) -> Vec<String> {
    let alphabet = [' ', '\t', '\n', '\r', 'a', 'b', ';', '/', '1', '9', '+', '\u{a0}', 'é', ','];
    let mut state: u64 = 0x2545F4914F6CDD1D;
    let mut out = Vec::new();
    for _ in 0..count {
        state = state.wrapping_mul(6364136223846793005).wrapping_add(1442695040888963407);
        let len = (state >> 59) as usize;
        let mut s = String::new();
        for _ in 0..len {
            state = state.wrapping_mul(6364136223846793005).wrapping_add(1442695040888963407);
            s.push(alphabet[(state >> 33) as usize % alphabet.len()]);
        }
        out.push(s);
    }
    out
}

#[test]
fn many_texts_as_the_standard_library_reads_them() {
    for s in samples(3000) {
        let v = chars(&s);
        let trimmed: String = text::trim(&v).iter().collect();
        assert_eq!(trimmed, s.trim(), "{:?}", s);
        let want: Vec<String> = s.lines().map(|l| l.to_string()).collect();
        assert_eq!(strings(text::lines(&v)), want, "{:?}", s);
        let want: Vec<String> = s.split(';').map(|l| l.to_string()).collect();
        assert_eq!(strings(text::split(&v, ';')), want, "{:?}", s);
        let want: Vec<String> = s.split_whitespace().map(|l| l.to_string()).collect();
        assert_eq!(strings(text::split_whitespace(&v)), want, "{:?}", s);
        let stripped: String = text::trim_end_matches(&v, ',').iter().collect();
        assert_eq!(stripped, s.trim_end_matches(','), "{:?}", s);
        assert_eq!(text::parse_usize(&v), s.parse::<usize>().ok(), "{:?}", s);
        for n in ["a;", " b", "\n", "1", ""] {
            let p = chars(n);
            assert_eq!(text::contains(&v, &p), s.contains(n), "{:?} in {:?}", n, s);
            assert_eq!(text::starts_with(&v, &p), s.starts_with(n), "{:?} in {:?}", n, s);
            assert_eq!(text::ends_with(&v, &p), s.ends_with(n), "{:?} in {:?}", n, s);
        }
    }
}
