use agent_inbox::procstat::{
    cpu_ticks_from_fields, parse_cpu_ticks_from_stat, parse_i32, parse_ppid_from_stat, parse_u64,
    ppid_from_fields, split_stat_fields,
};

const STAT: &str = "4242 (my (odd) prog) S 17 4242 4242 0 -1 4194560 100 0 0 0 25 12 0 0 20 0 1 0 999 0 0\n";

#[test]
fn ppid_after_command_name() {
    assert_eq!(parse_ppid_from_stat(STAT), Some(17));
    assert_eq!(parse_ppid_from_stat("1 (init) S 0 1 1"), Some(0));
    assert_eq!(parse_ppid_from_stat("1 init S 0"), None);
    assert_eq!(parse_ppid_from_stat("1 (init) S"), None);
    assert_eq!(parse_ppid_from_stat("1 (init) S x"), None);
}

#[test]
fn cpu_ticks_sum_user_and_system() {
    assert_eq!(parse_cpu_ticks_from_stat(STAT), Some(37));
    assert_eq!(parse_cpu_ticks_from_stat("1 (x) S 0 1 1 0 -1 0 0 0 0 0 5"), None);
    assert_eq!(parse_cpu_ticks_from_stat("no parens at all"), None);
}

#[test]
fn stat_fields_split_on_whitespace() {
    let f = split_stat_fields("9 (a b) R  3\t4\n").unwrap();
    assert_eq!(f, vec!["R".to_string(), "3".to_string(), "4".to_string()]);
    assert_eq!(ppid_from_fields(&f), Some(3));
    assert_eq!(cpu_ticks_from_fields(&f), None);
}

#[test]
fn cpu_tick_overflow_is_absent() {
    let mut f: Vec<String> = (0..13).map(|i| i.to_string()).collect();
    f[11] = u64::MAX.to_string();
    f[12] = "1".to_string();
    assert_eq!(cpu_ticks_from_fields(&f), None);
    f[12] = "0".to_string();
    assert_eq!(cpu_ticks_from_fields(&f), Some(u64::MAX));
}

#[test]
fn decimal_parsing_matches_std() {
    for s in ["0", "+7", "-7", "2147483647", "-2147483648", "2147483648", "-2147483649", "", "-", "+", "1a", " 1", "007"] {
        assert_eq!(parse_i32(s), s.parse::<i32>().ok(), "{}", s);
    }
    for s in ["0", "+7", "-7", "18446744073709551615", "18446744073709551616", "", "+", "99999999999999999999999"] {
        assert_eq!(parse_u64(s), s.parse::<u64>().ok(), "{}", s);
    }
}

#[test]
fn unicode_white_space_separates_words() {
    let f = split_stat_fields("1 (x)\u{3000}S\u{a0}5\u{2009}6").unwrap();
    assert_eq!(f, vec!["S".to_string(), "5".to_string(), "6".to_string()]);
    assert_eq!(parse_ppid_from_stat("1 (x) S\u{85}42"), Some(42));
}
