use chessers::ledger::{
    champs_file, checkpoint_name, checkpoint_path, ledger_header, ledger_row, log_dir_name, opponent_path,
    parse_row, run_dir, ChampionRecord, LedgerError,
};
use chessers::text::{contains, parse_i32, push_decimal, push_padded, push_signed, same_text, to_chars};

fn strings(fields: &[&str]) -> Vec<String> {
    fields.iter().map(|f| f.to_string()).collect()
}

#[test]
fn checkpoint_names_are_zero_padded() {
    assert_eq!(checkpoint_name(0, 0), "0000_0000.safetensors");
    assert_eq!(checkpoint_name(1, 12), "0001_0012.safetensors");
    assert_eq!(checkpoint_name(9999, 9999), "9999_9999.safetensors");
    assert_eq!(checkpoint_name(12345, 67890), "12345_67890.safetensors");
    assert_eq!(checkpoint_name(-1, 3), "-001_0003.safetensors");
    assert_eq!(checkpoint_name(i32::MIN, 0), "-2147483648_0000.safetensors");
}

#[test]
fn checkpoint_names_match_format() {
    for (epoch, index) in [(0, 0), (7, 42), (123, 4567), (99999, 100000), (-12, 1), (i32::MAX, usize::MAX)] {
        assert_eq!(checkpoint_name(epoch, index), format!("{:04}_{:04}.safetensors", epoch, index));
    }
}

#[test]
fn checkpoint_names_sort_as_the_numbers_do() {
    let mut names = vec![];
    for epoch in [0, 1, 2, 10, 11, 100, 999, 1000] {
        for index in [0, 1, 9, 10, 63] {
            names.push(checkpoint_name(epoch, index));
        }
    }
    let mut sorted = names.clone();
    sorted.sort();
    assert_eq!(names, sorted);
}

#[test]
fn paths_under_the_log_directory() {
    assert_eq!(checkpoint_path("/home/u/.chessers/logs/2024_01_05", 3, 1),
        "/home/u/.chessers/logs/2024_01_05/0003_0001.safetensors");
    assert_eq!(champs_file("/home/u/.chessers/logs/2024_01_05"), "/home/u/.chessers/logs/2024_01_05/champs.csv");
    assert_eq!(champs_file(""), "/champs.csv");
}

#[test]
fn log_directory_is_named_by_the_date() {
    assert_eq!(log_dir_name("/home/u/.chessers", 2024, 1, 5), "/home/u/.chessers/logs/2024_01_05");
    assert_eq!(log_dir_name("r", 2024, 12, 31), "r/logs/2024_12_31");
    assert_eq!(log_dir_name("r", 987, 10, 9), "r/logs/987_10_09");
    assert_eq!(log_dir_name("r", -44, 3, 15), format!("r/logs/{}_{:02}_{:02}", -44, 3, 15));
}

#[test]
fn run_directory_from_a_timestamp() {
    // 2015-05-15 00:00:00 UTC.
    assert_eq!(run_dir("root", 1_431_648_000), Some("root/logs/2015_05_15".to_string()));
    assert_eq!(run_dir("root", 0), Some("root/logs/1970_01_01".to_string()));
    assert_eq!(run_dir("root", 86_399), Some("root/logs/1970_01_01".to_string()));
    assert_eq!(run_dir("root", 86_400), Some("root/logs/1970_01_02".to_string()));
    assert_eq!(run_dir("root", -1), Some("root/logs/1969_12_31".to_string()));
    assert_eq!(run_dir("root", i64::MAX), None);
    assert_eq!(run_dir("root", i64::MIN), None);
}

#[test]
fn ledger_header_row() {
    assert_eq!(ledger_header(), strings(&["Epoch", "Champ index", "Wins"]));
}

#[test]
fn ledger_rows_are_plain_decimals() {
    assert_eq!(ledger_row(&ChampionRecord { epoch: 0, index: 1, wins: 0 }), strings(&["0", "1", "0"]));
    assert_eq!(ledger_row(&ChampionRecord { epoch: 12, index: 63, wins: 24 }), strings(&["12", "63", "24"]));
    assert_eq!(
        ledger_row(&ChampionRecord { epoch: i32::MAX, index: usize::MAX, wins: i32::MIN }),
        vec![i32::MAX.to_string(), usize::MAX.to_string(), i32::MIN.to_string()]
    );
}

#[test]
fn ledger_rows_read_back() {
    for record in [
        ChampionRecord { epoch: 0, index: 0, wins: 0 },
        ChampionRecord { epoch: 5, index: 17, wins: 9 },
        ChampionRecord { epoch: i32::MAX, index: i32::MAX as usize, wins: i32::MAX },
        ChampionRecord { epoch: -3, index: 2, wins: -1 },
    ] {
        assert_eq!(parse_row(&ledger_row(&record)), Ok(record));
    }
}

#[test]
fn malformed_rows_are_errors() {
    assert_eq!(parse_row(&strings(&[])), Err(LedgerError::MissingField));
    assert_eq!(parse_row(&strings(&["1", "2"])), Err(LedgerError::MissingField));
    assert_eq!(parse_row(&strings(&["x", "2", "3"])), Err(LedgerError::InvalidNumber));
    assert_eq!(parse_row(&strings(&["1", "", "3"])), Err(LedgerError::InvalidNumber));
    assert_eq!(parse_row(&strings(&["1", "2", "3.0"])), Err(LedgerError::InvalidNumber));
    assert_eq!(parse_row(&strings(&["1", "-2", "3"])), Err(LedgerError::InvalidNumber));
    assert_eq!(parse_row(&strings(&["1", "2147483648", "3"])), Err(LedgerError::InvalidNumber));
    assert_eq!(parse_row(&strings(&["Epoch", "Champ index", "Wins"])), Err(LedgerError::InvalidNumber));
    assert_eq!(
        parse_row(&strings(&["1", "2", "3", "extra"])),
        Ok(ChampionRecord { epoch: 1, index: 2, wins: 3 })
    );
}

#[test]
fn opponent_paths_from_rows() {
    assert_eq!(opponent_path("logs", &strings(&["0", "1", "0"])), Ok("logs/0000_0001.safetensors".to_string()));
    assert_eq!(opponent_path("logs", &strings(&["12", "3", "7"])), Ok("logs/0012_0003.safetensors".to_string()));
    assert_eq!(opponent_path("logs", &strings(&["12", "3"])), Err(LedgerError::MissingField));
    assert_eq!(opponent_path("logs", &strings(&["a", "3", "1"])), Err(LedgerError::InvalidNumber));
}

#[test]
fn parse_i32_as_std_does() {
    for text in [
        "0", "7", "42", "007", "-0", "+0", "+15", "-15", "2147483647", "-2147483648", "2147483648",
        "-2147483649", "99999999999999999999", "-99999999999999999999", "", "+", "-", "--1", "+-1", "1-",
        " 1", "1 ", "1\n", "12a", "a12", "1_000", "0x10", "１２", "4294967296", "00000000000000000000001",
    ] {
        assert_eq!(parse_i32(text), text.parse::<i32>().ok(), "{:?}", text);
    }
}

#[test]
fn decimals_as_std_writes_them() {
    for n in [0u64, 1, 9, 10, 11, 99, 100, 101, 4096, 1_000_000, u32::MAX as u64, u64::MAX] {
        let mut out = String::from(">");
        push_decimal(&mut out, n);
        assert_eq!(out, format!(">{}", n));
        for width in [0usize, 1, 2, 4, 25] {
            let mut out = String::from("#");
            push_padded(&mut out, n, width);
            assert_eq!(out, format!("#{:0width$}", n, width = width));
        }
    }
    for n in [0i32, 1, -1, 10, -10, 999, -999, 1000, -1000, i32::MAX, i32::MIN] {
        for width in [0usize, 1, 2, 4, 5, 12] {
            let mut out = String::new();
            push_signed(&mut out, n, width);
            assert_eq!(out, format!("{:0width$}", n, width = width));
        }
    }
}

#[test]
fn text_helpers() {
    assert_eq!(to_chars("a/b"), vec!['a', '/', 'b']);
    assert_eq!(to_chars(""), Vec::<char>::new());
    assert_eq!(to_chars("é♞"), vec!['é', '♞']);
    assert!(same_text("human", "human"));
    assert!(!same_text("human", "humans"));
    assert!(!same_text("Human", "human"));
    assert!(same_text("", ""));
    for (hay, needle) in [
        ("list", "list"), ("please list\n", "list"), ("lis", "list"), ("l i s t", "list"), ("", "list"),
        ("", ""), ("abc", ""), ("net.safetensors", "safetensors"), ("safetensor", "safetensors"),
        ("aab", "ab"), ("aaa", "aaaa"), ("♞list", "list"),
    ] {
        assert_eq!(contains(hay, needle), hay.contains(needle), "{:?} in {:?}", needle, hay);
    }
}
