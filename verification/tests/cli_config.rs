use std::io::BufRead;

use workshop::cli_config::{cli_path_from_config, first_raw_line, strip_line_ending, ConfigError};

fn read_path(contents: &[u8]) -> String {
    match cli_path_from_config(contents) {
        Ok(path) => path,
        Err(error) => panic!("{}", error.message()),
    }
}

#[test]
#[should_panic(expected = "The config file is empty")]
fn panics_if_file_is_empty() {
    read_path(b"");
}

#[test]
#[should_panic(expected = "First line is not valid UTF-8")]
fn panics_if_file_contains_invalid_utf8() {
    read_path(&[0xFF]);
}

#[test]
fn lib_happy_path() {
    let cli_path = "my_cli";
    let contents = format!("{}\n", cli_path);
    assert_eq!(read_path(contents.as_bytes()), cli_path);
}

#[test]
fn only_the_first_line_counts() {
    assert_eq!(cli_path_from_config(b"first\nsecond\n"), Ok("first".to_string()));
    assert_eq!(cli_path_from_config(b"first\n\xFF\n"), Ok("first".to_string()));
    assert_eq!(cli_path_from_config(b"\xFF\nsecond\n"), Err(ConfigError::InvalidUtf8));
}

#[test]
fn line_endings_are_removed() {
    assert_eq!(cli_path_from_config(b"no newline"), Ok("no newline".to_string()));
    assert_eq!(cli_path_from_config(b"dos\r\nnext"), Ok("dos".to_string()));
    assert_eq!(cli_path_from_config(b"cr only\r"), Ok("cr only\r".to_string()));
    assert_eq!(cli_path_from_config(b"\n"), Ok(String::new()));
    assert_eq!(cli_path_from_config(b"\r\n"), Ok(String::new()));
    assert_eq!(cli_path_from_config(b"a\r\r\n"), Ok("a\r".to_string()));
}

#[test]
fn unicode_paths_are_read() {
    let contents = "/opt/caf\u{e9}/\u{1F600}\n".as_bytes();
    assert_eq!(cli_path_from_config(contents), Ok("/opt/caf\u{e9}/\u{1F600}".to_string()));
    assert_eq!(cli_path_from_config(&[0xC3, 0x28, 0x0A]), Err(ConfigError::InvalidUtf8));
}

#[test]
fn agrees_with_buf_read_lines() {
    let samples: [&[u8]; 6] = [b"path\n", b"a\r\nb", b"x", b"\n\n", b"\xE2\x82\xAC\r\n", b"q\r"];
    for sample in samples {
        let expected = std::io::BufReader::new(sample).lines().next().unwrap().unwrap();
        assert_eq!(cli_path_from_config(sample), Ok(expected));
    }
}

#[test]
fn raw_lines_and_stripping() {
    assert_eq!(first_raw_line(b"ab\ncd"), b"ab\n".to_vec());
    assert_eq!(first_raw_line(b"abc"), b"abc".to_vec());
    assert_eq!(first_raw_line(b""), Vec::<u8>::new());
    assert_eq!(strip_line_ending("x\r\n"), "x");
    assert_eq!(strip_line_ending("x\n"), "x");
    assert_eq!(strip_line_ending("x\r"), "x\r");
    assert_eq!(strip_line_ending(""), "");
}

#[test]
fn error_messages() {
    assert_eq!(ConfigError::Empty.message(), "The config file is empty");
    assert_eq!(ConfigError::InvalidUtf8.message(), "First line is not valid UTF-8");
}
