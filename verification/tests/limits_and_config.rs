use upload_service::config::{
    get_arg, usage, Config, ConfigError, DEFAULT_MAX_UPLOAD_SIZE, DEFAULT_PORT,
};
use upload_service::content_type::{boundary_of, boundary_token, require_boundary};
use upload_service::decimal::{read, render};
use upload_service::error::UploadError;
use upload_service::limit::check_length;

#[test]
fn limiter_admits_up_to_the_ceiling() {
    assert_eq!(check_length(Some(0), 1024), Ok(()));
    assert_eq!(check_length(Some(1023), 1024), Ok(()));
    assert_eq!(check_length(Some(1024), 1024), Ok(()));
}

#[test]
fn limiter_refuses_above_the_ceiling() {
    assert_eq!(check_length(Some(1025), 1024), Err(UploadError::TooLarge));
    assert_eq!(check_length(Some(u64::MAX), 1), Err(UploadError::TooLarge));
}

#[test]
fn limiter_wants_a_length_when_a_ceiling_is_set() {
    assert_eq!(check_length(None, 1024), Err(UploadError::LengthRequired));
}

#[test]
fn limiter_without_ceiling_admits_two_gigabytes() {
    let two_gb: u64 = 2 * 1024 * 1024 * 1024;
    assert_eq!(check_length(Some(two_gb), 0), Ok(()));
    assert_eq!(check_length(Some(u64::MAX), 0), Ok(()));
    assert_eq!(check_length(None, 0), Ok(()));
}

#[test]
fn error_statuses() {
    assert_eq!(UploadError::TooLarge.status(), 413);
    assert_eq!(UploadError::LengthRequired.status(), 411);
    assert_eq!(UploadError::MissingBoundary.status(), 400);
    assert_eq!(UploadError::Decode.status(), 500);
    assert_eq!(UploadError::Io.status(), 500);
    assert_eq!(UploadError::OutOfOrder.status(), 500);
}

#[test]
fn render_writes_decimal() {
    assert_eq!(render(0), "0");
    assert_eq!(render(7), "7");
    assert_eq!(render(10), "10");
    assert_eq!(render(8000), "8000");
    assert_eq!(render(524288000), "524288000");
    assert_eq!(render(u64::MAX), "18446744073709551615");
}

#[test]
fn read_accepts_digits_and_a_plus_sign() {
    assert_eq!(read("0", 10), Some(0));
    assert_eq!(read("9000", 65535), Some(9000));
    assert_eq!(read("+42", 65535), Some(42));
    assert_eq!(read("007", 65535), Some(7));
    assert_eq!(read("65535", 65535), Some(65535));
    assert_eq!(read("18446744073709551615", u64::MAX), Some(u64::MAX));
}

#[test]
fn read_refuses_everything_else() {
    assert_eq!(read("", 65535), None);
    assert_eq!(read("+", 65535), None);
    assert_eq!(read("-1", 65535), None);
    assert_eq!(read("++1", 65535), None);
    assert_eq!(read("1+", 65535), None);
    assert_eq!(read(" 1", 65535), None);
    assert_eq!(read("1 ", 65535), None);
    assert_eq!(read("1_000", 65535), None);
    assert_eq!(read("12a", 65535), None);
    assert_eq!(read("0x10", 65535), None);
    assert_eq!(read("١٢", 65535), None);
    assert_eq!(read("1é", 65535), None);
}

#[test]
fn read_refuses_what_exceeds_the_bound() {
    assert_eq!(read("65536", 65535), None);
    assert_eq!(read("18446744073709551616", u64::MAX), None);
    assert_eq!(read("99999999999999999999999999", u64::MAX), None);
    assert_eq!(read("5", 4), None);
    assert_eq!(read("10", 9), None);
}

#[test]
fn read_agrees_with_the_standard_parser() {
    let samples = [
        "", "+", "-", "0", "+0", "-0", "1", "+1", "65535", "65536", "000065535", "4294967296",
        "18446744073709551615", "18446744073709551616", "1e3", "12 ", "٣", "+ 1",
    ];
    for s in samples {
        assert_eq!(read(s, u16::MAX as u64), s.parse::<u16>().ok().map(|v| v as u64), "{}", s);
        assert_eq!(read(s, u64::MAX), s.parse::<u64>().ok(), "{}", s);
    }
}

#[test]
fn render_then_read_round_trips() {
    for n in [0u64, 1, 9, 10, 99, 100, 8000, 65535, 1 << 32, u64::MAX] {
        assert_eq!(read(render(n).as_str(), u64::MAX), Some(n));
        assert_eq!(render(n), n.to_string());
    }
}

#[test]
fn get_arg_falls_back_to_the_default() {
    assert_eq!(get_arg(None, 8000, 65535), Some(8000));
    assert_eq!(get_arg(Some("9000"), 8000, 65535), Some(9000));
    assert_eq!(get_arg(Some("port"), 8000, 65535), None);
    assert_eq!(get_arg(Some("70000"), 8000, 65535), None);
}

#[test]
fn config_defaults() {
    assert_eq!(DEFAULT_PORT, 8000);
    assert_eq!(DEFAULT_MAX_UPLOAD_SIZE, 500 * 1024 * 1024);
    assert_eq!(
        Config::from_args(None, None),
        Ok(Config { port: 8000, max_upload_size: 524288000 })
    );
}

#[test]
fn config_from_both_arguments() {
    assert_eq!(
        Config::from_args(Some("9000"), Some("1024")),
        Ok(Config { port: 9000, max_upload_size: 1024 })
    );
    assert_eq!(
        Config::from_args(Some("9000"), None),
        Ok(Config { port: 9000, max_upload_size: 524288000 })
    );
    assert_eq!(
        Config::from_args(Some("80"), Some("0")),
        Ok(Config { port: 80, max_upload_size: 0 })
    );
}

#[test]
fn config_reports_the_bad_argument() {
    assert_eq!(Config::from_args(Some("http"), Some("1024")), Err(ConfigError::InvalidPort));
    assert_eq!(Config::from_args(Some("65536"), None), Err(ConfigError::InvalidPort));
    assert_eq!(Config::from_args(Some("9000"), Some("1k")), Err(ConfigError::InvalidMaxUpload));
    assert_eq!(Config::from_args(Some("x"), Some("y")), Err(ConfigError::InvalidPort));
    // the arguments the wrong way round: a byte count is no port
    assert_eq!(Config::from_args(Some("524288000"), Some("8000")), Err(ConfigError::InvalidPort));
}

#[test]
fn max_size_text_is_the_ceiling() {
    assert_eq!(Config { port: 1, max_upload_size: 0 }.max_size_text(), "0");
    assert_eq!(Config { port: 1, max_upload_size: 1024 }.max_size_text(), "1024");
}

#[test]
fn usage_text_is_exact() {
    let expected = "USAGE
  upload [PORT [MAX_UPLOAD]]

DESCRIPTION
  Simple HTTP-based file upload service.

OPTIONS
  PORT
    Port to listen on. Defaults to 8000

  MAX_UPLOAD
    Maximum file upload size in bytes. Defaults to 500MB. Set
    to zero to disable size requirements.

Help: You might have provided MAX_UPLOAD before PORT
";
    assert_eq!(usage("upload"), expected);
}

#[test]
fn boundary_is_read_from_the_content_type() {
    assert_eq!(
        boundary_token("multipart/form-data; boundary=ABCDEFG"),
        Ok(String::from("ABCDEFG"))
    );
    assert_eq!(
        boundary_token("multipart/form-data; boundary=----WebKitFormBoundary7MA4YWxk"),
        Ok(String::from("----WebKitFormBoundary7MA4YWxk"))
    );
    assert_eq!(
        boundary_token("multipart/form-data; charset=utf-8; boundary=aB3"),
        Ok(String::from("aB3"))
    );
    assert_eq!(
        boundary_token("multipart/form-data; boundary=\"quoted token\""),
        Ok(String::from("quoted token"))
    );
    assert_eq!(boundary_token("Multipart/Form-Data; Boundary=Xy"), Ok(String::from("Xy")));
}

#[test]
fn boundary_missing_is_an_error() {
    assert_eq!(boundary_token("multipart/form-data"), Err(UploadError::MissingBoundary));
    assert_eq!(boundary_token("text/plain; charset=utf-8"), Err(UploadError::MissingBoundary));
    assert_eq!(boundary_token("multipart/form-data; boundary="), Err(UploadError::MissingBoundary));
    assert_eq!(boundary_token("not a media type"), Err(UploadError::MissingBoundary));
    assert_eq!(boundary_token(""), Err(UploadError::MissingBoundary));
}

#[test]
fn boundary_of_an_absent_header_is_absent() {
    assert_eq!(boundary_of(None), None);
    assert_eq!(boundary_of(Some("multipart/form-data")), None);
    assert_eq!(boundary_of(Some("multipart/form-data; boundary=")), Some(String::new()));
    assert_eq!(boundary_of(Some("multipart/form-data; boundary=b")), Some(String::from("b")));
}

#[test]
fn require_boundary_wants_a_non_empty_token() {
    assert_eq!(require_boundary(Some(String::from("b"))), Ok(String::from("b")));
    assert_eq!(require_boundary(Some(String::new())), Err(UploadError::MissingBoundary));
    assert_eq!(require_boundary(None), Err(UploadError::MissingBoundary));
}
