use iq_server::command::{Band, DumpCommand, Kind, ResponseHeader};
use iq_server::text::{command_args, digits_text, pad_zeros, split_args};

#[test]
fn header_line_for_file() {
    let h = ResponseHeader { is_error: false, file_size: 42 };
    assert_eq!(h.encode(), "{\"is_error\":false,\"file_size\":42}\n");
}

#[test]
fn header_line_for_error() {
    assert_eq!(ResponseHeader::error().encode(), "{\"is_error\":true,\"file_size\":0}\n");
}

#[test]
fn header_line_largest_size() {
    let h = ResponseHeader { is_error: false, file_size: u64::MAX };
    assert_eq!(h.encode(), "{\"is_error\":false,\"file_size\":18446744073709551615}\n");
}

#[test]
fn header_line_matches_serde_json_form() {
    let h = ResponseHeader { is_error: true, file_size: 1000 };
    let v: serde_json::Value = serde_json::from_str(h.encode().trim_end()).unwrap();
    assert_eq!(v["is_error"], serde_json::Value::Bool(true));
    assert_eq!(v["file_size"].as_u64(), Some(1000));
}

#[test]
fn decimal_and_hex_digits() {
    assert_eq!(digits_text(0, false, false), "0");
    assert_eq!(digits_text(1234567890, false, false), "1234567890");
    assert_eq!(digits_text(0xe000, true, false), "e000");
    assert_eq!(digits_text(0x1c000, true, false), "1c000");
    assert_eq!(digits_text(0xABCD, true, true), "ABCD");
    assert_eq!(digits_text(u64::MAX, true, false), "ffffffffffffffff");
}

#[test]
fn zero_padding() {
    assert_eq!(pad_zeros(String::from("ABCD"), 8), "0000ABCD");
    assert_eq!(pad_zeros(String::from("12345678"), 8), "12345678");
    assert_eq!(pad_zeros(String::from("123456789"), 8), "123456789");
    assert_eq!(pad_zeros(String::new(), 3), "000");
}

#[test]
fn split_keeps_empty_pieces() {
    assert_eq!(split_args("a  b"), vec!["a", "", "b"]);
    assert_eq!(split_args(""), vec![""]);
    assert_eq!(split_args("one"), vec!["one"]);
    assert_eq!(split_args(" x "), vec!["", "x", ""]);
}

#[test]
fn command_args_trim_then_split() {
    assert_eq!(
        command_args("  wlan0 fastconfig -f 5745\n"),
        vec!["wlan0", "fastconfig", "-f", "5745"]
    );
    assert_eq!(command_args("   "), vec![""]);
}

#[test]
fn kinds_of_commands() {
    let c = DumpCommand::DumpIQ { band: Band::Band5GHz, file_name: String::from("a") };
    assert_eq!(c.kind(), Kind::DumpIq);
    assert_eq!(DumpCommand::DelFiles.kind(), Kind::DelFiles);
    assert_eq!(DumpCommand::CopyFiles(String::from("x")).kind(), Kind::CopyFile);
    assert_eq!(DumpCommand::SetReg { addr: 1, value: 2 }.kind(), Kind::SetReg);
    assert_eq!(DumpCommand::ShellCmd(String::from("ls")).kind(), Kind::ShellCmd);
    assert_eq!(DumpCommand::ATEInit.kind(), Kind::AteInit);
    assert_eq!(DumpCommand::ATECmd(String::from("x")).kind(), Kind::AteCmd);
}
