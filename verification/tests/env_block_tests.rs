use kyber_launcher::env_block::{dump_env_block, env_buffer_size, env_block_text, reported_entries, utf16le_units};

fn utf16le(text: &str) -> Vec<u8> {
    let mut out = Vec::new();
    for u in text.encode_utf16() {
        out.extend_from_slice(&u.to_le_bytes());
    }
    out
}

#[test]
fn buffer_size_uses_reported_size_when_plausible() {
    assert_eq!(env_buffer_size(4096), 4096);
    assert_eq!(env_buffer_size(1 << 20), 1 << 20);
}

#[test]
fn buffer_size_falls_back_on_zero_or_huge() {
    assert_eq!(env_buffer_size(0), 1 << 15);
    assert_eq!(env_buffer_size((1 << 20) + 1), 1 << 15);
    assert_eq!(env_buffer_size(u32::MAX), 1 << 15);
}

#[test]
fn units_are_little_endian_and_drop_odd_byte() {
    assert_eq!(utf16le_units(&[0x41, 0x00, 0x34, 0x12, 0xff]), vec![0x0041, 0x1234]);
    assert_eq!(utf16le_units(&[]), Vec::<u16>::new());
}

#[test]
fn text_decoding_replaces_lone_surrogates() {
    let bytes = [0x41, 0x00, 0x00, 0xd8, 0x42, 0x00];
    assert_eq!(env_block_text(&bytes), "A\u{fffd}B");
    let bytes = utf16le("héllo 😀");
    assert_eq!(env_block_text(&bytes), "héllo 😀");
}

#[test]
fn dump_keeps_launcher_variables_in_order() {
    let block = utf16le("KYBER_API_TOKEN=abc\0HOME=/root\0PATH=C:\\bin\0  EA_FLAG=1 \0MXLOG=on\0\0");
    assert_eq!(
        dump_env_block(&block),
        vec!["KYBER_API_TOKEN=abc", "PATH=C:\\bin", "EA_FLAG=1", "MXLOG=on"]
    );
}

#[test]
fn dump_skips_empty_and_unrelated_entries() {
    assert_eq!(reported_entries("\0\0   \0Path=x\0kyber_x=1"), Vec::<String>::new());
    assert_eq!(reported_entries(""), Vec::<String>::new());
}

#[test]
fn dump_trims_and_checks_every_prefix() {
    let text = "MAXIMA_A=1\0Origin=2\0ContentId=3\0GRPC_TRACE=all\0\tKYBER_X=\u{3000}\0EA";
    assert_eq!(
        reported_entries(text),
        vec!["MAXIMA_A=1", "Origin=2", "ContentId=3", "GRPC_TRACE=all", "KYBER_X=", "EA"]
    );
}

#[test]
fn dump_prefix_must_start_entry() {
    assert_eq!(reported_entries("XKYBER_A=1\0PATHX=2\0PATH=3"), vec!["PATH=3"]);
}
