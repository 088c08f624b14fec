use envvars::checksum::{checksum, Checksum};
use envvars::text::{double_backslashes, split_text};

#[test]
fn checksum_of_empty_input() {
    assert_eq!(checksum(&[]), "0000000000000001");
}

#[test]
fn checksum_known_values() {
    assert_eq!(checksum(b"a"), "0000006200000062");
    assert_eq!(checksum(b"abc"), "0000024d00000127");
    assert_eq!(checksum(&[0u8; 9]), "0000000900000001");
    assert_eq!(checksum(&[0x7f, 0x45, 0x4c, 0x46]), "000003ad00000157");
}

#[test]
fn checksum_wraps_modulus_on_long_input() {
    let data = vec![255u8; 100000];
    assert_eq!(checksum(&data), "dcb0271801851961");
}

#[test]
fn checksum_equal_for_identical_input() {
    let a = vec![1u8, 2, 3, 4, 5];
    let b = vec![1u8, 2, 3, 4, 5];
    assert_eq!(checksum(&a), checksum(&b));
}

#[test]
fn checksum_differs_on_one_byte() {
    assert_eq!(checksum(b"abd"), "0000024e00000128");
    assert_ne!(checksum(b"abc"), checksum(b"abd"));
    let base = vec![7u8; 64];
    for i in 0..base.len() {
        let mut other = base.clone();
        other[i] = 8;
        assert_ne!(checksum(&base), checksum(&other));
    }
}

#[test]
fn checksum_streaming_matches_one_shot() {
    let data: Vec<u8> = (0..1000u32).map(|i| (i * 31 % 256) as u8).collect();
    let mut c = Checksum::new();
    for chunk in data.chunks(97) {
        c.update(chunk);
    }
    assert_eq!(c.finish(), checksum(&data));
}

#[test]
fn backslashes_are_doubled() {
    assert_eq!(double_backslashes("C:\\Temp\\x.exe"), "C:\\\\Temp\\\\x.exe");
    assert_eq!(double_backslashes("/tmp/x"), "/tmp/x");
    assert_eq!(double_backslashes(""), "");
}

#[test]
fn split_keeps_empty_pieces() {
    assert_eq!(split_text("/bin/bash\n/bin/sh\n", '\n'), vec!["/bin/bash", "/bin/sh", ""]);
    assert_eq!(split_text("", '\n'), vec![""]);
    assert_eq!(split_text("a", '\n'), vec!["a"]);
}
