use checksum::accumulator::Accumulator;
use checksum::algorithm::Algorithm;
use checksum::engine::{checksum_line, Step, CHUNK_LEN};
use std::io::{Cursor, Error, ErrorKind, Read};

const ALL: [Algorithm; 9] = [
    Algorithm::Crc32,
    Algorithm::Md5,
    Algorithm::Sha1,
    Algorithm::Sha256,
    Algorithm::Sha512,
    Algorithm::Sha3_224,
    Algorithm::Sha3_256,
    Algorithm::Sha3_384,
    Algorithm::Sha3_512,
];

fn stream(alg: Algorithm, data: &[u8]) -> String {
    alg.get_checksum_string(&mut Cursor::new(data.to_vec())).unwrap()
}

/// Hands out its bytes a few at a time; if asked, is interrupted before the first read.
struct Trickle {
    data: Vec<u8>,
    pos: usize,
    step: usize,
    interrupt_next: bool,
}

impl Read for Trickle {
    fn read(&mut self, buf: &mut [u8]) -> std::io::Result<usize> {
        if self.interrupt_next {
            self.interrupt_next = false;
            return Err(Error::from(ErrorKind::Interrupted));
        }
        let n = self.step.min(buf.len()).min(self.data.len() - self.pos);
        buf[..n].copy_from_slice(&self.data[self.pos..self.pos + n]);
        self.pos += n;
        Ok(n)
    }
}

/// Produces `len` bytes of a fixed pattern without ever holding them.
struct Lazy {
    remaining: u64,
    counter: u8,
}

impl Read for Lazy {
    fn read(&mut self, buf: &mut [u8]) -> std::io::Result<usize> {
        let n = (buf.len() as u64).min(self.remaining) as usize;
        for b in buf[..n].iter_mut() {
            *b = self.counter;
            self.counter = self.counter.wrapping_mul(31).wrapping_add(7);
        }
        self.remaining -= n as u64;
        Ok(n)
    }
}

/// Yields some bytes, then fails.
struct Broken {
    sent: bool,
}

impl Read for Broken {
    fn read(&mut self, buf: &mut [u8]) -> std::io::Result<usize> {
        if self.sent {
            return Err(Error::new(ErrorKind::PermissionDenied, "denied"));
        }
        self.sent = true;
        buf[0] = 1;
        Ok(1)
    }
}

#[test]
fn empty_input_gives_known_digests() {
    let expected = [
        "00000000",
        "d41d8cd98f00b204e9800998ecf8427e",
        "da39a3ee5e6b4b0d3255bfef95601890afd80709",
        "e3b0c44298fc1c149afbf4c8996fb92427ae41e4649b934ca495991b7852b855",
        "cf83e1357eefb8bdf1542850d66d8007d620e4050b5715dc83f4a921d36ce9ce47d0d13c5d85f2b0ff8318d2877eec2f63b931bd47417a81a538327af927da3e",
        "6b4e03423667dbb73b6e15454f0eb1abd4597f9a1b078e3f5b5a6bc7",
        "a7ffc6f8bf1ed76651c14756a061d662f580ff4de43b49fa82d80a4b80f8434a",
        "0c63a75b845e4f7d01107d852e4c2485c51a50aaaa94fc61995e71bbee983a2ac3713831264adb47fb6bd1e058d5f004",
        "a69f73cca23a9ac5c8b567dc185a756e97c982164fe25859e0d1dcc1475c80a615b2123af1f5f94c11e3e9402c3ac558f500199d95b6d3e301758586281dcd26",
    ];
    for (alg, want) in ALL.iter().zip(expected.iter()) {
        assert_eq!(alg.checksum_bytes(&[]), *want, "{:?}", alg);
        assert_eq!(stream(*alg, &[]), *want, "{:?}", alg);
    }
}

#[test]
fn abc_matches_published_vectors() {
    let cases = [
        (Algorithm::Crc32, "352441c2"),
        (Algorithm::Md5, "900150983cd24fb0d6963f7d28e17f72"),
        (Algorithm::Sha1, "a9993e364706816aba3e25717850c26c9cd0d89d"),
        (Algorithm::Sha256, "ba7816bf8f01cfea414140de5dae2223b00361a396177a9cb410ff61f20015ad"),
        (Algorithm::Sha512, "ddaf35a193617abacc417349ae20413112e6fa4e89a97ea20a9eeee64b55d39a2192992a274fc1a836ba3c23a3feebbd454d4423643ce80e2a9ac94fa54ca49f"),
        (Algorithm::Sha3_256, "3a985da74fe225b2045c172d6bd390bd855f086e3e9d525b46bfe24511431532"),
        (Algorithm::Sha3_384, "ec01498288516fc926459f58e2c6ad8df9b473cb0fc08c2596da7cf0e49be4b298d88cea927ac7f539f1edf228376d25"),
        (Algorithm::Sha3_512, "b751850b1a57168a5693cd924b6b096e08f621827444f70d884f5d0240d2712e10e116e9192af3c91a7ec57647e3934057340b4cf408d5a56592f8274eec53f0"),
    ];
    for (alg, want) in cases.iter() {
        assert_eq!(alg.checksum_bytes(b"abc"), *want, "{:?}", alg);
        assert_eq!(stream(*alg, b"abc"), *want, "{:?}", alg);
    }
}

#[test]
fn crc32_check_value() {
    assert_eq!(Algorithm::Crc32.checksum_bytes(b"123456789"), "cbf43926");
}

#[test]
fn crc32_keeps_leading_zero_digits() {
    // a CRC-32 whose top byte is zero still prints as eight digits
    let mut found = false;
    for i in 0u32..100_000 {
        let s = Algorithm::Crc32.checksum_bytes(&i.to_le_bytes());
        assert_eq!(s.len(), 8);
        if s.starts_with("00") {
            found = true;
            break;
        }
    }
    assert!(found);
}

#[test]
fn result_width_and_digits() {
    let widths = [4usize, 16, 20, 32, 64, 28, 32, 48, 64];
    let data: Vec<u8> = (0..1000u32).map(|i| (i * 7 % 251) as u8).collect();
    for (alg, w) in ALL.iter().zip(widths.iter()) {
        assert_eq!(alg.output_width(), *w);
        let s = alg.checksum_bytes(&data);
        assert_eq!(s.len(), 2 * w);
        assert!(s.chars().all(|c| c.is_ascii_digit() || ('a'..='f').contains(&c)));
    }
}

#[test]
fn chunking_does_not_change_result() {
    let data: Vec<u8> = (0..20_000u32).map(|i| (i % 253) as u8).collect();
    for alg in ALL.iter() {
        let whole = alg.checksum_bytes(&data);
        for size in [1usize, 3, 64, 1000, 8191, 8192, 8193, 20_000] {
            let chunks: Vec<Vec<u8>> = data.chunks(size).map(|c| c.to_vec()).collect();
            assert_eq!(alg.checksum_chunks(&chunks), whole, "{:?} {}", alg, size);
        }
        let uneven = vec![vec![], data[..5].to_vec(), vec![], data[5..].to_vec()];
        assert_eq!(alg.checksum_chunks(&uneven), whole);
        assert_eq!(alg.checksum_chunks(&vec![]), alg.checksum_bytes(&[]));
        assert_eq!(stream(*alg, &data), whole);
    }
}

#[test]
fn short_reads() {
    let data: Vec<u8> = (0..3000u32).map(|i| (i % 97) as u8).collect();
    for alg in ALL.iter() {
        for step in [1usize, 7, 4096] {
            let mut src = Trickle { data: data.clone(), pos: 0, step, interrupt_next: false };
            assert_eq!(alg.get_checksum_string(&mut src).unwrap(), alg.checksum_bytes(&data));
        }
    }
}

#[test]
fn interrupted_read_is_not_retried() {
    let mut src = Trickle { data: b"abc".to_vec(), pos: 0, step: 3, interrupt_next: true };
    let err = Algorithm::Md5.get_checksum_string(&mut src).unwrap_err();
    assert_eq!(err.kind(), ErrorKind::Interrupted);
    assert_eq!(src.pos, 0);
}

/// Claims to have read more than the buffer holds.
struct Overcount;

impl Read for Overcount {
    fn read(&mut self, buf: &mut [u8]) -> std::io::Result<usize> {
        Ok(buf.len() + 1)
    }
}

#[test]
fn impossible_read_count_is_an_error() {
    let err = Algorithm::Crc32.get_checksum_string(&mut Overcount).unwrap_err();
    assert_eq!(err.kind(), ErrorKind::InvalidData);
}

#[test]
fn step_after_each_read() {
    let alg = Algorithm::Sha256;
    let acc = Accumulator::new(alg);
    let acc = match alg.after_read(acc, 0, Ok(b"ab")) {
        Step::Continue(a) => a,
        _ => panic!("expected to go on reading"),
    };
    let acc = match alg.after_read(acc, 2, Ok(b"c")) {
        Step::Continue(a) => a,
        _ => panic!("expected to go on reading"),
    };
    match alg.after_read(acc, 3, Ok(b"")) {
        Step::Done(s) => {
            assert_eq!(s, "ba7816bf8f01cfea414140de5dae2223b00361a396177a9cb410ff61f20015ad")
        },
        _ => panic!("expected the end of input"),
    }
    match Algorithm::Crc32.after_read(Accumulator::new(Algorithm::Crc32), 0, Ok(b"")) {
        Step::Done(s) => assert_eq!(s, "00000000"),
        _ => panic!("expected the end of input"),
    }
    match alg.after_read(Accumulator::new(alg), 0, Err(Error::new(ErrorKind::NotFound, "gone"))) {
        Step::Failed(e) => {
            assert_eq!(e.kind(), ErrorKind::NotFound);
            assert_eq!(e.to_string(), "gone");
        },
        _ => panic!("expected the read error"),
    }
}

#[test]
fn same_bytes_same_checksum() {
    let data = b"the same bytes twice".to_vec();
    for alg in ALL.iter() {
        assert_eq!(alg.checksum_bytes(&data), alg.checksum_bytes(&data));
        assert_eq!(stream(*alg, &data), stream(*alg, &data));
    }
    assert_ne!(Algorithm::Md5.checksum_bytes(b"a"), Algorithm::Md5.checksum_bytes(b"b"));
}

#[test]
fn large_input_streams_through_fixed_buffer() {
    let len: u64 = 8 * 1024 * 1024 + 5;
    for alg in [Algorithm::Crc32, Algorithm::Md5] {
        let streamed = alg.get_checksum_string(&mut Lazy { remaining: len, counter: 1 }).unwrap();
        let mut acc = Accumulator::new(alg);
        let mut gen = Lazy { remaining: len, counter: 1 };
        let mut buf = vec![0u8; 1000];
        loop {
            let n = gen.read(&mut buf).unwrap();
            if n == 0 {
                break;
            }
            acc.absorb(&buf[..n]);
        }
        let digest = acc.finalize();
        let hex: String = digest.iter().map(|b| format!("{:02x}", b)).collect();
        assert_eq!(streamed, hex);
    }
    assert!(CHUNK_LEN < 8 * 1024 * 1024);
}

#[test]
fn read_error_is_returned_as_is() {
    let err = Algorithm::Sha256.get_checksum_string(&mut Broken { sent: false }).unwrap_err();
    assert_eq!(err.kind(), ErrorKind::PermissionDenied);
    assert_eq!(err.to_string(), "denied");
}

#[test]
fn accumulator_gives_native_output() {
    let mut acc = Accumulator::new(Algorithm::Crc32);
    acc.absorb(b"1234");
    acc.absorb(b"56789");
    assert_eq!(acc.finalize(), vec![0xcb, 0xf4, 0x39, 0x26]);
    let mut acc = Accumulator::new(Algorithm::Sha1);
    acc.absorb(b"a");
    acc.absorb(b"bc");
    let out = acc.finalize();
    assert_eq!(out.len(), 20);
    assert_eq!(out[..4], [0xa9, 0x99, 0x3e, 0x36]);
}

#[test]
fn names_select_ignoring_case() {
    assert_eq!(Algorithm::from_name("crc32"), Some(Algorithm::Crc32));
    assert_eq!(Algorithm::from_name("MD5"), Some(Algorithm::Md5));
    assert_eq!(Algorithm::from_name("Sha1"), Some(Algorithm::Sha1));
    assert_eq!(Algorithm::from_name("sHa256"), Some(Algorithm::Sha256));
    assert_eq!(Algorithm::from_name("SHA512"), Some(Algorithm::Sha512));
    assert_eq!(Algorithm::from_name("sha3-224"), Some(Algorithm::Sha3_224));
    assert_eq!(Algorithm::from_name("SHA3-256"), Some(Algorithm::Sha3_256));
    assert_eq!(Algorithm::from_name("Sha3-384"), Some(Algorithm::Sha3_384));
    assert_eq!(Algorithm::from_name("sha3-512"), Some(Algorithm::Sha3_512));
}

#[test]
fn unknown_names_are_refused() {
    for name in ["", "blake2", "sha3_256", "sha3", "md5 ", " md5", "sha-256", "crc", "md5x", "ſha1"] {
        assert_eq!(Algorithm::from_name(name), None, "{:?}", name);
    }
}

#[test]
fn every_algorithm_listed_in_order_under_its_name() {
    let all = Algorithm::all();
    assert_eq!(all, ALL.to_vec());
    let mut sorted = all.clone();
    sorted.sort();
    assert_eq!(sorted, all);
    for alg in all {
        assert_eq!(Algorithm::from_name(alg.name()), Some(alg));
        assert_eq!(Algorithm::from_name(&alg.name().to_uppercase()), Some(alg));
    }
    assert_eq!(Algorithm::Sha3_224.name(), "sha3-224");
}

#[test]
fn report_lines_in_input_order() {
    let a = Algorithm::Md5.checksum_bytes(b"first");
    let b = Algorithm::Md5.checksum_bytes(b"second");
    let lines = vec![checksum_line(&a, "dir/a.txt"), checksum_line(&b, "./b file")];
    assert_eq!(lines[0], format!("{} *dir/a.txt", a));
    assert_eq!(lines[1], format!("{} *./b file", b));
    assert_eq!(
        checksum_line("d41d8cd98f00b204e9800998ecf8427e", "empty"),
        "d41d8cd98f00b204e9800998ecf8427e *empty"
    );
}
